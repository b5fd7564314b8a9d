use waybar_timer::clock::{Now, NANOS_PER_MILLISECOND, NANOS_PER_MINUTE, NANOS_PER_SECOND};
use waybar_timer::server::ServerState;
use waybar_timer::timer::{Timer, TimerKind, WorldError};

// 2023-11-14 22:13:20 UTC
const T0: i128 = 1_700_000_000 * NANOS_PER_SECOND;

fn at(unix_nanos: i128) -> Now {
    Now { unix_nanos, utc_offset_seconds: 0 }
}

fn running(expiry: i128, command: Option<Vec<u8>>) -> Timer {
    Timer { cycles: 0, kind: TimerKind::Running { expiry, command } }
}

fn paused(time_left: i128, command: Option<Vec<u8>>) -> Timer {
    Timer { cycles: 0, kind: TimerKind::Paused { time_left, command } }
}

fn expiry_of(t: &Timer) -> i128 {
    match t.kind {
        TimerKind::Running { expiry, .. } => expiry,
        _ => panic!("timer is not running: {:?}", t),
    }
}

#[test]
fn start_from_idle_runs_a_focus_period() {
    let now = at(T0);
    let mut t = Timer::new();
    let notice = t.start(None, &now).unwrap();
    assert_eq!(expiry_of(&t), T0 + 25 * NANOS_PER_MINUTE - NANOS_PER_MILLISECOND);
    assert_eq!(notice.as_deref(), Some("Timer expires at 22:38"));
    assert_eq!(t.cycles, 0);
    let s = t.status(&now);
    assert_eq!(s.text, 25);
    assert_eq!(s.alt, "running-focus");
    assert_eq!(s.class, "focus");
    assert_eq!(s.tooltip, "Timer expires at 22:38");
    assert_eq!(
        s.line(),
        "{\"text\": \"25\", \"alt\": \"running-focus\", \"tooltip\": \"Timer expires at 22:38\", \"class\": \"focus\"}"
    );
}

#[test]
fn start_after_one_cycle_runs_a_short_break() {
    let now = at(T0);
    let mut t = Timer { cycles: 1, kind: TimerKind::Idle };
    t.start(Some(b"echo done".to_vec()), &now).unwrap();
    assert_eq!(expiry_of(&t), T0 + 5 * NANOS_PER_MINUTE - NANOS_PER_MILLISECOND);
    let s = t.status(&now);
    assert_eq!(s.text, 5);
    assert_eq!(s.alt, "running-break");
    assert_eq!(s.class, "break");
}

#[test]
fn start_after_seven_cycles_runs_a_long_period() {
    let mut t = Timer { cycles: 7, kind: TimerKind::Idle };
    t.start(None, &at(T0)).unwrap();
    assert_eq!(expiry_of(&t), T0 + 25 * NANOS_PER_MINUTE - NANOS_PER_MILLISECOND);
}

#[test]
fn start_while_running_pauses() {
    let now = at(T0);
    let mut t = running(T0 + 3 * NANOS_PER_MINUTE, Some(b"x".to_vec()));
    let notice = t.start(None, &now).unwrap();
    assert_eq!(notice.as_deref(), Some("Timer paused"));
    match t.kind {
        TimerKind::Paused { time_left, ref command } => {
            assert_eq!(time_left, 3 * NANOS_PER_MINUTE);
            assert_eq!(command.as_deref(), Some(&b"x"[..]));
        }
        _ => panic!("not paused"),
    }
}

#[test]
fn decrease_by_ten_minutes_expires_on_next_update() {
    let now = at(T0);
    let mut t = running(T0 + 10 * NANOS_PER_MINUTE, None);
    assert_eq!(t.status(&now).text, 11);
    let notice = t.increase(-600, &now).unwrap();
    assert_eq!(expiry_of(&t), T0);
    assert_eq!(notice.as_deref(), Some("Timer expires at 22:13"));
    let tick = t.update(&now);
    assert!(matches!(t.kind, TimerKind::Idle));
    assert_eq!(t.cycles, 1);
    assert!(tick.run.is_none());
    assert_eq!(tick.status.text, 0);
    assert_eq!(tick.status.alt, "standby-break");
    assert_eq!(tick.status.class, "idle");
}

#[test]
fn increase_paused_shifts_time_left_quietly() {
    let mut t = paused(5 * NANOS_PER_MINUTE, None);
    let notice = t.increase(90, &at(T0)).unwrap();
    assert!(notice.is_none());
    match t.kind {
        TimerKind::Paused { time_left, .. } => assert_eq!(time_left, 390 * NANOS_PER_SECOND),
        _ => panic!("not paused"),
    }
}

#[test]
fn cancel_from_idle_resets_cycles() {
    let mut t = Timer { cycles: 3, kind: TimerKind::Idle };
    let notice = t.cancel().unwrap();
    assert!(notice.is_none());
    assert!(matches!(t.kind, TimerKind::Idle));
    assert_eq!(t.cycles, 0);
}

#[test]
fn cancel_active_keeps_cycles_and_notifies() {
    let mut t = running(T0, None);
    t.cycles = 4;
    let notice = t.cancel().unwrap();
    assert_eq!(notice.as_deref(), Some("Timer canceled"));
    assert!(matches!(t.kind, TimerKind::Idle));
    assert_eq!(t.cycles, 4);
}

#[test]
fn skip_paused_resumes_and_expires() {
    let now = at(T0);
    let mut t = paused(5 * NANOS_PER_MINUTE, Some(b"notify-send hi".to_vec()));
    let notice = t.skip(&now).unwrap();
    assert_eq!(notice.as_deref(), Some("Timer expires at 22:13"));
    assert_eq!(expiry_of(&t), T0);
    let tick = t.update(&now);
    assert!(matches!(t.kind, TimerKind::Idle));
    assert_eq!(t.cycles, 1);
    assert_eq!(tick.run, Some(b"notify-send hi".to_vec()));
}

#[test]
fn skip_running_sets_expiry_to_now() {
    let now = at(T0);
    let mut t = running(T0 + 7 * NANOS_PER_MINUTE, None);
    assert!(t.skip(&now).unwrap().is_none());
    assert_eq!(expiry_of(&t), T0);
}

#[test]
fn increase_and_skip_on_idle_fail() {
    let now = at(T0);
    let mut t = Timer { cycles: 2, kind: TimerKind::Idle };
    assert_eq!(t.increase(60, &now), Err(WorldError::NoTimerExisting));
    assert_eq!(t.skip(&now), Err(WorldError::NoTimerExisting));
    assert_eq!(t.togglepause(&now), Err(WorldError::NoTimerExisting));
    assert!(matches!(t.kind, TimerKind::Idle));
    assert_eq!(t.cycles, 2);
}

#[test]
fn togglepause_twice_restores_expiry() {
    let now = at(T0);
    let expiry = T0 + 12 * NANOS_PER_MINUTE + 345;
    let mut t = running(expiry, Some(b"cmd".to_vec()));
    assert_eq!(t.togglepause(&now).unwrap().as_deref(), Some("Timer paused"));
    let s = t.status(&now);
    assert_eq!(s.alt, "paused-focus");
    assert_eq!(s.tooltip, "Timer paused");
    assert_eq!(s.text, 13);
    assert_eq!(t.togglepause(&now).unwrap().as_deref(), Some("Timer expires at 22:25"));
    assert_eq!(expiry_of(&t), expiry);
    match t.kind {
        TimerKind::Running { ref command, .. } => assert_eq!(command.as_deref(), Some(&b"cmd"[..])),
        _ => panic!("not running"),
    }
}

#[test]
fn resume_later_moves_expiry() {
    let mut t = paused(2 * NANOS_PER_MINUTE, None);
    t.togglepause(&at(T0)).unwrap();
    assert_eq!(expiry_of(&t), T0 + 2 * NANOS_PER_MINUTE);
}

#[test]
fn idle_renders_standby_line() {
    let t = Timer::new();
    assert_eq!(
        t.status(&at(T0)).line(),
        "{\"text\": \"0\", \"alt\": \"standby-focus\", \"tooltip\": \"No timer set\", \"class\": \"idle\"}"
    );
}

#[test]
fn paused_minutes_round_down_then_add_one() {
    let now = at(T0);
    assert_eq!(paused(0, None).status(&now).text, 1);
    assert_eq!(paused(59 * NANOS_PER_SECOND, None).status(&now).text, 1);
    assert_eq!(paused(60 * NANOS_PER_SECOND, None).status(&now).text, 2);
    assert_eq!(paused(-30 * NANOS_PER_SECOND, None).status(&now).text, 0);
    let below = paused(-90 * NANOS_PER_SECOND, None).status(&now);
    assert_eq!(below.text, -1);
    assert!(below.line().starts_with("{\"text\": \"-1\""));
}

#[test]
fn running_timer_not_yet_due_keeps_running() {
    let now = at(T0);
    let mut t = running(T0 + 1, Some(b"x".to_vec()));
    let tick = t.update(&now);
    assert!(tick.run.is_none());
    assert_eq!(tick.status.text, 1);
    assert_eq!(expiry_of(&t), T0 + 1);
}

#[test]
fn tooltip_uses_local_offset() {
    assert_eq!(Timer::tooltip(T0, 0), "Timer expires at 22:13");
    assert_eq!(Timer::tooltip(T0, 2 * 3600), "Timer expires at 00:13");
    assert_eq!(Timer::tooltip(T0, -(5 * 3600 + 1800)), "Timer expires at 16:43");
    assert_eq!(Timer::tooltip(-NANOS_PER_SECOND, 0), "Timer expires at 23:59");
    assert_eq!(Timer::tooltip(0, 0), "Timer expires at 00:00");
}

#[test]
fn cycle_count_wraps_to_zero() {
    let now = at(T0);
    let mut t = running(T0, None);
    t.cycles = u64::MAX;
    t.update(&now);
    assert_eq!(t.cycles, 0);
}

#[test]
fn huge_increase_is_clamped() {
    let mut t = running(T0, None);
    t.increase(i64::MAX, &at(T0)).unwrap();
    assert_eq!(expiry_of(&t), waybar_timer::clock::LIMIT);
}

#[test]
fn error_descriptions() {
    assert_eq!(WorldError::NoTimerExisting.describe(), "no timer exists right now");
    assert_eq!(WorldError::TimerAlreadyExisting.describe(), "there already exists a timer");
}

#[test]
fn new_subscriber_gets_current_status() {
    let now = at(T0);
    let mut state: ServerState<u32> = ServerState::new();
    state.timer.start(None, &now).unwrap();
    let tick = state.subscribe(7, &now);
    assert_eq!(state.subs, vec![7]);
    assert_eq!(tick.status.text, 25);
    assert_eq!(tick.status.alt, "running-focus");
}

#[test]
fn failed_subscribers_are_dropped_in_order() {
    let now = at(T0);
    let mut state: ServerState<u32> = ServerState::new();
    for s in [1, 2, 3, 4] {
        state.subscribe(s, &now);
    }
    state.prune(&vec![true, false, true, false]);
    assert_eq!(state.subs, vec![1, 3]);
    state.prune(&vec![false, false]);
    assert!(state.subs.is_empty());
    let tick = state.update(&now);
    assert_eq!(tick.status.text, 0);
}
