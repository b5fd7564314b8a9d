//! The status line that readers of the updates channel receive, and the
//! periodic update that expires the timer and renders it.
use vstd::prelude::*;
use crate::clock::{Now, minutes_left, minutes_shown, NANOS_PER_MINUTE};
use crate::text::{decimal, push_decimal, push_text};
use crate::timer::{Timer, TimerKind, expired, expiry_text, next_cycle};

verus! {

/// The status of the timer as a status bar shows it.
pub struct Status {
    /// Minutes left, rounded up; 0 when idle.
    pub text: i128,
    /// The phase and the kind of period, such as `running-focus`.
    pub alt: String,
    pub tooltip: String,
    /// `idle`, or `focus` or `break` while a timer is active.
    pub class: String,
}

/// What one update hands back: the status to broadcast, and the completion
/// command to run when a timer has just run out.
pub struct Tick {
    pub status: Status,
    pub run: Option<Vec<u8>>,
}

pub open spec fn period_name(cycles: u64) -> Seq<char> {
    if cycles % 2 == 0 {
        "focus"@
    } else {
        "break"@
    }
}

pub open spec fn state_tag(k: TimerKind) -> Seq<char> {
    match k {
        TimerKind::Idle => "standby"@,
        TimerKind::Running { .. } => "running"@,
        TimerKind::Paused { .. } => "paused"@,
    }
}

pub open spec fn shown_minutes(k: TimerKind, now: int) -> int {
    match k {
        TimerKind::Idle => 0,
        TimerKind::Running { expiry, .. } => minutes_shown(expiry - now),
        TimerKind::Paused { time_left, .. } => minutes_shown(time_left as int),
    }
}

pub open spec fn tooltip_of(k: TimerKind, now: Now) -> Seq<char> {
    match k {
        TimerKind::Idle => "No timer set"@,
        TimerKind::Running { expiry, .. } => expiry_text(
            expiry as int,
            now.utc_offset_seconds as int,
        ),
        TimerKind::Paused { .. } => "Timer paused"@,
    }
}

pub open spec fn class_of(t: Timer) -> Seq<char> {
    match t.kind {
        TimerKind::Idle => "idle"@,
        _ => period_name(t.cycles),
    }
}

/// The status of `t` at `now`, field by field.
pub open spec fn status_matches(s: Status, t: Timer, now: Now) -> bool {
    &&& s.text == shown_minutes(t.kind, now.unix_nanos as int)
    &&& s.alt@ == state_tag(t.kind) + "-"@ + period_name(t.cycles)
    &&& s.tooltip@ == tooltip_of(t.kind, now)
    &&& s.class@ == class_of(t)
}

/// The line sent to status-bar readers: an object with the fields `text`,
/// `alt`, `tooltip` and `class`.
pub open spec fn payload(text: int, alt: Seq<char>, tooltip: Seq<char>, class: Seq<char>) -> Seq<
    char,
> {
    "{\"text\": \""@ + decimal(text) + "\", \"alt\": \""@ + alt + "\", \"tooltip\": \""@ + tooltip
        + "\", \"class\": \""@ + class + "\"}"@
}

/// The timer after an update at `now`: a running timer whose expiry has
/// come is idle, with one more cycle.
pub open spec fn after_tick(t: Timer, now: int) -> Timer {
    if expired(t.kind, now) {
        Timer { cycles: next_cycle(t.cycles), kind: TimerKind::Idle }
    } else {
        t
    }
}

impl Status {
    /// The status as one line of the updates channel (without the newline).
    pub fn line(&self) -> (r: String)
        requires
            self.text > i128::MIN,
        ensures
            r@ == payload(self.text as int, self.alt@, self.tooltip@, self.class@),
    {
        let mut s = String::new();
        push_text(&mut s, "{\"text\": \"");
        push_decimal(&mut s, self.text);
        push_text(&mut s, "\", \"alt\": \"");
        push_text(&mut s, self.alt.as_str());
        push_text(&mut s, "\", \"tooltip\": \"");
        push_text(&mut s, self.tooltip.as_str());
        push_text(&mut s, "\", \"class\": \"");
        push_text(&mut s, self.class.as_str());
        push_text(&mut s, "\"}");
        assert(s@ =~= payload(self.text as int, self.alt@, self.tooltip@, self.class@));
        s
    }
}

impl Timer {
    /// The status of the timer at `now`. Never fails.
    pub fn status(&self, now: &Now) -> (r: Status)
        requires
            self.wf(),
            now.wf(),
        ensures
            status_matches(r, *self, *now),
            r.text > i128::MIN,
    {
        let period = if self.cycles % 2 == 0 {
            "focus"
        } else {
            "break"
        };
        let mut alt = String::new();
        let (text, tag, tooltip, class): (i128, &str, String, &str) = match self.kind {
            TimerKind::Idle => (0, "standby", String::from_str("No timer set"), "idle"),
            TimerKind::Running { expiry, .. } => (
                minutes_left(expiry - now.unix_nanos),
                "running",
                Self::tooltip(expiry, now.utc_offset_seconds),
                period,
            ),
            TimerKind::Paused { time_left, .. } => (
                minutes_left(time_left),
                "paused",
                String::from_str("Timer paused"),
                period,
            ),
        };
        push_text(&mut alt, tag);
        push_text(&mut alt, "-");
        push_text(&mut alt, period);
        Status { text, alt, tooltip, class: String::from_str(class) }
    }

    /// Expires a running timer whose time has come (one more cycle, and
    /// its completion command is handed back to run), then renders the
    /// timer.
    pub fn update(&mut self, now: &Now) -> (r: Tick)
        requires
            old(self).wf(),
            now.wf(),
        ensures
            *final(self) == after_tick(*old(self), now.unix_nanos as int),
            final(self).wf(),
            status_matches(r.status, *final(self), *now),
            r.status.text > i128::MIN,
            expired(old(self).kind, now.unix_nanos as int) ==> (old(self).kind matches TimerKind::Running { command, .. } && r.run == command),
            !expired(old(self).kind, now.unix_nanos as int) ==> r.run is None,
            !(final(self).kind is Running) || r.status.text >= 1,
    {
        let mut run: Option<Vec<u8>> = None;
        let due = match self.kind {
            TimerKind::Running { expiry, .. } => expiry <= now.unix_nanos,
            _ => false,
        };
        if due {
            let mut kind = TimerKind::Idle;
            std::mem::swap(&mut self.kind, &mut kind);
            if let TimerKind::Running { command, .. } = kind {
                run = command;
            }
            self.cycles = if self.cycles == u64::MAX {
                0
            } else {
                self.cycles + 1
            };
        }
        let status = self.status(now);
        Tick { status, run }
    }
}

} // verus!
