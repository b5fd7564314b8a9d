//! The timer state machine: its phases, the cycle count and the commands
//! that change them.
use vstd::prelude::*;
use crate::clock::{
    Now, bound, clamp, hour_and_minute, in_range, local_hour, local_minute, NANOS_PER_MILLISECOND,
    NANOS_PER_MINUTE, NANOS_PER_SECOND,
};
use crate::text::{push_text, push_char, push_two_digits, two_digits};

verus! {

/// Why a command could not be carried out.
#[derive(Clone, Copy, Debug, PartialEq, Eq, Structural)]
pub enum WorldError {
    /// The command needs a running or paused timer, and the timer is idle.
    NoTimerExisting,
    /// A timer is already active. This timer never refuses `start` for
    /// that reason (it pauses or resumes instead); the kind exists so that
    /// replies can carry it.
    TimerAlreadyExisting,
}

impl WorldError {
    /// A short description for the person who gave the command.
    pub fn describe(&self) -> (r: &'static str)
        ensures
            *self == WorldError::NoTimerExisting ==> r@ == "no timer exists right now"@,
            *self == WorldError::TimerAlreadyExisting ==> r@ == "there already exists a timer"@,
    {
        match self {
            WorldError::NoTimerExisting => "no timer exists right now",
            WorldError::TimerAlreadyExisting => "there already exists a timer",
        }
    }
}

/// The phase of the timer. A completion command, when present, is a shell
/// command line run when the timer expires.
#[derive(Debug)]
pub enum TimerKind {
    Idle,
    Running { expiry: i128, command: Option<Vec<u8>> },
    Paused { time_left: i128, command: Option<Vec<u8>> },
}

/// The single countdown timer. `cycles` counts the timers that ran out;
/// an even count means a focus period comes next, an odd one a break.
#[derive(Debug)]
pub struct Timer {
    pub cycles: u64,
    pub kind: TimerKind,
}

/// What a successful command leaves to do: the text of a desktop
/// notification to show, if any.
pub type Notice = Option<String>;

/// The notice's text, as a sequence of characters.
pub open spec fn notice_text(r: Result<Notice, WorldError>) -> Option<Seq<char>> {
    match r {
        Ok(Some(s)) => Some(s@),
        _ => None,
    }
}

/// Length in minutes of the timer started after `cycles` completed ones:
/// positions 1, 3 and 5 of every eight are short breaks.
pub open spec fn minutes_for(cycles: u64) -> int {
    let p = cycles % 8;
    if p == 1 || p == 3 || p == 5 {
        5
    } else {
        25
    }
}

/// The cycle count after one more timer ran out (it wraps, which keeps
/// its position among the eight).
pub open spec fn next_cycle(cycles: u64) -> u64 {
    if cycles == u64::MAX {
        0
    } else {
        (cycles + 1) as u64
    }
}

/// "Timer expires at HH:MM", in local time.
pub open spec fn expiry_text(expiry: int, offset_seconds: int) -> Seq<char> {
    "Timer expires at "@ + two_digits(local_hour(expiry, offset_seconds) as nat) + seq![':']
        + two_digits(local_minute(expiry, offset_seconds) as nat)
}

/// The expiry of a timer started at `now` after `cycles` completed ones.
pub open spec fn start_expiry(cycles: u64, now: Now) -> int {
    bound(now.unix_nanos + minutes_for(cycles) * NANOS_PER_MINUTE - NANOS_PER_MILLISECOND)
}

/// The phase of a timer started at `now` after `cycles` completed ones.
pub open spec fn started(cycles: u64, command: Option<Vec<u8>>, now: Now) -> TimerKind {
    TimerKind::Running { expiry: start_expiry(cycles, now) as i128, command }
}

/// The phase after pausing or resuming at `now`; Idle stays Idle.
pub open spec fn toggled(k: TimerKind, now: int) -> TimerKind {
    match k {
        TimerKind::Running { expiry, command } => TimerKind::Paused {
            time_left: bound(expiry - now) as i128,
            command,
        },
        TimerKind::Paused { time_left, command } => TimerKind::Running {
            expiry: bound(now + time_left) as i128,
            command,
        },
        TimerKind::Idle => TimerKind::Idle,
    }
}

/// The notice given on pausing or resuming at `now`.
pub open spec fn toggle_notice(k: TimerKind, now: Now) -> Option<Seq<char>> {
    match k {
        TimerKind::Running { .. } => Some("Timer paused"@),
        TimerKind::Paused { time_left, .. } => Some(
            expiry_text(bound(now.unix_nanos + time_left), now.utc_offset_seconds as int),
        ),
        TimerKind::Idle => None,
    }
}

/// The phase after shifting the timer by `seconds`; Idle stays Idle.
pub open spec fn increased(k: TimerKind, seconds: int) -> TimerKind {
    match k {
        TimerKind::Running { expiry, command } => TimerKind::Running {
            expiry: bound(expiry + seconds * NANOS_PER_SECOND) as i128,
            command,
        },
        TimerKind::Paused { time_left, command } => TimerKind::Paused {
            time_left: bound(time_left + seconds * NANOS_PER_SECOND) as i128,
            command,
        },
        TimerKind::Idle => TimerKind::Idle,
    }
}

/// The notice given after shifting a timer, given its new phase: the new
/// expiry of a running one, nothing for a paused one.
pub open spec fn increase_notice(k: TimerKind, now: Now) -> Option<Seq<char>> {
    match k {
        TimerKind::Running { expiry, .. } => Some(
            expiry_text(expiry as int, now.utc_offset_seconds as int),
        ),
        _ => None,
    }
}

/// The phase after skipping to the end at `now`; Idle stays Idle.
pub open spec fn skipped(k: TimerKind, now: int) -> TimerKind {
    match k {
        TimerKind::Running { command, .. } => TimerKind::Running { expiry: now as i128, command },
        TimerKind::Paused { command, .. } => TimerKind::Running { expiry: now as i128, command },
        TimerKind::Idle => TimerKind::Idle,
    }
}

/// Whether the timer runs and its expiry is not after `now`.
pub open spec fn expired(k: TimerKind, now: int) -> bool {
    match k {
        TimerKind::Running { expiry, .. } => expiry <= now,
        _ => false,
    }
}

impl TimerKind {
    pub open spec fn wf(&self) -> bool {
        match *self {
            TimerKind::Running { expiry, .. } => in_range(expiry as int),
            TimerKind::Paused { time_left, .. } => in_range(time_left as int),
            TimerKind::Idle => true,
        }
    }
}

impl Timer {
    pub open spec fn wf(&self) -> bool {
        self.kind.wf()
    }

    /// An idle timer that has completed no cycle.
    pub fn new() -> (r: Timer)
        ensures
            r.cycles == 0,
            r.kind is Idle,
            r.wf(),
    {
        Timer { cycles: 0, kind: TimerKind::Idle }
    }

    /// The tooltip of a running timer: when it expires, in local time.
    pub fn tooltip(expiry: i128, utc_offset_seconds: i32) -> (r: String)
        requires
            in_range(expiry as int),
        ensures
            r@ == expiry_text(expiry as int, utc_offset_seconds as int),
    {
        let (hour, minute) = hour_and_minute(expiry, utc_offset_seconds);
        let mut s = String::new();
        push_text(&mut s, "Timer expires at ");
        push_two_digits(&mut s, hour);
        push_char(&mut s, ':');
        push_two_digits(&mut s, minute);
        assert(s@ =~= expiry_text(expiry as int, utc_offset_seconds as int));
        s
    }

    /// Ends the timer, whatever its phase. Cancelling an idle timer starts
    /// the cycle count over; cancelling an active one tells the user.
    pub fn cancel(&mut self) -> (r: Result<Notice, WorldError>)
        ensures
            r is Ok,
            final(self).kind is Idle,
            old(self).kind is Idle ==> final(self).cycles == 0 && notice_text(r) is None,
            !(old(self).kind is Idle) ==> final(self).cycles == old(self).cycles
                && notice_text(r) == Some("Timer canceled"@),
            final(self).wf(),
    {
        match self.kind {
            TimerKind::Idle => {
                self.cycles = 0;
                Ok(None)
            },
            _ => {
                self.kind = TimerKind::Idle;
                Ok(Some(String::from_str("Timer canceled")))
            },
        }
    }
    /// Pauses a running timer, keeping the time left, or resumes a paused
    /// one, expiring that much time after `now`.
    pub fn togglepause(&mut self, now: &Now) -> (r: Result<Notice, WorldError>)
        requires
            old(self).wf(),
            now.wf(),
        ensures
            old(self).kind is Idle ==> r == Err::<Notice, WorldError>(WorldError::NoTimerExisting)
                && *final(self) == *old(self),
            !(old(self).kind is Idle) ==> r is Ok && notice_text(r) == toggle_notice(
                old(self).kind,
                *now,
            ),
            final(self).kind == toggled(old(self).kind, now.unix_nanos as int),
            final(self).cycles == old(self).cycles,
            final(self).wf(),
    {
        let mut kind = TimerKind::Idle;
        std::mem::swap(&mut self.kind, &mut kind);
        match kind {
            TimerKind::Running { expiry, command } => {
                let time_left = clamp(expiry - now.unix_nanos);
                self.kind = TimerKind::Paused { time_left, command };
                Ok(Some(String::from_str("Timer paused")))
            },
            TimerKind::Paused { time_left, command } => {
                let expiry = clamp(now.unix_nanos + time_left);
                self.kind = TimerKind::Running { expiry, command };
                Ok(Some(Self::tooltip(expiry, now.utc_offset_seconds)))
            },
            TimerKind::Idle => Err(WorldError::NoTimerExisting),
        }
    }

    /// Starts a timer when none is active, of the length that the cycle
    /// count gives, ending one millisecond short of the whole minutes. On
    /// an active timer it pauses or resumes instead.
    pub fn start(&mut self, command: Option<Vec<u8>>, now: &Now) -> (r: Result<Notice, WorldError>)
        requires
            old(self).wf(),
            now.wf(),
        ensures
            r is Ok,
            final(self).cycles == old(self).cycles,
            old(self).kind is Idle ==> final(self).kind == started(old(self).cycles, command, *now)
                && notice_text(r) == Some(
                expiry_text(start_expiry(old(self).cycles, *now), now.utc_offset_seconds as int),
            ),
            !(old(self).kind is Idle) ==> final(self).kind == toggled(
                old(self).kind,
                now.unix_nanos as int,
            ) && notice_text(r) == toggle_notice(old(self).kind, *now),
            final(self).wf(),
    {
        let p = self.cycles % 8;
        let minutes: i128 = if p == 1 || p == 3 || p == 5 {
            5
        } else {
            25
        };
        match self.kind {
            TimerKind::Idle => {
                let expiry = clamp(
                    now.unix_nanos + minutes * NANOS_PER_MINUTE - NANOS_PER_MILLISECOND,
                );
                let notice = Self::tooltip(expiry, now.utc_offset_seconds);
                self.kind = TimerKind::Running { expiry, command };
                Ok(Some(notice))
            },
            _ => self.togglepause(now),
        }
    }

    /// Moves the end of the timer by `seconds` (earlier when negative).
    pub fn increase(&mut self, seconds: i64, now: &Now) -> (r: Result<Notice, WorldError>)
        requires
            old(self).wf(),
        ensures
            old(self).kind is Idle ==> r == Err::<Notice, WorldError>(WorldError::NoTimerExisting)
                && *final(self) == *old(self),
            !(old(self).kind is Idle) ==> r is Ok,
            final(self).kind == increased(old(self).kind, seconds as int),
            final(self).cycles == old(self).cycles,
            notice_text(r) == increase_notice(final(self).kind, *now),
            final(self).wf(),
    {
        let delta: i128 = (seconds as i128) * NANOS_PER_SECOND;
        match self.kind {
            TimerKind::Running { ref mut expiry, .. } => {
                *expiry = clamp(*expiry + delta);
                Ok(Some(Self::tooltip(*expiry, now.utc_offset_seconds)))
            },
            TimerKind::Paused { ref mut time_left, .. } => {
                *time_left = clamp(*time_left + delta);
                Ok(None)
            },
            TimerKind::Idle => Err(WorldError::NoTimerExisting),
        }
    }

    /// Makes the timer end at `now`: a running one expires on the next
    /// update; a paused one is resumed with no time left.
    pub fn skip(&mut self, now: &Now) -> (r: Result<Notice, WorldError>)
        requires
            old(self).wf(),
            now.wf(),
        ensures
            old(self).kind is Idle ==> r == Err::<Notice, WorldError>(WorldError::NoTimerExisting)
                && *final(self) == *old(self),
            old(self).kind is Running ==> r is Ok && notice_text(r) is None,
            old(self).kind is Paused ==> r is Ok && notice_text(r) == Some(
                expiry_text(now.unix_nanos as int, now.utc_offset_seconds as int),
            ),
            final(self).kind == skipped(old(self).kind, now.unix_nanos as int),
            final(self).cycles == old(self).cycles,
            final(self).wf(),
    {
        match self.kind {
            TimerKind::Idle => Err(WorldError::NoTimerExisting),
            TimerKind::Running { ref mut expiry, .. } => {
                *expiry = now.unix_nanos;
                Ok(None)
            },
            TimerKind::Paused { ref mut time_left, .. } => {
                *time_left = 0;
                self.togglepause(now)
            },
        }
    }
}

} // verus!
