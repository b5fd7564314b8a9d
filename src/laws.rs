//! Properties that hold across calls.
use vstd::prelude::*;
use crate::clock::{in_range, NANOS_PER_MINUTE};
use crate::render::{after_tick, shown_minutes};
use crate::server::kept;
use crate::timer::{Timer, TimerKind, toggled};

verus! {

/// The number of subscribers whose write succeeded.
pub open spec fn healthy_count(healthy: Seq<bool>) -> nat
    decreases healthy.len(),
{
    if healthy.len() == 0 {
        0
    } else {
        healthy_count(healthy.drop_last()) + if healthy.last() {
            1nat
        } else {
            0nat
        }
    }
}

/// The timer is always in exactly one phase: idle, running or paused.
pub proof fn lemma_one_phase(t: Timer)
    ensures
        (t.kind is Idle) as int + (t.kind is Running) as int + (t.kind is Paused) as int == 1,
{
}

/// Pausing and then resuming at the same instant gives back the running
/// timer with its expiry and command unchanged, as long as the time left
/// is within the stored range.
pub proof fn lemma_togglepause_twice(k: TimerKind, now: int)
    requires
        k.wf(),
        in_range(now),
        k matches TimerKind::Running { expiry, .. } && in_range(expiry - now),
    ensures
        toggled(toggled(k, now), now) == k,
{
}

/// After an update the status shows no negative minute count, unless a
/// paused timer was moved more than a minute past its end.
pub proof fn lemma_shown_minutes_non_negative(t: Timer, now: int)
    requires
        t.wf(),
        after_tick(t, now).kind matches TimerKind::Paused { time_left, .. } ==> time_left
            >= -NANOS_PER_MINUTE,
    ensures
        shown_minutes(after_tick(t, now).kind, now) >= 0,
{
    let u = after_tick(t, now);
    match u.kind {
        TimerKind::Running { expiry, .. } => {
            assert((expiry - now) / (NANOS_PER_MINUTE as int) >= 0);
        },
        TimerKind::Paused { time_left, .. } => {
            assert((time_left as int) / (NANOS_PER_MINUTE as int) >= -1);
        },
        TimerKind::Idle => {},
    }
}

/// Pruning keeps exactly the subscribers whose write succeeded: as many as
/// succeeded, each one of them, and none whose write failed.
pub proof fn lemma_prune_keeps_healthy<S>(subs: Seq<S>, healthy: Seq<bool>)
    requires
        subs.len() == healthy.len(),
    ensures
        kept(subs, healthy).len() == healthy_count(healthy),
        forall|k: int|
            0 <= k < kept(subs, healthy).len() ==> exists|i: int|
                0 <= i < subs.len() && healthy[i] && subs[i] == #[trigger] kept(subs, healthy)[k],
    decreases subs.len(),
{
    if subs.len() > 0 {
        let s0 = subs.drop_last();
        let h0 = healthy.drop_last();
        lemma_prune_keeps_healthy(s0, h0);
        let rest = kept(s0, h0);
        assert forall|k: int| 0 <= k < kept(subs, healthy).len() implies exists|i: int|
            0 <= i < subs.len() && healthy[i] && subs[i] == #[trigger] kept(subs, healthy)[k] by {
            if k < rest.len() {
                assert(kept(subs, healthy)[k] == rest[k]);
                let i = choose|i: int| 0 <= i < s0.len() && h0[i] && s0[i] == #[trigger] rest[k];
                assert(healthy[i] && subs[i] == kept(subs, healthy)[k]);
            } else {
                let i = subs.len() - 1;
                assert(healthy[i] && subs[i] == kept(subs, healthy)[k]);
            }
        }
    }
}

} // verus!
