//! The state that the service shares between its tasks: the timer and the
//! subscribers of the updates channel, in order of arrival.
use vstd::prelude::*;
use crate::clock::Now;
use crate::render::{Tick, after_tick, status_matches};
use crate::timer::Timer;

verus! {

/// The subscribers whose write succeeded, in their order. `healthy[i]` says
/// whether the write to `subs[i]` succeeded.
pub open spec fn kept<S>(subs: Seq<S>, healthy: Seq<bool>) -> Seq<S>
    decreases subs.len(),
{
    if subs.len() == 0 || healthy.len() == 0 {
        Seq::empty()
    } else {
        let rest = kept(subs.drop_last(), healthy.drop_last());
        if healthy.last() {
            rest.push(subs.last())
        } else {
            rest
        }
    }
}

/// The timer and the subscribers of the updates channel.
pub struct ServerState<S> {
    pub timer: Timer,
    pub subs: Vec<S>,
}

impl<S> ServerState<S> {
    pub open spec fn wf(&self) -> bool {
        self.timer.wf()
    }

    /// An idle timer with no subscriber.
    pub fn new() -> (r: Self)
        ensures
            r.timer.cycles == 0,
            r.timer.kind is Idle,
            r.subs@.len() == 0,
            r.wf(),
    {
        ServerState { timer: Timer::new(), subs: Vec::new() }
    }

    /// Updates the timer at `now` and hands back what to broadcast to every
    /// subscriber, and the completion command to run, if any.
    pub fn update(&mut self, now: &Now) -> (r: Tick)
        requires
            old(self).wf(),
            now.wf(),
        ensures
            final(self).timer == after_tick(old(self).timer, now.unix_nanos as int),
            final(self).subs@ == old(self).subs@,
            status_matches(r.status, final(self).timer, *now),
            r.status.text > i128::MIN,
            final(self).wf(),
    {
        self.timer.update(now)
    }

    /// Registers a new subscriber, last in the broadcast order, and updates
    /// at once, so that it receives the current status without waiting for
    /// the next tick.
    pub fn subscribe(&mut self, sub: S, now: &Now) -> (r: Tick)
        requires
            old(self).wf(),
            now.wf(),
        ensures
            final(self).subs@ == old(self).subs@.push(sub),
            final(self).timer == after_tick(old(self).timer, now.unix_nanos as int),
            status_matches(r.status, final(self).timer, *now),
            r.status.text > i128::MIN,
            final(self).wf(),
    {
        self.subs.push(sub);
        self.update(now)
    }

    /// Drops the subscribers whose write failed, keeping the order of the
    /// others.
    pub fn prune(&mut self, healthy: &Vec<bool>)
        requires
            healthy@.len() == old(self).subs@.len(),
        ensures
            final(self).subs@ == kept(old(self).subs@, healthy@),
            final(self).timer == old(self).timer,
    {
        let mut rest: Vec<S> = Vec::new();
        std::mem::swap(&mut self.subs, &mut rest);
        let ghost all = rest@;
        let n = rest.len();
        let mut j: usize = 0;
        while rest.len() > 0
            invariant
                n == all.len(),
                healthy@.len() == n,
                j + rest@.len() == n,
                rest@ == all.skip(j as int),
                self.subs@ == kept(all.take(j as int), healthy@.take(j as int)),
                self.timer == old(self).timer,
            decreases rest@.len(),
        {
            let s = rest.remove(0);
            proof {
                assert(all.take(j + 1).drop_last() =~= all.take(j as int));
                assert(healthy@.take(j + 1).drop_last() =~= healthy@.take(j as int));
                assert(rest@ =~= all.skip(j + 1));
            }
            if healthy[j] {
                self.subs.push(s);
            }
            j = j + 1;
        }
        assert(all.take(n as int) =~= all);
        assert(healthy@.take(n as int) =~= healthy@);
    }
}

} // verus!
