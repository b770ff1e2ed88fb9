//! Sleep scheduler.
//!
//! The node spends most of its life in low-power sleep, but parts of the
//! main loop take out "stay awake" obligations (for instance: packets
//! still queued for the radio). The scheduler keeps one shared record —
//! an obligation counter and the next wake deadline — and gates every
//! sleep attempt on the counter being exactly zero. Obligations are
//! scoped [`SleepInhibitor`] handles: taking one increments the counter,
//! releasing it (exactly once, enforced by move semantics) decrements it
//! and re-evaluates the sleep condition at once.
//!
//! The scheduler only decides; programming the wake timer and entering
//! low-power sleep is hardware work done outside this crate with the
//! duration a [`SleepCommand`] carries.

use vstd::prelude::*;

verus! {

/// What the hardware glue must do after a scheduler operation: sleep
/// for the given number of microseconds, or stay awake.
pub type SleepCommand = Option<u64>;

/// One scheduler operation that moves the obligation counter.
#[derive(Debug, Clone, Copy, PartialEq, Eq, Structural)]
pub enum SleepOp {
    Acquire,
    Release,
}

/// One step of the obligation counter. A release never drives the
/// counter below zero: with every inhibitor released exactly once, the
/// saturating branch is unreachable.
pub open spec fn spec_step_counter(c: nat, op: SleepOp) -> nat {
    match op {
        SleepOp::Acquire => c + 1,
        SleepOp::Release => if c > 0 {
            (c - 1) as nat
        } else {
            0
        },
    }
}

/// The counter after a whole operation sequence, starting from zero.
pub open spec fn spec_counter_after(ops: Seq<SleepOp>) -> nat
    decreases ops.len(),
{
    if ops.len() == 0 {
        0
    } else {
        spec_step_counter(spec_counter_after(ops.drop_last()), ops.last())
    }
}

/// Number of acquires in an operation sequence.
pub open spec fn spec_acquires(ops: Seq<SleepOp>) -> nat
    decreases ops.len(),
{
    if ops.len() == 0 {
        0
    } else {
        spec_acquires(ops.drop_last()) + (if ops.last() is Acquire {
            1nat
        } else {
            0nat
        })
    }
}

/// Number of releases in an operation sequence.
pub open spec fn spec_releases(ops: Seq<SleepOp>) -> nat
    decreases ops.len(),
{
    if ops.len() == 0 {
        0
    } else {
        spec_releases(ops.drop_last()) + (if ops.last() is Release {
            1nat
        } else {
            0nat
        })
    }
}

/// The sleep decision over the shared state: sleep is commanded only
/// when no obligation is outstanding, a deadline is known and the
/// deadline has not passed; the commanded duration is the exact time
/// until the deadline. A deadline already in the past yields no sleep
/// at all — an immediate continuation, never an underflow.
pub open spec fn spec_sleep_decision(counter: nat, wake_us: Option<u64>, now_us: u64) -> Option<
    u64,
> {
    if counter == 0 {
        match wake_us {
            Some(w) => if w >= now_us {
                Some((w - now_us) as u64)
            } else {
                None
            },
            None => None,
        }
    } else {
        None
    }
}

/// For any interleaving of acquires and releases in which no prefix
/// releases more than it acquired, the counter equals the number of
/// acquires minus the number of releases at every point — in
/// particular, it never goes negative.
pub proof fn lemma_counter_tracks_balance(ops: Seq<SleepOp>)
    requires
        forall|i: int|
            0 <= i <= ops.len() ==> spec_releases(#[trigger] ops.take(i)) <= spec_acquires(
                ops.take(i),
            ),
    ensures
        spec_counter_after(ops) == spec_acquires(ops) - spec_releases(ops),
    decreases ops.len(),
{
    if ops.len() > 0 {
        let pre = ops.drop_last();
        assert forall|i: int| 0 <= i <= pre.len() implies spec_releases(
            #[trigger] pre.take(i),
        ) <= spec_acquires(pre.take(i)) by {
            assert(pre.take(i) =~= ops.take(i));
        }
        lemma_counter_tracks_balance(pre);
        assert(ops.take(ops.len() as int) =~= ops);
    }
}

/// A sleep command is only ever issued while the obligation counter is
/// exactly zero.
pub proof fn lemma_sleep_gated_on_idle(counter: nat, wake_us: Option<u64>, now_us: u64)
    ensures
        spec_sleep_decision(counter, wake_us, now_us) is Some ==> counter == 0,
{
}

/// The shared sleep state: obligation counter plus pending wake
/// deadline, and the decisions made over them.
#[derive(Debug)]
pub struct LightSleep {
    counter: u32,
    next_wakeup_us: Option<u64>,
}

/// A scoped stay-awake obligation. Releasing consumes the handle, so
/// each obligation is given back exactly once, also on early exits that
/// move the handle.
#[derive(Debug)]
pub struct SleepInhibitor {
    _token: (),
}

impl LightSleep {
    /// Outstanding obligations.
    pub closed spec fn spec_counter(&self) -> nat {
        self.counter as nat
    }

    /// The pending wake deadline, in µs since boot.
    pub closed spec fn spec_next_wakeup_us(&self) -> Option<u64> {
        self.next_wakeup_us
    }

    /// A fresh scheduler: no obligations, no deadline.
    pub fn new() -> (s: LightSleep)
        ensures
            s.spec_counter() == 0,
            s.spec_next_wakeup_us() is None,
    {
        LightSleep { counter: 0, next_wakeup_us: None }
    }

    /// Outstanding obligations, for callers that want to inspect them.
    pub fn counter(&self) -> (c: u32)
        ensures
            c == self.spec_counter(),
    {
        self.counter
    }

    /// Takes out one stay-awake obligation.
    pub fn lock(&mut self) -> (inhibitor: SleepInhibitor)
        requires
            old(self).spec_counter() < u32::MAX,
        ensures
            final(self).spec_counter() == spec_step_counter(
                old(self).spec_counter(),
                SleepOp::Acquire,
            ),
            final(self).spec_next_wakeup_us() == old(self).spec_next_wakeup_us(),
    {
        self.counter = self.counter + 1;
        SleepInhibitor { _token: () }
    }

    /// Records the next wake deadline and decides whether the node may
    /// sleep right now.
    pub fn sleep_until(&mut self, deadline_us: u64, now_us: u64) -> (cmd: SleepCommand)
        ensures
            final(self).spec_counter() == old(self).spec_counter(),
            final(self).spec_next_wakeup_us() == Some(deadline_us),
            cmd == spec_sleep_decision(final(self).spec_counter(), Some(deadline_us), now_us),
    {
        self.next_wakeup_us = Some(deadline_us);
        self.decide(now_us)
    }

    /// The sleep check over the current state.
    fn decide(&self, now_us: u64) -> (cmd: SleepCommand)
        ensures
            cmd == spec_sleep_decision(self.spec_counter(), self.spec_next_wakeup_us(), now_us),
    {
        if self.counter == 0 {
            match self.next_wakeup_us {
                Some(w) => if w >= now_us {
                    Some(w - now_us)
                } else {
                    None
                },
                None => None,
            }
        } else {
            None
        }
    }
}

impl SleepInhibitor {
    /// Gives the obligation back and re-evaluates the sleep condition:
    /// releasing the last obligation with a known, still-future deadline
    /// commands the sleep at once.
    pub fn release(self, sched: &mut LightSleep, now_us: u64) -> (cmd: SleepCommand)
        ensures
            final(sched).spec_counter() == spec_step_counter(
                old(sched).spec_counter(),
                SleepOp::Release,
            ),
            final(sched).spec_next_wakeup_us() == old(sched).spec_next_wakeup_us(),
            cmd == spec_sleep_decision(
                final(sched).spec_counter(),
                final(sched).spec_next_wakeup_us(),
                now_us,
            ),
    {
        if sched.counter > 0 {
            sched.counter = sched.counter - 1;
        }
        sched.decide(now_us)
    }
}

} // verus!
