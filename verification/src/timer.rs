//! The timed-hook multiplexer: many widgets share one clock instead of one
//! thread each. Time enters as explicit millisecond deltas handed to
//! `tick`; bookkeeping is O(subscriptions) per tick. Also the resettable
//! countdown used by widgets that hide after inactivity.

use vstd::prelude::*;
use crate::hook::HookSender;

verus! {

/// A periodic notification request: fire `sender` every `duration_ms`.
/// The duration and sender are fixed at subscription; the counters are
/// advanced only by `TimedHooks::tick`.
pub struct HookSubscription {
    pub duration_ms: u64,
    pub sender: HookSender,
    /// Total time since the subscription was registered.
    pub total_ms: u64,
    /// How often the subscription has fired.
    pub fired: u64,
}

impl HookSubscription {
    /// A subscription has a positive period and has fired once per full
    /// period of its lifetime.
    pub open spec fn wf(&self) -> bool {
        &&& self.duration_ms >= 1
        &&& self.fired == self.total_ms / self.duration_ms
    }

    /// Time accumulated towards the next firing.
    pub fn elapsed_ms(&self) -> (r: u64)
        requires
            self.duration_ms >= 1,
        ensures
            r == self.total_ms % self.duration_ms,
    {
        self.total_ms % self.duration_ms
    }
}

/// The error a subscription request can report.
#[derive(Clone, Copy, PartialEq, Eq, Structural, Debug)]
pub enum TimerError {
    /// The requested period was zero.
    ZeroDuration,
}

/// The shared periodic-timer service: a list of subscriptions advanced
/// together by one clock.
pub struct TimedHooks {
    pub subs: Vec<HookSubscription>,
}

impl TimedHooks {
    pub open spec fn wf(&self) -> bool {
        forall|i: int| 0 <= i < self.subs@.len() ==> (#[trigger] self.subs@[i]).wf()
    }

    /// An empty multiplexer.
    pub fn new() -> (r: TimedHooks)
        ensures
            r.wf(),
            r.subs@.len() == 0,
    {
        TimedHooks { subs: Vec::new() }
    }

    /// Registers a periodic notification: `sender` will be fired every
    /// `duration_ms`. Succeeds exactly when the duration is positive.
    pub fn subscribe(&mut self, duration_ms: u64, sender: HookSender) -> (r: Result<
        (),
        TimerError,
    >)
        requires
            old(self).wf(),
        ensures
            final(self).wf(),
            match r {
                Ok(()) => duration_ms >= 1 && final(self).subs@ == old(self).subs@.push(
                    HookSubscription { duration_ms, sender, total_ms: 0, fired: 0 },
                ),
                Err(TimerError::ZeroDuration) => duration_ms == 0 && final(self).subs@ == old(
                    self,
                ).subs@,
            },
    {
        if duration_ms == 0 {
            return Err(TimerError::ZeroDuration);
        }
        self.subs.push(HookSubscription { duration_ms, sender, total_ms: 0, fired: 0 });
        Ok(())
    }

    /// The largest delta every subscription can still absorb without its
    /// lifetime counter overflowing.
    pub fn max_tick(&self) -> (r: u64)
        ensures
            r as int == u64::MAX - max_total(self.subs@, self.subs@.len() as int),
    {
        let mut headroom: u64 = u64::MAX;
        let mut i: usize = 0;
        let n = self.subs.len();
        while i < n
            invariant
                i <= n,
                n == self.subs@.len(),
                headroom as int == u64::MAX - max_total(self.subs@, i as int),
            decreases n - i,
        {
            let room = u64::MAX - self.subs[i].total_ms;
            if room < headroom {
                headroom = room;
            }
            i += 1;
        }
        headroom
    }

    /// Advances every subscription by `delta_ms` and fires each one that
    /// completed at least one more full period (one coalesced signal per
    /// subscription per tick, however many periods elapsed). Each
    /// subscription's firing count stays exactly `total / duration`.
    pub fn tick(&mut self, delta_ms: u64)
        requires
            old(self).wf(),
            forall|i: int|
                0 <= i < old(self).subs@.len() ==> (#[trigger] old(self).subs@[i]).total_ms
                    + delta_ms <= u64::MAX,
        ensures
            final(self).wf(),
            final(self).subs@.len() == old(self).subs@.len(),
            forall|i: int|
                0 <= i < final(self).subs@.len() ==> {
                    let post = #[trigger] final(self).subs@[i];
                    let pre = old(self).subs@[i];
                    &&& post.duration_ms == pre.duration_ms
                    &&& post.sender == pre.sender
                    &&& post.total_ms == pre.total_ms + delta_ms
                    &&& post.fired == (pre.total_ms + delta_ms) / (pre.duration_ms as int)
                },
    {
        let n = self.subs.len();
        let mut i: usize = 0;
        while i < n
            invariant
                i <= n,
                n == self.subs@.len(),
                forall|k: int|
                    0 <= k < n ==> (#[trigger] old(self).subs@[k]).total_ms + delta_ms
                        <= u64::MAX && old(self).subs@[k].wf(),
                forall|k: int|
                    i <= k < n ==> #[trigger] self.subs@[k] == old(self).subs@[k],
                forall|k: int|
                    0 <= k < i ==> {
                        let post = #[trigger] self.subs@[k];
                        let pre = old(self).subs@[k];
                        &&& post.duration_ms == pre.duration_ms
                        &&& post.sender == pre.sender
                        &&& post.total_ms == pre.total_ms + delta_ms
                        &&& post.fired == (pre.total_ms + delta_ms) / (pre.duration_ms as int)
                    },
            decreases n - i,
        {
            let d = self.subs[i].duration_ms;
            let t = self.subs[i].total_ms + delta_ms;
            let f = t / d;
            if f > self.subs[i].fired {
                let _ = self.subs[i].sender.send();
            }
            self.subs[i].total_ms = t;
            self.subs[i].fired = f;
            i += 1;
        }
    }
}

/// The largest lifetime counter among the first `i` subscriptions.
pub open spec fn max_total(subs: Seq<HookSubscription>, i: int) -> int
    decreases i,
{
    if i <= 0 {
        0
    } else {
        let rest = max_total(subs, i - 1);
        if subs[i - 1].total_ms > rest {
            subs[i - 1].total_ms as int
        } else {
            rest
        }
    }
}

/// Every subscription's counter is below the running maximum.
pub proof fn lemma_max_total_bound(subs: Seq<HookSubscription>, i: int, n: int)
    requires
        0 <= i < n <= subs.len(),
    ensures
        subs[i].total_ms <= max_total(subs, n),
    decreases n,
{
    if i < n - 1 {
        lemma_max_total_bound(subs, i, n - 1);
    }
}

/// The delta a tick request is clamped to, so that no lifetime counter
/// overflows.
pub open spec fn clamped_delta(t: TimedHooks, delta: u64) -> u64 {
    let room = u64::MAX - max_total(t.subs@, t.subs@.len() as int);
    if delta > room {
        room as u64
    } else {
        delta
    }
}

/// Timer fairness: at any point, a subscription with duration d that has
/// lived for total time T has fired exactly T / d times (the floor).
pub proof fn lemma_timer_fairness(t: &TimedHooks, i: int)
    requires
        t.wf(),
        0 <= i < t.subs@.len(),
    ensures
        t.subs@[i].fired == t.subs@[i].total_ms / t.subs@[i].duration_ms,
{
}

/// A countdown used by widgets that show a value only briefly after it
/// changes: `reset` starts the window, `advance` moves time forward, and
/// `is_done` reports whether the window has passed.
#[derive(Clone, Copy, PartialEq, Eq, Structural, Debug)]
pub struct ResettableTimer {
    pub duration_ms: u64,
    pub elapsed_ms: u64,
}

/// The timer after `delta` more time: elapsed time grows, clamped at the
/// window's end.
pub open spec fn spec_advanced(t: ResettableTimer, delta: int) -> ResettableTimer {
    ResettableTimer {
        duration_ms: t.duration_ms,
        elapsed_ms: if t.elapsed_ms + delta > t.duration_ms {
            t.duration_ms
        } else {
            (t.elapsed_ms + delta) as u64
        },
    }
}

impl ResettableTimer {
    /// A fresh timer starts expired: nothing is shown until a change
    /// resets it.
    pub fn new(duration_ms: u64) -> (r: ResettableTimer)
        ensures
            r.duration_ms == duration_ms,
            r.elapsed_ms == duration_ms,
    {
        ResettableTimer { duration_ms, elapsed_ms: duration_ms }
    }

    /// Starts the window over.
    pub fn reset(&mut self)
        ensures
            final(self).duration_ms == old(self).duration_ms,
            final(self).elapsed_ms == 0,
    {
        self.elapsed_ms = 0;
    }

    /// Moves time forward, clamped at the window's end.
    pub fn advance(&mut self, delta_ms: u64)
        ensures
            *final(self) == spec_advanced(*old(self), delta_ms as int),
    {
        if delta_ms > self.duration_ms || self.elapsed_ms > self.duration_ms - delta_ms {
            self.elapsed_ms = self.duration_ms;
        } else {
            self.elapsed_ms = self.elapsed_ms + delta_ms;
        }
    }

    /// Whether the window has passed.
    pub open spec fn spec_is_done(&self) -> bool {
        self.elapsed_ms >= self.duration_ms
    }

    /// Whether the window has passed.
    pub fn is_done(&self) -> (r: bool)
        ensures
            r == self.spec_is_done(),
    {
        self.elapsed_ms >= self.duration_ms
    }
}

} // verus!
