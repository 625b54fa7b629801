use std::time::Instant;
use vstd::prelude::*;

verus! {

#[verifier::external_type_specification]
#[verifier::external_body]
pub struct ExInstant(Instant);

/// Relies on `Instant::now`: a reading of the monotonic clock. Nothing is
/// promised of its value.
#[verifier::external_body]
fn instant_now() -> (r: Instant) {
    Instant::now()
}

/// Relies on `Instant::elapsed`: the time since `origin`, in nanoseconds.
/// It depends on the clock, so nothing is promised of its value.
#[verifier::external_body]
fn nanos_since(origin: &Instant) -> (r: u128) {
    origin.elapsed().as_nanos()
}

/// The abstract state of a fixed-window rate limiter. Times are nanoseconds
/// on the throttle's own clock, which starts at zero when it is made.
pub struct ThrottleView {
    pub calls_allowed: nat,
    pub calls_remaining: nat,
    pub window_start: nat,
    pub interval: nat,
}

impl ThrottleView {
    pub open spec fn wf(self) -> bool {
        self.calls_remaining <= self.calls_allowed
    }

    /// Time since the window began; a clock reading before the start counts
    /// as no time at all.
    pub open spec fn elapsed(self, now: nat) -> nat {
        if now >= self.window_start {
            (now - self.window_start) as nat
        } else {
            0
        }
    }

    /// The state after one request at time `now`, and whether it is allowed.
    /// A request after the window has run out starts a new window with a
    /// full budget and is allowed without spending any of it.
    pub open spec fn step(self, now: nat) -> (ThrottleView, bool) {
        if self.elapsed(now) > self.interval {
            (ThrottleView { calls_remaining: self.calls_allowed, window_start: now, ..self }, true)
        } else if self.calls_remaining > 0 {
            (ThrottleView { calls_remaining: (self.calls_remaining - 1) as nat, ..self }, true)
        } else {
            (self, false)
        }
    }

    /// The answers to requests made at each of `times`, in order.
    pub open spec fn answers(self, times: Seq<nat>) -> Seq<bool>
        decreases times.len(),
    {
        if times.len() == 0 {
            Seq::empty()
        } else {
            let (next, ok) = self.step(times[0]);
            seq![ok] + next.answers(times.drop_first())
        }
    }
}

/// Requests inside the current window are answered yes while budget lasts:
/// the `i`-th is allowed exactly when `i` is below the remaining budget.
proof fn lemma_answers_within_window(v: ThrottleView, times: Seq<nat>)
    requires
        forall|i: int| 0 <= i < times.len() ==> v.elapsed(#[trigger] times[i]) <= v.interval,
    ensures
        v.answers(times).len() == times.len(),
        forall|i: int|
            0 <= i < times.len() ==> #[trigger] v.answers(times)[i] == (i < v.calls_remaining),
    decreases times.len(),
{
    if times.len() > 0 {
        let (next, ok) = v.step(times[0]);
        let rest = times.drop_first();
        assert forall|i: int| 0 <= i < rest.len() implies next.elapsed(#[trigger] rest[i])
            <= next.interval by {
            assert(rest[i] == times[i + 1]);
        }
        lemma_answers_within_window(next, rest);
        assert forall|i: int| 0 <= i < times.len() implies #[trigger] v.answers(times)[i] == (i
            < v.calls_remaining) by {
            if i > 0 {
                assert(v.answers(times)[i] == next.answers(rest)[i - 1]);
            }
        }
    }
}

/// With a full budget of `calls_allowed` and the window not yet over,
/// exactly the first `calls_allowed` requests are allowed and every later
/// one is refused.
pub proof fn lemma_budget_per_window(v: ThrottleView, times: Seq<nat>)
    requires
        v.calls_remaining == v.calls_allowed,
        forall|i: int| 0 <= i < times.len() ==> v.elapsed(#[trigger] times[i]) <= v.interval,
    ensures
        v.answers(times).len() == times.len(),
        forall|i: int|
            0 <= i < times.len() ==> #[trigger] v.answers(times)[i] == (i < v.calls_allowed),
{
    lemma_answers_within_window(v, times);
}

/// Once the window is over, the next request is allowed, opens a new window
/// at its own time, and leaves the whole budget in place.
pub proof fn lemma_window_reset(v: ThrottleView, now: nat)
    requires
        v.wf(),
        v.elapsed(now) > v.interval,
    ensures
        v.step(now).1,
        v.step(now).0.calls_remaining == v.calls_allowed,
        v.step(now).0.window_start == now,
        v.step(now).0.wf(),
{
}

/// A fixed-window rate limiter: at most `calls_allowed` requests pass in each
/// window of `interval` nanoseconds, besides the request that opens a window.
pub struct Throttle {
    calls_allowed: u64,
    calls_remaining: u64,
    last_throttle: u128,
    interval: u128,
    origin: Instant,
}

impl View for Throttle {
    type V = ThrottleView;

    closed spec fn view(&self) -> ThrottleView {
        ThrottleView {
            calls_allowed: self.calls_allowed as nat,
            calls_remaining: self.calls_remaining as nat,
            window_start: self.last_throttle as nat,
            interval: self.interval as nat,
        }
    }
}

impl Throttle {
    /// A throttle whose first window starts now, with its whole budget.
    pub fn new(interval_nanos: u128, calls_allowed: u64) -> (r: Self)
        ensures
            r@.wf(),
            r@.calls_allowed == calls_allowed,
            r@.calls_remaining == calls_allowed,
            r@.window_start == 0,
            r@.interval == interval_nanos,
    {
        Throttle {
            calls_allowed,
            calls_remaining: calls_allowed,
            last_throttle: 0,
            interval: interval_nanos,
            origin: instant_now(),
        }
    }

    /// Decides a request made at `now` nanoseconds on the throttle's clock.
    pub fn should_allow_at(&mut self, now: u128) -> (r: bool)
        requires
            old(self)@.wf(),
        ensures
            final(self)@.wf(),
            (final(self)@, r) == old(self)@.step(now as nat),
    {
        let elapsed: u128 = if now >= self.last_throttle {
            now - self.last_throttle
        } else {
            0
        };
        if elapsed > self.interval {
            self.calls_remaining = self.calls_allowed;
            self.last_throttle = now;
            return true;
        }
        if self.calls_remaining > 0 {
            self.calls_remaining = self.calls_remaining - 1;
            return true;
        }
        false
    }

    /// Decides a request made now.
    pub fn should_allow(&mut self) -> (r: bool)
        requires
            old(self)@.wf(),
        ensures
            final(self)@.wf(),
            exists|now: nat| (final(self)@, r) == old(self)@.step(now),
    {
        let now = nanos_since(&self.origin);
        self.should_allow_at(now)
    }
}

} // verus!
