//! The retry schedule of one request: binary exponential backoff with a
//! ceiling on the number of attempts.
//!
//! Time is counted in whole milliseconds from an origin that the caller
//! fixes once; only differences matter.

use vstd::prelude::*;
use vstd::arithmetic::power2::{
    lemma2_to64, lemma2_to64_rest, lemma_pow2_strictly_increases, lemma_pow2_unfold, pow2,
};
use vstd::bits::lemma_u64_shl_is_mul;

verus! {

/// Milliseconds between the first sending of a request and its first deadline.
pub const NATPMP_MIN_WAIT: u64 = 250;

/// Number of times a request is sent before the gateway is given up.
pub const NATPMP_MAX_ATTEMPTS: u32 = 9;

/// Milliseconds between the first sending of a request and its last
/// deadline: 250 * (2^9 - 1).
pub const NATPMP_MAX_WAIT: u64 = 127_750;

/// The latest time at which a request can be sent. Sent later, its last
/// deadline would lie beyond the end of the clock.
pub const NATPMP_LATEST_START: u64 = u64::MAX - NATPMP_MAX_WAIT;

/// What is to be done about a request when no response has come.
#[derive(Debug, Copy, Clone, Eq, PartialEq, Structural)]
pub enum RetryDecision {
    /// The deadline has not come: wait.
    Wait,
    /// The deadline has come and attempts are left: send the request again.
    Resend,
    /// The deadline of the last attempt has come: the gateway does not answer.
    GiveUp,
}

/// Milliseconds by which the deadline moves when attempt number `attempt`
/// has timed out: 250 * 2^attempt.
pub open spec fn spec_backoff_delay(attempt: nat) -> nat {
    (NATPMP_MIN_WAIT as nat) * pow2(attempt)
}

/// A retry schedule as numbers.
pub struct RetryView {
    /// How often the request has been sent.
    pub attempt: nat,
    /// The time at which the current attempt times out.
    pub next_deadline: nat,
}

impl RetryView {
    /// The schedule of a request that is sent for the first time at `now`.
    pub open spec fn started(now: nat) -> RetryView {
        RetryView { attempt: 1, next_deadline: now + (NATPMP_MIN_WAIT as nat) }
    }

    /// The schedule and the decision after a look at the clock at `now`.
    /// Before the deadline nothing changes. At or after it, the request is
    /// sent again and the deadline moves by the backoff delay, unless this was
    /// the last attempt.
    pub open spec fn on_timeout_or_would_block(self, now: nat) -> (RetryView, RetryDecision) {
        if now < self.next_deadline {
            (self, RetryDecision::Wait)
        } else if self.attempt >= NATPMP_MAX_ATTEMPTS {
            (self, RetryDecision::GiveUp)
        } else {
            (
                RetryView {
                    attempt: self.attempt + 1,
                    next_deadline: self.next_deadline + spec_backoff_delay(self.attempt),
                },
                RetryDecision::Resend,
            )
        }
    }

    /// Milliseconds from `now` to the deadline; 0 when the deadline has come.
    pub open spec fn query_timeout(self, now: nat) -> nat {
        if now >= self.next_deadline {
            0
        } else {
            (self.next_deadline - now) as nat
        }
    }

    /// The schedule after looks at the clock at each of `nows`, in order.
    pub open spec fn after_timeouts(self, nows: Seq<nat>) -> RetryView
        decreases nows.len(),
    {
        if nows.len() == 0 {
            self
        } else {
            self.after_timeouts(nows.drop_last()).on_timeout_or_would_block(nows.last()).0
        }
    }

    /// Each of the looks at the clock at `nows`, in order, found the deadline
    /// of its moment come.
    pub open spec fn all_due(self, nows: Seq<nat>) -> bool
        decreases nows.len(),
    {
        nows.len() == 0 || (self.all_due(nows.drop_last()) && nows.last() >= self.after_timeouts(
            nows.drop_last(),
        ).next_deadline)
    }
}

/// Backoff is binary, exponential and bounded.
///
/// A request is sent at `sent_at`. Since then the clock was looked at at each
/// of `nows`, and each look found the deadline come; now it is looked at
/// again, at `now`, and the deadline has come again. Let this be timeout
/// number `k`, counted from 1. Then the request has been sent `k` times, and
/// its deadline lies `250 * (2^k - 1)` milliseconds after `sent_at`. If `k` is
/// at most 8, the request is sent again and the deadline moves by exactly
/// `250 * 2^k` milliseconds. If `k` is 9, the gateway is given up and the
/// schedule stays as it is.
pub proof fn lemma_backoff_schedule(sent_at: nat, nows: Seq<nat>, now: nat)
    requires
        nows.len() < NATPMP_MAX_ATTEMPTS,
        RetryView::started(sent_at).all_due(nows),
        now >= RetryView::started(sent_at).after_timeouts(nows).next_deadline,
    ensures
        ({
            let k = nows.len() + 1;
            let before = RetryView::started(sent_at).after_timeouts(nows);
            let (after, decision) = before.on_timeout_or_would_block(now);
            &&& before.attempt == k
            &&& before.next_deadline == sent_at + NATPMP_MIN_WAIT * (pow2(k) - 1)
            &&& k < NATPMP_MAX_ATTEMPTS ==> {
                &&& decision == RetryDecision::Resend
                &&& after.attempt == k + 1
                &&& after.next_deadline == before.next_deadline + NATPMP_MIN_WAIT * pow2(k)
            }
            &&& k == NATPMP_MAX_ATTEMPTS ==> {
                &&& decision == RetryDecision::GiveUp
                &&& after == before
                &&& before.next_deadline == sent_at + NATPMP_MAX_WAIT
            }
        }),
    decreases nows.len(),
{
    lemma2_to64();
    if nows.len() > 0 {
        lemma_backoff_schedule(sent_at, nows.drop_last(), nows.last());
        lemma_pow2_unfold(nows.len() + 1);
    }
}

/// Computes the backoff delay after attempt number `attempt`.
pub fn backoff_delay(attempt: u32) -> (delay: u64)
    requires
        spec_backoff_delay(attempt as nat) <= u64::MAX,
    ensures
        delay == spec_backoff_delay(attempt as nat),
{
    let shift: u64 = attempt as u64;
    proof {
        lemma2_to64();
        if shift >= 64 {
            lemma_pow2_strictly_increases(63, shift as nat);
            lemma2_to64_rest();
        }
        lemma_u64_shl_is_mul(1, shift);
    }
    NATPMP_MIN_WAIT * (1u64 << shift)
}

/// The retry schedule of one request.
#[derive(Debug, Copy, Clone, Eq, PartialEq)]
pub struct RetrySchedule {
    attempt: u32,
    next_deadline: u64,
}

impl View for RetrySchedule {
    type V = RetryView;

    closed spec fn view(&self) -> RetryView {
        RetryView { attempt: self.attempt as nat, next_deadline: self.next_deadline as nat }
    }
}

impl RetrySchedule {
    /// The attempt is one of the nine, and the delays of the attempts that
    /// are left fit behind the deadline.
    #[verifier::type_invariant]
    spec fn fits(self) -> bool {
        &&& 1 <= self.attempt <= NATPMP_MAX_ATTEMPTS
        &&& self.next_deadline + NATPMP_MIN_WAIT * (pow2(NATPMP_MAX_ATTEMPTS as nat) - pow2(
            self.attempt as nat,
        )) <= u64::MAX
    }

    /// Starts the schedule of a request that is sent for the first time at
    /// `now`.
    pub fn start(now: u64) -> (schedule: RetrySchedule)
        requires
            now <= NATPMP_LATEST_START,
        ensures
            schedule@ == RetryView::started(now as nat),
    {
        proof {
            lemma2_to64();
        }
        RetrySchedule { attempt: 1, next_deadline: now + NATPMP_MIN_WAIT }
    }

    /// How often the request has been sent.
    pub fn attempt(&self) -> (attempt: u32)
        ensures
            attempt == self@.attempt,
            1 <= attempt <= NATPMP_MAX_ATTEMPTS,
    {
        proof {
            use_type_invariant(self);
        }
        self.attempt
    }

    /// The time at which the current attempt times out.
    pub fn next_deadline(&self) -> (deadline: u64)
        ensures
            deadline == self@.next_deadline,
    {
        self.next_deadline
    }

    /// Looks at the clock when no response has come, and decides.
    pub fn on_timeout_or_would_block(&mut self, now: u64) -> (decision: RetryDecision)
        ensures
            (final(self)@, decision) == old(self)@.on_timeout_or_would_block(now as nat),
    {
        proof {
            use_type_invariant(&*self);
            lemma2_to64();
        }
        if now < self.next_deadline {
            return RetryDecision::Wait;
        }
        if self.attempt >= NATPMP_MAX_ATTEMPTS {
            return RetryDecision::GiveUp;
        }
        proof {
            lemma_pow2_unfold((self.attempt + 1) as nat);
            lemma_pow2_strictly_increases(self.attempt as nat, NATPMP_MAX_ATTEMPTS as nat);
        }
        let delay = backoff_delay(self.attempt);
        *self = RetrySchedule {
            attempt: self.attempt + 1,
            next_deadline: self.next_deadline + delay,
        };
        RetryDecision::Resend
    }

    /// Milliseconds from `now` to the deadline; 0 when the deadline has come.
    pub fn query_timeout(&self, now: u64) -> (remaining: u64)
        ensures
            remaining == self@.query_timeout(now as nat),
    {
        if now >= self.next_deadline {
            0
        } else {
            self.next_deadline - now
        }
    }
}

} // verus!
