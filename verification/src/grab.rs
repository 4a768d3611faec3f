//! Input Grab Manager: the bounded-retry policy for acquiring (and
//! releasing) the exclusive keyboard grab.
//!
//! The protocol server may transiently deny a grab request, so the manager
//! retries up to a fixed number of attempts with a fixed delay between
//! them. The surrounding program performs the actual protocol request and
//! the sleep; it feeds each server answer to [`grab_retry_step`] and obeys
//! the decision. [`acquire_from_responses`] runs the same policy over a
//! whole sequence of answers at once, which is how the policy is verified
//! and tested against a simulated server.

use vstd::prelude::*;

verus! {

/// How many times one grab (or ungrab) request is attempted before the
/// operation is reported unavailable.
pub const GRAB_MAX_ATTEMPTS: usize = 50;

/// The delay, in milliseconds, the caller sleeps between two attempts.
pub const GRAB_RETRY_INTERVAL_MS: u64 = 10;

/// Exclusive ownership of keyboard input for one picker session.
///
/// A token records the attempt that the server granted; the attempts
/// before it were all denied, so a token always stands for exactly one
/// successful grant.
#[derive(Clone, Copy, Debug, PartialEq, Eq, Structural)]
pub struct GrabToken {
    /// How many attempts the server denied before granting one.
    pub denied_before: usize,
}

/// What the caller must do after one attempt has been answered.
#[derive(Clone, Copy, Debug, PartialEq, Eq, Structural)]
pub enum GrabStep {
    /// The server granted the request: stop, the grab is held (or, for a
    /// release, no longer held).
    Done,
    /// Denied, but attempts remain: sleep for the retry interval, then try
    /// again.
    RetryAfterDelay,
    /// Denied and the attempt budget is spent: give up and report the
    /// operation unavailable.
    GiveUp,
}

/// The retry decision after an attempt, given the server's answer and how
/// many attempts have been made so far (this one included). Shared by the
/// acquire and the release loop.
pub fn grab_retry_step(granted: bool, attempts_made: usize, max_attempts: usize) -> (s: GrabStep)
    ensures
        granted ==> s == GrabStep::Done,
        !granted && attempts_made < max_attempts ==> s == GrabStep::RetryAfterDelay,
        !granted && attempts_made >= max_attempts ==> s == GrabStep::GiveUp,
{
    if granted {
        GrabStep::Done
    } else if attempts_made < max_attempts {
        GrabStep::RetryAfterDelay
    } else {
        GrabStep::GiveUp
    }
}

/// `r` is the index of the first granted attempt in `responses`.
pub open spec fn is_first_grant(responses: Seq<bool>, r: int) -> bool {
    &&& 0 <= r < responses.len()
    &&& responses[r]
    &&& forall|i: int| 0 <= i < r ==> !responses[i]
}

/// How many of the first `n` server responses were grants.
pub open spec fn grants_in(responses: Seq<bool>, n: int) -> int
    decreases n,
{
    if n <= 0 {
        0
    } else {
        grants_in(responses, n - 1) + if responses[n - 1] {
            1int
        } else {
            0int
        }
    }
}

/// Runs the acquisition policy against a simulated server that answers the
/// `i`-th attempt with `responses[i]`. Returns a token exactly when one of
/// the first `max_attempts` answers is a grant; the token records the
/// denials that preceded the grant.
pub fn acquire_from_responses(responses: &Vec<bool>, max_attempts: usize) -> (r: Option<GrabToken>)
    requires
        responses@.len() >= max_attempts,
    ensures
        match r {
            Some(token) => token.denied_before < max_attempts && is_first_grant(
                responses@,
                token.denied_before as int,
            ),
            None => forall|i: int| 0 <= i < max_attempts ==> !responses@[i],
        },
{
    let mut attempts_made: usize = 0;
    while attempts_made < max_attempts
        invariant
            attempts_made <= max_attempts,
            responses@.len() >= max_attempts,
            forall|i: int| 0 <= i < attempts_made ==> !responses@[i],
        decreases max_attempts - attempts_made,
    {
        if responses[attempts_made] {
            return Some(GrabToken { denied_before: attempts_made });
        }
        attempts_made = attempts_made + 1;
    }
    None
}

/// No grant hides among responses that are all denials.
proof fn lemma_no_grants_in_denials(responses: Seq<bool>, n: int)
    requires
        n <= responses.len(),
        forall|i: int| 0 <= i < n ==> !responses[i],
    ensures
        grants_in(responses, n) == 0,
    decreases n,
{
    if n > 0 {
        lemma_no_grants_in_denials(responses, n - 1);
    }
}

/// Law: against a server that denies the first `k` attempts and then
/// grants, acquisition succeeds at attempt `k` exactly, and the attempts it
/// consumed contain a single grant — not `k + 1` of them.
pub proof fn lemma_acquire_single_grant(responses: Seq<bool>, k: int, r: int)
    requires
        0 <= k < responses.len(),
        forall|i: int| 0 <= i < k ==> !responses[i],
        responses[k],
        is_first_grant(responses, r),
    ensures
        r == k,
        grants_in(responses, r + 1) == 1,
{
    if r < k {
        assert(!responses[r]);
    }
    if r > k {
        assert(!responses[k]);
    }
    lemma_no_grants_in_denials(responses, k);
}

} // verus!
