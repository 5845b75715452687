use vstd::prelude::*;
use crate::action::{ActionError, CallError, Payload};

verus! {

/// How many times an attachment is tried while the engine answers "not ready".
pub const REQUEST_RETRY: u32 = 500;

/// How long a caller waits between two attempts, in milliseconds.
pub const RETRY_BACKOFF_MS: u64 = 10;

/// What to do after one attempt.
#[derive(Debug, PartialEq, Eq)]
pub enum Verdict {
    /// Wait the back-off, then send the same action again.
    Again,
    /// The call is over, with this result.
    Settled(Result<Payload, CallError>),
}

pub open spec fn is_not_ready(r: Result<Payload, CallError>) -> bool {
    r == Err::<Payload, CallError>(CallError::Rejected(ActionError::NotReady))
}

/// The verdict on the reply to an attempt, when `attempts` earlier attempts were answered
/// "not ready".
pub open spec fn verdict_of(attempts: nat, r: Result<Payload, CallError>) -> Verdict {
    if is_not_ready(r) {
        if attempts + 1 < REQUEST_RETRY {
            Verdict::Again
        } else {
            Verdict::Settled(Err(CallError::RetriesExhausted))
        }
    } else {
        Verdict::Settled(r)
    }
}

/// The bounded-attempt policy for actions sent before the engine may be ready.
#[derive(Debug, Clone, Copy, PartialEq, Eq)]
pub struct RetryState {
    /// Attempts made so far that were answered "not ready".
    pub attempts: u32,
}

impl RetryState {
    pub fn new() -> (r: RetryState)
        ensures
            r.attempts == 0,
    {
        RetryState { attempts: 0 }
    }

    /// Takes the reply to one attempt and says whether to try again.
    pub fn observe(&mut self, r: Result<Payload, CallError>) -> (v: Verdict)
        ensures
            v == verdict_of(old(self).attempts as nat, r),
            v is Again ==> final(self).attempts == old(self).attempts + 1,
            !(v is Again) ==> final(self).attempts == old(self).attempts,
    {
        let not_ready = match &r {
            Err(CallError::Rejected(ActionError::NotReady)) => true,
            _ => false,
        };
        if not_ready {
            if self.attempts < REQUEST_RETRY - 1 {
                self.attempts = self.attempts + 1;
                Verdict::Again
            } else {
                Verdict::Settled(Err(CallError::RetriesExhausted))
            }
        } else {
            Verdict::Settled(r)
        }
    }
}

/// Runs the policy over the replies that successive attempts receive, from attempt `i` on,
/// with `i` earlier attempts answered "not ready". Gives the number of attempts made in all
/// and the result, or `None` if the replies run out first.
pub open spec fn retry_run(replies: Seq<Result<Payload, CallError>>, i: nat) -> Option<
    (nat, Result<Payload, CallError>),
>
    decreases replies.len() - i,
{
    if i >= replies.len() {
        None
    } else {
        match verdict_of(i, replies[i as int]) {
            Verdict::Again => retry_run(replies, i + 1),
            Verdict::Settled(r) => Some((i + 1, r)),
        }
    }
}

/// A reply other than "not ready" after k < 500 "not ready" replies ends the call with that
/// reply, after exactly k + 1 attempts.
pub proof fn lemma_retry_settles_on_first_other_reply(
    replies: Seq<Result<Payload, CallError>>,
    k: nat,
)
    requires
        k < REQUEST_RETRY,
        k < replies.len(),
        forall|j: int| 0 <= j < k ==> is_not_ready(#[trigger] replies[j]),
        !is_not_ready(replies[k as int]),
    ensures
        retry_run(replies, 0) == Some((k + 1, replies[k as int])),
{
    lemma_retry_run_from(replies, 0, k);
}

/// When every attempt is answered "not ready", the call ends with `RetriesExhausted` after
/// exactly 500 attempts.
pub proof fn lemma_retry_gives_up(replies: Seq<Result<Payload, CallError>>)
    requires
        REQUEST_RETRY <= replies.len(),
        forall|j: int| 0 <= j < REQUEST_RETRY ==> is_not_ready(#[trigger] replies[j]),
    ensures
        retry_run(replies, 0) == Some(
            (REQUEST_RETRY as nat, Err::<Payload, CallError>(CallError::RetriesExhausted)),
        ),
{
    lemma_retry_run_from(replies, 0, (REQUEST_RETRY - 1) as nat);
}

proof fn lemma_retry_run_from(replies: Seq<Result<Payload, CallError>>, i: nat, k: nat)
    requires
        i <= k,
        k < REQUEST_RETRY,
        k < replies.len(),
        forall|j: int| 0 <= j < k ==> is_not_ready(#[trigger] replies[j]),
        k + 1 < REQUEST_RETRY ==> !is_not_ready(replies[k as int]),
    ensures
        retry_run(replies, i) == Some(
            (
                k + 1,
                if k + 1 == REQUEST_RETRY && is_not_ready(replies[k as int]) {
                    Err(CallError::RetriesExhausted)
                } else {
                    replies[k as int]
                },
            ),
        ),
    decreases k - i,
{
    if i < k {
        assert(is_not_ready(replies[i as int]));
        lemma_retry_run_from(replies, i + 1, k);
    }
}

} // verus!
