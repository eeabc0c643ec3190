//! A whole call as a function of the answers the server gives.
//!
//! The caller drives a call by repeating one HTTP exchange and asking
//! `Pending::on_status` what follows. `call` folds those decisions over the
//! answers in the order the server gives them, and the proof functions below say
//! what a call comes to for the answer sequences that matter.

use crate::error::ClientErrorView;
use crate::json::{is_object, member_of, parsed};
use crate::provider::{next_action, retries_after, ActionView};
use crate::response::body_outcome;
use crate::retry::{backoff_millis, status_is_success, RETRY_BUDGET, TOO_MANY_REQUESTS};
use vstd::prelude::*;

verus! {

/// One answer of the server: its status, its `Retry-After` header where it has
/// one, and its body.
pub struct Reply {
    pub status: u16,
    pub retry_after: Option<Seq<u8>>,
    pub body: Seq<u8>,
}

/// What a call has come to: the HTTP attempts made, the waits between them in
/// milliseconds, and the outcome (`None` while the call still waits for an answer).
pub struct Call {
    pub attempts: nat,
    pub waits: Seq<u64>,
    pub outcome: Option<Result<serde_json::Value, ClientErrorView>>,
}

/// The course of a call that has `retries_left` retries left and gets the
/// answers `replies`, one per attempt, for as long as it asks.
pub open spec fn call(retries_left: u8, replies: Seq<Reply>) -> Call
    decreases replies.len(),
{
    if replies.len() == 0 {
        Call { attempts: 0, waits: Seq::empty(), outcome: None }
    } else {
        let first = replies[0];
        match next_action(retries_left, first.status, first.retry_after) {
            ActionView::ReadBody => Call {
                attempts: 1,
                waits: Seq::empty(),
                outcome: Some(body_outcome(first.body)),
            },
            ActionView::Fail(e) => Call { attempts: 1, waits: Seq::empty(), outcome: Some(Err(e)) },
            ActionView::Retry { wait_millis } => {
                let rest = call(retries_after(retries_left, first.status), replies.skip(1));
                Call {
                    attempts: rest.attempts + 1,
                    waits: seq![wait_millis] + rest.waits,
                    outcome: rest.outcome,
                }
            },
        }
    }
}

/// Whether the first `count` answers of `replies` are all rate-limit answers.
pub open spec fn rate_limited(replies: Seq<Reply>, count: nat) -> bool {
    &&& count <= replies.len()
    &&& forall|i: int| 0 <= i < count ==> (#[trigger] replies[i]).status == TOO_MANY_REQUESTS
}

/// Whether `waits` are the waits that the first answers of `replies` ask for.
pub open spec fn waits_follow_hints(waits: Seq<u64>, replies: Seq<Reply>) -> bool {
    &&& waits.len() <= replies.len()
    &&& forall|i: int|
        0 <= i < waits.len() ==> #[trigger] waits[i] == backoff_millis(replies[i].retry_after)
}

proof fn lemma_retried_then_settled(retries_left: u8, replies: Seq<Reply>, count: nat)
    requires
        count <= retries_left,
        count < replies.len(),
        rate_limited(replies, count),
        replies[count as int].status != TOO_MANY_REQUESTS || count == retries_left,
    ensures
        call(retries_left, replies).attempts == count + 1,
        call(retries_left, replies).waits.len() == count,
        waits_follow_hints(call(retries_left, replies).waits, replies),
        call(retries_left, replies).outcome == call(
            (retries_left - count) as u8,
            replies.skip(count as int),
        ).outcome,
        call((retries_left - count) as u8, replies.skip(count as int)).attempts == 1,
    decreases count,
{
    if count == 0 {
        assert(replies.skip(0) =~= replies);
    } else {
        let rest = replies.skip(1);
        assert(replies[0].status == TOO_MANY_REQUESTS);
        assert(rate_limited(rest, (count - 1) as nat)) by {
            assert forall|i: int| 0 <= i < count - 1 implies (#[trigger] rest[i]).status
                == TOO_MANY_REQUESTS by {
                assert(rest[i] == replies[i + 1]);
            }
        }
        assert(rest[count - 1] == replies[count as int]);
        lemma_retried_then_settled((retries_left - 1) as u8, rest, (count - 1) as nat);
        assert(rest.skip(count - 1) =~= replies.skip(count as int));
        let whole = call(retries_left, replies);
        let tail = call((retries_left - 1) as u8, rest);
        assert(whole.waits =~= seq![backoff_millis(replies[0].retry_after)] + tail.waits);
        assert forall|i: int| 0 <= i < whole.waits.len() implies #[trigger] whole.waits[i]
            == backoff_millis(replies[i].retry_after) by {
            if i > 0 {
                assert(whole.waits[i] == tail.waits[i - 1]);
                assert(rest[i - 1] == replies[i]);
            }
        }
    }
}

/// A 2xx answer whose body is a JSON document without an `error` object ends the
/// call with the document's `result` member, after one attempt and no wait.
pub proof fn law_result_is_returned(replies: Seq<Reply>, json: serde_json::Value)
    requires
        replies.len() > 0,
        status_is_success(replies[0].status),
        parsed(replies[0].body) == Ok::<serde_json::Value, serde_json::Error>(json),
        !is_object(member_of(json, "error"@)),
    ensures
        call(RETRY_BUDGET, replies).outcome == Some(
            Ok::<serde_json::Value, ClientErrorView>(member_of(json, "result"@)),
        ),
        call(RETRY_BUDGET, replies).attempts == 1,
        call(RETRY_BUDGET, replies).waits.len() == 0,
{
}

/// After `count` rate-limit answers, with `count` within the retry budget, a 2xx
/// answer ends the call with what its body stands for. The call has then made
/// `count + 1` attempts, and has waited before each retry as long as the answer
/// before it asked.
pub proof fn law_rate_limit_is_retried(replies: Seq<Reply>, count: nat)
    requires
        count <= RETRY_BUDGET,
        count < replies.len(),
        rate_limited(replies, count),
        status_is_success(replies[count as int].status),
    ensures
        call(RETRY_BUDGET, replies).outcome == Some(body_outcome(replies[count as int].body)),
        call(RETRY_BUDGET, replies).attempts == count + 1,
        call(RETRY_BUDGET, replies).waits.len() == count,
        waits_follow_hints(call(RETRY_BUDGET, replies).waits, replies),
{
    lemma_retried_then_settled(RETRY_BUDGET, replies, count);
    assert(replies.skip(count as int)[0] == replies[count as int]);
}

/// When the server answers with a rate limit once more than the budget allows,
/// the call fails with that status after the budget's retries: six attempts in all.
pub proof fn law_retry_budget_is_bounded(replies: Seq<Reply>)
    requires
        rate_limited(replies, (RETRY_BUDGET + 1) as nat),
    ensures
        call(RETRY_BUDGET, replies).outcome == Some(
            Err::<serde_json::Value, ClientErrorView>(ClientErrorView::Status(TOO_MANY_REQUESTS)),
        ),
        call(RETRY_BUDGET, replies).attempts == RETRY_BUDGET + 1,
        call(RETRY_BUDGET, replies).waits.len() == RETRY_BUDGET,
        waits_follow_hints(call(RETRY_BUDGET, replies).waits, replies),
{
    let count = RETRY_BUDGET as nat;
    assert(rate_limited(replies, count));
    lemma_retried_then_settled(RETRY_BUDGET, replies, count);
    assert(replies.skip(count as int)[0] == replies[count as int]);
}

/// A first answer whose status is neither 2xx nor 429 fails the call with that
/// status, after one attempt and no wait.
pub proof fn law_other_status_is_final(replies: Seq<Reply>)
    requires
        replies.len() > 0,
        !status_is_success(replies[0].status),
        replies[0].status != TOO_MANY_REQUESTS,
    ensures
        call(RETRY_BUDGET, replies).outcome == Some(
            Err::<serde_json::Value, ClientErrorView>(ClientErrorView::Status(replies[0].status)),
        ),
        call(RETRY_BUDGET, replies).attempts == 1,
        call(RETRY_BUDGET, replies).waits.len() == 0,
{
}

/// A call never makes more attempts than the budget's retries and one, whatever
/// the server answers.
pub proof fn law_attempts_are_bounded(retries_left: u8, replies: Seq<Reply>)
    ensures
        call(retries_left, replies).attempts <= retries_left + 1,
        call(retries_left, replies).attempts <= replies.len(),
        call(retries_left, replies).waits.len() + 1 == call(retries_left, replies).attempts
            || call(retries_left, replies).outcome is None,
    decreases replies.len(),
{
    if replies.len() > 0 {
        let first = replies[0];
        if next_action(retries_left, first.status, first.retry_after) is Retry {
            law_attempts_are_bounded(retries_after(retries_left, first.status), replies.skip(1));
        }
    }
}

} // verus!
