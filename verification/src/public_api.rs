//! The operations of the public surface, as far as they can be decided
//! without sending anything: the request of each, and how a batch goes on
//! after each capture.

use std::fmt::Display;

use vstd::prelude::*;
use vstd::string::to_string_from_display_ensures;

use crate::body::accepts_payload;
use crate::client::{keyed_request, not_an_object_text, Client, PublicClient};
use crate::decide::{decide_text, Decide};
use crate::errors::Error;
use crate::request::Request;
use crate::types::APIResult;

verus! {

/// Where events are captured.
pub open spec fn capture_path() -> Seq<char> {
    "/capture/"@
}

/// Where feature flags are decided.
pub open spec fn decide_path() -> Seq<char> {
    "/decide?v=3"@
}

/// What a batch of captures does next.
#[derive(Debug, PartialEq, Eq)]
pub enum BatchStep {
    /// Capture the event at this index.
    Capture(usize),
    /// Stop, with this as the outcome of the batch.
    Done(APIResult<()>),
}

/// What a batch does after `captured` of its `total` events went out, the
/// latest with the outcome `last` (`Ok` before the first): it stops at the
/// first capture that failed, with that error; else it captures the next event;
/// and it stops with `Ok` when none is left.
pub open spec fn batch_step(total: usize, captured: usize, last: APIResult<()>) -> BatchStep {
    match last {
        Err(e) => BatchStep::Done(Err(e)),
        Ok(_) => if captured < total {
            BatchStep::Capture(captured)
        } else {
            BatchStep::Done(Ok(()))
        },
    }
}

/// What a batch of `total` events does next: see [`batch_step`].
pub fn capture_batch_step(total: usize, captured: usize, last: APIResult<()>) -> (step: BatchStep)
    ensures
        step == batch_step(total, captured, last),
{
    match last {
        Err(e) => BatchStep::Done(Err(e)),
        Ok(_) => if captured < total {
            BatchStep::Capture(captured)
        } else {
            BatchStep::Done(Ok(()))
        },
    }
}

/// The outcome of a batch that goes on step by step from where `captured` of
/// its events went out, the latest with the outcome `last`, if the captures
/// come to `outcomes`, one for each event.
pub open spec fn batch_run(
    outcomes: Seq<APIResult<()>>,
    captured: usize,
    last: APIResult<()>,
) -> APIResult<()>
    decreases outcomes.len() - captured,
{
    match batch_step(outcomes.len() as usize, captured, last) {
        BatchStep::Done(outcome) => outcome,
        BatchStep::Capture(index) => if index < outcomes.len() && captured < usize::MAX {
            batch_run(outcomes, (captured + 1) as usize, outcomes[index as int])
        } else {
            Ok(())
        },
    }
}

/// Whether the captures before the one at `upto` all came to `Ok`.
pub open spec fn all_ok_before(outcomes: Seq<APIResult<()>>, upto: int) -> bool {
    forall|i: int| 0 <= i < upto ==> (#[trigger] outcomes[i]) is Ok
}

/// What [`law_batch_stops_at_first_failure`] says, from any step of the batch
/// on.
proof fn lemma_batch_run_from(outcomes: Seq<APIResult<()>>, captured: usize, last: APIResult<()>)
    requires
        outcomes.len() <= usize::MAX,
        captured <= outcomes.len(),
        all_ok_before(outcomes, captured - 1),
        captured == 0 ==> last is Ok,
        captured > 0 ==> last == outcomes[captured - 1],
    ensures
        match batch_run(outcomes, captured, last) {
            Ok(_) => all_ok_before(outcomes, outcomes.len() as int),
            Err(e) => exists|i: int|
                0 <= i < outcomes.len() && #[trigger] outcomes[i] == Err::<(), Error>(e)
                    && all_ok_before(outcomes, i),
        },
    decreases outcomes.len() - captured,
{
    match last {
        Err(e) => {
            assert(outcomes[captured - 1] == Err::<(), Error>(e));
        },
        Ok(_) => {
            if captured < outcomes.len() {
                lemma_batch_run_from(outcomes, (captured + 1) as usize, outcomes[captured as int]);
            }
        },
    }
}

/// A batch captures its events in order and stops at the first capture that
/// fails: it comes to that capture's error, and to `Ok` only if every capture
/// came to `Ok`.
pub proof fn law_batch_stops_at_first_failure(outcomes: Seq<APIResult<()>>)
    requires
        outcomes.len() <= usize::MAX,
    ensures
        match batch_run(outcomes, 0, Ok(())) {
            Ok(_) => all_ok_before(outcomes, outcomes.len() as int),
            Err(e) => exists|i: int|
                0 <= i < outcomes.len() && #[trigger] outcomes[i] == Err::<(), Error>(e)
                    && all_ok_before(outcomes, i),
        },
{
    lemma_batch_run_from(outcomes, 0, Ok(()));
}

/// What a capture comes to, given what its dispatch came to: a capture is done
/// once the service has answered, whatever it answered.
pub fn capture_outcome<T>(dispatched: APIResult<T>) -> (outcome: APIResult<()>)
    ensures
        match dispatched {
            Ok(_) => outcome == Ok::<(), Error>(()),
            Err(e) => outcome == Err::<(), Error>(e),
        },
{
    match dispatched {
        Ok(_) => Ok(()),
        Err(e) => Err(e),
    }
}

/// What decoding the answer to a decide request comes to, given what the
/// decoder returned: the flags as they are, or a serialization error with the
/// text of the decoder's error.
pub fn decide_outcome<T, E: Display>(decoded: Result<T, E>) -> (outcome: APIResult<T>)
    ensures
        match decoded {
            Ok(flags) => outcome == Ok::<T, Error>(flags),
            Err(cause) => outcome matches Err(Error::Serialization(m))
                && to_string_from_display_ensures::<E>(&cause, m),
        },
{
    match decoded {
        Ok(flags) => Ok(flags),
        Err(cause) => Err(Error::serialization(cause)),
    }
}

impl Client<PublicClient> {
    /// The request that captures an event. `event` is what encoding the event
    /// as JSON gave: the text, or the encoder's error.
    pub fn capture_request<E: Display>(&self, event: Result<String, E>) -> (request: APIResult<
        Request,
    >)
        ensures
            match event {
                Ok(payload) => if accepts_payload(payload@) {
                    request matches Ok(r) && r@ == keyed_request(self@, capture_path(), payload@)
                } else {
                    request matches Err(Error::Serialization(m)) && m@ == not_an_object_text()
                },
                Err(cause) => request matches Err(Error::Serialization(m))
                    && to_string_from_display_ensures::<E>(&cause, m),
            },
    {
        self.post_request_with_body("/capture/".to_owned(), event)
    }

    /// The request that asks which feature flags are on for the user
    /// `user_id`.
    pub fn decide_request(&self, user_id: &str) -> (request: APIResult<Request>)
        ensures
            request matches Ok(r) && r@ == keyed_request(self@, decide_path(), decide_text(user_id@)),
    {
        let body = Decide::new(user_id);
        let text = match body.to_json() {
            Ok(text) => text,
            Err(e) => {
                return Err(e);
            },
        };
        let encoded: Result<String, String> = Ok(text);
        proof {
            reveal_strlit("{\"distinct_id\":");
            let t = decide_text(user_id@);
            assert(t[0] == '{' && t[1] == '"' && t.last() == '}');
        }
        self.post_request_with_body("/decide?v=3".to_owned(), encoded)
    }
}

} // verus!
