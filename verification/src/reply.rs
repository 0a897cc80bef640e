//! What the callback of a request is told.

use vstd::prelude::*;

use crate::errors::Error;

verus! {

/// What a callback hands over beside the error.
pub trait Payload: Sized {
    /// It is what stands in its place when there is nothing to hand over.
    spec fn is_nothing(&self) -> bool;

    /// What stands in its place when there is nothing to hand over.
    fn nothing() -> (payload: Self)
        ensures
            payload.is_nothing(),
    ;
}

impl Payload for () {
    open spec fn is_nothing(&self) -> bool {
        true
    }

    fn nothing() -> (payload: ()) {
    }
}

/// A pointer is null when there is nothing to hand over.
impl<R> Payload for Option<R> {
    open spec fn is_nothing(&self) -> bool {
        self is None
    }

    fn nothing() -> (payload: Option<R>) {
        None
    }
}

/// A list is empty when there is nothing to hand over.
impl<R> Payload for Vec<R> {
    open spec fn is_nothing(&self) -> bool {
        self@.len() == 0
    }

    fn nothing() -> (payload: Vec<R>) {
        Vec::new()
    }
}

/// A number of rows is the greatest there is when there is nothing to hand over.
impl Payload for u64 {
    open spec fn is_nothing(&self) -> bool {
        *self == u64::MAX
    }

    fn nothing() -> (payload: u64) {
        u64::MAX
    }
}

/// The arguments of a callback.
#[derive(Debug, PartialEq, Eq)]
pub struct Reply<P> {
    /// What is handed over.
    pub payload: P,
    /// The outcome of the call.
    pub error: Error,
}

impl<P: Payload> Reply<P> {
    /// The request succeeded, with this to hand over.
    pub open spec fn succeeds_with(self, payload: P) -> bool {
        self.error is NoError && self.payload == payload
    }

    /// The request failed, with nothing to hand over.
    pub open spec fn fails_with(self, error: Error) -> bool {
        self.error == error && self.payload.is_nothing()
    }

    /// The request succeeded, with this to hand over.
    pub fn success(payload: P) -> (reply: Reply<P>)
        ensures
            reply.succeeds_with(payload),
            reply.error is NoError,
            reply.payload == payload,
    {
        Reply { payload, error: Error::NoError }
    }

    /// The request failed, with nothing to hand over.
    pub fn failure(error: Error) -> (reply: Reply<P>)
        ensures
            reply.fails_with(error),
            reply.error == error,
            reply.payload.is_nothing(),
    {
        Reply { payload: P::nothing(), error }
    }
}

/// What to do next with a request.
#[derive(Debug, PartialEq, Eq)]
pub enum Step<S, P> {
    /// Carry this out, and reply once it is done.
    Execute(S),
    /// Reply at once; nothing else is done.
    Answer(Reply<P>),
}

impl<S, P: Payload> Step<S, P> {
    /// The request is answered with this error, and nothing is carried out.
    pub open spec fn refuses_with(self, error: Error) -> bool {
        self matches Step::Answer(reply) && reply.fails_with(error)
    }

    /// Answers the request with an error.
    pub fn refuse(error: Error) -> (step: Step<S, P>)
        ensures
            step.refuses_with(error),
            step matches Step::Answer(reply) && reply.error == error && reply.payload.is_nothing(),
    {
        Step::Answer(Reply::failure(error))
    }
}

/// What is told of an outcome whose failure is an error of the database.
pub open spec fn tells_database_outcome<P: Payload>(
    reply: Reply<P>,
    outcome: Result<P, String>,
) -> bool {
    match outcome {
        Ok(payload) => reply.succeeds_with(payload),
        Err(message) => reply.fails_with(Error::DatabaseError(message)),
    }
}

/// What is told of an outcome whose failure is an error of the runtime.
pub open spec fn tells_runtime_outcome<P: Payload>(
    reply: Reply<P>,
    outcome: Result<P, String>,
) -> bool {
    match outcome {
        Ok(payload) => reply.succeeds_with(payload),
        Err(message) => reply.fails_with(Error::RuntimeError(message)),
    }
}

/// Tells the outcome; a failure is told as an error of the database.
pub fn database_reply<P: Payload>(outcome: Result<P, String>) -> (reply: Reply<P>)
    ensures
        tells_database_outcome(reply, outcome),
        outcome matches Ok(payload) ==> reply.error is NoError && reply.payload == payload,
        outcome matches Err(message) ==> reply.error == Error::DatabaseError(message)
            && reply.payload.is_nothing(),
{
    match outcome {
        Ok(payload) => Reply::success(payload),
        Err(message) => Reply::failure(Error::DatabaseError(message)),
    }
}

/// Tells the outcome; a failure is told as an error of the runtime.
pub fn runtime_reply<P: Payload>(outcome: Result<P, String>) -> (reply: Reply<P>)
    ensures
        tells_runtime_outcome(reply, outcome),
        outcome matches Ok(payload) ==> reply.error is NoError && reply.payload == payload,
        outcome matches Err(message) ==> reply.error == Error::RuntimeError(message)
            && reply.payload.is_nothing(),
{
    match outcome {
        Ok(payload) => Reply::success(payload),
        Err(message) => Reply::failure(Error::RuntimeError(message)),
    }
}

/// A callback is told of a success if and only if the outcome is one, and of a failure
/// it is handed nothing.
pub proof fn lemma_outcome_is_told_truly<P: Payload>(reply: Reply<P>, outcome: Result<P, String>)
    requires
        tells_database_outcome(reply, outcome) || tells_runtime_outcome(reply, outcome),
    ensures
        reply.error is NoError <==> outcome is Ok,
        reply.error is NoError ==> reply.payload == outcome->Ok_0,
        reply.error !is NoError ==> reply.payload.is_nothing(),
{
}

/// A request that is refused for its input is never told to have succeeded, and it is
/// handed nothing.
pub proof fn lemma_refusal_is_no_success<S, P: Payload>(step: Step<S, P>, error: Error)
    requires
        error.refuses_input(),
        step.refuses_with(error),
    ensures
        step matches Step::Answer(reply) && reply.error !is NoError && reply.payload.is_nothing(),
{
}

/// A failure is told with its own message, and by the kind of error that tells where it
/// came from.
pub proof fn lemma_failure_is_told_with_its_message<P: Payload>(reply: Reply<P>, message: String)
    ensures
        tells_database_outcome(reply, Err(message)) <==> reply.error == Error::DatabaseError(
            message,
        ) && reply.payload.is_nothing(),
        tells_runtime_outcome(reply, Err(message)) <==> reply.error == Error::RuntimeError(message)
            && reply.payload.is_nothing(),
{
}

/// A reply tells of a success with just one payload, and of a failure with just one
/// error; no reply tells of both.
pub proof fn lemma_reply_tells_one_thing<P: Payload>(reply: Reply<P>, payload: P, error: Error)
    ensures
        reply.succeeds_with(payload) ==> reply.error is NoError && reply.payload == payload,
        reply.error is NoError && reply.payload == payload ==> reply.succeeds_with(payload),
        reply.fails_with(error) <==> reply.error == error && reply.payload.is_nothing(),
        reply.succeeds_with(payload) && reply.fails_with(error) ==> error is NoError,
{
}

/// A request that is refused is answered with the error that it is refused with, and is
/// not carried out.
pub proof fn lemma_refusal_tells_its_error<S, P: Payload>(step: Step<S, P>, error: Error)
    ensures
        step.refuses_with(error) <==> match step {
            Step::Execute(_) => false,
            Step::Answer(reply) => reply.error == error && reply.payload.is_nothing(),
        },
{
}

/// Nothing is handed over as a null pointer, as an empty list, or as the greatest number.
pub proof fn lemma_nothing_to_hand_over<R>(pointer: Option<R>, list: Vec<R>, count: u64)
    ensures
        pointer.is_nothing() <==> pointer is None,
        list.is_nothing() <==> list@ == Seq::<R>::empty(),
        count.is_nothing() <==> count == 0xffff_ffff_ffff_ffff,
        ().is_nothing(),
{
    if list.is_nothing() {
        assert(list@ =~= Seq::<R>::empty());
    }
}

} // verus!
