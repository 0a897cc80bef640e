//! The runtime on which statements are carried out.
//!
//! There is one place for a runtime, behind a lock. A runtime is put there when it
//! is started and taken away when it is shut down; a request needs one to be there.

use vstd::prelude::*;

use crate::errors::Error;
use crate::reply::{Payload, Reply, Step};

verus! {

/// What a request finds where it looks for the runtime.
#[derive(Debug, PartialEq, Eq)]
pub enum RuntimeState {
    /// A runtime is there.
    Running,
    /// No runtime is there.
    Missing,
    /// The lock failed; the text says why.
    Unavailable(String),
}

impl RuntimeState {
    /// The error by which a request is refused for want of a runtime, if it is.
    pub open spec fn fault(self) -> Option<Error> {
        match self {
            RuntimeState::Running => None,
            RuntimeState::Missing => Some(Error::MissingRuntimeError),
            RuntimeState::Unavailable(message) => Some(Error::RuntimeError(message)),
        }
    }

    /// What a request finds in the given place.
    pub open spec fn of<T>(slot: Option<T>) -> RuntimeState {
        match slot {
            Some(_) => RuntimeState::Running,
            None => RuntimeState::Missing,
        }
    }
}

/// Looks for the runtime behind the lock.
pub fn runtime_state<T>(slot: Result<&Option<T>, String>) -> (state: RuntimeState)
    ensures
        match slot {
            Ok(slot) => state == RuntimeState::of(*slot),
            Err(message) => state == RuntimeState::Unavailable(message),
        },
        state is Running <==> (slot matches Ok(slot) && *slot is Some),
        state is Missing <==> (slot matches Ok(slot) && *slot is None),
{
    match slot {
        Ok(Some(_)) => RuntimeState::Running,
        Ok(None) => RuntimeState::Missing,
        Err(message) => RuntimeState::Unavailable(message),
    }
}

/// Hands a statement to the runtime, or answers the request where there is none.
pub fn spawn<S, P: Payload>(runtime: RuntimeState, statement: S) -> (step: Step<S, P>)
    ensures
        match runtime.fault() {
            Some(error) => step.refuses_with(error),
            None => step == Step::<S, P>::Execute(statement),
        },
        step is Execute <==> runtime is Running,
        step matches Step::Execute(handed) ==> handed == statement,
        runtime is Missing ==> (step matches Step::Answer(reply) && reply.error
            is MissingRuntimeError),
        runtime matches RuntimeState::Unavailable(message) ==> (step matches Step::Answer(reply)
            && reply.error == Error::RuntimeError(message)),
{
    match runtime {
        RuntimeState::Running => Step::Execute(statement),
        RuntimeState::Missing => Step::refuse(Error::MissingRuntimeError),
        RuntimeState::Unavailable(message) => Step::refuse(Error::RuntimeError(message)),
    }
}

/// Goes on with a request once it has been looked at: one that is to be carried out
/// needs a runtime, and one that is already answered stays so, whatever the runtime is.
pub fn proceed<S, P: Payload>(step: Step<S, P>, runtime: RuntimeState) -> (next: Step<S, P>)
    ensures
        match step {
            Step::Answer(_) => next == step,
            Step::Execute(_) => match runtime.fault() {
                Some(error) => next.refuses_with(error),
                None => next == step,
            },
        },
        next is Execute <==> step is Execute && runtime is Running,
{
    match step {
        Step::Execute(statement) => spawn(runtime, statement),
        Step::Answer(reply) => Step::Answer(reply),
    }
}

/// The place of the runtime after an attempt to start one.
pub open spec fn slot_after_start<T>(slot: Option<T>, created: Result<T, String>) -> Option<T> {
    match created {
        Ok(runtime) => Some(runtime),
        Err(_) => slot,
    }
}

/// Puts a new runtime in its place.
///
/// A runtime that was there before gives way to the new one; where none could be
/// made it stays.
pub fn rorm_runtime_start<T>(slot: &mut Option<T>, created: Result<T, String>) -> (reply: Reply<()>)
    ensures
        *final(slot) == slot_after_start(*old(slot), created),
        created matches Ok(runtime) ==> *final(slot) == Some(runtime),
        created is Err ==> *final(slot) == *old(slot),
        match created {
            Ok(_) => reply.succeeds_with(()),
            Err(message) => reply.fails_with(Error::RuntimeError(message)),
        },
{
    match created {
        Ok(runtime) => {
            *slot = Some(runtime);
            Reply::success(())
        },
        Err(message) => Reply::failure(Error::RuntimeError(message)),
    }
}

/// A runtime to shut down.
#[derive(Debug, PartialEq, Eq)]
pub struct Shutdown<T> {
    /// The runtime.
    pub runtime: T,
    /// The time to wait for it, in milliseconds.
    pub duration: u64,
}

/// Takes the runtime out of its place, to be shut down.
pub fn rorm_runtime_shutdown<T>(slot: &mut Option<T>, duration: u64) -> (step: Step<
    Shutdown<T>,
    (),
>)
    ensures
        *final(slot) is None,
        match *old(slot) {
            Some(runtime) => step == Step::<Shutdown<T>, ()>::Execute(
                Shutdown { runtime, duration },
            ),
            None => step.refuses_with(Error::MissingRuntimeError),
        },
{
    match slot.take() {
        Some(runtime) => Step::Execute(Shutdown { runtime, duration }),
        None => Step::refuse(Error::MissingRuntimeError),
    }
}

/// Tells that the runtime of [`rorm_runtime_shutdown`] has been shut down, whether or not
/// the time to wait for it ran out.
pub fn shutdown_reply() -> (reply: Reply<()>)
    ensures
        reply.succeeds_with(()),
{
    Reply::success(())
}

/// The answer to starting or shutting down where the lock failed.
pub fn lock_failed(message: String) -> (reply: Reply<()>)
    ensures
        reply.fails_with(Error::RuntimeError(message)),
{
    Reply::failure(Error::RuntimeError(message))
}

/// Something that happens to the place of the runtime.
pub enum RuntimeEvent<T> {
    /// An attempt to start a runtime.
    Start(Result<T, String>),
    /// A shutdown.
    Shutdown,
}

/// The place of the runtime after the events, where it was empty before.
pub open spec fn slot_after<T>(events: Seq<RuntimeEvent<T>>) -> Option<T>
    decreases events.len(),
{
    if events.len() == 0 {
        None
    } else {
        match events.last() {
            RuntimeEvent::Start(created) => slot_after_start(
                slot_after(events.drop_last()),
                created,
            ),
            RuntimeEvent::Shutdown => None,
        }
    }
}

/// The event is a runtime being started.
pub open spec fn is_started<T>(event: RuntimeEvent<T>) -> bool {
    event matches RuntimeEvent::Start(created) && created is Ok
}

/// A request finds a runtime if and only if one has been started and not shut down
/// since; otherwise it is refused because there is none.
pub proof fn lemma_runtime_serves_until_shutdown<T>(events: Seq<RuntimeEvent<T>>)
    ensures
        RuntimeState::of(slot_after(events)).fault() is None <==> exists|i: int|
            0 <= i < events.len() && is_started(#[trigger] events[i]) && forall|j: int|
                i < j < events.len() ==> events[j] !is Shutdown,
        RuntimeState::of(slot_after(events)).fault() matches Some(error) ==> error
            == Error::MissingRuntimeError,
    decreases events.len(),
{
    if events.len() > 0 {
        let before = events.drop_last();
        let last = events.len() - 1;
        lemma_runtime_serves_until_shutdown(before);
        if is_started(events.last()) {
            assert(is_started(events[last]));
        } else if events.last() is Start {
            if RuntimeState::of(slot_after(before)).fault() is None {
                let i = choose|i: int|
                    0 <= i < before.len() && is_started(#[trigger] before[i]) && forall|j: int|
                        i < j < before.len() ==> before[j] !is Shutdown;
                assert(is_started(events[i]));
                assert forall|j: int| i < j < events.len() implies events[j] !is Shutdown by {
                    if j < last {
                        assert(before[j] !is Shutdown);
                    }
                }
            }
            assert forall|i: int|
                0 <= i < events.len() && is_started(#[trigger] events[i]) && (forall|j: int|
                    i < j < events.len() ==> events[j] !is Shutdown) implies RuntimeState::of(
                slot_after(before),
            ).fault() is None by {
                assert(is_started(before[i]));
                assert forall|j: int| i < j < before.len() implies before[j] !is Shutdown by {
                    assert(events[j] !is Shutdown);
                }
            }
        } else {
            assert forall|i: int|
                0 <= i < events.len() && is_started(#[trigger] events[i]) implies !(forall|j: int|
                i < j < events.len() ==> events[j] !is Shutdown) by {
                assert(events[last] is Shutdown);
            }
        }
    }
}

/// A failed attempt to start a runtime changes nothing for the requests.
pub proof fn lemma_failed_start_changes_nothing<T>(slot: Option<T>, message: String)
    ensures
        RuntimeState::of(slot_after_start(slot, Err(message))) == RuntimeState::of(slot),
{
}

/// Only a runtime that is there serves a request; otherwise the error tells whether there
/// is none or why it cannot be looked for.
pub proof fn lemma_only_a_running_runtime_serves(state: RuntimeState)
    ensures
        state is Running <==> state.fault() is None,
        state is Missing <==> state.fault() == Some(Error::MissingRuntimeError),
        state matches RuntimeState::Unavailable(message) ==> state.fault() == Some(
            Error::RuntimeError(message),
        ),
{
}

/// The runtime that was started last is the one that is there; one that could not be
/// made leaves the one before in its place.
pub proof fn lemma_last_start_counts<T>(events: Seq<RuntimeEvent<T>>, runtime: T, message: String)
    ensures
        slot_after(events.push(RuntimeEvent::Start(Ok(runtime)))) == Some(runtime),
        slot_after(events.push(RuntimeEvent::Start(Err(message)))) == slot_after(events),
        slot_after(events.push(RuntimeEvent::Shutdown)) is None,
{
    assert(events.push(RuntimeEvent::Start(Ok(runtime))).drop_last() =~= events);
    assert(events.push(RuntimeEvent::Start(Err(message))).drop_last() =~= events);
}

} // verus!
