//! The operations offered to the surrounding application: reading the
//! discovered port, and giving up the worker's handle so that it is killed.
//!
//! The handle of the worker is of a type `H` that the caller chooses. It is
//! kept in a slot, `Option<H>`, which holds the handle from the spawn until
//! the first kill and nothing afterwards. Signalling the process is the
//! caller's part: a kill takes the handle out of the slot and hands it over,
//! and the caller reports how the signal went.

use vstd::prelude::*;
use crate::registry::{NotReady, SidecarState};

verus! {

/// Why a signal did not reach the worker.
#[derive(Debug, PartialEq, Eq)]
pub enum KillFailure {
    /// The process had ended before it was signalled. Nothing is left to
    /// kill, so this is no failure of the kill.
    AlreadyGone,
    /// The system refused the signal, for the reason given.
    Refused(String),
}

/// Reads the discovered port for the application: the port if the worker
/// has announced one, else the message of [`NotReady`]. Never waits.
pub fn get_sidecar_port(state: &SidecarState) -> (answer: Result<u16, String>)
    ensures
        match state.port {
            Some(port) => answer == Ok::<u16, String>(port),
            None => answer matches Err(message) && message@ == NotReady::text(),
        },
{
    match state.get() {
        Ok(port) => Ok(port),
        Err(not_ready) => Err(not_ready.message()),
    }
}

/// What a caller reports after a kill handed it `target`: nothing where it
/// got no handle, else the system's answer to the signal on that handle.
pub open spec fn kill_attempt<H>(target: Option<H>, answer: Result<(), KillFailure>) -> Option<
    Result<(), KillFailure>,
> {
    match target {
        Some(_) => Some(answer),
        None => None,
    }
}

/// The result of a kill, given how the attempt to signal went: `None` where
/// there was no handle and so no attempt. Only a refused signal is an error.
pub open spec fn kill_outcome(attempt: Option<Result<(), KillFailure>>) -> Result<(), String> {
    match attempt {
        Some(Err(KillFailure::Refused(reason))) => Err(reason),
        _ => Ok(()),
    }
}

/// Puts the handle of the worker that was just spawned into the slot.
pub fn store_child<H>(child_state: &mut Option<H>, child: H)
    ensures
        *final(child_state) == Some(child),
{
    *child_state = Some(child);
}

/// Takes the worker's handle out of the slot. The caller signals the process
/// behind the handle it gets; with `None` the worker was taken by an earlier
/// kill, and there is nothing to do.
pub fn kill_sidecar<H>(child_state: &mut Option<H>) -> (target: Option<H>)
    ensures
        target == *old(child_state),
        *final(child_state) is None,
{
    child_state.take()
}

/// Turns the attempt to signal into the result of the kill. A kill succeeded
/// where it found no handle, where its signal was delivered, and where the
/// worker had already gone; it fails, with the reason given, only where the
/// signal was refused.
pub fn kill_result(attempt: Option<Result<(), KillFailure>>) -> (result: Result<(), String>)
    ensures
        result == kill_outcome(attempt),
{
    match attempt {
        Some(Err(KillFailure::Refused(reason))) => Err(reason),
        _ => Ok(()),
    }
}

/// Of two kills in a row on one slot, the second hands out no handle and
/// succeeds whatever the system would have answered, so the worker is
/// signalled at most once.
///
/// `first` and `second` are what the two calls of [`kill_sidecar`] hand out,
/// `between` and `after` the slot as each leaves it; the preconditions are
/// what the contract of [`kill_sidecar`] says of the two calls.
pub proof fn lemma_second_kill_does_nothing<H>(
    slot: Option<H>,
    first: Option<H>,
    between: Option<H>,
    second: Option<H>,
    after: Option<H>,
    answer: Result<(), KillFailure>,
)
    requires
        first == slot,
        between is None,
        second == between,
        after is None,
    ensures
        second is None,
        !(first is Some && second is Some),
        kill_attempt(second, answer) is None,
        kill_outcome(kill_attempt(second, answer)) == Ok::<(), String>(()),
{
}

/// A kill fails exactly when it was handed a handle and the signal on it was
/// refused, and it then fails with the reason of the refusal.
pub proof fn lemma_kill_fails_only_when_refused<H>(
    target: Option<H>,
    answer: Result<(), KillFailure>,
)
    ensures
        kill_outcome(kill_attempt(target, answer)) is Err <==> (target is Some && (
        answer matches Err(KillFailure::Refused(_)))),
        answer matches Err(KillFailure::Refused(reason)) ==> (target is Some ==> kill_outcome(
            kill_attempt(target, answer),
        ) == Err::<(), String>(reason)),
        !(kill_outcome(kill_attempt(target, answer)) is Err) ==> kill_outcome(
            kill_attempt(target, answer),
        ) == Ok::<(), String>(()),
{
}

/// A kill on a worker that has already gone succeeds.
pub proof fn lemma_kill_of_gone_worker_succeeds<H>(handle: H)
    ensures
        kill_outcome(kill_attempt(Some(handle), Err(KillFailure::AlreadyGone))) == Ok::<(), String>(
            (),
        ),
{
}

} // verus!
