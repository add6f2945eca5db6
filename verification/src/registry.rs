//! The port registry: the one place where the discovered port is kept.

use vstd::prelude::*;

verus! {

/// What a reader gets while the worker has not announced its port yet.
#[derive(Clone, Copy, Debug, PartialEq, Eq, Structural)]
pub struct NotReady;

impl NotReady {
    /// The text shown to a caller who asked too early.
    pub open spec fn text() -> Seq<char> {
        "Sidecar not ready"@
    }

    /// The condition in words.
    pub fn message(&self) -> (s: String)
        ensures
            s@ == Self::text(),
    {
        "Sidecar not ready".to_owned()
    }
}

/// The port registry. `port` is `None` until the worker has announced its
/// port, and holds the announced port from then on.
///
/// The registry is plain data: a caller who shares it between threads keeps it
/// behind a lock and holds the lock only around one call.
#[derive(Clone, Copy, Debug)]
pub struct SidecarState {
    pub port: Option<u16>,
}

impl SidecarState {
    /// What a reader of the registry gets.
    pub open spec fn reading(self) -> Result<u16, NotReady> {
        match self.port {
            Some(port) => Ok(port),
            None => Err(NotReady),
        }
    }

    /// The registry in which nothing is recorded.
    pub open spec fn empty() -> SidecarState {
        SidecarState { port: None }
    }

    /// The registry of a worker that has announced nothing.
    pub fn new() -> (state: SidecarState)
        ensures
            state == Self::empty(),
    {
        SidecarState { port: None }
    }

    /// Records the announced port. A later call replaces an earlier port.
    pub fn set(&mut self, port: u16)
        ensures
            final(self).port == Some(port),
    {
        self.port = Some(port);
    }

    /// Reads the port without waiting for it: the port if one was recorded,
    /// else `NotReady`. An unset registry never reads as a port such as 0.
    pub fn get(&self) -> (reading: Result<u16, NotReady>)
        ensures
            reading == self.reading(),
    {
        match self.port {
            Some(port) => Ok(port),
            None => Err(NotReady),
        }
    }
}

/// A registry in which nothing was recorded reads as not ready, and so as
/// no port at all.
pub proof fn lemma_empty_registry_is_not_ready()
    ensures
        SidecarState::empty().reading() == Err::<u16, NotReady>(NotReady),
        forall|port: u16| SidecarState::empty().reading() != Ok::<u16, NotReady>(port),
{
}

/// A registry reads as a port exactly when that port is recorded in it.
pub proof fn lemma_reading_is_recorded_port(state: SidecarState, port: u16)
    ensures
        state.reading() == Ok::<u16, NotReady>(port) <==> state.port == Some(port),
        state.reading() is Err <==> state.port is None,
{
}

} // verus!
