//! The ambient context of a thread: the distributor that the thread talks to.

use crate::distributor::Distributor;
use crate::failure::Failure;
use crate::shared::share;
use std::sync::Arc;
use std::sync::Mutex;
use vstd::prelude::*;

verus! {

/// What one thread knows of its surroundings: a handle to the distributor it
/// belongs to, or nothing.
///
/// A thread gets its context by making a distributor, or inherits it from the
/// thread that started it. Any other thread has none.
pub struct Ambient {
    handle: Option<Arc<Mutex<Distributor>>>,
}

impl View for Ambient {
    type V = Option<Arc<Mutex<Distributor>>>;

    closed spec fn view(&self) -> Option<Arc<Mutex<Distributor>>> {
        self.handle
    }
}

impl Ambient {
    /// The context of a thread that belongs to no distributor.
    pub fn unbound() -> (ambient: Ambient)
        ensures
            ambient@ is None,
    {
        Ambient { handle: None }
    }

    /// A context that refers to the distributor of `handle`.
    pub fn bound_to(handle: &Arc<Mutex<Distributor>>) -> (ambient: Ambient)
        ensures
            ambient@ == Some(*handle),
    {
        Ambient { handle: Some(handle.clone()) }
    }

    /// Whether the context refers to a distributor.
    pub fn is_bound(&self) -> (bound: bool)
        ensures
            bound == (self@ is Some),
    {
        self.handle.is_some()
    }

    /// A handle to the distributor of the context. Fails with `MissingContext`
    /// exactly when there is none.
    pub fn handle(&self) -> (out: Result<Arc<Mutex<Distributor>>, Failure>)
        ensures
            match self@ {
                Some(handle) => out == Ok::<Arc<Mutex<Distributor>>, Failure>(handle),
                None => out == Err::<Arc<Mutex<Distributor>>, Failure>(Failure::MissingContext),
            },
    {
        match &self.handle {
            Some(handle) => Ok(handle.clone()),
            None => Err(Failure::MissingContext),
        }
    }

    /// The context that a thread started from this one begins with: the same
    /// distributor, or none.
    pub fn inherit(&self) -> (child: Ambient)
        ensures
            child@ == self@,
    {
        match &self.handle {
            Some(handle) => Ambient { handle: Some(handle.clone()) },
            None => Ambient { handle: None },
        }
    }
}

impl Distributor {
    /// Makes a distributor with no actor registered, shares it, and binds
    /// `ambient`, the context of the calling thread, to it. Returns a handle
    /// to the distributor.
    pub fn new(ambient: &mut Ambient) -> (handle: Arc<Mutex<Distributor>>)
        ensures
            final(ambient)@ == Some(handle),
    {
        let handle = share(Distributor::empty());
        *ambient = Ambient::bound_to(&handle);
        handle
    }
}

} // verus!
