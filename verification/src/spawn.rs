//! Threads that inherit the context of the thread that starts them.

use crate::ambient::Ambient;
use crate::failure::Failure;
use vstd::prelude::*;

verus! {

/// A piece of work for a new thread, together with the context that the
/// thread inherits.
pub struct Task<F> {
    ambient: Ambient,
    todo: F,
}

impl<F> Task<F> {
    /// The context that the new thread starts with.
    pub closed spec fn ambient(self) -> Ambient {
        self.ambient
    }

    /// The work that the new thread is to do.
    pub closed spec fn todo(self) -> F {
        self.todo
    }

    /// Takes the task apart: the context for the new thread to install, and
    /// the work for it to do after that.
    pub fn into_parts(self) -> (parts: (Ambient, F))
        ensures
            parts.0 == self.ambient(),
            parts.1 == self.todo(),
    {
        (self.ambient, self.todo)
    }
}

/// Prepares `todo` to run on a new thread that talks to the same distributor
/// as the calling thread, whose context is `ambient`.
///
/// Fails with `MissingContext` exactly when `ambient` refers to no
/// distributor. Otherwise the task carries `todo` and a context that refers to
/// the distributor of `ambient`.
pub fn spawn<F: FnOnce() + Send + 'static>(ambient: &Ambient, todo: F) -> (out: Result<
    Task<F>,
    Failure,
>)
    ensures
        ambient@ is None <==> out is Err,
        out is Err ==> out == Err::<Task<F>, Failure>(Failure::MissingContext),
        out is Ok ==> out.unwrap().ambient()@ == ambient@ && out.unwrap().todo() == todo,
{
    if ambient.is_bound() {
        Ok(Task { ambient: ambient.inherit(), todo })
    } else {
        Err(Failure::MissingContext)
    }
}

} // verus!
