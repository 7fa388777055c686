//! The ways in which talking to an actor can fail.

use vstd::prelude::*;

verus! {

/// Why a message could not be exchanged with an actor.
///
/// Every failure is fatal to the exchange that met it: no reply was obtained
/// and none will be.
#[derive(Clone, Copy, Debug, PartialEq, Eq, Structural)]
pub enum Failure {
    /// The calling thread has no distributor in its ambient context.
    MissingContext,
    /// No actor is registered under the requested type key.
    MissingActor,
    /// The actor's end of the channel is closed: the actor has stopped.
    Disconnected,
}

impl Failure {
    /// What `describe` says of each failure.
    pub open spec fn text(self) -> Seq<char> {
        match self {
            Failure::MissingContext =>
                "Tried to get a actor::Distributor outside of an actor thread."@,
            Failure::MissingActor => "Tried to send a Message to a non-existent Actor."@,
            Failure::Disconnected => "Tried to send a Message to an Actor that has stopped."@,
        }
    }

    /// A sentence that names the condition which was not met.
    pub fn describe(&self) -> (text: &'static str)
        ensures
            text@ == self.text(),
    {
        match self {
            Failure::MissingContext =>
                "Tried to get a actor::Distributor outside of an actor thread.",
            Failure::MissingActor => "Tried to send a Message to a non-existent Actor.",
            Failure::Disconnected => "Tried to send a Message to an Actor that has stopped.",
        }
    }
}

} // verus!
