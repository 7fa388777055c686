//! Actors addressed by their type.
//!
//! An actor is a value that runs on a thread of its own. Nobody holds a
//! handle to it: whoever wants to talk to an actor names its type, and a
//! shared [`Distributor`] leads to the channel of the actor registered under
//! that type. A [`Message`] is sent and its reply awaited in one step, while
//! the lock of the distributor is held.
//!
//! The library starts no threads and keeps no thread-local state. A function
//! that concerns a new thread returns what that thread is to do ([`Launch`],
//! [`Task`]), and a function that needs the context of the calling thread
//! takes it as an [`Ambient`].

pub mod actor;
pub mod ambient;
pub mod channel;
pub mod distributor;
pub mod failure;
pub mod laws;
pub mod message;
pub mod queue;
pub mod register;
pub mod registry;
pub mod shared;
pub mod spawn;

pub use crate::actor::Actor;
pub use crate::actor::Launch;
pub use crate::ambient::Ambient;
pub use crate::channel::Channel;
pub use crate::distributor::Distributor;
pub use crate::failure::Failure;
pub use crate::message::Message;
pub use crate::register::Register;
pub use crate::registry::ChannelKey;
pub use crate::spawn::spawn;
pub use crate::spawn::Task;
