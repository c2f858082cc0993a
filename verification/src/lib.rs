//! A single-slot observer core.
//!
//! A host keeps at most one callback per event name. `dispatch` looks a name
//! up and calls what it finds, handing it the name, an optional payload and
//! the host itself: behind a shared reference for a read-only callback,
//! behind a mutable one for a mutating callback. The functions of
//! `instrument` wrap an operation on the host so that the event goes out
//! after the operation ran, with a payload that is independent of what the
//! operation returns to its caller.
//!
//! Nothing is caught on the way: a callback or an operation that unwinds
//! takes the call that reached it along.

pub mod callback;
pub mod event;
pub mod instrument;
pub mod laws;
pub mod observable;
pub mod registry;

pub use crate::callback::CallbackType;
pub use crate::event::{Event, Return};
pub use crate::instrument::{event, event_return, try_event, try_event_return};
pub use crate::observable::{Observable, ObservableInterface};
pub use crate::registry::Registry;
