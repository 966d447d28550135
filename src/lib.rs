//! An in-process command dispatcher: work items carry a request, a caller
//! context and an optional one-shot completion callback; each is routed by
//! its event key to a registered handler, and the response goes back to the
//! caller and to the callback.

pub mod event;
pub mod registry;
pub mod channel;
pub mod stream;
