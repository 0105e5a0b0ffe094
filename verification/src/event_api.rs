//! Reporting decisions and conversions to the event endpoint.

pub mod batched_event_dispatcher;
pub mod message;
pub mod request;
pub mod simple_event_dispatcher;
pub mod trait_event_dispatcher;

pub use batched_event_dispatcher::{BatchedEventDispatcher, BatchedEventDispatcherView};
pub use message::{EventEnum, EventEnumView, EventMessage, EventMessageView};
pub use simple_event_dispatcher::SimpleEventDispatcher;
pub use trait_event_dispatcher::EventDispatcher;
