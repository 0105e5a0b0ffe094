//! The payload of a request to the event endpoint, and its parts.

pub mod decision;
pub mod event;
pub mod payload;
pub mod snapshot;
pub mod visitor;

pub use decision::{Decision, DecisionView};
pub use event::{Event, EventView};
pub use payload::{Payload, PayloadView};
pub use snapshot::{Snapshot, SnapshotView};
pub use visitor::{Visitor, VisitorView};
