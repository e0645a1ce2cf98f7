//! A terminal console for a serial-attached device: the line editor that
//! composes outbound lines, the coordinator that owns the screen state, and
//! the decision logic of the transport worker that owns the device.

pub mod coordinator;
pub mod editor;
pub mod event;
mod text;
pub mod transport;

pub use coordinator::{Coordinator, Reaction};
pub use editor::LineEditor;
pub use event::{Event, Key};
pub use transport::{FlowControl, LinkSettings, Parity, PollStep, ReadOutcome, TransportWorker, WorkerFault, POLL_INTERVAL_MS, READ_BUFFER_LEN};
