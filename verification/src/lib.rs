//! Bridges the rows of an embedded SQL engine to typed columns, renders a
//! bounded JSON preview of them, and keeps the event sequence of each task.
//!
//! The engine, the event channel and the front ends are not part of this
//! crate. A caller runs the statements that `dispatch` plans, hands the rows
//! back, and publishes the events that each task returns.

pub mod arrays;
pub mod batch;
pub mod columnar;
pub mod dispatch;
pub mod error;
pub mod exporter;
pub mod importer;
pub mod json;
pub mod preview;
pub mod protocol;
pub mod results;
pub mod schema;
pub mod text;
pub mod value;

pub use protocol::{CmdType, Command, EventKind, FileFmt, UiEvent};
