//! Device-side emulation of a USB HID game controller: the endpoint
//! driver's session model and error taxonomy, input aggregation, the
//! report/subcommand protocol and the decisions of the controller loop.
pub mod error;
pub mod report;
pub mod memory;
pub mod protocol;
pub mod input;
pub mod context;
pub mod session;

pub use context::{Context, EpDir, EpFuture, EpPoll, EpType};
pub use error::{Error, TransferError};
