//! Deletion requests of the route netlink protocol, and the protocol by which
//! one request is resolved against the kernel's replies.
//!
//! A request is built as a value that owns the channel's handle and the message
//! to send. Building and amending it never touches the channel. `execute`
//! consumes the request and frames the message; from there on an [`Execution`]
//! decides, event by event, how the exchange ends: with success once the reply
//! stream ends and no error was seen, with failure at the first error.

pub mod addr;
pub mod errors;
pub mod execution;
pub mod flags;
pub mod link;
pub mod packet;

pub use addr::AddressDelRequest;
pub use errors::Error;
pub use link::LinkDelPropRequest;
pub use execution::{resolve, Event, Execution, Submission};
