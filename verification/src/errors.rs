//! How an execution can fail.

use netlink_packet_core::ErrorMessage;
use vstd::prelude::*;

verus! {

/// The failure of an execution.
#[derive(Debug, PartialEq, Eq)]
pub enum Error {
    /// The channel did not accept the request: nothing was sent, and no reply
    /// was awaited.
    RequestFailed,
    /// The kernel answered with an error object, which is kept whole: its code,
    /// and what the kernel attached to it.
    NetlinkError(ErrorMessage),
}

} // verus!
