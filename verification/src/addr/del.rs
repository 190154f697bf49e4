//! The request to delete an address.

use crate::execution::{Execution, Submission};
use crate::flags::{deletion_flags, has_flag, request_flags, NLM_F_ACK, NLM_F_EXCL, NLM_F_REQUEST};
use crate::packet::{del_address_envelope, envelope_flags, envelope_payload, Payload};
use netlink_packet_route::address::AddressMessage;
use vstd::prelude::*;

verus! {

/// A request to delete an address, not yet submitted. It owns the handle of the
/// channel it will go through, and the description of the address.
pub struct AddressDelRequest<H> {
    handle: H,
    message: AddressMessage,
}

impl<H> AddressDelRequest<H> {
    /// The handle of the channel that the request holds.
    pub closed spec fn handle(self) -> H {
        self.handle
    }

    /// The description of the address to delete.
    pub closed spec fn message(self) -> AddressMessage {
        self.message
    }

    /// A request to delete the address that `message` describes. The handle is
    /// stored, not used.
    pub fn new(handle: H, message: AddressMessage) -> (request: Self)
        ensures
            request.handle() == handle,
            request.message() == message,
    {
        AddressDelRequest { handle, message }
    }

    /// Starts the execution of the request. The request is used up. Its message
    /// is framed as a request that asks for an acknowledgment, and is handed
    /// back with the untouched handle and with an execution that awaits the
    /// channel's answer. Submitting the framed request through the handle, and
    /// reporting to the execution what the channel does, is left to the caller.
    pub fn execute(self) -> (submission: Submission<H>)
        ensures
            submission.handle == self.handle(),
            envelope_payload(submission.request) == Payload::DelAddress(self.message()),
            envelope_flags(submission.request) == deletion_flags(false),
            has_flag(envelope_flags(submission.request), NLM_F_REQUEST),
            has_flag(envelope_flags(submission.request), NLM_F_ACK),
            !has_flag(envelope_flags(submission.request), NLM_F_EXCL),
            submission.execution == Execution::Submitted,
    {
        let AddressDelRequest { handle, message } = self;
        let request = del_address_envelope(message, request_flags(false));
        Submission { handle, request, execution: Execution::Submitted }
    }

    /// Gives access to the description of the address, for changes before the
    /// request is executed. The handle is out of reach of such changes.
    pub fn message_mut(&mut self) -> (message: &mut AddressMessage)
        ensures
            *message == old(self).message(),
            final(self).message() == *final(message),
            final(self).handle() == old(self).handle(),
    {
        &mut self.message
    }
}

} // verus!
