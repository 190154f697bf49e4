//! The request to remove properties from a link.

use crate::execution::{Execution, Submission};
use crate::flags::{deletion_flags, has_flag, request_flags, NLM_F_ACK, NLM_F_EXCL, NLM_F_REQUEST};
use crate::packet::{
    alt_name, alt_name_prop, del_link_prop_envelope, envelope_flags, envelope_payload,
    link_attributes, link_header, link_message, prop_list, prop_list_attribute, push_attribute,
    LinkHeaderView, Payload,
};
use netlink_packet_route::link::{LinkAttribute, LinkMessage, Prop};
use vstd::prelude::*;

verus! {

/// The properties that stand for the alternative names `names`, one for each
/// name, in the order of the names.
pub open spec fn alt_name_props(names: Seq<&str>) -> Seq<Prop> {
    Seq::new(names.len(), |i: int| alt_name(names[i]@))
}

/// A request to remove properties from a link, not yet submitted. It owns the
/// handle of the channel it will go through, and the description of the link
/// with what is to be removed.
pub struct LinkDelPropRequest<H> {
    handle: H,
    message: LinkMessage,
}

impl<H> LinkDelPropRequest<H> {
    /// The handle of the channel that the request holds.
    pub closed spec fn handle(self) -> H {
        self.handle
    }

    /// The description of the link, with what is to be removed from it.
    pub closed spec fn message(self) -> LinkMessage {
        self.message
    }

    /// A request on the link with the index `index`. Its message names the
    /// link by that index and holds nothing else: every other field of the
    /// header is zero, and there is no attribute. The handle is stored, not
    /// used.
    pub fn new(handle: H, index: u32) -> (request: Self)
        ensures
            request.handle() == handle,
            link_header(request.message()) == (LinkHeaderView {
                interface_family: 0,
                index,
                link_layer_type: 0,
                flags: Seq::empty(),
                change_mask: Seq::empty(),
            }),
            link_attributes(request.message()) == Seq::<LinkAttribute>::empty(),
    {
        LinkDelPropRequest { handle, message: link_message(index) }
    }

    /// Starts the execution of the request. The request is used up. Its message
    /// is framed as a request that asks for an acknowledgment and has exclusive
    /// semantics, and is handed back with the untouched handle and with an
    /// execution that awaits the channel's answer. Submitting the framed
    /// request through the handle, and reporting to the execution what the
    /// channel does, is left to the caller.
    pub fn execute(self) -> (submission: Submission<H>)
        ensures
            submission.handle == self.handle(),
            envelope_payload(submission.request) == Payload::DelLinkProp(self.message()),
            envelope_flags(submission.request) == deletion_flags(true),
            has_flag(envelope_flags(submission.request), NLM_F_REQUEST),
            has_flag(envelope_flags(submission.request), NLM_F_ACK),
            has_flag(envelope_flags(submission.request), NLM_F_EXCL),
            submission.execution == Execution::Submitted,
    {
        let LinkDelPropRequest { handle, message } = self;
        let request = del_link_prop_envelope(message, request_flags(true));
        Submission { handle, request, execution: Execution::Submitted }
    }

    /// Gives access to the description of the link, for changes before the
    /// request is executed. The handle is out of reach of such changes.
    pub fn message_mut(&mut self) -> (message: &mut LinkMessage)
        ensures
            *message == old(self).message(),
            final(self).message() == *final(message),
            final(self).handle() == old(self).handle(),
    {
        &mut self.message
    }

    /// Asks for the removal of the alternative names `alt_ifnames` from the
    /// link, as `ip link property del altname ALT_IFNAME dev LINK` does. One
    /// attribute is added behind those that the message holds: a property list
    /// with one property for each name, in the order given. The names are taken
    /// as they are. The header and the handle stay as they were.
    pub fn alt_ifname(self, alt_ifnames: &[&str]) -> (request: Self)
        ensures
            request.handle() == self.handle(),
            link_header(request.message()) == link_header(self.message()),
            link_attributes(request.message()) == link_attributes(self.message()).push(
                prop_list(alt_name_props(alt_ifnames@)),
            ),
    {
        let mut props: Vec<Prop> = Vec::new();
        let mut i: usize = 0;
        while i < alt_ifnames.len()
            invariant
                i <= alt_ifnames.len(),
                props@ == alt_name_props(alt_ifnames@.take(i as int)),
            decreases alt_ifnames.len() - i,
        {
            props.push(alt_name_prop(alt_ifnames[i]));
            i += 1;
        }
        assert(alt_ifnames@.take(i as int) == alt_ifnames@);
        let mut request = self;
        push_attribute(&mut request.message, prop_list_attribute(props));
        request
    }
}

} // verus!
