//! The boundary to the packet crates.
//!
//! The messages that pass through this library are values of
//! `netlink_packet_core` and `netlink_packet_route`. The verifier does not look
//! inside them. What the library relies on is written down here: the types,
//! spec functions that name what a message holds, and one small function for
//! each operation on a message. The contracts of those functions are taken from
//! the crates' sources and are not proved.

use netlink_packet_core::{ErrorMessage, NetlinkMessage, NetlinkPayload};
use netlink_packet_route::address::AddressMessage;
use netlink_packet_route::link::{LinkAttribute, LinkMessage, Prop};
use netlink_packet_route::RouteNetlinkMessage;
use vstd::prelude::*;

verus! {

/// `netlink_packet_core::NetlinkMessage`: a header and a payload.
#[verifier::external_type_specification]
#[verifier::external_body]
#[verifier::reject_recursive_types(I)]
pub struct ExNetlinkMessage<I>(NetlinkMessage<I>);

/// `netlink_packet_route::RouteNetlinkMessage`: the messages of the route
/// protocol.
#[verifier::external_type_specification]
#[verifier::external_body]
pub struct ExRouteNetlinkMessage(RouteNetlinkMessage);

/// `netlink_packet_core::ErrorMessage`: the error object of the kernel, with
/// its code and the header of the request it answers.
#[verifier::external_type_specification]
#[verifier::external_body]
pub struct ExErrorMessage(ErrorMessage);

/// `netlink_packet_route::address::AddressMessage`: the description of an
/// address.
#[verifier::external_type_specification]
#[verifier::external_body]
pub struct ExAddressMessage(AddressMessage);

/// `netlink_packet_route::link::LinkMessage`: the description of a link, a
/// header and a list of attributes.
#[verifier::external_type_specification]
#[verifier::external_body]
pub struct ExLinkMessage(LinkMessage);

/// `netlink_packet_route::link::LinkAttribute`: one attribute of a link.
#[verifier::external_type_specification]
#[verifier::external_body]
pub struct ExLinkAttribute(LinkAttribute);

/// `netlink_packet_route::link::Prop`: one property in a link's property list.
#[verifier::external_type_specification]
#[verifier::external_body]
pub struct ExProp(Prop);

/// A message of the route protocol together with its netlink header: what is
/// submitted to the channel, and what the channel delivers as a reply.
pub type Envelope = NetlinkMessage<RouteNetlinkMessage>;

/// What an envelope carries, as far as this library tells payloads apart.
pub enum Payload {
    /// The error object of the kernel.
    Error(ErrorMessage),
    /// The request to delete an address.
    DelAddress(AddressMessage),
    /// The request to remove properties from a link.
    DelLinkProp(LinkMessage),
    /// Anything else.
    Other,
}

/// The header of a link message, field by field, as integers: the interface
/// family and the link layer type as their numbers, each flag as its bit.
pub struct LinkHeaderView {
    pub interface_family: u8,
    pub index: u32,
    pub link_layer_type: u16,
    pub flags: Seq<u32>,
    pub change_mask: Seq<u32>,
}

/// The field `header.flags` of an envelope.
pub uninterp spec fn envelope_flags(envelope: Envelope) -> u16;

/// The field `payload` of an envelope: `Error(e)` for `NetlinkPayload::Error(e)`,
/// `DelAddress(m)` and `DelLinkProp(m)` for an inner message that is
/// `RouteNetlinkMessage::DelAddress(m)` or `RouteNetlinkMessage::DelLinkProp(m)`,
/// and `Other` for every other payload.
pub uninterp spec fn envelope_payload(envelope: Envelope) -> Payload;

/// The field `header` of a link message.
pub uninterp spec fn link_header(message: LinkMessage) -> LinkHeaderView;

/// The field `attributes` of a link message.
pub uninterp spec fn link_attributes(message: LinkMessage) -> Seq<LinkAttribute>;

/// The property `Prop::AltIfName` that holds `name`.
pub uninterp spec fn alt_name(name: Seq<char>) -> Prop;

/// The attribute `LinkAttribute::PropList` that holds `props`.
pub uninterp spec fn prop_list(props: Seq<Prop>) -> LinkAttribute;

/// Whether an envelope is tagged as an error.
pub open spec fn is_error(envelope: Envelope) -> bool {
    envelope_payload(envelope) is Error
}

/// Frames the deletion of an address. `NetlinkMessage::from` puts the message
/// under a default header as the payload `InnerMessage(DelAddress(message))`;
/// the header's flags are then set to `flags`.
#[verifier::external_body]
pub(crate) fn del_address_envelope(message: AddressMessage, flags: u16) -> (envelope: Envelope)
    ensures
        envelope_flags(envelope) == flags,
        envelope_payload(envelope) == Payload::DelAddress(message),
{
    let mut envelope = NetlinkMessage::from(RouteNetlinkMessage::DelAddress(message));
    envelope.header.flags = flags;
    envelope
}

/// Frames the removal of link properties. `NetlinkMessage::from` puts the
/// message under a default header as the payload
/// `InnerMessage(DelLinkProp(message))`; the header's flags are then set to
/// `flags`.
#[verifier::external_body]
pub(crate) fn del_link_prop_envelope(message: LinkMessage, flags: u16) -> (envelope: Envelope)
    ensures
        envelope_flags(envelope) == flags,
        envelope_payload(envelope) == Payload::DelLinkProp(message),
{
    let mut envelope = NetlinkMessage::from(RouteNetlinkMessage::DelLinkProp(message));
    envelope.header.flags = flags;
    envelope
}

/// Takes the error object out of an envelope whose payload is
/// `NetlinkPayload::Error`; there is none in any other envelope.
#[verifier::external_body]
pub(crate) fn into_error(envelope: Envelope) -> (error: Option<ErrorMessage>)
    ensures
        error == match envelope_payload(envelope) {
            Payload::Error(e) => Some(e),
            _ => None,
        },
{
    match envelope.payload {
        NetlinkPayload::Error(error) => Some(error),
        _ => None,
    }
}

/// `LinkMessage::default()` with the header's index set to `index`. The default
/// header has the unspecified family and the link layer type `Netrom`, both
/// with the number zero, and no flag; the default message has no attribute.
#[verifier::external_body]
pub(crate) fn link_message(index: u32) -> (message: LinkMessage)
    ensures
        link_header(message) == (LinkHeaderView {
            interface_family: 0,
            index,
            link_layer_type: 0,
            flags: Seq::empty(),
            change_mask: Seq::empty(),
        }),
        link_attributes(message) == Seq::<LinkAttribute>::empty(),
{
    let mut message = LinkMessage::default();
    message.header.index = index;
    message
}

/// `Prop::AltIfName` of a copy of `name`.
#[verifier::external_body]
pub(crate) fn alt_name_prop(name: &str) -> (prop: Prop)
    ensures
        prop == alt_name(name@),
{
    Prop::AltIfName(name.to_string())
}

/// `LinkAttribute::PropList` of `props`.
#[verifier::external_body]
pub(crate) fn prop_list_attribute(props: Vec<Prop>) -> (attribute: LinkAttribute)
    ensures
        attribute == prop_list(props@),
{
    LinkAttribute::PropList(props)
}

/// `Vec::push` on the field `attributes` of a link message. The attribute comes
/// last, and the header stays as it is.
#[verifier::external_body]
pub(crate) fn push_attribute(message: &mut LinkMessage, attribute: LinkAttribute)
    ensures
        link_header(*final(message)) == link_header(*old(message)),
        link_attributes(*final(message)) == link_attributes(*old(message)).push(attribute),
{
    message.attributes.push(attribute);
}

} // verus!
