//! What holds of the packet format as a whole.
//!
//! Each law is stated over the functions that the contracts of the
//! executable code use: [`Encode::wire`] for the bytes of a value and
//! [`Decode::parse`] for the value of a run of bytes.

use crate::codec::{read_back, Codec};
use crate::de::{eof, Decode};
use crate::el_packet::{ElPacket, ElPacketView, Property, PropertyView, ServiceCode};
use crate::error::ErrorKind;
use crate::object::{class_of, class_round_trip, EchonetObject, ElClass};
use crate::ser::{wire_all, wire_bytes, Encode};
use vstd::prelude::*;

verus! {

/// Decoding the bytes of a packet gives the packet back, and takes as many
/// bytes as the packet has. This holds of every packet with the standard
/// header whose lengths fit their length bytes: at most 255 properties, each
/// with at most 255 bytes of data.
pub proof fn packet_round_trip(p: ElPacketView)
    requires
        ElPacket::encodable(p),
    ensures
        ElPacket::parse(ElPacket::wire(p)) == read_back(p, ElPacket::wire(p).len()),
{
    ElPacket::round_trip(p, Seq::empty());
    assert(ElPacket::wire(p) + Seq::<u8>::empty() =~= ElPacket::wire(p));
}

/// Decoding stops at the end of the packet: bytes that follow a packet in a
/// buffer change neither the packet that is read nor the number of bytes it
/// takes.
pub proof fn packet_round_trip_in_buffer(p: ElPacketView, rest: Seq<u8>)
    requires
        ElPacket::encodable(p),
    ensures
        ElPacket::parse(ElPacket::wire(p) + rest) == read_back(p, ElPacket::wire(p).len()),
{
    ElPacket::round_trip(p, rest);
}

/// A packet takes twelve bytes and the bytes of its properties: two for
/// each property and one for each byte of data.
pub proof fn packet_length(p: ElPacketView)
    ensures
        ElPacket::wire(p).len() >= 12,
        p.props.len() == 0 ==> ElPacket::wire(p).len() == 12,
{
    assert(p.props.len() == 0 ==> wire_all::<Property>(p.props).len() == 0);
}

/// A packet whose bytes stop short of its end does not decode: every proper
/// prefix of the bytes of a packet fails for want of input, and no packet
/// comes out of it.
pub proof fn packet_truncated(p: ElPacketView, n: int)
    requires
        ElPacket::encodable(p),
        0 <= n < ElPacket::wire(p).len(),
    ensures
        ElPacket::parse(ElPacket::wire(p).take(n)) == eof::<ElPacketView>(),
{
    ElPacket::truncated(p, n);
}

/// The classification of objects is open: any three bytes decode to an
/// object, whether or not their class has a name, and the bytes of that
/// object are the three bytes again.
pub proof fn object_bytes_round_trip(group: u8, class: u8, instance: u8, rest: Seq<u8>)
    ensures
        EchonetObject::parse(seq![group, class, instance] + rest) == read_back(
            EchonetObject::of(group, class, instance),
            3,
        ),
        EchonetObject::wire(EchonetObject::of(group, class, instance)) == seq![
            group,
            class,
            instance,
        ],
{
    assert(EchonetObject::of(group, class, instance).bytes() =~= seq![group, class, instance]);
}

/// A class code that has no name is kept as it is: it decodes to
/// [`ElClass::Unknown`] with the two bytes, and the bytes of any class that
/// was decoded are the bytes it was decoded from.
pub proof fn class_bytes_round_trip(group: u8, class: u8, rest: Seq<u8>)
    ensures
        ElClass::parse(seq![group, class] + rest) == read_back(class_of(group, class), 2),
        ElClass::wire(class_of(group, class)) == seq![group, class],
        class_of(group, class) is Unknown ==> class_of(group, class) == ElClass::Unknown(
            [group, class],
        ),
        class_of(group, class).is_canonical(),
{
}

/// A class in canonical form survives its bytes: decoding them gives the
/// class back.
pub proof fn class_round_trip_in_buffer(class: ElClass, rest: Seq<u8>)
    requires
        class.is_canonical(),
    ensures
        ElClass::parse(ElClass::wire(class) + rest) == read_back(class, 2),
{
    class_round_trip(class);
}

/// The set of services is closed: a byte decodes to a service exactly when
/// it is the code of one, and any other byte is refused with that byte as
/// the invalid tag.
pub proof fn service_code_closed(byte: u8, rest: Seq<u8>)
    ensures
        match ServiceCode::of(byte) {
            Some(esv) => esv.code() == byte && ServiceCode::parse(seq![byte] + rest) == read_back(
                esv,
                1,
            ),
            None => ServiceCode::parse(seq![byte] + rest) == Err::<(ServiceCode, nat), ErrorKind>(
                ErrorKind::InvalidTagEncoding(byte as usize),
            ),
        },
{
}

/// A packet answers a request exactly when it carries the transaction id of
/// the request and comes from the object the request was sent to; no other
/// field has a say.
pub proof fn response_correlation(resp: ElPacketView, req: ElPacketView)
    ensures
        resp.transaction_id == req.transaction_id && resp.seoj == req.deoj ==> resp.answers(req),
        resp.transaction_id != req.transaction_id ==> !resp.answers(req),
        resp.seoj != req.deoj ==> !resp.answers(req),
{
}

/// The answer that is made for a request answers it, whatever service and
/// properties it carries.
pub proof fn created_response_answers(req: ElPacketView, esv: ServiceCode, props: Seq<PropertyView>)
    ensures
        req.response(esv, props).answers(req),
{
}

/// An empty blob takes one byte, the length byte 0, and a property without
/// data takes two.
pub proof fn empty_blob(epc: u8)
    ensures
        wire_bytes(Seq::empty()) == seq![0u8],
        Property::wire(PropertyView { epc, edt: Seq::empty() }) == seq![epc, 0u8],
{
    assert(wire_bytes(Seq::empty()) =~= seq![0u8]);
    assert(Property::wire(PropertyView { epc, edt: Seq::empty() }) =~= seq![epc, 0u8]);
}

} // verus!
