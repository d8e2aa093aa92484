//! The priority attribute of a protocol message: a 32-bit value serialised
//! big-endian into a fixed 4-byte field when attached to a message.

use vstd::prelude::*;

verus! {

/// A candidate-priority value attachable to a protocol message.
#[derive(Debug, Clone, Copy, PartialEq, Eq, Structural)]
pub struct PriorityAttr(pub u32);

/// The four big-endian bytes of a 32-bit value.
pub open spec fn be_bytes_of_u32(v: u32) -> Seq<u8> {
    seq![
        ((v >> 24) & 0xff) as u8,
        ((v >> 16) & 0xff) as u8,
        ((v >> 8) & 0xff) as u8,
        (v & 0xff) as u8,
    ]
}

/// The 32-bit value four big-endian bytes encode.
pub open spec fn u32_of_be_bytes(b0: u8, b1: u8, b2: u8, b3: u8) -> u32 {
    ((b0 as u32) << 24) | ((b1 as u32) << 16) | ((b2 as u32) << 8) | (b3 as u32)
}

/// Serialises a 32-bit value into its 4-byte big-endian wire form.
pub fn encode_priority(v: u32) -> (r: Vec<u8>)
    ensures
        r@ == be_bytes_of_u32(v),
        r@.len() == 4,
{
    proof {
        assert((v >> 24) & 0xff < 256 && (v >> 16) & 0xff < 256 && (v >> 8) & 0xff < 256 && v
            & 0xff < 256) by (bit_vector);
    }
    let mut out: Vec<u8> = Vec::new();
    out.push(((v >> 24) & 0xff) as u8);
    out.push(((v >> 16) & 0xff) as u8);
    out.push(((v >> 8) & 0xff) as u8);
    out.push((v & 0xff) as u8);
    proof {
        assert(out@ =~= be_bytes_of_u32(v));
    }
    out
}

/// Reads the 32-bit value out of its 4-byte big-endian wire form.
pub fn decode_priority(bytes: &[u8]) -> (v: u32)
    requires
        bytes@.len() == 4,
    ensures
        v == u32_of_be_bytes(bytes@[0], bytes@[1], bytes@[2], bytes@[3]),
{
    ((bytes[0] as u32) << 24) | ((bytes[1] as u32) << 16) | ((bytes[2] as u32) << 8) | (
    bytes[3] as u32)
}

/// Encoding a 32-bit value and decoding the four bytes gives the value
/// back, for every value — the wire form loses nothing.
pub proof fn lemma_priority_round_trip(v: u32)
    ensures
        u32_of_be_bytes(
            be_bytes_of_u32(v)[0],
            be_bytes_of_u32(v)[1],
            be_bytes_of_u32(v)[2],
            be_bytes_of_u32(v)[3],
        ) == v,
{
    let b0 = ((v >> 24) & 0xff) as u8;
    let b1 = ((v >> 16) & 0xff) as u8;
    let b2 = ((v >> 8) & 0xff) as u8;
    let b3 = (v & 0xff) as u8;
    assert(be_bytes_of_u32(v)[0] == b0);
    assert(be_bytes_of_u32(v)[1] == b1);
    assert(be_bytes_of_u32(v)[2] == b2);
    assert(be_bytes_of_u32(v)[3] == b3);
    assert((((((v >> 24) & 0xff) as u8) as u32) << 24) | (((((v >> 16) & 0xff) as u8) as u32)
        << 16) | (((((v >> 8) & 0xff) as u8) as u32) << 8) | (((v & 0xff) as u8) as u32) == v)
        by (bit_vector);
}

/// Declares the message type of the outside protocol library so that it
/// can stand in signatures; its insides stay opaque.
#[verifier::external_type_specification]
#[verifier::external_body]
pub struct ExMessage(stun::message::Message);

/// Declares the error type of the outside protocol library.
#[verifier::external_type_specification]
#[verifier::external_body]
pub struct ExStunError(stun::Error);

/// The attributes a message holds, each as its numeric type and raw value,
/// in the order they were appended.
pub uninterp spec fn message_attrs(m: stun::message::Message) -> Seq<(u16, Seq<u8>)>;

/// The accumulated byte length of the attributes a message holds: the
/// message's 32-bit length counter, covering each attribute's padded
/// type-length-value bytes and not the header.
pub uninterp spec fn message_attr_bytes(m: stun::message::Message) -> nat;

/// Relies on the public `length` field of stun::message::Message, the
/// 32-bit counter of accumulated attribute bytes.
#[verifier::external_body]
fn message_attr_len(m: &stun::message::Message) -> (n: u32)
    ensures
        n as nat == message_attr_bytes(*m),
{
    m.length
}

/// Relies on stun::message::Message::add, which appends one raw attribute
/// with the given type and value to the message's attribute list and adds
/// the attribute's type-length-value bytes — 8 for a 4-byte value, which
/// needs no padding — to the message's 32-bit length counter, unchecked;
/// the priority attribute's numeric type is 0x0024.
#[verifier::external_body]
fn message_add_priority(m: &mut stun::message::Message, value: &Vec<u8>)
    requires
        value@.len() == 4,
        message_attr_bytes(*old(m)) + 8 <= u32::MAX,
    ensures
        message_attrs(*final(m)) == message_attrs(*old(m)).push((0x0024u16, value@)),
        message_attr_bytes(*final(m)) == message_attr_bytes(*old(m)) + 8,
{
    m.add(stun::attributes::ATTR_PRIORITY, value.as_slice());
}

impl PriorityAttr {
    /// Appends this priority to a protocol message as one attribute whose
    /// value is the 4-byte big-endian form of the 32-bit priority.  The
    /// message's attribute length counter must still have room for the
    /// 8-byte attribute; `try_add_to` makes that test itself.
    pub fn add_to(&self, m: &mut stun::message::Message) -> (r: Result<(), stun::Error>)
        requires
            message_attr_bytes(*old(m)) + 8 <= u32::MAX,
        ensures
            r is Ok,
            message_attrs(*final(m)) == message_attrs(*old(m)).push(
                (0x0024u16, be_bytes_of_u32(self.0)),
            ),
            message_attr_bytes(*final(m)) == message_attr_bytes(*old(m)) + 8,
    {
        let v = encode_priority(self.0);
        message_add_priority(m, &v);
        Ok(())
    }

    /// Appends this priority when the message's attribute length counter
    /// still has room for the 8-byte attribute; a full message is left
    /// unchanged and reported.
    pub fn try_add_to(&self, m: &mut stun::message::Message) -> (ok: bool)
        ensures
            ok <==> message_attr_bytes(*old(m)) + 8 <= u32::MAX,
            ok ==> message_attrs(*final(m)) == message_attrs(*old(m)).push(
                (0x0024u16, be_bytes_of_u32(self.0)),
            ) && message_attr_bytes(*final(m)) == message_attr_bytes(*old(m)) + 8,
            !ok ==> *final(m) == *old(m),
    {
        let len = message_attr_len(m);
        if len <= u32::MAX - 8 {
            let _ = self.add_to(m);
            true
        } else {
            false
        }
    }
}

} // verus!
