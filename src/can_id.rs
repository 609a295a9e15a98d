//! The 29-bit CAN identifier of a transfer's frames.

use vstd::prelude::*;

use canadensis_core::NodeId;

use crate::transfer::{Header, ServiceHeader, NODE_ID_MAX};

verus! {

/// One more than the largest 29-bit value
pub const CAN_ID_LIMIT: u32 = 0x2000_0000;

/// Source of every pseudo node ID before the payload is folded in
pub const PSEUDO_ID_SEED: u8 = 0x55;

/// A 29-bit extended CAN identifier
#[derive(Debug, Clone, Copy, PartialEq, Eq)]
pub struct CanId {
    bits: u32,
}

impl CanId {
    #[verifier::type_invariant]
    spec fn fits(self) -> bool {
        self.bits < CAN_ID_LIMIT
    }

    /// Creates an identifier from its bits, or returns None if they do not fit into 29 bits
    pub fn try_from_bits(bits: u32) -> (r: Option<CanId>)
        ensures
            r is Some <==> bits < CAN_ID_LIMIT,
            r matches Some(id) ==> id@ == bits,
    {
        if bits < CAN_ID_LIMIT {
            Some(CanId { bits })
        } else {
            None
        }
    }

    /// Returns the bits of this identifier
    pub fn value(&self) -> (r: u32)
        ensures
            r == self@,
            r < CAN_ID_LIMIT,
    {
        proof {
            use_type_invariant(self);
        }
        self.bits
    }
}

impl View for CanId {
    type V = u32;

    closed spec fn view(&self) -> u32 {
        self.bits
    }
}

/// The identifier of a message: priority in bits 28..26, subject in bits 20..8,
/// bits 22 and 21 set, bit 24 set for an anonymous message, source in bits 6..0.
pub open spec fn message_id_bits(priority: u8, subject: u16, source: u8, anonymous: bool) -> u32 {
    let base = ((priority as u32) << 26u32) | (source as u32) | ((subject as u32) << 8u32) | (1u32
        << 21u32) | (1u32 << 22u32);
    if anonymous {
        base | (1u32 << 24u32)
    } else {
        base
    }
}

/// The identifier of a service transfer: priority in bits 28..26, bit 25 set, bit 24 set
/// for a request, service in bits 22..14, destination in bits 13..7, source in bits 6..0.
pub open spec fn service_id_bits(
    priority: u8,
    service: u16,
    destination: u8,
    source: u8,
    request: bool,
) -> u32 {
    let base = ((priority as u32) << 26u32) | (source as u32) | (((service as u32) << 14u32) | ((
    destination as u32) << 7u32) | (1u32 << 25u32));
    if request {
        base | (1u32 << 24u32)
    } else {
        base
    }
}

/// The XOR of the seed and every byte of `s`.
pub open spec fn xor_fold(s: Seq<u8>) -> u8
    decreases s.len(),
{
    if s.len() == 0 {
        PSEUDO_ID_SEED
    } else {
        xor_fold(s.drop_last()) ^ s.last()
    }
}

/// The node IDs reserved for diagnostic and debugging tools: the two highest.
pub open spec fn diagnostic_reserved(id: u8) -> bool {
    id >= 126
}

/// The pseudo node ID of an anonymous message: the low seven bits of the folded
/// payload, moved down to the highest ID below the reserved ones if they are reserved.
pub open spec fn pseudo_id(payload: Seq<u8>) -> u8 {
    let id = xor_fold(payload) & 0x7f;
    if diagnostic_reserved(id) {
        125
    } else {
        id
    }
}

/// The identifier of every frame of a transfer with this header and payload.
pub open spec fn can_id_of<I>(header: Header<I>, payload: Seq<u8>) -> u32 {
    match header {
        Header::Message(m) => match m.source {
            Some(s) => message_id_bits(m.priority.spec_level(), m.subject, s, false),
            None => message_id_bits(m.priority.spec_level(), m.subject, pseudo_id(payload), true),
        },
        Header::Request(s) => service_id_bits(
            s.priority.spec_level(),
            s.service,
            s.destination,
            s.source,
            true,
        ),
        Header::Response(s) => service_id_bits(
            s.priority.spec_level(),
            s.service,
            s.destination,
            s.source,
            false,
        ),
    }
}

/// Relies on canadensis_core's NodeId::from_truncating: it keeps the low seven bits.
#[verifier::external_body]
fn node_id_from_truncating(value: u8) -> (r: u8)
    ensures
        r == value & 0x7f,
{
    u8::from(NodeId::from_truncating(value))
}

/// Relies on canadensis_core's NodeId::is_diagnostic_reserved: true for the two highest
/// node IDs.
#[verifier::external_body]
fn node_id_is_diagnostic_reserved(id: u8) -> (r: bool)
    requires
        id <= NODE_ID_MAX,
    ensures
        r == diagnostic_reserved(id),
{
    NodeId::from_truncating(id).is_diagnostic_reserved()
}

/// Generates a non-reserved node pseudo-ID from a transfer payload
pub fn make_pseudo_id(payload: &[u8]) -> (r: u8)
    ensures
        r == pseudo_id(payload@),
        r <= NODE_ID_MAX,
        !diagnostic_reserved(r),
{
    let mut bits: u8 = PSEUDO_ID_SEED;
    let mut i: usize = 0;
    while i < payload.len()
        invariant
            i <= payload@.len(),
            bits == xor_fold(payload@.subrange(0, i as int)),
        decreases payload@.len() - i,
    {
        proof {
            assert(payload@.subrange(0, i + 1).drop_last() =~= payload@.subrange(0, i as int));
        }
        bits = bits ^ payload[i];
        i = i + 1;
    }
    proof {
        assert(payload@.subrange(0, i as int) =~= payload@);
    }
    let ghost folded = bits & 0x7f;
    let mut id = node_id_from_truncating(bits);
    assert(id <= NODE_ID_MAX) by (bit_vector)
        requires
            id == bits & 0x7f,
    ;
    while node_id_is_diagnostic_reserved(id)
        invariant
            id <= folded,
            folded <= NODE_ID_MAX,
            id >= 125 || id == folded,
        decreases id,
    {
        let lower = id - 1;
        id = node_id_from_truncating(lower);
        assert(id == lower) by (bit_vector)
            requires
                id == lower & 0x7f,
                lower < 128,
        ;
    }
    id
}

proof fn lemma_message_id_fits(priority: u32, subject: u32, source: u32)
    requires
        priority < 8,
        subject < 8192,
        source < 128,
    ensures
        ((priority << 26u32) | source | (subject << 8u32) | (1u32 << 21u32) | (1u32 << 22u32))
            < CAN_ID_LIMIT,
        ((priority << 26u32) | source | (subject << 8u32) | (1u32 << 21u32) | (1u32 << 22u32)
            | (1u32 << 24u32)) < CAN_ID_LIMIT,
{
    assert(((priority << 26u32) | source | (subject << 8u32) | (1u32 << 21u32) | (1u32 << 22u32))
        < 0x2000_0000u32 && ((priority << 26u32) | source | (subject << 8u32) | (1u32 << 21u32) | (
    1u32 << 22u32) | (1u32 << 24u32)) < 0x2000_0000u32) by (bit_vector)
        requires
            priority < 8,
            subject < 8192,
            source < 128,
    ;
}

proof fn lemma_service_id_fits(priority: u32, service: u32, destination: u32, source: u32)
    requires
        priority < 8,
        service < 512,
        destination < 128,
        source < 128,
    ensures
        ((priority << 26u32) | source | ((service << 14u32) | (destination << 7u32) | (1u32
            << 25u32))) < CAN_ID_LIMIT,
        ((priority << 26u32) | source | ((service << 14u32) | (destination << 7u32) | (1u32
            << 25u32)) | (1u32 << 24u32)) < CAN_ID_LIMIT,
{
    assert(((priority << 26u32) | source | ((service << 14u32) | (destination << 7u32) | (1u32
        << 25u32))) < 0x2000_0000u32 && ((priority << 26u32) | source | ((service << 14u32) | (
    destination << 7u32) | (1u32 << 25u32)) | (1u32 << 24u32)) < 0x2000_0000u32) by (bit_vector)
        requires
            priority < 8,
            service < 512,
            destination < 128,
            source < 128,
    ;
}

/// Encodes the service ID, the destination node ID and the service flag
pub fn encode_common_service_fields<I>(header: &ServiceHeader<I>) -> (r: u32)
    ensures
        r == ((header.service as u32) << 14u32) | ((header.destination as u32) << 7u32) | (1u32
            << 25u32),
{
    ((header.service as u32) << 14u32) | ((header.destination as u32) << 7u32) | (1u32 << 25u32)
}

/// Packs a transfer's header into its CAN identifier
pub fn make_can_id<I>(header: &Header<I>, payload: &[u8]) -> (r: CanId)
    requires
        header.wf(),
    ensures
        r@ == can_id_of(*header, payload@),
{
    let bits: u32 = match header {
        Header::Message(m) => {
            let (source, anonymous) = match m.source {
                Some(s) => (s, false),
                None => (make_pseudo_id(payload), true),
            };
            let mut bits: u32 = (m.priority.level() as u32) << 26u32;
            bits = bits | (source as u32);
            bits = bits | ((m.subject as u32) << 8u32);
            bits = bits | (1u32 << 21u32);
            bits = bits | (1u32 << 22u32);
            proof {
                lemma_message_id_fits(
                    m.priority.spec_level() as u32,
                    m.subject as u32,
                    source as u32,
                );
            }
            if anonymous {
                bits = bits | (1u32 << 24u32);
            }
            bits
        },
        Header::Request(s) => {
            let mut bits: u32 = (s.priority.level() as u32) << 26u32;
            bits = bits | (s.source as u32);
            bits = bits | encode_common_service_fields(s);
            proof {
                lemma_service_id_fits(
                    s.priority.spec_level() as u32,
                    s.service as u32,
                    s.destination as u32,
                    s.source as u32,
                );
            }
            bits = bits | (1u32 << 24u32);
            bits
        },
        Header::Response(s) => {
            let mut bits: u32 = (s.priority.level() as u32) << 26u32;
            bits = bits | (s.source as u32);
            bits = bits | encode_common_service_fields(s);
            proof {
                lemma_service_id_fits(
                    s.priority.spec_level() as u32,
                    s.service as u32,
                    s.destination as u32,
                    s.source as u32,
                );
            }
            bits
        },
    };
    CanId { bits }
}

} // verus!
