//! Transfers to be sent: their headers and payloads.

use vstd::prelude::*;

verus! {

/// Transfer priority levels, from highest (0) to lowest (7)
#[derive(Debug, Clone, Copy, PartialEq, Eq)]
pub enum Priority {
    Exceptional,
    Immediate,
    Fast,
    High,
    Nominal,
    Low,
    Slow,
    Optional,
}

impl Priority {
    /// The numeric level of this priority
    pub open spec fn spec_level(self) -> u8 {
        match self {
            Priority::Exceptional => 0,
            Priority::Immediate => 1,
            Priority::Fast => 2,
            Priority::High => 3,
            Priority::Nominal => 4,
            Priority::Low => 5,
            Priority::Slow => 6,
            Priority::Optional => 7,
        }
    }

    /// Returns the numeric level of this priority (0 is the highest)
    #[verifier::when_used_as_spec(spec_level)]
    pub fn level(self) -> (r: u8)
        ensures
            r == self.spec_level(),
            r < 8,
    {
        match self {
            Priority::Exceptional => 0,
            Priority::Immediate => 1,
            Priority::Fast => 2,
            Priority::High => 3,
            Priority::Nominal => 4,
            Priority::Low => 5,
            Priority::Slow => 6,
            Priority::Optional => 7,
        }
    }
}

/// Largest subject ID (13 bits)
pub const SUBJECT_ID_MAX: u16 = 8191;
/// Largest service ID (9 bits)
pub const SERVICE_ID_MAX: u16 = 511;
/// Largest node ID (7 bits)
pub const NODE_ID_MAX: u8 = 127;

/// The header of a message transfer
#[derive(Debug, Clone)]
pub struct MessageHeader<I> {
    /// The transmission deadline for all frames
    pub timestamp: I,
    /// The identifier of this transfer; only its low five bits are sent
    pub transfer_id: u8,
    /// The priority of this transfer
    pub priority: Priority,
    /// The subject of this message
    pub subject: u16,
    /// The source node, or None if this transfer is anonymous
    pub source: Option<u8>,
}

/// The header of a service transfer
#[derive(Debug, Clone)]
pub struct ServiceHeader<I> {
    /// The transmission deadline for all frames
    pub timestamp: I,
    /// The identifier of this transfer; only its low five bits are sent
    pub transfer_id: u8,
    /// The priority of this transfer
    pub priority: Priority,
    /// The ID of this service
    pub service: u16,
    /// The node sending this transfer
    pub source: u8,
    /// The node receiving this transfer
    pub destination: u8,
}

/// Header fields for a message, request, or response
#[derive(Debug, Clone)]
pub enum Header<I> {
    Message(MessageHeader<I>),
    Request(ServiceHeader<I>),
    Response(ServiceHeader<I>),
}

impl<I> MessageHeader<I> {
    /// The subject ID and the source node ID fit their fields
    pub open spec fn wf(&self) -> bool {
        &&& self.subject <= SUBJECT_ID_MAX
        &&& match self.source {
            Some(s) => s <= NODE_ID_MAX,
            None => true,
        }
    }
}

impl<I> ServiceHeader<I> {
    /// The service ID and both node IDs fit their fields
    pub open spec fn wf(&self) -> bool {
        &&& self.service <= SERVICE_ID_MAX
        &&& self.source <= NODE_ID_MAX
        &&& self.destination <= NODE_ID_MAX
    }
}

impl<I> Header<I> {
    /// Every identifier in the header fits its field
    pub open spec fn wf(&self) -> bool {
        match self {
            Header::Message(m) => m.wf(),
            Header::Request(s) => s.wf(),
            Header::Response(s) => s.wf(),
        }
    }

    pub open spec fn spec_transfer_id(&self) -> u8 {
        match self {
            Header::Message(m) => m.transfer_id,
            Header::Request(s) => s.transfer_id,
            Header::Response(s) => s.transfer_id,
        }
    }

    pub open spec fn spec_timestamp(&self) -> I {
        match self {
            Header::Message(m) => m.timestamp,
            Header::Request(s) => s.timestamp,
            Header::Response(s) => s.timestamp,
        }
    }

    /// Returns the transfer ID of this header
    #[verifier::when_used_as_spec(spec_transfer_id)]
    pub fn transfer_id(&self) -> (r: u8)
        ensures
            r == self.spec_transfer_id(),
    {
        match self {
            Header::Message(m) => m.transfer_id,
            Header::Request(s) => s.transfer_id,
            Header::Response(s) => s.transfer_id,
        }
    }

    /// Returns the timestamp of this header
    pub fn timestamp(&self) -> (r: I)
        where
            I: Copy,
        ensures
            r == self.spec_timestamp(),
    {
        match self {
            Header::Message(m) => m.timestamp,
            Header::Request(s) => s.timestamp,
            Header::Response(s) => s.timestamp,
        }
    }
}

/// A transfer: a header and the payload bytes to send
#[derive(Debug, Clone)]
pub struct Transfer<I> {
    pub header: Header<I>,
    pub payload: Vec<u8>,
}

} // verus!
