//! Frames, the sizes they can have, and the error of a full queue.

use vstd::prelude::*;

use crate::can_id::CanId;

verus! {

/// Largest frame payload (CAN FD)
pub const MAX_MTU: usize = 64;

/// Maximum transmission unit: the number of data bytes of a frame, tail byte included
#[derive(Debug, Clone, Copy, PartialEq, Eq)]
pub enum Mtu {
    /// Classic CAN
    Can8,
    CanFd12,
    CanFd16,
    CanFd20,
    CanFd24,
    CanFd32,
    CanFd48,
    CanFd64,
}

impl Mtu {
    pub open spec fn spec_bytes(self) -> usize {
        match self {
            Mtu::Can8 => 8,
            Mtu::CanFd12 => 12,
            Mtu::CanFd16 => 16,
            Mtu::CanFd20 => 20,
            Mtu::CanFd24 => 24,
            Mtu::CanFd32 => 32,
            Mtu::CanFd48 => 48,
            Mtu::CanFd64 => 64,
        }
    }

    /// Returns the number of bytes that a frame can carry
    #[verifier::when_used_as_spec(spec_bytes)]
    pub fn bytes(self) -> (r: usize)
        ensures
            r == self.spec_bytes(),
            8 <= r <= MAX_MTU,
    {
        match self {
            Mtu::Can8 => 8,
            Mtu::CanFd12 => 12,
            Mtu::CanFd16 => 16,
            Mtu::CanFd20 => 20,
            Mtu::CanFd24 => 24,
            Mtu::CanFd32 => 32,
            Mtu::CanFd48 => 48,
            Mtu::CanFd64 => 64,
        }
    }
}

/// What a frame holds, as values
pub struct FrameView<I> {
    pub timestamp: I,
    pub id: u32,
    pub data: Seq<u8>,
}

/// A CAN frame ready to be sent
#[derive(Debug, Clone)]
pub struct Frame<I> {
    timestamp: I,
    id: CanId,
    data: Vec<u8>,
}

impl<I> View for Frame<I> {
    type V = FrameView<I>;

    closed spec fn view(&self) -> FrameView<I> {
        FrameView { timestamp: self.timestamp, id: self.id@, data: self.data@ }
    }
}

impl<I> Frame<I> {
    /// Creates a frame
    pub fn new(timestamp: I, id: CanId, data: Vec<u8>) -> (r: Frame<I>)
        ensures
            r@ == (FrameView { timestamp, id: id@, data: data@ }),
    {
        Frame { timestamp, id, data }
    }

    /// Returns the timestamp of this frame
    pub fn timestamp(&self) -> (r: &I)
        ensures
            *r == self@.timestamp,
    {
        &self.timestamp
    }

    /// Returns the identifier of this frame
    pub fn id(&self) -> (r: CanId)
        ensures
            r@ == self@.id,
    {
        self.id
    }

    /// Returns the data of this frame, tail byte included
    pub fn data(&self) -> (r: &[u8])
        ensures
            r@ == self@.data,
    {
        self.data.as_slice()
    }
}

/// The error of a frame queue that has no room for more frames
#[derive(Debug, Clone, Copy, PartialEq, Eq)]
pub struct OutOfMemoryError;

} // verus!
