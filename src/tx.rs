//! The transmitter: turns transfers into frames and puts them into a frame queue.

use vstd::prelude::*;

use crate::breakdown::{frame_total, lemma_quotient, segment, stream_frames};
use crate::can_id::{can_id_of, make_can_id};
use crate::crc::{crc16, TransferCrc};
use crate::frame::{Frame, FrameView, Mtu, OutOfMemoryError, MAX_MTU};
use crate::queue::FrameSink;
use crate::transfer::{Header, Transfer};

verus! {

/// Longest payload that a transfer can have, so that lengths with padding and CRC fit
/// into `usize`
pub const PAYLOAD_MAX: usize = usize::MAX - 2 * MAX_MTU;

/// The number of zero bytes added after a payload of `p` bytes, with `u` data bytes
/// per frame: none for a single frame, else enough that payload, padding and the two
/// CRC bytes fill whole frames.
pub open spec fn padding_len(p: nat, u: nat) -> nat {
    if p <= u {
        0
    } else {
        ((u - (p + 2) % u) % (u as int)) as nat
    }
}

/// The number of frames of a payload of `p` bytes, with `u` data bytes per frame.
pub open spec fn frame_count(p: nat, u: nat) -> nat {
    if p <= u {
        1
    } else {
        (p + padding_len(p, u) + 2) / u
    }
}

/// The payload followed by its zero padding.
pub open spec fn padded_payload(payload: Seq<u8>, u: nat) -> Seq<u8> {
    payload + Seq::new(padding_len(payload.len(), u), |i: int| 0u8)
}

/// The bytes that are split into frames: the payload alone if it fits into one frame,
/// else the padded payload and its CRC, most significant byte first.
pub open spec fn transfer_stream(payload: Seq<u8>, u: nat) -> Seq<u8> {
    if payload.len() <= u {
        payload
    } else {
        let padded = padded_payload(payload, u);
        padded + seq![(crc16(padded) >> 8u16) as u8, crc16(padded) as u8]
    }
}

/// The data of each frame of a transfer, tail bytes included, for frames of `mtu` bytes.
pub open spec fn transfer_frame_data(payload: Seq<u8>, mtu: nat, transfer_id: u8) -> Seq<
    Seq<u8>,
> {
    stream_frames(transfer_stream(payload, (mtu - 1) as nat), (mtu - 1) as nat, transfer_id)
}

/// The frames of a transfer, in the order in which they are sent.
pub open spec fn transfer_frames<I>(header: Header<I>, payload: Seq<u8>, mtu: nat) -> Seq<
    FrameView<I>,
> {
    let data = transfer_frame_data(payload, mtu, header.spec_transfer_id());
    Seq::new(
        data.len(),
        |k: int|
            FrameView {
                timestamp: header.spec_timestamp(),
                id: can_id_of(header, payload),
                data: data[k],
            },
    )
}

/// A counter after one more event; it wraps around to zero.
pub open spec fn counter_next(c: u64) -> u64 {
    if c == u64::MAX {
        0
    } else {
        (c + 1) as u64
    }
}

/// The frame count and padding of a transfer
#[derive(Debug, Clone, Copy, PartialEq, Eq)]
pub struct FrameStats {
    /// Number of frames
    pub frames: usize,
    /// Number of zero bytes after the payload
    pub last_frame_padding: usize,
}

/// Calculates the number of frames and the padding of a payload of `payload_length`
/// bytes sent in frames of `mtu` bytes
pub fn calculate_frame_stats(payload_length: usize, mtu: usize) -> (r: FrameStats)
    requires
        2 <= mtu <= MAX_MTU,
        payload_length <= PAYLOAD_MAX,
    ensures
        r.frames == frame_count(payload_length as nat, (mtu - 1) as nat),
        r.last_frame_padding == padding_len(payload_length as nat, (mtu - 1) as nat),
{
    let capacity = mtu - 1;
    if payload_length <= capacity {
        FrameStats { frames: 1, last_frame_padding: 0 }
    } else {
        let with_crc = payload_length + 2;
        let padding = (capacity - with_crc % capacity) % capacity;
        FrameStats { frames: (with_crc + padding) / capacity, last_frame_padding: padding }
    }
}

/// Payload, padding and CRC fill whole frames: the stream of a multi-frame payload
/// is `frame_count` frames long.
pub(crate) proof fn lemma_stream_len(p: nat, u: nat)
    requires
        u > 0,
        p > u,
    ensures
        p + padding_len(p, u) + 2 == frame_count(p, u) * u,
        frame_count(p, u) == (p + 2 + u - 1) as nat / u,
{
    let q = (p + 2) / u;
    let r = (p + 2) % u;
    vstd::arithmetic::div_mod::lemma_fundamental_div_mod((p + 2) as int, u as int);
    assert(p + 2 == q * u + r);
    if r == 0 {
        lemma_quotient(u, u, 1, 0);
        assert(padding_len(p, u) == 0);
        lemma_quotient(p + 2, u, q, 0);
        lemma_quotient((p + 2 + u - 1) as nat, u, q, (u - 1) as nat);
    } else {
        lemma_quotient((u - r) as nat, u, 0, (u - r) as nat);
        assert(padding_len(p, u) == u - r);
        assert((q + 1) * u == q * u + u) by (nonlinear_arith);
        lemma_quotient((p + 2 + (u - r)) as nat, u, q + 1, 0);
        lemma_quotient((p + 2 + u - 1) as nat, u, q + 1, (r - 1) as nat);
    }
}

/// The stream of a transfer is split into `frame_count` frames.
pub proof fn lemma_frame_total(payload: Seq<u8>, u: nat)
    requires
        u > 0,
    ensures
        frame_total(transfer_stream(payload, u).len(), u) == frame_count(payload.len(), u),
{
    let p = payload.len();
    if p <= u {
        if p > 0 {
            lemma_quotient((p - 1) as nat, u, 0, (p - 1) as nat);
        }
    } else {
        lemma_stream_len(p, u);
        let m = frame_count(p, u);
        assert(transfer_stream(payload, u).len() == m * u);
        if m == 0 {
            assert(m * u == 0) by (nonlinear_arith)
                requires
                    m == 0,
            ;
        }
        assert(m * u == (m - 1) * u + u) by (nonlinear_arith)
            requires
                m >= 1,
        ;
        lemma_quotient((m * u - 1) as nat, u, (m - 1) as nat, (u - 1) as nat);
    }
}

/// Builds the stream of a transfer: the payload, and for more than one frame the
/// zero padding and the CRC over payload and padding
pub fn make_transfer_stream(payload: &[u8], mtu: usize) -> (r: Vec<u8>)
    requires
        2 <= mtu <= MAX_MTU,
        payload.len() <= PAYLOAD_MAX,
    ensures
        r@ == transfer_stream(payload@, (mtu - 1) as nat),
{
    let ghost u = (mtu - 1) as nat;
    let stats = calculate_frame_stats(payload.len(), mtu);
    let mut bytes: Vec<u8> = Vec::new();
    let mut crc = TransferCrc::new();
    let mut i: usize = 0;
    while i < payload.len()
        invariant
            i <= payload@.len(),
            bytes@ == payload@.subrange(0, i as int),
            crc@ == crc16(bytes@),
        decreases payload@.len() - i,
    {
        let ghost before = bytes@;
        crc.add(payload[i]);
        bytes.push(payload[i]);
        proof {
            assert(bytes@.drop_last() =~= before);
            assert(bytes@ =~= payload@.subrange(0, i + 1));
        }
        i = i + 1;
    }
    let ghost padding = Seq::new(padding_len(payload@.len(), u), |j: int| 0u8);
    let mut j: usize = 0;
    while j < stats.last_frame_padding
        invariant
            j <= stats.last_frame_padding,
            stats.last_frame_padding == padding.len(),
            padding == Seq::new(padding_len(payload@.len(), u), |j: int| 0u8),
            bytes@ == payload@ + padding.subrange(0, j as int),
            crc@ == crc16(bytes@),
        decreases stats.last_frame_padding - j,
    {
        let ghost before = bytes@;
        crc.add(0u8);
        bytes.push(0u8);
        proof {
            assert(bytes@.drop_last() =~= before);
            assert(bytes@ =~= payload@ + padding.subrange(0, j + 1));
        }
        j = j + 1;
    }
    proof {
        assert(padding.subrange(0, j as int) =~= padding);
        assert(bytes@ =~= padded_payload(payload@, u));
    }
    if payload.len() > mtu - 1 {
        let value = crc.get();
        bytes.push((value >> 8u16) as u8);
        bytes.push(value as u8);
        proof {
            assert(bytes@ =~= transfer_stream(payload@, u));
        }
    } else {
        proof {
            assert(padding =~= Seq::<u8>::empty());
            assert(bytes@ =~= payload@);
        }
    }
    bytes
}

/// Splits outgoing transfers into frames
pub struct Transmitter<Q> {
    /// Queue of frames waiting to be sent
    frame_queue: Q,
    /// Transport MTU
    mtu: Mtu,
    /// Number of transfers whose frames were all placed into the frame queue
    transfer_count: u64,
    /// Number of transfers that could not be placed into the frame queue
    error_count: u64,
}

impl<Q> Transmitter<Q> {
    /// The frame queue
    pub closed spec fn queue(&self) -> Q {
        self.frame_queue
    }

    /// The MTU used by the next push
    pub closed spec fn spec_mtu(&self) -> Mtu {
        self.mtu
    }

    pub closed spec fn spec_transfer_count(&self) -> u64 {
        self.transfer_count
    }

    pub closed spec fn spec_error_count(&self) -> u64 {
        self.error_count
    }

    /// Creates a transmitter that puts frames of `mtu` bytes into `frame_queue`
    pub fn new(mtu: Mtu, frame_queue: Q) -> (r: Self)
        ensures
            r.queue() == frame_queue,
            r.spec_mtu() == mtu,
            r.spec_transfer_count() == 0,
            r.spec_error_count() == 0,
    {
        Transmitter { frame_queue, mtu, transfer_count: 0, error_count: 0 }
    }

    /// Sets the MTU, which takes effect on the next call to push()
    pub fn set_mtu(&mut self, mtu: Mtu)
        ensures
            final(self).spec_mtu() == mtu,
            final(self).queue() == old(self).queue(),
            final(self).spec_transfer_count() == old(self).spec_transfer_count(),
            final(self).spec_error_count() == old(self).spec_error_count(),
    {
        self.mtu = mtu;
    }

    /// Breaks a transfer into frames and adds them to the frame queue
    ///
    /// Returns an error, and adds no frame, if the queue does not have room for all the
    /// frames of the transfer.
    pub fn push<I: Copy>(&mut self, transfer: Transfer<I>) -> (r: Result<(), OutOfMemoryError>)
        where
            Q: FrameSink<I>,
        requires
            transfer.header.wf(),
            transfer.payload@.len() <= PAYLOAD_MAX,
        ensures
            r is Ok <==> old(self).queue().admits(
                frame_count(transfer.payload@.len(), (old(self).spec_mtu().spec_bytes() - 1) as nat),
            ),
            r is Ok ==> final(self).queue().queued() == old(self).queue().queued() + transfer_frames(
                transfer.header,
                transfer.payload@,
                old(self).spec_mtu().spec_bytes() as nat,
            ),
            r is Err ==> final(self).queue().queued() == old(self).queue().queued(),
            r is Ok ==> final(self).spec_transfer_count() == counter_next(
                old(self).spec_transfer_count(),
            ) && final(self).spec_error_count() == old(self).spec_error_count(),
            r is Err ==> final(self).spec_error_count() == counter_next(old(self).spec_error_count())
                && final(self).spec_transfer_count() == old(self).spec_transfer_count(),
            final(self).spec_mtu() == old(self).spec_mtu(),
    {
        match self.push_inner(&transfer) {
            Ok(()) => {
                self.transfer_count = self.transfer_count.wrapping_add(1);
                Ok(())
            },
            Err(e) => {
                self.error_count = self.error_count.wrapping_add(1);
                Err(e)
            },
        }
    }

    fn push_inner<I: Copy>(&mut self, transfer: &Transfer<I>) -> (r: Result<(), OutOfMemoryError>)
        where
            Q: FrameSink<I>,
        requires
            transfer.header.wf(),
            transfer.payload@.len() <= PAYLOAD_MAX,
        ensures
            r is Ok <==> old(self).queue().admits(
                frame_count(transfer.payload@.len(), (old(self).spec_mtu().spec_bytes() - 1) as nat),
            ),
            r is Ok ==> final(self).queue().queued() == old(self).queue().queued() + transfer_frames(
                transfer.header,
                transfer.payload@,
                old(self).spec_mtu().spec_bytes() as nat,
            ),
            r is Err ==> final(self).queue().queued() == old(self).queue().queued(),
            final(self).spec_transfer_count() == old(self).spec_transfer_count(),
            final(self).spec_error_count() == old(self).spec_error_count(),
            final(self).spec_mtu() == old(self).spec_mtu(),
    {
        let mtu = self.mtu.bytes();
        let ghost u = (mtu - 1) as nat;
        let payload = transfer.payload.as_slice();
        let stats = calculate_frame_stats(payload.len(), mtu);
        // Check that the queue has room for all the frames
        match self.frame_queue.try_reserve(stats.frames) {
            Ok(()) => {},
            Err(e) => {
                return Err(e);
            },
        }
        let can_id = make_can_id(&transfer.header, payload);
        let stream = make_transfer_stream(payload, mtu);
        let mut frames = segment(stream.as_slice(), mtu, transfer.header.transfer_id());
        let ghost all = transfer_frames(transfer.header, transfer.payload@, mtu as nat);
        let ghost data = frames@;
        let ghost q0 = self.frame_queue.queued();
        proof {
            lemma_frame_total(transfer.payload@, u);
        }
        let timestamp = transfer.header.timestamp();
        let n = frames.len();
        let mut i: usize = 0;
        while i < n
            invariant
                n == data.len(),
                n == stats.frames,
                n == all.len(),
                i <= n,
                frames@ == data.subrange(i as int, n as int),
                forall|k: int| 0 <= k < n ==> #[trigger] data[k]@ == all[k].data,
                forall|k: int|
                    0 <= k < n ==> (#[trigger] all[k]).id == can_id@ && all[k].timestamp
                        == timestamp,
                self.frame_queue.queued() == q0 + all.subrange(0, i as int),
                self.frame_queue.room() >= n - i,
                self.mtu == old(self).mtu,
                self.transfer_count == old(self).transfer_count,
                self.error_count == old(self).error_count,
            decreases n - i,
        {
            let frame_data = frames.remove(0);
            proof {
                assert(frame_data == data[i as int]);
                assert(frame_data@ == all[i as int].data);
                assert(all[i as int].id == can_id@ && all[i as int].timestamp == timestamp);
            }
            let frame = Frame::new(timestamp, can_id, frame_data);
            assert(frame@ == all[i as int]);
            match self.frame_queue.push_frame(frame) {
                Ok(()) => {},
                Err(e) => {
                    return Err(e);
                },
            }
            proof {
                assert(frames@ =~= data.subrange(i + 1, n as int));
                assert(all.subrange(0, i + 1) =~= all.subrange(0, i as int).push(all[i as int]));
            }
            i = i + 1;
        }
        proof {
            assert(all.subrange(0, n as int) =~= all);
        }
        Ok(())
    }

    /// Returns a reference to the frame queue, where outgoing frames are stored
    pub fn frame_queue(&self) -> (r: &Q)
        ensures
            *r == self.queue(),
    {
        &self.frame_queue
    }

    /// Returns a mutable reference to the frame queue, where outgoing frames are stored
    pub fn frame_queue_mut(&mut self) -> (r: &mut Q)
        ensures
            *r == old(self).queue(),
            final(self).queue() == *final(r),
            final(self).spec_mtu() == old(self).spec_mtu(),
            final(self).spec_transfer_count() == old(self).spec_transfer_count(),
            final(self).spec_error_count() == old(self).spec_error_count(),
    {
        &mut self.frame_queue
    }

    /// Returns the number of transfers whose frames were all placed into the frame queue
    ///
    /// CAN bus errors are not counted.
    #[verifier::when_used_as_spec(spec_transfer_count)]
    pub fn transfer_count(&self) -> (r: u64)
        ensures
            r == self.spec_transfer_count(),
    {
        self.transfer_count
    }

    /// Returns the number of transfers that could not be placed into the frame queue
    #[verifier::when_used_as_spec(spec_error_count)]
    pub fn error_count(&self) -> (r: u64)
        ensures
            r == self.spec_error_count(),
    {
        self.error_count
    }

    /// Returns the MTU used by the next push
    pub fn mtu(&self) -> (r: Mtu)
        ensures
            r == self.spec_mtu(),
    {
        self.mtu
    }
}

} // verus!
