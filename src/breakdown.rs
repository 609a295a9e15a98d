//! Splitting a byte stream into frame payloads, each closed by a tail byte.

use vstd::prelude::*;

use crate::frame::MAX_MTU;

verus! {

/// The tail byte: bit 7 start of transfer, bit 6 end of transfer, bit 5 toggle,
/// bits 4..0 the low five bits of the transfer ID.
pub open spec fn tail_byte(start: bool, end: bool, toggle: bool, transfer_id: u8) -> u8 {
    ((if start {
        128int
    } else {
        0
    }) + (if end {
        64int
    } else {
        0
    }) + (if toggle {
        32int
    } else {
        0
    }) + transfer_id % 32) as u8
}

/// The number of frames of a stream of `len` bytes with `u` data bytes per frame:
/// one for an empty stream, else as many as the bytes fill, the last one possibly
/// short.
pub open spec fn frame_total(len: nat, u: nat) -> nat {
    if len == 0 {
        1
    } else {
        ((len - 1) as nat / u) + 1
    }
}

/// The data bytes of frame `k`: bytes `k*u` up to `(k+1)*u` of the stream, or up to its end.
pub open spec fn chunk(s: Seq<u8>, u: nat, k: nat) -> Seq<u8> {
    let end: int = if (k + 1) * u < s.len() {
        ((k + 1) * u) as int
    } else {
        s.len() as int
    };
    s.subrange((k * u) as int, end)
}

/// Frame `k` of a stream: its data bytes and its tail byte. The toggle bit is set on
/// frames 0, 2, 4, ...
pub open spec fn frame_data(s: Seq<u8>, u: nat, transfer_id: u8, k: nat) -> Seq<u8> {
    chunk(s, u, k).push(
        tail_byte(k == 0, k + 1 == frame_total(s.len(), u), k % 2 == 0, transfer_id),
    )
}

/// The frames that a stream is split into, with `u` data bytes per frame.
pub open spec fn stream_frames(s: Seq<u8>, u: nat, transfer_id: u8) -> Seq<Seq<u8>> {
    Seq::new(frame_total(s.len(), u), |k: int| frame_data(s, u, transfer_id, k as nat))
}

/// Returns the tail byte with the given flags and transfer ID
pub fn make_tail_byte(start: bool, end: bool, toggle: bool, transfer_id: u8) -> (r: u8)
    ensures
        r == tail_byte(start, end, toggle, transfer_id),
{
    let mut tail: u8 = transfer_id % 32;
    if toggle {
        tail = tail + 32;
    }
    if end {
        tail = tail + 64;
    }
    if start {
        tail = tail + 128;
    }
    tail
}

/// Collects the bytes of one transfer and hands out a frame's data each time a frame
/// is full and another byte comes.
///
/// A full frame is only closed once the next byte arrives, so a stream that exactly
/// fills its frames ends with a full final frame rather than with a frame that holds
/// nothing but a tail byte.
pub(crate) struct Breakdown {
    /// Bytes of a frame, tail byte included
    pub(crate) mtu: usize,
    pub(crate) transfer_id: u8,
    /// Data bytes of the frame being filled
    pub(crate) current: Vec<u8>,
    /// Toggle bit of the frame being filled
    pub(crate) toggle: bool,
    /// True until the first frame has been handed out
    pub(crate) first_frame: bool,
    /// Every byte added so far
    pub(crate) fed: Ghost<Seq<u8>>,
    /// Number of frames handed out
    pub(crate) sealed: Ghost<nat>,
}

impl Breakdown {
    /// Data bytes per frame
    pub(crate) open spec fn capacity(&self) -> nat {
        (self.mtu - 1) as nat
    }

    pub(crate) open spec fn wf(&self) -> bool {
        &&& 2 <= self.mtu <= MAX_MTU
        &&& self.fed@.len() == self.sealed@ * self.capacity() + self.current@.len()
        &&& self.fed@.len() == 0 ==> self.sealed@ == 0
        &&& self.fed@.len() > 0 ==> 1 <= self.current@.len() <= self.capacity()
        &&& self.current@ == self.fed@.subrange(
            (self.sealed@ * self.capacity()) as int,
            self.fed@.len() as int,
        )
        &&& self.toggle == (self.sealed@ % 2 == 0)
        &&& self.first_frame == (self.sealed@ == 0)
    }

    /// Creates a breakdown for frames of `mtu` bytes
    pub(crate) fn new(mtu: usize, transfer_id: u8) -> (r: Breakdown)
        requires
            2 <= mtu <= MAX_MTU,
        ensures
            r.wf(),
            r.mtu == mtu,
            r.transfer_id == transfer_id,
            r.fed@ == Seq::<u8>::empty(),
    {
        let r = Breakdown {
            mtu,
            transfer_id,
            current: Vec::new(),
            toggle: true,
            first_frame: true,
            fed: Ghost(Seq::empty()),
            sealed: Ghost(0),
        };
        proof {
            assert(r.sealed@ * r.capacity() == 0);
            assert(r.current@ =~= r.fed@.subrange(0, 0));
        }
        r
    }

    /// Adds a byte. If the frame being filled was full, returns its data with a
    /// non-final tail byte, and the byte starts the next frame.
    pub(crate) fn add(&mut self, byte: u8) -> (r: Option<Vec<u8>>)
        requires
            old(self).wf(),
        ensures
            final(self).wf(),
            final(self).mtu == old(self).mtu,
            final(self).transfer_id == old(self).transfer_id,
            final(self).fed@ == old(self).fed@.push(byte),
            r is Some <==> old(self).fed@.len() > 0 && old(self).current@.len()
                == old(self).capacity(),
            r is Some ==> final(self).sealed@ == old(self).sealed@ + 1,
            r is None ==> final(self).sealed@ == old(self).sealed@,
            r matches Some(d) ==> d@ == old(self).current@.push(
                tail_byte(
                    old(self).sealed@ == 0,
                    false,
                    old(self).sealed@ % 2 == 0,
                    old(self).transfer_id,
                ),
            ),
    {
        let ghost u = self.capacity();
        let ghost k = self.sealed@;
        let ghost fed0 = self.fed@;
        let ghost fed1 = fed0.push(byte);
        let r = if self.current.len() == self.mtu - 1 {
            let tail = make_tail_byte(self.first_frame, false, self.toggle, self.transfer_id);
            let mut frame: Vec<u8> = Vec::new();
            std::mem::swap(&mut frame, &mut self.current);
            frame.push(tail);
            self.toggle = !self.toggle;
            self.first_frame = false;
            self.sealed = Ghost(k + 1);
            proof {
                assert((k + 1) * u == k * u + u) by (nonlinear_arith);
                assert(fed0.len() > 0);
            }
            Some(frame)
        } else {
            None
        };
        self.current.push(byte);
        self.fed = Ghost(fed1);
        proof {
            assert(self.current@ =~= fed1.subrange((self.sealed@ * u) as int, fed1.len() as int));
        }
        r
    }

    /// Closes the transfer: returns the data of the frame being filled with a final
    /// tail byte.
    pub(crate) fn finish(self) -> (r: Vec<u8>)
        requires
            self.wf(),
        ensures
            r@ == self.current@.push(
                tail_byte(self.sealed@ == 0, true, self.sealed@ % 2 == 0, self.transfer_id),
            ),
    {
        let tail = make_tail_byte(self.first_frame, true, self.toggle, self.transfer_id);
        let mut frame = self.current;
        frame.push(tail);
        frame
    }
}

pub(crate) proof fn lemma_quotient(a: nat, u: nat, k: nat, c: nat)
    requires
        u > 0,
        c < u,
        a == k * u + c,
    ensures
        a / u == k,
        a % u == c,
{
    vstd::arithmetic::div_mod::lemma_fundamental_div_mod_converse(a as int, u as int, k as int, c as int);
}

proof fn lemma_quotient_at_least(a: nat, u: nat, m: nat)
    requires
        u > 0,
        a >= m * u,
    ensures
        a / u >= m,
{
    vstd::arithmetic::div_mod::lemma_div_is_ordered((m * u) as int, a as int, u as int);
    vstd::arithmetic::div_mod::lemma_div_multiples_vanish(m as int, u as int);
    assert(m * u == u * m) by (nonlinear_arith);
}

/// Splits a byte stream into frames of `mtu` bytes each, tail bytes included
pub fn segment(stream: &[u8], mtu: usize, transfer_id: u8) -> (r: Vec<Vec<u8>>)
    requires
        2 <= mtu <= MAX_MTU,
    ensures
        r@.len() == stream_frames(stream@, (mtu - 1) as nat, transfer_id).len(),
        forall|k: int|
            0 <= k < r@.len() ==> #[trigger] r@[k]@ == stream_frames(
                stream@,
                (mtu - 1) as nat,
                transfer_id,
            )[k],
{
    let ghost s = stream@;
    let ghost u = (mtu - 1) as nat;
    let ghost total = frame_total(s.len(), u);
    let mut breakdown = Breakdown::new(mtu, transfer_id);
    let mut frames: Vec<Vec<u8>> = Vec::new();
    let mut i: usize = 0;
    proof {
        assert(s.subrange(0, 0) =~= Seq::<u8>::empty());
    }
    while i < stream.len()
        invariant
            i <= s.len(),
            s == stream@,
            u == mtu - 1,
            breakdown.wf(),
            breakdown.mtu == mtu,
            breakdown.transfer_id == transfer_id,
            breakdown.fed@ == s.subrange(0, i as int),
            frames@.len() == breakdown.sealed@,
            forall|j: int|
                0 <= j < frames@.len() ==> #[trigger] frames@[j]@ == frame_data(
                    s,
                    u,
                    transfer_id,
                    j as nat,
                ),
        decreases s.len() - i,
    {
        let ghost k = breakdown.sealed@;
        if let Some(data) = breakdown.add(stream[i]) {
            proof {
                assert((k + 1) * u == k * u + u) by (nonlinear_arith);
                lemma_quotient_at_least((s.len() - 1) as nat, u, k + 1);
                assert(breakdown.fed@ =~= s.subrange(0, i + 1));
                assert(data@ =~= frame_data(s, u, transfer_id, k));
            }
            frames.push(data);
        }
        proof {
            assert(breakdown.fed@ =~= s.subrange(0, i + 1));
        }
        i = i + 1;
    }
    let ghost k = breakdown.sealed@;
    proof {
        assert(s.subrange(0, i as int) =~= s);
        if s.len() > 0 {
            lemma_quotient((s.len() - 1) as nat, u, k, (breakdown.current@.len() - 1) as nat);
        }
        assert((k + 1) * u == k * u + u) by (nonlinear_arith);
        assert(breakdown.current@ =~= chunk(s, u, k));
    }
    let last = breakdown.finish();
    frames.push(last);
    proof {
        assert(frames@.len() == total);
        assert forall|j: int| 0 <= j < frames@.len() implies #[trigger] frames@[j]@ == stream_frames(
            s,
            u,
            transfer_id,
        )[j] by {}
    }
    frames
}

} // verus!
