//! What holds of the frames of every transfer.

use vstd::prelude::*;

use crate::breakdown::{chunk, frame_data, frame_total, stream_frames, tail_byte};
use crate::crc::crc16;
use crate::frame::Mtu;
use crate::transfer::Header;
use crate::tx::{
    frame_count, lemma_frame_total, lemma_stream_len, padded_payload, padding_len,
    transfer_frame_data, transfer_frames, transfer_stream,
};

verus! {

/// The data bytes of each frame, tail bytes removed, one after another.
pub open spec fn concat_data(frames: Seq<Seq<u8>>) -> Seq<u8>
    decreases frames.len(),
{
    if frames.len() == 0 {
        Seq::empty()
    } else {
        concat_data(frames.drop_last()) + frames.last().drop_last()
    }
}

/// A payload that fits into one frame (`mtu - 1` bytes or fewer) is sent in one frame;
/// a longer one in `ceil((P + 2) / (mtu - 1))` frames.
pub proof fn lemma_frame_count(payload: Seq<u8>, mtu: Mtu, transfer_id: u8)
    ensures
        transfer_frame_data(payload, mtu.spec_bytes() as nat, transfer_id).len() == if payload.len()
            <= mtu.spec_bytes() - 1 {
            1
        } else {
            (payload.len() + 2 + mtu.spec_bytes() - 2) as nat / (mtu.spec_bytes() - 1) as nat
        },
{
    let u = (mtu.spec_bytes() - 1) as nat;
    lemma_frame_total(payload, u);
    if payload.len() > u {
        lemma_stream_len(payload.len(), u);
    }
}

/// The values of the tail byte's fields.
pub proof fn lemma_tail_byte_fields(start: bool, end: bool, toggle: bool, transfer_id: u8)
    ensures
        (tail_byte(start, end, toggle, transfer_id) & 0x80 != 0) == start,
        (tail_byte(start, end, toggle, transfer_id) & 0x40 != 0) == end,
        (tail_byte(start, end, toggle, transfer_id) & 0x20 != 0) == toggle,
        tail_byte(start, end, toggle, transfer_id) & 0x1f == transfer_id % 32,
{
    let a: u8 = if start {
        128
    } else {
        0
    };
    let b: u8 = if end {
        64
    } else {
        0
    };
    let c: u8 = if toggle {
        32
    } else {
        0
    };
    let t: u8 = transfer_id % 32;
    assert(tail_byte(start, end, toggle, transfer_id) == a + b + c + t);
    assert(((a + b + c + t) as u8 & 0x80 != 0) == (a == 128) && ((a + b + c + t) as u8 & 0x40
        != 0) == (b == 64) && ((a + b + c + t) as u8 & 0x20 != 0) == (c == 32) && (a + b + c
        + t) as u8 & 0x1f == t) by (bit_vector)
        requires
            a == 0 || a == 128,
            b == 0 || b == 64,
            c == 0 || c == 32,
            t < 32,
    ;
}

/// Frame `k` of `frames` ends with a tail byte whose start bit is set on the first frame
/// only, whose end bit is set on the last frame only, whose toggle bit is set on frames
/// 0, 2, 4, ..., and whose low five bits hold the transfer ID modulo 32.
pub open spec fn tail_fields_hold(frames: Seq<Seq<u8>>, k: int, transfer_id: u8) -> bool {
    let tail = frames[k].last();
    &&& frames[k].len() >= 1
    &&& (tail & 0x80 != 0) == (k == 0)
    &&& (tail & 0x40 != 0) == (k == frames.len() - 1)
    &&& (tail & 0x20 != 0) == (k % 2 == 0)
    &&& tail & 0x1f == transfer_id % 32
}

/// Every frame of a transfer ends with a tail byte that marks the first and the last
/// frame, toggles from frame to frame starting with 1, and holds the transfer ID.
pub proof fn lemma_tail_structure(payload: Seq<u8>, mtu: Mtu, transfer_id: u8)
    ensures
        forall|k: int|
            0 <= k < transfer_frame_data(payload, mtu.spec_bytes() as nat, transfer_id).len()
                ==> #[trigger] tail_fields_hold(
                transfer_frame_data(payload, mtu.spec_bytes() as nat, transfer_id),
                k,
                transfer_id,
            ),
{
    let frames = transfer_frame_data(payload, mtu.spec_bytes() as nat, transfer_id);
    assert forall|k: int| 0 <= k < frames.len() implies #[trigger] tail_fields_hold(
        frames,
        k,
        transfer_id,
    ) by {
        lemma_tail_byte_fields(k == 0, k == frames.len() - 1, k % 2 == 0, transfer_id);
    }
}

/// All frames of one transfer carry the same CAN identifier and the same timestamp.
pub proof fn lemma_identifier_identity<I>(header: Header<I>, payload: Seq<u8>, mtu: Mtu)
    ensures
        forall|j: int, k: int|
            0 <= j < transfer_frames(header, payload, mtu.spec_bytes() as nat).len() && 0 <= k
                < transfer_frames(header, payload, mtu.spec_bytes() as nat).len() ==> (#[trigger] transfer_frames(
                header,
                payload,
                mtu.spec_bytes() as nat,
            )[j]).id == (#[trigger] transfer_frames(header, payload, mtu.spec_bytes() as nat)[k]).id
                && transfer_frames(header, payload, mtu.spec_bytes() as nat)[j].timestamp
                == transfer_frames(header, payload, mtu.spec_bytes() as nat)[k].timestamp,
{
}

/// A payload that fits into one frame is sent as it is, followed by the tail byte alone:
/// no padding, no CRC.
pub proof fn lemma_single_frame(payload: Seq<u8>, mtu: Mtu, transfer_id: u8)
    requires
        payload.len() <= mtu.spec_bytes() - 1,
    ensures
        transfer_frame_data(payload, mtu.spec_bytes() as nat, transfer_id) == seq![
            payload.push(tail_byte(true, true, true, transfer_id)),
        ],
{
    let u = (mtu.spec_bytes() - 1) as nat;
    let frames = transfer_frame_data(payload, mtu.spec_bytes() as nat, transfer_id);
    lemma_frame_total(payload, u);
    assert(0 * u == 0 && (0 + 1) * u == u) by (nonlinear_arith);
    assert(chunk(payload, u, 0) =~= payload);
    assert(frames =~= seq![payload.push(tail_byte(true, true, true, transfer_id))]);
}

/// The first `j` frames of a stream hold its first `j * u` bytes, or all of them.
proof fn lemma_concat_prefix(s: Seq<u8>, u: nat, transfer_id: u8, j: nat)
    requires
        u > 0,
        j <= frame_total(s.len(), u),
    ensures
        concat_data(stream_frames(s, u, transfer_id).subrange(0, j as int)) == s.subrange(
            0,
            if j * u < s.len() {
                (j * u) as int
            } else {
                s.len() as int
            },
        ),
    decreases j,
{
    let frames = stream_frames(s, u, transfer_id);
    if j == 0 {
        assert(j * u == 0) by (nonlinear_arith)
            requires
                j == 0,
        ;
        assert(frames.subrange(0, 0) =~= Seq::<Seq<u8>>::empty());
        assert(s.subrange(0, 0) =~= Seq::<u8>::empty());
    } else {
        let k = (j - 1) as nat;
        lemma_concat_prefix(s, u, transfer_id, k);
        assert(frames.subrange(0, j as int).drop_last() =~= frames.subrange(0, k as int));
        assert(frames.subrange(0, j as int).last() == frames[k as int]);
        assert(frames[k as int] == frame_data(s, u, transfer_id, k));
        assert(frames[k as int].drop_last() =~= chunk(s, u, k));
        assert(j * u == k * u + u) by (nonlinear_arith)
            requires
                j == k + 1,
        ;
        // frame k starts within the stream
        if s.len() > 0 {
            let q = ((s.len() - 1) as nat / u) as nat;
            vstd::arithmetic::div_mod::lemma_fundamental_div_mod((s.len() - 1) as int, u as int);
            assert(k <= q);
            assert(k * u <= q * u) by (nonlinear_arith)
                requires
                    k <= q,
            ;
            assert(k * u < s.len());
        } else {
            assert(k == 0);
            assert(k * u == 0) by (nonlinear_arith)
                requires
                    k == 0,
            ;
        }
        assert(s.subrange(0, (k * u) as int) + chunk(s, u, k) =~= s.subrange(
            0,
            if j * u < s.len() {
                (j * u) as int
            } else {
                s.len() as int
            },
        ));
    }
}

/// The data bytes of the frames of a multi-frame transfer, tail bytes removed, are the
/// payload, then zero padding, then the CRC-16/CCITT-FALSE of payload and padding, most
/// significant byte first.
pub proof fn lemma_payload_recoverable(payload: Seq<u8>, mtu: Mtu, transfer_id: u8)
    requires
        payload.len() > mtu.spec_bytes() - 1,
    ensures
        ({
            let u = (mtu.spec_bytes() - 1) as nat;
            let data = concat_data(transfer_frame_data(payload, mtu.spec_bytes() as nat, transfer_id));
            let padded = padded_payload(payload, u);
            let p = payload.len() as int;
            let pad = padding_len(payload.len(), u) as int;
            &&& data.len() == p + pad + 2
            &&& data.subrange(0, p) == payload
            &&& forall|i: int| p <= i < p + pad ==> data[i] == 0
            &&& data[p + pad] == (crc16(padded) >> 8u16) as u8
            &&& data[p + pad + 1] == crc16(padded) as u8
        }),
{
    let u = (mtu.spec_bytes() - 1) as nat;
    let s = transfer_stream(payload, u);
    let frames = stream_frames(s, u, transfer_id);
    let n = frame_total(s.len(), u);
    lemma_frame_total(payload, u);
    lemma_stream_len(payload.len(), u);
    lemma_concat_prefix(s, u, transfer_id, n);
    assert(frames.subrange(0, n as int) =~= frames);
    assert(n == frame_count(payload.len(), u));
    assert(s.subrange(0, s.len() as int) =~= s);
    assert(s.subrange(0, payload.len() as int) =~= payload);
}

} // verus!
