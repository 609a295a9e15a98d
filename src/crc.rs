//! The transfer CRC of multi-frame transfers (CRC-16/CCITT-FALSE).

use vstd::prelude::*;

verus! {

/// Polynomial of the transfer CRC, not reflected.
pub const CRC_POLY: u16 = 0x1021;

/// Value of the transfer CRC before any byte is added.
pub const CRC_INIT: u16 = 0xffff;

/// One shift of the CRC register: shifts left, and XORs the polynomial in
/// when the bit shifted out is set.
pub open spec fn crc_shift(c: u16) -> u16 {
    if c & 0x8000u16 != 0 {
        ((c << 1u16) ^ CRC_POLY) as u16
    } else {
        (c << 1u16) as u16
    }
}

/// `n` shifts of the CRC register.
pub open spec fn crc_shifts(c: u16, n: nat) -> u16
    decreases n,
{
    if n == 0 {
        c
    } else {
        crc_shifts(crc_shift(c), (n - 1) as nat)
    }
}

/// The register after one byte is added.
pub open spec fn crc_step(c: u16, byte: u8) -> u16 {
    crc_shifts(c ^ ((byte as u16) << 8u16), 8)
}

/// CRC-16/CCITT-FALSE of a byte sequence: initial value 0xFFFF,
/// polynomial 0x1021, no reflection, no final XOR.
pub open spec fn crc16(s: Seq<u8>) -> u16 {
    crc_extend(CRC_INIT, s)
}

/// A running transfer CRC
pub struct TransferCrc {
    value: u16,
}

impl View for TransferCrc {
    type V = u16;

    closed spec fn view(&self) -> u16 {
        self.value
    }
}

impl TransferCrc {
    /// Creates a CRC over no bytes
    pub fn new() -> (r: TransferCrc)
        ensures
            r@ == crc16(Seq::empty()),
    {
        TransferCrc { value: CRC_INIT }
    }

    /// Adds one byte to the CRC
    pub fn add(&mut self, byte: u8)
        ensures
            final(self)@ == crc_step(old(self)@, byte),
    {
        let ghost target = crc_step(self.value, byte);
        let mut v: u16 = self.value ^ ((byte as u16) << 8u16);
        let mut i: usize = 0;
        while i < 8
            invariant
                i <= 8,
                crc_shifts(v, (8 - i) as nat) == target,
            decreases 8 - i,
        {
            if v & 0x8000u16 != 0 {
                v = (v << 1u16) ^ CRC_POLY;
            } else {
                v = v << 1u16;
            }
            i = i + 1;
        }
        self.value = v;
    }

    /// Adds each byte of a sequence, in order
    pub fn add_bytes(&mut self, bytes: &[u8])
        ensures
            final(self)@ == crc_extend(old(self)@, bytes@),
    {
        let mut i: usize = 0;
        while i < bytes.len()
            invariant
                i <= bytes@.len(),
                self@ == crc_extend(old(self)@, bytes@.subrange(0, i as int)),
            decreases bytes@.len() - i,
        {
            proof {
                assert(bytes@.subrange(0, i + 1).drop_last() =~= bytes@.subrange(0, i as int));
            }
            self.add(bytes[i]);
            i = i + 1;
        }
        proof {
            assert(bytes@.subrange(0, i as int) =~= bytes@);
        }
    }

    /// Returns the CRC of the bytes added so far
    pub fn get(&self) -> (r: u16)
        ensures
            r == self@,
    {
        self.value
    }
}

/// The register after the bytes of `s` are added to `c`.
pub open spec fn crc_extend(c: u16, s: Seq<u8>) -> u16
    decreases s.len(),
{
    if s.len() == 0 {
        c
    } else {
        crc_step(crc_extend(c, s.drop_last()), s.last())
    }
}

} // verus!
