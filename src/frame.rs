//! Frames as they travel on the bus, and the checksum that closes each of them.

use vstd::prelude::*;

verus! {

/// The addressing field of a frame: an 11-bit standard or a 29-bit extended identifier.
#[derive(Copy, Clone, Debug, PartialEq, Eq, Structural, PartialOrd, Ord)]
pub enum FrameId {
    Standard(u16),
    Extended(u32),
}

/// A frame: an identifier and at most eight bytes of data.
#[derive(Clone, Debug, PartialEq, Eq)]
pub struct Frame {
    pub id: FrameId,
    pub data: Vec<u8>,
}

/// The largest number of data bytes that a frame carries.
pub const MAX_FRAME_LEN: usize = 8;

/// Big-endian bytes of a 16-bit value.
pub open spec fn be_bytes_u16(v: u16) -> Seq<u8> {
    seq![(v / 0x100) as u8, (v % 0x100) as u8]
}

/// Big-endian bytes of a 32-bit value.
pub open spec fn be_bytes_u32(v: u32) -> Seq<u8> {
    seq![
        (v / 0x100_0000) as u8,
        ((v / 0x1_0000) % 0x100) as u8,
        ((v / 0x100) % 0x100) as u8,
        (v % 0x100) as u8,
    ]
}

impl FrameId {
    /// The identifier's raw value in big-endian bytes: two for a standard
    /// identifier, four for an extended one.
    pub open spec fn spec_bytes(self) -> Seq<u8> {
        match self {
            FrameId::Standard(v) => be_bytes_u16(v),
            FrameId::Extended(v) => be_bytes_u32(v),
        }
    }

    /// Whether the raw value fits the identifier's width.
    pub open spec fn is_valid(self) -> bool {
        match self {
            FrameId::Standard(v) => v <= 0x7ff,
            FrameId::Extended(v) => v <= 0x1fff_ffff,
        }
    }

    pub fn to_be_bytes(&self) -> (r: Vec<u8>)
        ensures
            r@ == self.spec_bytes(),
    {
        match *self {
            FrameId::Standard(v) => {
                let r = vec![(v / 0x100) as u8, (v % 0x100) as u8];
                assert(r@ =~= self.spec_bytes());
                r
            },
            FrameId::Extended(v) => {
                let r = vec![
                    (v / 0x100_0000) as u8,
                    ((v / 0x1_0000) % 0x100) as u8,
                    ((v / 0x100) % 0x100) as u8,
                    (v % 0x100) as u8,
                ];
                assert(r@ =~= self.spec_bytes());
                r
            },
        }
    }
}

/// The sum of a sequence of bytes, as an unbounded number.
pub open spec fn byte_sum(s: Seq<u8>) -> nat
    decreases s.len(),
{
    if s.len() == 0 {
        0
    } else {
        byte_sum(s.drop_last()) + s.last() as nat
    }
}

/// The check byte: the sum, modulo 256, of the identifier's bytes followed by the data.
pub open spec fn checksum(id_bytes: Seq<u8>, data: Seq<u8>) -> u8 {
    ((byte_sum(id_bytes) + byte_sum(data)) % 0x100) as u8
}

/// The check byte of a frame with this identifier over these data bytes.
pub open spec fn frame_checksum(id: FrameId, data: Seq<u8>) -> u8 {
    checksum(id.spec_bytes(), data)
}

/// Replacing one byte changes the sum by the difference of the two bytes.
pub proof fn lemma_byte_sum_update(s: Seq<u8>, i: int, x: u8)
    requires
        0 <= i < s.len(),
    ensures
        byte_sum(s.update(i, x)) == byte_sum(s) - s[i] + x,
    decreases s.len(),
{
    let t = s.update(i, x);
    if i == s.len() - 1 {
        assert(t.drop_last() =~= s.drop_last());
    } else {
        assert(t.drop_last() =~= s.drop_last().update(i, x));
        lemma_byte_sum_update(s.drop_last(), i, x);
    }
}

/// Changing one data byte changes the check byte.
pub proof fn lemma_checksum_detects_byte_change(id_bytes: Seq<u8>, data: Seq<u8>, i: int, x: u8)
    requires
        0 <= i < data.len(),
        x != data[i],
    ensures
        checksum(id_bytes, data.update(i, x)) != checksum(id_bytes, data),
{
    lemma_byte_sum_update(data, i, x);
    let before = byte_sum(id_bytes) + byte_sum(data);
    let after = before - data[i] + x;
    assert(after % 0x100 != before % 0x100) by (nonlinear_arith)
        requires
            after == before - data[i] + x,
            x != data[i],
            0 <= x < 0x100,
            0 <= data[i] < 0x100,
            before >= 0,
            after >= 0,
    ;
}

/// The sum of `s` modulo 256.
fn sum_mod_256(s: &[u8]) -> (r: u8)
    ensures
        r == byte_sum(s@) % 0x100,
{
    let mut acc: u8 = 0;
    let mut i: usize = 0;
    while i < s.len()
        invariant
            i <= s@.len(),
            acc == byte_sum(s@.take(i as int)) % 0x100,
        decreases s@.len() - i,
    {
        assert(s@.take(i as int + 1).drop_last() =~= s@.take(i as int));
        acc = ((acc as u16 + s[i] as u16) % 0x100) as u8;
        i += 1;
    }
    assert(s@.take(i as int) =~= s@);
    acc
}

/// Computes the check byte from the identifier's bytes and the data bytes.
pub fn compute_crc_id_bytes(id_bytes: &[u8], data: &[u8]) -> (r: u8)
    ensures
        r == checksum(id_bytes@, data@),
{
    let a = sum_mod_256(id_bytes);
    let b = sum_mod_256(data);
    ((a as u16 + b as u16) % 0x100) as u8
}

/// Computes the check byte of a frame with identifier `id` over `data`.
pub fn compute_crc(id: FrameId, data: &[u8]) -> (r: u8)
    ensures
        r == frame_checksum(id, data@),
{
    let id_bytes = id.to_be_bytes();
    compute_crc_id_bytes(id_bytes.as_slice(), data)
}

} // verus!
