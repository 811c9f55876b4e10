//! Machine words stored in a byte buffer, least significant byte first.
use vstd::prelude::*;

verus! {

/// The size of a machine word in bytes.
pub const WORD_BYTES: usize = 8;

/// Byte `i` of `w`, counting from the least significant one.
pub open spec fn le_byte(w: u64, i: int) -> u8 {
    ((w >> ((8 * i) as u64)) & 0xffu64) as u8
}

/// The machine word held by the eight bytes of `s` that start at `off`.
pub open spec fn word_at(s: Seq<u8>, off: int) -> u64 {
    (s[off] as u64) | ((s[off + 1] as u64) << 8u64) | ((s[off + 2] as u64) << 16u64) | ((s[off
        + 3] as u64) << 24u64) | ((s[off + 4] as u64) << 32u64) | ((s[off + 5] as u64) << 40u64)
        | ((s[off + 6] as u64) << 48u64) | ((s[off + 7] as u64) << 56u64)
}

/// `s` with the eight bytes starting at `off` replaced by those of `w`.
pub open spec fn with_word(s: Seq<u8>, off: int, w: u64) -> Seq<u8> {
    Seq::new(s.len(), |j: int| if off <= j < off + 8 { le_byte(w, j - off) } else { s[j] })
}

/// Stores `word` in the eight bytes of `buf` that start at `offset`; every
/// other byte keeps its value.
pub fn write_word(buf: &mut Vec<u8>, offset: usize, word: u64)
    requires
        offset + 8 <= old(buf).len(),
    ensures
        final(buf)@ == with_word(old(buf)@, offset as int, word),
{
    let ghost before = buf@;
    let len: usize = buf.len();
    let mut i: usize = 0;
    while i < WORD_BYTES
        invariant
            i <= 8,
            offset + 8 <= len,
            len == before.len(),
            buf@ == Seq::new(
                before.len(),
                |j: int| if offset <= j < offset + i { le_byte(word, j - offset) } else { before[j] },
            ),
        decreases 8 - i,
    {
        let shift: u64 = 8 * i as u64;
        let low: u64 = (word >> shift) & 0xffu64;
        assert((word >> shift) & 0xffu64 <= 0xffu64) by (bit_vector);
        let byte: u8 = low as u8;
        buf.set(offset + i, byte);
        i = i + 1;
        assert(buf@ =~= Seq::new(
            before.len(),
            |j: int| if offset <= j < offset + i { le_byte(word, j - offset) } else { before[j] },
        ));
    }
    assert(buf@ =~= with_word(before, offset as int, word));
}

/// Reads the machine word held by the eight bytes of `buf` that start at
/// `offset`.
pub fn read_word(buf: &Vec<u8>, offset: usize) -> (r: u64)
    requires
        offset + 8 <= buf.len(),
    ensures
        r == word_at(buf@, offset as int),
{
    (buf[offset] as u64) | ((buf[offset + 1] as u64) << 8u64) | ((buf[offset + 2] as u64) << 16u64)
        | ((buf[offset + 3] as u64) << 24u64) | ((buf[offset + 4] as u64) << 32u64) | ((buf[offset
        + 5] as u64) << 40u64) | ((buf[offset + 6] as u64) << 48u64) | ((buf[offset + 7] as u64)
        << 56u64)
}

/// Reading back a word just written at an offset yields that word.
pub proof fn lemma_read_after_write(s: Seq<u8>, off: int, w: u64)
    requires
        0 <= off,
        off + 8 <= s.len(),
    ensures
        word_at(with_word(s, off, w), off) == w,
{
    let t = with_word(s, off, w);
    let b0 = t[off];
    let b1 = t[off + 1];
    let b2 = t[off + 2];
    let b3 = t[off + 3];
    let b4 = t[off + 4];
    let b5 = t[off + 5];
    let b6 = t[off + 6];
    let b7 = t[off + 7];
    assert(b0 == ((w >> 0u64) & 0xffu64) as u8);
    assert(b1 == ((w >> 8u64) & 0xffu64) as u8);
    assert(b2 == ((w >> 16u64) & 0xffu64) as u8);
    assert(b3 == ((w >> 24u64) & 0xffu64) as u8);
    assert(b4 == ((w >> 32u64) & 0xffu64) as u8);
    assert(b5 == ((w >> 40u64) & 0xffu64) as u8);
    assert(b6 == ((w >> 48u64) & 0xffu64) as u8);
    assert(b7 == ((w >> 56u64) & 0xffu64) as u8);
    assert((b0 as u64) | ((b1 as u64) << 8u64) | ((b2 as u64) << 16u64) | ((b3 as u64) << 24u64)
        | ((b4 as u64) << 32u64) | ((b5 as u64) << 40u64) | ((b6 as u64) << 48u64) | ((b7 as u64)
        << 56u64) == w) by (bit_vector)
        requires
            b0 == ((w >> 0u64) & 0xffu64) as u8,
            b1 == ((w >> 8u64) & 0xffu64) as u8,
            b2 == ((w >> 16u64) & 0xffu64) as u8,
            b3 == ((w >> 24u64) & 0xffu64) as u8,
            b4 == ((w >> 32u64) & 0xffu64) as u8,
            b5 == ((w >> 40u64) & 0xffu64) as u8,
            b6 == ((w >> 48u64) & 0xffu64) as u8,
            b7 == ((w >> 56u64) & 0xffu64) as u8,
    ;
}

} // verus!
