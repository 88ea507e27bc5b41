//! Bytes of a custom instruction in the two data registers.

use vstd::prelude::*;

verus! {

/// Weight of byte `i` of a word, the lowest byte being byte 0.
pub open spec fn weight(i: int) -> int {
    if i == 0 {
        1
    } else if i == 1 {
        0x100
    } else if i == 2 {
        0x1_0000
    } else {
        0x100_0000
    }
}

/// Byte `i` of `bytes`, or 0 past the end.
pub open spec fn byte_or_zero(bytes: Seq<u8>, i: int) -> int {
    if 0 <= i < bytes.len() {
        bytes[i] as int
    } else {
        0
    }
}

/// The four bytes of `bytes` from index `start` as a little-endian number, with
/// zeros past the end.
pub open spec fn word_at(bytes: Seq<u8>, start: int) -> int {
    byte_or_zero(bytes, start) + 0x100 * byte_or_zero(bytes, start + 1) + 0x1_0000 * byte_or_zero(
        bytes,
        start + 2,
    ) + 0x100_0000 * byte_or_zero(bytes, start + 3)
}

/// Byte `i` of a word.
pub open spec fn byte_of(word: u32, i: int) -> u8 {
    (word as int / weight(i) % 0x100) as u8
}

/// The low `n` bytes of the word that starts at `start`.
spec fn partial_word(bytes: Seq<u8>, start: int, n: int) -> int
    decreases n,
{
    if n <= 0 {
        0
    } else {
        partial_word(bytes, start, n - 1) + weight(n - 1) * byte_or_zero(bytes, start + n - 1)
    }
}

/// Packs up to four bytes from index `start` on into a word.
pub(crate) fn pack_word(bytes: &[u8], start: usize) -> (word: u32)
    requires
        start <= 4,
    ensures
        word == word_at(bytes@, start as int),
{
    let mut word: u32 = 0;
    let mut i: usize = 0;
    while i < 4
        invariant
            start <= 4,
            i <= 4,
            word == partial_word(bytes@, start as int, i as int),
            i < 4 ==> word < weight(i as int),
        decreases 4 - i,
    {
        if start + i < bytes.len() {
            let byte: u32 = bytes[start + i] as u32;
            let shift: u32 = (i as u32) * 8;
            proof {
                assert(1u32 << 0 == 1 && 1u32 << 8 == 0x100 && 1u32 << 16 == 0x1_0000 && 1u32 << 24
                    == 0x100_0000) by (bit_vector);
                assert(1u32 << shift == weight(i as int));
                assert((word | (byte << shift)) == word + (1u32 << shift) * byte) by (bit_vector)
                    requires
                        shift <= 24,
                        word < 1u32 << shift,
                        byte <= 0xff,
                ;
            }
            word = word | (byte << shift);
        }
        i = i + 1;
    }
    proof {
        let s = start as int;
        assert(partial_word(bytes@, s, 0) == 0);
        assert(partial_word(bytes@, s, 1) == weight(0) * byte_or_zero(bytes@, s));
        assert(weight(0) * byte_or_zero(bytes@, s) == byte_or_zero(bytes@, s));
        assert(partial_word(bytes@, s, 2) == partial_word(bytes@, s, 1) + 0x100 * byte_or_zero(
            bytes@,
            s + 1,
        ));
        assert(partial_word(bytes@, s, 3) == partial_word(bytes@, s, 2) + 0x1_0000 * byte_or_zero(
            bytes@,
            s + 2,
        ));
        assert(partial_word(bytes@, s, 4) == partial_word(bytes@, s, 3) + 0x100_0000 * byte_or_zero(
            bytes@,
            s + 3,
        ));
    }
    word
}

/// Extracts byte `i` of a word.
pub(crate) fn extract_byte(word: u32, i: usize) -> (byte: u8)
    requires
        i < 4,
    ensures
        byte == byte_of(word, i as int),
{
    let shift: u32 = (i as u32) * 8;
    proof {
        assert((word >> 0) as u8 == word % 0x100) by (bit_vector);
        assert((word >> 8) as u8 == word / 0x100 % 0x100) by (bit_vector);
        assert((word >> 16) as u8 == word / 0x1_0000 % 0x100) by (bit_vector);
        assert((word >> 24) as u8 == word / 0x100_0000 % 0x100) by (bit_vector);
    }
    #[verifier::truncate]
    let byte: u8 = (word >> shift) as u8;
    byte
}

/// What a response buffer of `len` bytes holds at index `i` once a custom
/// instruction is done, where it held `before`.
///
/// Bytes 4 and up of the response go to the start of the buffer, in place of the
/// bytes that the first data register gave; the buffer past index 3 is left alone.
pub open spec fn response_byte(dat0: u32, dat1: u32, len: int, i: int, before: u8) -> u8 {
    if i < 4 && i + 4 < len {
        byte_of(dat1, i)
    } else if i < 4 {
        byte_of(dat0, i)
    } else {
        before
    }
}

/// Copies the response from the two data words.
pub(crate) fn unpack_words(dat0: u32, dat1: u32, resp: &mut [u8])
    ensures
        final(resp)@.len() == old(resp)@.len(),
        forall|i: int|
            0 <= i < old(resp)@.len() ==> final(resp)@[i] == response_byte(
                dat0,
                dat1,
                old(resp)@.len() as int,
                i,
                old(resp)@[i],
            ),
{
    let mut i: usize = 0;
    while i < 4
        invariant
            i <= 4,
            resp@.len() == old(resp)@.len(),
            forall|j: int|
                0 <= j < resp@.len() ==> resp@[j] == if j < i {
                    byte_of(dat0, j)
                } else {
                    old(resp)@[j]
                },
        decreases 4 - i,
    {
        if i < resp.len() {
            resp[i] = extract_byte(dat0, i);
        }
        i = i + 1;
    }
    i = 0;
    while i < 4
        invariant
            i <= 4,
            resp@.len() == old(resp)@.len(),
            forall|j: int|
                0 <= j < resp@.len() ==> resp@[j] == if j < i && j + 4 < resp@.len() {
                    byte_of(dat1, j)
                } else if j < 4 {
                    byte_of(dat0, j)
                } else {
                    old(resp)@[j]
                },
        decreases 4 - i,
    {
        if i + 4 < resp.len() {
            resp[i] = extract_byte(dat1, i);
        }
        i = i + 1;
    }
}

} // verus!
