//! Laws of the data of custom instructions.

use crate::driver::custom_len;
use crate::values::cinstrconf_value;
use crate::words::{byte_of, byte_or_zero, response_byte, word_at};
use vstd::prelude::*;

verus! {

/// A word that is the sum of four weighted bytes has these bytes.
proof fn lemma_bytes_of_sum(b0: int, b1: int, b2: int, b3: int)
    requires
        0 <= b0 < 0x100,
        0 <= b1 < 0x100,
        0 <= b2 < 0x100,
        0 <= b3 < 0x100,
    ensures
        ({
            let sum = b0 + 0x100 * b1 + 0x1_0000 * b2 + 0x100_0000 * b3;
            &&& 0 <= sum <= u32::MAX
            &&& byte_of(sum as u32, 0) == b0
            &&& byte_of(sum as u32, 1) == b1
            &&& byte_of(sum as u32, 2) == b2
            &&& byte_of(sum as u32, 3) == b3
        }),
{
    let sum = b0 + 0x100 * b1 + 0x1_0000 * b2 + 0x100_0000 * b3;
    assert(sum % 0x100 == b0);
    assert(sum / 0x100 == b1 + 0x100 * b2 + 0x1_0000 * b3);
    assert(sum / 0x1_0000 == b2 + 0x100 * b3);
    assert(sum / 0x100_0000 == b3);
}

/// The data words hold the request: byte `i` of the first is byte `i` of the
/// request, and byte `i` of the second is byte `4 + i`.
pub proof fn law_request_in_words(req: Seq<u8>, i: int)
    requires
        0 <= i < req.len() <= 8,
    ensures
        0 <= word_at(req, 0) <= u32::MAX,
        0 <= word_at(req, 4) <= u32::MAX,
        i < 4 ==> byte_of(word_at(req, 0) as u32, i) == req[i],
        i >= 4 ==> byte_of(word_at(req, 4) as u32, i - 4) == req[i],
{
    lemma_bytes_of_sum(
        byte_or_zero(req, 0),
        byte_or_zero(req, 1),
        byte_or_zero(req, 2),
        byte_or_zero(req, 3),
    );
    lemma_bytes_of_sum(
        byte_or_zero(req, 4),
        byte_or_zero(req, 5),
        byte_or_zero(req, 6),
        byte_or_zero(req, 7),
    );
}

/// Equal data words come from equal requests, as far as these have equal lengths.
pub proof fn law_words_determine_request(req1: Seq<u8>, req2: Seq<u8>)
    requires
        req1.len() == req2.len() <= 8,
        word_at(req1, 0) == word_at(req2, 0),
        word_at(req1, 4) == word_at(req2, 4),
    ensures
        req1 == req2,
{
    assert forall|i: int| 0 <= i < req1.len() implies req1[i] == req2[i] by {
        law_request_in_words(req1, i);
        law_request_in_words(req2, i);
    }
    assert(req1 =~= req2);
}

/// A response of at most four bytes is taken from the data words byte by byte: what
/// `custom_instruction_start` would have put there comes back.
pub proof fn law_short_response(bytes: Seq<u8>, i: int, before: u8)
    requires
        0 <= i < bytes.len() <= 4,
    ensures
        response_byte(
            word_at(bytes, 0) as u32,
            word_at(bytes, 4) as u32,
            bytes.len() as int,
            i,
            before,
        ) == bytes[i],
{
    law_request_in_words(bytes, i);
}

/// Of a response buffer, the first four bytes are written and no other: byte `i` from
/// bits `8 * i` and up of the first data word, or of the second where the buffer has
/// a byte `4 + i`.
pub proof fn law_response_bytes(dat0: u32, dat1: u32, len: int, i: u32, before: u8)
    requires
        i < len,
    ensures
        ({
            let byte = response_byte(dat0, dat1, len, i as int, before);
            &&& i >= 4 ==> byte == before
            &&& i < 4 && i + 4 >= len ==> byte as u32 == (dat0 >> (8u32 * i) as u32) & 0xff
            &&& i < 4 && i + 4 < len ==> byte as u32 == (dat1 >> (8u32 * i) as u32) & 0xff
        }),
{
    if i < 4 {
        lemma_shifted_byte(dat0, i);
        lemma_shifted_byte(dat1, i);
    }
}

/// A byte of a word is what shift and mask take out.
proof fn lemma_shifted_byte(word: u32, i: u32)
    requires
        i < 4,
    ensures
        byte_of(word, i as int) as u32 == (word >> (8u32 * i) as u32) & 0xff,
{
    assert((word >> 0) & 0xff == word % 0x100) by (bit_vector);
    assert((word >> 8) & 0xff == word / 0x100 % 0x100) by (bit_vector);
    assert((word >> 16) & 0xff == word / 0x1_0000 % 0x100) by (bit_vector);
    assert((word >> 24) & 0xff == word / 0x100_0000 % 0x100) by (bit_vector);
    if i == 0 {
    } else if i == 1 {
    } else if i == 2 {
    } else {
    }
}

/// The configuration of an instruction has the opcode, the length, the four flags
/// (data lines 2 and 3 high, wait for a write in progress, write enable), and nothing
/// else.
pub proof fn law_instruction_conf(opcode: u8, length: int)
    requires
        0 <= length,
    ensures
        ({
            let conf = cinstrconf_value(opcode, length);
            &&& conf % 0x100 == opcode
            &&& conf / 0x100 % 0x10 == length % 16
            &&& conf / 0x1000 == 0xf
        }),
{
}

/// An instruction whose request and response have at most eight bytes is as long as
/// the opcode and the longer of the two, and its opcode is sent as it is.
pub proof fn law_instruction_length(opcode: u8, req_len: int, resp_len: int)
    requires
        0 <= req_len <= 8,
        0 <= resp_len <= 8,
    ensures
        ({
            let conf = cinstrconf_value(opcode, custom_len(req_len, resp_len) + 1);
            &&& 0 <= conf <= u32::MAX
            &&& conf % 0x100 == opcode
            &&& conf / 0x100 % 0x10 == 1 + (if req_len >= resp_len {
                req_len
            } else {
                resp_len
            })
        }),
{
}

} // verus!
