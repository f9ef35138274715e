//! The parameter codec, at the specification level: how each operand kind
//! maps between typed values and 32-bit word sequences.  Decoding functions
//! consume a prefix of a word sequence and return the value together with
//! the remaining words; encoding functions produce the canonical word
//! sequence of a value.  The round-trip lemmas here are the building blocks
//! of the instruction-level round-trip proof.

use vstd::prelude::*;

use crate::parse::{ParamKind, ParseError};

verus! {

// ---------------------------------------------------------------------
// Words and bytes.
// ---------------------------------------------------------------------

/// The word assembled from four bytes, first byte in the lowest bits.
pub open spec fn word_of(b0: u8, b1: u8, b2: u8, b3: u8) -> u32 {
    (b0 as u32) | ((b1 as u32) << 8) | ((b2 as u32) << 16) | ((b3 as u32) << 24)
}

/// The lowest byte of a word.
pub open spec fn byte0(w: u32) -> u8 {
    (w & 0xFF) as u8
}

/// The second byte of a word.
pub open spec fn byte1(w: u32) -> u8 {
    ((w >> 8) & 0xFF) as u8
}

/// The third byte of a word.
pub open spec fn byte2(w: u32) -> u8 {
    ((w >> 16) & 0xFF) as u8
}

/// The highest byte of a word.
pub open spec fn byte3(w: u32) -> u8 {
    ((w >> 24) & 0xFF) as u8
}

/// The word with its four bytes in reverse order.
pub open spec fn swap32(w: u32) -> u32 {
    word_of(byte3(w), byte2(w), byte1(w), byte0(w))
}

/// Assembling a word from four bytes and taking it apart again gives the
/// same four bytes back.
pub proof fn lemma_word_bytes(b0: u8, b1: u8, b2: u8, b3: u8)
    ensures
        byte0(word_of(b0, b1, b2, b3)) == b0,
        byte1(word_of(b0, b1, b2, b3)) == b1,
        byte2(word_of(b0, b1, b2, b3)) == b2,
        byte3(word_of(b0, b1, b2, b3)) == b3,
{
    let w = (b0 as u32) | ((b1 as u32) << 8) | ((b2 as u32) << 16) | ((b3 as u32) << 24);
    assert((w & 0xFF) as u8 == b0 && ((w >> 8) & 0xFF) as u8 == b1 && ((w >> 16) & 0xFF) as u8
        == b2 && ((w >> 24) & 0xFF) as u8 == b3) by (bit_vector)
        requires
            w == (b0 as u32) | ((b1 as u32) << 8) | ((b2 as u32) << 16) | ((b3 as u32) << 24),
    ;
}

/// Taking a word apart into bytes and reassembling them gives the word back.
pub proof fn lemma_bytes_word(w: u32)
    ensures
        word_of(byte0(w), byte1(w), byte2(w), byte3(w)) == w,
{
    assert(((w & 0xFF) as u8 as u32) | ((((w >> 8) & 0xFF) as u8 as u32) << 8) | ((((w >> 16)
        & 0xFF) as u8 as u32) << 16) | ((((w >> 24) & 0xFF) as u8 as u32) << 24) == w)
        by (bit_vector);
}

/// Swapping a word's bytes twice gives the word back.
pub proof fn lemma_swap_involutive(w: u32)
    ensures
        swap32(swap32(w)) == w,
{
    lemma_word_bytes(byte3(w), byte2(w), byte1(w), byte0(w));
    lemma_bytes_word(w);
}

// ---------------------------------------------------------------------
// Single words.
// ---------------------------------------------------------------------

/// Decoding one word: the head of the sequence, or `InstructionTooShort`.
pub open spec fn sp_word(ws: Seq<u32>) -> Result<(u32, Seq<u32>), ParseError> {
    if ws.len() > 0 {
        Ok((ws[0], ws.skip(1)))
    } else {
        Err(ParseError::InstructionTooShort)
    }
}

/// Decoding an optional trailing word with zero as the absent sentinel:
/// never fails, consumes a word exactly when one remains.
pub open spec fn sp_opt_word(ws: Seq<u32>) -> (u32, Seq<u32>) {
    if ws.len() > 0 {
        (ws[0], ws.skip(1))
    } else {
        (0, ws)
    }
}

/// One word prepended to a remainder decodes to that word and remainder.
pub proof fn lemma_word_round_trip(w: u32, rest: Seq<u32>)
    ensures
        sp_word(seq![w] + rest) == Ok::<_, ParseError>((w, rest)),
        sp_opt_word(seq![w] + rest) == (w, rest),
{
    assert((seq![w] + rest).skip(1) =~= rest);
}

// ---------------------------------------------------------------------
// Strings.
// ---------------------------------------------------------------------

/// Does a word hold a zero byte (a string terminator)?
pub open spec fn has_zero_byte(w: u32) -> bool {
    byte0(w) == 0 || byte1(w) == 0 || byte2(w) == 0 || byte3(w) == 0
}

/// The bytes of a terminating word up to its first zero byte; the rest of
/// the word is padding and is discarded.
pub open spec fn bytes_before_zero(w: u32) -> Seq<u8> {
    if byte0(w) == 0 {
        seq![]
    } else if byte1(w) == 0 {
        seq![byte0(w)]
    } else if byte2(w) == 0 {
        seq![byte0(w), byte1(w)]
    } else {
        seq![byte0(w), byte1(w), byte2(w)]
    }
}

/// Decoding a string: words are consumed as groups of four bytes, lowest
/// byte first, until a zero byte is found; the word holding the zero byte
/// is consumed whole.  Running out of words without a terminator yields
/// the bytes seen so far and is not an error.
pub open spec fn sp_string(ws: Seq<u32>) -> (Seq<u8>, Seq<u32>)
    decreases ws.len(),
{
    if ws.len() == 0 {
        (seq![], ws)
    } else if has_zero_byte(ws[0]) {
        (bytes_before_zero(ws[0]), ws.skip(1))
    } else {
        let (b, r) = sp_string(ws.skip(1));
        (seq![byte0(ws[0]), byte1(ws[0]), byte2(ws[0]), byte3(ws[0])] + b, r)
    }
}

/// Encoding a string: its bytes, one mandatory zero terminator byte, and
/// zero padding up to the next word boundary.  Even an empty string takes
/// exactly one all-zero word.
pub open spec fn str_words(b: Seq<u8>) -> Seq<u32>
    decreases b.len(),
{
    if b.len() >= 4 {
        seq![word_of(b[0], b[1], b[2], b[3])] + str_words(b.skip(4))
    } else if b.len() == 3 {
        seq![word_of(b[0], b[1], b[2], 0)]
    } else if b.len() == 2 {
        seq![word_of(b[0], b[1], 0, 0)]
    } else if b.len() == 1 {
        seq![word_of(b[0], 0, 0, 0)]
    } else {
        seq![0u32]
    }
}

/// Are all bytes of a string nonzero?  Only such strings encode losslessly,
/// since a zero byte would read back as the terminator.
pub open spec fn zero_free(b: Seq<u8>) -> bool {
    forall|i: int| 0 <= i < b.len() ==> b[i] != 0
}

/// An encoded string takes one word for each started group of four bytes,
/// terminator included: an exact multiple of four gains a whole extra word.
pub proof fn lemma_str_words_len(b: Seq<u8>)
    ensures
        str_words(b).len() == b.len() / 4 + 1,
    decreases b.len(),
{
    if b.len() >= 4 {
        lemma_str_words_len(b.skip(4));
    }
}

/// Decoding an encoded zero-free string gives the string back and leaves
/// exactly the words that follow it.
pub proof fn lemma_string_round_trip(b: Seq<u8>, rest: Seq<u32>)
    requires
        zero_free(b),
    ensures
        sp_string(str_words(b) + rest) == (b, rest),
    decreases b.len(),
{
    if b.len() >= 4 {
        let w = word_of(b[0], b[1], b[2], b[3]);
        lemma_word_bytes(b[0], b[1], b[2], b[3]);
        let ws = str_words(b) + rest;
        assert(ws[0] == w);
        assert(ws.skip(1) =~= str_words(b.skip(4)) + rest);
        lemma_string_round_trip(b.skip(4), rest);
        assert(sp_string(ws).0 =~= b);
        assert(sp_string(ws).1 =~= rest);
    } else {
        let w = if b.len() == 3 {
            word_of(b[0], b[1], b[2], 0)
        } else if b.len() == 2 {
            word_of(b[0], b[1], 0, 0)
        } else if b.len() == 1 {
            word_of(b[0], 0, 0, 0)
        } else {
            word_of(0, 0, 0, 0)
        };
        if b.len() == 0 {
            assert((0u32 | (0u32 << 8) | (0u32 << 16) | (0u32 << 24)) == 0) by (bit_vector);
        }
        let ws = str_words(b) + rest;
        assert(ws[0] == w);
        if b.len() == 3 {
            lemma_word_bytes(b[0], b[1], b[2], 0);
        } else if b.len() == 2 {
            lemma_word_bytes(b[0], b[1], 0, 0);
        } else if b.len() == 1 {
            lemma_word_bytes(b[0], 0, 0, 0);
        } else {
            lemma_word_bytes(0, 0, 0, 0);
        }
        assert(bytes_before_zero(w) =~= b);
        assert(ws.skip(1) =~= rest);
    }
}

/// Whatever the input, a decoded string holds no zero byte, and the
/// remainder is no longer than the input.
pub proof fn lemma_sp_string_zero_free(ws: Seq<u32>)
    ensures
        zero_free(sp_string(ws).0),
        sp_string(ws).1.len() <= ws.len(),
    decreases ws.len(),
{
    if ws.len() == 0 {
    } else if has_zero_byte(ws[0]) {
    } else {
        lemma_sp_string_zero_free(ws.skip(1));
    }
}

} // verus!
