//! The word reader: a byte stream read as 32-bit words, with endianness
//! detected from the magic number, the header fields, and raw instruction
//! records split out of the word stream.

use vstd::prelude::*;

use crate::codec::{byte0, byte1, byte2, byte3, swap32, word_of};
use crate::parse::{Header, ParseError, RawInstruction};

verus! {

/// The magic number that opens every module, in native byte order.
pub const MAGIC_NUMBER: u32 = 0x07230203;

/// The byte at an index, zero past the end.
pub open spec fn byte_or_zero(data: Seq<u8>, i: int) -> u8 {
    if 0 <= i < data.len() {
        data[i]
    } else {
        0
    }
}

/// The word whose bytes start at byte offset `4 * k`, first byte lowest;
/// missing bytes read as zero.
pub open spec fn word_at(data: Seq<u8>, k: int) -> u32 {
    word_of(
        byte_or_zero(data, 4 * k),
        byte_or_zero(data, 4 * k + 1),
        byte_or_zero(data, 4 * k + 2),
        byte_or_zero(data, 4 * k + 3),
    )
}

/// The full words of a byte stream, each byte-swapped when the magic
/// number said so.
pub open spec fn stream_words(data: Seq<u8>, swap: bool) -> Seq<u32> {
    Seq::new(
        (data.len() / 4) as nat,
        |k: int|
            if swap {
                swap32(word_at(data, k))
            } else {
                word_at(data, k)
            },
    )
}

/// Does the stream end inside a word?
pub open spec fn ragged(data: Seq<u8>) -> bool {
    data.len() % 4 != 0
}

/// What the magic word says: `Some(false)` for native order,
/// `Some(true)` for byte-swapped order, `None` for no match.
pub open spec fn spec_stream_swap(data: Seq<u8>) -> Option<bool> {
    if word_at(data, 0) == MAGIC_NUMBER {
        Some(false)
    } else if swap32(word_at(data, 0)) == MAGIC_NUMBER {
        Some(true)
    } else {
        None
    }
}

/// The word stream a byte stream denotes, the magic word included, or
/// `None` when the magic number matches in neither byte order.
pub open spec fn reader_words(data: Seq<u8>) -> Option<Seq<u32>> {
    match spec_stream_swap(data) {
        Some(swap) => Some(stream_words(data, swap)),
        None => None,
    }
}

/// The header read from the first words after the magic number; words
/// past a clean end of stream read as zero.
pub open spec fn word_padded(ws: Seq<u32>, k: int) -> u32 {
    if 0 <= k < ws.len() {
        ws[k]
    } else {
        0
    }
}

/// The header fields packed into the three words after the magic number:
/// major and minor version in bits 16..24 and 8..16 of the first, the
/// generator magic, and the id bound.  A fourth reserved word is read
/// and discarded.
pub open spec fn spec_header(ws: Seq<u32>) -> Header {
    Header {
        version: (
            ((word_padded(ws, 0) >> 16) & 0xFF) as u8,
            ((word_padded(ws, 0) >> 8) & 0xFF) as u8,
        ),
        generator_id: word_padded(ws, 1),
        id_bound: word_padded(ws, 2),
    }
}

/// The word count of an instruction whose first word is `w`: the high
/// half, but at least the header word itself.
pub open spec fn inst_word_count(w: u32) -> nat {
    if w >> 16 == 0 {
        1
    } else {
        (w >> 16) as nat
    }
}

/// The next raw instruction record of a word stream: the opcode in the
/// low half of the first word, `count - 1` parameter words after it.
/// A clean end of stream is `None`; ending inside a word or inside an
/// instruction is an error.
pub open spec fn spec_next_inst(ws: Seq<u32>, rag: bool) -> Result<
    Option<(u16, Seq<u32>, Seq<u32>)>,
    ParseError,
> {
    if ws.len() == 0 {
        if rag {
            Err(ParseError::InstructionTooShort)
        } else {
            Ok(None)
        }
    } else {
        let w = ws[0];
        let n = inst_word_count(w) as int;
        if ws.len() < n {
            Err(ParseError::InstructionTooShort)
        } else {
            Ok(Some(((w & 0xFFFF) as u16, ws.subrange(1, n), ws.skip(n))))
        }
    }
}

/// Reads a byte stream as a sequence of 32-bit words: the magic number
/// fixes the byte order, the header follows, then raw instruction
/// records until the stream ends.
pub struct Reader {
    pub data: Vec<u8>,
    pub wpos: usize,
    pub need_swap: bool,
    pub header_read: bool,
}

impl Reader {
    /// The cursor sits on a word boundary inside the stream.
    pub open spec fn wf(self) -> bool {
        self.wpos <= self.data@.len() / 4
    }

    /// Was the header already read?
    pub open spec fn header_done(self) -> bool {
        self.header_read
    }

    /// Is the word order byte-swapped relative to native?
    pub open spec fn swapped(self) -> bool {
        self.need_swap
    }

    /// The bytes this reader walks.
    pub open spec fn bytes(self) -> Seq<u8> {
        self.data@
    }

    /// The full words not yet consumed.
    pub open spec fn words_left(self) -> Seq<u32> {
        stream_words(self.data@, self.need_swap).skip(self.wpos as int)
    }

    /// Checks the magic number in the first word: native order keeps
    /// words as they are, the byte-swapped form swaps every later word,
    /// anything else refuses the stream.
    pub fn new(data: Vec<u8>) -> (r: Result<Reader, ParseError>)
        ensures
            (match spec_stream_swap(data@) {
                Some(swap) => r matches Ok(rd) && rd.wf() && rd.bytes() == data@ && rd.swapped()
                    == swap && !rd.header_done() && rd.words_left() == stream_words(
                    data@,
                    swap,
                ).skip(1),
                None => r == Err::<Reader, ParseError>(
                    ParseError::InvalidMagicNumber(word_at(data@, 0)),
                ),
            }),
    {
        let b0: u8 = if data.len() > 0 {
            data[0]
        } else {
            0
        };
        let b1: u8 = if data.len() > 1 {
            data[1]
        } else {
            0
        };
        let b2: u8 = if data.len() > 2 {
            data[2]
        } else {
            0
        };
        let b3: u8 = if data.len() > 3 {
            data[3]
        } else {
            0
        };
        let w = (b0 as u32) | ((b1 as u32) << 8) | ((b2 as u32) << 16) | ((b3 as u32) << 24);
        let ws = ((b3 as u32) | ((b2 as u32) << 8) | ((b1 as u32) << 16) | ((b0 as u32) << 24));
        proof {
            assert(w == word_at(data@, 0));
            crate::codec::lemma_word_bytes(b0, b1, b2, b3);
            assert(ws == swap32(word_at(data@, 0)));
        }
        let need_swap = if w == MAGIC_NUMBER {
            false
        } else if ws == MAGIC_NUMBER {
            true
        } else {
            return Err(ParseError::InvalidMagicNumber(w));
        };
        let rd = Reader { data, wpos: 1, need_swap, header_read: false };
        proof {
            if rd.data@.len() < 4 {
                assert(b0 == 0 || b1 == 0 || b2 == 0 || b3 == 0);
                crate::codec::lemma_word_bytes(b0, b1, b2, b3);
                crate::codec::lemma_word_bytes(b3, b2, b1, b0);
                assert((0x07230203u32 & 0xFF) as u8 != 0 && ((0x07230203u32 >> 8) & 0xFF) as u8 != 0
                    && ((0x07230203u32 >> 16) & 0xFF) as u8 != 0 && ((0x07230203u32 >> 24)
                    & 0xFF) as u8 != 0) by (bit_vector);
                assert(false);
            }
            assert(rd.wf());
        }
        Ok(rd)
    }

    /// Consumes one full word, byte-swapped if the magic number said so.
    /// A clean end of stream is `None`; one to three leftover bytes are
    /// a truncation error.
    fn next_word(&mut self) -> (r: Result<Option<u32>, ParseError>)
        requires
            old(self).wf(),
        ensures
            final(self).wf(),
            final(self).bytes() == old(self).bytes(),
            final(self).swapped() == old(self).swapped(),
            final(self).header_read == old(self).header_read,
            (if old(self).words_left().len() > 0 {
                r == Ok::<_, ParseError>(Some(old(self).words_left()[0]))
                    && final(self).words_left() == old(self).words_left().skip(1)
            } else if ragged(old(self).bytes()) {
                r == Err::<Option<u32>, ParseError>(ParseError::InstructionTooShort) && *final(self)
                    == *old(self)
            } else {
                r == Ok::<Option<u32>, ParseError>(None) && *final(self) == *old(self)
            }),
    {
        let n = self.data.len();
        proof {
            assert(4 * (self.wpos as int) <= 4 * (n as int / 4));
            assert(4 * (n as int / 4) <= n as int) by (nonlinear_arith);
            assert((self.wpos as int) < (n as int) / 4 ==> 4 * (self.wpos as int) + 4 <= n as int)
                by (nonlinear_arith);
            assert(4 * (self.wpos as int) + 4 <= n as int ==> (self.wpos as int) < (n as int) / 4)
                by (nonlinear_arith);
        }
        let base = 4 * self.wpos;
        if n - base >= 4 {
            let b0 = self.data[base];
            let b1 = self.data[base + 1];
            let b2 = self.data[base + 2];
            let b3 = self.data[base + 3];
            let w = (b0 as u32) | ((b1 as u32) << 8) | ((b2 as u32) << 16) | ((b3 as u32) << 24);
            let w = if self.need_swap {
                let sw = (b3 as u32) | ((b2 as u32) << 8) | ((b1 as u32) << 16) | ((b0 as u32)
                    << 24);
                proof {
                    crate::codec::lemma_word_bytes(b0, b1, b2, b3);
                }
                sw
            } else {
                w
            };
            proof {
                assert(word_at(self.data@, self.wpos as int) == word_of(b0, b1, b2, b3));
                assert(old(self).words_left()[0] == w);
            }
            self.wpos = self.wpos + 1;
            proof {
                assert(old(self).words_left().skip(1) =~= self.words_left());
            }
            Ok(Some(w))
        } else {
            proof {
                assert(old(self).words_left().len() == 0);
            }
            if n % 4 != 0 {
                Err(ParseError::InstructionTooShort)
            } else {
                Ok(None)
            }
        }
    }

    /// Reads the header: version pair, generator id, id bound, and one
    /// reserved word that is discarded.  Must be called exactly once,
    /// before any instruction is read.  Words past a clean end of stream
    /// read as zero.
    pub fn read_header(&mut self) -> (r: Result<Header, ParseError>)
        requires
            old(self).wf(),
            !old(self).header_done(),
        ensures
            final(self).wf(),
            final(self).bytes() == old(self).bytes(),
            final(self).swapped() == old(self).swapped(),
            (match r {
                Ok(h) => final(self).header_done() && h == spec_header(old(self).words_left())
                    && final(self).words_left() == (if old(self).words_left().len() >= 4 {
                    old(self).words_left().skip(4)
                } else {
                    old(self).words_left().skip(old(self).words_left().len() as int)
                }) && (old(self).words_left().len() >= 4 || !ragged(old(self).bytes())),
                Err(e) => e == ParseError::InstructionTooShort && old(self).words_left().len() < 4
                    && ragged(old(self).bytes()),
            }),
    {
        let w0 = match self.next_word() {
            Ok(Some(w)) => w,
            Ok(None) => 0,
            Err(e) => return Err(e),
        };
        let w1 = match self.next_word() {
            Ok(Some(w)) => w,
            Ok(None) => 0,
            Err(e) => return Err(e),
        };
        let w2 = match self.next_word() {
            Ok(Some(w)) => w,
            Ok(None) => 0,
            Err(e) => return Err(e),
        };
        match self.next_word() {
            Ok(_) => {},
            Err(e) => return Err(e),
        };
        self.header_read = true;
        let major = ((w0 >> 16) & 0xFF) as u8;
        let minor = ((w0 >> 8) & 0xFF) as u8;
        proof {
            let ws = old(self).words_left();
            if ws.len() >= 4 {
                assert(ws.skip(1)[0] == ws[1] && ws.skip(1).skip(1)[0] == ws[2]);
                assert(ws.skip(1).skip(1).skip(1).skip(1) =~= ws.skip(4));
            } else {
                assert(self.words_left() =~= ws.skip(ws.len() as int));
            }
        }
        Ok(Header { version: (major, minor), generator_id: w1, id_bound: w2 })
    }

    /// Reads the header and discards it if it has not been read yet;
    /// does nothing when it already was, so calling this twice is the
    /// same as calling it once.
    pub fn skip_header(&mut self) -> (r: Result<(), ParseError>)
        requires
            old(self).wf(),
        ensures
            final(self).wf(),
            final(self).bytes() == old(self).bytes(),
            final(self).swapped() == old(self).swapped(),
            (match r {
                Ok(_) => final(self).header_done() && final(self).words_left() == (if old(
                    self,
                ).header_done() {
                    old(self).words_left()
                } else if old(self).words_left().len() >= 4 {
                    old(self).words_left().skip(4)
                } else {
                    old(self).words_left().skip(old(self).words_left().len() as int)
                }),
                Err(e) => e == ParseError::InstructionTooShort && !old(self).header_done() && old(
                    self,
                ).words_left().len() < 4 && ragged(old(self).bytes()),
            }),
    {
        if self.header_read {
            return Ok(());
        }
        match self.read_header() {
            Ok(_) => Ok(()),
            Err(e) => Err(e),
        }
    }

    /// Reads the next raw instruction record: one word holding the
    /// opcode and word count, then `count - 1` parameter words.  A clean
    /// end of stream at an instruction boundary is `None`, not an error;
    /// a stream that ends mid-word or mid-instruction is an error.
    pub fn read_instruction(&mut self) -> (r: Result<Option<RawInstruction>, ParseError>)
        requires
            old(self).wf(),
            old(self).header_done(),
        ensures
            final(self).wf(),
            final(self).bytes() == old(self).bytes(),
            final(self).swapped() == old(self).swapped(),
            final(self).header_done(),
            (match spec_next_inst(old(self).words_left(), ragged(old(self).bytes())) {
                Ok(Some((op, ps, rest))) => (r matches Ok(ri) && ri matches Some(ri) && ri.opcode
                    == op && ri.params@ == ps) && final(self).words_left() == rest,
                Ok(None) => r == Ok::<Option<RawInstruction>, ParseError>(None)
                    && final(self).words_left() == old(self).words_left(),
                Err(e) => r == Err::<Option<RawInstruction>, ParseError>(e),
            }),
    {
        let ghost ws = old(self).words_left();
        let w = match self.next_word() {
            Ok(Some(w)) => w,
            Ok(None) => {
                return Ok(None);
            },
            Err(e) => return Err(e),
        };
        let code = (w & 0xFFFF) as u16;
        let count = w >> 16;
        let n: usize = if count == 0 {
            1
        } else {
            count as usize
        };
        proof {
            assert(n == inst_word_count(w));
        }
        let mut params: Vec<u32> = Vec::new();
        proof {
            assert(params@ =~= ws.subrange(1, 1));
        }
        let mut k: usize = 1;
        while k < n
            invariant
                1 <= k <= n,
                n == inst_word_count(ws[0]),
                ws == old(self).words_left(),
                ws.len() >= k,
                self.wf(),
                self.bytes() == old(self).bytes(),
                self.swapped() == old(self).swapped(),
                self.header_read == old(self).header_read,
                old(self).header_done(),
                code == (ws[0] & 0xFFFF) as u16,
                params@ == ws.subrange(1, k as int),
                self.words_left() == ws.skip(k as int),
            decreases n - k,
        {
            let p = match self.next_word() {
                Ok(Some(p)) => p,
                Ok(None) => {
                    proof {
                        assert(ws.len() == k);
                        assert(ws.len() < inst_word_count(ws[0]));
                    }
                    return Err(ParseError::InstructionTooShort);
                },
                Err(e) => {
                    proof {
                        assert(ws.len() == k);
                        assert(ws.len() < inst_word_count(ws[0]));
                    }
                    return Err(e);
                },
            };
            params.push(p);
            proof {
                assert(ws.skip(k as int)[0] == ws[k as int]);
                assert(params@ =~= ws.subrange(1, k + 1));
                assert(ws.skip(k as int).skip(1) =~= ws.skip(k + 1));
            }
            k = k + 1;
        }
        Ok(Some(RawInstruction { opcode: code, params }))
    }
}

} // verus!
