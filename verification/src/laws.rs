//! Laws of the library that relate several functions: endianness
//! independence of the reader, the string codec's shape, completeness of
//! the use map, and the canonical emission order of image operands.

use vstd::prelude::*;
use vstd::seq_lib::group_seq_lib_default;

use crate::codec::{
    byte0, byte1, byte2, byte3, bytes_before_zero, has_zero_byte, lemma_bytes_word,
    lemma_swap_involutive, sp_string, str_words, swap32,
};
use crate::desc::Id;
use crate::instruction::{count_flags, flag_bit, lemma_count_flags_le, ImageOperandsView, InstructionView};
use crate::inst_codec::img_ops_words;
use crate::parse::ParseError;
use crate::read::{ragged, reader_words, spec_stream_swap, stream_words, word_at, MAGIC_NUMBER};
use crate::{spec_add_uses, spec_index_inst, spec_load_insts, spec_read_module, LoadState};

verus! {

// ---------------------------------------------------------------------
// Endianness.
// ---------------------------------------------------------------------

/// The byte at position `k` of a word, lowest first.
pub open spec fn byte_sel(w: u32, k: int) -> u8 {
    if k == 0 {
        byte0(w)
    } else if k == 1 {
        byte1(w)
    } else if k == 2 {
        byte2(w)
    } else {
        byte3(w)
    }
}

/// A word sequence laid out as bytes, each word's lowest byte first.
#[verifier::opaque]
pub open spec fn le_bytes(ws: Seq<u32>) -> Seq<u8> {
    Seq::new(4 * ws.len(), |i: int| byte_sel(ws[i / 4], i % 4))
}

/// Each word of a byte layout reads back as the word laid out.
proof fn lemma_le_bytes_words(ws: Seq<u32>)
    ensures
        le_bytes(ws).len() == 4 * ws.len(),
        !ragged(le_bytes(ws)),
        forall|k: int| 0 <= k < ws.len() ==> word_at(le_bytes(ws), k) == ws[k],
{
    reveal(le_bytes);
    let data = le_bytes(ws);
    assert((4 * ws.len()) as int % 4 == 0) by (nonlinear_arith);
    assert forall|k: int| 0 <= k < ws.len() implies word_at(data, k) == ws[k] by {
        assert forall|j: int| 0 <= j < 4 implies data[4 * k + j] == byte_sel(ws[k], j) by {
            assert(0 <= 4 * k + j < 4 * ws.len()) by (nonlinear_arith)
                requires
                    0 <= k < ws.len() && 0 <= j < 4,
            ;
            assert((4 * k + j) / 4 == k && (4 * k + j) % 4 == j) by (nonlinear_arith)
                requires
                    0 <= j < 4,
            ;
        }
        lemma_bytes_word(ws[k]);
    }
}

/// The magic number is not its own byte-swap.
proof fn lemma_magic_asymmetric()
    ensures
        swap32(MAGIC_NUMBER) != MAGIC_NUMBER,
{
    let m = MAGIC_NUMBER;
    assert((((m >> 24) & 0xFF) as u8 as u32) | ((((m >> 16) & 0xFF) as u8 as u32) << 8) | ((((m
        >> 8) & 0xFF) as u8 as u32) << 16) | (((m & 0xFF) as u8 as u32) << 24) != m)
        by (bit_vector)
        requires
            m == 0x07230203u32,
    ;
}

/// Feeding a byte-swapped magic number followed by byte-swapped words
/// yields exactly the same word stream as the native-order layout: every
/// later decoding step sees identical input.
#[verifier::rlimit(100)]
#[verifier::spinoff_prover]
pub proof fn lemma_endianness(ws: Seq<u32>)
    requires
        ws.len() >= 1,
        ws[0] == MAGIC_NUMBER,
    ensures
        reader_words(le_bytes(ws)) == Some(ws),
        reader_words(le_bytes(ws.map_values(|w: u32| swap32(w)))) == Some(ws),
{
    let data = le_bytes(ws);
    lemma_le_bytes_words(ws);
    assert(stream_words(data, false) =~= ws);

    let sws = ws.map_values(|w: u32| swap32(w));
    let data2 = le_bytes(sws);
    lemma_le_bytes_words(sws);
    assert(sws.len() == ws.len());
    assert(sws[0] == swap32(ws[0]));
    assert(word_at(data2, 0) == sws[0]);
    assert(word_at(data2, 0) == swap32(MAGIC_NUMBER));
    lemma_magic_asymmetric();
    lemma_swap_involutive(MAGIC_NUMBER);
    assert(spec_stream_swap(data2) == Some(true));
    assert forall|k: int| 0 <= k < ws.len() implies swap32(word_at(data2, k)) == ws[k] by {
        assert(word_at(data2, k) == sws[k]);
        assert(sws[k] == swap32(ws[k]));
        lemma_swap_involutive(ws[k]);
    }
    assert(stream_words(data2, true) =~= ws);
}

/// A byte-swapped module loads to exactly the same result as its
/// native-order layout.
#[verifier::rlimit(100)]
#[verifier::spinoff_prover]
pub proof fn lemma_endianness_module(ws: Seq<u32>)
    requires
        ws.len() >= 1,
        ws[0] == MAGIC_NUMBER,
    ensures
        spec_read_module(le_bytes(ws)) == spec_read_module(
            le_bytes(ws.map_values(|w: u32| swap32(w))),
        ),
{
    lemma_endianness(ws);
    lemma_le_bytes_words(ws);
    lemma_le_bytes_words(ws.map_values(|w: u32| swap32(w)));
    let sws = ws.map_values(|w: u32| swap32(w));
    assert(stream_words(le_bytes(ws), false) =~= ws);
    assert forall|k: int| 0 <= k < ws.len() implies swap32(word_at(le_bytes(sws), k))
        == ws[k] by {
        assert(word_at(le_bytes(sws), k) == sws[k]);
        assert(sws[k] == swap32(ws[k]));
        lemma_swap_involutive(ws[k]);
    }
    assert(stream_words(le_bytes(sws), true) =~= ws);
}

// ---------------------------------------------------------------------
// The string codec's shape.
// ---------------------------------------------------------------------

/// Encoding the empty string takes exactly one all-zero word.
pub proof fn lemma_empty_string_word()
    ensures
        str_words(Seq::<u8>::empty()) == seq![0u32],
{
}

/// Every encoded string takes one word per started group of four bytes,
/// the terminator included: a byte length that is an exact multiple of
/// four gains one whole extra all-zero word.
pub proof fn lemma_string_padding(b: Seq<u8>)
    ensures
        str_words(b).len() == b.len() / 4 + 1,
        b.len() % 4 == 0 && b.len() > 0 ==> str_words(b).last() == 0,
    decreases b.len(),
{
    crate::codec::lemma_str_words_len(b);
    if b.len() >= 4 {
        lemma_string_padding(b.skip(4));
        assert((b.len() - 4) % 4 == b.len() % 4) by (nonlinear_arith)
            requires
                b.len() >= 4,
        ;
        if b.len() % 4 == 0 && b.len() > 4 {
            assert(str_words(b).last() == str_words(b.skip(4)).last());
        } else if b.len() == 4 {
            assert(str_words(b.skip(4)) =~= seq![0u32]);
        }
    }
}

/// Decoding stops at the first zero byte: the word holding it is
/// consumed whole, its remaining bytes are discarded, and the words that
/// follow are left untouched.
pub proof fn lemma_string_stops_at_zero(w: u32, rest: Seq<u32>)
    requires
        has_zero_byte(w),
    ensures
        sp_string(seq![w] + rest) == (bytes_before_zero(w), rest),
{
    assert((seq![w] + rest)[0] == w);
    assert((seq![w] + rest).skip(1) =~= rest);
}

/// The bytes of a word sequence, each word's lowest byte first.
pub open spec fn words_bytes(ws: Seq<u32>) -> Seq<u8>
    decreases ws.len(),
{
    if ws.len() == 0 {
        seq![]
    } else {
        seq![byte0(ws[0]), byte1(ws[0]), byte2(ws[0]), byte3(ws[0])] + words_bytes(ws.skip(1))
    }
}

/// Decoding any string: if the word at position `t` is the first to hold
/// a zero byte, the decoded bytes are every byte of the words before it
/// followed by that word's bytes up to the zero; the terminator word is
/// consumed whole, and every later word is left untouched.
pub proof fn lemma_string_decode(ws: Seq<u32>, t: int)
    requires
        0 <= t < ws.len(),
        has_zero_byte(ws[t]),
        forall|j: int| 0 <= j < t ==> !has_zero_byte(ws[j]),
    ensures
        sp_string(ws).0 == words_bytes(ws.take(t)) + bytes_before_zero(ws[t]),
        sp_string(ws).1 == ws.skip(t + 1),
    decreases t,
{
    if t == 0 {
        assert(words_bytes(ws.take(0)) =~= Seq::<u8>::empty());
        assert(sp_string(ws).0 =~= words_bytes(ws.take(0)) + bytes_before_zero(ws[0]));
    } else {
        assert forall|j: int| 0 <= j < t - 1 implies !has_zero_byte(ws.skip(1)[j]) by {
            assert(ws.skip(1)[j] == ws[j + 1]);
        }
        assert(ws.skip(1)[t - 1] == ws[t]);
        lemma_string_decode(ws.skip(1), t - 1);
        assert(ws.take(t).skip(1) =~= ws.skip(1).take(t - 1));
        assert(words_bytes(ws.take(t)) == seq![
            byte0(ws[0]),
            byte1(ws[0]),
            byte2(ws[0]),
            byte3(ws[0]),
        ] + words_bytes(ws.skip(1).take(t - 1)));
        assert(sp_string(ws).0 =~= words_bytes(ws.take(t)) + bytes_before_zero(ws[t]));
        assert(ws.skip(1).skip(t) =~= ws.skip(t + 1));
    }
}

// ---------------------------------------------------------------------
// Use/def index completeness.
// ---------------------------------------------------------------------

/// How often an index occurs in a use list.
pub open spec fn occ_index(s: Seq<usize>, j: int) -> nat {
    s.filter(|y: usize| y == j).len()
}

/// How often an id occurs among the ids an instruction uses.
pub open spec fn occ_id(ids: Seq<Id>, x: u32) -> nat {
    ids.filter(|y: Id| y.0 == x).len()
}

/// Splitting the head off a filtered sequence.
proof fn lemma_occ_id_head(ids: Seq<Id>, x: u32)
    requires
        ids.len() > 0,
    ensures
        occ_id(ids, x) == occ_id(ids.skip(1), x) + (if ids[0].0 == x {
            1nat
        } else {
            0nat
        }),
{
    let pred = |y: Id| y.0 == x;
    assert(ids =~= seq![ids[0]] + ids.skip(1));
    Seq::filter_distributes_over_add(seq![ids[0]], ids.skip(1), pred);
    assert(seq![ids[0]].filter(pred).len() == (if ids[0].0 == x {
        1nat
    } else {
        0nat
    })) by {
        reveal_with_fuel(Seq::filter, 2);
        assert(seq![ids[0]].drop_last() =~= Seq::<Id>::empty());
    }
}

/// Pushing an element changes only that element's count.
proof fn lemma_occ_index_push(s: Seq<usize>, v: usize, j: int)
    ensures
        occ_index(s.push(v), j) == occ_index(s, j) + (if v == j {
            1nat
        } else {
            0nat
        }),
{
    let pred = |y: usize| y == j;
    assert(s.push(v).drop_last() =~= s);
    assert(s.push(v).last() == v);
    reveal_with_fuel(Seq::filter, 1);
}

/// Appending one instruction's uses adds its index to each used id's
/// list exactly once per occurrence, and touches no other index.
proof fn lemma_add_uses_counts(us: Seq<Seq<usize>>, ids: Seq<Id>, idx: usize, u2: Seq<Seq<usize>>)
    requires
        spec_add_uses(us, ids, idx) == Ok::<Seq<Seq<usize>>, ParseError>(u2),
    ensures
        u2.len() == us.len(),
        forall|x: u32|
            1 <= x < us.len() ==> occ_index(u2[x as int], idx as int) == occ_index(
                us[x as int],
                idx as int,
            ) + occ_id(ids, x),
        forall|x: u32, j: int|
            1 <= x < us.len() && j != idx ==> occ_index(u2[x as int], j) == occ_index(
                us[x as int],
                j,
            ),
        forall|x: int| 0x100000000 <= x < us.len() ==> u2[x] == us[x],
        us.len() > 0 ==> u2[0] == us[0],
    decreases ids.len(),
{
    if ids.len() == 0 {
    } else {
        let x0 = ids[0].0;
        if x0 == 0 {
            lemma_add_uses_counts(us, ids.skip(1), idx, u2);
            assert forall|x: u32| 1 <= x < us.len() implies occ_index(u2[x as int], idx as int)
                == occ_index(us[x as int], idx as int) + occ_id(ids, x) by {
                lemma_occ_id_head(ids, x);
            }
        } else {
            let us1 = us.update(x0 as int, us[x0 as int].push(idx));
            lemma_add_uses_counts(us1, ids.skip(1), idx, u2);
            assert forall|x: u32, j: int| 1 <= x < us.len() implies occ_index(us1[x as int], j)
                == occ_index(us[x as int], j) + (if x == x0 && j == idx {
                1nat
            } else {
                0nat
            }) by {
                if x == x0 {
                    lemma_occ_index_push(us[x0 as int], idx, j);
                }
            }
            assert forall|x: u32| 1 <= x < us.len() implies occ_index(u2[x as int], idx as int)
                == occ_index(us[x as int], idx as int) + occ_id(ids, x) by {
                lemma_occ_id_head(ids, x);
            }
        }
    }
}

/// Whether every use list only mentions instruction indices below `n`.
pub open spec fn uses_below(us: Seq<Seq<usize>>, n: int) -> bool {
    forall|x: int, j: int| 0 <= x < us.len() && j >= n ==> occ_index(us[x], j) == 0
}

/// The per-index counts of the load fold: every index recorded during
/// the fold counts one instruction's uses, and indices of instructions
/// not yet seen do not occur.
proof fn lemma_load_counts(ws: Seq<u32>, rag: bool, st: LoadState, res: LoadState)
    requires
        spec_load_insts(ws, rag, st) == Ok::<LoadState, ParseError>(res),
        uses_below(st.uses, st.insts.len() as int),
        st.insts.len() + ws.len() <= usize::MAX,
    ensures
        res.uses.len() == st.uses.len(),
        st.insts.len() <= res.insts.len() <= st.insts.len() + ws.len(),
        res.insts.subrange(0, st.insts.len() as int) == st.insts,
        uses_below(res.uses, res.insts.len() as int),
        forall|x: u32, j: int|
            1 <= x < st.uses.len() && st.insts.len() <= j < res.insts.len() ==> occ_index(
                res.uses[x as int],
                j,
            ) == occ_id(res.insts[j].spec_uses(), x),
        forall|x: u32, j: int|
            1 <= x < st.uses.len() && 0 <= j < st.insts.len() ==> occ_index(res.uses[x as int], j)
                == occ_index(st.uses[x as int], j),
    decreases ws.len(),
{
    match crate::read::spec_next_inst(ws, rag) {
        Err(e) => {
            assert(false);
        },
        Ok(None) => {
            assert(res.insts.subrange(0, st.insts.len() as int) =~= st.insts);
        },
        Ok(Some((op, ps, rest))) => {
            let v = crate::inst_codec::sp_inst(op, ps).unwrap();
            let st2 = spec_index_inst(st, v).unwrap();
            let idx = st.insts.len() as usize;
            let u2 = spec_add_uses(st.uses, v.spec_uses(), idx).unwrap();
            lemma_add_uses_counts(st.uses, v.spec_uses(), idx, u2);
            assert(st2.insts == st.insts.push(v));
            assert(uses_below(st2.uses, st2.insts.len() as int)) by {
                assert forall|x: int, j: int|
                    0 <= x < st2.uses.len() && j >= st2.insts.len() implies occ_index(
                    st2.uses[x],
                    j,
                ) == 0 by {
                    if 1 <= x < 0x100000000 {
                        let xu = x as u32;
                        assert(occ_index(st.uses[xu as int], j) == 0);
                        assert(occ_index(st2.uses[xu as int], j) == occ_index(
                            st.uses[xu as int],
                            j,
                        ));
                    } else if x >= 0x100000000 {
                        assert(st2.uses[x] == st.uses[x]);
                        assert(occ_index(st.uses[x], j) == 0);
                    } else {
                        assert(st2.uses[0] == st.uses[0]);
                        assert(occ_index(st.uses[x], j) == 0);
                    }
                }
            }
            lemma_load_counts(rest, rag, st2, res);
            assert(res.insts.subrange(0, st.insts.len() as int) =~= st.insts) by {
                assert(res.insts.subrange(0, st2.insts.len() as int) == st2.insts);
                assert forall|i: int| 0 <= i < st.insts.len() implies res.insts[i]
                    == st.insts[i] by {
                    assert(res.insts.subrange(0, st2.insts.len() as int)[i] == st2.insts[i]);
                }
            }
            assert(res.insts[idx as int] == v) by {
                assert(res.insts.subrange(0, st2.insts.len() as int)[idx as int]
                    == st2.insts[idx as int]);
            }
            assert forall|x: u32, j: int|
                1 <= x < st.uses.len() && st.insts.len() <= j < res.insts.len() implies occ_index(
                res.uses[x as int],
                j,
            ) == occ_id(res.insts[j].spec_uses(), x) by {
                if j == idx {
                    assert(occ_index(res.uses[x as int], j) == occ_index(st2.uses[x as int], j));
                    assert(occ_index(st.uses[x as int], idx as int) == 0);
                    assert(occ_index(st2.uses[x as int], idx as int) == occ_id(v.spec_uses(), x));
                }
            }
        },
    }
}

/// A stream whose magic number matched has at least one full word.
proof fn lemma_magic_needs_four_bytes(data: Seq<u8>)
    requires
        spec_stream_swap(data) matches Some(_),
    ensures
        data.len() >= 4,
{
    if data.len() < 4 {
        let c0 = crate::read::byte_or_zero(data, 0);
        let c1 = crate::read::byte_or_zero(data, 1);
        let c2 = crate::read::byte_or_zero(data, 2);
        let c3 = crate::read::byte_or_zero(data, 3);
        assert(c3 == 0);
        lemma_bytes_word(MAGIC_NUMBER);
        crate::codec::lemma_word_bytes(c0, c1, c2, c3);
        crate::codec::lemma_word_bytes(c3, c2, c1, c0);
        let m = MAGIC_NUMBER;
        assert(((m >> 24) & 0xFF) as u8 != 0 && (m & 0xFF) as u8 != 0) by (bit_vector)
            requires
                m == 0x07230203u32,
        ;
        assert(false);
    }
}

/// Use/def index completeness: in a loaded module, for every instruction
/// and every id among its uses, the id's use list holds that
/// instruction's stream index exactly once per occurrence of the id.
pub proof fn lemma_use_map_complete(data: Seq<u8>, st: LoadState)
    requires
        spec_read_module(data) == Ok::<LoadState, ParseError>(st),
        data.len() <= usize::MAX,
    ensures
        forall|x: u32, j: int|
            1 <= x < st.uses.len() && 0 <= j < st.insts.len() ==> occ_index(st.uses[x as int], j)
                == occ_id(st.insts[j].spec_uses(), x),
{
    let swap = spec_stream_swap(data).unwrap();
    let ws = stream_words(data, swap).skip(1);
    let h = crate::read::spec_header(ws);
    let rest = if ws.len() >= 4 {
        ws.skip(4)
    } else {
        ws.skip(ws.len() as int)
    };
    let st0 = crate::spec_initial_state(h.id_bound);
    assert(uses_below(st0.uses, 0)) by {
        assert forall|x: int, j: int| 0 <= x < st0.uses.len() && j >= 0 implies occ_index(
            st0.uses[x],
            j,
        ) == 0 by {
            assert(st0.uses[x] =~= Seq::<usize>::empty());
        }
    }
    let glen = data.len();
    lemma_magic_needs_four_bytes(data);
    assert(glen / 4 <= glen) by (nonlinear_arith);
    assert(stream_words(data, swap).len() == glen / 4);
    assert(glen / 4 >= 1) by (nonlinear_arith)
        requires
            glen >= 4,
    ;
    assert(rest.len() <= stream_words(data, swap).len());
    assert(st0.insts.len() == 0);
    lemma_load_counts(rest, ragged(data), st0, st);
}

// ---------------------------------------------------------------------
// Id-bound safety.
// ---------------------------------------------------------------------

/// Appending uses succeeds only when every nonzero used id lies below
/// the bound.
proof fn lemma_add_uses_bound(us: Seq<Seq<usize>>, ids: Seq<Id>, idx: usize)
    requires
        spec_add_uses(us, ids, idx) matches Ok(_),
    ensures
        forall|k: int| 0 <= k < ids.len() ==> ids[k].0 == 0 || ids[k].0 < us.len(),
    decreases ids.len(),
{
    if ids.len() > 0 {
        let x = ids[0].0;
        if x == 0 {
            lemma_add_uses_bound(us, ids.skip(1), idx);
        } else {
            lemma_add_uses_bound(us.update(x as int, us[x as int].push(idx)), ids.skip(1), idx);
        }
        assert forall|k: int| 0 <= k < ids.len() implies ids[k].0 == 0 || ids[k].0 < us.len() by {
            if k > 0 {
                assert(ids.skip(1)[k - 1] == ids[k]);
            }
        }
    }
}

/// The fold never changes the bound the maps were sized to.
proof fn lemma_load_keeps_bound(ws: Seq<u32>, rag: bool, st: LoadState, res: LoadState)
    requires
        spec_load_insts(ws, rag, st) == Ok::<LoadState, ParseError>(res),
    ensures
        res.defs.len() == st.defs.len(),
        res.uses.len() == st.uses.len(),
        res.insts.len() >= st.insts.len(),
        res.insts.subrange(0, st.insts.len() as int) == st.insts,
    decreases ws.len(),
{
    match crate::read::spec_next_inst(ws, rag) {
        Err(e) => {
            assert(false);
        },
        Ok(None) => {
            assert(res.insts.subrange(0, st.insts.len() as int) =~= st.insts);
        },
        Ok(Some((op, ps, rest))) => {
            let v = crate::inst_codec::sp_inst(op, ps).unwrap();
            let st2 = spec_index_inst(st, v).unwrap();
            let idx = st.insts.len() as usize;
            let u2 = spec_add_uses(st.uses, v.spec_uses(), idx).unwrap();
            lemma_add_uses_counts(st.uses, v.spec_uses(), idx, u2);
            lemma_load_keeps_bound(rest, rag, st2, res);
            assert(res.insts.subrange(0, st.insts.len() as int) =~= st.insts) by {
                assert(res.insts.subrange(0, st2.insts.len() as int) == st2.insts);
                assert forall|i: int| 0 <= i < st.insts.len() implies res.insts[i]
                    == st.insts[i] by {
                    assert(res.insts.subrange(0, st2.insts.len() as int)[i] == st2.insts[i]);
                }
            }
        },
    }
}

/// Every instruction the fold accepts respects the bound.
proof fn lemma_load_bound(ws: Seq<u32>, rag: bool, st: LoadState, res: LoadState)
    requires
        spec_load_insts(ws, rag, st) == Ok::<LoadState, ParseError>(res),
        st.defs.len() == st.uses.len(),
        forall|j: int|
            0 <= j < st.insts.len() ==> inst_ids_below(st.insts[j], st.defs.len() as int),
    ensures
        forall|j: int|
            0 <= j < res.insts.len() ==> inst_ids_below(res.insts[j], st.defs.len() as int),
    decreases ws.len(),
{
    match crate::read::spec_next_inst(ws, rag) {
        Err(e) => {
            assert(false);
        },
        Ok(None) => {
        },
        Ok(Some((op, ps, rest))) => {
            let v = crate::inst_codec::sp_inst(op, ps).unwrap();
            let st2 = spec_index_inst(st, v).unwrap();
            let idx = st.insts.len() as usize;
            let u2 = spec_add_uses(st.uses, v.spec_uses(), idx).unwrap();
            lemma_add_uses_counts(st.uses, v.spec_uses(), idx, u2);
            lemma_add_uses_bound(st.uses, v.spec_uses(), idx);
            assert(inst_ids_below(v, st.defs.len() as int));
            assert forall|j: int|
                0 <= j < st2.insts.len() implies inst_ids_below(
                st2.insts[j],
                st.defs.len() as int,
            ) by {
                if j < st.insts.len() {
                    assert(st2.insts[j] == st.insts[j]);
                } else {
                    assert(st2.insts[j] == v);
                }
            }
            lemma_load_bound(rest, rag, st2, res);
        },
    }
}

/// Every id an instruction defines or uses lies below the bound, zero
/// sentinels aside.
pub open spec fn inst_ids_below(v: InstructionView, bound: int) -> bool {
    &&& (match crate::spec_def_id(v) {
        Some(d) => d == 0 || d < bound,
        None => true,
    })
    &&& forall|k: int|
        0 <= k < v.spec_uses().len() ==> v.spec_uses()[k].0 == 0 || v.spec_uses()[k].0 < bound
}

/// Id-bound safety: in a loaded module, every id any instruction defines
/// or uses lies strictly below the declared id bound (the size of both
/// index maps); equivalently, a stream referring to an id at or above
/// the bound never loads, since the fold's first such reference raises
/// `IdOutOfRange`.
pub proof fn lemma_id_bound_safety(data: Seq<u8>, st: LoadState)
    requires
        spec_read_module(data) == Ok::<LoadState, ParseError>(st),
    ensures
        st.defs.len() == st.uses.len(),
        forall|j: int| 0 <= j < st.insts.len() ==> inst_ids_below(st.insts[j], st.defs.len() as int),
{
    let swap = spec_stream_swap(data).unwrap();
    let ws = stream_words(data, swap).skip(1);
    let h = crate::read::spec_header(ws);
    let rest = if ws.len() >= 4 {
        ws.skip(4)
    } else {
        ws.skip(ws.len() as int)
    };
    let st0 = crate::spec_initial_state(h.id_bound);
    lemma_load_keeps_bound(rest, ragged(data), st0, st);
    lemma_load_bound(rest, ragged(data), st0, st);
}

// ---------------------------------------------------------------------
// Image operand emission order.
// ---------------------------------------------------------------------

/// Whatever order flags were set in, emission order is canonical: the
/// operand of a canonically earlier flag sits at a strictly earlier
/// position of the encoded payload, each at one plus its rank.
pub proof fn lemma_image_operands_order(io: ImageOperandsView, i: int, j: int)
    requires
        io.wf(),
        0 <= i < j < 8,
        io.bits & flag_bit(i) != 0,
        io.bits & flag_bit(j) != 0,
    ensures
        count_flags(io.bits, i) < count_flags(io.bits, j),
        img_ops_words(io)[1 + count_flags(io.bits, i) as int] == io.spec_get(i).unwrap().0,
        img_ops_words(io)[1 + count_flags(io.bits, j) as int] == io.spec_get(j).unwrap().0,
{
    lemma_count_flags_le(io.bits, i + 1, j);
    lemma_count_flags_le(io.bits, j + 1, 8);
}

} // verus!
