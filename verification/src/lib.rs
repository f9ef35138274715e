//! Reading, modelling and re-encoding of SPIR-V binary modules.
//!
//! A module arrives as a stream of bytes.  The reader turns it into 32-bit
//! words (detecting endianness from the magic number), the per-opcode codec
//! turns raw word groups into typed instructions and back, and the indexers
//! fold the instruction stream into id-keyed lookup tables.

use vstd::prelude::*;

pub mod codec;
pub mod decoration;
pub mod desc;
pub mod id_map;
pub mod inst_codec;
pub mod instruction;
pub mod laws;
pub mod module;
pub mod parse;
pub mod read;
pub mod roundtrip;
pub mod write;

use crate::desc::Id;
use crate::inst_codec::sp_inst;
use crate::instruction::{Instruction, InstructionView};
use crate::parse::{parse_raw_instruction, ParseError};
use crate::read::{
    ragged, spec_header, spec_next_inst, spec_stream_swap, stream_words, word_at, Reader,
};

verus! {

/// The sentinel in the definition map for "no definition".
pub const NO_DEF: usize = usize::MAX;

/// The index tables built by one streaming pass: the decoded instruction
/// stream, the id-to-defining-instruction map, and the id-to-using-
/// instructions map.
pub struct LoadState {
    pub insts: Seq<InstructionView>,
    pub defs: Seq<usize>,
    pub uses: Seq<Seq<usize>>,
}

/// The id an instruction defines, whether as a value or as a type.
pub open spec fn spec_def_id(v: InstructionView) -> Option<u32> {
    match v.spec_defines_value_inner() {
        Some(r) => Some(r.0),
        None => match v.spec_defines_type() {
            Some(t) => Some(t.0),
            None => None,
        },
    }
}

/// Appends one instruction index to the use list of every id it reads,
/// in operand order; the zero sentinel is skipped, and an id at or above
/// the declared bound is an error.
pub open spec fn spec_add_uses(us: Seq<Seq<usize>>, ids: Seq<Id>, idx: usize) -> Result<
    Seq<Seq<usize>>,
    ParseError,
>
    decreases ids.len(),
{
    if ids.len() == 0 {
        Ok(us)
    } else {
        let x = ids[0].0;
        if x == 0 {
            spec_add_uses(us, ids.skip(1), idx)
        } else if x >= us.len() {
            Err(ParseError::IdOutOfRange(ids[0]))
        } else {
            spec_add_uses(us.update(x as int, us[x as int].push(idx)), ids.skip(1), idx)
        }
    }
}

/// Indexes one decoded instruction: records its index as the definition
/// of the id it defines (an id defined twice, or out of the declared
/// bound, is an error), then appends its index to the use list of every
/// id it reads.
pub open spec fn spec_index_inst(st: LoadState, v: InstructionView) -> Result<
    LoadState,
    ParseError,
> {
    let idx = st.insts.len() as usize;
    let defs = match spec_def_id(v) {
        Some(d) => if d == 0 {
            Ok(st.defs)
        } else if d >= st.defs.len() {
            Err(ParseError::IdOutOfRange(Id(d)))
        } else if st.defs[d as int] != NO_DEF {
            Err(ParseError::DuplicateId(Id(d), st.defs[d as int]))
        } else {
            Ok(st.defs.update(d as int, idx))
        },
        None => Ok(st.defs),
    };
    match defs {
        Err(e) => Err(e),
        Ok(defs) => match spec_add_uses(st.uses, v.spec_uses(), idx) {
            Err(e) => Err(e),
            Ok(uses) => Ok(LoadState { insts: st.insts.push(v), defs, uses }),
        },
    }
}

/// Folds the raw word stream into index tables: raw records are split
/// off, decoded, and indexed, until a clean end of stream; the first
/// error aborts the whole load.
pub open spec fn spec_load_insts(ws: Seq<u32>, rag: bool, st: LoadState) -> Result<
    LoadState,
    ParseError,
>
    decreases ws.len(),
{
    match spec_next_inst(ws, rag) {
        Err(e) => Err(e),
        Ok(None) => Ok(st),
        Ok(Some((op, ps, rest))) => match sp_inst(op, ps) {
            Err(e) => Err(e),
            Ok(v) => match spec_index_inst(st, v) {
                Err(e) => Err(e),
                Ok(st2) => spec_load_insts(rest, rag, st2),
            },
        },
    }
}

/// The empty index tables, sized to the declared id bound.
pub open spec fn spec_initial_state(bound: u32) -> LoadState {
    LoadState {
        insts: Seq::empty(),
        defs: Seq::new(bound as nat, |i: int| NO_DEF),
        uses: Seq::new(bound as nat, |i: int| Seq::empty()),
    }
}

/// Loading a whole module from bytes: magic number and byte order, the
/// header, then the instruction stream folded into the index tables.
pub open spec fn spec_read_module(data: Seq<u8>) -> Result<LoadState, ParseError> {
    match spec_stream_swap(data) {
        None => Err(ParseError::InvalidMagicNumber(word_at(data, 0))),
        Some(swap) => {
            let ws = stream_words(data, swap).skip(1);
            if ws.len() < 4 && ragged(data) {
                Err(ParseError::InstructionTooShort)
            } else {
                let h = spec_header(ws);
                let rest = if ws.len() >= 4 {
                    ws.skip(4)
                } else {
                    ws.skip(ws.len() as int)
                };
                spec_load_insts(rest, ragged(data), spec_initial_state(h.id_bound))
            }
        },
    }
}

/// Appends `idx` to the use list of every id in `uses`, skipping the
/// zero sentinel; an id at or above the map's length is an error.
fn add_uses(use_map: &mut Vec<Vec<usize>>, uses: &Vec<Id>, idx: usize) -> (r: Result<
    (),
    ParseError,
>)
    ensures
        final(use_map)@.len() == old(use_map)@.len(),
        forall|i: int, j: int|
            0 <= i < final(use_map)@.len() && 0 <= j < final(use_map)@[i]@.len()
                ==> final(use_map)@[i]@[j] == idx || (0 <= j < old(use_map)@[i]@.len()
                && final(use_map)@[i]@[j] == old(use_map)@[i]@[j]),
        (match spec_add_uses(old(use_map)@.map_values(|v: Vec<usize>| v@), uses@, idx) {
            Ok(u2) => r == Ok::<(), ParseError>(()) && final(use_map)@.map_values(
                |v: Vec<usize>| v@,
            ) == u2,
            Err(e) => r == Err::<(), ParseError>(e),
        }),
{
    let ghost us0 = use_map@.map_values(|v: Vec<usize>| v@);
    proof {
        assert(uses@.skip(0) =~= uses@);
    }
    let mut uk: usize = 0;
    while uk < uses.len()
        invariant
            uk <= uses@.len(),
            use_map@.len() == us0.len(),
            us0 == old(use_map)@.map_values(|v: Vec<usize>| v@),
            forall|i: int, j: int|
                0 <= i < use_map@.len() && 0 <= j < use_map@[i]@.len() ==> use_map@[i]@[j] == idx
                    || (0 <= j < old(use_map)@[i]@.len() && use_map@[i]@[j]
                    == old(use_map)@[i]@[j]),
            spec_add_uses(use_map@.map_values(|v: Vec<usize>| v@), uses@.skip(uk as int), idx)
                == spec_add_uses(us0, uses@, idx),
        decreases uses@.len() - uk,
    {
        let ghost cur_us = use_map@.map_values(|v: Vec<usize>| v@);
        let x = uses[uk].0;
        proof {
            assert(uses@.skip(uk as int)[0] == uses@[uk as int]);
            assert(uses@.skip(uk as int).skip(1) =~= uses@.skip(uk + 1));
        }
        if x != 0 {
            let xi = x as usize;
            if xi >= use_map.len() {
                proof {
                    assert(spec_add_uses(us0, uses@, idx) == Err::<Seq<Seq<usize>>, ParseError>(
                        ParseError::IdOutOfRange(Id(x)),
                    ));
                }
                return Err(ParseError::IdOutOfRange(Id(x)));
            }
            let mut entry = use_map[xi].clone();
            entry.push(idx);
            use_map.set(xi, entry);
            proof {
                assert(use_map@.map_values(|v: Vec<usize>| v@) =~= cur_us.update(
                    x as int,
                    cur_us[x as int].push(idx),
                ));
            }
        }
        uk = uk + 1;
    }
    proof {
        assert(uses@.skip(uses@.len() as int) =~= Seq::<Id>::empty());
    }
    Ok(())
}

/// Minimal representation of a decoded module: the ordered instruction
/// stream plus dense def and use maps indexed by id value.
pub struct RawModule {
    pub instructions: Vec<Instruction>,
    pub def_map: Vec<usize>,
    pub use_map: Vec<Vec<usize>>,
}

impl View for RawModule {
    type V = LoadState;

    open spec fn view(&self) -> LoadState {
        LoadState {
            insts: self.instructions@.map_values(|i: Instruction| i@),
            defs: self.def_map@,
            uses: self.use_map@.map_values(|v: Vec<usize>| v@),
        }
    }
}

impl RawModule {
    /// Every recorded index points into the instruction list.
    pub open spec fn wf(self) -> bool {
        (forall|i: int|
            0 <= i < self@.defs.len() ==> self@.defs[i] == NO_DEF || self@.defs[i]
                < self@.insts.len()) && (forall|i: int, j: int|
            0 <= i < self@.uses.len() && 0 <= j < self@.uses[i].len() ==> self@.uses[i][j]
                < self@.insts.len())
    }

    /// Reads a whole module from bytes: detects the byte order from the
    /// magic number, reads the header, then decodes and indexes every
    /// instruction.  An id defined twice is a `DuplicateId` error; an id
    /// referenced at or above the header's id bound is `IdOutOfRange`.
    #[verifier::rlimit(100)]
    #[verifier::spinoff_prover]
    pub fn read_module(data: Vec<u8>) -> (r: Result<RawModule, ParseError>)
        ensures
            (match r {
                Ok(m) => spec_read_module(data@) == Ok::<LoadState, ParseError>(m@) && m.wf(),
                Err(e) => spec_read_module(data@) == Err::<LoadState, ParseError>(e),
            }),
    {
        let ghost gdata = data@;
        let mut reader = match Reader::new(data) {
            Ok(rd) => rd,
            Err(e) => return Err(e),
        };
        let header = match reader.read_header() {
            Ok(h) => h,
            Err(e) => return Err(e),
        };
        let ids = header.id_bound as usize;
        let mut def_map: Vec<usize> = Vec::new();
        let mut use_map: Vec<Vec<usize>> = Vec::new();
        let mut k: usize = 0;
        while k < ids
            invariant
                k <= ids,
                def_map@.len() == k,
                use_map@.len() == k,
                forall|i: int| 0 <= i < k ==> def_map@[i] == NO_DEF,
                forall|i: int| 0 <= i < k ==> use_map@[i]@.len() == 0,
            decreases ids - k,
        {
            def_map.push(NO_DEF);
            use_map.push(Vec::new());
            k = k + 1;
        }
        let mut instructions: Vec<Instruction> = Vec::new();
        let ghost st0 = spec_initial_state(header.id_bound);
        let ghost rest0 = reader.words_left();
        let ghost rag = ragged(reader.bytes());
        proof {
            assert(spec_read_module(gdata) == spec_load_insts(rest0, rag, st0));
            assert(def_map@ =~= st0.defs);
            assert(use_map@.map_values(|v: Vec<usize>| v@) =~~= st0.uses);
            assert(instructions@.map_values(|i: Instruction| i@) =~= st0.insts);
        }
        let mut done = false;
        while !done
            invariant
                data@ == gdata,
                spec_read_module(gdata) == spec_load_insts(rest0, rag, st0),
                reader.wf(),
                reader.header_done(),
                rag == ragged(reader.bytes()),
                def_map@.len() == use_map@.len(),
                forall|i: int|
                    0 <= i < def_map@.len() ==> def_map@[i] == NO_DEF || def_map@[i]
                        < instructions@.len(),
                forall|i: int, j: int|
                    0 <= i < use_map@.len() && 0 <= j < use_map@[i]@.len() ==> use_map@[i]@[j]
                        < instructions@.len(),
                spec_load_insts(
                    reader.words_left(),
                    rag,
                    LoadState {
                        insts: instructions@.map_values(|i: Instruction| i@),
                        defs: def_map@,
                        uses: use_map@.map_values(|v: Vec<usize>| v@),
                    },
                ) == spec_load_insts(rest0, rag, st0),
                done ==> spec_load_insts(rest0, rag, st0) == Ok::<LoadState, ParseError>(
                    LoadState {
                        insts: instructions@.map_values(|i: Instruction| i@),
                        defs: def_map@,
                        uses: use_map@.map_values(|v: Vec<usize>| v@),
                    },
                ),
            decreases reader.words_left().len() + (if done {
                0int
            } else {
                1int
            }),
        {
            let ghost pre_words = reader.words_left();
            let ghost pre_st = LoadState {
                insts: instructions@.map_values(|i: Instruction| i@),
                defs: def_map@,
                uses: use_map@.map_values(|v: Vec<usize>| v@),
            };
            let raw = match reader.read_instruction() {
                Ok(Some(raw)) => raw,
                Ok(None) => {
                    proof {
                        assert(spec_load_insts(pre_words, rag, pre_st) == Ok::<
                            LoadState,
                            ParseError,
                        >(pre_st));
                    }
                    done = true;
                    continue ;
                },
                Err(e) => {
                    proof {
                        assert(spec_load_insts(pre_words, rag, pre_st) == Err::<
                            LoadState,
                            ParseError,
                        >(e));
                    }
                    return Err(e);
                },
            };
            let inst = match parse_raw_instruction(raw) {
                Ok(i) => i,
                Err(e) => {
                    proof {
                        assert(spec_load_insts(pre_words, rag, pre_st) == Err::<
                            LoadState,
                            ParseError,
                        >(e));
                    }
                    return Err(e);
                },
            };
            let idx = instructions.len();
            let d = match inst.defines_value() {
                Some(v) => Some(v.0),
                None => match inst.defines_type() {
                    Some(t) => Some(t.0),
                    None => None,
                },
            };
            proof {
                assert(spec_def_id(inst@) == (match d {
                    Some(dv) => Some(dv),
                    None => None,
                }));
            }
            match d {
                Some(dv) => {
                    if dv != 0 {
                        let dvi = dv as usize;
                        if dvi >= def_map.len() {
                            proof {
                                assert(spec_index_inst(pre_st, inst@) == Err::<
                                    LoadState,
                                    ParseError,
                                >(ParseError::IdOutOfRange(Id(dv))));
                            }
                            return Err(ParseError::IdOutOfRange(Id(dv)));
                        }
                        if def_map[dvi] != NO_DEF {
                            proof {
                                assert(spec_index_inst(pre_st, inst@) == Err::<
                                    LoadState,
                                    ParseError,
                                >(ParseError::DuplicateId(Id(dv), def_map@[dvi as int])));
                            }
                            return Err(ParseError::DuplicateId(Id(dv), def_map[dvi]));
                        }
                        def_map.set(dvi, idx);
                    }
                },
                None => {},
            }
            let uses = inst.uses();
            let ghost us0 = use_map@.map_values(|v: Vec<usize>| v@);
            proof {
                assert(us0 =~~= pre_st.uses);
                assert(match spec_add_uses(us0, uses@, idx) {
                    Err(e) => spec_index_inst(pre_st, inst@) == Err::<LoadState, ParseError>(e),
                    Ok(u2) => spec_index_inst(pre_st, inst@) == Ok::<LoadState, ParseError>(
                        LoadState { insts: pre_st.insts.push(inst@), defs: def_map@, uses: u2 },
                    ),
                });
            }
            match add_uses(&mut use_map, &uses, idx) {
                Ok(_) => {},
                Err(e) => {
                    proof {
                        assert(spec_index_inst(pre_st, inst@) == Err::<LoadState, ParseError>(e));
                        assert(spec_load_insts(pre_words, rag, pre_st) == Err::<
                            LoadState,
                            ParseError,
                        >(e));
                    }
                    return Err(e);
                },
            }
            instructions.push(inst);
            proof {
                assert(uses@.skip(uses@.len() as int) =~= Seq::<Id>::empty());
                assert(spec_add_uses(us0, uses@, idx) == Ok::<Seq<Seq<usize>>, ParseError>(
                    use_map@.map_values(|v: Vec<usize>| v@),
                ));
                assert(instructions@.map_values(|i: Instruction| i@) =~= pre_st.insts.push(inst@));
            }
        }
        let m = RawModule { instructions, def_map, use_map };
        Ok(m)
    }

    /// The decoded instructions, in stream order.
    pub fn instructions(&self) -> (r: &Vec<Instruction>)
        ensures
            r@ == self.instructions@,
    {
        &self.instructions
    }

    /// What `def_index` returns: the recorded defining index, unless the
    /// id is the zero sentinel, out of range, or never defined.
    pub open spec fn spec_def_index(self, id: Id) -> Option<usize> {
        if id.0 == 0 || id.0 >= self@.defs.len() || self@.defs[id.0 as int] == NO_DEF {
            None
        } else {
            Some(self@.defs[id.0 as int])
        }
    }

    /// The index of the instruction defining the given id, if any; the
    /// zero sentinel never has a definition.
    pub fn def_index(&self, id: Id) -> (r: Option<usize>)
        ensures
            r == self.spec_def_index(id),
    {
        if id.0 == 0 {
            return None;
        }
        let idx = id.0 as usize;
        if idx >= self.def_map.len() {
            return None;
        }
        let d = self.def_map[idx];
        if d == NO_DEF {
            None
        } else {
            Some(d)
        }
    }

    /// The indices of the instructions that use the given id, in stream
    /// order, one entry per occurrence.
    pub fn use_indices(&self, id: Id) -> (r: Option<&Vec<usize>>)
        ensures
            (match r {
                Some(v) => id.0 != 0 && id.0 < self@.uses.len() && v@ == self@.uses[id.0 as int],
                None => id.0 == 0 || id.0 >= self@.uses.len(),
            }),
    {
        if id.0 == 0 {
            return None;
        }
        let idx = id.0 as usize;
        if idx >= self.use_map.len() {
            return None;
        }
        Some(&self.use_map[idx])
    }

    /// The instruction that defines the given id, if any.
    pub fn def(&self, id: Id) -> (r: Option<&Instruction>)
        requires
            self.wf(),
        ensures
            (match self.spec_def_index(id) {
                Some(idx) => r matches Some(i) && i@ == self@.insts[idx as int],
                None => r matches None,
            }),
    {
        match self.def_index(id) {
            Some(idx) => Some(&self.instructions[idx]),
            None => None,
        }
    }
}

} // verus!
