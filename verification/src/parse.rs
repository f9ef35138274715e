//! Raw instruction records, the module header, and the error taxonomy of
//! the loader.  Every error is terminal for the load that raised it: the
//! first failure aborts the remainder of the module.

use vstd::prelude::*;

use crate::codec::{byte0, byte1, byte2, byte3, bytes_before_zero, sp_opt_word, sp_string, sp_word};
use crate::desc;
use crate::desc::{Id, ResultId, TypeId, ValueId};
use crate::inst_codec::{
    sp_decoration, sp_dec_access_chain, sp_dec_branch, sp_dec_branch_conditional,
    sp_dec_capability, sp_dec_constant, sp_dec_constant_composite, sp_dec_constant_false,
    sp_dec_constant_null, sp_dec_constant_true, sp_dec_decorate, sp_dec_decoration_group,
    sp_dec_entry_point, sp_dec_execution_mode, sp_dec_function, sp_dec_function_call,
    sp_dec_function_end, sp_dec_function_parameter, sp_dec_group_decorate,
    sp_dec_group_member_decorate, sp_dec_image_sample_implicit_lod, sp_dec_label, sp_dec_line,
    sp_dec_load, sp_dec_member_decorate, sp_dec_member_name, sp_dec_memory_model, sp_dec_name,
    sp_dec_nop, sp_dec_phi, sp_dec_return, sp_dec_return_value, sp_dec_source,
    sp_dec_spec_constant_false, sp_dec_spec_constant_true, sp_dec_store, sp_dec_switch,
    sp_dec_type_array, sp_dec_type_bool, sp_dec_type_float, sp_dec_type_forward_pointer,
    sp_dec_type_function, sp_dec_type_image, sp_dec_type_int, sp_dec_type_matrix,
    sp_dec_type_opaque, sp_dec_type_pointer, sp_dec_type_runtime_array,
    sp_dec_type_sampled_image, sp_dec_type_sampler, sp_dec_type_struct, sp_dec_type_vector,
    sp_dec_type_void, sp_dec_undef, sp_dec_variable, sp_exec_mode, sp_image_operands, sp_img_values,
    sp_inst, sp_opt_string, sp_pairs,
};
use crate::instruction::{
    opt_bytes_view, Decoration, ExecutionMode, ImageOperands, ImageOperandsView, Instruction,
    InstructionView,
};
use crate::instruction::{
    OP_ACCESS_CHAIN, OP_BRANCH, OP_BRANCH_CONDITIONAL, OP_CAPABILITY, OP_CONSTANT,
    OP_CONSTANT_COMPOSITE, OP_CONSTANT_FALSE, OP_CONSTANT_NULL, OP_CONSTANT_TRUE, OP_DECORATE,
    OP_DECORATION_GROUP, OP_ENTRY_POINT, OP_EXECUTION_MODE, OP_FUNCTION, OP_FUNCTION_CALL,
    OP_FUNCTION_END, OP_FUNCTION_PARAMETER, OP_GROUP_DECORATE, OP_GROUP_MEMBER_DECORATE,
    OP_IMAGE_SAMPLE_IMPLICIT_LOD, OP_LABEL, OP_LINE, OP_LOAD, OP_MEMBER_DECORATE, OP_MEMBER_NAME,
    OP_MEMORY_MODEL, OP_NAME, OP_NOP, OP_PHI, OP_RETURN, OP_RETURN_VALUE, OP_SOURCE,
    OP_SPEC_CONSTANT_FALSE, OP_SPEC_CONSTANT_TRUE, OP_STORE, OP_SWITCH, OP_TYPE_ARRAY,
    OP_TYPE_BOOL, OP_TYPE_FLOAT, OP_TYPE_FORWARD_POINTER, OP_TYPE_FUNCTION, OP_TYPE_IMAGE,
    OP_TYPE_INT, OP_TYPE_MATRIX, OP_TYPE_OPAQUE, OP_TYPE_POINTER, OP_TYPE_RUNTIME_ARRAY,
    OP_TYPE_SAMPLED_IMAGE, OP_TYPE_SAMPLER, OP_TYPE_STRUCT, OP_TYPE_VECTOR, OP_TYPE_VOID,
    OP_UNDEF, OP_VARIABLE,
};

verus! {

/// One raw instruction record: opcode plus its parameter words.  It exists
/// only between the word reader and the typed decoder.
#[derive(Clone, PartialEq, Eq, Debug)]
pub struct RawInstruction {
    pub opcode: u16,
    pub params: Vec<u32>,
}

/// The header fields that follow the magic number: version pair, generator
/// magic, and the exclusive upper bound on valid ids.
#[derive(Copy, Clone, PartialEq, Eq, Debug)]
pub struct Header {
    pub version: (u8, u8),
    pub generator_id: u32,
    pub id_bound: u32,
}

/// The operand kind named by an `InvalidParamValue` error: which fixed
/// code table the offending word failed to match.
#[derive(Copy, Clone, PartialEq, Eq, Structural, Debug)]
pub enum ParamKind {
    SrcLang,
    ExecutionModel,
    AddressingModel,
    MemoryModel,
    StorageClass,
    Dim,
    ImageFormat,
    AccessQualifier,
    Capability,
    BuiltIn,
    FuncParamAttr,
    FPRoundingMode,
    LinkageType,
    ExecutionMode,
    Decoration,
}

/// Everything that can go wrong while loading a module.
#[derive(Copy, Clone, PartialEq, Eq, Structural, Debug)]
pub enum ParseError {
    /// An id was defined twice; the payload names the id and the index of
    /// the instruction that defined it first.
    DuplicateId(Id, usize),
    /// Reserved for contexts that intentionally reject unknown opcodes;
    /// the instruction decoder itself routes them to `Instruction::Unknown`.
    UnknownOpcode(u16),
    /// A decoded id was at or above the header's declared id bound.
    IdOutOfRange(Id),
    /// An enumeration word did not match any code of the expected table.
    InvalidParamValue(u32, ParamKind),
    /// A non-optional operand was expected but no words remained, or the
    /// byte stream ended inside a word or inside an instruction.
    InstructionTooShort,
    /// The first word matched the magic constant in neither byte order.
    InvalidMagicNumber(u32),
    /// A specialization constant had no `SpecId` decoration at the point
    /// it was indexed.
    MissingSpecId(Id),
    /// A scalar constant referred to a type with no preceding definition.
    MissingConstantType(TypeId),
}

/// The view of a decode result: the typed instruction replaced by its
/// mathematical mirror.
pub open spec fn res_view(r: Result<Instruction, ParseError>) -> Result<
    InstructionView,
    ParseError,
> {
    match r {
        Ok(i) => Ok(i@),
        Err(e) => Err(e),
    }
}

/// A cursor over the parameter words of one raw instruction.
struct InstructionParser<'a> {
    params: &'a Vec<u32>,
    pos: usize,
}

impl<'a> InstructionParser<'a> {
    /// The cursor never passes the end.
    spec fn wf(self) -> bool {
        self.pos <= self.params@.len()
    }

    /// The words not yet consumed.
    spec fn rest(self) -> Seq<u32> {
        self.params@.skip(self.pos as int)
    }

    /// Consumes one word, or fails if none remain.
    fn parse_word(&mut self) -> (r: Result<u32, ParseError>)
        requires
            old(self).wf(),
        ensures
            final(self).wf(),
            final(self).params == old(self).params,
            (match sp_word(old(self).rest()) {
                Ok((w, rest)) => r == Ok::<u32, ParseError>(w) && final(self).rest() == rest,
                Err(e) => r == Err::<u32, ParseError>(e) && *final(self) == *old(self),
            }),
    {
        if self.pos < self.params.len() {
            let w = self.params[self.pos];
            self.pos = self.pos + 1;
            proof {
                assert(old(self).rest()[0] == w);
                assert(old(self).rest().skip(1) =~= self.rest());
            }
            Ok(w)
        } else {
            proof {
                assert(old(self).rest().len() == 0);
            }
            Err(ParseError::InstructionTooShort)
        }
    }

    /// Consumes one word when one remains; absent means the zero sentinel.
    fn parse_opt_word(&mut self) -> (r: u32)
        requires
            old(self).wf(),
        ensures
            final(self).wf(),
            final(self).params == old(self).params,
            r == sp_opt_word(old(self).rest()).0,
            final(self).rest() == sp_opt_word(old(self).rest()).1,
    {
        if self.pos < self.params.len() {
            let w = self.params[self.pos];
            self.pos = self.pos + 1;
            proof {
                assert(old(self).rest()[0] == w);
                assert(old(self).rest().skip(1) =~= self.rest());
            }
            w
        } else {
            proof {
                assert(old(self).rest().len() == 0);
            }
            0
        }
    }

    /// Do any words remain?
    fn has_words(&self) -> (r: bool)
        requires
            self.wf(),
        ensures
            r == (self.rest().len() > 0),
    {
        self.pos < self.params.len()
    }

    /// Consumes words as groups of four bytes, lowest byte first, until a
    /// zero byte is found; the word holding the zero byte is consumed
    /// whole and its remaining bytes are discarded.  Running out of words
    /// without a terminator yields the bytes seen so far.
    fn parse_string(&mut self) -> (r: Vec<u8>)
        requires
            old(self).wf(),
        ensures
            final(self).wf(),
            final(self).params == old(self).params,
            r@ == sp_string(old(self).rest()).0,
            final(self).rest() == sp_string(old(self).rest()).1,
    {
        let ghost orig = self.rest();
        let mut buf: Vec<u8> = Vec::new();
        let mut done = false;
        while !done
            invariant
                self.wf(),
                self.params == old(self).params,
                !done ==> sp_string(orig).0 == buf@ + sp_string(self.rest()).0 && sp_string(
                    orig,
                ).1 == sp_string(self.rest()).1,
                done ==> buf@ == sp_string(orig).0 && self.rest() == sp_string(orig).1,
            decreases self.params@.len() - self.pos + (if done {
                0int
            } else {
                1int
            }),
        {
            if self.pos == self.params.len() {
                proof {
                    assert(self.rest().len() == 0);
                    assert(buf@ + sp_string(self.rest()).0 =~= buf@);
                }
                done = true;
            } else {
                let ghost cur = self.rest();
                let ghost pre = buf@;
                let w = self.params[self.pos];
                self.pos = self.pos + 1;
                proof {
                    assert(cur[0] == w);
                    assert(cur.skip(1) =~= self.rest());
                }
                let b0 = (w & 0xFF) as u8;
                let b1 = ((w >> 8) & 0xFF) as u8;
                let b2 = ((w >> 16) & 0xFF) as u8;
                let b3 = ((w >> 24) & 0xFF) as u8;
                if b0 == 0 {
                    proof {
                        assert(buf@ =~= pre + bytes_before_zero(w));
                    }
                    done = true;
                } else if b1 == 0 {
                    buf.push(b0);
                    proof {
                        assert(buf@ =~= pre + bytes_before_zero(w));
                    }
                    done = true;
                } else if b2 == 0 {
                    buf.push(b0);
                    buf.push(b1);
                    proof {
                        assert(buf@ =~= pre + bytes_before_zero(w));
                    }
                    done = true;
                } else if b3 == 0 {
                    buf.push(b0);
                    buf.push(b1);
                    buf.push(b2);
                    proof {
                        assert(buf@ =~= pre + bytes_before_zero(w));
                    }
                    done = true;
                } else {
                    buf.push(b0);
                    buf.push(b1);
                    buf.push(b2);
                    buf.push(b3);
                    proof {
                        assert(buf@ =~= pre + seq![byte0(w), byte1(w), byte2(w), byte3(w)]);
                        assert(sp_string(orig).0 =~= buf@ + sp_string(self.rest()).0);
                    }
                }
            }
        }
        buf
    }

    /// Consumes a trailing optional string: absent exactly when no words
    /// remain.
    fn parse_opt_string(&mut self) -> (r: Option<Vec<u8>>)
        requires
            old(self).wf(),
        ensures
            final(self).wf(),
            final(self).params == old(self).params,
            opt_bytes_view(r) == sp_opt_string(old(self).rest()).0,
            final(self).rest() == sp_opt_string(old(self).rest()).1,
    {
        if self.has_words() {
            Some(self.parse_string())
        } else {
            None
        }
    }

    /// Consumes every remaining word.
    fn rest_u32s(&mut self) -> (r: Vec<u32>)
        requires
            old(self).wf(),
        ensures
            final(self).wf(),
            final(self).params == old(self).params,
            r@ == old(self).rest(),
            final(self).rest().len() == 0,
    {
        let mut v: Vec<u32> = Vec::new();
        while self.pos < self.params.len()
            invariant
                self.wf(),
                self.params == old(self).params,
                old(self).rest() == v@ + self.rest(),
            decreases self.params@.len() - self.pos,
        {
            let ghost cur = self.rest();
            v.push(self.params[self.pos]);
            self.pos = self.pos + 1;
            proof {
                assert(cur[0] == self.params@[self.pos - 1]);
                assert(cur.skip(1) =~= self.rest());
                assert(v@ + self.rest() =~= old(self).rest());
            }
        }
        proof {
            assert(old(self).rest() =~= v@);
        }
        v
    }

    /// Consumes every remaining word as a value id.
    fn rest_value_ids(&mut self) -> (r: Vec<ValueId>)
        requires
            old(self).wf(),
        ensures
            final(self).wf(),
            final(self).params == old(self).params,
            r@ == old(self).rest().map_values(|w: u32| ValueId(w)),
            final(self).rest().len() == 0,
    {
        let ws = self.rest_u32s();
        let mut v: Vec<ValueId> = Vec::new();
        let mut k: usize = 0;
        while k < ws.len()
            invariant
                k <= ws@.len(),
                v@ == ws@.take(k as int).map_values(|w: u32| ValueId(w)),
            decreases ws@.len() - k,
        {
            v.push(ValueId(ws[k]));
            proof {
                assert(v@ =~= ws@.take(k + 1).map_values(|w: u32| ValueId(w)));
            }
            k = k + 1;
        }
        proof {
            assert(ws@.take(ws@.len() as int) =~= ws@);
        }
        v
    }

    /// Consumes every remaining word as a type id.
    fn rest_type_ids(&mut self) -> (r: Vec<TypeId>)
        requires
            old(self).wf(),
        ensures
            final(self).wf(),
            final(self).params == old(self).params,
            r@ == old(self).rest().map_values(|w: u32| TypeId(w)),
            final(self).rest().len() == 0,
    {
        let ws = self.rest_u32s();
        let mut v: Vec<TypeId> = Vec::new();
        let mut k: usize = 0;
        while k < ws.len()
            invariant
                k <= ws@.len(),
                v@ == ws@.take(k as int).map_values(|w: u32| TypeId(w)),
            decreases ws@.len() - k,
        {
            v.push(TypeId(ws[k]));
            proof {
                assert(v@ =~= ws@.take(k + 1).map_values(|w: u32| TypeId(w)));
            }
            k = k + 1;
        }
        proof {
            assert(ws@.take(ws@.len() as int) =~= ws@);
        }
        v
    }

    /// Consumes every remaining word as an untyped id.
    fn rest_ids(&mut self) -> (r: Vec<Id>)
        requires
            old(self).wf(),
        ensures
            final(self).wf(),
            final(self).params == old(self).params,
            r@ == old(self).rest().map_values(|w: u32| Id(w)),
            final(self).rest().len() == 0,
    {
        let ws = self.rest_u32s();
        let mut v: Vec<Id> = Vec::new();
        let mut k: usize = 0;
        while k < ws.len()
            invariant
                k <= ws@.len(),
                v@ == ws@.take(k as int).map_values(|w: u32| Id(w)),
            decreases ws@.len() - k,
        {
            v.push(Id(ws[k]));
            proof {
                assert(v@ =~= ws@.take(k + 1).map_values(|w: u32| Id(w)));
            }
            k = k + 1;
        }
        proof {
            assert(ws@.take(ws@.len() as int) =~= ws@);
        }
        v
    }

    /// Consumes the remaining words as groups of two; an incomplete final
    /// group is an error.
    fn rest_pairs(&mut self) -> (r: Result<Vec<(u32, u32)>, ParseError>)
        requires
            old(self).wf(),
        ensures
            final(self).wf(),
            final(self).params == old(self).params,
            old(self).rest().len() % 2 == 0 ==> (r matches Ok(v) && v@ == sp_pairs(
                old(self).rest(),
            ) && final(self).rest().len() == 0),
            old(self).rest().len() % 2 != 0 ==> r == Err::<Vec<(u32, u32)>, ParseError>(
                ParseError::InstructionTooShort,
            ),
    {
        let ws = self.rest_u32s();
        if ws.len() % 2 != 0 {
            return Err(ParseError::InstructionTooShort);
        }
        let mut v: Vec<(u32, u32)> = Vec::new();
        let mut k: usize = 0;
        while k + 1 < ws.len()
            invariant
                ws@.len() % 2 == 0,
                k <= ws@.len(),
                k % 2 == 0,
                v@.len() == k / 2,
                forall|j: int|
                    0 <= j < v@.len() ==> v@[j] == (ws@[2 * j], ws@[2 * j + 1]),
            decreases ws@.len() - k,
        {
            v.push((ws[k], ws[k + 1]));
            k = k + 2;
        }
        proof {
            assert(v@ =~= sp_pairs(ws@));
        }
        Ok(v)
    }
}

/// Retypes raw word pairs as id/literal pairs.
fn to_id_u32_pairs(raw: Vec<(u32, u32)>) -> (r: Vec<(Id, u32)>)
    ensures
        r@ == raw@.map_values(|p: (u32, u32)| (Id(p.0), p.1)),
{
    let mut v: Vec<(Id, u32)> = Vec::new();
    let mut k: usize = 0;
    while k < raw.len()
        invariant
            k <= raw@.len(),
            v@ == raw@.take(k as int).map_values(|p: (u32, u32)| (Id(p.0), p.1)),
        decreases raw@.len() - k,
    {
        v.push((Id(raw[k].0), raw[k].1));
        proof {
            assert(v@ =~= raw@.take(k + 1).map_values(|p: (u32, u32)| (Id(p.0), p.1)));
        }
        k = k + 1;
    }
    proof {
        assert(raw@.take(raw@.len() as int) =~= raw@);
    }
    v
}

/// Retypes raw word pairs as literal/id pairs.
fn to_u32_id_pairs(raw: Vec<(u32, u32)>) -> (r: Vec<(u32, Id)>)
    ensures
        r@ == raw@.map_values(|p: (u32, u32)| (p.0, Id(p.1))),
{
    let mut v: Vec<(u32, Id)> = Vec::new();
    let mut k: usize = 0;
    while k < raw.len()
        invariant
            k <= raw@.len(),
            v@ == raw@.take(k as int).map_values(|p: (u32, u32)| (p.0, Id(p.1))),
        decreases raw@.len() - k,
    {
        v.push((raw[k].0, Id(raw[k].1)));
        proof {
            assert(v@ =~= raw@.take(k + 1).map_values(|p: (u32, u32)| (p.0, Id(p.1))));
        }
        k = k + 1;
    }
    proof {
        assert(raw@.take(raw@.len() as int) =~= raw@);
    }
    v
}

/// Retypes raw word pairs as value-id pairs.
fn to_value_id_pairs(raw: Vec<(u32, u32)>) -> (r: Vec<(ValueId, ValueId)>)
    ensures
        r@ == raw@.map_values(|p: (u32, u32)| (ValueId(p.0), ValueId(p.1))),
{
    let mut v: Vec<(ValueId, ValueId)> = Vec::new();
    let mut k: usize = 0;
    while k < raw.len()
        invariant
            k <= raw@.len(),
            v@ == raw@.take(k as int).map_values(|p: (u32, u32)| (ValueId(p.0), ValueId(p.1))),
        decreases raw@.len() - k,
    {
        v.push((ValueId(raw[k].0), ValueId(raw[k].1)));
        proof {
            assert(v@ =~= raw@.take(k + 1).map_values(|p: (u32, u32)| (ValueId(p.0), ValueId(p.1))));
        }
        k = k + 1;
    }
    proof {
        assert(raw@.take(raw@.len() as int) =~= raw@);
    }
    v
}

impl<'a> InstructionParser<'a> {
    /// Consumes the value ids that a flag word announces, one per set
    /// flag from canonical position `k` on.
    fn parse_img_values(&mut self, bits: u32, k: usize) -> (r: Result<Vec<ValueId>, ParseError>)
        requires
            old(self).wf(),
            k <= 8,
        ensures
            final(self).wf(),
            final(self).params == old(self).params,
            (match sp_img_values(old(self).rest(), bits, k as int) {
                Ok((vs, rest)) => (r matches Ok(v) && v@ == vs) && final(self).rest() == rest,
                Err(e) => r == Err::<Vec<ValueId>, ParseError>(e),
            }),
        decreases 8 - k,
    {
        if k >= 8 {
            let v: Vec<ValueId> = Vec::new();
            proof {
                assert(v@ =~= Seq::<ValueId>::empty());
            }
            Ok(v)
        } else if bits & ImageOperands::flag_at(k) != 0 {
            let w = match self.parse_word() {
                Ok(w) => w,
                Err(e) => return Err(e),
            };
            let mut v = match self.parse_img_values(bits, k + 1) {
                Ok(v) => v,
                Err(e) => return Err(e),
            };
            let ghost vr = v@;
            v.insert(0, ValueId(w));
            proof {
                vr.insert_ensures(0, ValueId(w));
                assert(v@ =~= seq![ValueId(w)] + vr);
            }
            Ok(v)
        } else {
            self.parse_img_values(bits, k + 1)
        }
    }

    /// Consumes an image-operand payload: absent entirely when no words
    /// remain, else the flag word followed by one value id per set flag.
    fn parse_image_operands(&mut self) -> (r: Result<ImageOperands, ParseError>)
        requires
            old(self).wf(),
        ensures
            final(self).wf(),
            final(self).params == old(self).params,
            (match sp_image_operands(old(self).rest()) {
                Ok((iv, rest)) => (r matches Ok(io) && io@ == iv) && final(self).rest() == rest,
                Err(e) => r == Err::<ImageOperands, ParseError>(e),
            }),
    {
        if !self.has_words() {
            let io = ImageOperands::new();
            proof {
                assert(io@ =~= (ImageOperandsView { bits: 0, vals: Seq::<ValueId>::empty() }));
            }
            Ok(io)
        } else {
            let w = self.parse_opt_word();
            let bits = w;
            let values = match self.parse_img_values(bits, 0) {
                Ok(v) => v,
                Err(e) => return Err(e),
            };
            let io = ImageOperands { set: desc::ImageOperands(bits), values };
            proof {
                assert(io@ =~= (ImageOperandsView { bits, vals: values@ }));
            }
            Ok(io)
        }
    }
}

impl<'a> InstructionParser<'a> {
    /// Consumes an execution-mode payload.
    fn parse_exec_mode(&mut self) -> (r: Result<ExecutionMode, ParseError>)
        requires
            old(self).wf(),
        ensures
            final(self).wf(),
            final(self).params == old(self).params,
            (match sp_exec_mode(old(self).rest()) {
                Ok((m, rest)) => r == Ok::<ExecutionMode, ParseError>(m)
                    && final(self).rest() == rest,
                Err(e) => r == Err::<ExecutionMode, ParseError>(e),
            }),
    {
        let w = match self.parse_word() {
            Ok(w) => w,
            Err(e) => return Err(e),
        };
        let tag = match desc::ExecutionMode::from(w) {
            Some(t) => t,
            None => return Err(ParseError::InvalidParamValue(w, ParamKind::ExecutionMode)),
        };
        match tag {
            desc::ExecutionMode::Invocations => {
                let a0 = match self.parse_word() {
                    Ok(w) => w,
                    Err(e) => return Err(e),
                };
                Ok(ExecutionMode::Invocations(a0))
            }
            desc::ExecutionMode::SpacingEqual => Ok(ExecutionMode::SpacingEqual),
            desc::ExecutionMode::SpacingFractionalEven => Ok(ExecutionMode::SpacingFractionalEven),
            desc::ExecutionMode::SpacingFractionalOdd => Ok(ExecutionMode::SpacingFractionalOdd),
            desc::ExecutionMode::VertexOrderCw => Ok(ExecutionMode::VertexOrderCw),
            desc::ExecutionMode::VertexOrderCcw => Ok(ExecutionMode::VertexOrderCcw),
            desc::ExecutionMode::PixelCenterInteger => Ok(ExecutionMode::PixelCenterInteger),
            desc::ExecutionMode::OriginUpperLeft => Ok(ExecutionMode::OriginUpperLeft),
            desc::ExecutionMode::OriginLowerLeft => Ok(ExecutionMode::OriginLowerLeft),
            desc::ExecutionMode::EarlyFragmentTests => Ok(ExecutionMode::EarlyFragmentTests),
            desc::ExecutionMode::PointMode => Ok(ExecutionMode::PointMode),
            desc::ExecutionMode::Xfb => Ok(ExecutionMode::Xfb),
            desc::ExecutionMode::DepthReplacing => Ok(ExecutionMode::DepthReplacing),
            desc::ExecutionMode::DepthGreater => Ok(ExecutionMode::DepthGreater),
            desc::ExecutionMode::DepthLess => Ok(ExecutionMode::DepthLess),
            desc::ExecutionMode::DepthUnchanged => Ok(ExecutionMode::DepthUnchanged),
            desc::ExecutionMode::LocalSize => {
                let a0 = match self.parse_word() {
                    Ok(w) => w,
                    Err(e) => return Err(e),
                };
                let a1 = match self.parse_word() {
                    Ok(w) => w,
                    Err(e) => return Err(e),
                };
                let a2 = match self.parse_word() {
                    Ok(w) => w,
                    Err(e) => return Err(e),
                };
                Ok(ExecutionMode::LocalSize(a0, a1, a2))
            }
            desc::ExecutionMode::LocalSizeHint => {
                let a0 = match self.parse_word() {
                    Ok(w) => w,
                    Err(e) => return Err(e),
                };
                let a1 = match self.parse_word() {
                    Ok(w) => w,
                    Err(e) => return Err(e),
                };
                let a2 = match self.parse_word() {
                    Ok(w) => w,
                    Err(e) => return Err(e),
                };
                Ok(ExecutionMode::LocalSizeHint(a0, a1, a2))
            }
            desc::ExecutionMode::InputPoints => Ok(ExecutionMode::InputPoints),
            desc::ExecutionMode::InputLines => Ok(ExecutionMode::InputLines),
            desc::ExecutionMode::InputLinesAdjacency => Ok(ExecutionMode::InputLinesAdjacency),
            desc::ExecutionMode::Triangles => Ok(ExecutionMode::Triangles),
            desc::ExecutionMode::InputTrianglesAdjacency => Ok(ExecutionMode::InputTrianglesAdjacency),
            desc::ExecutionMode::Quads => Ok(ExecutionMode::Quads),
            desc::ExecutionMode::IsoLines => Ok(ExecutionMode::IsoLines),
            desc::ExecutionMode::OutputVertices => {
                let a0 = match self.parse_word() {
                    Ok(w) => w,
                    Err(e) => return Err(e),
                };
                Ok(ExecutionMode::OutputVertices(a0))
            }
            desc::ExecutionMode::OutputPoints => Ok(ExecutionMode::OutputPoints),
            desc::ExecutionMode::OutputLineStrip => Ok(ExecutionMode::OutputLineStrip),
            desc::ExecutionMode::OutputTriangleStrip => Ok(ExecutionMode::OutputTriangleStrip),
            desc::ExecutionMode::VecTypeHint => {
                let a0 = match self.parse_word() {
                    Ok(w) => w,
                    Err(e) => return Err(e),
                };
                Ok(ExecutionMode::VecTypeHint(a0))
            }
            desc::ExecutionMode::ContractionOff => Ok(ExecutionMode::ContractionOff),
        }
    }

    /// Consumes a decoration payload.
    fn parse_decoration(&mut self) -> (r: Result<Decoration, ParseError>)
        requires
            old(self).wf(),
        ensures
            final(self).wf(),
            final(self).params == old(self).params,
            (match sp_decoration(old(self).rest()) {
                Ok((d, rest)) => (r matches Ok(x) && x@ == d) && final(self).rest()
                    == rest,
                Err(e) => r == Err::<Decoration, ParseError>(e),
            }),
    {
        let w = match self.parse_word() {
            Ok(w) => w,
            Err(e) => return Err(e),
        };
        let tag = match desc::Decoration::from(w) {
            Some(t) => t,
            None => return Err(ParseError::InvalidParamValue(w, ParamKind::Decoration)),
        };
        match tag {
            desc::Decoration::RelaxedPrecision => Ok(Decoration::RelaxedPrecision),
            desc::Decoration::SpecId => {
                let n = match self.parse_word() {
                    Ok(w) => w,
                    Err(e) => return Err(e),
                };
                Ok(Decoration::SpecId(n))
            }
            desc::Decoration::Block => Ok(Decoration::Block),
            desc::Decoration::BufferBlock => Ok(Decoration::BufferBlock),
            desc::Decoration::RowMajor => Ok(Decoration::RowMajor),
            desc::Decoration::ColMajor => Ok(Decoration::ColMajor),
            desc::Decoration::ArrayStride => {
                let n = match self.parse_word() {
                    Ok(w) => w,
                    Err(e) => return Err(e),
                };
                Ok(Decoration::ArrayStride(n))
            }
            desc::Decoration::MatrixStride => {
                let n = match self.parse_word() {
                    Ok(w) => w,
                    Err(e) => return Err(e),
                };
                Ok(Decoration::MatrixStride(n))
            }
            desc::Decoration::GLSLShared => Ok(Decoration::GLSLShared),
            desc::Decoration::GLSLPacked => Ok(Decoration::GLSLPacked),
            desc::Decoration::CPacked => Ok(Decoration::CPacked),
            desc::Decoration::BuiltIn => {
                let w1 = match self.parse_word() {
                    Ok(w) => w,
                    Err(e) => return Err(e),
                };
                let x = match desc::BuiltIn::from(w1) {
                    Some(t) => t,
                    None => return Err(ParseError::InvalidParamValue(w1, ParamKind::BuiltIn)),
                };
                Ok(Decoration::BuiltIn(x))
            }
            desc::Decoration::NoPerspective => Ok(Decoration::NoPerspective),
            desc::Decoration::Flat => Ok(Decoration::Flat),
            desc::Decoration::Patch => Ok(Decoration::Patch),
            desc::Decoration::Centroid => Ok(Decoration::Centroid),
            desc::Decoration::Sample => Ok(Decoration::Sample),
            desc::Decoration::Invariant => Ok(Decoration::Invariant),
            desc::Decoration::Restrict => Ok(Decoration::Restrict),
            desc::Decoration::Aliased => Ok(Decoration::Aliased),
            desc::Decoration::Volatile => Ok(Decoration::Volatile),
            desc::Decoration::Constant => Ok(Decoration::Constant),
            desc::Decoration::Coherent => Ok(Decoration::Coherent),
            desc::Decoration::NonWritable => Ok(Decoration::NonWritable),
            desc::Decoration::NonReadable => Ok(Decoration::NonReadable),
            desc::Decoration::Uniform => Ok(Decoration::Uniform),
            desc::Decoration::SaturatedConversion => Ok(Decoration::SaturatedConversion),
            desc::Decoration::Stream => {
                let n = match self.parse_word() {
                    Ok(w) => w,
                    Err(e) => return Err(e),
                };
                Ok(Decoration::Stream(n))
            }
            desc::Decoration::Location => {
                let n = match self.parse_word() {
                    Ok(w) => w,
                    Err(e) => return Err(e),
                };
                Ok(Decoration::Location(n))
            }
            desc::Decoration::Component => {
                let n = match self.parse_word() {
                    Ok(w) => w,
                    Err(e) => return Err(e),
                };
                Ok(Decoration::Component(n))
            }
            desc::Decoration::Index => {
                let n = match self.parse_word() {
                    Ok(w) => w,
                    Err(e) => return Err(e),
                };
                Ok(Decoration::Index(n))
            }
            desc::Decoration::Binding => {
                let n = match self.parse_word() {
                    Ok(w) => w,
                    Err(e) => return Err(e),
                };
                Ok(Decoration::Binding(n))
            }
            desc::Decoration::DescriptorSet => {
                let n = match self.parse_word() {
                    Ok(w) => w,
                    Err(e) => return Err(e),
                };
                Ok(Decoration::DescriptorSet(n))
            }
            desc::Decoration::Offset => {
                let n = match self.parse_word() {
                    Ok(w) => w,
                    Err(e) => return Err(e),
                };
                Ok(Decoration::Offset(n))
            }
            desc::Decoration::XfbBuffer => {
                let n = match self.parse_word() {
                    Ok(w) => w,
                    Err(e) => return Err(e),
                };
                Ok(Decoration::XfbBuffer(n))
            }
            desc::Decoration::XfbStride => {
                let n = match self.parse_word() {
                    Ok(w) => w,
                    Err(e) => return Err(e),
                };
                Ok(Decoration::XfbStride(n))
            }
            desc::Decoration::FuncParamAttr => {
                let w1 = match self.parse_word() {
                    Ok(w) => w,
                    Err(e) => return Err(e),
                };
                let x = match desc::FuncParamAttr::from(w1) {
                    Some(t) => t,
                    None => return Err(ParseError::InvalidParamValue(w1, ParamKind::FuncParamAttr)),
                };
                Ok(Decoration::FuncParamAttr(x))
            }
            desc::Decoration::FPRoundingMode => {
                let w1 = match self.parse_word() {
                    Ok(w) => w,
                    Err(e) => return Err(e),
                };
                let x = match desc::FPRoundingMode::from(w1) {
                    Some(t) => t,
                    None => return Err(ParseError::InvalidParamValue(w1, ParamKind::FPRoundingMode)),
                };
                Ok(Decoration::FPRoundingMode(x))
            }
            desc::Decoration::FPFastMathMode => {
                let b = match self.parse_word() {
                    Ok(w) => w,
                    Err(e) => return Err(e),
                };
                Ok(Decoration::FPFastMathMode(desc::FPFastMathMode(b)))
            }
            desc::Decoration::LinkageAttributes => {
                let name = self.parse_string();
                let w1 = match self.parse_word() {
                    Ok(w) => w,
                    Err(e) => return Err(e),
                };
                let ty = match desc::LinkageType::from(w1) {
                    Some(t) => t,
                    None => return Err(ParseError::InvalidParamValue(w1, ParamKind::LinkageType)),
                };
                Ok(Decoration::LinkageAttributes(name, ty))
            }
            desc::Decoration::NoContraction => Ok(Decoration::NoContraction),
            desc::Decoration::InputAttachmentIndex => {
                let n = match self.parse_word() {
                    Ok(w) => w,
                    Err(e) => return Err(e),
                };
                Ok(Decoration::InputAttachmentIndex(n))
            }
            desc::Decoration::Alignment => {
                let n = match self.parse_word() {
                    Ok(w) => w,
                    Err(e) => return Err(e),
                };
                Ok(Decoration::Alignment(n))
            }
        }
    }
}

fn dec_nop(params: &Vec<u32>) -> (r: Result<Instruction, ParseError>)
    ensures
        res_view(r) == sp_dec_nop(params@),
{
    Ok(Instruction::Nop)
}

fn dec_undef(params: &Vec<u32>) -> (r: Result<Instruction, ParseError>)
    ensures
        res_view(r) == sp_dec_undef(params@),
{
    let mut p = InstructionParser { params, pos: 0 };
    let w0 = match p.parse_word() {
        Ok(w) => w,
        Err(e) => return Err(e),
    };
    let result_type = TypeId(w0);
    let w1 = match p.parse_word() {
        Ok(w) => w,
        Err(e) => return Err(e),
    };
    let result_id = ResultId(w1);
    Ok(Instruction::Undef {
        result_type,
        result_id,
    })
}

fn dec_source(params: &Vec<u32>) -> (r: Result<Instruction, ParseError>)
    ensures
        res_view(r) == sp_dec_source(params@),
{
    let mut p = InstructionParser { params, pos: 0 };
    let w0 = match p.parse_word() {
        Ok(w) => w,
        Err(e) => return Err(e),
    };
    let src_lang = match desc::SrcLang::from(w0) {
        Some(x) => x,
        None => return Err(ParseError::InvalidParamValue(w0, ParamKind::SrcLang)),
    };
    let version = match p.parse_word() {
        Ok(w) => w,
        Err(e) => return Err(e),
    };
    let w2 = p.parse_opt_word();
    let file = Id(w2);
    let source = p.parse_opt_string();
    Ok(Instruction::Source {
        src_lang,
        version,
        file,
        source,
    })
}

fn dec_name(params: &Vec<u32>) -> (r: Result<Instruction, ParseError>)
    ensures
        res_view(r) == sp_dec_name(params@),
{
    let mut p = InstructionParser { params, pos: 0 };
    let w0 = match p.parse_word() {
        Ok(w) => w,
        Err(e) => return Err(e),
    };
    let target = Id(w0);
    let name = p.parse_string();
    Ok(Instruction::Name {
        target,
        name,
    })
}

fn dec_member_name(params: &Vec<u32>) -> (r: Result<Instruction, ParseError>)
    ensures
        res_view(r) == sp_dec_member_name(params@),
{
    let mut p = InstructionParser { params, pos: 0 };
    let w0 = match p.parse_word() {
        Ok(w) => w,
        Err(e) => return Err(e),
    };
    let target = Id(w0);
    let member = match p.parse_word() {
        Ok(w) => w,
        Err(e) => return Err(e),
    };
    let name = p.parse_string();
    Ok(Instruction::MemberName {
        target,
        member,
        name,
    })
}

fn dec_line(params: &Vec<u32>) -> (r: Result<Instruction, ParseError>)
    ensures
        res_view(r) == sp_dec_line(params@),
{
    let mut p = InstructionParser { params, pos: 0 };
    let w0 = match p.parse_word() {
        Ok(w) => w,
        Err(e) => return Err(e),
    };
    let file = Id(w0);
    let line = match p.parse_word() {
        Ok(w) => w,
        Err(e) => return Err(e),
    };
    let column = match p.parse_word() {
        Ok(w) => w,
        Err(e) => return Err(e),
    };
    Ok(Instruction::Line {
        file,
        line,
        column,
    })
}

fn dec_memory_model(params: &Vec<u32>) -> (r: Result<Instruction, ParseError>)
    ensures
        res_view(r) == sp_dec_memory_model(params@),
{
    let mut p = InstructionParser { params, pos: 0 };
    let w0 = match p.parse_word() {
        Ok(w) => w,
        Err(e) => return Err(e),
    };
    let addressing_model = match desc::AddressingModel::from(w0) {
        Some(x) => x,
        None => return Err(ParseError::InvalidParamValue(w0, ParamKind::AddressingModel)),
    };
    let w1 = match p.parse_word() {
        Ok(w) => w,
        Err(e) => return Err(e),
    };
    let memory_model = match desc::MemoryModel::from(w1) {
        Some(x) => x,
        None => return Err(ParseError::InvalidParamValue(w1, ParamKind::MemoryModel)),
    };
    Ok(Instruction::MemoryModel {
        addressing_model,
        memory_model,
    })
}

fn dec_entry_point(params: &Vec<u32>) -> (r: Result<Instruction, ParseError>)
    ensures
        res_view(r) == sp_dec_entry_point(params@),
{
    let mut p = InstructionParser { params, pos: 0 };
    let w0 = match p.parse_word() {
        Ok(w) => w,
        Err(e) => return Err(e),
    };
    let execution_model = match desc::ExecutionModel::from(w0) {
        Some(x) => x,
        None => return Err(ParseError::InvalidParamValue(w0, ParamKind::ExecutionModel)),
    };
    let w1 = match p.parse_word() {
        Ok(w) => w,
        Err(e) => return Err(e),
    };
    let func = ValueId(w1);
    let name = p.parse_string();
    let interface = p.rest_value_ids();
    Ok(Instruction::EntryPoint {
        execution_model,
        func,
        name,
        interface,
    })
}

fn dec_execution_mode(params: &Vec<u32>) -> (r: Result<Instruction, ParseError>)
    ensures
        res_view(r) == sp_dec_execution_mode(params@),
{
    let mut p = InstructionParser { params, pos: 0 };
    let w0 = match p.parse_word() {
        Ok(w) => w,
        Err(e) => return Err(e),
    };
    let target = ValueId(w0);
    let mode = match p.parse_exec_mode() {
        Ok(m) => m,
        Err(e) => return Err(e),
    };
    Ok(Instruction::ExecutionMode {
        target,
        mode,
    })
}

fn dec_capability(params: &Vec<u32>) -> (r: Result<Instruction, ParseError>)
    ensures
        res_view(r) == sp_dec_capability(params@),
{
    let mut p = InstructionParser { params, pos: 0 };
    let w0 = match p.parse_word() {
        Ok(w) => w,
        Err(e) => return Err(e),
    };
    let capability = match desc::Capability::from(w0) {
        Some(x) => x,
        None => return Err(ParseError::InvalidParamValue(w0, ParamKind::Capability)),
    };
    Ok(Instruction::Capability {
        capability,
    })
}

fn dec_type_void(params: &Vec<u32>) -> (r: Result<Instruction, ParseError>)
    ensures
        res_view(r) == sp_dec_type_void(params@),
{
    let mut p = InstructionParser { params, pos: 0 };
    let w0 = match p.parse_word() {
        Ok(w) => w,
        Err(e) => return Err(e),
    };
    let result_type = TypeId(w0);
    Ok(Instruction::TypeVoid {
        result_type,
    })
}

fn dec_type_bool(params: &Vec<u32>) -> (r: Result<Instruction, ParseError>)
    ensures
        res_view(r) == sp_dec_type_bool(params@),
{
    let mut p = InstructionParser { params, pos: 0 };
    let w0 = match p.parse_word() {
        Ok(w) => w,
        Err(e) => return Err(e),
    };
    let result_type = TypeId(w0);
    Ok(Instruction::TypeBool {
        result_type,
    })
}

fn dec_type_int(params: &Vec<u32>) -> (r: Result<Instruction, ParseError>)
    ensures
        res_view(r) == sp_dec_type_int(params@),
{
    let mut p = InstructionParser { params, pos: 0 };
    let w0 = match p.parse_word() {
        Ok(w) => w,
        Err(e) => return Err(e),
    };
    let result_type = TypeId(w0);
    let width = match p.parse_word() {
        Ok(w) => w,
        Err(e) => return Err(e),
    };
    let w2 = match p.parse_word() {
        Ok(w) => w,
        Err(e) => return Err(e),
    };
    let signed = w2 != 0;
    Ok(Instruction::TypeInt {
        result_type,
        width,
        signed,
    })
}

fn dec_type_float(params: &Vec<u32>) -> (r: Result<Instruction, ParseError>)
    ensures
        res_view(r) == sp_dec_type_float(params@),
{
    let mut p = InstructionParser { params, pos: 0 };
    let w0 = match p.parse_word() {
        Ok(w) => w,
        Err(e) => return Err(e),
    };
    let result_type = TypeId(w0);
    let width = match p.parse_word() {
        Ok(w) => w,
        Err(e) => return Err(e),
    };
    Ok(Instruction::TypeFloat {
        result_type,
        width,
    })
}

fn dec_type_vector(params: &Vec<u32>) -> (r: Result<Instruction, ParseError>)
    ensures
        res_view(r) == sp_dec_type_vector(params@),
{
    let mut p = InstructionParser { params, pos: 0 };
    let w0 = match p.parse_word() {
        Ok(w) => w,
        Err(e) => return Err(e),
    };
    let result_type = TypeId(w0);
    let w1 = match p.parse_word() {
        Ok(w) => w,
        Err(e) => return Err(e),
    };
    let type_id = TypeId(w1);
    let len = match p.parse_word() {
        Ok(w) => w,
        Err(e) => return Err(e),
    };
    Ok(Instruction::TypeVector {
        result_type,
        type_id,
        len,
    })
}

fn dec_type_matrix(params: &Vec<u32>) -> (r: Result<Instruction, ParseError>)
    ensures
        res_view(r) == sp_dec_type_matrix(params@),
{
    let mut p = InstructionParser { params, pos: 0 };
    let w0 = match p.parse_word() {
        Ok(w) => w,
        Err(e) => return Err(e),
    };
    let result_type = TypeId(w0);
    let w1 = match p.parse_word() {
        Ok(w) => w,
        Err(e) => return Err(e),
    };
    let type_id = TypeId(w1);
    let cols = match p.parse_word() {
        Ok(w) => w,
        Err(e) => return Err(e),
    };
    Ok(Instruction::TypeMatrix {
        result_type,
        type_id,
        cols,
    })
}

fn dec_type_image(params: &Vec<u32>) -> (r: Result<Instruction, ParseError>)
    ensures
        res_view(r) == sp_dec_type_image(params@),
{
    let mut p = InstructionParser { params, pos: 0 };
    let w0 = match p.parse_word() {
        Ok(w) => w,
        Err(e) => return Err(e),
    };
    let result_type = TypeId(w0);
    let w1 = match p.parse_word() {
        Ok(w) => w,
        Err(e) => return Err(e),
    };
    let type_id = TypeId(w1);
    let w2 = match p.parse_word() {
        Ok(w) => w,
        Err(e) => return Err(e),
    };
    let dim = match desc::Dim::from(w2) {
        Some(x) => x,
        None => return Err(ParseError::InvalidParamValue(w2, ParamKind::Dim)),
    };
    let depth = match p.parse_word() {
        Ok(w) => w,
        Err(e) => return Err(e),
    };
    let w4 = match p.parse_word() {
        Ok(w) => w,
        Err(e) => return Err(e),
    };
    let arrayed = w4 != 0;
    let w5 = match p.parse_word() {
        Ok(w) => w,
        Err(e) => return Err(e),
    };
    let multisampled = w5 != 0;
    let sampled = match p.parse_word() {
        Ok(w) => w,
        Err(e) => return Err(e),
    };
    let w7 = match p.parse_word() {
        Ok(w) => w,
        Err(e) => return Err(e),
    };
    let image_format = match desc::ImageFormat::from(w7) {
        Some(x) => x,
        None => return Err(ParseError::InvalidParamValue(w7, ParamKind::ImageFormat)),
    };
    let access_qualifier = if p.has_words() {
        let w8 = match p.parse_word() {
            Ok(w) => w,
            Err(e) => return Err(e),
        };
        match desc::AccessQualifier::from(w8) {
            Some(x) => Some(x),
            None => return Err(ParseError::InvalidParamValue(w8, ParamKind::AccessQualifier)),
        }
    } else {
        None
    };
    Ok(Instruction::TypeImage {
        result_type,
        type_id,
        dim,
        depth,
        arrayed,
        multisampled,
        sampled,
        image_format,
        access_qualifier,
    })
}

fn dec_type_sampler(params: &Vec<u32>) -> (r: Result<Instruction, ParseError>)
    ensures
        res_view(r) == sp_dec_type_sampler(params@),
{
    let mut p = InstructionParser { params, pos: 0 };
    let w0 = match p.parse_word() {
        Ok(w) => w,
        Err(e) => return Err(e),
    };
    let result_type = TypeId(w0);
    Ok(Instruction::TypeSampler {
        result_type,
    })
}

fn dec_type_sampled_image(params: &Vec<u32>) -> (r: Result<Instruction, ParseError>)
    ensures
        res_view(r) == sp_dec_type_sampled_image(params@),
{
    let mut p = InstructionParser { params, pos: 0 };
    let w0 = match p.parse_word() {
        Ok(w) => w,
        Err(e) => return Err(e),
    };
    let result_type = TypeId(w0);
    let w1 = match p.parse_word() {
        Ok(w) => w,
        Err(e) => return Err(e),
    };
    let image = TypeId(w1);
    Ok(Instruction::TypeSampledImage {
        result_type,
        image,
    })
}

fn dec_type_array(params: &Vec<u32>) -> (r: Result<Instruction, ParseError>)
    ensures
        res_view(r) == sp_dec_type_array(params@),
{
    let mut p = InstructionParser { params, pos: 0 };
    let w0 = match p.parse_word() {
        Ok(w) => w,
        Err(e) => return Err(e),
    };
    let result_type = TypeId(w0);
    let w1 = match p.parse_word() {
        Ok(w) => w,
        Err(e) => return Err(e),
    };
    let element = TypeId(w1);
    let w2 = match p.parse_word() {
        Ok(w) => w,
        Err(e) => return Err(e),
    };
    let len = ValueId(w2);
    Ok(Instruction::TypeArray {
        result_type,
        element,
        len,
    })
}

fn dec_type_runtime_array(params: &Vec<u32>) -> (r: Result<Instruction, ParseError>)
    ensures
        res_view(r) == sp_dec_type_runtime_array(params@),
{
    let mut p = InstructionParser { params, pos: 0 };
    let w0 = match p.parse_word() {
        Ok(w) => w,
        Err(e) => return Err(e),
    };
    let result_type = TypeId(w0);
    let w1 = match p.parse_word() {
        Ok(w) => w,
        Err(e) => return Err(e),
    };
    let element = TypeId(w1);
    Ok(Instruction::TypeRuntimeArray {
        result_type,
        element,
    })
}

fn dec_type_struct(params: &Vec<u32>) -> (r: Result<Instruction, ParseError>)
    ensures
        res_view(r) == sp_dec_type_struct(params@),
{
    let mut p = InstructionParser { params, pos: 0 };
    let w0 = match p.parse_word() {
        Ok(w) => w,
        Err(e) => return Err(e),
    };
    let result_type = TypeId(w0);
    let fields = p.rest_type_ids();
    Ok(Instruction::TypeStruct {
        result_type,
        fields,
    })
}

fn dec_type_opaque(params: &Vec<u32>) -> (r: Result<Instruction, ParseError>)
    ensures
        res_view(r) == sp_dec_type_opaque(params@),
{
    let mut p = InstructionParser { params, pos: 0 };
    let w0 = match p.parse_word() {
        Ok(w) => w,
        Err(e) => return Err(e),
    };
    let result_type = TypeId(w0);
    let name = p.parse_string();
    Ok(Instruction::TypeOpaque {
        result_type,
        name,
    })
}

fn dec_type_pointer(params: &Vec<u32>) -> (r: Result<Instruction, ParseError>)
    ensures
        res_view(r) == sp_dec_type_pointer(params@),
{
    let mut p = InstructionParser { params, pos: 0 };
    let w0 = match p.parse_word() {
        Ok(w) => w,
        Err(e) => return Err(e),
    };
    let result_type = TypeId(w0);
    let w1 = match p.parse_word() {
        Ok(w) => w,
        Err(e) => return Err(e),
    };
    let storage_class = match desc::StorageClass::from(w1) {
        Some(x) => x,
        None => return Err(ParseError::InvalidParamValue(w1, ParamKind::StorageClass)),
    };
    let w2 = match p.parse_word() {
        Ok(w) => w,
        Err(e) => return Err(e),
    };
    let pointee = TypeId(w2);
    Ok(Instruction::TypePointer {
        result_type,
        storage_class,
        pointee,
    })
}

fn dec_type_function(params: &Vec<u32>) -> (r: Result<Instruction, ParseError>)
    ensures
        res_view(r) == sp_dec_type_function(params@),
{
    let mut p = InstructionParser { params, pos: 0 };
    let w0 = match p.parse_word() {
        Ok(w) => w,
        Err(e) => return Err(e),
    };
    let result_type = TypeId(w0);
    let w1 = match p.parse_word() {
        Ok(w) => w,
        Err(e) => return Err(e),
    };
    let return_ty = TypeId(w1);
    let params = p.rest_type_ids();
    Ok(Instruction::TypeFunction {
        result_type,
        return_ty,
        params,
    })
}

fn dec_type_forward_pointer(params: &Vec<u32>) -> (r: Result<Instruction, ParseError>)
    ensures
        res_view(r) == sp_dec_type_forward_pointer(params@),
{
    let mut p = InstructionParser { params, pos: 0 };
    let w0 = match p.parse_word() {
        Ok(w) => w,
        Err(e) => return Err(e),
    };
    let type_id = TypeId(w0);
    let w1 = match p.parse_word() {
        Ok(w) => w,
        Err(e) => return Err(e),
    };
    let storage_class = match desc::StorageClass::from(w1) {
        Some(x) => x,
        None => return Err(ParseError::InvalidParamValue(w1, ParamKind::StorageClass)),
    };
    Ok(Instruction::TypeForwardPointer {
        type_id,
        storage_class,
    })
}

fn dec_constant_true(params: &Vec<u32>) -> (r: Result<Instruction, ParseError>)
    ensures
        res_view(r) == sp_dec_constant_true(params@),
{
    let mut p = InstructionParser { params, pos: 0 };
    let w0 = match p.parse_word() {
        Ok(w) => w,
        Err(e) => return Err(e),
    };
    let result_type = TypeId(w0);
    let w1 = match p.parse_word() {
        Ok(w) => w,
        Err(e) => return Err(e),
    };
    let result_id = ResultId(w1);
    Ok(Instruction::ConstantTrue {
        result_type,
        result_id,
    })
}

fn dec_constant_false(params: &Vec<u32>) -> (r: Result<Instruction, ParseError>)
    ensures
        res_view(r) == sp_dec_constant_false(params@),
{
    let mut p = InstructionParser { params, pos: 0 };
    let w0 = match p.parse_word() {
        Ok(w) => w,
        Err(e) => return Err(e),
    };
    let result_type = TypeId(w0);
    let w1 = match p.parse_word() {
        Ok(w) => w,
        Err(e) => return Err(e),
    };
    let result_id = ResultId(w1);
    Ok(Instruction::ConstantFalse {
        result_type,
        result_id,
    })
}

fn dec_constant(params: &Vec<u32>) -> (r: Result<Instruction, ParseError>)
    ensures
        res_view(r) == sp_dec_constant(params@),
{
    let mut p = InstructionParser { params, pos: 0 };
    let w0 = match p.parse_word() {
        Ok(w) => w,
        Err(e) => return Err(e),
    };
    let result_type = TypeId(w0);
    let w1 = match p.parse_word() {
        Ok(w) => w,
        Err(e) => return Err(e),
    };
    let result_id = ResultId(w1);
    let value = p.rest_u32s();
    Ok(Instruction::Constant {
        result_type,
        result_id,
        value,
    })
}

fn dec_constant_composite(params: &Vec<u32>) -> (r: Result<Instruction, ParseError>)
    ensures
        res_view(r) == sp_dec_constant_composite(params@),
{
    let mut p = InstructionParser { params, pos: 0 };
    let w0 = match p.parse_word() {
        Ok(w) => w,
        Err(e) => return Err(e),
    };
    let result_type = TypeId(w0);
    let w1 = match p.parse_word() {
        Ok(w) => w,
        Err(e) => return Err(e),
    };
    let result_id = ResultId(w1);
    let constituents = p.rest_value_ids();
    Ok(Instruction::ConstantComposite {
        result_type,
        result_id,
        constituents,
    })
}

fn dec_constant_null(params: &Vec<u32>) -> (r: Result<Instruction, ParseError>)
    ensures
        res_view(r) == sp_dec_constant_null(params@),
{
    let mut p = InstructionParser { params, pos: 0 };
    let w0 = match p.parse_word() {
        Ok(w) => w,
        Err(e) => return Err(e),
    };
    let result_type = TypeId(w0);
    let w1 = match p.parse_word() {
        Ok(w) => w,
        Err(e) => return Err(e),
    };
    let result_id = ResultId(w1);
    Ok(Instruction::ConstantNull {
        result_type,
        result_id,
    })
}

fn dec_spec_constant_true(params: &Vec<u32>) -> (r: Result<Instruction, ParseError>)
    ensures
        res_view(r) == sp_dec_spec_constant_true(params@),
{
    let mut p = InstructionParser { params, pos: 0 };
    let w0 = match p.parse_word() {
        Ok(w) => w,
        Err(e) => return Err(e),
    };
    let result_type = TypeId(w0);
    let w1 = match p.parse_word() {
        Ok(w) => w,
        Err(e) => return Err(e),
    };
    let result_id = ResultId(w1);
    Ok(Instruction::SpecConstantTrue {
        result_type,
        result_id,
    })
}

fn dec_spec_constant_false(params: &Vec<u32>) -> (r: Result<Instruction, ParseError>)
    ensures
        res_view(r) == sp_dec_spec_constant_false(params@),
{
    let mut p = InstructionParser { params, pos: 0 };
    let w0 = match p.parse_word() {
        Ok(w) => w,
        Err(e) => return Err(e),
    };
    let result_type = TypeId(w0);
    let w1 = match p.parse_word() {
        Ok(w) => w,
        Err(e) => return Err(e),
    };
    let result_id = ResultId(w1);
    Ok(Instruction::SpecConstantFalse {
        result_type,
        result_id,
    })
}

fn dec_function(params: &Vec<u32>) -> (r: Result<Instruction, ParseError>)
    ensures
        res_view(r) == sp_dec_function(params@),
{
    let mut p = InstructionParser { params, pos: 0 };
    let w0 = match p.parse_word() {
        Ok(w) => w,
        Err(e) => return Err(e),
    };
    let result_type = TypeId(w0);
    let w1 = match p.parse_word() {
        Ok(w) => w,
        Err(e) => return Err(e),
    };
    let result_id = ResultId(w1);
    let w2 = match p.parse_word() {
        Ok(w) => w,
        Err(e) => return Err(e),
    };
    let function_control = desc::FunctionControl(w2);
    let w3 = match p.parse_word() {
        Ok(w) => w,
        Err(e) => return Err(e),
    };
    let function_type = TypeId(w3);
    Ok(Instruction::Function {
        result_type,
        result_id,
        function_control,
        function_type,
    })
}

fn dec_function_parameter(params: &Vec<u32>) -> (r: Result<Instruction, ParseError>)
    ensures
        res_view(r) == sp_dec_function_parameter(params@),
{
    let mut p = InstructionParser { params, pos: 0 };
    let w0 = match p.parse_word() {
        Ok(w) => w,
        Err(e) => return Err(e),
    };
    let result_type = TypeId(w0);
    let w1 = match p.parse_word() {
        Ok(w) => w,
        Err(e) => return Err(e),
    };
    let result_id = ResultId(w1);
    Ok(Instruction::FunctionParameter {
        result_type,
        result_id,
    })
}

fn dec_function_end(params: &Vec<u32>) -> (r: Result<Instruction, ParseError>)
    ensures
        res_view(r) == sp_dec_function_end(params@),
{
    Ok(Instruction::FunctionEnd)
}

fn dec_function_call(params: &Vec<u32>) -> (r: Result<Instruction, ParseError>)
    ensures
        res_view(r) == sp_dec_function_call(params@),
{
    let mut p = InstructionParser { params, pos: 0 };
    let w0 = match p.parse_word() {
        Ok(w) => w,
        Err(e) => return Err(e),
    };
    let result_type = TypeId(w0);
    let w1 = match p.parse_word() {
        Ok(w) => w,
        Err(e) => return Err(e),
    };
    let result_id = ResultId(w1);
    let w2 = match p.parse_word() {
        Ok(w) => w,
        Err(e) => return Err(e),
    };
    let function = ValueId(w2);
    let arguments = p.rest_value_ids();
    Ok(Instruction::FunctionCall {
        result_type,
        result_id,
        function,
        arguments,
    })
}

fn dec_variable(params: &Vec<u32>) -> (r: Result<Instruction, ParseError>)
    ensures
        res_view(r) == sp_dec_variable(params@),
{
    let mut p = InstructionParser { params, pos: 0 };
    let w0 = match p.parse_word() {
        Ok(w) => w,
        Err(e) => return Err(e),
    };
    let result_type = TypeId(w0);
    let w1 = match p.parse_word() {
        Ok(w) => w,
        Err(e) => return Err(e),
    };
    let result_id = ResultId(w1);
    let w2 = match p.parse_word() {
        Ok(w) => w,
        Err(e) => return Err(e),
    };
    let storage_class = match desc::StorageClass::from(w2) {
        Some(x) => x,
        None => return Err(ParseError::InvalidParamValue(w2, ParamKind::StorageClass)),
    };
    let w3 = p.parse_opt_word();
    let initializer = ValueId(w3);
    Ok(Instruction::Variable {
        result_type,
        result_id,
        storage_class,
        initializer,
    })
}

fn dec_load(params: &Vec<u32>) -> (r: Result<Instruction, ParseError>)
    ensures
        res_view(r) == sp_dec_load(params@),
{
    let mut p = InstructionParser { params, pos: 0 };
    let w0 = match p.parse_word() {
        Ok(w) => w,
        Err(e) => return Err(e),
    };
    let result_type = TypeId(w0);
    let w1 = match p.parse_word() {
        Ok(w) => w,
        Err(e) => return Err(e),
    };
    let result_id = ResultId(w1);
    let w2 = match p.parse_word() {
        Ok(w) => w,
        Err(e) => return Err(e),
    };
    let pointer = ValueId(w2);
    let w3 = p.parse_opt_word();
    let memory_access = desc::MemoryAccess(w3);
    Ok(Instruction::Load {
        result_type,
        result_id,
        pointer,
        memory_access,
    })
}

fn dec_store(params: &Vec<u32>) -> (r: Result<Instruction, ParseError>)
    ensures
        res_view(r) == sp_dec_store(params@),
{
    let mut p = InstructionParser { params, pos: 0 };
    let w0 = match p.parse_word() {
        Ok(w) => w,
        Err(e) => return Err(e),
    };
    let pointer = ValueId(w0);
    let w1 = match p.parse_word() {
        Ok(w) => w,
        Err(e) => return Err(e),
    };
    let object = ValueId(w1);
    let w2 = p.parse_opt_word();
    let memory_access = desc::MemoryAccess(w2);
    Ok(Instruction::Store {
        pointer,
        object,
        memory_access,
    })
}

fn dec_access_chain(params: &Vec<u32>) -> (r: Result<Instruction, ParseError>)
    ensures
        res_view(r) == sp_dec_access_chain(params@),
{
    let mut p = InstructionParser { params, pos: 0 };
    let w0 = match p.parse_word() {
        Ok(w) => w,
        Err(e) => return Err(e),
    };
    let result_type = TypeId(w0);
    let w1 = match p.parse_word() {
        Ok(w) => w,
        Err(e) => return Err(e),
    };
    let result_id = ResultId(w1);
    let w2 = match p.parse_word() {
        Ok(w) => w,
        Err(e) => return Err(e),
    };
    let base = ValueId(w2);
    let indexes = p.rest_value_ids();
    Ok(Instruction::AccessChain {
        result_type,
        result_id,
        base,
        indexes,
    })
}

fn dec_decorate(params: &Vec<u32>) -> (r: Result<Instruction, ParseError>)
    ensures
        res_view(r) == sp_dec_decorate(params@),
{
    let mut p = InstructionParser { params, pos: 0 };
    let w0 = match p.parse_word() {
        Ok(w) => w,
        Err(e) => return Err(e),
    };
    let target = Id(w0);
    let decoration = match p.parse_decoration() {
        Ok(d) => d,
        Err(e) => return Err(e),
    };
    Ok(Instruction::Decorate {
        target,
        decoration,
    })
}

fn dec_member_decorate(params: &Vec<u32>) -> (r: Result<Instruction, ParseError>)
    ensures
        res_view(r) == sp_dec_member_decorate(params@),
{
    let mut p = InstructionParser { params, pos: 0 };
    let w0 = match p.parse_word() {
        Ok(w) => w,
        Err(e) => return Err(e),
    };
    let structure_type = TypeId(w0);
    let member = match p.parse_word() {
        Ok(w) => w,
        Err(e) => return Err(e),
    };
    let decoration = match p.parse_decoration() {
        Ok(d) => d,
        Err(e) => return Err(e),
    };
    Ok(Instruction::MemberDecorate {
        structure_type,
        member,
        decoration,
    })
}

fn dec_decoration_group(params: &Vec<u32>) -> (r: Result<Instruction, ParseError>)
    ensures
        res_view(r) == sp_dec_decoration_group(params@),
{
    let mut p = InstructionParser { params, pos: 0 };
    let w0 = match p.parse_word() {
        Ok(w) => w,
        Err(e) => return Err(e),
    };
    let result_id = ResultId(w0);
    Ok(Instruction::DecorationGroup {
        result_id,
    })
}

fn dec_group_decorate(params: &Vec<u32>) -> (r: Result<Instruction, ParseError>)
    ensures
        res_view(r) == sp_dec_group_decorate(params@),
{
    let mut p = InstructionParser { params, pos: 0 };
    let w0 = match p.parse_word() {
        Ok(w) => w,
        Err(e) => return Err(e),
    };
    let group = Id(w0);
    let targets = p.rest_ids();
    Ok(Instruction::GroupDecorate {
        group,
        targets,
    })
}

fn dec_group_member_decorate(params: &Vec<u32>) -> (r: Result<Instruction, ParseError>)
    ensures
        res_view(r) == sp_dec_group_member_decorate(params@),
{
    let mut p = InstructionParser { params, pos: 0 };
    let w0 = match p.parse_word() {
        Ok(w) => w,
        Err(e) => return Err(e),
    };
    let group = Id(w0);
    let raw1 = match p.rest_pairs() {
        Ok(v) => v,
        Err(e) => return Err(e),
    };
    let targets = to_id_u32_pairs(raw1);
    Ok(Instruction::GroupMemberDecorate {
        group,
        targets,
    })
}

fn dec_image_sample_implicit_lod(params: &Vec<u32>) -> (r: Result<Instruction, ParseError>)
    ensures
        res_view(r) == sp_dec_image_sample_implicit_lod(params@),
{
    let mut p = InstructionParser { params, pos: 0 };
    let w0 = match p.parse_word() {
        Ok(w) => w,
        Err(e) => return Err(e),
    };
    let result_type = TypeId(w0);
    let w1 = match p.parse_word() {
        Ok(w) => w,
        Err(e) => return Err(e),
    };
    let result_id = ResultId(w1);
    let w2 = match p.parse_word() {
        Ok(w) => w,
        Err(e) => return Err(e),
    };
    let sampled_image = ValueId(w2);
    let w3 = match p.parse_word() {
        Ok(w) => w,
        Err(e) => return Err(e),
    };
    let coordinate = ValueId(w3);
    let image_operands = match p.parse_image_operands() {
        Ok(io) => io,
        Err(e) => return Err(e),
    };
    Ok(Instruction::ImageSampleImplicitLod {
        result_type,
        result_id,
        sampled_image,
        coordinate,
        image_operands,
    })
}

fn dec_phi(params: &Vec<u32>) -> (r: Result<Instruction, ParseError>)
    ensures
        res_view(r) == sp_dec_phi(params@),
{
    let mut p = InstructionParser { params, pos: 0 };
    let w0 = match p.parse_word() {
        Ok(w) => w,
        Err(e) => return Err(e),
    };
    let result_type = TypeId(w0);
    let w1 = match p.parse_word() {
        Ok(w) => w,
        Err(e) => return Err(e),
    };
    let result_id = ResultId(w1);
    let raw2 = match p.rest_pairs() {
        Ok(v) => v,
        Err(e) => return Err(e),
    };
    let variables = to_value_id_pairs(raw2);
    Ok(Instruction::Phi {
        result_type,
        result_id,
        variables,
    })
}

fn dec_label(params: &Vec<u32>) -> (r: Result<Instruction, ParseError>)
    ensures
        res_view(r) == sp_dec_label(params@),
{
    let mut p = InstructionParser { params, pos: 0 };
    let w0 = match p.parse_word() {
        Ok(w) => w,
        Err(e) => return Err(e),
    };
    let result_id = ResultId(w0);
    Ok(Instruction::Label {
        result_id,
    })
}

fn dec_branch(params: &Vec<u32>) -> (r: Result<Instruction, ParseError>)
    ensures
        res_view(r) == sp_dec_branch(params@),
{
    let mut p = InstructionParser { params, pos: 0 };
    let w0 = match p.parse_word() {
        Ok(w) => w,
        Err(e) => return Err(e),
    };
    let target_label = Id(w0);
    Ok(Instruction::Branch {
        target_label,
    })
}

fn dec_branch_conditional(params: &Vec<u32>) -> (r: Result<Instruction, ParseError>)
    ensures
        res_view(r) == sp_dec_branch_conditional(params@),
{
    let mut p = InstructionParser { params, pos: 0 };
    let w0 = match p.parse_word() {
        Ok(w) => w,
        Err(e) => return Err(e),
    };
    let condition = ValueId(w0);
    let w1 = match p.parse_word() {
        Ok(w) => w,
        Err(e) => return Err(e),
    };
    let true_label = Id(w1);
    let w2 = match p.parse_word() {
        Ok(w) => w,
        Err(e) => return Err(e),
    };
    let false_label = Id(w2);
    let weights = p.rest_u32s();
    Ok(Instruction::BranchConditional {
        condition,
        true_label,
        false_label,
        weights,
    })
}

fn dec_switch(params: &Vec<u32>) -> (r: Result<Instruction, ParseError>)
    ensures
        res_view(r) == sp_dec_switch(params@),
{
    let mut p = InstructionParser { params, pos: 0 };
    let w0 = match p.parse_word() {
        Ok(w) => w,
        Err(e) => return Err(e),
    };
    let selector = ValueId(w0);
    let w1 = match p.parse_word() {
        Ok(w) => w,
        Err(e) => return Err(e),
    };
    let default = Id(w1);
    let raw2 = match p.rest_pairs() {
        Ok(v) => v,
        Err(e) => return Err(e),
    };
    let targets = to_u32_id_pairs(raw2);
    Ok(Instruction::Switch {
        selector,
        default,
        targets,
    })
}

fn dec_return(params: &Vec<u32>) -> (r: Result<Instruction, ParseError>)
    ensures
        res_view(r) == sp_dec_return(params@),
{
    Ok(Instruction::Return)
}

fn dec_return_value(params: &Vec<u32>) -> (r: Result<Instruction, ParseError>)
    ensures
        res_view(r) == sp_dec_return_value(params@),
{
    let mut p = InstructionParser { params, pos: 0 };
    let w0 = match p.parse_word() {
        Ok(w) => w,
        Err(e) => return Err(e),
    };
    let value = ValueId(w0);
    Ok(Instruction::ReturnValue {
        value,
    })
}

/// Decodes one raw instruction record into its typed form.  Opcodes
/// outside the known set become `Instruction::Unknown`, preserving the
/// raw words losslessly; a missing non-optional operand or an unknown
/// enumeration word is an error.
pub fn parse_raw_instruction(raw_inst: RawInstruction) -> (r: Result<Instruction, ParseError>)
    ensures
        res_view(r) == sp_inst(raw_inst.opcode, raw_inst.params@),
{
    if raw_inst.opcode == OP_NOP {
        dec_nop(&raw_inst.params)
    } else if raw_inst.opcode == OP_UNDEF {
        dec_undef(&raw_inst.params)
    } else if raw_inst.opcode == OP_SOURCE {
        dec_source(&raw_inst.params)
    } else if raw_inst.opcode == OP_NAME {
        dec_name(&raw_inst.params)
    } else if raw_inst.opcode == OP_MEMBER_NAME {
        dec_member_name(&raw_inst.params)
    } else if raw_inst.opcode == OP_LINE {
        dec_line(&raw_inst.params)
    } else if raw_inst.opcode == OP_MEMORY_MODEL {
        dec_memory_model(&raw_inst.params)
    } else if raw_inst.opcode == OP_ENTRY_POINT {
        dec_entry_point(&raw_inst.params)
    } else if raw_inst.opcode == OP_EXECUTION_MODE {
        dec_execution_mode(&raw_inst.params)
    } else if raw_inst.opcode == OP_CAPABILITY {
        dec_capability(&raw_inst.params)
    } else if raw_inst.opcode == OP_TYPE_VOID {
        dec_type_void(&raw_inst.params)
    } else if raw_inst.opcode == OP_TYPE_BOOL {
        dec_type_bool(&raw_inst.params)
    } else if raw_inst.opcode == OP_TYPE_INT {
        dec_type_int(&raw_inst.params)
    } else if raw_inst.opcode == OP_TYPE_FLOAT {
        dec_type_float(&raw_inst.params)
    } else if raw_inst.opcode == OP_TYPE_VECTOR {
        dec_type_vector(&raw_inst.params)
    } else if raw_inst.opcode == OP_TYPE_MATRIX {
        dec_type_matrix(&raw_inst.params)
    } else if raw_inst.opcode == OP_TYPE_IMAGE {
        dec_type_image(&raw_inst.params)
    } else if raw_inst.opcode == OP_TYPE_SAMPLER {
        dec_type_sampler(&raw_inst.params)
    } else if raw_inst.opcode == OP_TYPE_SAMPLED_IMAGE {
        dec_type_sampled_image(&raw_inst.params)
    } else if raw_inst.opcode == OP_TYPE_ARRAY {
        dec_type_array(&raw_inst.params)
    } else if raw_inst.opcode == OP_TYPE_RUNTIME_ARRAY {
        dec_type_runtime_array(&raw_inst.params)
    } else if raw_inst.opcode == OP_TYPE_STRUCT {
        dec_type_struct(&raw_inst.params)
    } else if raw_inst.opcode == OP_TYPE_OPAQUE {
        dec_type_opaque(&raw_inst.params)
    } else if raw_inst.opcode == OP_TYPE_POINTER {
        dec_type_pointer(&raw_inst.params)
    } else if raw_inst.opcode == OP_TYPE_FUNCTION {
        dec_type_function(&raw_inst.params)
    } else if raw_inst.opcode == OP_TYPE_FORWARD_POINTER {
        dec_type_forward_pointer(&raw_inst.params)
    } else if raw_inst.opcode == OP_CONSTANT_TRUE {
        dec_constant_true(&raw_inst.params)
    } else if raw_inst.opcode == OP_CONSTANT_FALSE {
        dec_constant_false(&raw_inst.params)
    } else if raw_inst.opcode == OP_CONSTANT {
        dec_constant(&raw_inst.params)
    } else if raw_inst.opcode == OP_CONSTANT_COMPOSITE {
        dec_constant_composite(&raw_inst.params)
    } else if raw_inst.opcode == OP_CONSTANT_NULL {
        dec_constant_null(&raw_inst.params)
    } else if raw_inst.opcode == OP_SPEC_CONSTANT_TRUE {
        dec_spec_constant_true(&raw_inst.params)
    } else if raw_inst.opcode == OP_SPEC_CONSTANT_FALSE {
        dec_spec_constant_false(&raw_inst.params)
    } else if raw_inst.opcode == OP_FUNCTION {
        dec_function(&raw_inst.params)
    } else if raw_inst.opcode == OP_FUNCTION_PARAMETER {
        dec_function_parameter(&raw_inst.params)
    } else if raw_inst.opcode == OP_FUNCTION_END {
        dec_function_end(&raw_inst.params)
    } else if raw_inst.opcode == OP_FUNCTION_CALL {
        dec_function_call(&raw_inst.params)
    } else if raw_inst.opcode == OP_VARIABLE {
        dec_variable(&raw_inst.params)
    } else if raw_inst.opcode == OP_LOAD {
        dec_load(&raw_inst.params)
    } else if raw_inst.opcode == OP_STORE {
        dec_store(&raw_inst.params)
    } else if raw_inst.opcode == OP_ACCESS_CHAIN {
        dec_access_chain(&raw_inst.params)
    } else if raw_inst.opcode == OP_DECORATE {
        dec_decorate(&raw_inst.params)
    } else if raw_inst.opcode == OP_MEMBER_DECORATE {
        dec_member_decorate(&raw_inst.params)
    } else if raw_inst.opcode == OP_DECORATION_GROUP {
        dec_decoration_group(&raw_inst.params)
    } else if raw_inst.opcode == OP_GROUP_DECORATE {
        dec_group_decorate(&raw_inst.params)
    } else if raw_inst.opcode == OP_GROUP_MEMBER_DECORATE {
        dec_group_member_decorate(&raw_inst.params)
    } else if raw_inst.opcode == OP_IMAGE_SAMPLE_IMPLICIT_LOD {
        dec_image_sample_implicit_lod(&raw_inst.params)
    } else if raw_inst.opcode == OP_PHI {
        dec_phi(&raw_inst.params)
    } else if raw_inst.opcode == OP_LABEL {
        dec_label(&raw_inst.params)
    } else if raw_inst.opcode == OP_BRANCH {
        dec_branch(&raw_inst.params)
    } else if raw_inst.opcode == OP_BRANCH_CONDITIONAL {
        dec_branch_conditional(&raw_inst.params)
    } else if raw_inst.opcode == OP_SWITCH {
        dec_switch(&raw_inst.params)
    } else if raw_inst.opcode == OP_RETURN {
        dec_return(&raw_inst.params)
    } else if raw_inst.opcode == OP_RETURN_VALUE {
        dec_return_value(&raw_inst.params)
    } else {
        Ok(Instruction::Unknown(raw_inst.opcode, raw_inst.params))
    }
}

} // verus!
