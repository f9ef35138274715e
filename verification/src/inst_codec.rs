//! The instruction-level codec, at the specification level: the canonical
//! parameter words of every known opcode, the decoder that reads them
//! back, and the well-formedness predicate that characterises losslessly
//! encodable instructions.

use vstd::prelude::*;

use crate::codec::{
    has_zero_byte, sp_opt_word, sp_string, sp_word, str_words, word_of, zero_free,
};
use crate::desc;
use crate::desc::{Id, ResultId, TypeId, ValueId};
use crate::instruction::{
    count_flags, flag_bit, DecorationView, ExecutionMode, ImageOperandsView, InstructionView,
    is_single_flag, lemma_count_flags_le,
};
use crate::instruction::{
    OP_ACCESS_CHAIN, OP_BRANCH, OP_BRANCH_CONDITIONAL, OP_CAPABILITY, OP_CONSTANT,
    OP_CONSTANT_COMPOSITE, OP_CONSTANT_FALSE, OP_CONSTANT_NULL, OP_CONSTANT_TRUE, OP_DECORATE,
    OP_DECORATION_GROUP, OP_ENTRY_POINT, OP_EXECUTION_MODE, OP_FUNCTION, OP_FUNCTION_CALL,
    OP_FUNCTION_END, OP_FUNCTION_PARAMETER, OP_GROUP_DECORATE, OP_GROUP_MEMBER_DECORATE,
    OP_IMAGE_SAMPLE_IMPLICIT_LOD, OP_LABEL, OP_LINE, OP_LOAD, OP_MEMBER_DECORATE, OP_MEMBER_NAME,
    OP_MEMORY_MODEL, OP_NAME, OP_NOP, OP_PHI, OP_RETURN, OP_RETURN_VALUE, OP_SOURCE,
    OP_SPEC_CONSTANT_FALSE, OP_SPEC_CONSTANT_TRUE, OP_STORE, OP_SWITCH, OP_TYPE_ARRAY,
    OP_TYPE_BOOL, OP_TYPE_FLOAT, OP_TYPE_FORWARD_POINTER, OP_TYPE_FUNCTION, OP_TYPE_IMAGE,
    OP_TYPE_INT, OP_TYPE_MATRIX, OP_TYPE_OPAQUE, OP_TYPE_POINTER, OP_TYPE_RUNTIME_ARRAY,
    OP_TYPE_SAMPLED_IMAGE, OP_TYPE_SAMPLER, OP_TYPE_STRUCT, OP_TYPE_VECTOR, OP_TYPE_VOID,
    OP_UNDEF, OP_VARIABLE,
};
use crate::instruction::is_known_op;
use crate::parse::{ParamKind, ParseError};

verus! {

// ---------------------------------------------------------------------
// Small operand encoders shared by several opcodes.
// ---------------------------------------------------------------------
// Small operand encoders shared by several opcodes.
// ---------------------------------------------------------------------

/// The word of a boolean operand.
pub open spec fn bool_word(b: bool) -> u32 {
    if b {
        1
    } else {
        0
    }
}

/// The words of an optional id operand: the sentinel zero is omitted
/// entirely, so trailing absent ids take no space.
pub open spec fn opt_id_words(x: u32) -> Seq<u32> {
    if x != 0 {
        seq![x]
    } else {
        seq![]
    }
}

/// The words of an optional trailing string operand.
pub open spec fn opt_str_words(s: Option<Seq<u8>>) -> Seq<u32> {
    match s {
        Some(b) => str_words(b),
        None => seq![],
    }
}

/// The words of an optional trailing access qualifier.
pub open spec fn opt_enum_words(a: Option<desc::AccessQualifier>) -> Seq<u32> {
    match a {
        Some(x) => seq![x.spec_code()],
        None => seq![],
    }
}

/// Decoding an optional trailing string: absent exactly when no words
/// remain.
pub open spec fn sp_opt_string(ws: Seq<u32>) -> (Option<Seq<u8>>, Seq<u32>) {
    if ws.len() == 0 {
        (None, ws)
    } else {
        let (b, r) = sp_string(ws);
        (Some(b), r)
    }
}

// ---------------------------------------------------------------------
// Tuple repeats: groups of two words, repeated to the end.
// ---------------------------------------------------------------------

/// The raw word pairs of an even-length word sequence.
pub open spec fn sp_pairs(ws: Seq<u32>) -> Seq<(u32, u32)> {
    Seq::new((ws.len() / 2) as nat, |k: int| (ws[2 * k], ws[2 * k + 1]))
}

/// The words of a sequence of word pairs, first component first.
pub open spec fn pair_words(ps: Seq<(u32, u32)>) -> Seq<u32>
    decreases ps.len(),
{
    if ps.len() == 0 {
        seq![]
    } else {
        seq![ps[0].0, ps[0].1] + pair_words(ps.skip(1))
    }
}

/// Encoded pairs occupy two words each, in order.
pub proof fn lemma_pair_words(ps: Seq<(u32, u32)>)
    ensures
        pair_words(ps).len() == 2 * ps.len(),
        forall|k: int|
            0 <= k < ps.len() ==> pair_words(ps)[2 * k] == ps[k].0 && pair_words(ps)[2 * k + 1]
                == ps[k].1,
    decreases ps.len(),
{
    if ps.len() > 0 {
        lemma_pair_words(ps.skip(1));
        assert forall|k: int|
            0 <= k < ps.len() implies pair_words(ps)[2 * k] == ps[k].0 && pair_words(ps)[2 * k + 1]
            == ps[k].1 by {
            if k > 0 {
                assert(pair_words(ps)[2 * k] == pair_words(ps.skip(1))[2 * (k - 1)]);
                assert(pair_words(ps)[2 * k + 1] == pair_words(ps.skip(1))[2 * (k - 1) + 1]);
                assert(ps.skip(1)[k - 1] == ps[k]);
            }
        }
    }
}

/// Decoding the encoding of raw pairs gives the pairs back.
pub proof fn lemma_pairs_round_trip(ps: Seq<(u32, u32)>)
    ensures
        pair_words(ps).len() % 2 == 0,
        sp_pairs(pair_words(ps)) == ps,
{
    lemma_pair_words(ps);
    assert(sp_pairs(pair_words(ps)) =~= ps);
}

// ---------------------------------------------------------------------
// Image operands on the wire.
// ---------------------------------------------------------------------

/// The words of an image-operand payload: the flag word, then one value
/// id per set flag, in canonical flag order.  An empty payload still
/// takes one all-zero flag word.
pub open spec fn img_ops_words(io: ImageOperandsView) -> Seq<u32> {
    seq![io.bits] + io.vals.map_values(|v: ValueId| v.0)
}

/// Decoding the value ids that the flag word announces, one per set
/// flag from canonical position `k` on.
pub open spec fn sp_img_values(ws: Seq<u32>, bits: u32, k: int) -> Result<
    (Seq<ValueId>, Seq<u32>),
    ParseError,
>
    decreases 8 - k,
{
    if k >= 8 {
        Ok((seq![], ws))
    } else if bits & flag_bit(k) != 0 {
        match sp_word(ws) {
            Ok((w, r)) => match sp_img_values(r, bits, k + 1) {
                Ok((vs, r2)) => Ok((seq![ValueId(w)] + vs, r2)),
                Err(e) => Err(e),
            },
            Err(e) => Err(e),
        }
    } else {
        sp_img_values(ws, bits, k + 1)
    }
}

/// Decoding an image-operand payload: absent entirely when no words
/// remain; otherwise the flag word kept verbatim, unrecognised bits
/// included, followed by one value id per known set flag.
pub open spec fn sp_image_operands(ws: Seq<u32>) -> Result<
    (ImageOperandsView, Seq<u32>),
    ParseError,
> {
    if ws.len() == 0 {
        Ok((ImageOperandsView { bits: 0, vals: seq![] }, ws))
    } else {
        let bits = ws[0];
        match sp_img_values(ws.skip(1), bits, 0) {
            Ok((vs, r)) => Ok((ImageOperandsView { bits, vals: vs }, r)),
            Err(e) => Err(e),
        }
    }
}

/// The value ids of the flags from position `k` on decode back from
/// their own words.
proof fn lemma_img_values_round_trip(bits: u32, vals: Seq<ValueId>, rest: Seq<u32>, k: int)
    requires
        0 <= k <= 8,
        vals.len() == count_flags(bits, 8) - count_flags(bits, k),
    ensures
        sp_img_values(vals.map_values(|v: ValueId| v.0) + rest, bits, k) == Ok::<_, ParseError>(
            (vals, rest),
        ),
    decreases 8 - k,
{
    lemma_count_flags_le(bits, k, 8);
    let ws = vals.map_values(|v: ValueId| v.0) + rest;
    if k >= 8 {
        assert(vals =~= Seq::<ValueId>::empty());
        assert(ws =~= rest);
    } else if bits & flag_bit(k) != 0 {
        lemma_count_flags_le(bits, k + 1, 8);
        assert(vals.len() >= 1);
        assert(ws[0] == vals[0].0);
        assert(ws.skip(1) =~= vals.skip(1).map_values(|v: ValueId| v.0) + rest);
        lemma_img_values_round_trip(bits, vals.skip(1), rest, k + 1);
        assert(seq![ValueId(vals[0].0)] + vals.skip(1) =~= vals);
    } else {
        lemma_img_values_round_trip(bits, vals, rest, k + 1);
    }
}

/// An encoded image-operand payload decodes to itself, leaving the
/// words that follow it untouched.
pub proof fn lemma_image_operands_round_trip(io: ImageOperandsView, rest: Seq<u32>)
    requires
        io.wf(),
    ensures
        sp_image_operands(img_ops_words(io) + rest) == Ok::<_, ParseError>((io, rest)),
{
    let ws = img_ops_words(io) + rest;
    assert(ws[0] == io.bits);
    assert(ws.skip(1) =~= io.vals.map_values(|v: ValueId| v.0) + rest);
    lemma_img_values_round_trip(io.bits, io.vals, rest, 0);
    assert(sp_image_operands(ws) == Ok::<_, ParseError>((io, rest)));
}

/// The words of an execution-mode payload: the tag word, then the
/// tag-dependent literal operands.
pub open spec fn exec_mode_words(m: ExecutionMode) -> Seq<u32> {
    match m {
        ExecutionMode::Invocations(a0) => seq![desc::ExecutionMode::Invocations.spec_code()] + seq![a0],
        ExecutionMode::SpacingEqual => seq![desc::ExecutionMode::SpacingEqual.spec_code()],
        ExecutionMode::SpacingFractionalEven => seq![desc::ExecutionMode::SpacingFractionalEven.spec_code()],
        ExecutionMode::SpacingFractionalOdd => seq![desc::ExecutionMode::SpacingFractionalOdd.spec_code()],
        ExecutionMode::VertexOrderCw => seq![desc::ExecutionMode::VertexOrderCw.spec_code()],
        ExecutionMode::VertexOrderCcw => seq![desc::ExecutionMode::VertexOrderCcw.spec_code()],
        ExecutionMode::PixelCenterInteger => seq![desc::ExecutionMode::PixelCenterInteger.spec_code()],
        ExecutionMode::OriginUpperLeft => seq![desc::ExecutionMode::OriginUpperLeft.spec_code()],
        ExecutionMode::OriginLowerLeft => seq![desc::ExecutionMode::OriginLowerLeft.spec_code()],
        ExecutionMode::EarlyFragmentTests => seq![desc::ExecutionMode::EarlyFragmentTests.spec_code()],
        ExecutionMode::PointMode => seq![desc::ExecutionMode::PointMode.spec_code()],
        ExecutionMode::Xfb => seq![desc::ExecutionMode::Xfb.spec_code()],
        ExecutionMode::DepthReplacing => seq![desc::ExecutionMode::DepthReplacing.spec_code()],
        ExecutionMode::DepthGreater => seq![desc::ExecutionMode::DepthGreater.spec_code()],
        ExecutionMode::DepthLess => seq![desc::ExecutionMode::DepthLess.spec_code()],
        ExecutionMode::DepthUnchanged => seq![desc::ExecutionMode::DepthUnchanged.spec_code()],
        ExecutionMode::LocalSize(a0, a1, a2) => seq![desc::ExecutionMode::LocalSize.spec_code()] + seq![a0] + seq![a1] + seq![a2],
        ExecutionMode::LocalSizeHint(a0, a1, a2) => seq![desc::ExecutionMode::LocalSizeHint.spec_code()] + seq![a0] + seq![a1] + seq![a2],
        ExecutionMode::InputPoints => seq![desc::ExecutionMode::InputPoints.spec_code()],
        ExecutionMode::InputLines => seq![desc::ExecutionMode::InputLines.spec_code()],
        ExecutionMode::InputLinesAdjacency => seq![desc::ExecutionMode::InputLinesAdjacency.spec_code()],
        ExecutionMode::Triangles => seq![desc::ExecutionMode::Triangles.spec_code()],
        ExecutionMode::InputTrianglesAdjacency => seq![desc::ExecutionMode::InputTrianglesAdjacency.spec_code()],
        ExecutionMode::Quads => seq![desc::ExecutionMode::Quads.spec_code()],
        ExecutionMode::IsoLines => seq![desc::ExecutionMode::IsoLines.spec_code()],
        ExecutionMode::OutputVertices(a0) => seq![desc::ExecutionMode::OutputVertices.spec_code()] + seq![a0],
        ExecutionMode::OutputPoints => seq![desc::ExecutionMode::OutputPoints.spec_code()],
        ExecutionMode::OutputLineStrip => seq![desc::ExecutionMode::OutputLineStrip.spec_code()],
        ExecutionMode::OutputTriangleStrip => seq![desc::ExecutionMode::OutputTriangleStrip.spec_code()],
        ExecutionMode::VecTypeHint(a0) => seq![desc::ExecutionMode::VecTypeHint.spec_code()] + seq![a0],
        ExecutionMode::ContractionOff => seq![desc::ExecutionMode::ContractionOff.spec_code()],
    }
}

/// Decoding an execution-mode payload: the tag word selects how many
/// literal words follow.
pub open spec fn sp_exec_mode(ws: Seq<u32>) -> Result<(ExecutionMode, Seq<u32>), ParseError> {
    match sp_word(ws) {
        Ok((w, r)) => match desc::ExecutionMode::spec_from(w) {
            Some(tag) => match tag {
                desc::ExecutionMode::Invocations => match sp_word(r) {
                    Ok((a0, r1)) => Ok((ExecutionMode::Invocations(a0), r1)),
                    Err(e) => Err(e),
                },
                desc::ExecutionMode::SpacingEqual => Ok((ExecutionMode::SpacingEqual, r)),
                desc::ExecutionMode::SpacingFractionalEven => Ok((ExecutionMode::SpacingFractionalEven, r)),
                desc::ExecutionMode::SpacingFractionalOdd => Ok((ExecutionMode::SpacingFractionalOdd, r)),
                desc::ExecutionMode::VertexOrderCw => Ok((ExecutionMode::VertexOrderCw, r)),
                desc::ExecutionMode::VertexOrderCcw => Ok((ExecutionMode::VertexOrderCcw, r)),
                desc::ExecutionMode::PixelCenterInteger => Ok((ExecutionMode::PixelCenterInteger, r)),
                desc::ExecutionMode::OriginUpperLeft => Ok((ExecutionMode::OriginUpperLeft, r)),
                desc::ExecutionMode::OriginLowerLeft => Ok((ExecutionMode::OriginLowerLeft, r)),
                desc::ExecutionMode::EarlyFragmentTests => Ok((ExecutionMode::EarlyFragmentTests, r)),
                desc::ExecutionMode::PointMode => Ok((ExecutionMode::PointMode, r)),
                desc::ExecutionMode::Xfb => Ok((ExecutionMode::Xfb, r)),
                desc::ExecutionMode::DepthReplacing => Ok((ExecutionMode::DepthReplacing, r)),
                desc::ExecutionMode::DepthGreater => Ok((ExecutionMode::DepthGreater, r)),
                desc::ExecutionMode::DepthLess => Ok((ExecutionMode::DepthLess, r)),
                desc::ExecutionMode::DepthUnchanged => Ok((ExecutionMode::DepthUnchanged, r)),
                desc::ExecutionMode::LocalSize => match sp_word(r) {
                    Ok((a0, r1)) => match sp_word(r1) {
                        Ok((a1, r2)) => match sp_word(r2) {
                            Ok((a2, r3)) => Ok((ExecutionMode::LocalSize(a0, a1, a2), r3)),
                            Err(e) => Err(e),
                        },
                        Err(e) => Err(e),
                    },
                    Err(e) => Err(e),
                },
                desc::ExecutionMode::LocalSizeHint => match sp_word(r) {
                    Ok((a0, r1)) => match sp_word(r1) {
                        Ok((a1, r2)) => match sp_word(r2) {
                            Ok((a2, r3)) => Ok((ExecutionMode::LocalSizeHint(a0, a1, a2), r3)),
                            Err(e) => Err(e),
                        },
                        Err(e) => Err(e),
                    },
                    Err(e) => Err(e),
                },
                desc::ExecutionMode::InputPoints => Ok((ExecutionMode::InputPoints, r)),
                desc::ExecutionMode::InputLines => Ok((ExecutionMode::InputLines, r)),
                desc::ExecutionMode::InputLinesAdjacency => Ok((ExecutionMode::InputLinesAdjacency, r)),
                desc::ExecutionMode::Triangles => Ok((ExecutionMode::Triangles, r)),
                desc::ExecutionMode::InputTrianglesAdjacency => Ok((ExecutionMode::InputTrianglesAdjacency, r)),
                desc::ExecutionMode::Quads => Ok((ExecutionMode::Quads, r)),
                desc::ExecutionMode::IsoLines => Ok((ExecutionMode::IsoLines, r)),
                desc::ExecutionMode::OutputVertices => match sp_word(r) {
                    Ok((a0, r1)) => Ok((ExecutionMode::OutputVertices(a0), r1)),
                    Err(e) => Err(e),
                },
                desc::ExecutionMode::OutputPoints => Ok((ExecutionMode::OutputPoints, r)),
                desc::ExecutionMode::OutputLineStrip => Ok((ExecutionMode::OutputLineStrip, r)),
                desc::ExecutionMode::OutputTriangleStrip => Ok((ExecutionMode::OutputTriangleStrip, r)),
                desc::ExecutionMode::VecTypeHint => match sp_word(r) {
                    Ok((a0, r1)) => Ok((ExecutionMode::VecTypeHint(a0), r1)),
                    Err(e) => Err(e),
                },
                desc::ExecutionMode::ContractionOff => Ok((ExecutionMode::ContractionOff, r)),
            },
            None => Err(ParseError::InvalidParamValue(w, ParamKind::ExecutionMode)),
        },
        Err(e) => Err(e),
    }
}

/// Does a decoration payload hold only zero-free strings?
pub open spec fn wf_decoration(d: DecorationView) -> bool {
    match d {
        DecorationView::LinkageAttributes(name, _) => zero_free(name),
        _ => true,
    }
}

/// The words of a decoration payload: the tag word, then the operands
/// the tag declares.
pub open spec fn decoration_words(d: DecorationView) -> Seq<u32> {
    match d {
        DecorationView::RelaxedPrecision => seq![desc::Decoration::RelaxedPrecision.spec_code()],
        DecorationView::SpecId(n) => seq![desc::Decoration::SpecId.spec_code()] + seq![n],
        DecorationView::Block => seq![desc::Decoration::Block.spec_code()],
        DecorationView::BufferBlock => seq![desc::Decoration::BufferBlock.spec_code()],
        DecorationView::RowMajor => seq![desc::Decoration::RowMajor.spec_code()],
        DecorationView::ColMajor => seq![desc::Decoration::ColMajor.spec_code()],
        DecorationView::ArrayStride(n) => seq![desc::Decoration::ArrayStride.spec_code()] + seq![n],
        DecorationView::MatrixStride(n) => seq![desc::Decoration::MatrixStride.spec_code()] + seq![n],
        DecorationView::GLSLShared => seq![desc::Decoration::GLSLShared.spec_code()],
        DecorationView::GLSLPacked => seq![desc::Decoration::GLSLPacked.spec_code()],
        DecorationView::CPacked => seq![desc::Decoration::CPacked.spec_code()],
        DecorationView::BuiltIn(x) => seq![desc::Decoration::BuiltIn.spec_code()] + seq![x.spec_code()],
        DecorationView::NoPerspective => seq![desc::Decoration::NoPerspective.spec_code()],
        DecorationView::Flat => seq![desc::Decoration::Flat.spec_code()],
        DecorationView::Patch => seq![desc::Decoration::Patch.spec_code()],
        DecorationView::Centroid => seq![desc::Decoration::Centroid.spec_code()],
        DecorationView::Sample => seq![desc::Decoration::Sample.spec_code()],
        DecorationView::Invariant => seq![desc::Decoration::Invariant.spec_code()],
        DecorationView::Restrict => seq![desc::Decoration::Restrict.spec_code()],
        DecorationView::Aliased => seq![desc::Decoration::Aliased.spec_code()],
        DecorationView::Volatile => seq![desc::Decoration::Volatile.spec_code()],
        DecorationView::Constant => seq![desc::Decoration::Constant.spec_code()],
        DecorationView::Coherent => seq![desc::Decoration::Coherent.spec_code()],
        DecorationView::NonWritable => seq![desc::Decoration::NonWritable.spec_code()],
        DecorationView::NonReadable => seq![desc::Decoration::NonReadable.spec_code()],
        DecorationView::Uniform => seq![desc::Decoration::Uniform.spec_code()],
        DecorationView::SaturatedConversion => seq![desc::Decoration::SaturatedConversion.spec_code()],
        DecorationView::Stream(n) => seq![desc::Decoration::Stream.spec_code()] + seq![n],
        DecorationView::Location(n) => seq![desc::Decoration::Location.spec_code()] + seq![n],
        DecorationView::Component(n) => seq![desc::Decoration::Component.spec_code()] + seq![n],
        DecorationView::Index(n) => seq![desc::Decoration::Index.spec_code()] + seq![n],
        DecorationView::Binding(n) => seq![desc::Decoration::Binding.spec_code()] + seq![n],
        DecorationView::DescriptorSet(n) => seq![desc::Decoration::DescriptorSet.spec_code()] + seq![n],
        DecorationView::Offset(n) => seq![desc::Decoration::Offset.spec_code()] + seq![n],
        DecorationView::XfbBuffer(n) => seq![desc::Decoration::XfbBuffer.spec_code()] + seq![n],
        DecorationView::XfbStride(n) => seq![desc::Decoration::XfbStride.spec_code()] + seq![n],
        DecorationView::FuncParamAttr(x) => seq![desc::Decoration::FuncParamAttr.spec_code()] + seq![x.spec_code()],
        DecorationView::FPRoundingMode(x) => seq![desc::Decoration::FPRoundingMode.spec_code()] + seq![x.spec_code()],
        DecorationView::FPFastMathMode(b) => seq![desc::Decoration::FPFastMathMode.spec_code()] + seq![b.0],
        DecorationView::LinkageAttributes(name, ty) => seq![desc::Decoration::LinkageAttributes.spec_code()] + str_words(name) + seq![ty.spec_code()],
        DecorationView::NoContraction => seq![desc::Decoration::NoContraction.spec_code()],
        DecorationView::InputAttachmentIndex(n) => seq![desc::Decoration::InputAttachmentIndex.spec_code()] + seq![n],
        DecorationView::Alignment(n) => seq![desc::Decoration::Alignment.spec_code()] + seq![n],
    }
}

/// Decoding a decoration payload: the tag word selects which operands
/// follow.
pub open spec fn sp_decoration(ws: Seq<u32>) -> Result<(DecorationView, Seq<u32>), ParseError> {
    match sp_word(ws) {
        Ok((w, r)) => match desc::Decoration::spec_from(w) {
            Some(tag) => match tag {
                desc::Decoration::RelaxedPrecision => Ok((DecorationView::RelaxedPrecision, r)),
                desc::Decoration::SpecId => match sp_word(r) {
                    Ok((n, r1)) => Ok((DecorationView::SpecId(n), r1)),
                    Err(e) => Err(e),
                },
                desc::Decoration::Block => Ok((DecorationView::Block, r)),
                desc::Decoration::BufferBlock => Ok((DecorationView::BufferBlock, r)),
                desc::Decoration::RowMajor => Ok((DecorationView::RowMajor, r)),
                desc::Decoration::ColMajor => Ok((DecorationView::ColMajor, r)),
                desc::Decoration::ArrayStride => match sp_word(r) {
                    Ok((n, r1)) => Ok((DecorationView::ArrayStride(n), r1)),
                    Err(e) => Err(e),
                },
                desc::Decoration::MatrixStride => match sp_word(r) {
                    Ok((n, r1)) => Ok((DecorationView::MatrixStride(n), r1)),
                    Err(e) => Err(e),
                },
                desc::Decoration::GLSLShared => Ok((DecorationView::GLSLShared, r)),
                desc::Decoration::GLSLPacked => Ok((DecorationView::GLSLPacked, r)),
                desc::Decoration::CPacked => Ok((DecorationView::CPacked, r)),
                desc::Decoration::BuiltIn => match sp_word(r) {
                    Ok((w1, r1)) => match desc::BuiltIn::spec_from(w1) {
                        Some(x) => Ok((DecorationView::BuiltIn(x), r1)),
                        None => Err(ParseError::InvalidParamValue(w1, ParamKind::BuiltIn)),
                    },
                    Err(e) => Err(e),
                },
                desc::Decoration::NoPerspective => Ok((DecorationView::NoPerspective, r)),
                desc::Decoration::Flat => Ok((DecorationView::Flat, r)),
                desc::Decoration::Patch => Ok((DecorationView::Patch, r)),
                desc::Decoration::Centroid => Ok((DecorationView::Centroid, r)),
                desc::Decoration::Sample => Ok((DecorationView::Sample, r)),
                desc::Decoration::Invariant => Ok((DecorationView::Invariant, r)),
                desc::Decoration::Restrict => Ok((DecorationView::Restrict, r)),
                desc::Decoration::Aliased => Ok((DecorationView::Aliased, r)),
                desc::Decoration::Volatile => Ok((DecorationView::Volatile, r)),
                desc::Decoration::Constant => Ok((DecorationView::Constant, r)),
                desc::Decoration::Coherent => Ok((DecorationView::Coherent, r)),
                desc::Decoration::NonWritable => Ok((DecorationView::NonWritable, r)),
                desc::Decoration::NonReadable => Ok((DecorationView::NonReadable, r)),
                desc::Decoration::Uniform => Ok((DecorationView::Uniform, r)),
                desc::Decoration::SaturatedConversion => Ok((DecorationView::SaturatedConversion, r)),
                desc::Decoration::Stream => match sp_word(r) {
                    Ok((n, r1)) => Ok((DecorationView::Stream(n), r1)),
                    Err(e) => Err(e),
                },
                desc::Decoration::Location => match sp_word(r) {
                    Ok((n, r1)) => Ok((DecorationView::Location(n), r1)),
                    Err(e) => Err(e),
                },
                desc::Decoration::Component => match sp_word(r) {
                    Ok((n, r1)) => Ok((DecorationView::Component(n), r1)),
                    Err(e) => Err(e),
                },
                desc::Decoration::Index => match sp_word(r) {
                    Ok((n, r1)) => Ok((DecorationView::Index(n), r1)),
                    Err(e) => Err(e),
                },
                desc::Decoration::Binding => match sp_word(r) {
                    Ok((n, r1)) => Ok((DecorationView::Binding(n), r1)),
                    Err(e) => Err(e),
                },
                desc::Decoration::DescriptorSet => match sp_word(r) {
                    Ok((n, r1)) => Ok((DecorationView::DescriptorSet(n), r1)),
                    Err(e) => Err(e),
                },
                desc::Decoration::Offset => match sp_word(r) {
                    Ok((n, r1)) => Ok((DecorationView::Offset(n), r1)),
                    Err(e) => Err(e),
                },
                desc::Decoration::XfbBuffer => match sp_word(r) {
                    Ok((n, r1)) => Ok((DecorationView::XfbBuffer(n), r1)),
                    Err(e) => Err(e),
                },
                desc::Decoration::XfbStride => match sp_word(r) {
                    Ok((n, r1)) => Ok((DecorationView::XfbStride(n), r1)),
                    Err(e) => Err(e),
                },
                desc::Decoration::FuncParamAttr => match sp_word(r) {
                    Ok((w1, r1)) => match desc::FuncParamAttr::spec_from(w1) {
                        Some(x) => Ok((DecorationView::FuncParamAttr(x), r1)),
                        None => Err(ParseError::InvalidParamValue(w1, ParamKind::FuncParamAttr)),
                    },
                    Err(e) => Err(e),
                },
                desc::Decoration::FPRoundingMode => match sp_word(r) {
                    Ok((w1, r1)) => match desc::FPRoundingMode::spec_from(w1) {
                        Some(x) => Ok((DecorationView::FPRoundingMode(x), r1)),
                        None => Err(ParseError::InvalidParamValue(w1, ParamKind::FPRoundingMode)),
                    },
                    Err(e) => Err(e),
                },
                desc::Decoration::FPFastMathMode => match sp_word(r) {
                    Ok((b, r1)) => Ok((DecorationView::FPFastMathMode(desc::FPFastMathMode(b)), r1)),
                    Err(e) => Err(e),
                },
                desc::Decoration::LinkageAttributes => {
                    let (name, r1) = sp_string(r);
                    match sp_word(r1) {
                        Ok((w2, r2)) => match desc::LinkageType::spec_from(w2) {
                            Some(ty) => Ok((DecorationView::LinkageAttributes(name, ty), r2)),
                            None => Err(ParseError::InvalidParamValue(w2, ParamKind::LinkageType)),
                        },
                        Err(e) => Err(e),
                    }
                }
                desc::Decoration::NoContraction => Ok((DecorationView::NoContraction, r)),
                desc::Decoration::InputAttachmentIndex => match sp_word(r) {
                    Ok((n, r1)) => Ok((DecorationView::InputAttachmentIndex(n), r1)),
                    Err(e) => Err(e),
                },
                desc::Decoration::Alignment => match sp_word(r) {
                    Ok((n, r1)) => Ok((DecorationView::Alignment(n), r1)),
                    Err(e) => Err(e),
                },
            },
            None => Err(ParseError::InvalidParamValue(w, ParamKind::Decoration)),
        },
        Err(e) => Err(e),
    }
}

/// The canonical parameter words of an instruction: each operand
/// encoded in declaration order, the header word excluded.
pub open spec fn spec_inst_params(v: InstructionView) -> Seq<u32> {
    match v {
        InstructionView::Nop => seq![],
        InstructionView::Undef { result_type, result_id } => seq![result_type.0]
            + seq![result_id.0],
        InstructionView::Source { src_lang, version, file, source } => seq![src_lang.spec_code()]
            + seq![version]
            + opt_id_words(file.0)
            + opt_str_words(source),
        InstructionView::Name { target, name } => seq![target.0]
            + str_words(name),
        InstructionView::MemberName { target, member, name } => seq![target.0]
            + seq![member]
            + str_words(name),
        InstructionView::Line { file, line, column } => seq![file.0]
            + seq![line]
            + seq![column],
        InstructionView::MemoryModel { addressing_model, memory_model } => seq![addressing_model.spec_code()]
            + seq![memory_model.spec_code()],
        InstructionView::EntryPoint { execution_model, func, name, interface } => seq![execution_model.spec_code()]
            + seq![func.0]
            + str_words(name)
            + interface.map_values(|x: ValueId| x.0),
        InstructionView::ExecutionMode { target, mode } => seq![target.0]
            + exec_mode_words(mode),
        InstructionView::Capability { capability } => seq![capability.spec_code()],
        InstructionView::TypeVoid { result_type } => seq![result_type.0],
        InstructionView::TypeBool { result_type } => seq![result_type.0],
        InstructionView::TypeInt { result_type, width, signed } => seq![result_type.0]
            + seq![width]
            + seq![bool_word(signed)],
        InstructionView::TypeFloat { result_type, width } => seq![result_type.0]
            + seq![width],
        InstructionView::TypeVector { result_type, type_id, len } => seq![result_type.0]
            + seq![type_id.0]
            + seq![len],
        InstructionView::TypeMatrix { result_type, type_id, cols } => seq![result_type.0]
            + seq![type_id.0]
            + seq![cols],
        InstructionView::TypeImage { result_type, type_id, dim, depth, arrayed, multisampled, sampled, image_format, access_qualifier } => seq![result_type.0]
            + seq![type_id.0]
            + seq![dim.spec_code()]
            + seq![depth]
            + seq![bool_word(arrayed)]
            + seq![bool_word(multisampled)]
            + seq![sampled]
            + seq![image_format.spec_code()]
            + opt_enum_words(access_qualifier),
        InstructionView::TypeSampler { result_type } => seq![result_type.0],
        InstructionView::TypeSampledImage { result_type, image } => seq![result_type.0]
            + seq![image.0],
        InstructionView::TypeArray { result_type, element, len } => seq![result_type.0]
            + seq![element.0]
            + seq![len.0],
        InstructionView::TypeRuntimeArray { result_type, element } => seq![result_type.0]
            + seq![element.0],
        InstructionView::TypeStruct { result_type, fields } => seq![result_type.0]
            + fields.map_values(|x: TypeId| x.0),
        InstructionView::TypeOpaque { result_type, name } => seq![result_type.0]
            + str_words(name),
        InstructionView::TypePointer { result_type, storage_class, pointee } => seq![result_type.0]
            + seq![storage_class.spec_code()]
            + seq![pointee.0],
        InstructionView::TypeFunction { result_type, return_ty, params } => seq![result_type.0]
            + seq![return_ty.0]
            + params.map_values(|x: TypeId| x.0),
        InstructionView::TypeForwardPointer { type_id, storage_class } => seq![type_id.0]
            + seq![storage_class.spec_code()],
        InstructionView::ConstantTrue { result_type, result_id } => seq![result_type.0]
            + seq![result_id.0],
        InstructionView::ConstantFalse { result_type, result_id } => seq![result_type.0]
            + seq![result_id.0],
        InstructionView::Constant { result_type, result_id, value } => seq![result_type.0]
            + seq![result_id.0]
            + value,
        InstructionView::ConstantComposite { result_type, result_id, constituents } => seq![result_type.0]
            + seq![result_id.0]
            + constituents.map_values(|x: ValueId| x.0),
        InstructionView::ConstantNull { result_type, result_id } => seq![result_type.0]
            + seq![result_id.0],
        InstructionView::SpecConstantTrue { result_type, result_id } => seq![result_type.0]
            + seq![result_id.0],
        InstructionView::SpecConstantFalse { result_type, result_id } => seq![result_type.0]
            + seq![result_id.0],
        InstructionView::Function { result_type, result_id, function_control, function_type } => seq![result_type.0]
            + seq![result_id.0]
            + seq![function_control.0]
            + seq![function_type.0],
        InstructionView::FunctionParameter { result_type, result_id } => seq![result_type.0]
            + seq![result_id.0],
        InstructionView::FunctionEnd => seq![],
        InstructionView::FunctionCall { result_type, result_id, function, arguments } => seq![result_type.0]
            + seq![result_id.0]
            + seq![function.0]
            + arguments.map_values(|x: ValueId| x.0),
        InstructionView::Variable { result_type, result_id, storage_class, initializer } => seq![result_type.0]
            + seq![result_id.0]
            + seq![storage_class.spec_code()]
            + opt_id_words(initializer.0),
        InstructionView::Load { result_type, result_id, pointer, memory_access } => seq![result_type.0]
            + seq![result_id.0]
            + seq![pointer.0]
            + seq![memory_access.0],
        InstructionView::Store { pointer, object, memory_access } => seq![pointer.0]
            + seq![object.0]
            + seq![memory_access.0],
        InstructionView::AccessChain { result_type, result_id, base, indexes } => seq![result_type.0]
            + seq![result_id.0]
            + seq![base.0]
            + indexes.map_values(|x: ValueId| x.0),
        InstructionView::Decorate { target, decoration } => seq![target.0]
            + decoration_words(decoration),
        InstructionView::MemberDecorate { structure_type, member, decoration } => seq![structure_type.0]
            + seq![member]
            + decoration_words(decoration),
        InstructionView::DecorationGroup { result_id } => seq![result_id.0],
        InstructionView::GroupDecorate { group, targets } => seq![group.0]
            + targets.map_values(|x: Id| x.0),
        InstructionView::GroupMemberDecorate { group, targets } => seq![group.0]
            + pair_words(targets.map_values(|x: (Id, u32)| (x.0.0, x.1))),
        InstructionView::ImageSampleImplicitLod { result_type, result_id, sampled_image, coordinate, image_operands } => seq![result_type.0]
            + seq![result_id.0]
            + seq![sampled_image.0]
            + seq![coordinate.0]
            + img_ops_words(image_operands),
        InstructionView::Phi { result_type, result_id, variables } => seq![result_type.0]
            + seq![result_id.0]
            + pair_words(variables.map_values(|x: (ValueId, ValueId)| (x.0.0, x.1.0))),
        InstructionView::Label { result_id } => seq![result_id.0],
        InstructionView::Branch { target_label } => seq![target_label.0],
        InstructionView::BranchConditional { condition, true_label, false_label, weights } => seq![condition.0]
            + seq![true_label.0]
            + seq![false_label.0]
            + weights,
        InstructionView::Switch { selector, default, targets } => seq![selector.0]
            + seq![default.0]
            + pair_words(targets.map_values(|x: (u32, Id)| (x.0, x.1.0))),
        InstructionView::Return => seq![],
        InstructionView::ReturnValue { value } => seq![value.0],
        InstructionView::Unknown(_, ws) => ws,
    }
}

/// Well-formedness: exactly the instructions whose canonical encoding
/// decodes back to themselves.  Strings must be zero-free (a zero byte
/// would read back as the terminator), an optional id that precedes a
/// present optional operand must itself be present, composite payloads
/// must be internally consistent, and `Unknown` must not shadow a
/// known opcode.
pub open spec fn wf_inst(v: InstructionView) -> bool {
    match v {
        InstructionView::Nop => true,
        InstructionView::Undef { .. } => true,
        InstructionView::Source { file, source, .. } => (source matches Some(b) ==> zero_free(b))
            && (source matches Some(_) ==> file.0 != 0),
        InstructionView::Name { name, .. } => zero_free(name),
        InstructionView::MemberName { name, .. } => zero_free(name),
        InstructionView::Line { .. } => true,
        InstructionView::MemoryModel { .. } => true,
        InstructionView::EntryPoint { name, .. } => zero_free(name),
        InstructionView::ExecutionMode { .. } => true,
        InstructionView::Capability { .. } => true,
        InstructionView::TypeVoid { .. } => true,
        InstructionView::TypeBool { .. } => true,
        InstructionView::TypeInt { .. } => true,
        InstructionView::TypeFloat { .. } => true,
        InstructionView::TypeVector { .. } => true,
        InstructionView::TypeMatrix { .. } => true,
        InstructionView::TypeImage { .. } => true,
        InstructionView::TypeSampler { .. } => true,
        InstructionView::TypeSampledImage { .. } => true,
        InstructionView::TypeArray { .. } => true,
        InstructionView::TypeRuntimeArray { .. } => true,
        InstructionView::TypeStruct { .. } => true,
        InstructionView::TypeOpaque { name, .. } => zero_free(name),
        InstructionView::TypePointer { .. } => true,
        InstructionView::TypeFunction { .. } => true,
        InstructionView::TypeForwardPointer { .. } => true,
        InstructionView::ConstantTrue { .. } => true,
        InstructionView::ConstantFalse { .. } => true,
        InstructionView::Constant { .. } => true,
        InstructionView::ConstantComposite { .. } => true,
        InstructionView::ConstantNull { .. } => true,
        InstructionView::SpecConstantTrue { .. } => true,
        InstructionView::SpecConstantFalse { .. } => true,
        InstructionView::Function { .. } => true,
        InstructionView::FunctionParameter { .. } => true,
        InstructionView::FunctionEnd => true,
        InstructionView::FunctionCall { .. } => true,
        InstructionView::Variable { .. } => true,
        InstructionView::Load { .. } => true,
        InstructionView::Store { .. } => true,
        InstructionView::AccessChain { .. } => true,
        InstructionView::Decorate { decoration, .. } => wf_decoration(decoration),
        InstructionView::MemberDecorate { decoration, .. } => wf_decoration(decoration),
        InstructionView::DecorationGroup { .. } => true,
        InstructionView::GroupDecorate { .. } => true,
        InstructionView::GroupMemberDecorate { .. } => true,
        InstructionView::ImageSampleImplicitLod { image_operands, .. } => image_operands.wf(),
        InstructionView::Phi { .. } => true,
        InstructionView::Label { .. } => true,
        InstructionView::Branch { .. } => true,
        InstructionView::BranchConditional { .. } => true,
        InstructionView::Switch { .. } => true,
        InstructionView::Return => true,
        InstructionView::ReturnValue { .. } => true,
        InstructionView::Unknown(op, _) => !is_known_op(op),
    }
}

/// Decoding the parameter words of `Nop`.
pub open spec fn sp_dec_nop(ws: Seq<u32>) -> Result<InstructionView, ParseError> {
    Ok(InstructionView::Nop)
}

/// Decoding the parameter words of `Undef`.
pub open spec fn sp_dec_undef(ws: Seq<u32>) -> Result<InstructionView, ParseError> {
    match sp_word(ws) {
        Ok((w0, r1)) => {
            let result_type = TypeId(w0);
            match sp_word(r1) {
                Ok((w1, r2)) => {
                    let result_id = ResultId(w1);
                    Ok(InstructionView::Undef {
                        result_type,
                        result_id,
                    })
                }
                Err(e) => Err(e),
            }
        }
        Err(e) => Err(e),
    }
}

/// Decoding the parameter words of `Source`.
pub open spec fn sp_dec_source(ws: Seq<u32>) -> Result<InstructionView, ParseError> {
    match sp_word(ws) {
        Ok((w0, r1)) => match desc::SrcLang::spec_from(w0) {
            Some(x0) => {
                let src_lang = x0;
                match sp_word(r1) {
                    Ok((w1, r2)) => {
                        let version = w1;
                        let (w2, r3) = sp_opt_word(r2);
                        let file = Id(w2);
                        let (source, r4) = sp_opt_string(r3);
                        Ok(InstructionView::Source {
                            src_lang,
                            version,
                            file,
                            source,
                        })
                    }
                    Err(e) => Err(e),
                }
            }
            None => Err(ParseError::InvalidParamValue(w0, ParamKind::SrcLang)),
        },
        Err(e) => Err(e),
    }
}

/// Decoding the parameter words of `Name`.
pub open spec fn sp_dec_name(ws: Seq<u32>) -> Result<InstructionView, ParseError> {
    match sp_word(ws) {
        Ok((w0, r1)) => {
            let target = Id(w0);
            let (name, r2) = sp_string(r1);
            Ok(InstructionView::Name {
                target,
                name,
            })
        }
        Err(e) => Err(e),
    }
}

/// Decoding the parameter words of `MemberName`.
pub open spec fn sp_dec_member_name(ws: Seq<u32>) -> Result<InstructionView, ParseError> {
    match sp_word(ws) {
        Ok((w0, r1)) => {
            let target = Id(w0);
            match sp_word(r1) {
                Ok((w1, r2)) => {
                    let member = w1;
                    let (name, r3) = sp_string(r2);
                    Ok(InstructionView::MemberName {
                        target,
                        member,
                        name,
                    })
                }
                Err(e) => Err(e),
            }
        }
        Err(e) => Err(e),
    }
}

/// Decoding the parameter words of `Line`.
pub open spec fn sp_dec_line(ws: Seq<u32>) -> Result<InstructionView, ParseError> {
    match sp_word(ws) {
        Ok((w0, r1)) => {
            let file = Id(w0);
            match sp_word(r1) {
                Ok((w1, r2)) => {
                    let line = w1;
                    match sp_word(r2) {
                        Ok((w2, r3)) => {
                            let column = w2;
                            Ok(InstructionView::Line {
                                file,
                                line,
                                column,
                            })
                        }
                        Err(e) => Err(e),
                    }
                }
                Err(e) => Err(e),
            }
        }
        Err(e) => Err(e),
    }
}

/// Decoding the parameter words of `MemoryModel`.
pub open spec fn sp_dec_memory_model(ws: Seq<u32>) -> Result<InstructionView, ParseError> {
    match sp_word(ws) {
        Ok((w0, r1)) => match desc::AddressingModel::spec_from(w0) {
            Some(x0) => {
                let addressing_model = x0;
                match sp_word(r1) {
                    Ok((w1, r2)) => match desc::MemoryModel::spec_from(w1) {
                        Some(x1) => {
                            let memory_model = x1;
                            Ok(InstructionView::MemoryModel {
                                addressing_model,
                                memory_model,
                            })
                        }
                        None => Err(ParseError::InvalidParamValue(w1, ParamKind::MemoryModel)),
                    },
                    Err(e) => Err(e),
                }
            }
            None => Err(ParseError::InvalidParamValue(w0, ParamKind::AddressingModel)),
        },
        Err(e) => Err(e),
    }
}

/// Decoding the parameter words of `EntryPoint`.
pub open spec fn sp_dec_entry_point(ws: Seq<u32>) -> Result<InstructionView, ParseError> {
    match sp_word(ws) {
        Ok((w0, r1)) => match desc::ExecutionModel::spec_from(w0) {
            Some(x0) => {
                let execution_model = x0;
                match sp_word(r1) {
                    Ok((w1, r2)) => {
                        let func = ValueId(w1);
                        let (name, r3) = sp_string(r2);
                        let interface = r3.map_values(|w: u32| ValueId(w));
                        let r4 = Seq::<u32>::empty();
                        Ok(InstructionView::EntryPoint {
                            execution_model,
                            func,
                            name,
                            interface,
                        })
                    }
                    Err(e) => Err(e),
                }
            }
            None => Err(ParseError::InvalidParamValue(w0, ParamKind::ExecutionModel)),
        },
        Err(e) => Err(e),
    }
}

/// Decoding the parameter words of `ExecutionMode`.
pub open spec fn sp_dec_execution_mode(ws: Seq<u32>) -> Result<InstructionView, ParseError> {
    match sp_word(ws) {
        Ok((w0, r1)) => {
            let target = ValueId(w0);
            match sp_exec_mode(r1) {
                Ok((mode, r2)) => {
                    Ok(InstructionView::ExecutionMode {
                        target,
                        mode,
                    })
                }
                Err(e) => Err(e),
            }
        }
        Err(e) => Err(e),
    }
}

/// Decoding the parameter words of `Capability`.
pub open spec fn sp_dec_capability(ws: Seq<u32>) -> Result<InstructionView, ParseError> {
    match sp_word(ws) {
        Ok((w0, r1)) => match desc::Capability::spec_from(w0) {
            Some(x0) => {
                let capability = x0;
                Ok(InstructionView::Capability {
                    capability,
                })
            }
            None => Err(ParseError::InvalidParamValue(w0, ParamKind::Capability)),
        },
        Err(e) => Err(e),
    }
}

/// Decoding the parameter words of `TypeVoid`.
pub open spec fn sp_dec_type_void(ws: Seq<u32>) -> Result<InstructionView, ParseError> {
    match sp_word(ws) {
        Ok((w0, r1)) => {
            let result_type = TypeId(w0);
            Ok(InstructionView::TypeVoid {
                result_type,
            })
        }
        Err(e) => Err(e),
    }
}

/// Decoding the parameter words of `TypeBool`.
pub open spec fn sp_dec_type_bool(ws: Seq<u32>) -> Result<InstructionView, ParseError> {
    match sp_word(ws) {
        Ok((w0, r1)) => {
            let result_type = TypeId(w0);
            Ok(InstructionView::TypeBool {
                result_type,
            })
        }
        Err(e) => Err(e),
    }
}

/// Decoding the parameter words of `TypeInt`.
pub open spec fn sp_dec_type_int(ws: Seq<u32>) -> Result<InstructionView, ParseError> {
    match sp_word(ws) {
        Ok((w0, r1)) => {
            let result_type = TypeId(w0);
            match sp_word(r1) {
                Ok((w1, r2)) => {
                    let width = w1;
                    match sp_word(r2) {
                        Ok((w2, r3)) => {
                            let signed = w2 != 0;
                            Ok(InstructionView::TypeInt {
                                result_type,
                                width,
                                signed,
                            })
                        }
                        Err(e) => Err(e),
                    }
                }
                Err(e) => Err(e),
            }
        }
        Err(e) => Err(e),
    }
}

/// Decoding the parameter words of `TypeFloat`.
pub open spec fn sp_dec_type_float(ws: Seq<u32>) -> Result<InstructionView, ParseError> {
    match sp_word(ws) {
        Ok((w0, r1)) => {
            let result_type = TypeId(w0);
            match sp_word(r1) {
                Ok((w1, r2)) => {
                    let width = w1;
                    Ok(InstructionView::TypeFloat {
                        result_type,
                        width,
                    })
                }
                Err(e) => Err(e),
            }
        }
        Err(e) => Err(e),
    }
}

/// Decoding the parameter words of `TypeVector`.
pub open spec fn sp_dec_type_vector(ws: Seq<u32>) -> Result<InstructionView, ParseError> {
    match sp_word(ws) {
        Ok((w0, r1)) => {
            let result_type = TypeId(w0);
            match sp_word(r1) {
                Ok((w1, r2)) => {
                    let type_id = TypeId(w1);
                    match sp_word(r2) {
                        Ok((w2, r3)) => {
                            let len = w2;
                            Ok(InstructionView::TypeVector {
                                result_type,
                                type_id,
                                len,
                            })
                        }
                        Err(e) => Err(e),
                    }
                }
                Err(e) => Err(e),
            }
        }
        Err(e) => Err(e),
    }
}

/// Decoding the parameter words of `TypeMatrix`.
pub open spec fn sp_dec_type_matrix(ws: Seq<u32>) -> Result<InstructionView, ParseError> {
    match sp_word(ws) {
        Ok((w0, r1)) => {
            let result_type = TypeId(w0);
            match sp_word(r1) {
                Ok((w1, r2)) => {
                    let type_id = TypeId(w1);
                    match sp_word(r2) {
                        Ok((w2, r3)) => {
                            let cols = w2;
                            Ok(InstructionView::TypeMatrix {
                                result_type,
                                type_id,
                                cols,
                            })
                        }
                        Err(e) => Err(e),
                    }
                }
                Err(e) => Err(e),
            }
        }
        Err(e) => Err(e),
    }
}

/// Decoding the parameter words of `TypeImage`.
pub open spec fn sp_dec_type_image(ws: Seq<u32>) -> Result<InstructionView, ParseError> {
    match sp_word(ws) {
        Ok((w0, r1)) => {
            let result_type = TypeId(w0);
            match sp_word(r1) {
                Ok((w1, r2)) => {
                    let type_id = TypeId(w1);
                    match sp_word(r2) {
                        Ok((w2, r3)) => match desc::Dim::spec_from(w2) {
                            Some(x2) => {
                                let dim = x2;
                                match sp_word(r3) {
                                    Ok((w3, r4)) => {
                                        let depth = w3;
                                        match sp_word(r4) {
                                            Ok((w4, r5)) => {
                                                let arrayed = w4 != 0;
                                                match sp_word(r5) {
                                                    Ok((w5, r6)) => {
                                                        let multisampled = w5 != 0;
                                                        match sp_word(r6) {
                                                            Ok((w6, r7)) => {
                                                                let sampled = w6;
                                                                match sp_word(r7) {
                                                                    Ok((w7, r8)) => match desc::ImageFormat::spec_from(w7) {
                                                                        Some(x7) => {
                                                                            let image_format = x7;
                                                                            if r8.len() == 0 {
                                                                                let access_qualifier = None;
                                                                                let r9 = r8;
                                                                                Ok(InstructionView::TypeImage {
                                                                                    result_type,
                                                                                    type_id,
                                                                                    dim,
                                                                                    depth,
                                                                                    arrayed,
                                                                                    multisampled,
                                                                                    sampled,
                                                                                    image_format,
                                                                                    access_qualifier,
                                                                                })
                                                                            } else {
                                                                                match sp_word(r8) {
                                                                                    Ok((w8, r9)) => match desc::AccessQualifier::spec_from(w8) {
                                                                                        Some(x8) => {
                                                                                            let access_qualifier = Some(x8);
                                                                                            Ok(InstructionView::TypeImage {
                                                                                                result_type,
                                                                                                type_id,
                                                                                                dim,
                                                                                                depth,
                                                                                                arrayed,
                                                                                                multisampled,
                                                                                                sampled,
                                                                                                image_format,
                                                                                                access_qualifier,
                                                                                            })
                                                                                        }
                                                                                        None => Err(ParseError::InvalidParamValue(w8, ParamKind::AccessQualifier)),
                                                                                    },
                                                                                    Err(e) => Err(e),
                                                                                }
                                                                            }
                                                                        }
                                                                        None => Err(ParseError::InvalidParamValue(w7, ParamKind::ImageFormat)),
                                                                    },
                                                                    Err(e) => Err(e),
                                                                }
                                                            }
                                                            Err(e) => Err(e),
                                                        }
                                                    }
                                                    Err(e) => Err(e),
                                                }
                                            }
                                            Err(e) => Err(e),
                                        }
                                    }
                                    Err(e) => Err(e),
                                }
                            }
                            None => Err(ParseError::InvalidParamValue(w2, ParamKind::Dim)),
                        },
                        Err(e) => Err(e),
                    }
                }
                Err(e) => Err(e),
            }
        }
        Err(e) => Err(e),
    }
}

/// Decoding the parameter words of `TypeSampler`.
pub open spec fn sp_dec_type_sampler(ws: Seq<u32>) -> Result<InstructionView, ParseError> {
    match sp_word(ws) {
        Ok((w0, r1)) => {
            let result_type = TypeId(w0);
            Ok(InstructionView::TypeSampler {
                result_type,
            })
        }
        Err(e) => Err(e),
    }
}

/// Decoding the parameter words of `TypeSampledImage`.
pub open spec fn sp_dec_type_sampled_image(ws: Seq<u32>) -> Result<InstructionView, ParseError> {
    match sp_word(ws) {
        Ok((w0, r1)) => {
            let result_type = TypeId(w0);
            match sp_word(r1) {
                Ok((w1, r2)) => {
                    let image = TypeId(w1);
                    Ok(InstructionView::TypeSampledImage {
                        result_type,
                        image,
                    })
                }
                Err(e) => Err(e),
            }
        }
        Err(e) => Err(e),
    }
}

/// Decoding the parameter words of `TypeArray`.
pub open spec fn sp_dec_type_array(ws: Seq<u32>) -> Result<InstructionView, ParseError> {
    match sp_word(ws) {
        Ok((w0, r1)) => {
            let result_type = TypeId(w0);
            match sp_word(r1) {
                Ok((w1, r2)) => {
                    let element = TypeId(w1);
                    match sp_word(r2) {
                        Ok((w2, r3)) => {
                            let len = ValueId(w2);
                            Ok(InstructionView::TypeArray {
                                result_type,
                                element,
                                len,
                            })
                        }
                        Err(e) => Err(e),
                    }
                }
                Err(e) => Err(e),
            }
        }
        Err(e) => Err(e),
    }
}

/// Decoding the parameter words of `TypeRuntimeArray`.
pub open spec fn sp_dec_type_runtime_array(ws: Seq<u32>) -> Result<InstructionView, ParseError> {
    match sp_word(ws) {
        Ok((w0, r1)) => {
            let result_type = TypeId(w0);
            match sp_word(r1) {
                Ok((w1, r2)) => {
                    let element = TypeId(w1);
                    Ok(InstructionView::TypeRuntimeArray {
                        result_type,
                        element,
                    })
                }
                Err(e) => Err(e),
            }
        }
        Err(e) => Err(e),
    }
}

/// Decoding the parameter words of `TypeStruct`.
pub open spec fn sp_dec_type_struct(ws: Seq<u32>) -> Result<InstructionView, ParseError> {
    match sp_word(ws) {
        Ok((w0, r1)) => {
            let result_type = TypeId(w0);
            let fields = r1.map_values(|w: u32| TypeId(w));
            let r2 = Seq::<u32>::empty();
            Ok(InstructionView::TypeStruct {
                result_type,
                fields,
            })
        }
        Err(e) => Err(e),
    }
}

/// Decoding the parameter words of `TypeOpaque`.
pub open spec fn sp_dec_type_opaque(ws: Seq<u32>) -> Result<InstructionView, ParseError> {
    match sp_word(ws) {
        Ok((w0, r1)) => {
            let result_type = TypeId(w0);
            let (name, r2) = sp_string(r1);
            Ok(InstructionView::TypeOpaque {
                result_type,
                name,
            })
        }
        Err(e) => Err(e),
    }
}

/// Decoding the parameter words of `TypePointer`.
pub open spec fn sp_dec_type_pointer(ws: Seq<u32>) -> Result<InstructionView, ParseError> {
    match sp_word(ws) {
        Ok((w0, r1)) => {
            let result_type = TypeId(w0);
            match sp_word(r1) {
                Ok((w1, r2)) => match desc::StorageClass::spec_from(w1) {
                    Some(x1) => {
                        let storage_class = x1;
                        match sp_word(r2) {
                            Ok((w2, r3)) => {
                                let pointee = TypeId(w2);
                                Ok(InstructionView::TypePointer {
                                    result_type,
                                    storage_class,
                                    pointee,
                                })
                            }
                            Err(e) => Err(e),
                        }
                    }
                    None => Err(ParseError::InvalidParamValue(w1, ParamKind::StorageClass)),
                },
                Err(e) => Err(e),
            }
        }
        Err(e) => Err(e),
    }
}

/// Decoding the parameter words of `TypeFunction`.
pub open spec fn sp_dec_type_function(ws: Seq<u32>) -> Result<InstructionView, ParseError> {
    match sp_word(ws) {
        Ok((w0, r1)) => {
            let result_type = TypeId(w0);
            match sp_word(r1) {
                Ok((w1, r2)) => {
                    let return_ty = TypeId(w1);
                    let params = r2.map_values(|w: u32| TypeId(w));
                    let r3 = Seq::<u32>::empty();
                    Ok(InstructionView::TypeFunction {
                        result_type,
                        return_ty,
                        params,
                    })
                }
                Err(e) => Err(e),
            }
        }
        Err(e) => Err(e),
    }
}

/// Decoding the parameter words of `TypeForwardPointer`.
pub open spec fn sp_dec_type_forward_pointer(ws: Seq<u32>) -> Result<InstructionView, ParseError> {
    match sp_word(ws) {
        Ok((w0, r1)) => {
            let type_id = TypeId(w0);
            match sp_word(r1) {
                Ok((w1, r2)) => match desc::StorageClass::spec_from(w1) {
                    Some(x1) => {
                        let storage_class = x1;
                        Ok(InstructionView::TypeForwardPointer {
                            type_id,
                            storage_class,
                        })
                    }
                    None => Err(ParseError::InvalidParamValue(w1, ParamKind::StorageClass)),
                },
                Err(e) => Err(e),
            }
        }
        Err(e) => Err(e),
    }
}

/// Decoding the parameter words of `ConstantTrue`.
pub open spec fn sp_dec_constant_true(ws: Seq<u32>) -> Result<InstructionView, ParseError> {
    match sp_word(ws) {
        Ok((w0, r1)) => {
            let result_type = TypeId(w0);
            match sp_word(r1) {
                Ok((w1, r2)) => {
                    let result_id = ResultId(w1);
                    Ok(InstructionView::ConstantTrue {
                        result_type,
                        result_id,
                    })
                }
                Err(e) => Err(e),
            }
        }
        Err(e) => Err(e),
    }
}

/// Decoding the parameter words of `ConstantFalse`.
pub open spec fn sp_dec_constant_false(ws: Seq<u32>) -> Result<InstructionView, ParseError> {
    match sp_word(ws) {
        Ok((w0, r1)) => {
            let result_type = TypeId(w0);
            match sp_word(r1) {
                Ok((w1, r2)) => {
                    let result_id = ResultId(w1);
                    Ok(InstructionView::ConstantFalse {
                        result_type,
                        result_id,
                    })
                }
                Err(e) => Err(e),
            }
        }
        Err(e) => Err(e),
    }
}

/// Decoding the parameter words of `Constant`.
pub open spec fn sp_dec_constant(ws: Seq<u32>) -> Result<InstructionView, ParseError> {
    match sp_word(ws) {
        Ok((w0, r1)) => {
            let result_type = TypeId(w0);
            match sp_word(r1) {
                Ok((w1, r2)) => {
                    let result_id = ResultId(w1);
                    let value = r2;
                    let r3 = Seq::<u32>::empty();
                    Ok(InstructionView::Constant {
                        result_type,
                        result_id,
                        value,
                    })
                }
                Err(e) => Err(e),
            }
        }
        Err(e) => Err(e),
    }
}

/// Decoding the parameter words of `ConstantComposite`.
pub open spec fn sp_dec_constant_composite(ws: Seq<u32>) -> Result<InstructionView, ParseError> {
    match sp_word(ws) {
        Ok((w0, r1)) => {
            let result_type = TypeId(w0);
            match sp_word(r1) {
                Ok((w1, r2)) => {
                    let result_id = ResultId(w1);
                    let constituents = r2.map_values(|w: u32| ValueId(w));
                    let r3 = Seq::<u32>::empty();
                    Ok(InstructionView::ConstantComposite {
                        result_type,
                        result_id,
                        constituents,
                    })
                }
                Err(e) => Err(e),
            }
        }
        Err(e) => Err(e),
    }
}

/// Decoding the parameter words of `ConstantNull`.
pub open spec fn sp_dec_constant_null(ws: Seq<u32>) -> Result<InstructionView, ParseError> {
    match sp_word(ws) {
        Ok((w0, r1)) => {
            let result_type = TypeId(w0);
            match sp_word(r1) {
                Ok((w1, r2)) => {
                    let result_id = ResultId(w1);
                    Ok(InstructionView::ConstantNull {
                        result_type,
                        result_id,
                    })
                }
                Err(e) => Err(e),
            }
        }
        Err(e) => Err(e),
    }
}

/// Decoding the parameter words of `SpecConstantTrue`.
pub open spec fn sp_dec_spec_constant_true(ws: Seq<u32>) -> Result<InstructionView, ParseError> {
    match sp_word(ws) {
        Ok((w0, r1)) => {
            let result_type = TypeId(w0);
            match sp_word(r1) {
                Ok((w1, r2)) => {
                    let result_id = ResultId(w1);
                    Ok(InstructionView::SpecConstantTrue {
                        result_type,
                        result_id,
                    })
                }
                Err(e) => Err(e),
            }
        }
        Err(e) => Err(e),
    }
}

/// Decoding the parameter words of `SpecConstantFalse`.
pub open spec fn sp_dec_spec_constant_false(ws: Seq<u32>) -> Result<InstructionView, ParseError> {
    match sp_word(ws) {
        Ok((w0, r1)) => {
            let result_type = TypeId(w0);
            match sp_word(r1) {
                Ok((w1, r2)) => {
                    let result_id = ResultId(w1);
                    Ok(InstructionView::SpecConstantFalse {
                        result_type,
                        result_id,
                    })
                }
                Err(e) => Err(e),
            }
        }
        Err(e) => Err(e),
    }
}

/// Decoding the parameter words of `Function`.
pub open spec fn sp_dec_function(ws: Seq<u32>) -> Result<InstructionView, ParseError> {
    match sp_word(ws) {
        Ok((w0, r1)) => {
            let result_type = TypeId(w0);
            match sp_word(r1) {
                Ok((w1, r2)) => {
                    let result_id = ResultId(w1);
                    match sp_word(r2) {
                        Ok((w2, r3)) => {
                            let function_control = desc::FunctionControl(w2);
                            match sp_word(r3) {
                                Ok((w3, r4)) => {
                                    let function_type = TypeId(w3);
                                    Ok(InstructionView::Function {
                                        result_type,
                                        result_id,
                                        function_control,
                                        function_type,
                                    })
                                }
                                Err(e) => Err(e),
                            }
                        }
                        Err(e) => Err(e),
                    }
                }
                Err(e) => Err(e),
            }
        }
        Err(e) => Err(e),
    }
}

/// Decoding the parameter words of `FunctionParameter`.
pub open spec fn sp_dec_function_parameter(ws: Seq<u32>) -> Result<InstructionView, ParseError> {
    match sp_word(ws) {
        Ok((w0, r1)) => {
            let result_type = TypeId(w0);
            match sp_word(r1) {
                Ok((w1, r2)) => {
                    let result_id = ResultId(w1);
                    Ok(InstructionView::FunctionParameter {
                        result_type,
                        result_id,
                    })
                }
                Err(e) => Err(e),
            }
        }
        Err(e) => Err(e),
    }
}

/// Decoding the parameter words of `FunctionEnd`.
pub open spec fn sp_dec_function_end(ws: Seq<u32>) -> Result<InstructionView, ParseError> {
    Ok(InstructionView::FunctionEnd)
}

/// Decoding the parameter words of `FunctionCall`.
pub open spec fn sp_dec_function_call(ws: Seq<u32>) -> Result<InstructionView, ParseError> {
    match sp_word(ws) {
        Ok((w0, r1)) => {
            let result_type = TypeId(w0);
            match sp_word(r1) {
                Ok((w1, r2)) => {
                    let result_id = ResultId(w1);
                    match sp_word(r2) {
                        Ok((w2, r3)) => {
                            let function = ValueId(w2);
                            let arguments = r3.map_values(|w: u32| ValueId(w));
                            let r4 = Seq::<u32>::empty();
                            Ok(InstructionView::FunctionCall {
                                result_type,
                                result_id,
                                function,
                                arguments,
                            })
                        }
                        Err(e) => Err(e),
                    }
                }
                Err(e) => Err(e),
            }
        }
        Err(e) => Err(e),
    }
}

/// Decoding the parameter words of `Variable`.
pub open spec fn sp_dec_variable(ws: Seq<u32>) -> Result<InstructionView, ParseError> {
    match sp_word(ws) {
        Ok((w0, r1)) => {
            let result_type = TypeId(w0);
            match sp_word(r1) {
                Ok((w1, r2)) => {
                    let result_id = ResultId(w1);
                    match sp_word(r2) {
                        Ok((w2, r3)) => match desc::StorageClass::spec_from(w2) {
                            Some(x2) => {
                                let storage_class = x2;
                                let (w3, r4) = sp_opt_word(r3);
                                let initializer = ValueId(w3);
                                Ok(InstructionView::Variable {
                                    result_type,
                                    result_id,
                                    storage_class,
                                    initializer,
                                })
                            }
                            None => Err(ParseError::InvalidParamValue(w2, ParamKind::StorageClass)),
                        },
                        Err(e) => Err(e),
                    }
                }
                Err(e) => Err(e),
            }
        }
        Err(e) => Err(e),
    }
}

/// Decoding the parameter words of `Load`.
pub open spec fn sp_dec_load(ws: Seq<u32>) -> Result<InstructionView, ParseError> {
    match sp_word(ws) {
        Ok((w0, r1)) => {
            let result_type = TypeId(w0);
            match sp_word(r1) {
                Ok((w1, r2)) => {
                    let result_id = ResultId(w1);
                    match sp_word(r2) {
                        Ok((w2, r3)) => {
                            let pointer = ValueId(w2);
                            let (w3, r4) = sp_opt_word(r3);
                            let memory_access = desc::MemoryAccess(w3);
                            Ok(InstructionView::Load {
                                result_type,
                                result_id,
                                pointer,
                                memory_access,
                            })
                        }
                        Err(e) => Err(e),
                    }
                }
                Err(e) => Err(e),
            }
        }
        Err(e) => Err(e),
    }
}

/// Decoding the parameter words of `Store`.
pub open spec fn sp_dec_store(ws: Seq<u32>) -> Result<InstructionView, ParseError> {
    match sp_word(ws) {
        Ok((w0, r1)) => {
            let pointer = ValueId(w0);
            match sp_word(r1) {
                Ok((w1, r2)) => {
                    let object = ValueId(w1);
                    let (w2, r3) = sp_opt_word(r2);
                    let memory_access = desc::MemoryAccess(w2);
                    Ok(InstructionView::Store {
                        pointer,
                        object,
                        memory_access,
                    })
                }
                Err(e) => Err(e),
            }
        }
        Err(e) => Err(e),
    }
}

/// Decoding the parameter words of `AccessChain`.
pub open spec fn sp_dec_access_chain(ws: Seq<u32>) -> Result<InstructionView, ParseError> {
    match sp_word(ws) {
        Ok((w0, r1)) => {
            let result_type = TypeId(w0);
            match sp_word(r1) {
                Ok((w1, r2)) => {
                    let result_id = ResultId(w1);
                    match sp_word(r2) {
                        Ok((w2, r3)) => {
                            let base = ValueId(w2);
                            let indexes = r3.map_values(|w: u32| ValueId(w));
                            let r4 = Seq::<u32>::empty();
                            Ok(InstructionView::AccessChain {
                                result_type,
                                result_id,
                                base,
                                indexes,
                            })
                        }
                        Err(e) => Err(e),
                    }
                }
                Err(e) => Err(e),
            }
        }
        Err(e) => Err(e),
    }
}

/// Decoding the parameter words of `Decorate`.
pub open spec fn sp_dec_decorate(ws: Seq<u32>) -> Result<InstructionView, ParseError> {
    match sp_word(ws) {
        Ok((w0, r1)) => {
            let target = Id(w0);
            match sp_decoration(r1) {
                Ok((decoration, r2)) => {
                    Ok(InstructionView::Decorate {
                        target,
                        decoration,
                    })
                }
                Err(e) => Err(e),
            }
        }
        Err(e) => Err(e),
    }
}

/// Decoding the parameter words of `MemberDecorate`.
pub open spec fn sp_dec_member_decorate(ws: Seq<u32>) -> Result<InstructionView, ParseError> {
    match sp_word(ws) {
        Ok((w0, r1)) => {
            let structure_type = TypeId(w0);
            match sp_word(r1) {
                Ok((w1, r2)) => {
                    let member = w1;
                    match sp_decoration(r2) {
                        Ok((decoration, r3)) => {
                            Ok(InstructionView::MemberDecorate {
                                structure_type,
                                member,
                                decoration,
                            })
                        }
                        Err(e) => Err(e),
                    }
                }
                Err(e) => Err(e),
            }
        }
        Err(e) => Err(e),
    }
}

/// Decoding the parameter words of `DecorationGroup`.
pub open spec fn sp_dec_decoration_group(ws: Seq<u32>) -> Result<InstructionView, ParseError> {
    match sp_word(ws) {
        Ok((w0, r1)) => {
            let result_id = ResultId(w0);
            Ok(InstructionView::DecorationGroup {
                result_id,
            })
        }
        Err(e) => Err(e),
    }
}

/// Decoding the parameter words of `GroupDecorate`.
pub open spec fn sp_dec_group_decorate(ws: Seq<u32>) -> Result<InstructionView, ParseError> {
    match sp_word(ws) {
        Ok((w0, r1)) => {
            let group = Id(w0);
            let targets = r1.map_values(|w: u32| Id(w));
            let r2 = Seq::<u32>::empty();
            Ok(InstructionView::GroupDecorate {
                group,
                targets,
            })
        }
        Err(e) => Err(e),
    }
}

/// Decoding the parameter words of `GroupMemberDecorate`.
pub open spec fn sp_dec_group_member_decorate(ws: Seq<u32>) -> Result<InstructionView, ParseError> {
    match sp_word(ws) {
        Ok((w0, r1)) => {
            let group = Id(w0);
            if r1.len() % 2 != 0 {
                Err(ParseError::InstructionTooShort)
            } else {
                let targets = sp_pairs(r1).map_values(|p: (u32, u32)| (Id(p.0), p.1));
                let r2 = Seq::<u32>::empty();
                Ok(InstructionView::GroupMemberDecorate {
                    group,
                    targets,
                })
            }
        }
        Err(e) => Err(e),
    }
}

/// Decoding the parameter words of `ImageSampleImplicitLod`.
pub open spec fn sp_dec_image_sample_implicit_lod(ws: Seq<u32>) -> Result<InstructionView, ParseError> {
    match sp_word(ws) {
        Ok((w0, r1)) => {
            let result_type = TypeId(w0);
            match sp_word(r1) {
                Ok((w1, r2)) => {
                    let result_id = ResultId(w1);
                    match sp_word(r2) {
                        Ok((w2, r3)) => {
                            let sampled_image = ValueId(w2);
                            match sp_word(r3) {
                                Ok((w3, r4)) => {
                                    let coordinate = ValueId(w3);
                                    match sp_image_operands(r4) {
                                        Ok((image_operands, r5)) => {
                                            Ok(InstructionView::ImageSampleImplicitLod {
                                                result_type,
                                                result_id,
                                                sampled_image,
                                                coordinate,
                                                image_operands,
                                            })
                                        }
                                        Err(e) => Err(e),
                                    }
                                }
                                Err(e) => Err(e),
                            }
                        }
                        Err(e) => Err(e),
                    }
                }
                Err(e) => Err(e),
            }
        }
        Err(e) => Err(e),
    }
}

/// Decoding the parameter words of `Phi`.
pub open spec fn sp_dec_phi(ws: Seq<u32>) -> Result<InstructionView, ParseError> {
    match sp_word(ws) {
        Ok((w0, r1)) => {
            let result_type = TypeId(w0);
            match sp_word(r1) {
                Ok((w1, r2)) => {
                    let result_id = ResultId(w1);
                    if r2.len() % 2 != 0 {
                        Err(ParseError::InstructionTooShort)
                    } else {
                        let variables = sp_pairs(r2).map_values(|p: (u32, u32)| (ValueId(p.0), ValueId(p.1)));
                        let r3 = Seq::<u32>::empty();
                        Ok(InstructionView::Phi {
                            result_type,
                            result_id,
                            variables,
                        })
                    }
                }
                Err(e) => Err(e),
            }
        }
        Err(e) => Err(e),
    }
}

/// Decoding the parameter words of `Label`.
pub open spec fn sp_dec_label(ws: Seq<u32>) -> Result<InstructionView, ParseError> {
    match sp_word(ws) {
        Ok((w0, r1)) => {
            let result_id = ResultId(w0);
            Ok(InstructionView::Label {
                result_id,
            })
        }
        Err(e) => Err(e),
    }
}

/// Decoding the parameter words of `Branch`.
pub open spec fn sp_dec_branch(ws: Seq<u32>) -> Result<InstructionView, ParseError> {
    match sp_word(ws) {
        Ok((w0, r1)) => {
            let target_label = Id(w0);
            Ok(InstructionView::Branch {
                target_label,
            })
        }
        Err(e) => Err(e),
    }
}

/// Decoding the parameter words of `BranchConditional`.
pub open spec fn sp_dec_branch_conditional(ws: Seq<u32>) -> Result<InstructionView, ParseError> {
    match sp_word(ws) {
        Ok((w0, r1)) => {
            let condition = ValueId(w0);
            match sp_word(r1) {
                Ok((w1, r2)) => {
                    let true_label = Id(w1);
                    match sp_word(r2) {
                        Ok((w2, r3)) => {
                            let false_label = Id(w2);
                            let weights = r3;
                            let r4 = Seq::<u32>::empty();
                            Ok(InstructionView::BranchConditional {
                                condition,
                                true_label,
                                false_label,
                                weights,
                            })
                        }
                        Err(e) => Err(e),
                    }
                }
                Err(e) => Err(e),
            }
        }
        Err(e) => Err(e),
    }
}

/// Decoding the parameter words of `Switch`.
pub open spec fn sp_dec_switch(ws: Seq<u32>) -> Result<InstructionView, ParseError> {
    match sp_word(ws) {
        Ok((w0, r1)) => {
            let selector = ValueId(w0);
            match sp_word(r1) {
                Ok((w1, r2)) => {
                    let default = Id(w1);
                    if r2.len() % 2 != 0 {
                        Err(ParseError::InstructionTooShort)
                    } else {
                        let targets = sp_pairs(r2).map_values(|p: (u32, u32)| (p.0, Id(p.1)));
                        let r3 = Seq::<u32>::empty();
                        Ok(InstructionView::Switch {
                            selector,
                            default,
                            targets,
                        })
                    }
                }
                Err(e) => Err(e),
            }
        }
        Err(e) => Err(e),
    }
}

/// Decoding the parameter words of `Return`.
pub open spec fn sp_dec_return(ws: Seq<u32>) -> Result<InstructionView, ParseError> {
    Ok(InstructionView::Return)
}

/// Decoding the parameter words of `ReturnValue`.
pub open spec fn sp_dec_return_value(ws: Seq<u32>) -> Result<InstructionView, ParseError> {
    match sp_word(ws) {
        Ok((w0, r1)) => {
            let value = ValueId(w0);
            Ok(InstructionView::ReturnValue {
                value,
            })
        }
        Err(e) => Err(e),
    }
}

/// The instruction decoder: dispatch on the opcode, decode each
/// declared operand in order; opcodes outside the known set map to
/// `Unknown` and round-trip losslessly.
pub open spec fn sp_inst(op: u16, ws: Seq<u32>) -> Result<InstructionView, ParseError> {
    if op == OP_NOP {
        sp_dec_nop(ws)
    } else if op == OP_UNDEF {
        sp_dec_undef(ws)
    } else if op == OP_SOURCE {
        sp_dec_source(ws)
    } else if op == OP_NAME {
        sp_dec_name(ws)
    } else if op == OP_MEMBER_NAME {
        sp_dec_member_name(ws)
    } else if op == OP_LINE {
        sp_dec_line(ws)
    } else if op == OP_MEMORY_MODEL {
        sp_dec_memory_model(ws)
    } else if op == OP_ENTRY_POINT {
        sp_dec_entry_point(ws)
    } else if op == OP_EXECUTION_MODE {
        sp_dec_execution_mode(ws)
    } else if op == OP_CAPABILITY {
        sp_dec_capability(ws)
    } else if op == OP_TYPE_VOID {
        sp_dec_type_void(ws)
    } else if op == OP_TYPE_BOOL {
        sp_dec_type_bool(ws)
    } else if op == OP_TYPE_INT {
        sp_dec_type_int(ws)
    } else if op == OP_TYPE_FLOAT {
        sp_dec_type_float(ws)
    } else if op == OP_TYPE_VECTOR {
        sp_dec_type_vector(ws)
    } else if op == OP_TYPE_MATRIX {
        sp_dec_type_matrix(ws)
    } else if op == OP_TYPE_IMAGE {
        sp_dec_type_image(ws)
    } else if op == OP_TYPE_SAMPLER {
        sp_dec_type_sampler(ws)
    } else if op == OP_TYPE_SAMPLED_IMAGE {
        sp_dec_type_sampled_image(ws)
    } else if op == OP_TYPE_ARRAY {
        sp_dec_type_array(ws)
    } else if op == OP_TYPE_RUNTIME_ARRAY {
        sp_dec_type_runtime_array(ws)
    } else if op == OP_TYPE_STRUCT {
        sp_dec_type_struct(ws)
    } else if op == OP_TYPE_OPAQUE {
        sp_dec_type_opaque(ws)
    } else if op == OP_TYPE_POINTER {
        sp_dec_type_pointer(ws)
    } else if op == OP_TYPE_FUNCTION {
        sp_dec_type_function(ws)
    } else if op == OP_TYPE_FORWARD_POINTER {
        sp_dec_type_forward_pointer(ws)
    } else if op == OP_CONSTANT_TRUE {
        sp_dec_constant_true(ws)
    } else if op == OP_CONSTANT_FALSE {
        sp_dec_constant_false(ws)
    } else if op == OP_CONSTANT {
        sp_dec_constant(ws)
    } else if op == OP_CONSTANT_COMPOSITE {
        sp_dec_constant_composite(ws)
    } else if op == OP_CONSTANT_NULL {
        sp_dec_constant_null(ws)
    } else if op == OP_SPEC_CONSTANT_TRUE {
        sp_dec_spec_constant_true(ws)
    } else if op == OP_SPEC_CONSTANT_FALSE {
        sp_dec_spec_constant_false(ws)
    } else if op == OP_FUNCTION {
        sp_dec_function(ws)
    } else if op == OP_FUNCTION_PARAMETER {
        sp_dec_function_parameter(ws)
    } else if op == OP_FUNCTION_END {
        sp_dec_function_end(ws)
    } else if op == OP_FUNCTION_CALL {
        sp_dec_function_call(ws)
    } else if op == OP_VARIABLE {
        sp_dec_variable(ws)
    } else if op == OP_LOAD {
        sp_dec_load(ws)
    } else if op == OP_STORE {
        sp_dec_store(ws)
    } else if op == OP_ACCESS_CHAIN {
        sp_dec_access_chain(ws)
    } else if op == OP_DECORATE {
        sp_dec_decorate(ws)
    } else if op == OP_MEMBER_DECORATE {
        sp_dec_member_decorate(ws)
    } else if op == OP_DECORATION_GROUP {
        sp_dec_decoration_group(ws)
    } else if op == OP_GROUP_DECORATE {
        sp_dec_group_decorate(ws)
    } else if op == OP_GROUP_MEMBER_DECORATE {
        sp_dec_group_member_decorate(ws)
    } else if op == OP_IMAGE_SAMPLE_IMPLICIT_LOD {
        sp_dec_image_sample_implicit_lod(ws)
    } else if op == OP_PHI {
        sp_dec_phi(ws)
    } else if op == OP_LABEL {
        sp_dec_label(ws)
    } else if op == OP_BRANCH {
        sp_dec_branch(ws)
    } else if op == OP_BRANCH_CONDITIONAL {
        sp_dec_branch_conditional(ws)
    } else if op == OP_SWITCH {
        sp_dec_switch(ws)
    } else if op == OP_RETURN {
        sp_dec_return(ws)
    } else if op == OP_RETURN_VALUE {
        sp_dec_return_value(ws)
    } else {
        Ok(InstructionView::Unknown(op, ws))
    }
}

} // verus!
