//! The round-trip laws of the codec: decoding the canonical encoding of
//! any well-formed instruction gives the instruction back, and a word
//! sequence that is some instruction's canonical encoding re-encodes to
//! itself after decoding.

use vstd::prelude::*;

use crate::codec::{
    lemma_str_words_len, lemma_string_round_trip, lemma_word_round_trip, sp_opt_word, sp_string,
    sp_word, str_words,
};
use crate::desc;
use crate::desc::{Id, ResultId, TypeId, ValueId};
use crate::inst_codec::{
    bool_word, decoration_words, exec_mode_words, img_ops_words, lemma_image_operands_round_trip,
    lemma_pairs_round_trip, opt_enum_words, opt_id_words, opt_str_words, pair_words,
    sp_decoration, sp_exec_mode, sp_image_operands, sp_inst, sp_opt_string, sp_pairs,
    spec_inst_params, wf_decoration, wf_inst,
};
use crate::instruction::{DecorationView, ExecutionMode, ImageOperandsView, InstructionView};
use crate::parse::{ParamKind, ParseError};

verus! {

/// An encoded execution-mode payload decodes to itself, leaving the
/// words that follow it untouched.
#[verifier::rlimit(100)]
#[verifier::spinoff_prover]
pub proof fn lemma_exec_mode_round_trip(m: ExecutionMode, rest: Seq<u32>)
    ensures
        sp_exec_mode(exec_mode_words(m) + rest) == Ok::<_, ParseError>((m, rest)),
{
    match m {
        ExecutionMode::Invocations(a0) => {
            let t0 = seq![a0] + rest;
            assert(exec_mode_words(m) + rest =~= seq![desc::ExecutionMode::Invocations.spec_code()] + t0);
            lemma_word_round_trip(desc::ExecutionMode::Invocations.spec_code(), t0);
            desc::ExecutionMode::Invocations.lemma_code_round_trip();
            assert(t0 =~= seq![a0] + rest);
            lemma_word_round_trip(a0, rest);
        }
        ExecutionMode::SpacingEqual => {
            assert(exec_mode_words(m) + rest =~= seq![desc::ExecutionMode::SpacingEqual.spec_code()] + rest);
            lemma_word_round_trip(desc::ExecutionMode::SpacingEqual.spec_code(), rest);
            desc::ExecutionMode::SpacingEqual.lemma_code_round_trip();
        }
        ExecutionMode::SpacingFractionalEven => {
            assert(exec_mode_words(m) + rest =~= seq![desc::ExecutionMode::SpacingFractionalEven.spec_code()] + rest);
            lemma_word_round_trip(desc::ExecutionMode::SpacingFractionalEven.spec_code(), rest);
            desc::ExecutionMode::SpacingFractionalEven.lemma_code_round_trip();
        }
        ExecutionMode::SpacingFractionalOdd => {
            assert(exec_mode_words(m) + rest =~= seq![desc::ExecutionMode::SpacingFractionalOdd.spec_code()] + rest);
            lemma_word_round_trip(desc::ExecutionMode::SpacingFractionalOdd.spec_code(), rest);
            desc::ExecutionMode::SpacingFractionalOdd.lemma_code_round_trip();
        }
        ExecutionMode::VertexOrderCw => {
            assert(exec_mode_words(m) + rest =~= seq![desc::ExecutionMode::VertexOrderCw.spec_code()] + rest);
            lemma_word_round_trip(desc::ExecutionMode::VertexOrderCw.spec_code(), rest);
            desc::ExecutionMode::VertexOrderCw.lemma_code_round_trip();
        }
        ExecutionMode::VertexOrderCcw => {
            assert(exec_mode_words(m) + rest =~= seq![desc::ExecutionMode::VertexOrderCcw.spec_code()] + rest);
            lemma_word_round_trip(desc::ExecutionMode::VertexOrderCcw.spec_code(), rest);
            desc::ExecutionMode::VertexOrderCcw.lemma_code_round_trip();
        }
        ExecutionMode::PixelCenterInteger => {
            assert(exec_mode_words(m) + rest =~= seq![desc::ExecutionMode::PixelCenterInteger.spec_code()] + rest);
            lemma_word_round_trip(desc::ExecutionMode::PixelCenterInteger.spec_code(), rest);
            desc::ExecutionMode::PixelCenterInteger.lemma_code_round_trip();
        }
        ExecutionMode::OriginUpperLeft => {
            assert(exec_mode_words(m) + rest =~= seq![desc::ExecutionMode::OriginUpperLeft.spec_code()] + rest);
            lemma_word_round_trip(desc::ExecutionMode::OriginUpperLeft.spec_code(), rest);
            desc::ExecutionMode::OriginUpperLeft.lemma_code_round_trip();
        }
        ExecutionMode::OriginLowerLeft => {
            assert(exec_mode_words(m) + rest =~= seq![desc::ExecutionMode::OriginLowerLeft.spec_code()] + rest);
            lemma_word_round_trip(desc::ExecutionMode::OriginLowerLeft.spec_code(), rest);
            desc::ExecutionMode::OriginLowerLeft.lemma_code_round_trip();
        }
        ExecutionMode::EarlyFragmentTests => {
            assert(exec_mode_words(m) + rest =~= seq![desc::ExecutionMode::EarlyFragmentTests.spec_code()] + rest);
            lemma_word_round_trip(desc::ExecutionMode::EarlyFragmentTests.spec_code(), rest);
            desc::ExecutionMode::EarlyFragmentTests.lemma_code_round_trip();
        }
        ExecutionMode::PointMode => {
            assert(exec_mode_words(m) + rest =~= seq![desc::ExecutionMode::PointMode.spec_code()] + rest);
            lemma_word_round_trip(desc::ExecutionMode::PointMode.spec_code(), rest);
            desc::ExecutionMode::PointMode.lemma_code_round_trip();
        }
        ExecutionMode::Xfb => {
            assert(exec_mode_words(m) + rest =~= seq![desc::ExecutionMode::Xfb.spec_code()] + rest);
            lemma_word_round_trip(desc::ExecutionMode::Xfb.spec_code(), rest);
            desc::ExecutionMode::Xfb.lemma_code_round_trip();
        }
        ExecutionMode::DepthReplacing => {
            assert(exec_mode_words(m) + rest =~= seq![desc::ExecutionMode::DepthReplacing.spec_code()] + rest);
            lemma_word_round_trip(desc::ExecutionMode::DepthReplacing.spec_code(), rest);
            desc::ExecutionMode::DepthReplacing.lemma_code_round_trip();
        }
        ExecutionMode::DepthGreater => {
            assert(exec_mode_words(m) + rest =~= seq![desc::ExecutionMode::DepthGreater.spec_code()] + rest);
            lemma_word_round_trip(desc::ExecutionMode::DepthGreater.spec_code(), rest);
            desc::ExecutionMode::DepthGreater.lemma_code_round_trip();
        }
        ExecutionMode::DepthLess => {
            assert(exec_mode_words(m) + rest =~= seq![desc::ExecutionMode::DepthLess.spec_code()] + rest);
            lemma_word_round_trip(desc::ExecutionMode::DepthLess.spec_code(), rest);
            desc::ExecutionMode::DepthLess.lemma_code_round_trip();
        }
        ExecutionMode::DepthUnchanged => {
            assert(exec_mode_words(m) + rest =~= seq![desc::ExecutionMode::DepthUnchanged.spec_code()] + rest);
            lemma_word_round_trip(desc::ExecutionMode::DepthUnchanged.spec_code(), rest);
            desc::ExecutionMode::DepthUnchanged.lemma_code_round_trip();
        }
        ExecutionMode::LocalSize(a0, a1, a2) => {
            let t2 = seq![a2] + rest;
            let t1 = seq![a1] + t2;
            let t0 = seq![a0] + t1;
            assert(exec_mode_words(m) + rest =~= seq![desc::ExecutionMode::LocalSize.spec_code()] + t0);
            lemma_word_round_trip(desc::ExecutionMode::LocalSize.spec_code(), t0);
            desc::ExecutionMode::LocalSize.lemma_code_round_trip();
            assert(t0 =~= seq![a0] + t1);
            lemma_word_round_trip(a0, t1);
            assert(t1 =~= seq![a1] + t2);
            lemma_word_round_trip(a1, t2);
            assert(t2 =~= seq![a2] + rest);
            lemma_word_round_trip(a2, rest);
        }
        ExecutionMode::LocalSizeHint(a0, a1, a2) => {
            let t2 = seq![a2] + rest;
            let t1 = seq![a1] + t2;
            let t0 = seq![a0] + t1;
            assert(exec_mode_words(m) + rest =~= seq![desc::ExecutionMode::LocalSizeHint.spec_code()] + t0);
            lemma_word_round_trip(desc::ExecutionMode::LocalSizeHint.spec_code(), t0);
            desc::ExecutionMode::LocalSizeHint.lemma_code_round_trip();
            assert(t0 =~= seq![a0] + t1);
            lemma_word_round_trip(a0, t1);
            assert(t1 =~= seq![a1] + t2);
            lemma_word_round_trip(a1, t2);
            assert(t2 =~= seq![a2] + rest);
            lemma_word_round_trip(a2, rest);
        }
        ExecutionMode::InputPoints => {
            assert(exec_mode_words(m) + rest =~= seq![desc::ExecutionMode::InputPoints.spec_code()] + rest);
            lemma_word_round_trip(desc::ExecutionMode::InputPoints.spec_code(), rest);
            desc::ExecutionMode::InputPoints.lemma_code_round_trip();
        }
        ExecutionMode::InputLines => {
            assert(exec_mode_words(m) + rest =~= seq![desc::ExecutionMode::InputLines.spec_code()] + rest);
            lemma_word_round_trip(desc::ExecutionMode::InputLines.spec_code(), rest);
            desc::ExecutionMode::InputLines.lemma_code_round_trip();
        }
        ExecutionMode::InputLinesAdjacency => {
            assert(exec_mode_words(m) + rest =~= seq![desc::ExecutionMode::InputLinesAdjacency.spec_code()] + rest);
            lemma_word_round_trip(desc::ExecutionMode::InputLinesAdjacency.spec_code(), rest);
            desc::ExecutionMode::InputLinesAdjacency.lemma_code_round_trip();
        }
        ExecutionMode::Triangles => {
            assert(exec_mode_words(m) + rest =~= seq![desc::ExecutionMode::Triangles.spec_code()] + rest);
            lemma_word_round_trip(desc::ExecutionMode::Triangles.spec_code(), rest);
            desc::ExecutionMode::Triangles.lemma_code_round_trip();
        }
        ExecutionMode::InputTrianglesAdjacency => {
            assert(exec_mode_words(m) + rest =~= seq![desc::ExecutionMode::InputTrianglesAdjacency.spec_code()] + rest);
            lemma_word_round_trip(desc::ExecutionMode::InputTrianglesAdjacency.spec_code(), rest);
            desc::ExecutionMode::InputTrianglesAdjacency.lemma_code_round_trip();
        }
        ExecutionMode::Quads => {
            assert(exec_mode_words(m) + rest =~= seq![desc::ExecutionMode::Quads.spec_code()] + rest);
            lemma_word_round_trip(desc::ExecutionMode::Quads.spec_code(), rest);
            desc::ExecutionMode::Quads.lemma_code_round_trip();
        }
        ExecutionMode::IsoLines => {
            assert(exec_mode_words(m) + rest =~= seq![desc::ExecutionMode::IsoLines.spec_code()] + rest);
            lemma_word_round_trip(desc::ExecutionMode::IsoLines.spec_code(), rest);
            desc::ExecutionMode::IsoLines.lemma_code_round_trip();
        }
        ExecutionMode::OutputVertices(a0) => {
            let t0 = seq![a0] + rest;
            assert(exec_mode_words(m) + rest =~= seq![desc::ExecutionMode::OutputVertices.spec_code()] + t0);
            lemma_word_round_trip(desc::ExecutionMode::OutputVertices.spec_code(), t0);
            desc::ExecutionMode::OutputVertices.lemma_code_round_trip();
            assert(t0 =~= seq![a0] + rest);
            lemma_word_round_trip(a0, rest);
        }
        ExecutionMode::OutputPoints => {
            assert(exec_mode_words(m) + rest =~= seq![desc::ExecutionMode::OutputPoints.spec_code()] + rest);
            lemma_word_round_trip(desc::ExecutionMode::OutputPoints.spec_code(), rest);
            desc::ExecutionMode::OutputPoints.lemma_code_round_trip();
        }
        ExecutionMode::OutputLineStrip => {
            assert(exec_mode_words(m) + rest =~= seq![desc::ExecutionMode::OutputLineStrip.spec_code()] + rest);
            lemma_word_round_trip(desc::ExecutionMode::OutputLineStrip.spec_code(), rest);
            desc::ExecutionMode::OutputLineStrip.lemma_code_round_trip();
        }
        ExecutionMode::OutputTriangleStrip => {
            assert(exec_mode_words(m) + rest =~= seq![desc::ExecutionMode::OutputTriangleStrip.spec_code()] + rest);
            lemma_word_round_trip(desc::ExecutionMode::OutputTriangleStrip.spec_code(), rest);
            desc::ExecutionMode::OutputTriangleStrip.lemma_code_round_trip();
        }
        ExecutionMode::VecTypeHint(a0) => {
            let t0 = seq![a0] + rest;
            assert(exec_mode_words(m) + rest =~= seq![desc::ExecutionMode::VecTypeHint.spec_code()] + t0);
            lemma_word_round_trip(desc::ExecutionMode::VecTypeHint.spec_code(), t0);
            desc::ExecutionMode::VecTypeHint.lemma_code_round_trip();
            assert(t0 =~= seq![a0] + rest);
            lemma_word_round_trip(a0, rest);
        }
        ExecutionMode::ContractionOff => {
            assert(exec_mode_words(m) + rest =~= seq![desc::ExecutionMode::ContractionOff.spec_code()] + rest);
            lemma_word_round_trip(desc::ExecutionMode::ContractionOff.spec_code(), rest);
            desc::ExecutionMode::ContractionOff.lemma_code_round_trip();
        }
    }
}

/// An encoded decoration payload decodes to itself, leaving the words
/// that follow it untouched.
#[verifier::rlimit(100)]
#[verifier::spinoff_prover]
pub proof fn lemma_decoration_round_trip(d: DecorationView, rest: Seq<u32>)
    requires
        wf_decoration(d),
    ensures
        sp_decoration(decoration_words(d) + rest) == Ok::<_, ParseError>((d, rest)),
{
    match d {
        DecorationView::RelaxedPrecision => {
            assert(decoration_words(d) + rest =~= seq![desc::Decoration::RelaxedPrecision.spec_code()] + rest);
            lemma_word_round_trip(desc::Decoration::RelaxedPrecision.spec_code(), rest);
            desc::Decoration::RelaxedPrecision.lemma_code_round_trip();
        }
        DecorationView::SpecId(n) => {
            let t1 = seq![n] + rest;
            assert(decoration_words(d) + rest =~= seq![desc::Decoration::SpecId.spec_code()] + t1);
            lemma_word_round_trip(desc::Decoration::SpecId.spec_code(), t1);
            desc::Decoration::SpecId.lemma_code_round_trip();
            lemma_word_round_trip(n, rest);
        }
        DecorationView::Block => {
            assert(decoration_words(d) + rest =~= seq![desc::Decoration::Block.spec_code()] + rest);
            lemma_word_round_trip(desc::Decoration::Block.spec_code(), rest);
            desc::Decoration::Block.lemma_code_round_trip();
        }
        DecorationView::BufferBlock => {
            assert(decoration_words(d) + rest =~= seq![desc::Decoration::BufferBlock.spec_code()] + rest);
            lemma_word_round_trip(desc::Decoration::BufferBlock.spec_code(), rest);
            desc::Decoration::BufferBlock.lemma_code_round_trip();
        }
        DecorationView::RowMajor => {
            assert(decoration_words(d) + rest =~= seq![desc::Decoration::RowMajor.spec_code()] + rest);
            lemma_word_round_trip(desc::Decoration::RowMajor.spec_code(), rest);
            desc::Decoration::RowMajor.lemma_code_round_trip();
        }
        DecorationView::ColMajor => {
            assert(decoration_words(d) + rest =~= seq![desc::Decoration::ColMajor.spec_code()] + rest);
            lemma_word_round_trip(desc::Decoration::ColMajor.spec_code(), rest);
            desc::Decoration::ColMajor.lemma_code_round_trip();
        }
        DecorationView::ArrayStride(n) => {
            let t1 = seq![n] + rest;
            assert(decoration_words(d) + rest =~= seq![desc::Decoration::ArrayStride.spec_code()] + t1);
            lemma_word_round_trip(desc::Decoration::ArrayStride.spec_code(), t1);
            desc::Decoration::ArrayStride.lemma_code_round_trip();
            lemma_word_round_trip(n, rest);
        }
        DecorationView::MatrixStride(n) => {
            let t1 = seq![n] + rest;
            assert(decoration_words(d) + rest =~= seq![desc::Decoration::MatrixStride.spec_code()] + t1);
            lemma_word_round_trip(desc::Decoration::MatrixStride.spec_code(), t1);
            desc::Decoration::MatrixStride.lemma_code_round_trip();
            lemma_word_round_trip(n, rest);
        }
        DecorationView::GLSLShared => {
            assert(decoration_words(d) + rest =~= seq![desc::Decoration::GLSLShared.spec_code()] + rest);
            lemma_word_round_trip(desc::Decoration::GLSLShared.spec_code(), rest);
            desc::Decoration::GLSLShared.lemma_code_round_trip();
        }
        DecorationView::GLSLPacked => {
            assert(decoration_words(d) + rest =~= seq![desc::Decoration::GLSLPacked.spec_code()] + rest);
            lemma_word_round_trip(desc::Decoration::GLSLPacked.spec_code(), rest);
            desc::Decoration::GLSLPacked.lemma_code_round_trip();
        }
        DecorationView::CPacked => {
            assert(decoration_words(d) + rest =~= seq![desc::Decoration::CPacked.spec_code()] + rest);
            lemma_word_round_trip(desc::Decoration::CPacked.spec_code(), rest);
            desc::Decoration::CPacked.lemma_code_round_trip();
        }
        DecorationView::BuiltIn(x) => {
            let t1 = seq![x.spec_code()] + rest;
            assert(decoration_words(d) + rest =~= seq![desc::Decoration::BuiltIn.spec_code()] + t1);
            lemma_word_round_trip(desc::Decoration::BuiltIn.spec_code(), t1);
            desc::Decoration::BuiltIn.lemma_code_round_trip();
            lemma_word_round_trip(x.spec_code(), rest);
            x.lemma_code_round_trip();
        }
        DecorationView::NoPerspective => {
            assert(decoration_words(d) + rest =~= seq![desc::Decoration::NoPerspective.spec_code()] + rest);
            lemma_word_round_trip(desc::Decoration::NoPerspective.spec_code(), rest);
            desc::Decoration::NoPerspective.lemma_code_round_trip();
        }
        DecorationView::Flat => {
            assert(decoration_words(d) + rest =~= seq![desc::Decoration::Flat.spec_code()] + rest);
            lemma_word_round_trip(desc::Decoration::Flat.spec_code(), rest);
            desc::Decoration::Flat.lemma_code_round_trip();
        }
        DecorationView::Patch => {
            assert(decoration_words(d) + rest =~= seq![desc::Decoration::Patch.spec_code()] + rest);
            lemma_word_round_trip(desc::Decoration::Patch.spec_code(), rest);
            desc::Decoration::Patch.lemma_code_round_trip();
        }
        DecorationView::Centroid => {
            assert(decoration_words(d) + rest =~= seq![desc::Decoration::Centroid.spec_code()] + rest);
            lemma_word_round_trip(desc::Decoration::Centroid.spec_code(), rest);
            desc::Decoration::Centroid.lemma_code_round_trip();
        }
        DecorationView::Sample => {
            assert(decoration_words(d) + rest =~= seq![desc::Decoration::Sample.spec_code()] + rest);
            lemma_word_round_trip(desc::Decoration::Sample.spec_code(), rest);
            desc::Decoration::Sample.lemma_code_round_trip();
        }
        DecorationView::Invariant => {
            assert(decoration_words(d) + rest =~= seq![desc::Decoration::Invariant.spec_code()] + rest);
            lemma_word_round_trip(desc::Decoration::Invariant.spec_code(), rest);
            desc::Decoration::Invariant.lemma_code_round_trip();
        }
        DecorationView::Restrict => {
            assert(decoration_words(d) + rest =~= seq![desc::Decoration::Restrict.spec_code()] + rest);
            lemma_word_round_trip(desc::Decoration::Restrict.spec_code(), rest);
            desc::Decoration::Restrict.lemma_code_round_trip();
        }
        DecorationView::Aliased => {
            assert(decoration_words(d) + rest =~= seq![desc::Decoration::Aliased.spec_code()] + rest);
            lemma_word_round_trip(desc::Decoration::Aliased.spec_code(), rest);
            desc::Decoration::Aliased.lemma_code_round_trip();
        }
        DecorationView::Volatile => {
            assert(decoration_words(d) + rest =~= seq![desc::Decoration::Volatile.spec_code()] + rest);
            lemma_word_round_trip(desc::Decoration::Volatile.spec_code(), rest);
            desc::Decoration::Volatile.lemma_code_round_trip();
        }
        DecorationView::Constant => {
            assert(decoration_words(d) + rest =~= seq![desc::Decoration::Constant.spec_code()] + rest);
            lemma_word_round_trip(desc::Decoration::Constant.spec_code(), rest);
            desc::Decoration::Constant.lemma_code_round_trip();
        }
        DecorationView::Coherent => {
            assert(decoration_words(d) + rest =~= seq![desc::Decoration::Coherent.spec_code()] + rest);
            lemma_word_round_trip(desc::Decoration::Coherent.spec_code(), rest);
            desc::Decoration::Coherent.lemma_code_round_trip();
        }
        DecorationView::NonWritable => {
            assert(decoration_words(d) + rest =~= seq![desc::Decoration::NonWritable.spec_code()] + rest);
            lemma_word_round_trip(desc::Decoration::NonWritable.spec_code(), rest);
            desc::Decoration::NonWritable.lemma_code_round_trip();
        }
        DecorationView::NonReadable => {
            assert(decoration_words(d) + rest =~= seq![desc::Decoration::NonReadable.spec_code()] + rest);
            lemma_word_round_trip(desc::Decoration::NonReadable.spec_code(), rest);
            desc::Decoration::NonReadable.lemma_code_round_trip();
        }
        DecorationView::Uniform => {
            assert(decoration_words(d) + rest =~= seq![desc::Decoration::Uniform.spec_code()] + rest);
            lemma_word_round_trip(desc::Decoration::Uniform.spec_code(), rest);
            desc::Decoration::Uniform.lemma_code_round_trip();
        }
        DecorationView::SaturatedConversion => {
            assert(decoration_words(d) + rest =~= seq![desc::Decoration::SaturatedConversion.spec_code()] + rest);
            lemma_word_round_trip(desc::Decoration::SaturatedConversion.spec_code(), rest);
            desc::Decoration::SaturatedConversion.lemma_code_round_trip();
        }
        DecorationView::Stream(n) => {
            let t1 = seq![n] + rest;
            assert(decoration_words(d) + rest =~= seq![desc::Decoration::Stream.spec_code()] + t1);
            lemma_word_round_trip(desc::Decoration::Stream.spec_code(), t1);
            desc::Decoration::Stream.lemma_code_round_trip();
            lemma_word_round_trip(n, rest);
        }
        DecorationView::Location(n) => {
            let t1 = seq![n] + rest;
            assert(decoration_words(d) + rest =~= seq![desc::Decoration::Location.spec_code()] + t1);
            lemma_word_round_trip(desc::Decoration::Location.spec_code(), t1);
            desc::Decoration::Location.lemma_code_round_trip();
            lemma_word_round_trip(n, rest);
        }
        DecorationView::Component(n) => {
            let t1 = seq![n] + rest;
            assert(decoration_words(d) + rest =~= seq![desc::Decoration::Component.spec_code()] + t1);
            lemma_word_round_trip(desc::Decoration::Component.spec_code(), t1);
            desc::Decoration::Component.lemma_code_round_trip();
            lemma_word_round_trip(n, rest);
        }
        DecorationView::Index(n) => {
            let t1 = seq![n] + rest;
            assert(decoration_words(d) + rest =~= seq![desc::Decoration::Index.spec_code()] + t1);
            lemma_word_round_trip(desc::Decoration::Index.spec_code(), t1);
            desc::Decoration::Index.lemma_code_round_trip();
            lemma_word_round_trip(n, rest);
        }
        DecorationView::Binding(n) => {
            let t1 = seq![n] + rest;
            assert(decoration_words(d) + rest =~= seq![desc::Decoration::Binding.spec_code()] + t1);
            lemma_word_round_trip(desc::Decoration::Binding.spec_code(), t1);
            desc::Decoration::Binding.lemma_code_round_trip();
            lemma_word_round_trip(n, rest);
        }
        DecorationView::DescriptorSet(n) => {
            let t1 = seq![n] + rest;
            assert(decoration_words(d) + rest =~= seq![desc::Decoration::DescriptorSet.spec_code()] + t1);
            lemma_word_round_trip(desc::Decoration::DescriptorSet.spec_code(), t1);
            desc::Decoration::DescriptorSet.lemma_code_round_trip();
            lemma_word_round_trip(n, rest);
        }
        DecorationView::Offset(n) => {
            let t1 = seq![n] + rest;
            assert(decoration_words(d) + rest =~= seq![desc::Decoration::Offset.spec_code()] + t1);
            lemma_word_round_trip(desc::Decoration::Offset.spec_code(), t1);
            desc::Decoration::Offset.lemma_code_round_trip();
            lemma_word_round_trip(n, rest);
        }
        DecorationView::XfbBuffer(n) => {
            let t1 = seq![n] + rest;
            assert(decoration_words(d) + rest =~= seq![desc::Decoration::XfbBuffer.spec_code()] + t1);
            lemma_word_round_trip(desc::Decoration::XfbBuffer.spec_code(), t1);
            desc::Decoration::XfbBuffer.lemma_code_round_trip();
            lemma_word_round_trip(n, rest);
        }
        DecorationView::XfbStride(n) => {
            let t1 = seq![n] + rest;
            assert(decoration_words(d) + rest =~= seq![desc::Decoration::XfbStride.spec_code()] + t1);
            lemma_word_round_trip(desc::Decoration::XfbStride.spec_code(), t1);
            desc::Decoration::XfbStride.lemma_code_round_trip();
            lemma_word_round_trip(n, rest);
        }
        DecorationView::FuncParamAttr(x) => {
            let t1 = seq![x.spec_code()] + rest;
            assert(decoration_words(d) + rest =~= seq![desc::Decoration::FuncParamAttr.spec_code()] + t1);
            lemma_word_round_trip(desc::Decoration::FuncParamAttr.spec_code(), t1);
            desc::Decoration::FuncParamAttr.lemma_code_round_trip();
            lemma_word_round_trip(x.spec_code(), rest);
            x.lemma_code_round_trip();
        }
        DecorationView::FPRoundingMode(x) => {
            let t1 = seq![x.spec_code()] + rest;
            assert(decoration_words(d) + rest =~= seq![desc::Decoration::FPRoundingMode.spec_code()] + t1);
            lemma_word_round_trip(desc::Decoration::FPRoundingMode.spec_code(), t1);
            desc::Decoration::FPRoundingMode.lemma_code_round_trip();
            lemma_word_round_trip(x.spec_code(), rest);
            x.lemma_code_round_trip();
        }
        DecorationView::FPFastMathMode(b) => {
            let t1 = seq![b.0] + rest;
            assert(decoration_words(d) + rest =~= seq![desc::Decoration::FPFastMathMode.spec_code()] + t1);
            lemma_word_round_trip(desc::Decoration::FPFastMathMode.spec_code(), t1);
            desc::Decoration::FPFastMathMode.lemma_code_round_trip();
            lemma_word_round_trip(b.0, rest);
        }
        DecorationView::LinkageAttributes(name, ty) => {
            let t1 = str_words(name) + (seq![ty.spec_code()] + rest);
            assert(decoration_words(d) + rest =~= seq![desc::Decoration::LinkageAttributes.spec_code()] + t1);
            lemma_word_round_trip(desc::Decoration::LinkageAttributes.spec_code(), t1);
            desc::Decoration::LinkageAttributes.lemma_code_round_trip();
            lemma_string_round_trip(name, seq![ty.spec_code()] + rest);
            lemma_word_round_trip(ty.spec_code(), rest);
            ty.lemma_code_round_trip();
        }
        DecorationView::NoContraction => {
            assert(decoration_words(d) + rest =~= seq![desc::Decoration::NoContraction.spec_code()] + rest);
            lemma_word_round_trip(desc::Decoration::NoContraction.spec_code(), rest);
            desc::Decoration::NoContraction.lemma_code_round_trip();
        }
        DecorationView::InputAttachmentIndex(n) => {
            let t1 = seq![n] + rest;
            assert(decoration_words(d) + rest =~= seq![desc::Decoration::InputAttachmentIndex.spec_code()] + t1);
            lemma_word_round_trip(desc::Decoration::InputAttachmentIndex.spec_code(), t1);
            desc::Decoration::InputAttachmentIndex.lemma_code_round_trip();
            lemma_word_round_trip(n, rest);
        }
        DecorationView::Alignment(n) => {
            let t1 = seq![n] + rest;
            assert(decoration_words(d) + rest =~= seq![desc::Decoration::Alignment.spec_code()] + t1);
            lemma_word_round_trip(desc::Decoration::Alignment.spec_code(), t1);
            desc::Decoration::Alignment.lemma_code_round_trip();
            lemma_word_round_trip(n, rest);
        }
    }
}

proof fn lemma_rt_undef(v: InstructionView)
    requires
        wf_inst(v),
        (v matches InstructionView::Undef { .. }),
    ensures
        sp_inst(v.opcode(), spec_inst_params(v)) == Ok::<_, ParseError>(v),
{
    match v {
            InstructionView::Undef { result_type, result_id } => {
                let t2 = Seq::<u32>::empty();
                let t1 = seq![result_id.0] + t2;
                let t0 = seq![result_type.0] + t1;
                assert(spec_inst_params(v) =~= t0);
                lemma_word_round_trip(result_type.0, t1);
                lemma_word_round_trip(result_id.0, t2);
            }
        _ => {
            assert(false);
        }
    }
}

proof fn lemma_rt_source(v: InstructionView)
    requires
        wf_inst(v),
        (v matches InstructionView::Source { .. }),
    ensures
        sp_inst(v.opcode(), spec_inst_params(v)) == Ok::<_, ParseError>(v),
{
    match v {
            InstructionView::Source { src_lang, version, file, source } => {
                let t4 = Seq::<u32>::empty();
                let t3 = opt_str_words(source) + t4;
                let t2 = opt_id_words(file.0) + t3;
                let t1 = seq![version] + t2;
                let t0 = seq![src_lang.spec_code()] + t1;
                assert(spec_inst_params(v) =~= t0);
                lemma_word_round_trip(src_lang.spec_code(), t1);
                src_lang.lemma_code_round_trip();
                lemma_word_round_trip(version, t2);
                if file.0 != 0 {
                    lemma_word_round_trip(file.0, t3);
                } else {
                    assert(opt_id_words(file.0) + t3 =~= t3);
                }
                match source {
                    Some(b) => {
                        lemma_str_words_len(b);
                        lemma_string_round_trip(b, t4);
                    }
                    None => {
                        assert(opt_str_words(source) + t4 =~= t4);
                    }
                }
            }
        _ => {
            assert(false);
        }
    }
}

proof fn lemma_rt_name(v: InstructionView)
    requires
        wf_inst(v),
        (v matches InstructionView::Name { .. }),
    ensures
        sp_inst(v.opcode(), spec_inst_params(v)) == Ok::<_, ParseError>(v),
{
    match v {
            InstructionView::Name { target, name } => {
                let t2 = Seq::<u32>::empty();
                let t1 = str_words(name) + t2;
                let t0 = seq![target.0] + t1;
                assert(spec_inst_params(v) =~= t0);
                lemma_word_round_trip(target.0, t1);
                lemma_string_round_trip(name, t2);
            }
        _ => {
            assert(false);
        }
    }
}

proof fn lemma_rt_member_name(v: InstructionView)
    requires
        wf_inst(v),
        (v matches InstructionView::MemberName { .. }),
    ensures
        sp_inst(v.opcode(), spec_inst_params(v)) == Ok::<_, ParseError>(v),
{
    match v {
            InstructionView::MemberName { target, member, name } => {
                let t3 = Seq::<u32>::empty();
                let t2 = str_words(name) + t3;
                let t1 = seq![member] + t2;
                let t0 = seq![target.0] + t1;
                assert(spec_inst_params(v) =~= t0);
                lemma_word_round_trip(target.0, t1);
                lemma_word_round_trip(member, t2);
                lemma_string_round_trip(name, t3);
            }
        _ => {
            assert(false);
        }
    }
}

proof fn lemma_rt_line(v: InstructionView)
    requires
        wf_inst(v),
        (v matches InstructionView::Line { .. }),
    ensures
        sp_inst(v.opcode(), spec_inst_params(v)) == Ok::<_, ParseError>(v),
{
    match v {
            InstructionView::Line { file, line, column } => {
                let t3 = Seq::<u32>::empty();
                let t2 = seq![column] + t3;
                let t1 = seq![line] + t2;
                let t0 = seq![file.0] + t1;
                assert(spec_inst_params(v) =~= t0);
                lemma_word_round_trip(file.0, t1);
                lemma_word_round_trip(line, t2);
                lemma_word_round_trip(column, t3);
            }
        _ => {
            assert(false);
        }
    }
}

proof fn lemma_rt_memory_model(v: InstructionView)
    requires
        wf_inst(v),
        (v matches InstructionView::MemoryModel { .. }),
    ensures
        sp_inst(v.opcode(), spec_inst_params(v)) == Ok::<_, ParseError>(v),
{
    match v {
            InstructionView::MemoryModel { addressing_model, memory_model } => {
                let t2 = Seq::<u32>::empty();
                let t1 = seq![memory_model.spec_code()] + t2;
                let t0 = seq![addressing_model.spec_code()] + t1;
                assert(spec_inst_params(v) =~= t0);
                lemma_word_round_trip(addressing_model.spec_code(), t1);
                addressing_model.lemma_code_round_trip();
                lemma_word_round_trip(memory_model.spec_code(), t2);
                memory_model.lemma_code_round_trip();
            }
        _ => {
            assert(false);
        }
    }
}

proof fn lemma_rt_entry_point(v: InstructionView)
    requires
        wf_inst(v),
        (v matches InstructionView::EntryPoint { .. }),
    ensures
        sp_inst(v.opcode(), spec_inst_params(v)) == Ok::<_, ParseError>(v),
{
    match v {
            InstructionView::EntryPoint { execution_model, func, name, interface } => {
                let t4 = Seq::<u32>::empty();
                let t3 = interface.map_values(|x: ValueId| x.0) + t4;
                let t2 = str_words(name) + t3;
                let t1 = seq![func.0] + t2;
                let t0 = seq![execution_model.spec_code()] + t1;
                assert(spec_inst_params(v) =~= t0);
                lemma_word_round_trip(execution_model.spec_code(), t1);
                execution_model.lemma_code_round_trip();
                lemma_word_round_trip(func.0, t2);
                lemma_string_round_trip(name, t3);
                assert(interface.map_values(|x: ValueId| x.0) + t4 =~= interface.map_values(|x: ValueId| x.0));
                assert(interface.map_values(|x: ValueId| x.0).map_values(|w: u32| ValueId(w)) =~= interface);
            }
        _ => {
            assert(false);
        }
    }
}

proof fn lemma_rt_execution_mode(v: InstructionView)
    requires
        wf_inst(v),
        (v matches InstructionView::ExecutionMode { .. }),
    ensures
        sp_inst(v.opcode(), spec_inst_params(v)) == Ok::<_, ParseError>(v),
{
    match v {
            InstructionView::ExecutionMode { target, mode } => {
                let t2 = Seq::<u32>::empty();
                let t1 = exec_mode_words(mode) + t2;
                let t0 = seq![target.0] + t1;
                assert(spec_inst_params(v) =~= t0);
                lemma_word_round_trip(target.0, t1);
                lemma_exec_mode_round_trip(mode, t2);
            }
        _ => {
            assert(false);
        }
    }
}

proof fn lemma_rt_capability(v: InstructionView)
    requires
        wf_inst(v),
        (v matches InstructionView::Capability { .. }),
    ensures
        sp_inst(v.opcode(), spec_inst_params(v)) == Ok::<_, ParseError>(v),
{
    match v {
            InstructionView::Capability { capability } => {
                let t1 = Seq::<u32>::empty();
                let t0 = seq![capability.spec_code()] + t1;
                assert(spec_inst_params(v) =~= t0);
                lemma_word_round_trip(capability.spec_code(), t1);
                capability.lemma_code_round_trip();
            }
        _ => {
            assert(false);
        }
    }
}

proof fn lemma_rt_type_void(v: InstructionView)
    requires
        wf_inst(v),
        (v matches InstructionView::TypeVoid { .. }),
    ensures
        sp_inst(v.opcode(), spec_inst_params(v)) == Ok::<_, ParseError>(v),
{
    match v {
            InstructionView::TypeVoid { result_type } => {
                let t1 = Seq::<u32>::empty();
                let t0 = seq![result_type.0] + t1;
                assert(spec_inst_params(v) =~= t0);
                lemma_word_round_trip(result_type.0, t1);
            }
        _ => {
            assert(false);
        }
    }
}

proof fn lemma_rt_type_bool(v: InstructionView)
    requires
        wf_inst(v),
        (v matches InstructionView::TypeBool { .. }),
    ensures
        sp_inst(v.opcode(), spec_inst_params(v)) == Ok::<_, ParseError>(v),
{
    match v {
            InstructionView::TypeBool { result_type } => {
                let t1 = Seq::<u32>::empty();
                let t0 = seq![result_type.0] + t1;
                assert(spec_inst_params(v) =~= t0);
                lemma_word_round_trip(result_type.0, t1);
            }
        _ => {
            assert(false);
        }
    }
}

proof fn lemma_rt_type_int(v: InstructionView)
    requires
        wf_inst(v),
        (v matches InstructionView::TypeInt { .. }),
    ensures
        sp_inst(v.opcode(), spec_inst_params(v)) == Ok::<_, ParseError>(v),
{
    match v {
            InstructionView::TypeInt { result_type, width, signed } => {
                let t3 = Seq::<u32>::empty();
                let t2 = seq![bool_word(signed)] + t3;
                let t1 = seq![width] + t2;
                let t0 = seq![result_type.0] + t1;
                assert(spec_inst_params(v) =~= t0);
                lemma_word_round_trip(result_type.0, t1);
                lemma_word_round_trip(width, t2);
                lemma_word_round_trip(bool_word(signed), t3);
            }
        _ => {
            assert(false);
        }
    }
}

proof fn lemma_rt_type_float(v: InstructionView)
    requires
        wf_inst(v),
        (v matches InstructionView::TypeFloat { .. }),
    ensures
        sp_inst(v.opcode(), spec_inst_params(v)) == Ok::<_, ParseError>(v),
{
    match v {
            InstructionView::TypeFloat { result_type, width } => {
                let t2 = Seq::<u32>::empty();
                let t1 = seq![width] + t2;
                let t0 = seq![result_type.0] + t1;
                assert(spec_inst_params(v) =~= t0);
                lemma_word_round_trip(result_type.0, t1);
                lemma_word_round_trip(width, t2);
            }
        _ => {
            assert(false);
        }
    }
}

proof fn lemma_rt_type_vector(v: InstructionView)
    requires
        wf_inst(v),
        (v matches InstructionView::TypeVector { .. }),
    ensures
        sp_inst(v.opcode(), spec_inst_params(v)) == Ok::<_, ParseError>(v),
{
    match v {
            InstructionView::TypeVector { result_type, type_id, len } => {
                let t3 = Seq::<u32>::empty();
                let t2 = seq![len] + t3;
                let t1 = seq![type_id.0] + t2;
                let t0 = seq![result_type.0] + t1;
                assert(spec_inst_params(v) =~= t0);
                lemma_word_round_trip(result_type.0, t1);
                lemma_word_round_trip(type_id.0, t2);
                lemma_word_round_trip(len, t3);
            }
        _ => {
            assert(false);
        }
    }
}

proof fn lemma_rt_type_matrix(v: InstructionView)
    requires
        wf_inst(v),
        (v matches InstructionView::TypeMatrix { .. }),
    ensures
        sp_inst(v.opcode(), spec_inst_params(v)) == Ok::<_, ParseError>(v),
{
    match v {
            InstructionView::TypeMatrix { result_type, type_id, cols } => {
                let t3 = Seq::<u32>::empty();
                let t2 = seq![cols] + t3;
                let t1 = seq![type_id.0] + t2;
                let t0 = seq![result_type.0] + t1;
                assert(spec_inst_params(v) =~= t0);
                lemma_word_round_trip(result_type.0, t1);
                lemma_word_round_trip(type_id.0, t2);
                lemma_word_round_trip(cols, t3);
            }
        _ => {
            assert(false);
        }
    }
}

#[verifier::rlimit(100)]
#[verifier::spinoff_prover]
proof fn lemma_rt_type_image(v: InstructionView)
    requires
        wf_inst(v),
        (v matches InstructionView::TypeImage { .. }),
    ensures
        sp_inst(v.opcode(), spec_inst_params(v)) == Ok::<_, ParseError>(v),
{
    match v {
            InstructionView::TypeImage { result_type, type_id, dim, depth, arrayed, multisampled, sampled, image_format, access_qualifier } => {
                let t9 = Seq::<u32>::empty();
                let t8 = opt_enum_words(access_qualifier) + t9;
                let t7 = seq![image_format.spec_code()] + t8;
                let t6 = seq![sampled] + t7;
                let t5 = seq![bool_word(multisampled)] + t6;
                let t4 = seq![bool_word(arrayed)] + t5;
                let t3 = seq![depth] + t4;
                let t2 = seq![dim.spec_code()] + t3;
                let t1 = seq![type_id.0] + t2;
                let t0 = seq![result_type.0] + t1;
                assert(spec_inst_params(v) =~= t0);
                lemma_word_round_trip(result_type.0, t1);
                lemma_word_round_trip(type_id.0, t2);
                lemma_word_round_trip(dim.spec_code(), t3);
                dim.lemma_code_round_trip();
                lemma_word_round_trip(depth, t4);
                lemma_word_round_trip(bool_word(arrayed), t5);
                lemma_word_round_trip(bool_word(multisampled), t6);
                lemma_word_round_trip(sampled, t7);
                lemma_word_round_trip(image_format.spec_code(), t8);
                image_format.lemma_code_round_trip();
                match access_qualifier {
                    Some(x) => {
                        lemma_word_round_trip(x.spec_code(), t9);
                        x.lemma_code_round_trip();
                    }
                    None => {
                        assert(opt_enum_words(access_qualifier) + t9 =~= t9);
                    }
                }
            }
        _ => {
            assert(false);
        }
    }
}

proof fn lemma_rt_type_sampler(v: InstructionView)
    requires
        wf_inst(v),
        (v matches InstructionView::TypeSampler { .. }),
    ensures
        sp_inst(v.opcode(), spec_inst_params(v)) == Ok::<_, ParseError>(v),
{
    match v {
            InstructionView::TypeSampler { result_type } => {
                let t1 = Seq::<u32>::empty();
                let t0 = seq![result_type.0] + t1;
                assert(spec_inst_params(v) =~= t0);
                lemma_word_round_trip(result_type.0, t1);
            }
        _ => {
            assert(false);
        }
    }
}

proof fn lemma_rt_type_sampled_image(v: InstructionView)
    requires
        wf_inst(v),
        (v matches InstructionView::TypeSampledImage { .. }),
    ensures
        sp_inst(v.opcode(), spec_inst_params(v)) == Ok::<_, ParseError>(v),
{
    match v {
            InstructionView::TypeSampledImage { result_type, image } => {
                let t2 = Seq::<u32>::empty();
                let t1 = seq![image.0] + t2;
                let t0 = seq![result_type.0] + t1;
                assert(spec_inst_params(v) =~= t0);
                lemma_word_round_trip(result_type.0, t1);
                lemma_word_round_trip(image.0, t2);
            }
        _ => {
            assert(false);
        }
    }
}

proof fn lemma_rt_type_array(v: InstructionView)
    requires
        wf_inst(v),
        (v matches InstructionView::TypeArray { .. }),
    ensures
        sp_inst(v.opcode(), spec_inst_params(v)) == Ok::<_, ParseError>(v),
{
    match v {
            InstructionView::TypeArray { result_type, element, len } => {
                let t3 = Seq::<u32>::empty();
                let t2 = seq![len.0] + t3;
                let t1 = seq![element.0] + t2;
                let t0 = seq![result_type.0] + t1;
                assert(spec_inst_params(v) =~= t0);
                lemma_word_round_trip(result_type.0, t1);
                lemma_word_round_trip(element.0, t2);
                lemma_word_round_trip(len.0, t3);
            }
        _ => {
            assert(false);
        }
    }
}

proof fn lemma_rt_type_runtime_array(v: InstructionView)
    requires
        wf_inst(v),
        (v matches InstructionView::TypeRuntimeArray { .. }),
    ensures
        sp_inst(v.opcode(), spec_inst_params(v)) == Ok::<_, ParseError>(v),
{
    match v {
            InstructionView::TypeRuntimeArray { result_type, element } => {
                let t2 = Seq::<u32>::empty();
                let t1 = seq![element.0] + t2;
                let t0 = seq![result_type.0] + t1;
                assert(spec_inst_params(v) =~= t0);
                lemma_word_round_trip(result_type.0, t1);
                lemma_word_round_trip(element.0, t2);
            }
        _ => {
            assert(false);
        }
    }
}

proof fn lemma_rt_type_struct(v: InstructionView)
    requires
        wf_inst(v),
        (v matches InstructionView::TypeStruct { .. }),
    ensures
        sp_inst(v.opcode(), spec_inst_params(v)) == Ok::<_, ParseError>(v),
{
    match v {
            InstructionView::TypeStruct { result_type, fields } => {
                let t2 = Seq::<u32>::empty();
                let t1 = fields.map_values(|x: TypeId| x.0) + t2;
                let t0 = seq![result_type.0] + t1;
                assert(spec_inst_params(v) =~= t0);
                lemma_word_round_trip(result_type.0, t1);
                assert(fields.map_values(|x: TypeId| x.0) + t2 =~= fields.map_values(|x: TypeId| x.0));
                assert(fields.map_values(|x: TypeId| x.0).map_values(|w: u32| TypeId(w)) =~= fields);
            }
        _ => {
            assert(false);
        }
    }
}

proof fn lemma_rt_type_opaque(v: InstructionView)
    requires
        wf_inst(v),
        (v matches InstructionView::TypeOpaque { .. }),
    ensures
        sp_inst(v.opcode(), spec_inst_params(v)) == Ok::<_, ParseError>(v),
{
    match v {
            InstructionView::TypeOpaque { result_type, name } => {
                let t2 = Seq::<u32>::empty();
                let t1 = str_words(name) + t2;
                let t0 = seq![result_type.0] + t1;
                assert(spec_inst_params(v) =~= t0);
                lemma_word_round_trip(result_type.0, t1);
                lemma_string_round_trip(name, t2);
            }
        _ => {
            assert(false);
        }
    }
}

proof fn lemma_rt_type_pointer(v: InstructionView)
    requires
        wf_inst(v),
        (v matches InstructionView::TypePointer { .. }),
    ensures
        sp_inst(v.opcode(), spec_inst_params(v)) == Ok::<_, ParseError>(v),
{
    match v {
            InstructionView::TypePointer { result_type, storage_class, pointee } => {
                let t3 = Seq::<u32>::empty();
                let t2 = seq![pointee.0] + t3;
                let t1 = seq![storage_class.spec_code()] + t2;
                let t0 = seq![result_type.0] + t1;
                assert(spec_inst_params(v) =~= t0);
                lemma_word_round_trip(result_type.0, t1);
                lemma_word_round_trip(storage_class.spec_code(), t2);
                storage_class.lemma_code_round_trip();
                lemma_word_round_trip(pointee.0, t3);
            }
        _ => {
            assert(false);
        }
    }
}

proof fn lemma_rt_type_function(v: InstructionView)
    requires
        wf_inst(v),
        (v matches InstructionView::TypeFunction { .. }),
    ensures
        sp_inst(v.opcode(), spec_inst_params(v)) == Ok::<_, ParseError>(v),
{
    match v {
            InstructionView::TypeFunction { result_type, return_ty, params } => {
                let t3 = Seq::<u32>::empty();
                let t2 = params.map_values(|x: TypeId| x.0) + t3;
                let t1 = seq![return_ty.0] + t2;
                let t0 = seq![result_type.0] + t1;
                assert(spec_inst_params(v) =~= t0);
                lemma_word_round_trip(result_type.0, t1);
                lemma_word_round_trip(return_ty.0, t2);
                assert(params.map_values(|x: TypeId| x.0) + t3 =~= params.map_values(|x: TypeId| x.0));
                assert(params.map_values(|x: TypeId| x.0).map_values(|w: u32| TypeId(w)) =~= params);
            }
        _ => {
            assert(false);
        }
    }
}

proof fn lemma_rt_type_forward_pointer(v: InstructionView)
    requires
        wf_inst(v),
        (v matches InstructionView::TypeForwardPointer { .. }),
    ensures
        sp_inst(v.opcode(), spec_inst_params(v)) == Ok::<_, ParseError>(v),
{
    match v {
            InstructionView::TypeForwardPointer { type_id, storage_class } => {
                let t2 = Seq::<u32>::empty();
                let t1 = seq![storage_class.spec_code()] + t2;
                let t0 = seq![type_id.0] + t1;
                assert(spec_inst_params(v) =~= t0);
                lemma_word_round_trip(type_id.0, t1);
                lemma_word_round_trip(storage_class.spec_code(), t2);
                storage_class.lemma_code_round_trip();
            }
        _ => {
            assert(false);
        }
    }
}

proof fn lemma_rt_constant_true(v: InstructionView)
    requires
        wf_inst(v),
        (v matches InstructionView::ConstantTrue { .. }),
    ensures
        sp_inst(v.opcode(), spec_inst_params(v)) == Ok::<_, ParseError>(v),
{
    match v {
            InstructionView::ConstantTrue { result_type, result_id } => {
                let t2 = Seq::<u32>::empty();
                let t1 = seq![result_id.0] + t2;
                let t0 = seq![result_type.0] + t1;
                assert(spec_inst_params(v) =~= t0);
                lemma_word_round_trip(result_type.0, t1);
                lemma_word_round_trip(result_id.0, t2);
            }
        _ => {
            assert(false);
        }
    }
}

proof fn lemma_rt_constant_false(v: InstructionView)
    requires
        wf_inst(v),
        (v matches InstructionView::ConstantFalse { .. }),
    ensures
        sp_inst(v.opcode(), spec_inst_params(v)) == Ok::<_, ParseError>(v),
{
    match v {
            InstructionView::ConstantFalse { result_type, result_id } => {
                let t2 = Seq::<u32>::empty();
                let t1 = seq![result_id.0] + t2;
                let t0 = seq![result_type.0] + t1;
                assert(spec_inst_params(v) =~= t0);
                lemma_word_round_trip(result_type.0, t1);
                lemma_word_round_trip(result_id.0, t2);
            }
        _ => {
            assert(false);
        }
    }
}

proof fn lemma_rt_constant(v: InstructionView)
    requires
        wf_inst(v),
        (v matches InstructionView::Constant { .. }),
    ensures
        sp_inst(v.opcode(), spec_inst_params(v)) == Ok::<_, ParseError>(v),
{
    match v {
            InstructionView::Constant { result_type, result_id, value } => {
                let t3 = Seq::<u32>::empty();
                let t2 = value + t3;
                let t1 = seq![result_id.0] + t2;
                let t0 = seq![result_type.0] + t1;
                assert(spec_inst_params(v) =~= t0);
                lemma_word_round_trip(result_type.0, t1);
                lemma_word_round_trip(result_id.0, t2);
                assert(value + t3 =~= value);
            }
        _ => {
            assert(false);
        }
    }
}

proof fn lemma_rt_constant_composite(v: InstructionView)
    requires
        wf_inst(v),
        (v matches InstructionView::ConstantComposite { .. }),
    ensures
        sp_inst(v.opcode(), spec_inst_params(v)) == Ok::<_, ParseError>(v),
{
    match v {
            InstructionView::ConstantComposite { result_type, result_id, constituents } => {
                let t3 = Seq::<u32>::empty();
                let t2 = constituents.map_values(|x: ValueId| x.0) + t3;
                let t1 = seq![result_id.0] + t2;
                let t0 = seq![result_type.0] + t1;
                assert(spec_inst_params(v) =~= t0);
                lemma_word_round_trip(result_type.0, t1);
                lemma_word_round_trip(result_id.0, t2);
                assert(constituents.map_values(|x: ValueId| x.0) + t3 =~= constituents.map_values(|x: ValueId| x.0));
                assert(constituents.map_values(|x: ValueId| x.0).map_values(|w: u32| ValueId(w)) =~= constituents);
            }
        _ => {
            assert(false);
        }
    }
}

proof fn lemma_rt_constant_null(v: InstructionView)
    requires
        wf_inst(v),
        (v matches InstructionView::ConstantNull { .. }),
    ensures
        sp_inst(v.opcode(), spec_inst_params(v)) == Ok::<_, ParseError>(v),
{
    match v {
            InstructionView::ConstantNull { result_type, result_id } => {
                let t2 = Seq::<u32>::empty();
                let t1 = seq![result_id.0] + t2;
                let t0 = seq![result_type.0] + t1;
                assert(spec_inst_params(v) =~= t0);
                lemma_word_round_trip(result_type.0, t1);
                lemma_word_round_trip(result_id.0, t2);
            }
        _ => {
            assert(false);
        }
    }
}

proof fn lemma_rt_spec_constant_true(v: InstructionView)
    requires
        wf_inst(v),
        (v matches InstructionView::SpecConstantTrue { .. }),
    ensures
        sp_inst(v.opcode(), spec_inst_params(v)) == Ok::<_, ParseError>(v),
{
    match v {
            InstructionView::SpecConstantTrue { result_type, result_id } => {
                let t2 = Seq::<u32>::empty();
                let t1 = seq![result_id.0] + t2;
                let t0 = seq![result_type.0] + t1;
                assert(spec_inst_params(v) =~= t0);
                lemma_word_round_trip(result_type.0, t1);
                lemma_word_round_trip(result_id.0, t2);
            }
        _ => {
            assert(false);
        }
    }
}

proof fn lemma_rt_spec_constant_false(v: InstructionView)
    requires
        wf_inst(v),
        (v matches InstructionView::SpecConstantFalse { .. }),
    ensures
        sp_inst(v.opcode(), spec_inst_params(v)) == Ok::<_, ParseError>(v),
{
    match v {
            InstructionView::SpecConstantFalse { result_type, result_id } => {
                let t2 = Seq::<u32>::empty();
                let t1 = seq![result_id.0] + t2;
                let t0 = seq![result_type.0] + t1;
                assert(spec_inst_params(v) =~= t0);
                lemma_word_round_trip(result_type.0, t1);
                lemma_word_round_trip(result_id.0, t2);
            }
        _ => {
            assert(false);
        }
    }
}

proof fn lemma_rt_function(v: InstructionView)
    requires
        wf_inst(v),
        (v matches InstructionView::Function { .. }),
    ensures
        sp_inst(v.opcode(), spec_inst_params(v)) == Ok::<_, ParseError>(v),
{
    match v {
            InstructionView::Function { result_type, result_id, function_control, function_type } => {
                let t4 = Seq::<u32>::empty();
                let t3 = seq![function_type.0] + t4;
                let t2 = seq![function_control.0] + t3;
                let t1 = seq![result_id.0] + t2;
                let t0 = seq![result_type.0] + t1;
                assert(spec_inst_params(v) =~= t0);
                lemma_word_round_trip(result_type.0, t1);
                lemma_word_round_trip(result_id.0, t2);
                lemma_word_round_trip(function_control.0, t3);
                lemma_word_round_trip(function_type.0, t4);
            }
        _ => {
            assert(false);
        }
    }
}

proof fn lemma_rt_function_parameter(v: InstructionView)
    requires
        wf_inst(v),
        (v matches InstructionView::FunctionParameter { .. }),
    ensures
        sp_inst(v.opcode(), spec_inst_params(v)) == Ok::<_, ParseError>(v),
{
    match v {
            InstructionView::FunctionParameter { result_type, result_id } => {
                let t2 = Seq::<u32>::empty();
                let t1 = seq![result_id.0] + t2;
                let t0 = seq![result_type.0] + t1;
                assert(spec_inst_params(v) =~= t0);
                lemma_word_round_trip(result_type.0, t1);
                lemma_word_round_trip(result_id.0, t2);
            }
        _ => {
            assert(false);
        }
    }
}

proof fn lemma_rt_function_call(v: InstructionView)
    requires
        wf_inst(v),
        (v matches InstructionView::FunctionCall { .. }),
    ensures
        sp_inst(v.opcode(), spec_inst_params(v)) == Ok::<_, ParseError>(v),
{
    match v {
            InstructionView::FunctionCall { result_type, result_id, function, arguments } => {
                let t4 = Seq::<u32>::empty();
                let t3 = arguments.map_values(|x: ValueId| x.0) + t4;
                let t2 = seq![function.0] + t3;
                let t1 = seq![result_id.0] + t2;
                let t0 = seq![result_type.0] + t1;
                assert(spec_inst_params(v) =~= t0);
                lemma_word_round_trip(result_type.0, t1);
                lemma_word_round_trip(result_id.0, t2);
                lemma_word_round_trip(function.0, t3);
                assert(arguments.map_values(|x: ValueId| x.0) + t4 =~= arguments.map_values(|x: ValueId| x.0));
                assert(arguments.map_values(|x: ValueId| x.0).map_values(|w: u32| ValueId(w)) =~= arguments);
            }
        _ => {
            assert(false);
        }
    }
}

proof fn lemma_rt_variable(v: InstructionView)
    requires
        wf_inst(v),
        (v matches InstructionView::Variable { .. }),
    ensures
        sp_inst(v.opcode(), spec_inst_params(v)) == Ok::<_, ParseError>(v),
{
    match v {
            InstructionView::Variable { result_type, result_id, storage_class, initializer } => {
                let t4 = Seq::<u32>::empty();
                let t3 = opt_id_words(initializer.0) + t4;
                let t2 = seq![storage_class.spec_code()] + t3;
                let t1 = seq![result_id.0] + t2;
                let t0 = seq![result_type.0] + t1;
                assert(spec_inst_params(v) =~= t0);
                lemma_word_round_trip(result_type.0, t1);
                lemma_word_round_trip(result_id.0, t2);
                lemma_word_round_trip(storage_class.spec_code(), t3);
                storage_class.lemma_code_round_trip();
                if initializer.0 != 0 {
                    lemma_word_round_trip(initializer.0, t4);
                } else {
                    assert(opt_id_words(initializer.0) + t4 =~= t4);
                }
            }
        _ => {
            assert(false);
        }
    }
}

proof fn lemma_rt_load(v: InstructionView)
    requires
        wf_inst(v),
        (v matches InstructionView::Load { .. }),
    ensures
        sp_inst(v.opcode(), spec_inst_params(v)) == Ok::<_, ParseError>(v),
{
    match v {
            InstructionView::Load { result_type, result_id, pointer, memory_access } => {
                let t4 = Seq::<u32>::empty();
                let t3 = seq![memory_access.0] + t4;
                let t2 = seq![pointer.0] + t3;
                let t1 = seq![result_id.0] + t2;
                let t0 = seq![result_type.0] + t1;
                assert(spec_inst_params(v) =~= t0);
                lemma_word_round_trip(result_type.0, t1);
                lemma_word_round_trip(result_id.0, t2);
                lemma_word_round_trip(pointer.0, t3);
                lemma_word_round_trip(memory_access.0, t4);
            }
        _ => {
            assert(false);
        }
    }
}

proof fn lemma_rt_store(v: InstructionView)
    requires
        wf_inst(v),
        (v matches InstructionView::Store { .. }),
    ensures
        sp_inst(v.opcode(), spec_inst_params(v)) == Ok::<_, ParseError>(v),
{
    match v {
            InstructionView::Store { pointer, object, memory_access } => {
                let t3 = Seq::<u32>::empty();
                let t2 = seq![memory_access.0] + t3;
                let t1 = seq![object.0] + t2;
                let t0 = seq![pointer.0] + t1;
                assert(spec_inst_params(v) =~= t0);
                lemma_word_round_trip(pointer.0, t1);
                lemma_word_round_trip(object.0, t2);
                lemma_word_round_trip(memory_access.0, t3);
            }
        _ => {
            assert(false);
        }
    }
}

proof fn lemma_rt_access_chain(v: InstructionView)
    requires
        wf_inst(v),
        (v matches InstructionView::AccessChain { .. }),
    ensures
        sp_inst(v.opcode(), spec_inst_params(v)) == Ok::<_, ParseError>(v),
{
    match v {
            InstructionView::AccessChain { result_type, result_id, base, indexes } => {
                let t4 = Seq::<u32>::empty();
                let t3 = indexes.map_values(|x: ValueId| x.0) + t4;
                let t2 = seq![base.0] + t3;
                let t1 = seq![result_id.0] + t2;
                let t0 = seq![result_type.0] + t1;
                assert(spec_inst_params(v) =~= t0);
                lemma_word_round_trip(result_type.0, t1);
                lemma_word_round_trip(result_id.0, t2);
                lemma_word_round_trip(base.0, t3);
                assert(indexes.map_values(|x: ValueId| x.0) + t4 =~= indexes.map_values(|x: ValueId| x.0));
                assert(indexes.map_values(|x: ValueId| x.0).map_values(|w: u32| ValueId(w)) =~= indexes);
            }
        _ => {
            assert(false);
        }
    }
}

proof fn lemma_rt_decorate(v: InstructionView)
    requires
        wf_inst(v),
        (v matches InstructionView::Decorate { .. }),
    ensures
        sp_inst(v.opcode(), spec_inst_params(v)) == Ok::<_, ParseError>(v),
{
    match v {
            InstructionView::Decorate { target, decoration } => {
                let t2 = Seq::<u32>::empty();
                let t1 = decoration_words(decoration) + t2;
                let t0 = seq![target.0] + t1;
                assert(spec_inst_params(v) =~= t0);
                lemma_word_round_trip(target.0, t1);
                lemma_decoration_round_trip(decoration, t2);
            }
        _ => {
            assert(false);
        }
    }
}

proof fn lemma_rt_member_decorate(v: InstructionView)
    requires
        wf_inst(v),
        (v matches InstructionView::MemberDecorate { .. }),
    ensures
        sp_inst(v.opcode(), spec_inst_params(v)) == Ok::<_, ParseError>(v),
{
    match v {
            InstructionView::MemberDecorate { structure_type, member, decoration } => {
                let t3 = Seq::<u32>::empty();
                let t2 = decoration_words(decoration) + t3;
                let t1 = seq![member] + t2;
                let t0 = seq![structure_type.0] + t1;
                assert(spec_inst_params(v) =~= t0);
                lemma_word_round_trip(structure_type.0, t1);
                lemma_word_round_trip(member, t2);
                lemma_decoration_round_trip(decoration, t3);
            }
        _ => {
            assert(false);
        }
    }
}

proof fn lemma_rt_decoration_group(v: InstructionView)
    requires
        wf_inst(v),
        (v matches InstructionView::DecorationGroup { .. }),
    ensures
        sp_inst(v.opcode(), spec_inst_params(v)) == Ok::<_, ParseError>(v),
{
    match v {
            InstructionView::DecorationGroup { result_id } => {
                let t1 = Seq::<u32>::empty();
                let t0 = seq![result_id.0] + t1;
                assert(spec_inst_params(v) =~= t0);
                lemma_word_round_trip(result_id.0, t1);
            }
        _ => {
            assert(false);
        }
    }
}

proof fn lemma_rt_group_decorate(v: InstructionView)
    requires
        wf_inst(v),
        (v matches InstructionView::GroupDecorate { .. }),
    ensures
        sp_inst(v.opcode(), spec_inst_params(v)) == Ok::<_, ParseError>(v),
{
    match v {
            InstructionView::GroupDecorate { group, targets } => {
                let t2 = Seq::<u32>::empty();
                let t1 = targets.map_values(|x: Id| x.0) + t2;
                let t0 = seq![group.0] + t1;
                assert(spec_inst_params(v) =~= t0);
                lemma_word_round_trip(group.0, t1);
                assert(targets.map_values(|x: Id| x.0) + t2 =~= targets.map_values(|x: Id| x.0));
                assert(targets.map_values(|x: Id| x.0).map_values(|w: u32| Id(w)) =~= targets);
            }
        _ => {
            assert(false);
        }
    }
}

proof fn lemma_rt_group_member_decorate(v: InstructionView)
    requires
        wf_inst(v),
        (v matches InstructionView::GroupMemberDecorate { .. }),
    ensures
        sp_inst(v.opcode(), spec_inst_params(v)) == Ok::<_, ParseError>(v),
{
    match v {
            InstructionView::GroupMemberDecorate { group, targets } => {
                let t2 = Seq::<u32>::empty();
                let t1 = pair_words(targets.map_values(|x: (Id, u32)| (x.0.0, x.1))) + t2;
                let t0 = seq![group.0] + t1;
                assert(spec_inst_params(v) =~= t0);
                lemma_word_round_trip(group.0, t1);
                let raw = targets.map_values(|x: (Id, u32)| (x.0.0, x.1));
                lemma_pairs_round_trip(raw);
                assert(pair_words(raw) + t2 =~= pair_words(raw));
                assert(sp_pairs(pair_words(raw)).map_values(|p: (u32, u32)| (Id(p.0), p.1)) =~= targets);
            }
        _ => {
            assert(false);
        }
    }
}

proof fn lemma_rt_image_sample_implicit_lod(v: InstructionView)
    requires
        wf_inst(v),
        (v matches InstructionView::ImageSampleImplicitLod { .. }),
    ensures
        sp_inst(v.opcode(), spec_inst_params(v)) == Ok::<_, ParseError>(v),
{
    match v {
            InstructionView::ImageSampleImplicitLod { result_type, result_id, sampled_image, coordinate, image_operands } => {
                let t5 = Seq::<u32>::empty();
                let t4 = img_ops_words(image_operands) + t5;
                let t3 = seq![coordinate.0] + t4;
                let t2 = seq![sampled_image.0] + t3;
                let t1 = seq![result_id.0] + t2;
                let t0 = seq![result_type.0] + t1;
                assert(spec_inst_params(v) =~= t0);
                lemma_word_round_trip(result_type.0, t1);
                lemma_word_round_trip(result_id.0, t2);
                lemma_word_round_trip(sampled_image.0, t3);
                lemma_word_round_trip(coordinate.0, t4);
                lemma_image_operands_round_trip(image_operands, t5);
            }
        _ => {
            assert(false);
        }
    }
}

proof fn lemma_rt_phi(v: InstructionView)
    requires
        wf_inst(v),
        (v matches InstructionView::Phi { .. }),
    ensures
        sp_inst(v.opcode(), spec_inst_params(v)) == Ok::<_, ParseError>(v),
{
    match v {
            InstructionView::Phi { result_type, result_id, variables } => {
                let t3 = Seq::<u32>::empty();
                let t2 = pair_words(variables.map_values(|x: (ValueId, ValueId)| (x.0.0, x.1.0))) + t3;
                let t1 = seq![result_id.0] + t2;
                let t0 = seq![result_type.0] + t1;
                assert(spec_inst_params(v) =~= t0);
                lemma_word_round_trip(result_type.0, t1);
                lemma_word_round_trip(result_id.0, t2);
                let raw = variables.map_values(|x: (ValueId, ValueId)| (x.0.0, x.1.0));
                lemma_pairs_round_trip(raw);
                assert(pair_words(raw) + t3 =~= pair_words(raw));
                assert(sp_pairs(pair_words(raw)).map_values(|p: (u32, u32)| (ValueId(p.0), ValueId(p.1))) =~= variables);
            }
        _ => {
            assert(false);
        }
    }
}

proof fn lemma_rt_label(v: InstructionView)
    requires
        wf_inst(v),
        (v matches InstructionView::Label { .. }),
    ensures
        sp_inst(v.opcode(), spec_inst_params(v)) == Ok::<_, ParseError>(v),
{
    match v {
            InstructionView::Label { result_id } => {
                let t1 = Seq::<u32>::empty();
                let t0 = seq![result_id.0] + t1;
                assert(spec_inst_params(v) =~= t0);
                lemma_word_round_trip(result_id.0, t1);
            }
        _ => {
            assert(false);
        }
    }
}

proof fn lemma_rt_branch(v: InstructionView)
    requires
        wf_inst(v),
        (v matches InstructionView::Branch { .. }),
    ensures
        sp_inst(v.opcode(), spec_inst_params(v)) == Ok::<_, ParseError>(v),
{
    match v {
            InstructionView::Branch { target_label } => {
                let t1 = Seq::<u32>::empty();
                let t0 = seq![target_label.0] + t1;
                assert(spec_inst_params(v) =~= t0);
                lemma_word_round_trip(target_label.0, t1);
            }
        _ => {
            assert(false);
        }
    }
}

proof fn lemma_rt_branch_conditional(v: InstructionView)
    requires
        wf_inst(v),
        (v matches InstructionView::BranchConditional { .. }),
    ensures
        sp_inst(v.opcode(), spec_inst_params(v)) == Ok::<_, ParseError>(v),
{
    match v {
            InstructionView::BranchConditional { condition, true_label, false_label, weights } => {
                let t4 = Seq::<u32>::empty();
                let t3 = weights + t4;
                let t2 = seq![false_label.0] + t3;
                let t1 = seq![true_label.0] + t2;
                let t0 = seq![condition.0] + t1;
                assert(spec_inst_params(v) =~= t0);
                lemma_word_round_trip(condition.0, t1);
                lemma_word_round_trip(true_label.0, t2);
                lemma_word_round_trip(false_label.0, t3);
                assert(weights + t4 =~= weights);
            }
        _ => {
            assert(false);
        }
    }
}

proof fn lemma_rt_switch(v: InstructionView)
    requires
        wf_inst(v),
        (v matches InstructionView::Switch { .. }),
    ensures
        sp_inst(v.opcode(), spec_inst_params(v)) == Ok::<_, ParseError>(v),
{
    match v {
            InstructionView::Switch { selector, default, targets } => {
                let t3 = Seq::<u32>::empty();
                let t2 = pair_words(targets.map_values(|x: (u32, Id)| (x.0, x.1.0))) + t3;
                let t1 = seq![default.0] + t2;
                let t0 = seq![selector.0] + t1;
                assert(spec_inst_params(v) =~= t0);
                lemma_word_round_trip(selector.0, t1);
                lemma_word_round_trip(default.0, t2);
                let raw = targets.map_values(|x: (u32, Id)| (x.0, x.1.0));
                lemma_pairs_round_trip(raw);
                assert(pair_words(raw) + t3 =~= pair_words(raw));
                assert(sp_pairs(pair_words(raw)).map_values(|p: (u32, u32)| (p.0, Id(p.1))) =~= targets);
            }
        _ => {
            assert(false);
        }
    }
}

proof fn lemma_rt_return_value(v: InstructionView)
    requires
        wf_inst(v),
        (v matches InstructionView::ReturnValue { .. }),
    ensures
        sp_inst(v.opcode(), spec_inst_params(v)) == Ok::<_, ParseError>(v),
{
    match v {
            InstructionView::ReturnValue { value } => {
                let t1 = Seq::<u32>::empty();
                let t0 = seq![value.0] + t1;
                assert(spec_inst_params(v) =~= t0);
                lemma_word_round_trip(value.0, t1);
            }
        _ => {
            assert(false);
        }
    }
}

/// Decoding the canonical encoding of any well-formed instruction of
/// the known opcode set gives the instruction back.
pub proof fn lemma_inst_round_trip(v: InstructionView)
    requires
        wf_inst(v),
    ensures
        sp_inst(v.opcode(), spec_inst_params(v)) == Ok::<_, ParseError>(v),
{
    match v {
        InstructionView::Nop => {
        }
        InstructionView::Undef { .. } => {
            lemma_rt_undef(v);
        }
        InstructionView::Source { .. } => {
            lemma_rt_source(v);
        }
        InstructionView::Name { .. } => {
            lemma_rt_name(v);
        }
        InstructionView::MemberName { .. } => {
            lemma_rt_member_name(v);
        }
        InstructionView::Line { .. } => {
            lemma_rt_line(v);
        }
        InstructionView::MemoryModel { .. } => {
            lemma_rt_memory_model(v);
        }
        InstructionView::EntryPoint { .. } => {
            lemma_rt_entry_point(v);
        }
        InstructionView::ExecutionMode { .. } => {
            lemma_rt_execution_mode(v);
        }
        InstructionView::Capability { .. } => {
            lemma_rt_capability(v);
        }
        InstructionView::TypeVoid { .. } => {
            lemma_rt_type_void(v);
        }
        InstructionView::TypeBool { .. } => {
            lemma_rt_type_bool(v);
        }
        InstructionView::TypeInt { .. } => {
            lemma_rt_type_int(v);
        }
        InstructionView::TypeFloat { .. } => {
            lemma_rt_type_float(v);
        }
        InstructionView::TypeVector { .. } => {
            lemma_rt_type_vector(v);
        }
        InstructionView::TypeMatrix { .. } => {
            lemma_rt_type_matrix(v);
        }
        InstructionView::TypeImage { .. } => {
            lemma_rt_type_image(v);
        }
        InstructionView::TypeSampler { .. } => {
            lemma_rt_type_sampler(v);
        }
        InstructionView::TypeSampledImage { .. } => {
            lemma_rt_type_sampled_image(v);
        }
        InstructionView::TypeArray { .. } => {
            lemma_rt_type_array(v);
        }
        InstructionView::TypeRuntimeArray { .. } => {
            lemma_rt_type_runtime_array(v);
        }
        InstructionView::TypeStruct { .. } => {
            lemma_rt_type_struct(v);
        }
        InstructionView::TypeOpaque { .. } => {
            lemma_rt_type_opaque(v);
        }
        InstructionView::TypePointer { .. } => {
            lemma_rt_type_pointer(v);
        }
        InstructionView::TypeFunction { .. } => {
            lemma_rt_type_function(v);
        }
        InstructionView::TypeForwardPointer { .. } => {
            lemma_rt_type_forward_pointer(v);
        }
        InstructionView::ConstantTrue { .. } => {
            lemma_rt_constant_true(v);
        }
        InstructionView::ConstantFalse { .. } => {
            lemma_rt_constant_false(v);
        }
        InstructionView::Constant { .. } => {
            lemma_rt_constant(v);
        }
        InstructionView::ConstantComposite { .. } => {
            lemma_rt_constant_composite(v);
        }
        InstructionView::ConstantNull { .. } => {
            lemma_rt_constant_null(v);
        }
        InstructionView::SpecConstantTrue { .. } => {
            lemma_rt_spec_constant_true(v);
        }
        InstructionView::SpecConstantFalse { .. } => {
            lemma_rt_spec_constant_false(v);
        }
        InstructionView::Function { .. } => {
            lemma_rt_function(v);
        }
        InstructionView::FunctionParameter { .. } => {
            lemma_rt_function_parameter(v);
        }
        InstructionView::FunctionEnd => {
        }
        InstructionView::FunctionCall { .. } => {
            lemma_rt_function_call(v);
        }
        InstructionView::Variable { .. } => {
            lemma_rt_variable(v);
        }
        InstructionView::Load { .. } => {
            lemma_rt_load(v);
        }
        InstructionView::Store { .. } => {
            lemma_rt_store(v);
        }
        InstructionView::AccessChain { .. } => {
            lemma_rt_access_chain(v);
        }
        InstructionView::Decorate { .. } => {
            lemma_rt_decorate(v);
        }
        InstructionView::MemberDecorate { .. } => {
            lemma_rt_member_decorate(v);
        }
        InstructionView::DecorationGroup { .. } => {
            lemma_rt_decoration_group(v);
        }
        InstructionView::GroupDecorate { .. } => {
            lemma_rt_group_decorate(v);
        }
        InstructionView::GroupMemberDecorate { .. } => {
            lemma_rt_group_member_decorate(v);
        }
        InstructionView::ImageSampleImplicitLod { .. } => {
            lemma_rt_image_sample_implicit_lod(v);
        }
        InstructionView::Phi { .. } => {
            lemma_rt_phi(v);
        }
        InstructionView::Label { .. } => {
            lemma_rt_label(v);
        }
        InstructionView::Branch { .. } => {
            lemma_rt_branch(v);
        }
        InstructionView::BranchConditional { .. } => {
            lemma_rt_branch_conditional(v);
        }
        InstructionView::Switch { .. } => {
            lemma_rt_switch(v);
        }
        InstructionView::Return => {
        }
        InstructionView::ReturnValue { .. } => {
            lemma_rt_return_value(v);
        }
        InstructionView::Unknown(op, ws) => {
        }
    }
}

/// A word sequence that is the canonical encoding of some well-formed
/// instruction decodes successfully, and what it decodes to re-encodes
/// to exactly the same words.
pub proof fn lemma_words_round_trip(op: u16, ws: Seq<u32>, v: InstructionView)
    requires
        wf_inst(v),
        op == v.opcode(),
        ws == spec_inst_params(v),
    ensures
        sp_inst(op, ws) == Ok::<_, ParseError>(v),
        sp_inst(op, ws) matches Ok(d) && spec_inst_params(d) == ws,
{
    lemma_inst_round_trip(v);
}

} // verus!
