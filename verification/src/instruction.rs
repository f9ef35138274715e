//! The typed instruction model: one variant per known opcode, composite
//! operand payloads (execution modes, decorations, image operands), and
//! the derived queries — what id an instruction defines and what ids it
//! uses.  Byte strings hold string operands exactly as they sit on the
//! wire, after padding is stripped.

use vstd::prelude::*;

use crate::desc;
use crate::desc::{Id, ResultId, TypeId, ValueId};

verus! {

/// An execution-mode payload: the mode tag together with its
/// tag-dependent literal operands.
#[derive(Copy, Clone, PartialEq, Eq, Structural, Debug)]
pub enum ExecutionMode {
    Invocations(u32),
    SpacingEqual,
    SpacingFractionalEven,
    SpacingFractionalOdd,
    VertexOrderCw,
    VertexOrderCcw,
    PixelCenterInteger,
    OriginUpperLeft,
    OriginLowerLeft,
    EarlyFragmentTests,
    PointMode,
    Xfb,
    DepthReplacing,
    DepthGreater,
    DepthLess,
    DepthUnchanged,
    LocalSize(u32, u32, u32),
    LocalSizeHint(u32, u32, u32),
    InputPoints,
    InputLines,
    InputLinesAdjacency,
    Triangles,
    InputTrianglesAdjacency,
    Quads,
    IsoLines,
    OutputVertices(u32),
    OutputPoints,
    OutputLineStrip,
    OutputTriangleStrip,
    VecTypeHint(u32),
    ContractionOff,
}

impl ExecutionMode {
    /// The tag of this payload in the fixed code table.
    pub open spec fn spec_to_desc(self) -> desc::ExecutionMode {
        match self {
            ExecutionMode::Invocations(_) => desc::ExecutionMode::Invocations,
            ExecutionMode::SpacingEqual => desc::ExecutionMode::SpacingEqual,
            ExecutionMode::SpacingFractionalEven => desc::ExecutionMode::SpacingFractionalEven,
            ExecutionMode::SpacingFractionalOdd => desc::ExecutionMode::SpacingFractionalOdd,
            ExecutionMode::VertexOrderCw => desc::ExecutionMode::VertexOrderCw,
            ExecutionMode::VertexOrderCcw => desc::ExecutionMode::VertexOrderCcw,
            ExecutionMode::PixelCenterInteger => desc::ExecutionMode::PixelCenterInteger,
            ExecutionMode::OriginUpperLeft => desc::ExecutionMode::OriginUpperLeft,
            ExecutionMode::OriginLowerLeft => desc::ExecutionMode::OriginLowerLeft,
            ExecutionMode::EarlyFragmentTests => desc::ExecutionMode::EarlyFragmentTests,
            ExecutionMode::PointMode => desc::ExecutionMode::PointMode,
            ExecutionMode::Xfb => desc::ExecutionMode::Xfb,
            ExecutionMode::DepthReplacing => desc::ExecutionMode::DepthReplacing,
            ExecutionMode::DepthGreater => desc::ExecutionMode::DepthGreater,
            ExecutionMode::DepthLess => desc::ExecutionMode::DepthLess,
            ExecutionMode::DepthUnchanged => desc::ExecutionMode::DepthUnchanged,
            ExecutionMode::LocalSize(_, _, _) => desc::ExecutionMode::LocalSize,
            ExecutionMode::LocalSizeHint(_, _, _) => desc::ExecutionMode::LocalSizeHint,
            ExecutionMode::InputPoints => desc::ExecutionMode::InputPoints,
            ExecutionMode::InputLines => desc::ExecutionMode::InputLines,
            ExecutionMode::InputLinesAdjacency => desc::ExecutionMode::InputLinesAdjacency,
            ExecutionMode::Triangles => desc::ExecutionMode::Triangles,
            ExecutionMode::InputTrianglesAdjacency => desc::ExecutionMode::InputTrianglesAdjacency,
            ExecutionMode::Quads => desc::ExecutionMode::Quads,
            ExecutionMode::IsoLines => desc::ExecutionMode::IsoLines,
            ExecutionMode::OutputVertices(_) => desc::ExecutionMode::OutputVertices,
            ExecutionMode::OutputPoints => desc::ExecutionMode::OutputPoints,
            ExecutionMode::OutputLineStrip => desc::ExecutionMode::OutputLineStrip,
            ExecutionMode::OutputTriangleStrip => desc::ExecutionMode::OutputTriangleStrip,
            ExecutionMode::VecTypeHint(_) => desc::ExecutionMode::VecTypeHint,
            ExecutionMode::ContractionOff => desc::ExecutionMode::ContractionOff,
        }
    }

    /// Extracts the tag of this payload.
    pub fn to_desc(&self) -> (r: desc::ExecutionMode)
        ensures
            r == self.spec_to_desc(),
    {
        match self {
            ExecutionMode::Invocations(_) => desc::ExecutionMode::Invocations,
            ExecutionMode::SpacingEqual => desc::ExecutionMode::SpacingEqual,
            ExecutionMode::SpacingFractionalEven => desc::ExecutionMode::SpacingFractionalEven,
            ExecutionMode::SpacingFractionalOdd => desc::ExecutionMode::SpacingFractionalOdd,
            ExecutionMode::VertexOrderCw => desc::ExecutionMode::VertexOrderCw,
            ExecutionMode::VertexOrderCcw => desc::ExecutionMode::VertexOrderCcw,
            ExecutionMode::PixelCenterInteger => desc::ExecutionMode::PixelCenterInteger,
            ExecutionMode::OriginUpperLeft => desc::ExecutionMode::OriginUpperLeft,
            ExecutionMode::OriginLowerLeft => desc::ExecutionMode::OriginLowerLeft,
            ExecutionMode::EarlyFragmentTests => desc::ExecutionMode::EarlyFragmentTests,
            ExecutionMode::PointMode => desc::ExecutionMode::PointMode,
            ExecutionMode::Xfb => desc::ExecutionMode::Xfb,
            ExecutionMode::DepthReplacing => desc::ExecutionMode::DepthReplacing,
            ExecutionMode::DepthGreater => desc::ExecutionMode::DepthGreater,
            ExecutionMode::DepthLess => desc::ExecutionMode::DepthLess,
            ExecutionMode::DepthUnchanged => desc::ExecutionMode::DepthUnchanged,
            ExecutionMode::LocalSize(_, _, _) => desc::ExecutionMode::LocalSize,
            ExecutionMode::LocalSizeHint(_, _, _) => desc::ExecutionMode::LocalSizeHint,
            ExecutionMode::InputPoints => desc::ExecutionMode::InputPoints,
            ExecutionMode::InputLines => desc::ExecutionMode::InputLines,
            ExecutionMode::InputLinesAdjacency => desc::ExecutionMode::InputLinesAdjacency,
            ExecutionMode::Triangles => desc::ExecutionMode::Triangles,
            ExecutionMode::InputTrianglesAdjacency => desc::ExecutionMode::InputTrianglesAdjacency,
            ExecutionMode::Quads => desc::ExecutionMode::Quads,
            ExecutionMode::IsoLines => desc::ExecutionMode::IsoLines,
            ExecutionMode::OutputVertices(_) => desc::ExecutionMode::OutputVertices,
            ExecutionMode::OutputPoints => desc::ExecutionMode::OutputPoints,
            ExecutionMode::OutputLineStrip => desc::ExecutionMode::OutputLineStrip,
            ExecutionMode::OutputTriangleStrip => desc::ExecutionMode::OutputTriangleStrip,
            ExecutionMode::VecTypeHint(_) => desc::ExecutionMode::VecTypeHint,
            ExecutionMode::ContractionOff => desc::ExecutionMode::ContractionOff,
        }
    }
}

/// A decoration payload: the decoration tag together with its
/// tag-dependent operands.
#[derive(Clone, PartialEq, Eq, Debug)]
pub enum Decoration {
    RelaxedPrecision,
    SpecId(u32),
    Block,
    BufferBlock,
    RowMajor,
    ColMajor,
    ArrayStride(u32),
    MatrixStride(u32),
    GLSLShared,
    GLSLPacked,
    CPacked,
    BuiltIn(desc::BuiltIn),
    NoPerspective,
    Flat,
    Patch,
    Centroid,
    Sample,
    Invariant,
    Restrict,
    Aliased,
    Volatile,
    Constant,
    Coherent,
    NonWritable,
    NonReadable,
    Uniform,
    SaturatedConversion,
    Stream(u32),
    Location(u32),
    Component(u32),
    Index(u32),
    Binding(u32),
    DescriptorSet(u32),
    Offset(u32),
    XfbBuffer(u32),
    XfbStride(u32),
    FuncParamAttr(desc::FuncParamAttr),
    FPRoundingMode(desc::FPRoundingMode),
    FPFastMathMode(desc::FPFastMathMode),
    LinkageAttributes(Vec<u8>, desc::LinkageType),
    NoContraction,
    InputAttachmentIndex(u32),
    Alignment(u32),
}

impl Decoration {
    /// The tag of this payload in the fixed code table.
    pub open spec fn spec_to_desc(self) -> desc::Decoration {
        match self {
            Decoration::RelaxedPrecision => desc::Decoration::RelaxedPrecision,
            Decoration::SpecId(_) => desc::Decoration::SpecId,
            Decoration::Block => desc::Decoration::Block,
            Decoration::BufferBlock => desc::Decoration::BufferBlock,
            Decoration::RowMajor => desc::Decoration::RowMajor,
            Decoration::ColMajor => desc::Decoration::ColMajor,
            Decoration::ArrayStride(_) => desc::Decoration::ArrayStride,
            Decoration::MatrixStride(_) => desc::Decoration::MatrixStride,
            Decoration::GLSLShared => desc::Decoration::GLSLShared,
            Decoration::GLSLPacked => desc::Decoration::GLSLPacked,
            Decoration::CPacked => desc::Decoration::CPacked,
            Decoration::BuiltIn(_) => desc::Decoration::BuiltIn,
            Decoration::NoPerspective => desc::Decoration::NoPerspective,
            Decoration::Flat => desc::Decoration::Flat,
            Decoration::Patch => desc::Decoration::Patch,
            Decoration::Centroid => desc::Decoration::Centroid,
            Decoration::Sample => desc::Decoration::Sample,
            Decoration::Invariant => desc::Decoration::Invariant,
            Decoration::Restrict => desc::Decoration::Restrict,
            Decoration::Aliased => desc::Decoration::Aliased,
            Decoration::Volatile => desc::Decoration::Volatile,
            Decoration::Constant => desc::Decoration::Constant,
            Decoration::Coherent => desc::Decoration::Coherent,
            Decoration::NonWritable => desc::Decoration::NonWritable,
            Decoration::NonReadable => desc::Decoration::NonReadable,
            Decoration::Uniform => desc::Decoration::Uniform,
            Decoration::SaturatedConversion => desc::Decoration::SaturatedConversion,
            Decoration::Stream(_) => desc::Decoration::Stream,
            Decoration::Location(_) => desc::Decoration::Location,
            Decoration::Component(_) => desc::Decoration::Component,
            Decoration::Index(_) => desc::Decoration::Index,
            Decoration::Binding(_) => desc::Decoration::Binding,
            Decoration::DescriptorSet(_) => desc::Decoration::DescriptorSet,
            Decoration::Offset(_) => desc::Decoration::Offset,
            Decoration::XfbBuffer(_) => desc::Decoration::XfbBuffer,
            Decoration::XfbStride(_) => desc::Decoration::XfbStride,
            Decoration::FuncParamAttr(_) => desc::Decoration::FuncParamAttr,
            Decoration::FPRoundingMode(_) => desc::Decoration::FPRoundingMode,
            Decoration::FPFastMathMode(_) => desc::Decoration::FPFastMathMode,
            Decoration::LinkageAttributes(_, _) => desc::Decoration::LinkageAttributes,
            Decoration::NoContraction => desc::Decoration::NoContraction,
            Decoration::InputAttachmentIndex(_) => desc::Decoration::InputAttachmentIndex,
            Decoration::Alignment(_) => desc::Decoration::Alignment,
        }
    }

    /// Extracts the tag of this payload.
    pub fn to_desc(&self) -> (r: desc::Decoration)
        ensures
            r == self.spec_to_desc(),
    {
        match self {
            Decoration::RelaxedPrecision => desc::Decoration::RelaxedPrecision,
            Decoration::SpecId(_) => desc::Decoration::SpecId,
            Decoration::Block => desc::Decoration::Block,
            Decoration::BufferBlock => desc::Decoration::BufferBlock,
            Decoration::RowMajor => desc::Decoration::RowMajor,
            Decoration::ColMajor => desc::Decoration::ColMajor,
            Decoration::ArrayStride(_) => desc::Decoration::ArrayStride,
            Decoration::MatrixStride(_) => desc::Decoration::MatrixStride,
            Decoration::GLSLShared => desc::Decoration::GLSLShared,
            Decoration::GLSLPacked => desc::Decoration::GLSLPacked,
            Decoration::CPacked => desc::Decoration::CPacked,
            Decoration::BuiltIn(_) => desc::Decoration::BuiltIn,
            Decoration::NoPerspective => desc::Decoration::NoPerspective,
            Decoration::Flat => desc::Decoration::Flat,
            Decoration::Patch => desc::Decoration::Patch,
            Decoration::Centroid => desc::Decoration::Centroid,
            Decoration::Sample => desc::Decoration::Sample,
            Decoration::Invariant => desc::Decoration::Invariant,
            Decoration::Restrict => desc::Decoration::Restrict,
            Decoration::Aliased => desc::Decoration::Aliased,
            Decoration::Volatile => desc::Decoration::Volatile,
            Decoration::Constant => desc::Decoration::Constant,
            Decoration::Coherent => desc::Decoration::Coherent,
            Decoration::NonWritable => desc::Decoration::NonWritable,
            Decoration::NonReadable => desc::Decoration::NonReadable,
            Decoration::Uniform => desc::Decoration::Uniform,
            Decoration::SaturatedConversion => desc::Decoration::SaturatedConversion,
            Decoration::Stream(_) => desc::Decoration::Stream,
            Decoration::Location(_) => desc::Decoration::Location,
            Decoration::Component(_) => desc::Decoration::Component,
            Decoration::Index(_) => desc::Decoration::Index,
            Decoration::Binding(_) => desc::Decoration::Binding,
            Decoration::DescriptorSet(_) => desc::Decoration::DescriptorSet,
            Decoration::Offset(_) => desc::Decoration::Offset,
            Decoration::XfbBuffer(_) => desc::Decoration::XfbBuffer,
            Decoration::XfbStride(_) => desc::Decoration::XfbStride,
            Decoration::FuncParamAttr(_) => desc::Decoration::FuncParamAttr,
            Decoration::FPRoundingMode(_) => desc::Decoration::FPRoundingMode,
            Decoration::FPFastMathMode(_) => desc::Decoration::FPFastMathMode,
            Decoration::LinkageAttributes(_, _) => desc::Decoration::LinkageAttributes,
            Decoration::NoContraction => desc::Decoration::NoContraction,
            Decoration::InputAttachmentIndex(_) => desc::Decoration::InputAttachmentIndex,
            Decoration::Alignment(_) => desc::Decoration::Alignment,
        }
    }
}
/// The mathematical mirror of `Decoration`, over `Seq<u8>` for the
/// linkage name.
pub enum DecorationView {
    RelaxedPrecision,
    SpecId(u32),
    Block,
    BufferBlock,
    RowMajor,
    ColMajor,
    ArrayStride(u32),
    MatrixStride(u32),
    GLSLShared,
    GLSLPacked,
    CPacked,
    BuiltIn(desc::BuiltIn),
    NoPerspective,
    Flat,
    Patch,
    Centroid,
    Sample,
    Invariant,
    Restrict,
    Aliased,
    Volatile,
    Constant,
    Coherent,
    NonWritable,
    NonReadable,
    Uniform,
    SaturatedConversion,
    Stream(u32),
    Location(u32),
    Component(u32),
    Index(u32),
    Binding(u32),
    DescriptorSet(u32),
    Offset(u32),
    XfbBuffer(u32),
    XfbStride(u32),
    FuncParamAttr(desc::FuncParamAttr),
    FPRoundingMode(desc::FPRoundingMode),
    FPFastMathMode(desc::FPFastMathMode),
    LinkageAttributes(Seq<u8>, desc::LinkageType),
    NoContraction,
    InputAttachmentIndex(u32),
    Alignment(u32),
}

impl View for Decoration {
    type V = DecorationView;

    open spec fn view(&self) -> DecorationView {
        match self {
            Decoration::RelaxedPrecision => DecorationView::RelaxedPrecision,
            Decoration::SpecId(x) => DecorationView::SpecId(*x),
            Decoration::Block => DecorationView::Block,
            Decoration::BufferBlock => DecorationView::BufferBlock,
            Decoration::RowMajor => DecorationView::RowMajor,
            Decoration::ColMajor => DecorationView::ColMajor,
            Decoration::ArrayStride(x) => DecorationView::ArrayStride(*x),
            Decoration::MatrixStride(x) => DecorationView::MatrixStride(*x),
            Decoration::GLSLShared => DecorationView::GLSLShared,
            Decoration::GLSLPacked => DecorationView::GLSLPacked,
            Decoration::CPacked => DecorationView::CPacked,
            Decoration::BuiltIn(x) => DecorationView::BuiltIn(*x),
            Decoration::NoPerspective => DecorationView::NoPerspective,
            Decoration::Flat => DecorationView::Flat,
            Decoration::Patch => DecorationView::Patch,
            Decoration::Centroid => DecorationView::Centroid,
            Decoration::Sample => DecorationView::Sample,
            Decoration::Invariant => DecorationView::Invariant,
            Decoration::Restrict => DecorationView::Restrict,
            Decoration::Aliased => DecorationView::Aliased,
            Decoration::Volatile => DecorationView::Volatile,
            Decoration::Constant => DecorationView::Constant,
            Decoration::Coherent => DecorationView::Coherent,
            Decoration::NonWritable => DecorationView::NonWritable,
            Decoration::NonReadable => DecorationView::NonReadable,
            Decoration::Uniform => DecorationView::Uniform,
            Decoration::SaturatedConversion => DecorationView::SaturatedConversion,
            Decoration::Stream(x) => DecorationView::Stream(*x),
            Decoration::Location(x) => DecorationView::Location(*x),
            Decoration::Component(x) => DecorationView::Component(*x),
            Decoration::Index(x) => DecorationView::Index(*x),
            Decoration::Binding(x) => DecorationView::Binding(*x),
            Decoration::DescriptorSet(x) => DecorationView::DescriptorSet(*x),
            Decoration::Offset(x) => DecorationView::Offset(*x),
            Decoration::XfbBuffer(x) => DecorationView::XfbBuffer(*x),
            Decoration::XfbStride(x) => DecorationView::XfbStride(*x),
            Decoration::FuncParamAttr(x) => DecorationView::FuncParamAttr(*x),
            Decoration::FPRoundingMode(x) => DecorationView::FPRoundingMode(*x),
            Decoration::FPFastMathMode(x) => DecorationView::FPFastMathMode(*x),
            Decoration::LinkageAttributes(n, t) => DecorationView::LinkageAttributes(n@, *t),
            Decoration::NoContraction => DecorationView::NoContraction,
            Decoration::InputAttachmentIndex(x) => DecorationView::InputAttachmentIndex(*x),
            Decoration::Alignment(x) => DecorationView::Alignment(*x),
        }
    }
}

impl DecorationView {
    /// The tag of this payload in the fixed code table.
    pub open spec fn spec_to_desc(self) -> desc::Decoration {
        match self {
            DecorationView::RelaxedPrecision => desc::Decoration::RelaxedPrecision,
            DecorationView::SpecId(_) => desc::Decoration::SpecId,
            DecorationView::Block => desc::Decoration::Block,
            DecorationView::BufferBlock => desc::Decoration::BufferBlock,
            DecorationView::RowMajor => desc::Decoration::RowMajor,
            DecorationView::ColMajor => desc::Decoration::ColMajor,
            DecorationView::ArrayStride(_) => desc::Decoration::ArrayStride,
            DecorationView::MatrixStride(_) => desc::Decoration::MatrixStride,
            DecorationView::GLSLShared => desc::Decoration::GLSLShared,
            DecorationView::GLSLPacked => desc::Decoration::GLSLPacked,
            DecorationView::CPacked => desc::Decoration::CPacked,
            DecorationView::BuiltIn(_) => desc::Decoration::BuiltIn,
            DecorationView::NoPerspective => desc::Decoration::NoPerspective,
            DecorationView::Flat => desc::Decoration::Flat,
            DecorationView::Patch => desc::Decoration::Patch,
            DecorationView::Centroid => desc::Decoration::Centroid,
            DecorationView::Sample => desc::Decoration::Sample,
            DecorationView::Invariant => desc::Decoration::Invariant,
            DecorationView::Restrict => desc::Decoration::Restrict,
            DecorationView::Aliased => desc::Decoration::Aliased,
            DecorationView::Volatile => desc::Decoration::Volatile,
            DecorationView::Constant => desc::Decoration::Constant,
            DecorationView::Coherent => desc::Decoration::Coherent,
            DecorationView::NonWritable => desc::Decoration::NonWritable,
            DecorationView::NonReadable => desc::Decoration::NonReadable,
            DecorationView::Uniform => desc::Decoration::Uniform,
            DecorationView::SaturatedConversion => desc::Decoration::SaturatedConversion,
            DecorationView::Stream(_) => desc::Decoration::Stream,
            DecorationView::Location(_) => desc::Decoration::Location,
            DecorationView::Component(_) => desc::Decoration::Component,
            DecorationView::Index(_) => desc::Decoration::Index,
            DecorationView::Binding(_) => desc::Decoration::Binding,
            DecorationView::DescriptorSet(_) => desc::Decoration::DescriptorSet,
            DecorationView::Offset(_) => desc::Decoration::Offset,
            DecorationView::XfbBuffer(_) => desc::Decoration::XfbBuffer,
            DecorationView::XfbStride(_) => desc::Decoration::XfbStride,
            DecorationView::FuncParamAttr(_) => desc::Decoration::FuncParamAttr,
            DecorationView::FPRoundingMode(_) => desc::Decoration::FPRoundingMode,
            DecorationView::FPFastMathMode(_) => desc::Decoration::FPFastMathMode,
            DecorationView::LinkageAttributes(_, _) => desc::Decoration::LinkageAttributes,
            DecorationView::NoContraction => desc::Decoration::NoContraction,
            DecorationView::InputAttachmentIndex(_) => desc::Decoration::InputAttachmentIndex,
            DecorationView::Alignment(_) => desc::Decoration::Alignment,
        }
    }
}

// ---------------------------------------------------------------------
// Image operands: an ordered sparse set of eight single-bit flags, each
// set flag carrying one value-id operand.  Storage keeps the operand
// values in canonical flag order (lowest bit first), whatever order the
// flags were set in, so emission order is always canonical.
// ---------------------------------------------------------------------

/// The flag bit at a canonical position, lowest bit first: bias, lod,
/// grad, const-offset, offset, const-offsets, sample, min-lod.
pub open spec fn flag_bit(i: int) -> u32 {
    if i == 0 {
        desc::IMG_OP_BIAS
    } else if i == 1 {
        desc::IMG_OP_LOD
    } else if i == 2 {
        desc::IMG_OP_GRAD
    } else if i == 3 {
        desc::IMG_OP_CONST_OFFSET
    } else if i == 4 {
        desc::IMG_OP_OFFSET
    } else if i == 5 {
        desc::IMG_OP_CONST_OFFSETS
    } else if i == 6 {
        desc::IMG_OP_SAMPLE
    } else {
        desc::IMG_OP_MIN_LOD
    }
}

/// How many of the first `k` canonical flags are set in `bits`: the rank
/// of flag `k` among the set flags.
pub open spec fn count_flags(bits: u32, k: int) -> nat
    decreases k,
{
    if k <= 0 {
        0
    } else {
        count_flags(bits, k - 1) + (if bits & flag_bit(k - 1) != 0 {
            1nat
        } else {
            0nat
        })
    }
}

/// Is `b` exactly one of the eight known flags?
pub open spec fn is_single_flag(b: u32) -> bool {
    b == desc::IMG_OP_BIAS || b == desc::IMG_OP_LOD || b == desc::IMG_OP_GRAD || b
        == desc::IMG_OP_CONST_OFFSET || b == desc::IMG_OP_OFFSET || b == desc::IMG_OP_CONST_OFFSETS
        || b == desc::IMG_OP_SAMPLE || b == desc::IMG_OP_MIN_LOD
}

/// The canonical position of a single flag.
pub open spec fn flag_index(b: u32) -> int {
    if b == desc::IMG_OP_BIAS {
        0
    } else if b == desc::IMG_OP_LOD {
        1
    } else if b == desc::IMG_OP_GRAD {
        2
    } else if b == desc::IMG_OP_CONST_OFFSET {
        3
    } else if b == desc::IMG_OP_OFFSET {
        4
    } else if b == desc::IMG_OP_CONST_OFFSETS {
        5
    } else if b == desc::IMG_OP_SAMPLE {
        6
    } else {
        7
    }
}

/// The mathematical mirror of `ImageOperands`: the flag word and the
/// operand values in canonical flag order.
#[verifier::ext_equal]
pub struct ImageOperandsView {
    pub bits: u32,
    pub vals: Seq<ValueId>,
}

impl ImageOperandsView {
    /// The stored values are exactly one per set flag, in canonical
    /// order; flag bits outside the known eight carry no value and pass
    /// through unchecked, like any other bitset word.
    pub open spec fn wf(self) -> bool {
        self.vals.len() == count_flags(self.bits, 8)
    }

    /// The operand value attached to the flag at canonical position `i`.
    pub open spec fn spec_get(self, i: int) -> Option<ValueId> {
        if self.bits & flag_bit(i) != 0 {
            Some(self.vals[count_flags(self.bits, i) as int])
        } else {
            None
        }
    }
}

/// Image-operand storage: the set of present flags and their operand
/// values, kept in canonical flag order by `set`.
#[derive(Clone, PartialEq, Eq, Debug)]
pub struct ImageOperands {
    pub set: desc::ImageOperands,
    pub values: Vec<ValueId>,
}

impl View for ImageOperands {
    type V = ImageOperandsView;

    open spec fn view(&self) -> ImageOperandsView {
        ImageOperandsView { bits: self.set.0, vals: self.values@ }
    }
}

/// The rank of a set flag never exceeds the total count, and counting is
/// monotone in the position.
pub proof fn lemma_count_flags_le(bits: u32, j: int, k: int)
    requires
        j <= k,
    ensures
        count_flags(bits, j) <= count_flags(bits, k),
    decreases k - j,
{
    if j < k {
        lemma_count_flags_le(bits, j, k - 1);
    }
}

/// No flags set, nothing counted.
pub proof fn lemma_count_flags_zero(k: int)
    ensures
        count_flags(0, k) == 0,
    decreases k,
{
    if k > 0 {
        lemma_count_flags_zero(k - 1);
        assert(0u32 & flag_bit(k - 1) == 0) by (bit_vector);
    }
}

/// The eight flag values, for bit-level reasoning.
pub open spec fn single_flag_u32(f: u32) -> bool {
    f == 1 || f == 2 || f == 4 || f == 8 || f == 16 || f == 32 || f == 64 || f == 128
}

/// A single flag is one of the eight low bits.
pub proof fn lemma_single_flag(f: u32)
    requires
        is_single_flag(f),
    ensures
        single_flag_u32(f),
{
}

proof fn lemma_bv_or_absorb(bits: u32, f: u32)
    requires
        single_flag_u32(f),
        bits & f != 0,
    ensures
        bits | f == bits,
{
    assert(bits | f == bits) by (bit_vector)
        requires
            (f == 1 || f == 2 || f == 4 || f == 8 || f == 16 || f == 32 || f == 64 || f == 128)
                && bits & f != 0,
    ;
}

proof fn lemma_bv_or_sets(bits: u32, f: u32)
    requires
        single_flag_u32(f),
    ensures
        (bits | f) & f == f,
        f != 0,
{
    assert((bits | f) & f == f && f != 0) by (bit_vector)
        requires
            f == 1 || f == 2 || f == 4 || f == 8 || f == 16 || f == 32 || f == 64 || f == 128,
    ;
}

proof fn lemma_bv_or_other(bits: u32, f: u32, g: u32)
    requires
        single_flag_u32(f),
        single_flag_u32(g),
        f != g,
    ensures
        (bits | f) & g == bits & g,
{
    assert((bits | f) & g == bits & g) by (bit_vector)
        requires
            (f == 1 || f == 2 || f == 4 || f == 8 || f == 16 || f == 32 || f == 64 || f == 128)
                && (g == 1 || g == 2 || g == 4 || g == 8 || g == 16 || g == 32 || g == 64 || g
                == 128) && f != g,
    ;
}

/// Setting one more flag raises by one the rank of every flag above it
/// and the total count, and leaves ranks below it unchanged.
proof fn lemma_count_flags_or(bits: u32, f: u32, k: int)
    requires
        is_single_flag(f),
        bits & f == 0,
        k <= 8,
    ensures
        count_flags(bits | f, k) == count_flags(bits, k) + (if flag_index(f) < k {
            1nat
        } else {
            0nat
        }),
    decreases k,
{
    if k > 0 {
        lemma_count_flags_or(bits, f, k - 1);
        let g = flag_bit(k - 1);
        lemma_single_flag(f);
        if g == f {
            lemma_bv_or_sets(bits, f);
        } else {
            lemma_single_flag(g);
            lemma_bv_or_other(bits, f, g);
        }
    }
}

impl ImageOperands {
    /// A fresh, empty operand set.
    pub fn new() -> (r: ImageOperands)
        ensures
            r@ == (ImageOperandsView { bits: 0, vals: Seq::<ValueId>::empty() }),
            r@.wf(),
    {
        let r = ImageOperands { set: desc::ImageOperands(0), values: Vec::new() };
        proof {
            assert(r@ =~= (ImageOperandsView { bits: 0, vals: Seq::<ValueId>::empty() }));
            lemma_count_flags_zero(8);
        }
        r
    }

    /// The flag bit at a canonical position.
    pub(crate) fn flag_at(i: usize) -> (r: u32)
        requires
            i < 8,
        ensures
            r == flag_bit(i as int),
            is_single_flag(r),
    {
        match i {
            0 => desc::IMG_OP_BIAS,
            1 => desc::IMG_OP_LOD,
            2 => desc::IMG_OP_GRAD,
            3 => desc::IMG_OP_CONST_OFFSET,
            4 => desc::IMG_OP_OFFSET,
            5 => desc::IMG_OP_CONST_OFFSETS,
            6 => desc::IMG_OP_SAMPLE,
            _ => desc::IMG_OP_MIN_LOD,
        }
    }

    /// The position a single flag's value sits at (or would sit at): the
    /// number of set flags canonically below it.
    fn idx_of(&self, op: desc::ImageOperands) -> (idx: usize)
        requires
            is_single_flag(op.0),
            self@.wf(),
        ensures
            idx == count_flags(self@.bits, flag_index(op.0)),
            idx <= self@.vals.len(),
    {
        let mut idx: usize = 0;
        let mut i: usize = 0;
        while i < 8 && Self::flag_at(i) < op.0
            invariant
                i <= 8,
                idx <= i,
                idx == count_flags(self@.bits, i as int),
                is_single_flag(op.0),
                self@.wf(),
                forall|j: int| 0 <= j < i ==> flag_bit(j) < op.0,
            decreases 8 - i,
        {
            if self.set.0 & Self::flag_at(i) != 0 {
                idx = idx + 1;
            }
            i = i + 1;
        }
        proof {
            assert(i as int == flag_index(op.0));
            lemma_count_flags_le(self@.bits, flag_index(op.0), 8);
        }
        idx
    }

    /// Looks a single flag's operand value up, if the flag is present.
    pub fn get(&self, op: desc::ImageOperands) -> (r: Option<ValueId>)
        requires
            is_single_flag(op.0),
            self@.wf(),
        ensures
            r == self@.spec_get(flag_index(op.0)),
    {
        if self.set.0 & op.0 != 0 {
            let idx = self.idx_of(op);
            proof {
                assert(self@.bits & flag_bit(flag_index(op.0)) != 0);
                assert(count_flags(self@.bits, flag_index(op.0)) < count_flags(self@.bits, 8)) by {
                    lemma_count_flags_le(self@.bits, flag_index(op.0) + 1, 8);
                }
            }
            Some(self.values[idx])
        } else {
            proof {
                assert(self@.bits & flag_bit(flag_index(op.0)) == self@.bits & op.0);
            }
            None
        }
    }

    /// Stores a single flag's operand value, replacing a present value or
    /// inserting at the flag's canonical position, so that emission order
    /// stays canonical whatever order flags are set in.
    pub fn set(&mut self, op: desc::ImageOperands, value: ValueId)
        requires
            is_single_flag(op.0),
            old(self)@.wf(),
        ensures
            final(self)@.wf(),
            final(self)@.bits == old(self)@.bits | op.0,
            forall|i: int|
                0 <= i < 8 ==> final(self)@.spec_get(i) == (if i == flag_index(op.0) {
                    Some(value)
                } else {
                    old(self)@.spec_get(i)
                }),
    {
        let idx = self.idx_of(op);
        let ghost obits = self@.bits;
        let ghost ovals = self@.vals;
        let ghost pos = flag_index(op.0);
        if self.set.0 & op.0 != 0 {
            proof {
                assert(obits & flag_bit(pos) != 0);
                assert(count_flags(obits, pos) < count_flags(obits, 8)) by {
                    lemma_count_flags_le(obits, pos + 1, 8);
                }
                lemma_single_flag(op.0);
                lemma_bv_or_absorb(obits, op.0);
            }
            self.values.set(idx, value);
            proof {
                lemma_set_updates(obits, ovals, pos, value);
            }
        } else {
            proof {
                assert(obits & flag_bit(pos) == obits & op.0);
            }
            self.values.insert(idx, value);
            self.set.insert(op);
            proof {
                lemma_count_flags_or(obits, op.0, 8);
                assert(self@.bits == obits | op.0);
                lemma_insert_updates(obits, ovals, pos, value);
            }
        }
    }
}

/// Replacing the value at a present flag's rank changes that flag's
/// lookup and no other.
proof fn lemma_set_updates(bits: u32, vals: Seq<ValueId>, pos: int, value: ValueId)
    requires
        0 <= pos < 8,
        bits & flag_bit(pos) != 0,
        vals.len() == count_flags(bits, 8),
    ensures
        forall|i: int|
            0 <= i < 8 ==> (ImageOperandsView {
                bits,
                vals: vals.update(count_flags(bits, pos) as int, value),
            }).spec_get(i) == (if i == pos {
                Some(value)
            } else {
                (ImageOperandsView { bits, vals }).spec_get(i)
            }),
{
    assert forall|i: int| 0 <= i < 8 && i != pos implies (ImageOperandsView {
        bits,
        vals: vals.update(count_flags(bits, pos) as int, value),
    }).spec_get(i) == (ImageOperandsView { bits, vals }).spec_get(i) by {
        if bits & flag_bit(i) != 0 {
            if i < pos {
                lemma_count_flags_le(bits, i + 1, pos);
                lemma_count_flags_le(bits, pos + 1, 8);
            } else {
                lemma_count_flags_le(bits, pos + 1, i);
                lemma_count_flags_le(bits, i + 1, 8);
            }
        }
    }
    lemma_count_flags_le(bits, pos + 1, 8);
}

/// Inserting a new flag's value at its rank shifts the values of the
/// flags canonically above it by one and leaves those below unchanged.
proof fn lemma_insert_updates(bits: u32, vals: Seq<ValueId>, pos: int, value: ValueId)
    requires
        0 <= pos < 8,
        is_single_flag(flag_bit(pos)),
        bits & flag_bit(pos) == 0,
        vals.len() == count_flags(bits, 8),
    ensures
        (ImageOperandsView {
            bits: bits | flag_bit(pos),
            vals: vals.insert(count_flags(bits, pos) as int, value),
        }).wf(),
        forall|i: int|
            0 <= i < 8 ==> (ImageOperandsView {
                bits: bits | flag_bit(pos),
                vals: vals.insert(count_flags(bits, pos) as int, value),
            }).spec_get(i) == (if i == pos {
                Some(value)
            } else {
                (ImageOperandsView { bits, vals }).spec_get(i)
            }),
{
    let f = flag_bit(pos);
    let nbits = bits | f;
    let rank = count_flags(bits, pos) as int;
    let nvals = vals.insert(rank, value);
    lemma_count_flags_le(bits, pos, 8);
    vals.insert_ensures(rank, value);
    lemma_count_flags_or(bits, f, 8);
    lemma_single_flag(f);
    assert forall|i: int| 0 <= i < 8 implies (ImageOperandsView { bits: nbits, vals: nvals }).spec_get(
        i,
    ) == (if i == pos {
        Some(value)
    } else {
        (ImageOperandsView { bits, vals }).spec_get(i)
    }) by {
        lemma_count_flags_or(bits, f, i);
        if i == pos {
            lemma_bv_or_sets(bits, f);
            assert(nvals[rank] == value);
        } else {
            let g = flag_bit(i);
            lemma_single_flag(g);
            lemma_bv_or_other(bits, f, g);
            if bits & g != 0 {
                lemma_count_flags_le(bits, i + 1, 8);
                if i < pos {
                    lemma_count_flags_le(bits, i + 1, pos);
                } else {
                    lemma_count_flags_le(bits, pos + 1, i);
                }
            }
        }
    }
}

/// One typed instruction per known opcode, each variant carrying its
/// statically declared operand list.  `Unknown` preserves any opcode
/// outside the known set losslessly, with its raw parameter words.
#[derive(Clone, PartialEq, Eq, Debug)]
pub enum Instruction {
    Nop,
    Undef {
        result_type: TypeId,
        result_id: ResultId,
    },
    Source {
        src_lang: desc::SrcLang,
        version: u32,
        file: Id,
        source: Option<Vec<u8>>,
    },
    Name {
        target: Id,
        name: Vec<u8>,
    },
    MemberName {
        target: Id,
        member: u32,
        name: Vec<u8>,
    },
    Line {
        file: Id,
        line: u32,
        column: u32,
    },
    MemoryModel {
        addressing_model: desc::AddressingModel,
        memory_model: desc::MemoryModel,
    },
    EntryPoint {
        execution_model: desc::ExecutionModel,
        func: ValueId,
        name: Vec<u8>,
        interface: Vec<ValueId>,
    },
    ExecutionMode {
        target: ValueId,
        mode: ExecutionMode,
    },
    Capability {
        capability: desc::Capability,
    },
    TypeVoid {
        result_type: TypeId,
    },
    TypeBool {
        result_type: TypeId,
    },
    TypeInt {
        result_type: TypeId,
        width: u32,
        signed: bool,
    },
    TypeFloat {
        result_type: TypeId,
        width: u32,
    },
    TypeVector {
        result_type: TypeId,
        type_id: TypeId,
        len: u32,
    },
    TypeMatrix {
        result_type: TypeId,
        type_id: TypeId,
        cols: u32,
    },
    TypeImage {
        result_type: TypeId,
        type_id: TypeId,
        dim: desc::Dim,
        depth: u32,
        arrayed: bool,
        multisampled: bool,
        sampled: u32,
        image_format: desc::ImageFormat,
        access_qualifier: Option<desc::AccessQualifier>,
    },
    TypeSampler {
        result_type: TypeId,
    },
    TypeSampledImage {
        result_type: TypeId,
        image: TypeId,
    },
    TypeArray {
        result_type: TypeId,
        element: TypeId,
        len: ValueId,
    },
    TypeRuntimeArray {
        result_type: TypeId,
        element: TypeId,
    },
    TypeStruct {
        result_type: TypeId,
        fields: Vec<TypeId>,
    },
    TypeOpaque {
        result_type: TypeId,
        name: Vec<u8>,
    },
    TypePointer {
        result_type: TypeId,
        storage_class: desc::StorageClass,
        pointee: TypeId,
    },
    TypeFunction {
        result_type: TypeId,
        return_ty: TypeId,
        params: Vec<TypeId>,
    },
    TypeForwardPointer {
        type_id: TypeId,
        storage_class: desc::StorageClass,
    },
    ConstantTrue {
        result_type: TypeId,
        result_id: ResultId,
    },
    ConstantFalse {
        result_type: TypeId,
        result_id: ResultId,
    },
    Constant {
        result_type: TypeId,
        result_id: ResultId,
        value: Vec<u32>,
    },
    ConstantComposite {
        result_type: TypeId,
        result_id: ResultId,
        constituents: Vec<ValueId>,
    },
    ConstantNull {
        result_type: TypeId,
        result_id: ResultId,
    },
    SpecConstantTrue {
        result_type: TypeId,
        result_id: ResultId,
    },
    SpecConstantFalse {
        result_type: TypeId,
        result_id: ResultId,
    },
    Function {
        result_type: TypeId,
        result_id: ResultId,
        function_control: desc::FunctionControl,
        function_type: TypeId,
    },
    FunctionParameter {
        result_type: TypeId,
        result_id: ResultId,
    },
    FunctionEnd,
    FunctionCall {
        result_type: TypeId,
        result_id: ResultId,
        function: ValueId,
        arguments: Vec<ValueId>,
    },
    Variable {
        result_type: TypeId,
        result_id: ResultId,
        storage_class: desc::StorageClass,
        initializer: ValueId,
    },
    Load {
        result_type: TypeId,
        result_id: ResultId,
        pointer: ValueId,
        memory_access: desc::MemoryAccess,
    },
    Store {
        pointer: ValueId,
        object: ValueId,
        memory_access: desc::MemoryAccess,
    },
    AccessChain {
        result_type: TypeId,
        result_id: ResultId,
        base: ValueId,
        indexes: Vec<ValueId>,
    },
    Decorate {
        target: Id,
        decoration: Decoration,
    },
    MemberDecorate {
        structure_type: TypeId,
        member: u32,
        decoration: Decoration,
    },
    DecorationGroup {
        result_id: ResultId,
    },
    GroupDecorate {
        group: Id,
        targets: Vec<Id>,
    },
    GroupMemberDecorate {
        group: Id,
        targets: Vec<(Id, u32)>,
    },
    ImageSampleImplicitLod {
        result_type: TypeId,
        result_id: ResultId,
        sampled_image: ValueId,
        coordinate: ValueId,
        image_operands: ImageOperands,
    },
    Phi {
        result_type: TypeId,
        result_id: ResultId,
        variables: Vec<(ValueId, ValueId)>,
    },
    Label {
        result_id: ResultId,
    },
    Branch {
        target_label: Id,
    },
    BranchConditional {
        condition: ValueId,
        true_label: Id,
        false_label: Id,
        weights: Vec<u32>,
    },
    Switch {
        selector: ValueId,
        default: Id,
        targets: Vec<(u32, Id)>,
    },
    Return,
    ReturnValue {
        value: ValueId,
    },
    Unknown(u16, Vec<u32>),
}

/// The mathematical mirror of `Instruction`: the same variants over
/// `Seq` in place of `Vec`.  Contracts and the codec specification
/// speak of this type.
pub enum InstructionView {
    Nop,
    Undef {
        result_type: TypeId,
        result_id: ResultId,
    },
    Source {
        src_lang: desc::SrcLang,
        version: u32,
        file: Id,
        source: Option<Seq<u8>>,
    },
    Name {
        target: Id,
        name: Seq<u8>,
    },
    MemberName {
        target: Id,
        member: u32,
        name: Seq<u8>,
    },
    Line {
        file: Id,
        line: u32,
        column: u32,
    },
    MemoryModel {
        addressing_model: desc::AddressingModel,
        memory_model: desc::MemoryModel,
    },
    EntryPoint {
        execution_model: desc::ExecutionModel,
        func: ValueId,
        name: Seq<u8>,
        interface: Seq<ValueId>,
    },
    ExecutionMode {
        target: ValueId,
        mode: ExecutionMode,
    },
    Capability {
        capability: desc::Capability,
    },
    TypeVoid {
        result_type: TypeId,
    },
    TypeBool {
        result_type: TypeId,
    },
    TypeInt {
        result_type: TypeId,
        width: u32,
        signed: bool,
    },
    TypeFloat {
        result_type: TypeId,
        width: u32,
    },
    TypeVector {
        result_type: TypeId,
        type_id: TypeId,
        len: u32,
    },
    TypeMatrix {
        result_type: TypeId,
        type_id: TypeId,
        cols: u32,
    },
    TypeImage {
        result_type: TypeId,
        type_id: TypeId,
        dim: desc::Dim,
        depth: u32,
        arrayed: bool,
        multisampled: bool,
        sampled: u32,
        image_format: desc::ImageFormat,
        access_qualifier: Option<desc::AccessQualifier>,
    },
    TypeSampler {
        result_type: TypeId,
    },
    TypeSampledImage {
        result_type: TypeId,
        image: TypeId,
    },
    TypeArray {
        result_type: TypeId,
        element: TypeId,
        len: ValueId,
    },
    TypeRuntimeArray {
        result_type: TypeId,
        element: TypeId,
    },
    TypeStruct {
        result_type: TypeId,
        fields: Seq<TypeId>,
    },
    TypeOpaque {
        result_type: TypeId,
        name: Seq<u8>,
    },
    TypePointer {
        result_type: TypeId,
        storage_class: desc::StorageClass,
        pointee: TypeId,
    },
    TypeFunction {
        result_type: TypeId,
        return_ty: TypeId,
        params: Seq<TypeId>,
    },
    TypeForwardPointer {
        type_id: TypeId,
        storage_class: desc::StorageClass,
    },
    ConstantTrue {
        result_type: TypeId,
        result_id: ResultId,
    },
    ConstantFalse {
        result_type: TypeId,
        result_id: ResultId,
    },
    Constant {
        result_type: TypeId,
        result_id: ResultId,
        value: Seq<u32>,
    },
    ConstantComposite {
        result_type: TypeId,
        result_id: ResultId,
        constituents: Seq<ValueId>,
    },
    ConstantNull {
        result_type: TypeId,
        result_id: ResultId,
    },
    SpecConstantTrue {
        result_type: TypeId,
        result_id: ResultId,
    },
    SpecConstantFalse {
        result_type: TypeId,
        result_id: ResultId,
    },
    Function {
        result_type: TypeId,
        result_id: ResultId,
        function_control: desc::FunctionControl,
        function_type: TypeId,
    },
    FunctionParameter {
        result_type: TypeId,
        result_id: ResultId,
    },
    FunctionEnd,
    FunctionCall {
        result_type: TypeId,
        result_id: ResultId,
        function: ValueId,
        arguments: Seq<ValueId>,
    },
    Variable {
        result_type: TypeId,
        result_id: ResultId,
        storage_class: desc::StorageClass,
        initializer: ValueId,
    },
    Load {
        result_type: TypeId,
        result_id: ResultId,
        pointer: ValueId,
        memory_access: desc::MemoryAccess,
    },
    Store {
        pointer: ValueId,
        object: ValueId,
        memory_access: desc::MemoryAccess,
    },
    AccessChain {
        result_type: TypeId,
        result_id: ResultId,
        base: ValueId,
        indexes: Seq<ValueId>,
    },
    Decorate {
        target: Id,
        decoration: DecorationView,
    },
    MemberDecorate {
        structure_type: TypeId,
        member: u32,
        decoration: DecorationView,
    },
    DecorationGroup {
        result_id: ResultId,
    },
    GroupDecorate {
        group: Id,
        targets: Seq<Id>,
    },
    GroupMemberDecorate {
        group: Id,
        targets: Seq<(Id, u32)>,
    },
    ImageSampleImplicitLod {
        result_type: TypeId,
        result_id: ResultId,
        sampled_image: ValueId,
        coordinate: ValueId,
        image_operands: ImageOperandsView,
    },
    Phi {
        result_type: TypeId,
        result_id: ResultId,
        variables: Seq<(ValueId, ValueId)>,
    },
    Label {
        result_id: ResultId,
    },
    Branch {
        target_label: Id,
    },
    BranchConditional {
        condition: ValueId,
        true_label: Id,
        false_label: Id,
        weights: Seq<u32>,
    },
    Switch {
        selector: ValueId,
        default: Id,
        targets: Seq<(u32, Id)>,
    },
    Return,
    ReturnValue {
        value: ValueId,
    },
    Unknown(u16, Seq<u32>),
}

/// The view of an optional byte string.
pub open spec fn opt_bytes_view(v: Option<Vec<u8>>) -> Option<Seq<u8>> {
    match v {
        Some(b) => Some(b@),
        None => None,
    }
}

impl View for Instruction {
    type V = InstructionView;

    open spec fn view(&self) -> InstructionView {
        match self {
            Instruction::Nop => InstructionView::Nop,
            Instruction::Undef { result_type, result_id } => InstructionView::Undef {
                result_type: *result_type,
                result_id: *result_id,
            },
            Instruction::Source { src_lang, version, file, source } => InstructionView::Source {
                src_lang: *src_lang,
                version: *version,
                file: *file,
                source: opt_bytes_view(*source),
            },
            Instruction::Name { target, name } => InstructionView::Name {
                target: *target,
                name: name@,
            },
            Instruction::MemberName { target, member, name } => InstructionView::MemberName {
                target: *target,
                member: *member,
                name: name@,
            },
            Instruction::Line { file, line, column } => InstructionView::Line {
                file: *file,
                line: *line,
                column: *column,
            },
            Instruction::MemoryModel { addressing_model, memory_model } => InstructionView::MemoryModel {
                addressing_model: *addressing_model,
                memory_model: *memory_model,
            },
            Instruction::EntryPoint { execution_model, func, name, interface } => InstructionView::EntryPoint {
                execution_model: *execution_model,
                func: *func,
                name: name@,
                interface: interface@,
            },
            Instruction::ExecutionMode { target, mode } => InstructionView::ExecutionMode {
                target: *target,
                mode: *mode,
            },
            Instruction::Capability { capability } => InstructionView::Capability {
                capability: *capability,
            },
            Instruction::TypeVoid { result_type } => InstructionView::TypeVoid {
                result_type: *result_type,
            },
            Instruction::TypeBool { result_type } => InstructionView::TypeBool {
                result_type: *result_type,
            },
            Instruction::TypeInt { result_type, width, signed } => InstructionView::TypeInt {
                result_type: *result_type,
                width: *width,
                signed: *signed,
            },
            Instruction::TypeFloat { result_type, width } => InstructionView::TypeFloat {
                result_type: *result_type,
                width: *width,
            },
            Instruction::TypeVector { result_type, type_id, len } => InstructionView::TypeVector {
                result_type: *result_type,
                type_id: *type_id,
                len: *len,
            },
            Instruction::TypeMatrix { result_type, type_id, cols } => InstructionView::TypeMatrix {
                result_type: *result_type,
                type_id: *type_id,
                cols: *cols,
            },
            Instruction::TypeImage { result_type, type_id, dim, depth, arrayed, multisampled, sampled, image_format, access_qualifier } => InstructionView::TypeImage {
                result_type: *result_type,
                type_id: *type_id,
                dim: *dim,
                depth: *depth,
                arrayed: *arrayed,
                multisampled: *multisampled,
                sampled: *sampled,
                image_format: *image_format,
                access_qualifier: *access_qualifier,
            },
            Instruction::TypeSampler { result_type } => InstructionView::TypeSampler {
                result_type: *result_type,
            },
            Instruction::TypeSampledImage { result_type, image } => InstructionView::TypeSampledImage {
                result_type: *result_type,
                image: *image,
            },
            Instruction::TypeArray { result_type, element, len } => InstructionView::TypeArray {
                result_type: *result_type,
                element: *element,
                len: *len,
            },
            Instruction::TypeRuntimeArray { result_type, element } => InstructionView::TypeRuntimeArray {
                result_type: *result_type,
                element: *element,
            },
            Instruction::TypeStruct { result_type, fields } => InstructionView::TypeStruct {
                result_type: *result_type,
                fields: fields@,
            },
            Instruction::TypeOpaque { result_type, name } => InstructionView::TypeOpaque {
                result_type: *result_type,
                name: name@,
            },
            Instruction::TypePointer { result_type, storage_class, pointee } => InstructionView::TypePointer {
                result_type: *result_type,
                storage_class: *storage_class,
                pointee: *pointee,
            },
            Instruction::TypeFunction { result_type, return_ty, params } => InstructionView::TypeFunction {
                result_type: *result_type,
                return_ty: *return_ty,
                params: params@,
            },
            Instruction::TypeForwardPointer { type_id, storage_class } => InstructionView::TypeForwardPointer {
                type_id: *type_id,
                storage_class: *storage_class,
            },
            Instruction::ConstantTrue { result_type, result_id } => InstructionView::ConstantTrue {
                result_type: *result_type,
                result_id: *result_id,
            },
            Instruction::ConstantFalse { result_type, result_id } => InstructionView::ConstantFalse {
                result_type: *result_type,
                result_id: *result_id,
            },
            Instruction::Constant { result_type, result_id, value } => InstructionView::Constant {
                result_type: *result_type,
                result_id: *result_id,
                value: value@,
            },
            Instruction::ConstantComposite { result_type, result_id, constituents } => InstructionView::ConstantComposite {
                result_type: *result_type,
                result_id: *result_id,
                constituents: constituents@,
            },
            Instruction::ConstantNull { result_type, result_id } => InstructionView::ConstantNull {
                result_type: *result_type,
                result_id: *result_id,
            },
            Instruction::SpecConstantTrue { result_type, result_id } => InstructionView::SpecConstantTrue {
                result_type: *result_type,
                result_id: *result_id,
            },
            Instruction::SpecConstantFalse { result_type, result_id } => InstructionView::SpecConstantFalse {
                result_type: *result_type,
                result_id: *result_id,
            },
            Instruction::Function { result_type, result_id, function_control, function_type } => InstructionView::Function {
                result_type: *result_type,
                result_id: *result_id,
                function_control: *function_control,
                function_type: *function_type,
            },
            Instruction::FunctionParameter { result_type, result_id } => InstructionView::FunctionParameter {
                result_type: *result_type,
                result_id: *result_id,
            },
            Instruction::FunctionEnd => InstructionView::FunctionEnd,
            Instruction::FunctionCall { result_type, result_id, function, arguments } => InstructionView::FunctionCall {
                result_type: *result_type,
                result_id: *result_id,
                function: *function,
                arguments: arguments@,
            },
            Instruction::Variable { result_type, result_id, storage_class, initializer } => InstructionView::Variable {
                result_type: *result_type,
                result_id: *result_id,
                storage_class: *storage_class,
                initializer: *initializer,
            },
            Instruction::Load { result_type, result_id, pointer, memory_access } => InstructionView::Load {
                result_type: *result_type,
                result_id: *result_id,
                pointer: *pointer,
                memory_access: *memory_access,
            },
            Instruction::Store { pointer, object, memory_access } => InstructionView::Store {
                pointer: *pointer,
                object: *object,
                memory_access: *memory_access,
            },
            Instruction::AccessChain { result_type, result_id, base, indexes } => InstructionView::AccessChain {
                result_type: *result_type,
                result_id: *result_id,
                base: *base,
                indexes: indexes@,
            },
            Instruction::Decorate { target, decoration } => InstructionView::Decorate {
                target: *target,
                decoration: decoration@,
            },
            Instruction::MemberDecorate { structure_type, member, decoration } => InstructionView::MemberDecorate {
                structure_type: *structure_type,
                member: *member,
                decoration: decoration@,
            },
            Instruction::DecorationGroup { result_id } => InstructionView::DecorationGroup {
                result_id: *result_id,
            },
            Instruction::GroupDecorate { group, targets } => InstructionView::GroupDecorate {
                group: *group,
                targets: targets@,
            },
            Instruction::GroupMemberDecorate { group, targets } => InstructionView::GroupMemberDecorate {
                group: *group,
                targets: targets@,
            },
            Instruction::ImageSampleImplicitLod { result_type, result_id, sampled_image, coordinate, image_operands } => InstructionView::ImageSampleImplicitLod {
                result_type: *result_type,
                result_id: *result_id,
                sampled_image: *sampled_image,
                coordinate: *coordinate,
                image_operands: image_operands@,
            },
            Instruction::Phi { result_type, result_id, variables } => InstructionView::Phi {
                result_type: *result_type,
                result_id: *result_id,
                variables: variables@,
            },
            Instruction::Label { result_id } => InstructionView::Label {
                result_id: *result_id,
            },
            Instruction::Branch { target_label } => InstructionView::Branch {
                target_label: *target_label,
            },
            Instruction::BranchConditional { condition, true_label, false_label, weights } => InstructionView::BranchConditional {
                condition: *condition,
                true_label: *true_label,
                false_label: *false_label,
                weights: weights@,
            },
            Instruction::Switch { selector, default, targets } => InstructionView::Switch {
                selector: *selector,
                default: *default,
                targets: targets@,
            },
            Instruction::Return => InstructionView::Return,
            Instruction::ReturnValue { value } => InstructionView::ReturnValue {
                value: *value,
            },
            Instruction::Unknown(op, ws) => InstructionView::Unknown(*op, ws@),
        }
    }
}

// The opcodes of the known instruction set.
pub const OP_NOP: u16 = 0;
pub const OP_UNDEF: u16 = 1;
pub const OP_SOURCE: u16 = 3;
pub const OP_NAME: u16 = 5;
pub const OP_MEMBER_NAME: u16 = 6;
pub const OP_LINE: u16 = 8;
pub const OP_MEMORY_MODEL: u16 = 14;
pub const OP_ENTRY_POINT: u16 = 15;
pub const OP_EXECUTION_MODE: u16 = 16;
pub const OP_CAPABILITY: u16 = 17;
pub const OP_TYPE_VOID: u16 = 19;
pub const OP_TYPE_BOOL: u16 = 20;
pub const OP_TYPE_INT: u16 = 21;
pub const OP_TYPE_FLOAT: u16 = 22;
pub const OP_TYPE_VECTOR: u16 = 23;
pub const OP_TYPE_MATRIX: u16 = 24;
pub const OP_TYPE_IMAGE: u16 = 25;
pub const OP_TYPE_SAMPLER: u16 = 26;
pub const OP_TYPE_SAMPLED_IMAGE: u16 = 27;
pub const OP_TYPE_ARRAY: u16 = 28;
pub const OP_TYPE_RUNTIME_ARRAY: u16 = 29;
pub const OP_TYPE_STRUCT: u16 = 30;
pub const OP_TYPE_OPAQUE: u16 = 31;
pub const OP_TYPE_POINTER: u16 = 32;
pub const OP_TYPE_FUNCTION: u16 = 33;
pub const OP_TYPE_FORWARD_POINTER: u16 = 39;
pub const OP_CONSTANT_TRUE: u16 = 41;
pub const OP_CONSTANT_FALSE: u16 = 42;
pub const OP_CONSTANT: u16 = 43;
pub const OP_CONSTANT_COMPOSITE: u16 = 44;
pub const OP_CONSTANT_NULL: u16 = 46;
pub const OP_SPEC_CONSTANT_TRUE: u16 = 48;
pub const OP_SPEC_CONSTANT_FALSE: u16 = 49;
pub const OP_FUNCTION: u16 = 54;
pub const OP_FUNCTION_PARAMETER: u16 = 55;
pub const OP_FUNCTION_END: u16 = 56;
pub const OP_FUNCTION_CALL: u16 = 57;
pub const OP_VARIABLE: u16 = 59;
pub const OP_LOAD: u16 = 61;
pub const OP_STORE: u16 = 62;
pub const OP_ACCESS_CHAIN: u16 = 65;
pub const OP_DECORATE: u16 = 71;
pub const OP_MEMBER_DECORATE: u16 = 72;
pub const OP_DECORATION_GROUP: u16 = 73;
pub const OP_GROUP_DECORATE: u16 = 74;
pub const OP_GROUP_MEMBER_DECORATE: u16 = 75;
pub const OP_IMAGE_SAMPLE_IMPLICIT_LOD: u16 = 87;
pub const OP_PHI: u16 = 245;
pub const OP_LABEL: u16 = 248;
pub const OP_BRANCH: u16 = 249;
pub const OP_BRANCH_CONDITIONAL: u16 = 250;
pub const OP_SWITCH: u16 = 251;
pub const OP_RETURN: u16 = 253;
pub const OP_RETURN_VALUE: u16 = 254;

/// Is this opcode in the known set?
pub open spec fn is_known_op(op: u16) -> bool {
    op == OP_NOP
    || op == OP_UNDEF
    || op == OP_SOURCE
    || op == OP_NAME
    || op == OP_MEMBER_NAME
    || op == OP_LINE
    || op == OP_MEMORY_MODEL
    || op == OP_ENTRY_POINT
    || op == OP_EXECUTION_MODE
    || op == OP_CAPABILITY
    || op == OP_TYPE_VOID
    || op == OP_TYPE_BOOL
    || op == OP_TYPE_INT
    || op == OP_TYPE_FLOAT
    || op == OP_TYPE_VECTOR
    || op == OP_TYPE_MATRIX
    || op == OP_TYPE_IMAGE
    || op == OP_TYPE_SAMPLER
    || op == OP_TYPE_SAMPLED_IMAGE
    || op == OP_TYPE_ARRAY
    || op == OP_TYPE_RUNTIME_ARRAY
    || op == OP_TYPE_STRUCT
    || op == OP_TYPE_OPAQUE
    || op == OP_TYPE_POINTER
    || op == OP_TYPE_FUNCTION
    || op == OP_TYPE_FORWARD_POINTER
    || op == OP_CONSTANT_TRUE
    || op == OP_CONSTANT_FALSE
    || op == OP_CONSTANT
    || op == OP_CONSTANT_COMPOSITE
    || op == OP_CONSTANT_NULL
    || op == OP_SPEC_CONSTANT_TRUE
    || op == OP_SPEC_CONSTANT_FALSE
    || op == OP_FUNCTION
    || op == OP_FUNCTION_PARAMETER
    || op == OP_FUNCTION_END
    || op == OP_FUNCTION_CALL
    || op == OP_VARIABLE
    || op == OP_LOAD
    || op == OP_STORE
    || op == OP_ACCESS_CHAIN
    || op == OP_DECORATE
    || op == OP_MEMBER_DECORATE
    || op == OP_DECORATION_GROUP
    || op == OP_GROUP_DECORATE
    || op == OP_GROUP_MEMBER_DECORATE
    || op == OP_IMAGE_SAMPLE_IMPLICIT_LOD
    || op == OP_PHI
    || op == OP_LABEL
    || op == OP_BRANCH
    || op == OP_BRANCH_CONDITIONAL
    || op == OP_SWITCH
    || op == OP_RETURN
    || op == OP_RETURN_VALUE
}

impl InstructionView {
    /// The opcode of this instruction.
    pub open spec fn opcode(self) -> u16 {
        match self {
            InstructionView::Nop => OP_NOP,
            InstructionView::Undef { .. } => OP_UNDEF,
            InstructionView::Source { .. } => OP_SOURCE,
            InstructionView::Name { .. } => OP_NAME,
            InstructionView::MemberName { .. } => OP_MEMBER_NAME,
            InstructionView::Line { .. } => OP_LINE,
            InstructionView::MemoryModel { .. } => OP_MEMORY_MODEL,
            InstructionView::EntryPoint { .. } => OP_ENTRY_POINT,
            InstructionView::ExecutionMode { .. } => OP_EXECUTION_MODE,
            InstructionView::Capability { .. } => OP_CAPABILITY,
            InstructionView::TypeVoid { .. } => OP_TYPE_VOID,
            InstructionView::TypeBool { .. } => OP_TYPE_BOOL,
            InstructionView::TypeInt { .. } => OP_TYPE_INT,
            InstructionView::TypeFloat { .. } => OP_TYPE_FLOAT,
            InstructionView::TypeVector { .. } => OP_TYPE_VECTOR,
            InstructionView::TypeMatrix { .. } => OP_TYPE_MATRIX,
            InstructionView::TypeImage { .. } => OP_TYPE_IMAGE,
            InstructionView::TypeSampler { .. } => OP_TYPE_SAMPLER,
            InstructionView::TypeSampledImage { .. } => OP_TYPE_SAMPLED_IMAGE,
            InstructionView::TypeArray { .. } => OP_TYPE_ARRAY,
            InstructionView::TypeRuntimeArray { .. } => OP_TYPE_RUNTIME_ARRAY,
            InstructionView::TypeStruct { .. } => OP_TYPE_STRUCT,
            InstructionView::TypeOpaque { .. } => OP_TYPE_OPAQUE,
            InstructionView::TypePointer { .. } => OP_TYPE_POINTER,
            InstructionView::TypeFunction { .. } => OP_TYPE_FUNCTION,
            InstructionView::TypeForwardPointer { .. } => OP_TYPE_FORWARD_POINTER,
            InstructionView::ConstantTrue { .. } => OP_CONSTANT_TRUE,
            InstructionView::ConstantFalse { .. } => OP_CONSTANT_FALSE,
            InstructionView::Constant { .. } => OP_CONSTANT,
            InstructionView::ConstantComposite { .. } => OP_CONSTANT_COMPOSITE,
            InstructionView::ConstantNull { .. } => OP_CONSTANT_NULL,
            InstructionView::SpecConstantTrue { .. } => OP_SPEC_CONSTANT_TRUE,
            InstructionView::SpecConstantFalse { .. } => OP_SPEC_CONSTANT_FALSE,
            InstructionView::Function { .. } => OP_FUNCTION,
            InstructionView::FunctionParameter { .. } => OP_FUNCTION_PARAMETER,
            InstructionView::FunctionEnd => OP_FUNCTION_END,
            InstructionView::FunctionCall { .. } => OP_FUNCTION_CALL,
            InstructionView::Variable { .. } => OP_VARIABLE,
            InstructionView::Load { .. } => OP_LOAD,
            InstructionView::Store { .. } => OP_STORE,
            InstructionView::AccessChain { .. } => OP_ACCESS_CHAIN,
            InstructionView::Decorate { .. } => OP_DECORATE,
            InstructionView::MemberDecorate { .. } => OP_MEMBER_DECORATE,
            InstructionView::DecorationGroup { .. } => OP_DECORATION_GROUP,
            InstructionView::GroupDecorate { .. } => OP_GROUP_DECORATE,
            InstructionView::GroupMemberDecorate { .. } => OP_GROUP_MEMBER_DECORATE,
            InstructionView::ImageSampleImplicitLod { .. } => OP_IMAGE_SAMPLE_IMPLICIT_LOD,
            InstructionView::Phi { .. } => OP_PHI,
            InstructionView::Label { .. } => OP_LABEL,
            InstructionView::Branch { .. } => OP_BRANCH,
            InstructionView::BranchConditional { .. } => OP_BRANCH_CONDITIONAL,
            InstructionView::Switch { .. } => OP_SWITCH,
            InstructionView::Return => OP_RETURN,
            InstructionView::ReturnValue { .. } => OP_RETURN_VALUE,
            InstructionView::Unknown(op, _) => op,
        }
    }
}

impl InstructionView {
    /// The id the instruction defines as its own result, if any;
    /// type-defining opcodes are excluded.
    pub open spec fn spec_defines_value_inner(self) -> Option<ResultId> {
        match self {
            InstructionView::Undef { result_id, .. } => Some(result_id),
            InstructionView::ConstantTrue { result_id, .. } => Some(result_id),
            InstructionView::ConstantFalse { result_id, .. } => Some(result_id),
            InstructionView::Constant { result_id, .. } => Some(result_id),
            InstructionView::ConstantComposite { result_id, .. } => Some(result_id),
            InstructionView::ConstantNull { result_id, .. } => Some(result_id),
            InstructionView::SpecConstantTrue { result_id, .. } => Some(result_id),
            InstructionView::SpecConstantFalse { result_id, .. } => Some(result_id),
            InstructionView::Function { result_id, .. } => Some(result_id),
            InstructionView::FunctionParameter { result_id, .. } => Some(result_id),
            InstructionView::FunctionCall { result_id, .. } => Some(result_id),
            InstructionView::Variable { result_id, .. } => Some(result_id),
            InstructionView::Load { result_id, .. } => Some(result_id),
            InstructionView::AccessChain { result_id, .. } => Some(result_id),
            InstructionView::DecorationGroup { result_id, .. } => Some(result_id),
            InstructionView::ImageSampleImplicitLod { result_id, .. } => Some(result_id),
            InstructionView::Phi { result_id, .. } => Some(result_id),
            InstructionView::Label { result_id, .. } => Some(result_id),
            _ => None,
        }
    }

    /// The type id a type-defining instruction defines, if any.
    pub open spec fn spec_defines_type(self) -> Option<TypeId> {
        match self {
            InstructionView::TypeVoid { result_type, .. } => Some(result_type),
            InstructionView::TypeBool { result_type, .. } => Some(result_type),
            InstructionView::TypeInt { result_type, .. } => Some(result_type),
            InstructionView::TypeFloat { result_type, .. } => Some(result_type),
            InstructionView::TypeVector { result_type, .. } => Some(result_type),
            InstructionView::TypeMatrix { result_type, .. } => Some(result_type),
            InstructionView::TypeImage { result_type, .. } => Some(result_type),
            InstructionView::TypeSampler { result_type, .. } => Some(result_type),
            InstructionView::TypeSampledImage { result_type, .. } => Some(result_type),
            InstructionView::TypeArray { result_type, .. } => Some(result_type),
            InstructionView::TypeRuntimeArray { result_type, .. } => Some(result_type),
            InstructionView::TypeStruct { result_type, .. } => Some(result_type),
            InstructionView::TypeOpaque { result_type, .. } => Some(result_type),
            InstructionView::TypePointer { result_type, .. } => Some(result_type),
            InstructionView::TypeFunction { result_type, .. } => Some(result_type),
            _ => None,
        }
    }

    /// The type of this instruction's result, if the opcode declares one.
    pub open spec fn spec_type_id_of(self) -> Option<TypeId> {
        match self {
            InstructionView::Undef { result_type, .. } => Some(result_type),
            InstructionView::ConstantTrue { result_type, .. } => Some(result_type),
            InstructionView::ConstantFalse { result_type, .. } => Some(result_type),
            InstructionView::Constant { result_type, .. } => Some(result_type),
            InstructionView::ConstantComposite { result_type, .. } => Some(result_type),
            InstructionView::ConstantNull { result_type, .. } => Some(result_type),
            InstructionView::SpecConstantTrue { result_type, .. } => Some(result_type),
            InstructionView::SpecConstantFalse { result_type, .. } => Some(result_type),
            InstructionView::Function { result_type, .. } => Some(result_type),
            InstructionView::FunctionParameter { result_type, .. } => Some(result_type),
            InstructionView::FunctionCall { result_type, .. } => Some(result_type),
            InstructionView::Variable { result_type, .. } => Some(result_type),
            InstructionView::Load { result_type, .. } => Some(result_type),
            InstructionView::AccessChain { result_type, .. } => Some(result_type),
            InstructionView::ImageSampleImplicitLod { result_type, .. } => Some(result_type),
            InstructionView::Phi { result_type, .. } => Some(result_type),
            _ => None,
        }
    }

    /// Every id this instruction reads, in operand order: the result id
    /// is a definition and excluded, and so is the id a type-defining
    /// opcode introduces, but the result type of a value instruction is
    /// itself a use of a type id and is included.
    pub open spec fn spec_uses(self) -> Seq<Id> {
        match self {
            InstructionView::Undef { result_type, .. } => seq![Id(result_type.0)],
            InstructionView::Source { file, .. } => seq![Id(file.0)],
            InstructionView::Name { target, .. } => seq![Id(target.0)],
            InstructionView::MemberName { target, .. } => seq![Id(target.0)],
            InstructionView::Line { file, .. } => seq![Id(file.0)],
            InstructionView::EntryPoint { func, interface, .. } => seq![Id(func.0)]
                + interface.map_values(|x: ValueId| Id(x.0)),
            InstructionView::ExecutionMode { target, .. } => seq![Id(target.0)],
            InstructionView::TypeVector { type_id, .. } => seq![Id(type_id.0)],
            InstructionView::TypeMatrix { type_id, .. } => seq![Id(type_id.0)],
            InstructionView::TypeImage { type_id, .. } => seq![Id(type_id.0)],
            InstructionView::TypeSampledImage { image, .. } => seq![Id(image.0)],
            InstructionView::TypeArray { element, len, .. } => seq![Id(element.0)]
                + seq![Id(len.0)],
            InstructionView::TypeRuntimeArray { element, .. } => seq![Id(element.0)],
            InstructionView::TypeStruct { fields, .. } => fields.map_values(|x: TypeId| Id(x.0)),
            InstructionView::TypePointer { pointee, .. } => seq![Id(pointee.0)],
            InstructionView::TypeFunction { return_ty, params, .. } => seq![Id(return_ty.0)]
                + params.map_values(|x: TypeId| Id(x.0)),
            InstructionView::TypeForwardPointer { type_id, .. } => seq![Id(type_id.0)],
            InstructionView::ConstantTrue { result_type, .. } => seq![Id(result_type.0)],
            InstructionView::ConstantFalse { result_type, .. } => seq![Id(result_type.0)],
            InstructionView::Constant { result_type, .. } => seq![Id(result_type.0)],
            InstructionView::ConstantComposite { result_type, constituents, .. } => seq![Id(result_type.0)]
                + constituents.map_values(|x: ValueId| Id(x.0)),
            InstructionView::ConstantNull { result_type, .. } => seq![Id(result_type.0)],
            InstructionView::SpecConstantTrue { result_type, .. } => seq![Id(result_type.0)],
            InstructionView::SpecConstantFalse { result_type, .. } => seq![Id(result_type.0)],
            InstructionView::Function { result_type, function_type, .. } => seq![Id(result_type.0)]
                + seq![Id(function_type.0)],
            InstructionView::FunctionParameter { result_type, .. } => seq![Id(result_type.0)],
            InstructionView::FunctionCall { result_type, function, arguments, .. } => seq![Id(result_type.0)]
                + seq![Id(function.0)]
                + arguments.map_values(|x: ValueId| Id(x.0)),
            InstructionView::Variable { result_type, initializer, .. } => seq![Id(result_type.0)]
                + seq![Id(initializer.0)],
            InstructionView::Load { result_type, pointer, .. } => seq![Id(result_type.0)]
                + seq![Id(pointer.0)],
            InstructionView::Store { pointer, object, .. } => seq![Id(pointer.0)]
                + seq![Id(object.0)],
            InstructionView::AccessChain { result_type, base, indexes, .. } => seq![Id(result_type.0)]
                + seq![Id(base.0)]
                + indexes.map_values(|x: ValueId| Id(x.0)),
            InstructionView::Decorate { target, .. } => seq![Id(target.0)],
            InstructionView::MemberDecorate { structure_type, .. } => seq![Id(structure_type.0)],
            InstructionView::GroupDecorate { group, targets, .. } => seq![Id(group.0)]
                + targets,
            InstructionView::GroupMemberDecorate { group, targets, .. } => seq![Id(group.0)]
                + targets.map_values(|x: (Id, u32)| x.0),
            InstructionView::ImageSampleImplicitLod { result_type, sampled_image, coordinate, .. } => seq![Id(result_type.0)]
                + seq![Id(sampled_image.0)]
                + seq![Id(coordinate.0)],
            InstructionView::Phi { result_type, variables, .. } => seq![Id(result_type.0)]
                + variables.flat_map(|x: (ValueId, ValueId)| seq![Id(x.0.0), Id(x.1.0)]),
            InstructionView::Branch { target_label, .. } => seq![Id(target_label.0)],
            InstructionView::BranchConditional { condition, true_label, false_label, .. } => seq![Id(condition.0)]
                + seq![Id(true_label.0)]
                + seq![Id(false_label.0)],
            InstructionView::Switch { selector, default, targets, .. } => seq![Id(selector.0)]
                + seq![Id(default.0)]
                + targets.map_values(|x: (u32, Id)| x.1),
            InstructionView::ReturnValue { value, .. } => seq![Id(value.0)],
            _ => seq![],
        }
    }
}

// Helpers that append the ids of a repeated operand to a use list.

fn push_use_ids(ids: &mut Vec<Id>, v: &Vec<Id>)
    ensures
        final(ids)@ == old(ids)@ + v@,
{
    let ghost base = ids@;
    let mut k: usize = 0;
    while k < v.len()
        invariant
            k <= v.len(),
            ids@ == base + v@.take(k as int),
        decreases v.len() - k,
    {
        ids.push(v[k]);
        proof {
            assert(base + v@.take(k as int) + seq![v@[k as int]] =~= base + v@.take(k + 1));
        }
        k = k + 1;
    }
    proof {
        assert(base + v@.take(v@.len() as int) =~= base + v@);
    }
}

fn push_use_value_ids(ids: &mut Vec<Id>, v: &Vec<ValueId>)
    ensures
        final(ids)@ == old(ids)@ + v@.map_values(|x: ValueId| Id(x.0)),
{
    let ghost base = ids@;
    let ghost m = v@.map_values(|x: ValueId| Id(x.0));
    let mut k: usize = 0;
    while k < v.len()
        invariant
            k <= v.len(),
            m == v@.map_values(|x: ValueId| Id(x.0)),
            ids@ == base + m.take(k as int),
        decreases v.len() - k,
    {
        ids.push(Id(v[k].0));
        proof {
            assert(base + m.take(k as int) + seq![m[k as int]] =~= base + m.take(k + 1));
        }
        k = k + 1;
    }
    proof {
        assert(base + m.take(m.len() as int) =~= base + m);
    }
}

fn push_use_type_ids(ids: &mut Vec<Id>, v: &Vec<TypeId>)
    ensures
        final(ids)@ == old(ids)@ + v@.map_values(|x: TypeId| Id(x.0)),
{
    let ghost base = ids@;
    let ghost m = v@.map_values(|x: TypeId| Id(x.0));
    let mut k: usize = 0;
    while k < v.len()
        invariant
            k <= v.len(),
            m == v@.map_values(|x: TypeId| Id(x.0)),
            ids@ == base + m.take(k as int),
        decreases v.len() - k,
    {
        ids.push(Id(v[k].0));
        proof {
            assert(base + m.take(k as int) + seq![m[k as int]] =~= base + m.take(k + 1));
        }
        k = k + 1;
    }
    proof {
        assert(base + m.take(m.len() as int) =~= base + m);
    }
}

fn push_use_id_u32_firsts(ids: &mut Vec<Id>, v: &Vec<(Id, u32)>)
    ensures
        final(ids)@ == old(ids)@ + v@.map_values(|x: (Id, u32)| x.0),
{
    let ghost base = ids@;
    let ghost m = v@.map_values(|x: (Id, u32)| x.0);
    let mut k: usize = 0;
    while k < v.len()
        invariant
            k <= v.len(),
            m == v@.map_values(|x: (Id, u32)| x.0),
            ids@ == base + m.take(k as int),
        decreases v.len() - k,
    {
        ids.push(v[k].0);
        proof {
            assert(base + m.take(k as int) + seq![m[k as int]] =~= base + m.take(k + 1));
        }
        k = k + 1;
    }
    proof {
        assert(base + m.take(m.len() as int) =~= base + m);
    }
}

fn push_use_u32_id_seconds(ids: &mut Vec<Id>, v: &Vec<(u32, Id)>)
    ensures
        final(ids)@ == old(ids)@ + v@.map_values(|x: (u32, Id)| x.1),
{
    let ghost base = ids@;
    let ghost m = v@.map_values(|x: (u32, Id)| x.1);
    let mut k: usize = 0;
    while k < v.len()
        invariant
            k <= v.len(),
            m == v@.map_values(|x: (u32, Id)| x.1),
            ids@ == base + m.take(k as int),
        decreases v.len() - k,
    {
        ids.push(v[k].1);
        proof {
            assert(base + m.take(k as int) + seq![m[k as int]] =~= base + m.take(k + 1));
        }
        k = k + 1;
    }
    proof {
        assert(base + m.take(m.len() as int) =~= base + m);
    }
}

fn push_use_value_id_pairs(ids: &mut Vec<Id>, v: &Vec<(ValueId, ValueId)>)
    ensures
        final(ids)@ == old(ids)@ + v@.flat_map(|x: (ValueId, ValueId)| seq![Id(x.0.0), Id(x.1.0)]),
{
    let ghost base = ids@;
    let ghost f = |x: (ValueId, ValueId)| seq![Id(x.0.0), Id(x.1.0)];
    let mut k: usize = 0;
    while k < v.len()
        invariant
            k <= v.len(),
            ids@ == base + v@.take(k as int).flat_map(f),
            f == (|x: (ValueId, ValueId)| seq![Id(x.0.0), Id(x.1.0)]),
        decreases v.len() - k,
    {
        ids.push(Id(v[k].0.0));
        ids.push(Id(v[k].1.0));
        proof {
            v@.lemma_flat_map_take_append(f, k as int);
            assert(base + v@.take(k as int).flat_map(f) + seq![Id(v@[k as int].0.0)] + seq![
                Id(v@[k as int].1.0),
            ] =~= base + (v@.take(k as int).flat_map(f) + f(v@[k as int])));
        }
        k = k + 1;
    }
    proof {
        assert(v@.take(v@.len() as int) =~= v@);
    }
}

impl Instruction {
    /// The value id this instruction defines, if any.
    pub open spec fn spec_defines_value(self) -> Option<ValueId> {
        match self@.spec_defines_value_inner() {
            Some(r) => Some(ValueId(r.0)),
            None => None,
        }
    }

    /// The id the instruction defines as its own result, excluding
    /// type-defining opcodes.
    fn defines_value_inner(&self) -> (r: Option<ResultId>)
        ensures
            r == self@.spec_defines_value_inner(),
    {
        match self {
            Instruction::Undef { result_id, .. } => Some(*result_id),
            Instruction::ConstantTrue { result_id, .. } => Some(*result_id),
            Instruction::ConstantFalse { result_id, .. } => Some(*result_id),
            Instruction::Constant { result_id, .. } => Some(*result_id),
            Instruction::ConstantComposite { result_id, .. } => Some(*result_id),
            Instruction::ConstantNull { result_id, .. } => Some(*result_id),
            Instruction::SpecConstantTrue { result_id, .. } => Some(*result_id),
            Instruction::SpecConstantFalse { result_id, .. } => Some(*result_id),
            Instruction::Function { result_id, .. } => Some(*result_id),
            Instruction::FunctionParameter { result_id, .. } => Some(*result_id),
            Instruction::FunctionCall { result_id, .. } => Some(*result_id),
            Instruction::Variable { result_id, .. } => Some(*result_id),
            Instruction::Load { result_id, .. } => Some(*result_id),
            Instruction::AccessChain { result_id, .. } => Some(*result_id),
            Instruction::DecorationGroup { result_id, .. } => Some(*result_id),
            Instruction::ImageSampleImplicitLod { result_id, .. } => Some(*result_id),
            Instruction::Phi { result_id, .. } => Some(*result_id),
            Instruction::Label { result_id, .. } => Some(*result_id),
            _ => None,
        }
    }

    /// The value id this instruction defines, if any.
    pub fn defines_value(&self) -> (r: Option<ValueId>)
        ensures
            r == self.spec_defines_value(),
    {
        match self.defines_value_inner() {
            Some(rid) => Some(rid.to_value_id()),
            None => None,
        }
    }

    /// The type id a type-defining instruction defines, if any.
    pub fn defines_type(&self) -> (r: Option<TypeId>)
        ensures
            r == self@.spec_defines_type(),
    {
        match self {
            Instruction::TypeVoid { result_type, .. } => Some(*result_type),
            Instruction::TypeBool { result_type, .. } => Some(*result_type),
            Instruction::TypeInt { result_type, .. } => Some(*result_type),
            Instruction::TypeFloat { result_type, .. } => Some(*result_type),
            Instruction::TypeVector { result_type, .. } => Some(*result_type),
            Instruction::TypeMatrix { result_type, .. } => Some(*result_type),
            Instruction::TypeImage { result_type, .. } => Some(*result_type),
            Instruction::TypeSampler { result_type, .. } => Some(*result_type),
            Instruction::TypeSampledImage { result_type, .. } => Some(*result_type),
            Instruction::TypeArray { result_type, .. } => Some(*result_type),
            Instruction::TypeRuntimeArray { result_type, .. } => Some(*result_type),
            Instruction::TypeStruct { result_type, .. } => Some(*result_type),
            Instruction::TypeOpaque { result_type, .. } => Some(*result_type),
            Instruction::TypePointer { result_type, .. } => Some(*result_type),
            Instruction::TypeFunction { result_type, .. } => Some(*result_type),
            _ => None,
        }
    }

    /// The type of this instruction's result, if the opcode declares one.
    pub fn type_id_of(&self) -> (r: Option<TypeId>)
        ensures
            r == self@.spec_type_id_of(),
    {
        match self {
            Instruction::Undef { result_type, .. } => Some(*result_type),
            Instruction::ConstantTrue { result_type, .. } => Some(*result_type),
            Instruction::ConstantFalse { result_type, .. } => Some(*result_type),
            Instruction::Constant { result_type, .. } => Some(*result_type),
            Instruction::ConstantComposite { result_type, .. } => Some(*result_type),
            Instruction::ConstantNull { result_type, .. } => Some(*result_type),
            Instruction::SpecConstantTrue { result_type, .. } => Some(*result_type),
            Instruction::SpecConstantFalse { result_type, .. } => Some(*result_type),
            Instruction::Function { result_type, .. } => Some(*result_type),
            Instruction::FunctionParameter { result_type, .. } => Some(*result_type),
            Instruction::FunctionCall { result_type, .. } => Some(*result_type),
            Instruction::Variable { result_type, .. } => Some(*result_type),
            Instruction::Load { result_type, .. } => Some(*result_type),
            Instruction::AccessChain { result_type, .. } => Some(*result_type),
            Instruction::ImageSampleImplicitLod { result_type, .. } => Some(*result_type),
            Instruction::Phi { result_type, .. } => Some(*result_type),
            _ => None,
        }
    }

    /// Every id this instruction reads, in operand order.
    pub fn uses(&self) -> (r: Vec<Id>)
        ensures
            r@ == self@.spec_uses(),
    {
        let mut ids: Vec<Id> = Vec::new();
        match self {
            Instruction::Undef { result_type, .. } => {
                ids.push(Id(result_type.0));
            }
            Instruction::Source { file, .. } => {
                ids.push(Id(file.0));
            }
            Instruction::Name { target, .. } => {
                ids.push(Id(target.0));
            }
            Instruction::MemberName { target, .. } => {
                ids.push(Id(target.0));
            }
            Instruction::Line { file, .. } => {
                ids.push(Id(file.0));
            }
            Instruction::EntryPoint { func, interface, .. } => {
                ids.push(Id(func.0));
                push_use_value_ids(&mut ids, interface);
            }
            Instruction::ExecutionMode { target, .. } => {
                ids.push(Id(target.0));
            }
            Instruction::TypeVector { type_id, .. } => {
                ids.push(Id(type_id.0));
            }
            Instruction::TypeMatrix { type_id, .. } => {
                ids.push(Id(type_id.0));
            }
            Instruction::TypeImage { type_id, .. } => {
                ids.push(Id(type_id.0));
            }
            Instruction::TypeSampledImage { image, .. } => {
                ids.push(Id(image.0));
            }
            Instruction::TypeArray { element, len, .. } => {
                ids.push(Id(element.0));
                ids.push(Id(len.0));
            }
            Instruction::TypeRuntimeArray { element, .. } => {
                ids.push(Id(element.0));
            }
            Instruction::TypeStruct { fields, .. } => {
                push_use_type_ids(&mut ids, fields);
            }
            Instruction::TypePointer { pointee, .. } => {
                ids.push(Id(pointee.0));
            }
            Instruction::TypeFunction { return_ty, params, .. } => {
                ids.push(Id(return_ty.0));
                push_use_type_ids(&mut ids, params);
            }
            Instruction::TypeForwardPointer { type_id, .. } => {
                ids.push(Id(type_id.0));
            }
            Instruction::ConstantTrue { result_type, .. } => {
                ids.push(Id(result_type.0));
            }
            Instruction::ConstantFalse { result_type, .. } => {
                ids.push(Id(result_type.0));
            }
            Instruction::Constant { result_type, .. } => {
                ids.push(Id(result_type.0));
            }
            Instruction::ConstantComposite { result_type, constituents, .. } => {
                ids.push(Id(result_type.0));
                push_use_value_ids(&mut ids, constituents);
            }
            Instruction::ConstantNull { result_type, .. } => {
                ids.push(Id(result_type.0));
            }
            Instruction::SpecConstantTrue { result_type, .. } => {
                ids.push(Id(result_type.0));
            }
            Instruction::SpecConstantFalse { result_type, .. } => {
                ids.push(Id(result_type.0));
            }
            Instruction::Function { result_type, function_type, .. } => {
                ids.push(Id(result_type.0));
                ids.push(Id(function_type.0));
            }
            Instruction::FunctionParameter { result_type, .. } => {
                ids.push(Id(result_type.0));
            }
            Instruction::FunctionCall { result_type, function, arguments, .. } => {
                ids.push(Id(result_type.0));
                ids.push(Id(function.0));
                push_use_value_ids(&mut ids, arguments);
            }
            Instruction::Variable { result_type, initializer, .. } => {
                ids.push(Id(result_type.0));
                ids.push(Id(initializer.0));
            }
            Instruction::Load { result_type, pointer, .. } => {
                ids.push(Id(result_type.0));
                ids.push(Id(pointer.0));
            }
            Instruction::Store { pointer, object, .. } => {
                ids.push(Id(pointer.0));
                ids.push(Id(object.0));
            }
            Instruction::AccessChain { result_type, base, indexes, .. } => {
                ids.push(Id(result_type.0));
                ids.push(Id(base.0));
                push_use_value_ids(&mut ids, indexes);
            }
            Instruction::Decorate { target, .. } => {
                ids.push(Id(target.0));
            }
            Instruction::MemberDecorate { structure_type, .. } => {
                ids.push(Id(structure_type.0));
            }
            Instruction::GroupDecorate { group, targets, .. } => {
                ids.push(Id(group.0));
                push_use_ids(&mut ids, targets);
            }
            Instruction::GroupMemberDecorate { group, targets, .. } => {
                ids.push(Id(group.0));
                push_use_id_u32_firsts(&mut ids, targets);
            }
            Instruction::ImageSampleImplicitLod { result_type, sampled_image, coordinate, .. } => {
                ids.push(Id(result_type.0));
                ids.push(Id(sampled_image.0));
                ids.push(Id(coordinate.0));
            }
            Instruction::Phi { result_type, variables, .. } => {
                ids.push(Id(result_type.0));
                push_use_value_id_pairs(&mut ids, variables);
            }
            Instruction::Branch { target_label, .. } => {
                ids.push(Id(target_label.0));
            }
            Instruction::BranchConditional { condition, true_label, false_label, .. } => {
                ids.push(Id(condition.0));
                ids.push(Id(true_label.0));
                ids.push(Id(false_label.0));
            }
            Instruction::Switch { selector, default, targets, .. } => {
                ids.push(Id(selector.0));
                ids.push(Id(default.0));
                push_use_u32_id_seconds(&mut ids, targets);
            }
            Instruction::ReturnValue { value, .. } => {
                ids.push(Id(value.0));
            }
            _ => {}
        }
        proof {
            assert(ids@ =~= self@.spec_uses());
        }
        ids
    }
}

impl Decoration {
    /// An equal copy of this decoration.
    pub fn duplicate(&self) -> (r: Decoration)
        ensures
            r@ == self@,
    {
        match self {
            Decoration::RelaxedPrecision => Decoration::RelaxedPrecision,
            Decoration::SpecId(x) => Decoration::SpecId(*x),
            Decoration::Block => Decoration::Block,
            Decoration::BufferBlock => Decoration::BufferBlock,
            Decoration::RowMajor => Decoration::RowMajor,
            Decoration::ColMajor => Decoration::ColMajor,
            Decoration::ArrayStride(x) => Decoration::ArrayStride(*x),
            Decoration::MatrixStride(x) => Decoration::MatrixStride(*x),
            Decoration::GLSLShared => Decoration::GLSLShared,
            Decoration::GLSLPacked => Decoration::GLSLPacked,
            Decoration::CPacked => Decoration::CPacked,
            Decoration::BuiltIn(x) => Decoration::BuiltIn(*x),
            Decoration::NoPerspective => Decoration::NoPerspective,
            Decoration::Flat => Decoration::Flat,
            Decoration::Patch => Decoration::Patch,
            Decoration::Centroid => Decoration::Centroid,
            Decoration::Sample => Decoration::Sample,
            Decoration::Invariant => Decoration::Invariant,
            Decoration::Restrict => Decoration::Restrict,
            Decoration::Aliased => Decoration::Aliased,
            Decoration::Volatile => Decoration::Volatile,
            Decoration::Constant => Decoration::Constant,
            Decoration::Coherent => Decoration::Coherent,
            Decoration::NonWritable => Decoration::NonWritable,
            Decoration::NonReadable => Decoration::NonReadable,
            Decoration::Uniform => Decoration::Uniform,
            Decoration::SaturatedConversion => Decoration::SaturatedConversion,
            Decoration::Stream(x) => Decoration::Stream(*x),
            Decoration::Location(x) => Decoration::Location(*x),
            Decoration::Component(x) => Decoration::Component(*x),
            Decoration::Index(x) => Decoration::Index(*x),
            Decoration::Binding(x) => Decoration::Binding(*x),
            Decoration::DescriptorSet(x) => Decoration::DescriptorSet(*x),
            Decoration::Offset(x) => Decoration::Offset(*x),
            Decoration::XfbBuffer(x) => Decoration::XfbBuffer(*x),
            Decoration::XfbStride(x) => Decoration::XfbStride(*x),
            Decoration::FuncParamAttr(x) => Decoration::FuncParamAttr(*x),
            Decoration::FPRoundingMode(x) => Decoration::FPRoundingMode(*x),
            Decoration::FPFastMathMode(x) => Decoration::FPFastMathMode(*x),
            Decoration::LinkageAttributes(name, ty) => Decoration::LinkageAttributes(
                copy_bytes(name),
                *ty,
            ),
            Decoration::NoContraction => Decoration::NoContraction,
            Decoration::InputAttachmentIndex(x) => Decoration::InputAttachmentIndex(*x),
            Decoration::Alignment(x) => Decoration::Alignment(*x),
        }
    }
}

/// An equal copy of a byte string.
pub fn copy_bytes(v: &Vec<u8>) -> (r: Vec<u8>)
    ensures
        r@ == v@,
{
    let mut r: Vec<u8> = Vec::new();
    let mut i: usize = 0;
    while i < v.len()
        invariant
            i <= v@.len(),
            r@ == v@.take(i as int),
        decreases v@.len() - i,
    {
        r.push(v[i]);
        proof {
            assert(r@ =~= v@.take(i + 1));
        }
        i = i + 1;
    }
    proof {
        assert(v@.take(v@.len() as int) =~= v@);
    }
    r
}

} // verus!
