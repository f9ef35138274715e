//! The instruction encoder: canonical parameter words for every known
//! opcode, prefixed by the header word that packs the opcode and the
//! word count.

use vstd::prelude::*;

use crate::codec::str_words;
use crate::desc;
use crate::desc::{Id, ResultId, TypeId, ValueId};
use crate::inst_codec::{
    decoration_words, exec_mode_words, img_ops_words, pair_words, spec_inst_params,
};
use crate::instruction::{Decoration, ExecutionMode, ImageOperands, Instruction, InstructionView};
use crate::instruction::{
    OP_ACCESS_CHAIN, OP_BRANCH, OP_BRANCH_CONDITIONAL, OP_CAPABILITY, OP_CONSTANT,
    OP_CONSTANT_COMPOSITE, OP_CONSTANT_FALSE, OP_CONSTANT_NULL, OP_CONSTANT_TRUE, OP_DECORATE,
    OP_DECORATION_GROUP, OP_ENTRY_POINT, OP_EXECUTION_MODE, OP_FUNCTION, OP_FUNCTION_CALL,
    OP_FUNCTION_END, OP_FUNCTION_PARAMETER, OP_GROUP_DECORATE, OP_GROUP_MEMBER_DECORATE,
    OP_IMAGE_SAMPLE_IMPLICIT_LOD, OP_LABEL, OP_LINE, OP_LOAD, OP_MEMBER_DECORATE, OP_MEMBER_NAME,
    OP_MEMORY_MODEL, OP_NAME, OP_NOP, OP_PHI, OP_RETURN, OP_RETURN_VALUE, OP_SOURCE,
    OP_SPEC_CONSTANT_FALSE, OP_SPEC_CONSTANT_TRUE, OP_STORE, OP_SWITCH, OP_TYPE_ARRAY,
    OP_TYPE_BOOL, OP_TYPE_FLOAT, OP_TYPE_FORWARD_POINTER, OP_TYPE_FUNCTION, OP_TYPE_IMAGE,
    OP_TYPE_INT, OP_TYPE_MATRIX, OP_TYPE_OPAQUE, OP_TYPE_POINTER, OP_TYPE_RUNTIME_ARRAY,
    OP_TYPE_SAMPLED_IMAGE, OP_TYPE_SAMPLER, OP_TYPE_STRUCT, OP_TYPE_VECTOR, OP_TYPE_VOID,
    OP_UNDEF, OP_VARIABLE,
};

verus! {

/// Appends the bytes of a string operand as padded words: the bytes, one
/// zero terminator, and zero padding to the next word boundary.
fn push_str(out: &mut Vec<u32>, s: &Vec<u8>)
    ensures
        final(out)@ == old(out)@ + str_words(s@),
{
    let mut i: usize = 0;
    proof {
        assert(s@.skip(0) =~= s@);
    }
    while s.len() - i >= 4
        invariant
            i <= s@.len(),
            out@ + str_words(s@.skip(i as int)) == old(out)@ + str_words(s@),
        decreases s@.len() - i,
    {
        let ghost cur = s@.skip(i as int);
        let w = (s[i] as u32) | ((s[i + 1] as u32) << 8) | ((s[i + 2] as u32) << 16) | ((s[i
            + 3] as u32) << 24);
        out.push(w);
        proof {
            assert(cur[0] == s@[i as int] && cur[1] == s@[i + 1] && cur[2] == s@[i + 2] && cur[3]
                == s@[i + 3]);
            assert(cur.skip(4) =~= s@.skip(i + 4));
            assert(str_words(cur) =~= seq![w] + str_words(s@.skip(i + 4)));
            assert(out@ + str_words(s@.skip(i + 4)) =~= old(out)@ + str_words(s@));
        }
        i = i + 4;
    }
    let ghost cur = s@.skip(i as int);
    let m = s.len() - i;
    let w: u32 = if m == 3 {
        (s[i] as u32) | ((s[i + 1] as u32) << 8) | ((s[i + 2] as u32) << 16)
    } else if m == 2 {
        (s[i] as u32) | ((s[i + 1] as u32) << 8)
    } else if m == 1 {
        s[i] as u32
    } else {
        0
    };
    out.push(w);
    proof {
        let c0: u8 = if m >= 1 {
            cur[0]
        } else {
            0
        };
        let c1: u8 = if m >= 2 {
            cur[1]
        } else {
            0
        };
        let c2: u8 = if m >= 3 {
            cur[2]
        } else {
            0
        };
        if m == 3 {
            assert(cur[0] == s@[i as int] && cur[1] == s@[i + 1] && cur[2] == s@[i + 2]);
            assert(w == (c0 as u32) | ((c1 as u32) << 8) | ((c2 as u32) << 16) | ((0u8 as u32)
                << 24)) by (bit_vector)
                requires
                    w == (c0 as u32) | ((c1 as u32) << 8) | ((c2 as u32) << 16),
            ;
        } else if m == 2 {
            assert(w == (c0 as u32) | ((c1 as u32) << 8) | ((0u8 as u32) << 16) | ((0u8 as u32)
                << 24)) by (bit_vector)
                requires
                    w == (c0 as u32) | ((c1 as u32) << 8),
            ;
        } else if m == 1 {
            assert(w == (c0 as u32) | ((0u8 as u32) << 8) | ((0u8 as u32) << 16) | ((0u8 as u32)
                << 24)) by (bit_vector)
                requires
                    w == (c0 as u32),
            ;
        } else {
            assert(0u32 == (0u8 as u32) | ((0u8 as u32) << 8) | ((0u8 as u32) << 16) | ((0u8
                as u32) << 24)) by (bit_vector);
        }
        assert(str_words(cur) =~= seq![w]);
        assert(out@ =~= old(out)@ + str_words(s@));
    }
}

/// Appends every word of a literal list verbatim.
fn push_u32s(out: &mut Vec<u32>, v: &Vec<u32>)
    ensures
        final(out)@ == old(out)@ + v@,
{
    let mut k: usize = 0;
    while k < v.len()
        invariant
            k <= v@.len(),
            out@ == old(out)@ + v@.take(k as int),
        decreases v@.len() - k,
    {
        out.push(v[k]);
        proof {
            assert(out@ =~= old(out)@ + v@.take(k + 1));
        }
        k = k + 1;
    }
    proof {
        assert(v@.take(v@.len() as int) =~= v@);
    }
}

/// Appends the numeric values of a value-id list.
fn push_value_id_words(out: &mut Vec<u32>, v: &Vec<ValueId>)
    ensures
        final(out)@ == old(out)@ + v@.map_values(|x: ValueId| x.0),
{
    let ghost m = v@.map_values(|x: ValueId| x.0);
    let mut k: usize = 0;
    while k < v.len()
        invariant
            k <= v@.len(),
            m == v@.map_values(|x: ValueId| x.0),
            out@ == old(out)@ + m.take(k as int),
        decreases v@.len() - k,
    {
        out.push(v[k].0);
        proof {
            assert(out@ =~= old(out)@ + m.take(k + 1));
        }
        k = k + 1;
    }
    proof {
        assert(m.take(m.len() as int) =~= m);
    }
}

/// Appends the numeric values of a type-id list.
fn push_type_id_words(out: &mut Vec<u32>, v: &Vec<TypeId>)
    ensures
        final(out)@ == old(out)@ + v@.map_values(|x: TypeId| x.0),
{
    let ghost m = v@.map_values(|x: TypeId| x.0);
    let mut k: usize = 0;
    while k < v.len()
        invariant
            k <= v@.len(),
            m == v@.map_values(|x: TypeId| x.0),
            out@ == old(out)@ + m.take(k as int),
        decreases v@.len() - k,
    {
        out.push(v[k].0);
        proof {
            assert(out@ =~= old(out)@ + m.take(k + 1));
        }
        k = k + 1;
    }
    proof {
        assert(m.take(m.len() as int) =~= m);
    }
}

/// Appends the numeric values of an untyped id list.
fn push_id_words(out: &mut Vec<u32>, v: &Vec<Id>)
    ensures
        final(out)@ == old(out)@ + v@.map_values(|x: Id| x.0),
{
    let ghost m = v@.map_values(|x: Id| x.0);
    let mut k: usize = 0;
    while k < v.len()
        invariant
            k <= v@.len(),
            m == v@.map_values(|x: Id| x.0),
            out@ == old(out)@ + m.take(k as int),
        decreases v@.len() - k,
    {
        out.push(v[k].0);
        proof {
            assert(out@ =~= old(out)@ + m.take(k + 1));
        }
        k = k + 1;
    }
    proof {
        assert(m.take(m.len() as int) =~= m);
    }
}

/// Appends id/literal pairs as two words each.
fn push_id_u32_pairs(out: &mut Vec<u32>, v: &Vec<(Id, u32)>)
    ensures
        final(out)@ == old(out)@ + pair_words(v@.map_values(|x: (Id, u32)| (x.0.0, x.1))),
{
    let ghost m = v@.map_values(|x: (Id, u32)| (x.0.0, x.1));
    let mut k: usize = 0;
    proof {
        assert(m.skip(0) =~= m);
    }
    while k < v.len()
        invariant
            k <= v@.len(),
            m == v@.map_values(|x: (Id, u32)| (x.0.0, x.1)),
            out@ + pair_words(m.skip(k as int)) == old(out)@ + pair_words(m),
        decreases v@.len() - k,
    {
        let ghost cur = m.skip(k as int);
        out.push(v[k].0.0);
        out.push(v[k].1);
        proof {
            assert(cur[0] == m[k as int]);
            assert(cur.skip(1) =~= m.skip(k + 1));
            assert(out@ + pair_words(m.skip(k + 1)) =~= old(out)@ + pair_words(m));
        }
        k = k + 1;
    }
    proof {
        assert(m.skip(m.len() as int) =~= Seq::<(u32, u32)>::empty());
        assert(out@ =~= old(out)@ + pair_words(m));
    }
}

/// Appends literal/id pairs as two words each.
fn push_u32_id_pairs(out: &mut Vec<u32>, v: &Vec<(u32, Id)>)
    ensures
        final(out)@ == old(out)@ + pair_words(v@.map_values(|x: (u32, Id)| (x.0, x.1.0))),
{
    let ghost m = v@.map_values(|x: (u32, Id)| (x.0, x.1.0));
    let mut k: usize = 0;
    proof {
        assert(m.skip(0) =~= m);
    }
    while k < v.len()
        invariant
            k <= v@.len(),
            m == v@.map_values(|x: (u32, Id)| (x.0, x.1.0)),
            out@ + pair_words(m.skip(k as int)) == old(out)@ + pair_words(m),
        decreases v@.len() - k,
    {
        let ghost cur = m.skip(k as int);
        out.push(v[k].0);
        out.push(v[k].1.0);
        proof {
            assert(cur[0] == m[k as int]);
            assert(cur.skip(1) =~= m.skip(k + 1));
            assert(out@ + pair_words(m.skip(k + 1)) =~= old(out)@ + pair_words(m));
        }
        k = k + 1;
    }
    proof {
        assert(m.skip(m.len() as int) =~= Seq::<(u32, u32)>::empty());
        assert(out@ =~= old(out)@ + pair_words(m));
    }
}

/// Appends value-id pairs as two words each.
fn push_value_id_pairs(out: &mut Vec<u32>, v: &Vec<(ValueId, ValueId)>)
    ensures
        final(out)@ == old(out)@ + pair_words(
            v@.map_values(|x: (ValueId, ValueId)| (x.0.0, x.1.0)),
        ),
{
    let ghost m = v@.map_values(|x: (ValueId, ValueId)| (x.0.0, x.1.0));
    let mut k: usize = 0;
    proof {
        assert(m.skip(0) =~= m);
    }
    while k < v.len()
        invariant
            k <= v@.len(),
            m == v@.map_values(|x: (ValueId, ValueId)| (x.0.0, x.1.0)),
            out@ + pair_words(m.skip(k as int)) == old(out)@ + pair_words(m),
        decreases v@.len() - k,
    {
        let ghost cur = m.skip(k as int);
        out.push(v[k].0.0);
        out.push(v[k].1.0);
        proof {
            assert(cur[0] == m[k as int]);
            assert(cur.skip(1) =~= m.skip(k + 1));
            assert(out@ + pair_words(m.skip(k + 1)) =~= old(out)@ + pair_words(m));
        }
        k = k + 1;
    }
    proof {
        assert(m.skip(m.len() as int) =~= Seq::<(u32, u32)>::empty());
        assert(out@ =~= old(out)@ + pair_words(m));
    }
}

/// Appends an image-operand payload: the flag word, then one value id per
/// set flag, already stored in canonical order.
fn push_image_operands(out: &mut Vec<u32>, io: &ImageOperands)
    ensures
        final(out)@ == old(out)@ + img_ops_words(io@),
{
    out.push(io.set.0);
    push_value_id_words(out, &io.values);
    proof {
        assert(out@ =~= old(out)@ + img_ops_words(io@));
    }
}

/// Appends an execution-mode payload.
fn push_exec_mode(out: &mut Vec<u32>, m: &ExecutionMode)
    ensures
        final(out)@ == old(out)@ + exec_mode_words(*m),
{
    match m {
        ExecutionMode::Invocations(a0) => {
            out.push(desc::ExecutionMode::Invocations.code());
            out.push(*a0);
            proof {
                assert(out@ =~= old(out)@ + exec_mode_words(*m));
            }
        }
        ExecutionMode::SpacingEqual => {
            out.push(desc::ExecutionMode::SpacingEqual.code());
            proof {
                assert(out@ =~= old(out)@ + exec_mode_words(*m));
            }
        }
        ExecutionMode::SpacingFractionalEven => {
            out.push(desc::ExecutionMode::SpacingFractionalEven.code());
            proof {
                assert(out@ =~= old(out)@ + exec_mode_words(*m));
            }
        }
        ExecutionMode::SpacingFractionalOdd => {
            out.push(desc::ExecutionMode::SpacingFractionalOdd.code());
            proof {
                assert(out@ =~= old(out)@ + exec_mode_words(*m));
            }
        }
        ExecutionMode::VertexOrderCw => {
            out.push(desc::ExecutionMode::VertexOrderCw.code());
            proof {
                assert(out@ =~= old(out)@ + exec_mode_words(*m));
            }
        }
        ExecutionMode::VertexOrderCcw => {
            out.push(desc::ExecutionMode::VertexOrderCcw.code());
            proof {
                assert(out@ =~= old(out)@ + exec_mode_words(*m));
            }
        }
        ExecutionMode::PixelCenterInteger => {
            out.push(desc::ExecutionMode::PixelCenterInteger.code());
            proof {
                assert(out@ =~= old(out)@ + exec_mode_words(*m));
            }
        }
        ExecutionMode::OriginUpperLeft => {
            out.push(desc::ExecutionMode::OriginUpperLeft.code());
            proof {
                assert(out@ =~= old(out)@ + exec_mode_words(*m));
            }
        }
        ExecutionMode::OriginLowerLeft => {
            out.push(desc::ExecutionMode::OriginLowerLeft.code());
            proof {
                assert(out@ =~= old(out)@ + exec_mode_words(*m));
            }
        }
        ExecutionMode::EarlyFragmentTests => {
            out.push(desc::ExecutionMode::EarlyFragmentTests.code());
            proof {
                assert(out@ =~= old(out)@ + exec_mode_words(*m));
            }
        }
        ExecutionMode::PointMode => {
            out.push(desc::ExecutionMode::PointMode.code());
            proof {
                assert(out@ =~= old(out)@ + exec_mode_words(*m));
            }
        }
        ExecutionMode::Xfb => {
            out.push(desc::ExecutionMode::Xfb.code());
            proof {
                assert(out@ =~= old(out)@ + exec_mode_words(*m));
            }
        }
        ExecutionMode::DepthReplacing => {
            out.push(desc::ExecutionMode::DepthReplacing.code());
            proof {
                assert(out@ =~= old(out)@ + exec_mode_words(*m));
            }
        }
        ExecutionMode::DepthGreater => {
            out.push(desc::ExecutionMode::DepthGreater.code());
            proof {
                assert(out@ =~= old(out)@ + exec_mode_words(*m));
            }
        }
        ExecutionMode::DepthLess => {
            out.push(desc::ExecutionMode::DepthLess.code());
            proof {
                assert(out@ =~= old(out)@ + exec_mode_words(*m));
            }
        }
        ExecutionMode::DepthUnchanged => {
            out.push(desc::ExecutionMode::DepthUnchanged.code());
            proof {
                assert(out@ =~= old(out)@ + exec_mode_words(*m));
            }
        }
        ExecutionMode::LocalSize(a0, a1, a2) => {
            out.push(desc::ExecutionMode::LocalSize.code());
            out.push(*a0);
            out.push(*a1);
            out.push(*a2);
            proof {
                assert(out@ =~= old(out)@ + exec_mode_words(*m));
            }
        }
        ExecutionMode::LocalSizeHint(a0, a1, a2) => {
            out.push(desc::ExecutionMode::LocalSizeHint.code());
            out.push(*a0);
            out.push(*a1);
            out.push(*a2);
            proof {
                assert(out@ =~= old(out)@ + exec_mode_words(*m));
            }
        }
        ExecutionMode::InputPoints => {
            out.push(desc::ExecutionMode::InputPoints.code());
            proof {
                assert(out@ =~= old(out)@ + exec_mode_words(*m));
            }
        }
        ExecutionMode::InputLines => {
            out.push(desc::ExecutionMode::InputLines.code());
            proof {
                assert(out@ =~= old(out)@ + exec_mode_words(*m));
            }
        }
        ExecutionMode::InputLinesAdjacency => {
            out.push(desc::ExecutionMode::InputLinesAdjacency.code());
            proof {
                assert(out@ =~= old(out)@ + exec_mode_words(*m));
            }
        }
        ExecutionMode::Triangles => {
            out.push(desc::ExecutionMode::Triangles.code());
            proof {
                assert(out@ =~= old(out)@ + exec_mode_words(*m));
            }
        }
        ExecutionMode::InputTrianglesAdjacency => {
            out.push(desc::ExecutionMode::InputTrianglesAdjacency.code());
            proof {
                assert(out@ =~= old(out)@ + exec_mode_words(*m));
            }
        }
        ExecutionMode::Quads => {
            out.push(desc::ExecutionMode::Quads.code());
            proof {
                assert(out@ =~= old(out)@ + exec_mode_words(*m));
            }
        }
        ExecutionMode::IsoLines => {
            out.push(desc::ExecutionMode::IsoLines.code());
            proof {
                assert(out@ =~= old(out)@ + exec_mode_words(*m));
            }
        }
        ExecutionMode::OutputVertices(a0) => {
            out.push(desc::ExecutionMode::OutputVertices.code());
            out.push(*a0);
            proof {
                assert(out@ =~= old(out)@ + exec_mode_words(*m));
            }
        }
        ExecutionMode::OutputPoints => {
            out.push(desc::ExecutionMode::OutputPoints.code());
            proof {
                assert(out@ =~= old(out)@ + exec_mode_words(*m));
            }
        }
        ExecutionMode::OutputLineStrip => {
            out.push(desc::ExecutionMode::OutputLineStrip.code());
            proof {
                assert(out@ =~= old(out)@ + exec_mode_words(*m));
            }
        }
        ExecutionMode::OutputTriangleStrip => {
            out.push(desc::ExecutionMode::OutputTriangleStrip.code());
            proof {
                assert(out@ =~= old(out)@ + exec_mode_words(*m));
            }
        }
        ExecutionMode::VecTypeHint(a0) => {
            out.push(desc::ExecutionMode::VecTypeHint.code());
            out.push(*a0);
            proof {
                assert(out@ =~= old(out)@ + exec_mode_words(*m));
            }
        }
        ExecutionMode::ContractionOff => {
            out.push(desc::ExecutionMode::ContractionOff.code());
            proof {
                assert(out@ =~= old(out)@ + exec_mode_words(*m));
            }
        }
    }
}

/// Appends a decoration payload.
fn push_decoration(out: &mut Vec<u32>, d: &Decoration)
    ensures
        final(out)@ == old(out)@ + decoration_words(d@),
{
    match d {
        Decoration::RelaxedPrecision => {
            out.push(desc::Decoration::RelaxedPrecision.code());
            proof {
                assert(out@ =~= old(out)@ + decoration_words(d@));
            }
        }
        Decoration::SpecId(n) => {
            out.push(desc::Decoration::SpecId.code());
            out.push(*n);
            proof {
                assert(out@ =~= old(out)@ + decoration_words(d@));
            }
        }
        Decoration::Block => {
            out.push(desc::Decoration::Block.code());
            proof {
                assert(out@ =~= old(out)@ + decoration_words(d@));
            }
        }
        Decoration::BufferBlock => {
            out.push(desc::Decoration::BufferBlock.code());
            proof {
                assert(out@ =~= old(out)@ + decoration_words(d@));
            }
        }
        Decoration::RowMajor => {
            out.push(desc::Decoration::RowMajor.code());
            proof {
                assert(out@ =~= old(out)@ + decoration_words(d@));
            }
        }
        Decoration::ColMajor => {
            out.push(desc::Decoration::ColMajor.code());
            proof {
                assert(out@ =~= old(out)@ + decoration_words(d@));
            }
        }
        Decoration::ArrayStride(n) => {
            out.push(desc::Decoration::ArrayStride.code());
            out.push(*n);
            proof {
                assert(out@ =~= old(out)@ + decoration_words(d@));
            }
        }
        Decoration::MatrixStride(n) => {
            out.push(desc::Decoration::MatrixStride.code());
            out.push(*n);
            proof {
                assert(out@ =~= old(out)@ + decoration_words(d@));
            }
        }
        Decoration::GLSLShared => {
            out.push(desc::Decoration::GLSLShared.code());
            proof {
                assert(out@ =~= old(out)@ + decoration_words(d@));
            }
        }
        Decoration::GLSLPacked => {
            out.push(desc::Decoration::GLSLPacked.code());
            proof {
                assert(out@ =~= old(out)@ + decoration_words(d@));
            }
        }
        Decoration::CPacked => {
            out.push(desc::Decoration::CPacked.code());
            proof {
                assert(out@ =~= old(out)@ + decoration_words(d@));
            }
        }
        Decoration::BuiltIn(x) => {
            out.push(desc::Decoration::BuiltIn.code());
            out.push(x.code());
            proof {
                assert(out@ =~= old(out)@ + decoration_words(d@));
            }
        }
        Decoration::NoPerspective => {
            out.push(desc::Decoration::NoPerspective.code());
            proof {
                assert(out@ =~= old(out)@ + decoration_words(d@));
            }
        }
        Decoration::Flat => {
            out.push(desc::Decoration::Flat.code());
            proof {
                assert(out@ =~= old(out)@ + decoration_words(d@));
            }
        }
        Decoration::Patch => {
            out.push(desc::Decoration::Patch.code());
            proof {
                assert(out@ =~= old(out)@ + decoration_words(d@));
            }
        }
        Decoration::Centroid => {
            out.push(desc::Decoration::Centroid.code());
            proof {
                assert(out@ =~= old(out)@ + decoration_words(d@));
            }
        }
        Decoration::Sample => {
            out.push(desc::Decoration::Sample.code());
            proof {
                assert(out@ =~= old(out)@ + decoration_words(d@));
            }
        }
        Decoration::Invariant => {
            out.push(desc::Decoration::Invariant.code());
            proof {
                assert(out@ =~= old(out)@ + decoration_words(d@));
            }
        }
        Decoration::Restrict => {
            out.push(desc::Decoration::Restrict.code());
            proof {
                assert(out@ =~= old(out)@ + decoration_words(d@));
            }
        }
        Decoration::Aliased => {
            out.push(desc::Decoration::Aliased.code());
            proof {
                assert(out@ =~= old(out)@ + decoration_words(d@));
            }
        }
        Decoration::Volatile => {
            out.push(desc::Decoration::Volatile.code());
            proof {
                assert(out@ =~= old(out)@ + decoration_words(d@));
            }
        }
        Decoration::Constant => {
            out.push(desc::Decoration::Constant.code());
            proof {
                assert(out@ =~= old(out)@ + decoration_words(d@));
            }
        }
        Decoration::Coherent => {
            out.push(desc::Decoration::Coherent.code());
            proof {
                assert(out@ =~= old(out)@ + decoration_words(d@));
            }
        }
        Decoration::NonWritable => {
            out.push(desc::Decoration::NonWritable.code());
            proof {
                assert(out@ =~= old(out)@ + decoration_words(d@));
            }
        }
        Decoration::NonReadable => {
            out.push(desc::Decoration::NonReadable.code());
            proof {
                assert(out@ =~= old(out)@ + decoration_words(d@));
            }
        }
        Decoration::Uniform => {
            out.push(desc::Decoration::Uniform.code());
            proof {
                assert(out@ =~= old(out)@ + decoration_words(d@));
            }
        }
        Decoration::SaturatedConversion => {
            out.push(desc::Decoration::SaturatedConversion.code());
            proof {
                assert(out@ =~= old(out)@ + decoration_words(d@));
            }
        }
        Decoration::Stream(n) => {
            out.push(desc::Decoration::Stream.code());
            out.push(*n);
            proof {
                assert(out@ =~= old(out)@ + decoration_words(d@));
            }
        }
        Decoration::Location(n) => {
            out.push(desc::Decoration::Location.code());
            out.push(*n);
            proof {
                assert(out@ =~= old(out)@ + decoration_words(d@));
            }
        }
        Decoration::Component(n) => {
            out.push(desc::Decoration::Component.code());
            out.push(*n);
            proof {
                assert(out@ =~= old(out)@ + decoration_words(d@));
            }
        }
        Decoration::Index(n) => {
            out.push(desc::Decoration::Index.code());
            out.push(*n);
            proof {
                assert(out@ =~= old(out)@ + decoration_words(d@));
            }
        }
        Decoration::Binding(n) => {
            out.push(desc::Decoration::Binding.code());
            out.push(*n);
            proof {
                assert(out@ =~= old(out)@ + decoration_words(d@));
            }
        }
        Decoration::DescriptorSet(n) => {
            out.push(desc::Decoration::DescriptorSet.code());
            out.push(*n);
            proof {
                assert(out@ =~= old(out)@ + decoration_words(d@));
            }
        }
        Decoration::Offset(n) => {
            out.push(desc::Decoration::Offset.code());
            out.push(*n);
            proof {
                assert(out@ =~= old(out)@ + decoration_words(d@));
            }
        }
        Decoration::XfbBuffer(n) => {
            out.push(desc::Decoration::XfbBuffer.code());
            out.push(*n);
            proof {
                assert(out@ =~= old(out)@ + decoration_words(d@));
            }
        }
        Decoration::XfbStride(n) => {
            out.push(desc::Decoration::XfbStride.code());
            out.push(*n);
            proof {
                assert(out@ =~= old(out)@ + decoration_words(d@));
            }
        }
        Decoration::FuncParamAttr(x) => {
            out.push(desc::Decoration::FuncParamAttr.code());
            out.push(x.code());
            proof {
                assert(out@ =~= old(out)@ + decoration_words(d@));
            }
        }
        Decoration::FPRoundingMode(x) => {
            out.push(desc::Decoration::FPRoundingMode.code());
            out.push(x.code());
            proof {
                assert(out@ =~= old(out)@ + decoration_words(d@));
            }
        }
        Decoration::FPFastMathMode(b) => {
            out.push(desc::Decoration::FPFastMathMode.code());
            out.push(b.0);
            proof {
                assert(out@ =~= old(out)@ + decoration_words(d@));
            }
        }
        Decoration::LinkageAttributes(name, ty) => {
            out.push(desc::Decoration::LinkageAttributes.code());
            push_str(out, name);
            out.push(ty.code());
            proof {
                assert(out@ =~= old(out)@ + decoration_words(d@));
            }
        }
        Decoration::NoContraction => {
            out.push(desc::Decoration::NoContraction.code());
            proof {
                assert(out@ =~= old(out)@ + decoration_words(d@));
            }
        }
        Decoration::InputAttachmentIndex(n) => {
            out.push(desc::Decoration::InputAttachmentIndex.code());
            out.push(*n);
            proof {
                assert(out@ =~= old(out)@ + decoration_words(d@));
            }
        }
        Decoration::Alignment(n) => {
            out.push(desc::Decoration::Alignment.code());
            out.push(*n);
            proof {
                assert(out@ =~= old(out)@ + decoration_words(d@));
            }
        }
    }
}

/// Appends the canonical parameter words of an instruction, each
/// operand in declaration order.
#[verifier::rlimit(100)]
#[verifier::spinoff_prover]
fn encode_params(inst: &Instruction, out: &mut Vec<u32>)
    ensures
        final(out)@ == old(out)@ + spec_inst_params(inst@),
{
    match inst {
        Instruction::Nop => {
            proof {
                assert(out@ =~= old(out)@ + spec_inst_params(inst@));
            }
        }
        Instruction::Undef { result_type, result_id } => {
            out.push(result_type.0);
            out.push(result_id.0);
            proof {
                assert(out@ =~= old(out)@ + spec_inst_params(inst@));
            }
        }
        Instruction::Source { src_lang, version, file, source } => {
            out.push(src_lang.code());
            out.push(*version);
            if file.0 != 0 {
                out.push(file.0);
            }
            match source {
                Some(b) => push_str(out, b),
                None => {}
            }
            proof {
                assert(out@ =~= old(out)@ + spec_inst_params(inst@));
            }
        }
        Instruction::Name { target, name } => {
            out.push(target.0);
            push_str(out, name);
            proof {
                assert(out@ =~= old(out)@ + spec_inst_params(inst@));
            }
        }
        Instruction::MemberName { target, member, name } => {
            out.push(target.0);
            out.push(*member);
            push_str(out, name);
            proof {
                assert(out@ =~= old(out)@ + spec_inst_params(inst@));
            }
        }
        Instruction::Line { file, line, column } => {
            out.push(file.0);
            out.push(*line);
            out.push(*column);
            proof {
                assert(out@ =~= old(out)@ + spec_inst_params(inst@));
            }
        }
        Instruction::MemoryModel { addressing_model, memory_model } => {
            out.push(addressing_model.code());
            out.push(memory_model.code());
            proof {
                assert(out@ =~= old(out)@ + spec_inst_params(inst@));
            }
        }
        Instruction::EntryPoint { execution_model, func, name, interface } => {
            out.push(execution_model.code());
            out.push(func.0);
            push_str(out, name);
            push_value_id_words(out, interface);
            proof {
                assert(out@ =~= old(out)@ + spec_inst_params(inst@));
            }
        }
        Instruction::ExecutionMode { target, mode } => {
            out.push(target.0);
            push_exec_mode(out, mode);
            proof {
                assert(out@ =~= old(out)@ + spec_inst_params(inst@));
            }
        }
        Instruction::Capability { capability } => {
            out.push(capability.code());
            proof {
                assert(out@ =~= old(out)@ + spec_inst_params(inst@));
            }
        }
        Instruction::TypeVoid { result_type } => {
            out.push(result_type.0);
            proof {
                assert(out@ =~= old(out)@ + spec_inst_params(inst@));
            }
        }
        Instruction::TypeBool { result_type } => {
            out.push(result_type.0);
            proof {
                assert(out@ =~= old(out)@ + spec_inst_params(inst@));
            }
        }
        Instruction::TypeInt { result_type, width, signed } => {
            out.push(result_type.0);
            out.push(*width);
            if *signed {
                out.push(1);
            } else {
                out.push(0);
            }
            proof {
                assert(out@ =~= old(out)@ + spec_inst_params(inst@));
            }
        }
        Instruction::TypeFloat { result_type, width } => {
            out.push(result_type.0);
            out.push(*width);
            proof {
                assert(out@ =~= old(out)@ + spec_inst_params(inst@));
            }
        }
        Instruction::TypeVector { result_type, type_id, len } => {
            out.push(result_type.0);
            out.push(type_id.0);
            out.push(*len);
            proof {
                assert(out@ =~= old(out)@ + spec_inst_params(inst@));
            }
        }
        Instruction::TypeMatrix { result_type, type_id, cols } => {
            out.push(result_type.0);
            out.push(type_id.0);
            out.push(*cols);
            proof {
                assert(out@ =~= old(out)@ + spec_inst_params(inst@));
            }
        }
        Instruction::TypeImage { result_type, type_id, dim, depth, arrayed, multisampled, sampled, image_format, access_qualifier } => {
            out.push(result_type.0);
            out.push(type_id.0);
            out.push(dim.code());
            out.push(*depth);
            if *arrayed {
                out.push(1);
            } else {
                out.push(0);
            }
            if *multisampled {
                out.push(1);
            } else {
                out.push(0);
            }
            out.push(*sampled);
            out.push(image_format.code());
            match access_qualifier {
                Some(x) => out.push(x.code()),
                None => {}
            }
            proof {
                assert(out@ =~= old(out)@ + spec_inst_params(inst@));
            }
        }
        Instruction::TypeSampler { result_type } => {
            out.push(result_type.0);
            proof {
                assert(out@ =~= old(out)@ + spec_inst_params(inst@));
            }
        }
        Instruction::TypeSampledImage { result_type, image } => {
            out.push(result_type.0);
            out.push(image.0);
            proof {
                assert(out@ =~= old(out)@ + spec_inst_params(inst@));
            }
        }
        Instruction::TypeArray { result_type, element, len } => {
            out.push(result_type.0);
            out.push(element.0);
            out.push(len.0);
            proof {
                assert(out@ =~= old(out)@ + spec_inst_params(inst@));
            }
        }
        Instruction::TypeRuntimeArray { result_type, element } => {
            out.push(result_type.0);
            out.push(element.0);
            proof {
                assert(out@ =~= old(out)@ + spec_inst_params(inst@));
            }
        }
        Instruction::TypeStruct { result_type, fields } => {
            out.push(result_type.0);
            push_type_id_words(out, fields);
            proof {
                assert(out@ =~= old(out)@ + spec_inst_params(inst@));
            }
        }
        Instruction::TypeOpaque { result_type, name } => {
            out.push(result_type.0);
            push_str(out, name);
            proof {
                assert(out@ =~= old(out)@ + spec_inst_params(inst@));
            }
        }
        Instruction::TypePointer { result_type, storage_class, pointee } => {
            out.push(result_type.0);
            out.push(storage_class.code());
            out.push(pointee.0);
            proof {
                assert(out@ =~= old(out)@ + spec_inst_params(inst@));
            }
        }
        Instruction::TypeFunction { result_type, return_ty, params } => {
            out.push(result_type.0);
            out.push(return_ty.0);
            push_type_id_words(out, params);
            proof {
                assert(out@ =~= old(out)@ + spec_inst_params(inst@));
            }
        }
        Instruction::TypeForwardPointer { type_id, storage_class } => {
            out.push(type_id.0);
            out.push(storage_class.code());
            proof {
                assert(out@ =~= old(out)@ + spec_inst_params(inst@));
            }
        }
        Instruction::ConstantTrue { result_type, result_id } => {
            out.push(result_type.0);
            out.push(result_id.0);
            proof {
                assert(out@ =~= old(out)@ + spec_inst_params(inst@));
            }
        }
        Instruction::ConstantFalse { result_type, result_id } => {
            out.push(result_type.0);
            out.push(result_id.0);
            proof {
                assert(out@ =~= old(out)@ + spec_inst_params(inst@));
            }
        }
        Instruction::Constant { result_type, result_id, value } => {
            out.push(result_type.0);
            out.push(result_id.0);
            push_u32s(out, value);
            proof {
                assert(out@ =~= old(out)@ + spec_inst_params(inst@));
            }
        }
        Instruction::ConstantComposite { result_type, result_id, constituents } => {
            out.push(result_type.0);
            out.push(result_id.0);
            push_value_id_words(out, constituents);
            proof {
                assert(out@ =~= old(out)@ + spec_inst_params(inst@));
            }
        }
        Instruction::ConstantNull { result_type, result_id } => {
            out.push(result_type.0);
            out.push(result_id.0);
            proof {
                assert(out@ =~= old(out)@ + spec_inst_params(inst@));
            }
        }
        Instruction::SpecConstantTrue { result_type, result_id } => {
            out.push(result_type.0);
            out.push(result_id.0);
            proof {
                assert(out@ =~= old(out)@ + spec_inst_params(inst@));
            }
        }
        Instruction::SpecConstantFalse { result_type, result_id } => {
            out.push(result_type.0);
            out.push(result_id.0);
            proof {
                assert(out@ =~= old(out)@ + spec_inst_params(inst@));
            }
        }
        Instruction::Function { result_type, result_id, function_control, function_type } => {
            out.push(result_type.0);
            out.push(result_id.0);
            out.push(function_control.0);
            out.push(function_type.0);
            proof {
                assert(out@ =~= old(out)@ + spec_inst_params(inst@));
            }
        }
        Instruction::FunctionParameter { result_type, result_id } => {
            out.push(result_type.0);
            out.push(result_id.0);
            proof {
                assert(out@ =~= old(out)@ + spec_inst_params(inst@));
            }
        }
        Instruction::FunctionEnd => {
            proof {
                assert(out@ =~= old(out)@ + spec_inst_params(inst@));
            }
        }
        Instruction::FunctionCall { result_type, result_id, function, arguments } => {
            out.push(result_type.0);
            out.push(result_id.0);
            out.push(function.0);
            push_value_id_words(out, arguments);
            proof {
                assert(out@ =~= old(out)@ + spec_inst_params(inst@));
            }
        }
        Instruction::Variable { result_type, result_id, storage_class, initializer } => {
            out.push(result_type.0);
            out.push(result_id.0);
            out.push(storage_class.code());
            if initializer.0 != 0 {
                out.push(initializer.0);
            }
            proof {
                assert(out@ =~= old(out)@ + spec_inst_params(inst@));
            }
        }
        Instruction::Load { result_type, result_id, pointer, memory_access } => {
            out.push(result_type.0);
            out.push(result_id.0);
            out.push(pointer.0);
            out.push(memory_access.0);
            proof {
                assert(out@ =~= old(out)@ + spec_inst_params(inst@));
            }
        }
        Instruction::Store { pointer, object, memory_access } => {
            out.push(pointer.0);
            out.push(object.0);
            out.push(memory_access.0);
            proof {
                assert(out@ =~= old(out)@ + spec_inst_params(inst@));
            }
        }
        Instruction::AccessChain { result_type, result_id, base, indexes } => {
            out.push(result_type.0);
            out.push(result_id.0);
            out.push(base.0);
            push_value_id_words(out, indexes);
            proof {
                assert(out@ =~= old(out)@ + spec_inst_params(inst@));
            }
        }
        Instruction::Decorate { target, decoration } => {
            out.push(target.0);
            push_decoration(out, decoration);
            proof {
                assert(out@ =~= old(out)@ + spec_inst_params(inst@));
            }
        }
        Instruction::MemberDecorate { structure_type, member, decoration } => {
            out.push(structure_type.0);
            out.push(*member);
            push_decoration(out, decoration);
            proof {
                assert(out@ =~= old(out)@ + spec_inst_params(inst@));
            }
        }
        Instruction::DecorationGroup { result_id } => {
            out.push(result_id.0);
            proof {
                assert(out@ =~= old(out)@ + spec_inst_params(inst@));
            }
        }
        Instruction::GroupDecorate { group, targets } => {
            out.push(group.0);
            push_id_words(out, targets);
            proof {
                assert(out@ =~= old(out)@ + spec_inst_params(inst@));
            }
        }
        Instruction::GroupMemberDecorate { group, targets } => {
            out.push(group.0);
            push_id_u32_pairs(out, targets);
            proof {
                assert(out@ =~= old(out)@ + spec_inst_params(inst@));
            }
        }
        Instruction::ImageSampleImplicitLod { result_type, result_id, sampled_image, coordinate, image_operands } => {
            out.push(result_type.0);
            out.push(result_id.0);
            out.push(sampled_image.0);
            out.push(coordinate.0);
            push_image_operands(out, image_operands);
            proof {
                assert(out@ =~= old(out)@ + spec_inst_params(inst@));
            }
        }
        Instruction::Phi { result_type, result_id, variables } => {
            out.push(result_type.0);
            out.push(result_id.0);
            push_value_id_pairs(out, variables);
            proof {
                assert(out@ =~= old(out)@ + spec_inst_params(inst@));
            }
        }
        Instruction::Label { result_id } => {
            out.push(result_id.0);
            proof {
                assert(out@ =~= old(out)@ + spec_inst_params(inst@));
            }
        }
        Instruction::Branch { target_label } => {
            out.push(target_label.0);
            proof {
                assert(out@ =~= old(out)@ + spec_inst_params(inst@));
            }
        }
        Instruction::BranchConditional { condition, true_label, false_label, weights } => {
            out.push(condition.0);
            out.push(true_label.0);
            out.push(false_label.0);
            push_u32s(out, weights);
            proof {
                assert(out@ =~= old(out)@ + spec_inst_params(inst@));
            }
        }
        Instruction::Switch { selector, default, targets } => {
            out.push(selector.0);
            out.push(default.0);
            push_u32_id_pairs(out, targets);
            proof {
                assert(out@ =~= old(out)@ + spec_inst_params(inst@));
            }
        }
        Instruction::Return => {
            proof {
                assert(out@ =~= old(out)@ + spec_inst_params(inst@));
            }
        }
        Instruction::ReturnValue { value } => {
            out.push(value.0);
            proof {
                assert(out@ =~= old(out)@ + spec_inst_params(inst@));
            }
        }
        Instruction::Unknown(_, ws) => {
            push_u32s(out, ws);
            proof {
                assert(out@ =~= old(out)@ + spec_inst_params(inst@));
            }
        }
    }
}

impl Instruction {
    /// The opcode of this instruction.
    pub fn opcode(&self) -> (r: u16)
        ensures
            r == self@.opcode(),
    {
        match self {
            Instruction::Nop => OP_NOP,
            Instruction::Undef { .. } => OP_UNDEF,
            Instruction::Source { .. } => OP_SOURCE,
            Instruction::Name { .. } => OP_NAME,
            Instruction::MemberName { .. } => OP_MEMBER_NAME,
            Instruction::Line { .. } => OP_LINE,
            Instruction::MemoryModel { .. } => OP_MEMORY_MODEL,
            Instruction::EntryPoint { .. } => OP_ENTRY_POINT,
            Instruction::ExecutionMode { .. } => OP_EXECUTION_MODE,
            Instruction::Capability { .. } => OP_CAPABILITY,
            Instruction::TypeVoid { .. } => OP_TYPE_VOID,
            Instruction::TypeBool { .. } => OP_TYPE_BOOL,
            Instruction::TypeInt { .. } => OP_TYPE_INT,
            Instruction::TypeFloat { .. } => OP_TYPE_FLOAT,
            Instruction::TypeVector { .. } => OP_TYPE_VECTOR,
            Instruction::TypeMatrix { .. } => OP_TYPE_MATRIX,
            Instruction::TypeImage { .. } => OP_TYPE_IMAGE,
            Instruction::TypeSampler { .. } => OP_TYPE_SAMPLER,
            Instruction::TypeSampledImage { .. } => OP_TYPE_SAMPLED_IMAGE,
            Instruction::TypeArray { .. } => OP_TYPE_ARRAY,
            Instruction::TypeRuntimeArray { .. } => OP_TYPE_RUNTIME_ARRAY,
            Instruction::TypeStruct { .. } => OP_TYPE_STRUCT,
            Instruction::TypeOpaque { .. } => OP_TYPE_OPAQUE,
            Instruction::TypePointer { .. } => OP_TYPE_POINTER,
            Instruction::TypeFunction { .. } => OP_TYPE_FUNCTION,
            Instruction::TypeForwardPointer { .. } => OP_TYPE_FORWARD_POINTER,
            Instruction::ConstantTrue { .. } => OP_CONSTANT_TRUE,
            Instruction::ConstantFalse { .. } => OP_CONSTANT_FALSE,
            Instruction::Constant { .. } => OP_CONSTANT,
            Instruction::ConstantComposite { .. } => OP_CONSTANT_COMPOSITE,
            Instruction::ConstantNull { .. } => OP_CONSTANT_NULL,
            Instruction::SpecConstantTrue { .. } => OP_SPEC_CONSTANT_TRUE,
            Instruction::SpecConstantFalse { .. } => OP_SPEC_CONSTANT_FALSE,
            Instruction::Function { .. } => OP_FUNCTION,
            Instruction::FunctionParameter { .. } => OP_FUNCTION_PARAMETER,
            Instruction::FunctionEnd => OP_FUNCTION_END,
            Instruction::FunctionCall { .. } => OP_FUNCTION_CALL,
            Instruction::Variable { .. } => OP_VARIABLE,
            Instruction::Load { .. } => OP_LOAD,
            Instruction::Store { .. } => OP_STORE,
            Instruction::AccessChain { .. } => OP_ACCESS_CHAIN,
            Instruction::Decorate { .. } => OP_DECORATE,
            Instruction::MemberDecorate { .. } => OP_MEMBER_DECORATE,
            Instruction::DecorationGroup { .. } => OP_DECORATION_GROUP,
            Instruction::GroupDecorate { .. } => OP_GROUP_DECORATE,
            Instruction::GroupMemberDecorate { .. } => OP_GROUP_MEMBER_DECORATE,
            Instruction::ImageSampleImplicitLod { .. } => OP_IMAGE_SAMPLE_IMPLICIT_LOD,
            Instruction::Phi { .. } => OP_PHI,
            Instruction::Label { .. } => OP_LABEL,
            Instruction::Branch { .. } => OP_BRANCH,
            Instruction::BranchConditional { .. } => OP_BRANCH_CONDITIONAL,
            Instruction::Switch { .. } => OP_SWITCH,
            Instruction::Return => OP_RETURN,
            Instruction::ReturnValue { .. } => OP_RETURN_VALUE,
            Instruction::Unknown(op, _) => *op,
        }
    }
}


/// The header word of an instruction: the opcode in the low half, the
/// total word count (parameters plus the header itself) in the high half.
pub open spec fn inst_header_word(v: InstructionView) -> u32 {
    (v.opcode() as u32) | (((spec_inst_params(v).len() + 1) as u32) << 16)
}

/// Encodes one instruction to its words: the header word packing opcode
/// and count, then the canonical parameter words.
pub fn to_bytecode(inst: &Instruction) -> (r: Vec<u32>)
    requires
        spec_inst_params(inst@).len() + 1 <= 0xFFFF,
    ensures
        r@ == seq![inst_header_word(inst@)] + spec_inst_params(inst@),
{
    let mut params: Vec<u32> = Vec::new();
    encode_params(inst, &mut params);
    proof {
        assert(params@ =~= spec_inst_params(inst@));
    }
    let count = (params.len() + 1) as u32;
    let header = (inst.opcode() as u32) | (count << 16);
    let mut r: Vec<u32> = Vec::new();
    r.push(header);
    r.append(&mut params);
    proof {
        assert(r@ =~= seq![inst_header_word(inst@)] + spec_inst_params(inst@));
    }
    r
}

/// Builds the padded word list of one string operand.
pub struct StringBuilder {
    pub words: Vec<u32>,
}

impl StringBuilder {
    /// Turns a byte string into its padded list of 32-bit words: the
    /// bytes, one zero terminator, and zero padding to the next word
    /// boundary.
    pub fn to_words(string: &Vec<u8>) -> (r: Vec<u32>)
        ensures
            r@ == str_words(string@),
    {
        let mut out: Vec<u32> = Vec::new();
        push_str(&mut out, string);
        out
    }
}

} // verus!
