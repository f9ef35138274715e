//! The module indexer: one streaming pass over the decoded instruction
//! stream building typed side tables — capabilities, names, member
//! names, decorations, entry points, and structured type, constant and
//! variable records — all keyed by id, last write winning.

use vstd::prelude::*;

use crate::decoration::{
    assoc_last, decs_view, groups_view, lemma_member_index_at, lemma_member_index_none,
    member_first, members_view, spec_insert_decoration, upsert_member, DecorationMap,
    DecorationMapBuilder,
};
use crate::desc;
use crate::desc::{Id, TypeId, ValueId};
use crate::id_map::{find_last, lemma_find_last_key, GetId, RawIdMap, RawIdMapBuilder};
use crate::instruction::{copy_bytes, Decoration, DecorationView, Instruction, InstructionView};
use crate::parse::{parse_raw_instruction, Header, ParseError};
use crate::read::Reader;

verus! {

/// How a sampled image reports depth.
#[derive(Copy, Clone, PartialEq, Eq, Structural, Debug)]
pub enum ImageDepth {
    NoDepth,
    Depth,
    Unknown,
}

/// Whether an image type is known to be sampled.
#[derive(Copy, Clone, PartialEq, Eq, Structural, Debug)]
pub enum ImageSampled {
    Unknown,
    Sampled,
    NotSampled,
}

/// A decoded, structured type: richer than the raw instruction, with
/// type-to-type edges as id references.
#[derive(Clone, PartialEq, Eq, Debug)]
pub enum Ty {
    Void,
    Bool,
    Int(u32),
    UInt(u32),
    Float(u32),
    Vector(TypeId, u32),
    Matrix(TypeId, u32),
    Image {
        sample_type: TypeId,
        dim: desc::Dim,
        depth: ImageDepth,
        arrayed: bool,
        multisampled: bool,
        sampled: ImageSampled,
        image_format: desc::ImageFormat,
        access_qualifier: Option<desc::AccessQualifier>,
    },
    Sampler,
    SampledImage(TypeId),
    Array(TypeId, ValueId),
    RuntimeArray(TypeId),
    Struct(Vec<TypeId>),
    Opaque(Vec<u8>),
    Pointer(desc::StorageClass, TypeId),
}

impl Ty {
    /// Is this a structure type?
    pub fn is_struct(&self) -> (r: bool)
        ensures
            r == (self matches Ty::Struct(_)),
    {
        match self {
            Ty::Struct(_) => true,
            _ => false,
        }
    }

    /// Is this a pointer type?
    pub fn is_pointer(&self) -> (r: bool)
        ensures
            r == (self matches Ty::Pointer(_, _)),
    {
        match self {
            Ty::Pointer(_, _) => true,
            _ => false,
        }
    }

    /// The pointee of a pointer type, if this is one.
    pub fn pointee_ty(&self) -> (r: Option<TypeId>)
        ensures
            (match self {
                Ty::Pointer(_, p) => r == Some(*p),
                _ => r matches None,
            }),
    {
        match self {
            Ty::Pointer(_, p) => Some(*p),
            _ => None,
        }
    }
}

/// The mathematical mirror of `Ty`: the same variants over `Seq` in
/// place of `Vec`.
pub enum TyView {
    Void,
    Bool,
    Int(u32),
    UInt(u32),
    Float(u32),
    Vector(TypeId, u32),
    Matrix(TypeId, u32),
    Image {
        sample_type: TypeId,
        dim: desc::Dim,
        depth: ImageDepth,
        arrayed: bool,
        multisampled: bool,
        sampled: ImageSampled,
        image_format: desc::ImageFormat,
        access_qualifier: Option<desc::AccessQualifier>,
    },
    Sampler,
    SampledImage(TypeId),
    Array(TypeId, ValueId),
    RuntimeArray(TypeId),
    Struct(Seq<TypeId>),
    Opaque(Seq<u8>),
    Pointer(desc::StorageClass, TypeId),
}

impl View for Ty {
    type V = TyView;

    open spec fn view(&self) -> TyView {
        match self {
            Ty::Void => TyView::Void,
            Ty::Bool => TyView::Bool,
            Ty::Int(w) => TyView::Int(*w),
            Ty::UInt(w) => TyView::UInt(*w),
            Ty::Float(w) => TyView::Float(*w),
            Ty::Vector(t, n) => TyView::Vector(*t, *n),
            Ty::Matrix(t, n) => TyView::Matrix(*t, *n),
            Ty::Image {
                sample_type,
                dim,
                depth,
                arrayed,
                multisampled,
                sampled,
                image_format,
                access_qualifier,
            } => TyView::Image {
                sample_type: *sample_type,
                dim: *dim,
                depth: *depth,
                arrayed: *arrayed,
                multisampled: *multisampled,
                sampled: *sampled,
                image_format: *image_format,
                access_qualifier: *access_qualifier,
            },
            Ty::Sampler => TyView::Sampler,
            Ty::SampledImage(t) => TyView::SampledImage(*t),
            Ty::Array(t, n) => TyView::Array(*t, *n),
            Ty::RuntimeArray(t) => TyView::RuntimeArray(*t),
            Ty::Struct(fs) => TyView::Struct(fs@),
            Ty::Opaque(n) => TyView::Opaque(n@),
            Ty::Pointer(sc, t) => TyView::Pointer(*sc, *t),
        }
    }
}

/// A type record: the defined id and its decoded shape.
#[derive(Clone, PartialEq, Eq, Debug)]
pub struct Type {
    pub id: TypeId,
    pub ty: Ty,
}

impl GetId for Type {
    open spec fn key(&self) -> u32 {
        self.id.0
    }

    fn get_id(&self) -> (r: Id)
        ensures
            r.0 == self.key(),
    {
        Id(self.id.0)
    }
}

/// A module-scope variable: its id, its pointer type, and its storage
/// class.
#[derive(Copy, Clone, PartialEq, Eq, Structural, Debug)]
pub struct Variable {
    pub id: ValueId,
    pub ty: TypeId,
    pub sc: desc::StorageClass,
}

impl GetId for Variable {
    open spec fn key(&self) -> u32 {
        self.id.0
    }

    fn get_id(&self) -> (r: Id)
        ensures
            r.0 == self.key(),
    {
        Id(self.id.0)
    }
}

impl Variable {
    /// Is the variable invisible outside its function or module?
    pub fn is_private(&self) -> (r: bool)
        ensures
            r == (self.sc == desc::StorageClass::Private || self.sc
                == desc::StorageClass::Function),
    {
        match self.sc {
            desc::StorageClass::Private => true,
            desc::StorageClass::Function => true,
            _ => false,
        }
    }
}

/// A constant's resolved value: the bit pattern reinterpreted according
/// to the constant's declared type.  Sixty-four-bit values are assembled
/// from two words, low word first; float patterns are kept as raw IEEE
/// bits.
#[derive(Clone, PartialEq, Eq, Debug)]
pub enum ConstantValue {
    Null,
    Bool(bool),
    Int(i64),
    UInt(u64),
    F32Bits(u32),
    F64Bits(u64),
    General(Vec<u32>),
}

/// A constant record: id, type, the specialization id if the constant
/// is a specialization constant, and the resolved value.
#[derive(Clone, PartialEq, Eq, Debug)]
pub struct Constant {
    pub id: ValueId,
    pub ty: TypeId,
    pub spec_id: Option<u32>,
    pub value: ConstantValue,
}

impl GetId for Constant {
    open spec fn key(&self) -> u32 {
        self.id.0
    }

    fn get_id(&self) -> (r: Id)
        ensures
            r.0 == self.key(),
    {
        Id(self.id.0)
    }
}

/// The mathematical mirror of `ConstantValue`, over `Seq` for the raw
/// word fallback.
pub enum ConstantValueView {
    Null,
    Bool(bool),
    Int(i64),
    UInt(u64),
    F32Bits(u32),
    F64Bits(u64),
    General(Seq<u32>),
}

impl View for ConstantValue {
    type V = ConstantValueView;

    open spec fn view(&self) -> ConstantValueView {
        match self {
            ConstantValue::Null => ConstantValueView::Null,
            ConstantValue::Bool(b) => ConstantValueView::Bool(*b),
            ConstantValue::Int(n) => ConstantValueView::Int(*n),
            ConstantValue::UInt(n) => ConstantValueView::UInt(*n),
            ConstantValue::F32Bits(n) => ConstantValueView::F32Bits(*n),
            ConstantValue::F64Bits(n) => ConstantValueView::F64Bits(*n),
            ConstantValue::General(ws) => ConstantValueView::General(ws@),
        }
    }
}

/// The mathematical mirror of a constant record.
pub struct ConstantView {
    pub id: ValueId,
    pub ty: TypeId,
    pub spec_id: Option<u32>,
    pub value: ConstantValueView,
}

impl View for Constant {
    type V = ConstantView;

    open spec fn view(&self) -> ConstantView {
        ConstantView { id: self.id, ty: self.ty, spec_id: self.spec_id, value: self.value@ }
    }
}

impl Constant {
    /// The null constant of a type.
    pub fn null(id: ValueId, ty: TypeId) -> (r: Constant)
        ensures
            r == (Constant { id, ty, spec_id: None::<u32>, value: ConstantValue::Null }),
    {
        Constant { id, ty, spec_id: None, value: ConstantValue::Null }
    }

    /// A boolean constant of a type.
    pub fn bool(id: ValueId, ty: TypeId, val: bool) -> (r: Constant)
        ensures
            r == (Constant { id, ty, spec_id: None::<u32>, value: ConstantValue::Bool(val) }),
    {
        Constant { id, ty, spec_id: None, value: ConstantValue::Bool(val) }
    }

    /// A scalar constant: the literal words reinterpreted according to
    /// the declared type, bit-exactly.  Sixty-four-bit values take two
    /// words, low word first; integers narrower than their storage are
    /// sign- or zero-extended; any other type keeps the raw words.
    pub fn scalar(id: ValueId, ty: &Type, vals: &Vec<u32>) -> (r: Constant)
        requires
            spec_scalar_width_ok(ty.ty@, vals@),
        ensures
            r.id == id,
            r.ty == ty.id,
            r.spec_id matches None,
            r.value@ == spec_scalar_value(ty.ty@, vals@),
    {
        let value = match &ty.ty {
            Ty::UInt(w) => {
                if *w <= 32 {
                    ConstantValue::UInt(vals[0] as u64)
                } else {
                    ConstantValue::UInt((vals[0] as u64) | ((vals[1] as u64) << 32))
                }
            },
            Ty::Int(w) => {
                if *w <= 32 {
                    ConstantValue::Int(vals[0] as i32 as i64)
                } else {
                    ConstantValue::Int(((vals[0] as u64) | ((vals[1] as u64) << 32)) as i64)
                }
            },
            Ty::Float(w) => {
                if *w == 32 {
                    ConstantValue::F32Bits(vals[0])
                } else if *w == 64 {
                    ConstantValue::F64Bits((vals[0] as u64) | ((vals[1] as u64) << 32))
                } else {
                    ConstantValue::General(copy_words(vals))
                }
            },
            _ => ConstantValue::General(copy_words(vals)),
        };
        Constant { id, ty: ty.id, spec_id: None, value }
    }
}

/// Does the literal list hold enough words for the declared scalar type?
pub open spec fn spec_scalar_width_ok(ty: TyView, vals: Seq<u32>) -> bool {
    match ty {
        TyView::UInt(w) => if w <= 32 {
            vals.len() >= 1
        } else {
            vals.len() >= 2
        },
        TyView::Int(w) => if w <= 32 {
            vals.len() >= 1
        } else {
            vals.len() >= 2
        },
        TyView::Float(w) => if w == 32 {
            vals.len() >= 1
        } else if w == 64 {
            vals.len() >= 2
        } else {
            true
        },
        _ => true,
    }
}

/// The value a scalar constant's literal words denote under its declared
/// type, bit-exactly.
pub open spec fn spec_scalar_value(ty: TyView, vals: Seq<u32>) -> ConstantValueView {
    match ty {
        TyView::UInt(w) => if w <= 32 {
            ConstantValueView::UInt(vals[0] as u64)
        } else {
            ConstantValueView::UInt((vals[0] as u64) | ((vals[1] as u64) << 32))
        },
        TyView::Int(w) => if w <= 32 {
            ConstantValueView::Int(vals[0] as i32 as i64)
        } else {
            ConstantValueView::Int(((vals[0] as u64) | ((vals[1] as u64) << 32)) as i64)
        },
        TyView::Float(w) => if w == 32 {
            ConstantValueView::F32Bits(vals[0])
        } else if w == 64 {
            ConstantValueView::F64Bits((vals[0] as u64) | ((vals[1] as u64) << 32))
        } else {
            ConstantValueView::General(vals)
        },
        _ => ConstantValueView::General(vals),
    }
}

/// An equal copy of a word list.
fn copy_words(v: &Vec<u32>) -> (r: Vec<u32>)
    ensures
        r@ == v@,
{
    let mut r: Vec<u32> = Vec::new();
    let mut i: usize = 0;
    while i < v.len()
        invariant
            i <= v@.len(),
            r@ == v@.take(i as int),
        decreases v@.len() - i,
    {
        r.push(v[i]);
        proof {
            assert(r@ =~= v@.take(i + 1));
        }
        i = i + 1;
    }
    proof {
        assert(v@.take(v@.len() as int) =~= v@);
    }
    r
}

/// An entry point: execution model, the function id it refers to, its
/// name, and its interface ids.
#[derive(Clone, PartialEq, Eq, Debug)]
pub struct EntryPoint {
    pub execution_model: desc::ExecutionModel,
    pub func: ValueId,
    pub name: Vec<u8>,
    pub interface: Vec<ValueId>,
}

/// The mathematical mirror of an entry point record.
pub struct EntryPointView {
    pub execution_model: desc::ExecutionModel,
    pub func: ValueId,
    pub name: Seq<u8>,
    pub interface: Seq<ValueId>,
}

impl View for EntryPoint {
    type V = EntryPointView;

    open spec fn view(&self) -> EntryPointView {
        EntryPointView {
            execution_model: self.execution_model,
            func: self.func,
            name: self.name@,
            interface: self.interface@,
        }
    }
}

/// The accumulated side tables of the indexing pass, at the
/// specification level: association lists in insertion order, the last
/// entry for an id winning, exactly as the builders behave.
#[verifier::ext_equal]
pub struct ModuleAcc {
    pub caps: Seq<desc::Capability>,
    pub types: Seq<(u32, TyView)>,
    pub vars: Seq<(u32, Variable)>,
    pub consts: Seq<(u32, ConstantView)>,
    pub names: Seq<(u32, Seq<u8>)>,
    pub member_names: Seq<(u32, Seq<(u32, Seq<u8>)>)>,
    pub groups: Seq<(u32, Seq<DecorationView>)>,
    pub decs: Seq<(u32, Seq<DecorationView>)>,
    pub member_decs: Seq<(u32, Seq<(u32, Seq<DecorationView>)>)>,
    pub entry_points: Seq<EntryPointView>,
    pub insts: Seq<InstructionView>,
}

/// The empty tables the pass starts from.
pub open spec fn empty_acc() -> ModuleAcc {
    ModuleAcc {
        caps: Seq::empty(),
        types: Seq::empty(),
        vars: Seq::empty(),
        consts: Seq::empty(),
        names: Seq::empty(),
        member_names: Seq::empty(),
        groups: Seq::empty(),
        decs: Seq::empty(),
        member_decs: Seq::empty(),
        entry_points: Seq::empty(),
        insts: Seq::empty(),
    }
}

/// What one decoded instruction does to the side tables.  Type,
/// constant and variable definitions insert structured records (the last
/// definition of an id winning), names and decorations accumulate, a
/// scalar constant resolves its value against the type table as built so
/// far, and a specialization constant demands a `SpecId` decoration
/// already recorded for its id.
pub open spec fn spec_step_tables(acc: ModuleAcc, v: InstructionView) -> Result<
    ModuleAcc,
    ParseError,
> {
    match v {
        InstructionView::Capability { capability } => Ok(
            ModuleAcc { caps: acc.caps.push(capability), ..acc },
        ),
        InstructionView::Name { target, name } => Ok(
            ModuleAcc { names: acc.names.push((target.0, name)), ..acc },
        ),
        InstructionView::MemberName { target, member, name } => {
            let entry = match assoc_last(acc.member_names, target.0) {
                Some(e) => e,
                None => Seq::empty(),
            };
            Ok(
                ModuleAcc {
                    member_names: acc.member_names.push((target.0, entry.push((member, name)))),
                    ..acc
                },
            )
        },
        InstructionView::Decorate { target, decoration } => {
            let (g2, d2) = spec_insert_decoration(acc.groups, acc.decs, target.0, decoration);
            Ok(ModuleAcc { groups: g2, decs: d2, ..acc })
        },
        InstructionView::MemberDecorate { structure_type, member, decoration } => {
            let entry = match assoc_last(acc.member_decs, structure_type.0) {
                Some(e) => e,
                None => Seq::empty(),
            };
            Ok(
                ModuleAcc {
                    member_decs: acc.member_decs.push(
                        (structure_type.0, upsert_member(entry, member, decoration)),
                    ),
                    ..acc
                },
            )
        },
        InstructionView::DecorationGroup { result_id } => Ok(
            ModuleAcc { groups: acc.groups.push((result_id.0, Seq::empty())), ..acc },
        ),
        InstructionView::EntryPoint { execution_model, func, name, interface } => Ok(
            ModuleAcc {
                entry_points: acc.entry_points.push(
                    EntryPointView { execution_model, func, name, interface },
                ),
                ..acc
            },
        ),
        InstructionView::TypeVoid { result_type } => Ok(
            ModuleAcc { types: acc.types.push((result_type.0, TyView::Void)), ..acc },
        ),
        InstructionView::TypeBool { result_type } => Ok(
            ModuleAcc { types: acc.types.push((result_type.0, TyView::Bool)), ..acc },
        ),
        InstructionView::TypeInt { result_type, width, signed } => Ok(
            ModuleAcc {
                types: acc.types.push(
                    (
                        result_type.0,
                        if signed {
                            TyView::Int(width)
                        } else {
                            TyView::UInt(width)
                        },
                    ),
                ),
                ..acc
            },
        ),
        InstructionView::TypeFloat { result_type, width } => Ok(
            ModuleAcc { types: acc.types.push((result_type.0, TyView::Float(width))), ..acc },
        ),
        InstructionView::TypeVector { result_type, type_id, len } => Ok(
            ModuleAcc {
                types: acc.types.push((result_type.0, TyView::Vector(type_id, len))),
                ..acc
            },
        ),
        InstructionView::TypeMatrix { result_type, type_id, cols } => Ok(
            ModuleAcc {
                types: acc.types.push((result_type.0, TyView::Matrix(type_id, cols))),
                ..acc
            },
        ),
        InstructionView::TypeImage {
            result_type,
            type_id,
            dim,
            depth,
            arrayed,
            multisampled,
            sampled,
            image_format,
            access_qualifier,
        } => Ok(
            ModuleAcc {
                types: acc.types.push(
                    (
                        result_type.0,
                        TyView::Image {
                            sample_type: type_id,
                            dim,
                            depth: (if depth == 0 {
                                ImageDepth::NoDepth
                            } else if depth == 1 {
                                ImageDepth::Depth
                            } else {
                                ImageDepth::Unknown
                            }),
                            arrayed,
                            multisampled,
                            sampled: (if sampled == 1 {
                                ImageSampled::Sampled
                            } else if sampled == 2 {
                                ImageSampled::NotSampled
                            } else {
                                ImageSampled::Unknown
                            }),
                            image_format,
                            access_qualifier,
                        },
                    ),
                ),
                ..acc
            },
        ),
        InstructionView::TypeSampler { result_type } => Ok(
            ModuleAcc { types: acc.types.push((result_type.0, TyView::Sampler)), ..acc },
        ),
        InstructionView::TypeSampledImage { result_type, image } => Ok(
            ModuleAcc {
                types: acc.types.push((result_type.0, TyView::SampledImage(image))),
                ..acc
            },
        ),
        InstructionView::TypeArray { result_type, element, len } => Ok(
            ModuleAcc {
                types: acc.types.push((result_type.0, TyView::Array(element, len))),
                ..acc
            },
        ),
        InstructionView::TypeRuntimeArray { result_type, element } => Ok(
            ModuleAcc {
                types: acc.types.push((result_type.0, TyView::RuntimeArray(element))),
                ..acc
            },
        ),
        InstructionView::TypeStruct { result_type, fields } => Ok(
            ModuleAcc { types: acc.types.push((result_type.0, TyView::Struct(fields))), ..acc },
        ),
        InstructionView::TypePointer { result_type, storage_class, pointee } => Ok(
            ModuleAcc {
                types: acc.types.push((result_type.0, TyView::Pointer(storage_class, pointee))),
                ..acc
            },
        ),
        InstructionView::ConstantNull { result_type, result_id } => Ok(
            ModuleAcc {
                consts: acc.consts.push(
                    (
                        result_id.0,
                        ConstantView {
                            id: ValueId(result_id.0),
                            ty: result_type,
                            spec_id: None,
                            value: ConstantValueView::Null,
                        },
                    ),
                ),
                ..acc
            },
        ),
        InstructionView::ConstantTrue { result_type, result_id } => Ok(
            ModuleAcc {
                consts: acc.consts.push(
                    (
                        result_id.0,
                        ConstantView {
                            id: ValueId(result_id.0),
                            ty: result_type,
                            spec_id: None,
                            value: ConstantValueView::Bool(true),
                        },
                    ),
                ),
                ..acc
            },
        ),
        InstructionView::ConstantFalse { result_type, result_id } => Ok(
            ModuleAcc {
                consts: acc.consts.push(
                    (
                        result_id.0,
                        ConstantView {
                            id: ValueId(result_id.0),
                            ty: result_type,
                            spec_id: None,
                            value: ConstantValueView::Bool(false),
                        },
                    ),
                ),
                ..acc
            },
        ),
        InstructionView::Constant { result_type, result_id, value } => {
            match assoc_last(acc.types, result_type.0) {
                None => Err(ParseError::MissingConstantType(result_type)),
                Some(tyv) => if !spec_scalar_width_ok(tyv, value) {
                    Err(ParseError::InstructionTooShort)
                } else {
                    Ok(
                        ModuleAcc {
                            consts: acc.consts.push(
                                (
                                    result_id.0,
                                    ConstantView {
                                        id: ValueId(result_id.0),
                                        ty: result_type,
                                        spec_id: None,
                                        value: spec_scalar_value(tyv, value),
                                    },
                                ),
                            ),
                            ..acc
                        },
                    )
                },
            }
        },
        InstructionView::SpecConstantTrue { result_type, result_id } => {
            match spec_lookup_spec_id(acc.decs, result_id.0) {
                None => Err(ParseError::MissingSpecId(Id(result_id.0))),
                Some(n) => Ok(
                    ModuleAcc {
                        consts: acc.consts.push(
                            (
                                result_id.0,
                                ConstantView {
                                    id: ValueId(result_id.0),
                                    ty: result_type,
                                    spec_id: Some(n),
                                    value: ConstantValueView::Bool(true),
                                },
                            ),
                        ),
                        ..acc
                    },
                ),
            }
        },
        InstructionView::SpecConstantFalse { result_type, result_id } => {
            match spec_lookup_spec_id(acc.decs, result_id.0) {
                None => Err(ParseError::MissingSpecId(Id(result_id.0))),
                Some(n) => Ok(
                    ModuleAcc {
                        consts: acc.consts.push(
                            (
                                result_id.0,
                                ConstantView {
                                    id: ValueId(result_id.0),
                                    ty: result_type,
                                    spec_id: Some(n),
                                    value: ConstantValueView::Bool(false),
                                },
                            ),
                        ),
                        ..acc
                    },
                ),
            }
        },
        InstructionView::Variable { result_type, result_id, storage_class, initializer } => Ok(
            ModuleAcc {
                vars: acc.vars.push(
                    (
                        result_id.0,
                        Variable { id: ValueId(result_id.0), ty: result_type, sc: storage_class },
                    ),
                ),
                ..acc
            },
        ),
        _ => Ok(acc),
    }
}

/// The specialization id an id's direct decorations carry, if any.
pub open spec fn spec_lookup_spec_id(decs: Seq<(u32, Seq<DecorationView>)>, id: u32) -> Option<
    u32,
> {
    match assoc_last(decs, id) {
        Some(l) => spec_first_spec_id(l),
        None => None,
    }
}

/// One decoded instruction folded into the accumulator: the side tables
/// first, then the instruction appended to the stream.
pub open spec fn spec_collect_step(acc: ModuleAcc, v: InstructionView) -> Result<
    ModuleAcc,
    ParseError,
> {
    match spec_step_tables(acc, v) {
        Err(e) => Err(e),
        Ok(a) => Ok(ModuleAcc { insts: a.insts.push(v), ..a }),
    }
}

/// The whole indexing pass over the word stream: raw records split off,
/// decoded, and folded into the tables, until a clean end of stream; the
/// first error aborts the load.
pub open spec fn spec_collect(ws: Seq<u32>, rag: bool, acc: ModuleAcc) -> Result<
    ModuleAcc,
    ParseError,
>
    decreases ws.len(),
{
    match crate::read::spec_next_inst(ws, rag) {
        Err(e) => Err(e),
        Ok(None) => Ok(acc),
        Ok(Some((op, ps, rest))) => match crate::inst_codec::sp_inst(op, ps) {
            Err(e) => Err(e),
            Ok(v) => match spec_collect_step(acc, v) {
                Err(e) => Err(e),
                Ok(a2) => spec_collect(rest, rag, a2),
            },
        },
    }
}

/// The words after the four header words, given the words after the
/// magic number.
pub open spec fn hdr_rest(ws: Seq<u32>) -> Seq<u32> {
    if ws.len() >= 4 {
        ws.skip(4)
    } else {
        ws.skip(ws.len() as int)
    }
}

/// The fully indexed module: header, ordered instruction stream, and the
/// typed side tables built in one pass.
pub struct Module {
    pub header: Header,
    pub capabilities: Vec<desc::Capability>,
    pub types: RawIdMap<Type>,
    pub variables: RawIdMap<Variable>,
    pub constants: RawIdMap<Constant>,
    pub names: RawIdMap<(Id, Vec<u8>)>,
    pub member_names: RawIdMap<(Id, Vec<(u32, Vec<u8>)>)>,
    pub decorations: DecorationMap,
    pub entry_points: Vec<EntryPoint>,
    pub instructions: Vec<Instruction>,
}

/// The first `SpecId` decoration in a list, if any.
pub open spec fn spec_first_spec_id(l: Seq<crate::instruction::DecorationView>) -> Option<u32>
    decreases l.len(),
{
    if l.len() == 0 {
        None
    } else if l[0] matches crate::instruction::DecorationView::SpecId(n) {
        Some(l[0]->SpecId_0)
    } else {
        spec_first_spec_id(l.skip(1))
    }
}

/// The specialization id recorded for an id: the first `SpecId` among
/// its direct decorations as built so far, if any.
fn find_spec_id(dec_map: &DecorationMapBuilder, id: Id) -> (r: Option<u32>)
    ensures
        (match crate::decoration::assoc_last(crate::decoration::decs_view(*dec_map), id.0) {
            Some(l) => r == spec_first_spec_id(l),
            None => r matches None,
        }),
{
    let decorations = match dec_map.get_decorations(id) {
        Some(d) => d,
        None => {
            return None;
        },
    };
    let ghost lview = decorations@.map_values(|d: Decoration| d@);
    proof {
        assert(lview.skip(0) =~= lview);
    }
    let mut i: usize = 0;
    while i < decorations.len()
        invariant
            i <= decorations@.len(),
            lview == decorations@.map_values(|d: Decoration| d@),
            crate::decoration::assoc_last(crate::decoration::decs_view(*dec_map), id.0) == Some(
                lview,
            ),
            spec_first_spec_id(lview) == spec_first_spec_id(lview.skip(i as int)),
        decreases decorations@.len() - i,
    {
        proof {
            assert(lview.skip(i as int)[0] == lview[i as int]);
            assert(lview.skip(i as int).skip(1) =~= lview.skip(i + 1));
        }
        match &decorations[i] {
            Decoration::SpecId(n) => {
                return Some(*n);
            },
            _ => {},
        }
        i = i + 1;
    }
    proof {
        assert(lview.skip(lview.len() as int) =~= Seq::<crate::instruction::DecorationView>::empty());
    }
    None
}

/// Looking an id up among viewed type entries is looking it up among
/// the records and viewing the shape.
pub proof fn lemma_type_view_find(s: Seq<Type>, k: u32)
    ensures
        assoc_last(s.map_values(|t: Type| (t.id.0, t.ty@)), k) == (match find_last(s, k) {
            Some(t) => Some(t.ty@),
            None => None,
        }),
    decreases s.len(),
{
    let sv = s.map_values(|t: Type| (t.id.0, t.ty@));
    if s.len() > 0 {
        assert(sv.last() == (s.last().id.0, s.last().ty@));
        assert(sv.drop_last() =~= s.drop_last().map_values(|t: Type| (t.id.0, t.ty@)));
        lemma_type_view_find(s.drop_last(), k);
    }
}

/// Looking an id up among keyed variable entries is looking it up among
/// the records.
pub proof fn lemma_var_view_find(s: Seq<Variable>, k: u32)
    ensures
        assoc_last(s.map_values(|v: Variable| (v.id.0, v)), k) == find_last(s, k),
    decreases s.len(),
{
    let sv = s.map_values(|v: Variable| (v.id.0, v));
    if s.len() > 0 {
        assert(sv.last() == (s.last().id.0, s.last()));
        assert(sv.drop_last() =~= s.drop_last().map_values(|v: Variable| (v.id.0, v)));
        lemma_var_view_find(s.drop_last(), k);
    }
}

/// Looking an id up among viewed constant entries is looking it up among
/// the records and viewing them.
pub proof fn lemma_const_view_find(s: Seq<Constant>, k: u32)
    ensures
        assoc_last(s.map_values(|c: Constant| (c.id.0, c@)), k) == (match find_last(s, k) {
            Some(c) => Some(c@),
            None => None,
        }),
    decreases s.len(),
{
    let sv = s.map_values(|c: Constant| (c.id.0, c@));
    if s.len() > 0 {
        assert(sv.last() == (s.last().id.0, s.last()@));
        assert(sv.drop_last() =~= s.drop_last().map_values(|c: Constant| (c.id.0, c@)));
        lemma_const_view_find(s.drop_last(), k);
    }
}

/// Looking an id up among viewed name entries is looking it up among the
/// raw entries and viewing the bytes.
pub proof fn lemma_name_view_find(s: Seq<(Id, Vec<u8>)>, k: u32)
    ensures
        assoc_last(s.map_values(|e: (Id, Vec<u8>)| (e.0.0, e.1@)), k) == (
        match find_last(s, k) {
            Some(e) => Some(e.1@),
            None => None,
        }),
    decreases s.len(),
{
    let sv = s.map_values(|e: (Id, Vec<u8>)| (e.0.0, e.1@));
    if s.len() > 0 {
        assert(sv.last() == (s.last().0.0, s.last().1@));
        assert(sv.drop_last() =~= s.drop_last().map_values(|e: (Id, Vec<u8>)| (e.0.0, e.1@)));
        lemma_name_view_find(s.drop_last(), k);
    }
}

/// The view of one member-name entry.
pub open spec fn member_name_entry_view(e: (Id, Vec<(u32, Vec<u8>)>)) -> (
    u32,
    Seq<(u32, Seq<u8>)>,
) {
    (e.0.0, e.1@.map_values(|m: (u32, Vec<u8>)| (m.0, m.1@)))
}

/// Looking an id up among viewed member-name entries is looking it up
/// among the raw entries and viewing them.
pub proof fn lemma_member_name_view_find(s: Seq<(Id, Vec<(u32, Vec<u8>)>)>, k: u32)
    ensures
        assoc_last(s.map_values(|e: (Id, Vec<(u32, Vec<u8>)>)| member_name_entry_view(e)), k) == (
        match find_last(s, k) {
            Some(e) => Some(member_name_entry_view(e).1),
            None => None,
        }),
    decreases s.len(),
{
    let sv = s.map_values(|e: (Id, Vec<(u32, Vec<u8>)>)| member_name_entry_view(e));
    if s.len() > 0 {
        assert(sv.last() == member_name_entry_view(s.last()));
        assert(sv.drop_last() =~= s.drop_last().map_values(
            |e: (Id, Vec<(u32, Vec<u8>)>)| member_name_entry_view(e),
        ));
        lemma_member_name_view_find(s.drop_last(), k);
    }
}

impl Module {
    /// The viewed type shape recorded for an id, if any.
    pub open spec fn type_view_at(self, k: u32) -> Option<TyView> {
        match find_last(self.types.values@, k) {
            Some(t) => Some(t.ty@),
            None => None,
        }
    }

    /// The variable recorded for an id, if any.
    pub open spec fn var_at(self, k: u32) -> Option<Variable> {
        find_last(self.variables.values@, k)
    }

    /// The viewed constant recorded for an id, if any.
    pub open spec fn const_view_at(self, k: u32) -> Option<ConstantView> {
        match find_last(self.constants.values@, k) {
            Some(c) => Some(c@),
            None => None,
        }
    }

    /// The name bytes recorded for an id, if any.
    pub open spec fn name_at(self, k: u32) -> Option<Seq<u8>> {
        match find_last(self.names.values@, k) {
            Some(e) => Some(e.1@),
            None => None,
        }
    }

    /// The member-name list recorded for an id, if any.
    pub open spec fn member_names_at(self, k: u32) -> Option<Seq<(u32, Seq<u8>)>> {
        match find_last(self.member_names.values@, k) {
            Some(e) => Some(member_name_entry_view(e).1),
            None => None,
        }
    }

    /// The direct decoration list recorded for an id, if any.
    pub open spec fn decorations_at(self, k: u32) -> Option<Seq<DecorationView>> {
        match find_last(self.decorations.decorations.values@, k) {
            Some(e) => Some(e.1@.map_values(|d: Decoration| d@)),
            None => None,
        }
    }

    /// The member-decoration list recorded for an id, if any.
    pub open spec fn member_decorations_at(self, k: u32) -> Option<
        Seq<(u32, Seq<DecorationView>)>,
    > {
        match find_last(self.decorations.member_decorations.values@, k) {
            Some(e) => Some(crate::decoration::member_entry_view(e).1),
            None => None,
        }
    }
}

/// The accumulated tables the builders currently hold, viewed.
pub open spec fn builders_acc(
    caps: Seq<desc::Capability>,
    types_b: Seq<Type>,
    vars_b: Seq<Variable>,
    consts_b: Seq<Constant>,
    names_b: Seq<(Id, Vec<u8>)>,
    member_names_b: Seq<(Id, Vec<(u32, Vec<u8>)>)>,
    d: DecorationMapBuilder,
    eps: Seq<EntryPoint>,
    insts: Seq<Instruction>,
) -> ModuleAcc {
    ModuleAcc {
        caps,
        types: types_b.map_values(|t: Type| (t.id.0, t.ty@)),
        vars: vars_b.map_values(|v: Variable| (v.id.0, v)),
        consts: consts_b.map_values(|c: Constant| (c.id.0, c@)),
        names: names_b.map_values(|e: (Id, Vec<u8>)| (e.0.0, e.1@)),
        member_names: member_names_b.map_values(
            |e: (Id, Vec<(u32, Vec<u8>)>)| member_name_entry_view(e),
        ),
        groups: groups_view(d),
        decs: decs_view(d),
        member_decs: members_view(d),
        entry_points: eps.map_values(|e: EntryPoint| e@),
        insts: insts.map_values(|i: Instruction| i@),
    }
}

/// Does a module hold exactly the accumulated tables?  Every lookup of
/// every side table equals the association list the fold built, the
/// capability and entry-point lists and the instruction stream are
/// equal, and the id-keyed tables are sorted.
pub open spec fn module_matches(m: Module, acc: ModuleAcc) -> bool {
    &&& m.wf()
    &&& m.capabilities@ == acc.caps
    &&& m.instructions@.map_values(|i: Instruction| i@) == acc.insts
    &&& m.entry_points@.map_values(|e: EntryPoint| e@) == acc.entry_points
    &&& forall|k: u32| #![auto] m.type_view_at(k) == assoc_last(acc.types, k)
    &&& forall|k: u32| #![auto] m.var_at(k) == assoc_last(acc.vars, k)
    &&& forall|k: u32| #![auto] m.const_view_at(k) == assoc_last(acc.consts, k)
    &&& forall|k: u32| #![auto] m.name_at(k) == assoc_last(acc.names, k)
    &&& forall|k: u32| #![auto] m.member_names_at(k) == assoc_last(acc.member_names, k)
    &&& forall|k: u32| #![auto] m.decorations_at(k) == assoc_last(acc.decs, k)
    &&& forall|k: u32| #![auto] m.member_decorations_at(k) == assoc_last(acc.member_decs, k)
}

impl Module {
    /// All id-keyed tables are sorted and binary-searchable.
    pub open spec fn wf(self) -> bool {
        self.types.wf() && self.variables.wf() && self.constants.wf() && self.names.wf()
            && self.member_names.wf() && self.decorations.wf()
    }

    /// Folds one decoded instruction into the side-table builders,
    /// exactly as `spec_step_tables` says: table errors leave every
    /// builder untouched.
    #[verifier::rlimit(100)]
    #[verifier::spinoff_prover]
    fn collect_step(
        inst: &Instruction,
        capabilities: &mut Vec<desc::Capability>,
        types: &mut RawIdMapBuilder<Type>,
        variables: &mut RawIdMapBuilder<Variable>,
        constants: &mut RawIdMapBuilder<Constant>,
        names: &mut RawIdMapBuilder<(Id, Vec<u8>)>,
        member_names: &mut RawIdMapBuilder<(Id, Vec<(u32, Vec<u8>)>)>,
        decorations: &mut DecorationMapBuilder,
        entry_points: &mut Vec<EntryPoint>,
        ghost_insts: Ghost<Seq<Instruction>>,
    ) -> (r: Result<(), ParseError>)
        ensures
            (match spec_step_tables(
                builders_acc(
                    old(capabilities)@,
                    old(types).values@,
                    old(variables).values@,
                    old(constants).values@,
                    old(names).values@,
                    old(member_names).values@,
                    *old(decorations),
                    old(entry_points)@,
                    ghost_insts@,
                ),
                inst@,
            ) {
                Ok(a) => r == Ok::<(), ParseError>(()) && builders_acc(
                    final(capabilities)@,
                    final(types).values@,
                    final(variables).values@,
                    final(constants).values@,
                    final(names).values@,
                    final(member_names).values@,
                    *final(decorations),
                    final(entry_points)@,
                    ghost_insts@,
                ) == a,
                Err(e) => r == Err::<(), ParseError>(e) && builders_acc(
                    final(capabilities)@,
                    final(types).values@,
                    final(variables).values@,
                    final(constants).values@,
                    final(names).values@,
                    final(member_names).values@,
                    *final(decorations),
                    final(entry_points)@,
                    ghost_insts@,
                ) == builders_acc(
                    old(capabilities)@,
                    old(types).values@,
                    old(variables).values@,
                    old(constants).values@,
                    old(names).values@,
                    old(member_names).values@,
                    *old(decorations),
                    old(entry_points)@,
                    ghost_insts@,
                ),
            }),
    {
        let ghost pre = builders_acc(
            capabilities@,
            types.values@,
            variables.values@,
            constants.values@,
            names.values@,
            member_names.values@,
            *decorations,
            entry_points@,
            ghost_insts@,
        );
        match inst {
                Instruction::Capability { capability } => {
                    capabilities.push(*capability);
                    proof {
                        assert(spec_step_tables(pre, inst@) matches Ok(a) && a =~~= builders_acc(
                            capabilities@,
                            types.values@,
                            variables.values@,
                            constants.values@,
                            names.values@,
                            member_names.values@,
                            *decorations,
                            entry_points@,
                            ghost_insts@,
                        ));
                    }
                },
                Instruction::Name { target, name } => {
                    names.insert((*target, copy_bytes(name)));
                    proof {
                        assert(spec_step_tables(pre, inst@) matches Ok(a) && a =~~= builders_acc(
                            capabilities@,
                            types.values@,
                            variables.values@,
                            constants.values@,
                            names.values@,
                            member_names.values@,
                            *decorations,
                            entry_points@,
                            ghost_insts@,
                        ));
                    }
                },
                Instruction::MemberName { target, member, name } => {
                    proof {
                        lemma_member_name_view_find(member_names.values@, target.0);
                    }
                    let entry = match names_member_entry(&member_names, *target) {
                        Some(mut e) => {
                            e.push((*member, copy_bytes(name)));
                            e
                        },
                        None => {
                            let mut e: Vec<(u32, Vec<u8>)> = Vec::new();
                            e.push((*member, copy_bytes(name)));
                            e
                        },
                    };
                    member_names.insert((*target, entry));
                    proof {
                        assert(spec_step_tables(pre, inst@) matches Ok(a) && a =~~= builders_acc(
                            capabilities@,
                            types.values@,
                            variables.values@,
                            constants.values@,
                            names.values@,
                            member_names.values@,
                            *decorations,
                            entry_points@,
                            ghost_insts@,
                        ));
                    }
                },
                Instruction::Decorate { target, decoration } => {
                    decorations.insert_decoration(*target, decoration.duplicate());
                    proof {
                        assert(spec_step_tables(pre, inst@) matches Ok(a) && a =~~= builders_acc(
                            capabilities@,
                            types.values@,
                            variables.values@,
                            constants.values@,
                            names.values@,
                            member_names.values@,
                            *decorations,
                            entry_points@,
                            ghost_insts@,
                        ));
                    }
                },
                Instruction::MemberDecorate { structure_type, member, decoration } => {
                    decorations.insert_member_decoration(
                        *structure_type,
                        *member,
                        decoration.duplicate(),
                    );
                    proof {
                        assert(spec_step_tables(pre, inst@) matches Ok(a) && a =~~= builders_acc(
                            capabilities@,
                            types.values@,
                            variables.values@,
                            constants.values@,
                            names.values@,
                            member_names.values@,
                            *decorations,
                            entry_points@,
                            ghost_insts@,
                        ));
                    }
                },
                Instruction::DecorationGroup { result_id } => {
                    decorations.insert_group(Id(result_id.0));
                    proof {
                        assert(spec_step_tables(pre, inst@) matches Ok(a) && a =~~= builders_acc(
                            capabilities@,
                            types.values@,
                            variables.values@,
                            constants.values@,
                            names.values@,
                            member_names.values@,
                            *decorations,
                            entry_points@,
                            ghost_insts@,
                        ));
                    }
                },
                Instruction::EntryPoint { execution_model, func, name, interface } => {
                    let mut iface: Vec<ValueId> = Vec::new();
                    let mut k: usize = 0;
                    while k < interface.len()
                        invariant
                            k <= interface@.len(),
                            iface@ == interface@.take(k as int),
                        decreases interface@.len() - k,
                    {
                        iface.push(interface[k]);
                        proof {
                            assert(iface@ =~= interface@.take(k + 1));
                        }
                        k = k + 1;
                    }
                    proof {
                        assert(iface@ =~= interface@);
                    }
                    entry_points.push(
                        EntryPoint {
                            execution_model: *execution_model,
                            func: *func,
                            name: copy_bytes(name),
                            interface: iface,
                        },
                    );
                    proof {
                        assert(spec_step_tables(pre, inst@) matches Ok(a) && a =~~= builders_acc(
                            capabilities@,
                            types.values@,
                            variables.values@,
                            constants.values@,
                            names.values@,
                            member_names.values@,
                            *decorations,
                            entry_points@,
                            ghost_insts@,
                        ));
                    }
                },
                Instruction::TypeVoid { result_type } => {
                    types.insert(Type { id: *result_type, ty: Ty::Void });
                    proof {
                        assert(spec_step_tables(pre, inst@) matches Ok(a) && a =~~= builders_acc(
                            capabilities@,
                            types.values@,
                            variables.values@,
                            constants.values@,
                            names.values@,
                            member_names.values@,
                            *decorations,
                            entry_points@,
                            ghost_insts@,
                        ));
                    }
                },
                Instruction::TypeBool { result_type } => {
                    types.insert(Type { id: *result_type, ty: Ty::Bool });
                    proof {
                        assert(spec_step_tables(pre, inst@) matches Ok(a) && a =~~= builders_acc(
                            capabilities@,
                            types.values@,
                            variables.values@,
                            constants.values@,
                            names.values@,
                            member_names.values@,
                            *decorations,
                            entry_points@,
                            ghost_insts@,
                        ));
                    }
                },
                Instruction::TypeInt { result_type, width, signed } => {
                    if *signed {
                        types.insert(Type { id: *result_type, ty: Ty::Int(*width) });
                    } else {
                        types.insert(Type { id: *result_type, ty: Ty::UInt(*width) });
                    }
                    proof {
                        assert(spec_step_tables(pre, inst@) matches Ok(a) && a =~~= builders_acc(
                            capabilities@,
                            types.values@,
                            variables.values@,
                            constants.values@,
                            names.values@,
                            member_names.values@,
                            *decorations,
                            entry_points@,
                            ghost_insts@,
                        ));
                    }
                },
                Instruction::TypeFloat { result_type, width } => {
                    types.insert(Type { id: *result_type, ty: Ty::Float(*width) });
                    proof {
                        assert(spec_step_tables(pre, inst@) matches Ok(a) && a =~~= builders_acc(
                            capabilities@,
                            types.values@,
                            variables.values@,
                            constants.values@,
                            names.values@,
                            member_names.values@,
                            *decorations,
                            entry_points@,
                            ghost_insts@,
                        ));
                    }
                },
                Instruction::TypeVector { result_type, type_id, len } => {
                    types.insert(Type { id: *result_type, ty: Ty::Vector(*type_id, *len) });
                    proof {
                        assert(spec_step_tables(pre, inst@) matches Ok(a) && a =~~= builders_acc(
                            capabilities@,
                            types.values@,
                            variables.values@,
                            constants.values@,
                            names.values@,
                            member_names.values@,
                            *decorations,
                            entry_points@,
                            ghost_insts@,
                        ));
                    }
                },
                Instruction::TypeMatrix { result_type, type_id, cols } => {
                    types.insert(Type { id: *result_type, ty: Ty::Matrix(*type_id, *cols) });
                    proof {
                        assert(spec_step_tables(pre, inst@) matches Ok(a) && a =~~= builders_acc(
                            capabilities@,
                            types.values@,
                            variables.values@,
                            constants.values@,
                            names.values@,
                            member_names.values@,
                            *decorations,
                            entry_points@,
                            ghost_insts@,
                        ));
                    }
                },
                Instruction::TypeImage {
                    result_type,
                    type_id,
                    dim,
                    depth,
                    arrayed,
                    multisampled,
                    sampled,
                    image_format,
                    access_qualifier,
                } => {
                    let d = match *depth {
                        0 => ImageDepth::NoDepth,
                        1 => ImageDepth::Depth,
                        _ => ImageDepth::Unknown,
                    };
                    let sm = match *sampled {
                        1 => ImageSampled::Sampled,
                        2 => ImageSampled::NotSampled,
                        _ => ImageSampled::Unknown,
                    };
                    types.insert(
                        Type {
                            id: *result_type,
                            ty: Ty::Image {
                                sample_type: *type_id,
                                dim: *dim,
                                depth: d,
                                arrayed: *arrayed,
                                multisampled: *multisampled,
                                sampled: sm,
                                image_format: *image_format,
                                access_qualifier: *access_qualifier,
                            },
                        },
                    );
                    proof {
                        assert(spec_step_tables(pre, inst@) matches Ok(a) && a =~~= builders_acc(
                            capabilities@,
                            types.values@,
                            variables.values@,
                            constants.values@,
                            names.values@,
                            member_names.values@,
                            *decorations,
                            entry_points@,
                            ghost_insts@,
                        ));
                    }
                },
                Instruction::TypeSampler { result_type } => {
                    types.insert(Type { id: *result_type, ty: Ty::Sampler });
                    proof {
                        assert(spec_step_tables(pre, inst@) matches Ok(a) && a =~~= builders_acc(
                            capabilities@,
                            types.values@,
                            variables.values@,
                            constants.values@,
                            names.values@,
                            member_names.values@,
                            *decorations,
                            entry_points@,
                            ghost_insts@,
                        ));
                    }
                },
                Instruction::TypeSampledImage { result_type, image } => {
                    types.insert(Type { id: *result_type, ty: Ty::SampledImage(*image) });
                    proof {
                        assert(spec_step_tables(pre, inst@) matches Ok(a) && a =~~= builders_acc(
                            capabilities@,
                            types.values@,
                            variables.values@,
                            constants.values@,
                            names.values@,
                            member_names.values@,
                            *decorations,
                            entry_points@,
                            ghost_insts@,
                        ));
                    }
                },
                Instruction::TypeArray { result_type, element, len } => {
                    types.insert(Type { id: *result_type, ty: Ty::Array(*element, *len) });
                    proof {
                        assert(spec_step_tables(pre, inst@) matches Ok(a) && a =~~= builders_acc(
                            capabilities@,
                            types.values@,
                            variables.values@,
                            constants.values@,
                            names.values@,
                            member_names.values@,
                            *decorations,
                            entry_points@,
                            ghost_insts@,
                        ));
                    }
                },
                Instruction::TypeRuntimeArray { result_type, element } => {
                    types.insert(Type { id: *result_type, ty: Ty::RuntimeArray(*element) });
                    proof {
                        assert(spec_step_tables(pre, inst@) matches Ok(a) && a =~~= builders_acc(
                            capabilities@,
                            types.values@,
                            variables.values@,
                            constants.values@,
                            names.values@,
                            member_names.values@,
                            *decorations,
                            entry_points@,
                            ghost_insts@,
                        ));
                    }
                },
                Instruction::TypeStruct { result_type, fields } => {
                    let mut flds: Vec<TypeId> = Vec::new();
                    let mut k: usize = 0;
                    while k < fields.len()
                        invariant
                            k <= fields@.len(),
                            flds@ == fields@.take(k as int),
                        decreases fields@.len() - k,
                    {
                        flds.push(fields[k]);
                        proof {
                            assert(flds@ =~= fields@.take(k + 1));
                        }
                        k = k + 1;
                    }
                    proof {
                        assert(flds@ =~= fields@);
                    }
                    types.insert(Type { id: *result_type, ty: Ty::Struct(flds) });
                    proof {
                        assert(spec_step_tables(pre, inst@) matches Ok(a) && a =~~= builders_acc(
                            capabilities@,
                            types.values@,
                            variables.values@,
                            constants.values@,
                            names.values@,
                            member_names.values@,
                            *decorations,
                            entry_points@,
                            ghost_insts@,
                        ));
                    }
                },
                Instruction::TypePointer { result_type, storage_class, pointee } => {
                    types.insert(
                        Type { id: *result_type, ty: Ty::Pointer(*storage_class, *pointee) },
                    );
                    proof {
                        assert(spec_step_tables(pre, inst@) matches Ok(a) && a =~~= builders_acc(
                            capabilities@,
                            types.values@,
                            variables.values@,
                            constants.values@,
                            names.values@,
                            member_names.values@,
                            *decorations,
                            entry_points@,
                            ghost_insts@,
                        ));
                    }
                },
                Instruction::ConstantNull { result_type, result_id } => {
                    constants.insert(Constant::null(result_id.to_value_id(), *result_type));
                    proof {
                        assert(spec_step_tables(pre, inst@) matches Ok(a) && a =~~= builders_acc(
                            capabilities@,
                            types.values@,
                            variables.values@,
                            constants.values@,
                            names.values@,
                            member_names.values@,
                            *decorations,
                            entry_points@,
                            ghost_insts@,
                        ));
                    }
                },
                Instruction::ConstantTrue { result_type, result_id } => {
                    constants.insert(Constant::bool(result_id.to_value_id(), *result_type, true));
                    proof {
                        assert(spec_step_tables(pre, inst@) matches Ok(a) && a =~~= builders_acc(
                            capabilities@,
                            types.values@,
                            variables.values@,
                            constants.values@,
                            names.values@,
                            member_names.values@,
                            *decorations,
                            entry_points@,
                            ghost_insts@,
                        ));
                    }
                },
                Instruction::ConstantFalse { result_type, result_id } => {
                    constants.insert(Constant::bool(result_id.to_value_id(), *result_type, false));
                    proof {
                        assert(spec_step_tables(pre, inst@) matches Ok(a) && a =~~= builders_acc(
                            capabilities@,
                            types.values@,
                            variables.values@,
                            constants.values@,
                            names.values@,
                            member_names.values@,
                            *decorations,
                            entry_points@,
                            ghost_insts@,
                        ));
                    }
                },
                Instruction::Constant { result_type, result_id, value } => {
                    proof {
                        lemma_type_view_find(types.values@, result_type.0);
                        lemma_find_last_key(types.values@, result_type.0);
                    }
                    let ty = match types.get(Id(result_type.0)) {
                        Some(t) => t,
                        None => {
                            proof {
                                assert(spec_step_tables(pre, inst@) == Err::<
                                    ModuleAcc,
                                    ParseError,
                                >(ParseError::MissingConstantType(*result_type)));
                            }
                            return Err(ParseError::MissingConstantType(*result_type));
                        },
                    };
                    if !scalar_width_ok(&ty.ty, value) {
                        proof {
                            assert(spec_step_tables(pre, inst@) == Err::<
                                ModuleAcc,
                                ParseError,
                            >(ParseError::InstructionTooShort));
                        }
                        return Err(ParseError::InstructionTooShort);
                    }
                    let c = Constant::scalar(result_id.to_value_id(), ty, value);
                    constants.insert(c);
                    proof {
                        assert(spec_step_tables(pre, inst@) matches Ok(a) && a =~~= builders_acc(
                            capabilities@,
                            types.values@,
                            variables.values@,
                            constants.values@,
                            names.values@,
                            member_names.values@,
                            *decorations,
                            entry_points@,
                            ghost_insts@,
                        ));
                    }
                },
                Instruction::SpecConstantTrue { result_type, result_id } => {
                    let spec_id = match find_spec_id(decorations, Id(result_id.0)) {
                        Some(n) => n,
                        None => {
                            proof {
                                assert(spec_step_tables(pre, inst@) == Err::<
                                    ModuleAcc,
                                    ParseError,
                                >(ParseError::MissingSpecId(Id(result_id.0))));
                            }
                            return Err(ParseError::MissingSpecId(Id(result_id.0)));
                        },
                    };
                    let mut c = Constant::bool(result_id.to_value_id(), *result_type, true);
                    c.spec_id = Some(spec_id);
                    constants.insert(c);
                    proof {
                        assert(spec_step_tables(pre, inst@) matches Ok(a) && a =~~= builders_acc(
                            capabilities@,
                            types.values@,
                            variables.values@,
                            constants.values@,
                            names.values@,
                            member_names.values@,
                            *decorations,
                            entry_points@,
                            ghost_insts@,
                        ));
                    }
                },
                Instruction::SpecConstantFalse { result_type, result_id } => {
                    let spec_id = match find_spec_id(decorations, Id(result_id.0)) {
                        Some(n) => n,
                        None => {
                            proof {
                                assert(spec_step_tables(pre, inst@) == Err::<
                                    ModuleAcc,
                                    ParseError,
                                >(ParseError::MissingSpecId(Id(result_id.0))));
                            }
                            return Err(ParseError::MissingSpecId(Id(result_id.0)));
                        },
                    };
                    let mut c = Constant::bool(result_id.to_value_id(), *result_type, false);
                    c.spec_id = Some(spec_id);
                    constants.insert(c);
                    proof {
                        assert(spec_step_tables(pre, inst@) matches Ok(a) && a =~~= builders_acc(
                            capabilities@,
                            types.values@,
                            variables.values@,
                            constants.values@,
                            names.values@,
                            member_names.values@,
                            *decorations,
                            entry_points@,
                            ghost_insts@,
                        ));
                    }
                },
                Instruction::Variable { result_type, result_id, storage_class, initializer: _ } => {
                    variables.insert(
                        Variable {
                            id: result_id.to_value_id(),
                            ty: *result_type,
                            sc: *storage_class,
                        },
                    );
                    proof {
                        assert(spec_step_tables(pre, inst@) matches Ok(a) && a =~~= builders_acc(
                            capabilities@,
                            types.values@,
                            variables.values@,
                            constants.values@,
                            names.values@,
                            member_names.values@,
                            *decorations,
                            entry_points@,
                            ghost_insts@,
                        ));
                    }
                },
                _ => {
                    proof {
                        assert(spec_step_tables(pre, inst@) matches Ok(a) && a =~~= builders_acc(
                            capabilities@,
                            types.values@,
                            variables.values@,
                            constants.values@,
                            names.values@,
                            member_names.values@,
                            *decorations,
                            entry_points@,
                            ghost_insts@,
                        ));
                    }
                },
            }
        Ok(())
    }

    /// Reads the header and every instruction from the reader, building
    /// the side tables in one pass.  The result equals the specification
    /// fold exactly, both ways: on success every side table reflects the
    /// accumulated association lists, and the load fails with precisely
    /// the fold's first error — a truncated header, a decode error, a
    /// specialization constant whose id has no `SpecId` decoration yet,
    /// a scalar constant whose type has no preceding definition, or one
    /// with too few literal words for its width.
    #[verifier::rlimit(100)]
    #[verifier::spinoff_prover]
    pub fn from_reader(rdr: &mut Reader) -> (r: Result<Module, ParseError>)
        requires
            old(rdr).wf(),
            !old(rdr).header_done(),
        ensures
            (if old(rdr).words_left().len() < 4 && crate::read::ragged(old(rdr).bytes()) {
                r == Err::<Module, ParseError>(ParseError::InstructionTooShort)
            } else {
                match spec_collect(
                    hdr_rest(old(rdr).words_left()),
                    crate::read::ragged(old(rdr).bytes()),
                    empty_acc(),
                ) {
                    Ok(acc) => r matches Ok(m) && m.header == crate::read::spec_header(
                        old(rdr).words_left(),
                    ) && module_matches(m, acc),
                    Err(e) => r == Err::<Module, ParseError>(e),
                }
            }),
    {
        let header = match rdr.read_header() {
            Ok(h) => h,
            Err(e) => return Err(e),
        };
        let mut capabilities: Vec<desc::Capability> = Vec::new();
        let mut types = RawIdMapBuilder::<Type>::new();
        let mut variables = RawIdMapBuilder::<Variable>::new();
        let mut constants = RawIdMapBuilder::<Constant>::new();
        let mut names = RawIdMapBuilder::<(Id, Vec<u8>)>::new();
        let mut member_names = RawIdMapBuilder::<(Id, Vec<(u32, Vec<u8>)>)>::new();
        let mut decorations = DecorationMapBuilder::new();
        let mut entry_points: Vec<EntryPoint> = Vec::new();
        let mut instructions: Vec<Instruction> = Vec::new();
        let ghost rest0 = rdr.words_left();
        let ghost rag = crate::read::ragged(rdr.bytes());
        proof {
            assert(rest0 == hdr_rest(old(rdr).words_left()));
            assert(builders_acc(
                capabilities@,
                types.values@,
                variables.values@,
                constants.values@,
                names.values@,
                member_names.values@,
                decorations,
                entry_points@,
                instructions@,
            ) =~~= empty_acc());
        }
        let mut done = false;
        while !done
            invariant
                rdr.wf(),
                rdr.header_done(),
                rag == crate::read::ragged(rdr.bytes()),
                rag == crate::read::ragged(old(rdr).bytes()),
                rest0 == hdr_rest(old(rdr).words_left()),
                !(old(rdr).words_left().len() < 4 && crate::read::ragged(old(rdr).bytes())),
                header == crate::read::spec_header(old(rdr).words_left()),
                spec_collect(
                    rdr.words_left(),
                    rag,
                    builders_acc(
                        capabilities@,
                        types.values@,
                        variables.values@,
                        constants.values@,
                        names.values@,
                        member_names.values@,
                        decorations,
                        entry_points@,
                        instructions@,
                    ),
                ) == spec_collect(rest0, rag, empty_acc()),
                done ==> spec_collect(rest0, rag, empty_acc()) == Ok::<ModuleAcc, ParseError>(
                    builders_acc(
                        capabilities@,
                        types.values@,
                        variables.values@,
                        constants.values@,
                        names.values@,
                        member_names.values@,
                        decorations,
                        entry_points@,
                        instructions@,
                    ),
                ),
            decreases rdr.words_left().len() + (if done {
                0int
            } else {
                1int
            }),
        {
            let ghost pre_words = rdr.words_left();
            let ghost pre_acc = builders_acc(
                capabilities@,
                types.values@,
                variables.values@,
                constants.values@,
                names.values@,
                member_names.values@,
                decorations,
                entry_points@,
                instructions@,
            );
            let raw = match rdr.read_instruction() {
                Ok(Some(raw)) => raw,
                Ok(None) => {
                    proof {
                        assert(spec_collect(pre_words, rag, pre_acc) == Ok::<
                            ModuleAcc,
                            ParseError,
                        >(pre_acc));
                    }
                    done = true;
                    continue ;
                },
                Err(e) => {
                    proof {
                        assert(spec_collect(pre_words, rag, pre_acc) == Err::<
                            ModuleAcc,
                            ParseError,
                        >(e));
                    }
                    return Err(e);
                },
            };
            let inst = match parse_raw_instruction(raw) {
                Ok(i) => i,
                Err(e) => {
                    proof {
                        assert(spec_collect(pre_words, rag, pre_acc) == Err::<
                            ModuleAcc,
                            ParseError,
                        >(e));
                    }
                    return Err(e);
                },
            };
            match Self::collect_step(
                &inst,
                &mut capabilities,
                &mut types,
                &mut variables,
                &mut constants,
                &mut names,
                &mut member_names,
                &mut decorations,
                &mut entry_points,
                Ghost(instructions@),
            ) {
                Ok(_) => {},
                Err(e) => {
                    proof {
                        assert(spec_step_tables(pre_acc, inst@) == Err::<ModuleAcc, ParseError>(
                            e,
                        ));
                        assert(spec_collect(pre_words, rag, pre_acc) == Err::<
                            ModuleAcc,
                            ParseError,
                        >(e));
                    }
                    return Err(e);
                },
            }
            instructions.push(inst);
            proof {
                let cur = builders_acc(
                    capabilities@,
                    types.values@,
                    variables.values@,
                    constants.values@,
                    names.values@,
                    member_names.values@,
                    decorations,
                    entry_points@,
                    instructions@,
                );
                assert(cur.insts =~= pre_acc.insts.push(inst@));
                assert(spec_collect_step(pre_acc, inst@) matches Ok(x) && x =~~= cur);
                assert(spec_collect_step(pre_acc, inst@) == Ok::<ModuleAcc, ParseError>(cur));
            }
        }
        let m = Module {
            header,
            capabilities,
            types: types.into_id_map(),
            variables: variables.into_id_map(),
            constants: constants.into_id_map(),
            names: names.into_id_map(),
            member_names: member_names.into_id_map(),
            decorations: decorations.into_decoration_map(),
            entry_points,
            instructions,
        };
        proof {
            let acc = spec_collect(rest0, rag, empty_acc()).unwrap();
            assert forall|k: u32| #![auto] m.type_view_at(k) == assoc_last(acc.types, k) by {
                lemma_type_view_find(types.values@, k);
            }
            assert forall|k: u32| #![auto] m.var_at(k) == assoc_last(acc.vars, k) by {
                lemma_var_view_find(variables.values@, k);
            }
            assert forall|k: u32| #![auto] m.const_view_at(k) == assoc_last(acc.consts, k) by {
                lemma_const_view_find(constants.values@, k);
            }
            assert forall|k: u32| #![auto] m.name_at(k) == assoc_last(acc.names, k) by {
                lemma_name_view_find(names.values@, k);
            }
            assert forall|k: u32| #![auto] m.member_names_at(k) == assoc_last(
                acc.member_names,
                k,
            ) by {
                lemma_member_name_view_find(member_names.values@, k);
            }
            assert forall|k: u32| #![auto] m.decorations_at(k) == assoc_last(acc.decs, k) by {
                crate::decoration::lemma_dec_view_find(decorations.decorations.values@, k);
            }
            assert forall|k: u32| #![auto] m.member_decorations_at(k) == assoc_last(
                acc.member_decs,
                k,
            ) by {
                crate::decoration::lemma_member_view_find(
                    decorations.member_decorations.values@,
                    k,
                );
            }
        }
        Ok(m)
    }

    /// The recorded variables, sorted by id.
    pub fn variables(&self) -> (r: &Vec<Variable>)
        ensures
            r@ == self.variables.values@,
    {
        &self.variables.values
    }

    /// The recorded constants, sorted by id.
    pub fn constants(&self) -> (r: &Vec<Constant>)
        ensures
            r@ == self.constants.values@,
    {
        &self.constants.values
    }

    /// The recorded types, sorted by id.
    pub fn types(&self) -> (r: &Vec<Type>)
        ensures
            r@ == self.types.values@,
    {
        &self.types.values
    }

    /// The recorded entry points, in stream order.
    pub fn entry_points(&self) -> (r: &Vec<EntryPoint>)
        ensures
            r@ == self.entry_points@,
    {
        &self.entry_points
    }

    /// The direct decorations of an id, if any.
    pub fn decorations(&self, id: Id) -> (r: Option<&Vec<Decoration>>)
        requires
            self.wf(),
        ensures
            (match r {
                Some(v) => find_last(self.decorations.decorations.values@, id.0) matches Some(e)
                    && e.1 == *v,
                None => find_last(self.decorations.decorations.values@, id.0) matches None,
            }),
    {
        self.decorations.get_decorations(id)
    }

    /// The recorded name of an id, if any.
    pub fn name(&self, id: Id) -> (r: Option<&Vec<u8>>)
        requires
            self.wf(),
        ensures
            (match r {
                Some(v) => find_last(self.names.values@, id.0) matches Some(e) && e.1 == *v,
                None => find_last(self.names.values@, id.0) matches None,
            }),
    {
        match self.names.get(id) {
            Some(e) => Some(&e.1),
            None => None,
        }
    }

    /// The recorded name of one member of a structure id, if any; the
    /// first recorded name for the member wins.
    pub fn member_name(&self, id: TypeId, member: u32) -> (r: Option<&Vec<u8>>)
        requires
            self.wf(),
        ensures
            (match find_last(self.member_names.values@, id.0) {
                Some(e) => (match member_first(e.1@, member) {
                    Some(s) => r matches Some(v) && *v == s,
                    None => r matches None,
                }),
                None => r matches None,
            }),
    {
        let entry = match self.member_names.get(Id(id.0)) {
            Some(e) => e,
            None => {
                return None;
            },
        };
        let list = &entry.1;
        let mut i: usize = 0;
        while i < list.len()
            invariant
                i <= list@.len(),
                self.wf(),
                find_last(self.member_names.values@, id.0) == Some(*entry),
                list == &entry.1,
                forall|j: int| 0 <= j < i ==> list@[j].0 != member,
            decreases list@.len() - i,
        {
            if list[i].0 == member {
                proof {
                    lemma_member_index_at(list@, member, i as int);
                }
                return Some(&list[i].1);
            }
            i = i + 1;
        }
        proof {
            lemma_member_index_none(list@, member);
        }
        None
    }

    /// The type record of a type id, if any.
    pub fn ty(&self, id: TypeId) -> (r: Option<&Type>)
        requires
            self.wf(),
        ensures
            (match r {
                Some(t) => find_last(self.types.values@, id.0) == Some(*t),
                None => find_last(self.types.values@, id.0) matches None,
            }),
    {
        self.types.get(Id(id.0))
    }

    /// The variable record of a value id, if any.
    pub fn variable(&self, id: ValueId) -> (r: Option<&Variable>)
        requires
            self.wf(),
        ensures
            (match r {
                Some(v) => find_last(self.variables.values@, id.0) == Some(*v),
                None => find_last(self.variables.values@, id.0) matches None,
            }),
    {
        self.variables.get(Id(id.0))
    }
}

/// The view of one member-name slot.
pub open spec fn member_name_slot_view(m: (u32, Vec<u8>)) -> (u32, Seq<u8>) {
    (m.0, m.1@)
}

/// The member-name entry recorded so far for an id, copied for update.
fn names_member_entry(
    map: &RawIdMapBuilder<(Id, Vec<(u32, Vec<u8>)>)>,
    id: Id,
) -> (r: Option<Vec<(u32, Vec<u8>)>>)
    ensures
        (match find_last(map.values@, id.0) {
            Some(e) => r matches Some(v) && v@.map_values(|m: (u32, Vec<u8>)| (m.0, m.1@))
                == e.1@.map_values(|m: (u32, Vec<u8>)| (m.0, m.1@)),
            None => r matches None,
        }),
{
    let e = match map.get(id) {
        Some(e) => e,
        None => {
            return None;
        },
    };
    let mut out: Vec<(u32, Vec<u8>)> = Vec::new();
    let mut i: usize = 0;
    while i < e.1.len()
        invariant
            i <= e.1@.len(),
            out@.len() == i,
            find_last(map.values@, id.0) == Some(*e),
            forall|j: int|
                0 <= j < i ==> member_name_slot_view(#[trigger] out@[j]) == member_name_slot_view(
                    e.1@[j],
                ),
        decreases e.1@.len() - i,
    {
        let bytes = copy_bytes(&e.1[i].1);
        out.push((e.1[i].0, bytes));
        proof {
            assert(member_name_slot_view(out@[i as int]) =~= member_name_slot_view(
                e.1@[i as int],
            ));
        }
        i = i + 1;
    }
    proof {
        assert(out@.map_values(|m: (u32, Vec<u8>)| (m.0, m.1@)) =~~= e.1@.map_values(
            |m: (u32, Vec<u8>)| (m.0, m.1@),
        ));
    }
    Some(out)
}

/// Does the literal list hold enough words for the declared scalar type?
fn scalar_width_ok(ty: &Ty, vals: &Vec<u32>) -> (r: bool)
    ensures
        r == spec_scalar_width_ok(ty@, vals@),
{
    match ty {
        Ty::UInt(w) => {
            if *w <= 32 {
                vals.len() >= 1
            } else {
                vals.len() >= 2
            }
        },
        Ty::Int(w) => {
            if *w <= 32 {
                vals.len() >= 1
            } else {
                vals.len() >= 2
            }
        },
        Ty::Float(w) => {
            if *w == 32 {
                vals.len() >= 1
            } else if *w == 64 {
                vals.len() >= 2
            } else {
                true
            }
        },
        _ => true,
    }
}

} // verus!
