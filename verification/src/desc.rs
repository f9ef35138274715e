//! Identifier kinds and the word-level descriptor enumerations of the
//! SPIR-V wire format: every enumeration maps between its variants and the
//! 32-bit codes that appear in the instruction stream.

#![allow(non_camel_case_types)]

use vstd::prelude::*;

verus! {

/// An untyped id: valid wherever any id is referentially meaningful.
/// The value 0 always means "absent / no id".
#[derive(Copy, Clone, PartialEq, Eq, Structural, Hash, Debug)]
pub struct Id(pub u32);

/// An id that refers to a previously defined type instruction.
#[derive(Copy, Clone, PartialEq, Eq, Structural, Hash, Debug)]
pub struct TypeId(pub u32);

/// An id that refers to a previously defined value.
#[derive(Copy, Clone, PartialEq, Eq, Structural, Hash, Debug)]
pub struct ValueId(pub u32);

/// An id that an instruction defines as its own result.
#[derive(Copy, Clone, PartialEq, Eq, Structural, Hash, Debug)]
pub struct ResultId(pub u32);

impl Id {
    /// An id is valid exactly when it is not the zero sentinel.
    pub fn is_valid(self) -> (r: bool)
        ensures
            r == (self.0 != 0),
    {
        self.0 != 0
    }

    /// Narrowing to a type id keeps the numeric value.
    pub fn to_type_id(self) -> (r: TypeId)
        ensures
            r.0 == self.0,
    {
        TypeId(self.0)
    }

    /// Narrowing to a value id keeps the numeric value.
    pub fn to_value_id(self) -> (r: ValueId)
        ensures
            r.0 == self.0,
    {
        ValueId(self.0)
    }

    /// Narrowing to a result id keeps the numeric value.
    pub fn to_result_id(self) -> (r: ResultId)
        ensures
            r.0 == self.0,
    {
        ResultId(self.0)
    }
}

impl TypeId {
    /// A type id is valid exactly when it is not the zero sentinel.
    pub fn is_valid(self) -> (r: bool)
        ensures
            r == (self.0 != 0),
    {
        self.0 != 0
    }
}

impl ValueId {
    /// A value id is valid exactly when it is not the zero sentinel.
    pub fn is_valid(self) -> (r: bool)
        ensures
            r == (self.0 != 0),
    {
        self.0 != 0
    }
}

impl ResultId {
    /// Widening to a type id keeps the numeric value.
    pub fn to_type_id(self) -> (r: TypeId)
        ensures
            r.0 == self.0,
    {
        TypeId(self.0)
    }

    /// Widening to a value id keeps the numeric value.
    pub fn to_value_id(self) -> (r: ValueId)
        ensures
            r.0 == self.0,
    {
        ValueId(self.0)
    }

    /// A result id is valid exactly when it is not the zero sentinel.
    pub fn is_valid(self) -> (r: bool)
        ensures
            r == (self.0 != 0),
    {
        self.0 != 0
    }
}

impl From<TypeId> for Id {
    fn from(t: TypeId) -> (r: Id) {
        Id(t.0)
    }
}

impl vstd::std_specs::convert::FromSpecImpl<TypeId> for Id {
    open spec fn obeys_from_spec() -> bool {
        true
    }

    open spec fn from_spec(t: TypeId) -> Id {
        Id(t.0)
    }
}

impl From<ValueId> for Id {
    fn from(t: ValueId) -> (r: Id) {
        Id(t.0)
    }
}

impl vstd::std_specs::convert::FromSpecImpl<ValueId> for Id {
    open spec fn obeys_from_spec() -> bool {
        true
    }

    open spec fn from_spec(t: ValueId) -> Id {
        Id(t.0)
    }
}

impl From<ResultId> for Id {
    fn from(t: ResultId) -> (r: Id) {
        Id(t.0)
    }
}

impl vstd::std_specs::convert::FromSpecImpl<ResultId> for Id {
    open spec fn obeys_from_spec() -> bool {
        true
    }

    open spec fn from_spec(t: ResultId) -> Id {
        Id(t.0)
    }
}

#[derive(Copy, Clone, PartialEq, Eq, Structural, Hash, Debug)]
pub enum SrcLang {
    Unknown,
    ESSL,
    GLSL,
    OpenCL_C,
    OpenCl_CPP,
}

impl SrcLang {
    /// The wire code of this variant.
    pub open spec fn spec_code(self) -> u32 {
        match self {
            SrcLang::Unknown => 0,
            SrcLang::ESSL => 1,
            SrcLang::GLSL => 2,
            SrcLang::OpenCL_C => 3,
            SrcLang::OpenCl_CPP => 4,
        }
    }

    /// The variant that a wire code denotes, if any.
    pub open spec fn spec_from(w: u32) -> Option<SrcLang> {
        match w {
            0u32 => Some(SrcLang::Unknown),
            1u32 => Some(SrcLang::ESSL),
            2u32 => Some(SrcLang::GLSL),
            3u32 => Some(SrcLang::OpenCL_C),
            4u32 => Some(SrcLang::OpenCl_CPP),
            _ => None,
        }
    }

    /// Emits the wire code of this variant.
    pub fn code(self) -> (r: u32)
        ensures
            r == self.spec_code(),
    {
        match self {
            SrcLang::Unknown => 0,
            SrcLang::ESSL => 1,
            SrcLang::GLSL => 2,
            SrcLang::OpenCL_C => 3,
            SrcLang::OpenCl_CPP => 4,
        }
    }

    /// Looks a wire code up against the fixed code table.
    pub fn from(w: u32) -> (r: Option<SrcLang>)
        ensures
            r == SrcLang::spec_from(w),
    {
        match w {
            0u32 => Some(SrcLang::Unknown),
            1u32 => Some(SrcLang::ESSL),
            2u32 => Some(SrcLang::GLSL),
            3u32 => Some(SrcLang::OpenCL_C),
            4u32 => Some(SrcLang::OpenCl_CPP),
            _ => None,
        }
    }

    /// Decoding the code of a variant gives that variant back.
    pub proof fn lemma_code_round_trip(self)
        ensures
            SrcLang::spec_from(self.spec_code()) == Some(self),
    {
    }

}

#[derive(Copy, Clone, PartialEq, Eq, Structural, Hash, Debug)]
pub enum ExecutionModel {
    Vertex,
    TesselationControl,
    TesselationEvaluation,
    Geometry,
    Fragment,
    GLCompute,
    Kernel,
}

impl ExecutionModel {
    /// The wire code of this variant.
    pub open spec fn spec_code(self) -> u32 {
        match self {
            ExecutionModel::Vertex => 0,
            ExecutionModel::TesselationControl => 1,
            ExecutionModel::TesselationEvaluation => 2,
            ExecutionModel::Geometry => 3,
            ExecutionModel::Fragment => 4,
            ExecutionModel::GLCompute => 5,
            ExecutionModel::Kernel => 6,
        }
    }

    /// The variant that a wire code denotes, if any.
    pub open spec fn spec_from(w: u32) -> Option<ExecutionModel> {
        match w {
            0u32 => Some(ExecutionModel::Vertex),
            1u32 => Some(ExecutionModel::TesselationControl),
            2u32 => Some(ExecutionModel::TesselationEvaluation),
            3u32 => Some(ExecutionModel::Geometry),
            4u32 => Some(ExecutionModel::Fragment),
            5u32 => Some(ExecutionModel::GLCompute),
            6u32 => Some(ExecutionModel::Kernel),
            _ => None,
        }
    }

    /// Emits the wire code of this variant.
    pub fn code(self) -> (r: u32)
        ensures
            r == self.spec_code(),
    {
        match self {
            ExecutionModel::Vertex => 0,
            ExecutionModel::TesselationControl => 1,
            ExecutionModel::TesselationEvaluation => 2,
            ExecutionModel::Geometry => 3,
            ExecutionModel::Fragment => 4,
            ExecutionModel::GLCompute => 5,
            ExecutionModel::Kernel => 6,
        }
    }

    /// Looks a wire code up against the fixed code table.
    pub fn from(w: u32) -> (r: Option<ExecutionModel>)
        ensures
            r == ExecutionModel::spec_from(w),
    {
        match w {
            0u32 => Some(ExecutionModel::Vertex),
            1u32 => Some(ExecutionModel::TesselationControl),
            2u32 => Some(ExecutionModel::TesselationEvaluation),
            3u32 => Some(ExecutionModel::Geometry),
            4u32 => Some(ExecutionModel::Fragment),
            5u32 => Some(ExecutionModel::GLCompute),
            6u32 => Some(ExecutionModel::Kernel),
            _ => None,
        }
    }

    /// Decoding the code of a variant gives that variant back.
    pub proof fn lemma_code_round_trip(self)
        ensures
            ExecutionModel::spec_from(self.spec_code()) == Some(self),
    {
    }

}

#[derive(Copy, Clone, PartialEq, Eq, Structural, Hash, Debug)]
pub enum AddressingModel {
    Logical,
    Physical32,
    Physical64,
}

impl AddressingModel {
    /// The wire code of this variant.
    pub open spec fn spec_code(self) -> u32 {
        match self {
            AddressingModel::Logical => 0,
            AddressingModel::Physical32 => 1,
            AddressingModel::Physical64 => 2,
        }
    }

    /// The variant that a wire code denotes, if any.
    pub open spec fn spec_from(w: u32) -> Option<AddressingModel> {
        match w {
            0u32 => Some(AddressingModel::Logical),
            1u32 => Some(AddressingModel::Physical32),
            2u32 => Some(AddressingModel::Physical64),
            _ => None,
        }
    }

    /// Emits the wire code of this variant.
    pub fn code(self) -> (r: u32)
        ensures
            r == self.spec_code(),
    {
        match self {
            AddressingModel::Logical => 0,
            AddressingModel::Physical32 => 1,
            AddressingModel::Physical64 => 2,
        }
    }

    /// Looks a wire code up against the fixed code table.
    pub fn from(w: u32) -> (r: Option<AddressingModel>)
        ensures
            r == AddressingModel::spec_from(w),
    {
        match w {
            0u32 => Some(AddressingModel::Logical),
            1u32 => Some(AddressingModel::Physical32),
            2u32 => Some(AddressingModel::Physical64),
            _ => None,
        }
    }

    /// Decoding the code of a variant gives that variant back.
    pub proof fn lemma_code_round_trip(self)
        ensures
            AddressingModel::spec_from(self.spec_code()) == Some(self),
    {
    }

}

#[derive(Copy, Clone, PartialEq, Eq, Structural, Hash, Debug)]
pub enum MemoryModel {
    Simple,
    GLSL450,
    OpenCL,
}

impl MemoryModel {
    /// The wire code of this variant.
    pub open spec fn spec_code(self) -> u32 {
        match self {
            MemoryModel::Simple => 0,
            MemoryModel::GLSL450 => 1,
            MemoryModel::OpenCL => 2,
        }
    }

    /// The variant that a wire code denotes, if any.
    pub open spec fn spec_from(w: u32) -> Option<MemoryModel> {
        match w {
            0u32 => Some(MemoryModel::Simple),
            1u32 => Some(MemoryModel::GLSL450),
            2u32 => Some(MemoryModel::OpenCL),
            _ => None,
        }
    }

    /// Emits the wire code of this variant.
    pub fn code(self) -> (r: u32)
        ensures
            r == self.spec_code(),
    {
        match self {
            MemoryModel::Simple => 0,
            MemoryModel::GLSL450 => 1,
            MemoryModel::OpenCL => 2,
        }
    }

    /// Looks a wire code up against the fixed code table.
    pub fn from(w: u32) -> (r: Option<MemoryModel>)
        ensures
            r == MemoryModel::spec_from(w),
    {
        match w {
            0u32 => Some(MemoryModel::Simple),
            1u32 => Some(MemoryModel::GLSL450),
            2u32 => Some(MemoryModel::OpenCL),
            _ => None,
        }
    }

    /// Decoding the code of a variant gives that variant back.
    pub proof fn lemma_code_round_trip(self)
        ensures
            MemoryModel::spec_from(self.spec_code()) == Some(self),
    {
    }

}

#[derive(Copy, Clone, PartialEq, Eq, Structural, Hash, Debug)]
pub enum StorageClass {
    UniformConstant,
    Input,
    Uniform,
    Output,
    Workgroup,
    CrossWorkgroup,
    Private,
    Function,
    Generic,
    PushConstant,
    AtomicCounter,
    Image,
}

impl StorageClass {
    /// The wire code of this variant.
    pub open spec fn spec_code(self) -> u32 {
        match self {
            StorageClass::UniformConstant => 0,
            StorageClass::Input => 1,
            StorageClass::Uniform => 2,
            StorageClass::Output => 3,
            StorageClass::Workgroup => 4,
            StorageClass::CrossWorkgroup => 5,
            StorageClass::Private => 6,
            StorageClass::Function => 7,
            StorageClass::Generic => 8,
            StorageClass::PushConstant => 9,
            StorageClass::AtomicCounter => 10,
            StorageClass::Image => 11,
        }
    }

    /// The variant that a wire code denotes, if any.
    pub open spec fn spec_from(w: u32) -> Option<StorageClass> {
        match w {
            0u32 => Some(StorageClass::UniformConstant),
            1u32 => Some(StorageClass::Input),
            2u32 => Some(StorageClass::Uniform),
            3u32 => Some(StorageClass::Output),
            4u32 => Some(StorageClass::Workgroup),
            5u32 => Some(StorageClass::CrossWorkgroup),
            6u32 => Some(StorageClass::Private),
            7u32 => Some(StorageClass::Function),
            8u32 => Some(StorageClass::Generic),
            9u32 => Some(StorageClass::PushConstant),
            10u32 => Some(StorageClass::AtomicCounter),
            11u32 => Some(StorageClass::Image),
            _ => None,
        }
    }

    /// Emits the wire code of this variant.
    pub fn code(self) -> (r: u32)
        ensures
            r == self.spec_code(),
    {
        match self {
            StorageClass::UniformConstant => 0,
            StorageClass::Input => 1,
            StorageClass::Uniform => 2,
            StorageClass::Output => 3,
            StorageClass::Workgroup => 4,
            StorageClass::CrossWorkgroup => 5,
            StorageClass::Private => 6,
            StorageClass::Function => 7,
            StorageClass::Generic => 8,
            StorageClass::PushConstant => 9,
            StorageClass::AtomicCounter => 10,
            StorageClass::Image => 11,
        }
    }

    /// Looks a wire code up against the fixed code table.
    pub fn from(w: u32) -> (r: Option<StorageClass>)
        ensures
            r == StorageClass::spec_from(w),
    {
        match w {
            0u32 => Some(StorageClass::UniformConstant),
            1u32 => Some(StorageClass::Input),
            2u32 => Some(StorageClass::Uniform),
            3u32 => Some(StorageClass::Output),
            4u32 => Some(StorageClass::Workgroup),
            5u32 => Some(StorageClass::CrossWorkgroup),
            6u32 => Some(StorageClass::Private),
            7u32 => Some(StorageClass::Function),
            8u32 => Some(StorageClass::Generic),
            9u32 => Some(StorageClass::PushConstant),
            10u32 => Some(StorageClass::AtomicCounter),
            11u32 => Some(StorageClass::Image),
            _ => None,
        }
    }

    /// Decoding the code of a variant gives that variant back.
    pub proof fn lemma_code_round_trip(self)
        ensures
            StorageClass::spec_from(self.spec_code()) == Some(self),
    {
    }

}

#[derive(Copy, Clone, PartialEq, Eq, Structural, Hash, Debug)]
pub enum Dim {
    _1D,
    _2D,
    _3D,
    Cube,
    Rect,
    Buffer,
    SubpassData,
}

impl Dim {
    /// The wire code of this variant.
    pub open spec fn spec_code(self) -> u32 {
        match self {
            Dim::_1D => 0,
            Dim::_2D => 1,
            Dim::_3D => 2,
            Dim::Cube => 3,
            Dim::Rect => 4,
            Dim::Buffer => 5,
            Dim::SubpassData => 6,
        }
    }

    /// The variant that a wire code denotes, if any.
    pub open spec fn spec_from(w: u32) -> Option<Dim> {
        match w {
            0u32 => Some(Dim::_1D),
            1u32 => Some(Dim::_2D),
            2u32 => Some(Dim::_3D),
            3u32 => Some(Dim::Cube),
            4u32 => Some(Dim::Rect),
            5u32 => Some(Dim::Buffer),
            6u32 => Some(Dim::SubpassData),
            _ => None,
        }
    }

    /// Emits the wire code of this variant.
    pub fn code(self) -> (r: u32)
        ensures
            r == self.spec_code(),
    {
        match self {
            Dim::_1D => 0,
            Dim::_2D => 1,
            Dim::_3D => 2,
            Dim::Cube => 3,
            Dim::Rect => 4,
            Dim::Buffer => 5,
            Dim::SubpassData => 6,
        }
    }

    /// Looks a wire code up against the fixed code table.
    pub fn from(w: u32) -> (r: Option<Dim>)
        ensures
            r == Dim::spec_from(w),
    {
        match w {
            0u32 => Some(Dim::_1D),
            1u32 => Some(Dim::_2D),
            2u32 => Some(Dim::_3D),
            3u32 => Some(Dim::Cube),
            4u32 => Some(Dim::Rect),
            5u32 => Some(Dim::Buffer),
            6u32 => Some(Dim::SubpassData),
            _ => None,
        }
    }

    /// Decoding the code of a variant gives that variant back.
    pub proof fn lemma_code_round_trip(self)
        ensures
            Dim::spec_from(self.spec_code()) == Some(self),
    {
    }

}

#[derive(Copy, Clone, PartialEq, Eq, Structural, Hash, Debug)]
pub enum ImageFormat {
    Unknown,
    Rgba32f,
    Rgba16f,
    R32f,
    Rgba8,
    Rgba8Snorm,
    Rg32f,
    Rg16f,
    R11fG11fB10f,
    R16f,
    Rgba16,
    Rgb10A2,
    Rg16,
    Rg8,
    R16,
    R8,
    Rgba16Snorm,
    Rg16Snorm,
    Rg8Snorm,
    R16Snorm,
    R8Snorm,
    Rgba32i,
    Rgba16i,
    Rgba8i,
    R32i,
    Rg32i,
    Rg16i,
    Rg8i,
    R16i,
    R8i,
    Rgba32ui,
    Rgba16ui,
    Rgba8ui,
    R32ui,
    Rgb10a2ui,
    Rg32ui,
    Rg16ui,
    Rg8ui,
    R16ui,
    R8ui,
}

impl ImageFormat {
    /// The wire code of this variant.
    pub open spec fn spec_code(self) -> u32 {
        match self {
            ImageFormat::Unknown => 0,
            ImageFormat::Rgba32f => 1,
            ImageFormat::Rgba16f => 2,
            ImageFormat::R32f => 3,
            ImageFormat::Rgba8 => 4,
            ImageFormat::Rgba8Snorm => 5,
            ImageFormat::Rg32f => 6,
            ImageFormat::Rg16f => 7,
            ImageFormat::R11fG11fB10f => 8,
            ImageFormat::R16f => 9,
            ImageFormat::Rgba16 => 10,
            ImageFormat::Rgb10A2 => 11,
            ImageFormat::Rg16 => 12,
            ImageFormat::Rg8 => 13,
            ImageFormat::R16 => 14,
            ImageFormat::R8 => 15,
            ImageFormat::Rgba16Snorm => 16,
            ImageFormat::Rg16Snorm => 17,
            ImageFormat::Rg8Snorm => 18,
            ImageFormat::R16Snorm => 19,
            ImageFormat::R8Snorm => 20,
            ImageFormat::Rgba32i => 21,
            ImageFormat::Rgba16i => 22,
            ImageFormat::Rgba8i => 23,
            ImageFormat::R32i => 24,
            ImageFormat::Rg32i => 25,
            ImageFormat::Rg16i => 26,
            ImageFormat::Rg8i => 27,
            ImageFormat::R16i => 28,
            ImageFormat::R8i => 29,
            ImageFormat::Rgba32ui => 30,
            ImageFormat::Rgba16ui => 31,
            ImageFormat::Rgba8ui => 32,
            ImageFormat::R32ui => 33,
            ImageFormat::Rgb10a2ui => 34,
            ImageFormat::Rg32ui => 35,
            ImageFormat::Rg16ui => 36,
            ImageFormat::Rg8ui => 37,
            ImageFormat::R16ui => 38,
            ImageFormat::R8ui => 39,
        }
    }

    /// The variant that a wire code denotes, if any.
    pub open spec fn spec_from(w: u32) -> Option<ImageFormat> {
        match w {
            0u32 => Some(ImageFormat::Unknown),
            1u32 => Some(ImageFormat::Rgba32f),
            2u32 => Some(ImageFormat::Rgba16f),
            3u32 => Some(ImageFormat::R32f),
            4u32 => Some(ImageFormat::Rgba8),
            5u32 => Some(ImageFormat::Rgba8Snorm),
            6u32 => Some(ImageFormat::Rg32f),
            7u32 => Some(ImageFormat::Rg16f),
            8u32 => Some(ImageFormat::R11fG11fB10f),
            9u32 => Some(ImageFormat::R16f),
            10u32 => Some(ImageFormat::Rgba16),
            11u32 => Some(ImageFormat::Rgb10A2),
            12u32 => Some(ImageFormat::Rg16),
            13u32 => Some(ImageFormat::Rg8),
            14u32 => Some(ImageFormat::R16),
            15u32 => Some(ImageFormat::R8),
            16u32 => Some(ImageFormat::Rgba16Snorm),
            17u32 => Some(ImageFormat::Rg16Snorm),
            18u32 => Some(ImageFormat::Rg8Snorm),
            19u32 => Some(ImageFormat::R16Snorm),
            20u32 => Some(ImageFormat::R8Snorm),
            21u32 => Some(ImageFormat::Rgba32i),
            22u32 => Some(ImageFormat::Rgba16i),
            23u32 => Some(ImageFormat::Rgba8i),
            24u32 => Some(ImageFormat::R32i),
            25u32 => Some(ImageFormat::Rg32i),
            26u32 => Some(ImageFormat::Rg16i),
            27u32 => Some(ImageFormat::Rg8i),
            28u32 => Some(ImageFormat::R16i),
            29u32 => Some(ImageFormat::R8i),
            30u32 => Some(ImageFormat::Rgba32ui),
            31u32 => Some(ImageFormat::Rgba16ui),
            32u32 => Some(ImageFormat::Rgba8ui),
            33u32 => Some(ImageFormat::R32ui),
            34u32 => Some(ImageFormat::Rgb10a2ui),
            35u32 => Some(ImageFormat::Rg32ui),
            36u32 => Some(ImageFormat::Rg16ui),
            37u32 => Some(ImageFormat::Rg8ui),
            38u32 => Some(ImageFormat::R16ui),
            39u32 => Some(ImageFormat::R8ui),
            _ => None,
        }
    }

    /// Emits the wire code of this variant.
    pub fn code(self) -> (r: u32)
        ensures
            r == self.spec_code(),
    {
        match self {
            ImageFormat::Unknown => 0,
            ImageFormat::Rgba32f => 1,
            ImageFormat::Rgba16f => 2,
            ImageFormat::R32f => 3,
            ImageFormat::Rgba8 => 4,
            ImageFormat::Rgba8Snorm => 5,
            ImageFormat::Rg32f => 6,
            ImageFormat::Rg16f => 7,
            ImageFormat::R11fG11fB10f => 8,
            ImageFormat::R16f => 9,
            ImageFormat::Rgba16 => 10,
            ImageFormat::Rgb10A2 => 11,
            ImageFormat::Rg16 => 12,
            ImageFormat::Rg8 => 13,
            ImageFormat::R16 => 14,
            ImageFormat::R8 => 15,
            ImageFormat::Rgba16Snorm => 16,
            ImageFormat::Rg16Snorm => 17,
            ImageFormat::Rg8Snorm => 18,
            ImageFormat::R16Snorm => 19,
            ImageFormat::R8Snorm => 20,
            ImageFormat::Rgba32i => 21,
            ImageFormat::Rgba16i => 22,
            ImageFormat::Rgba8i => 23,
            ImageFormat::R32i => 24,
            ImageFormat::Rg32i => 25,
            ImageFormat::Rg16i => 26,
            ImageFormat::Rg8i => 27,
            ImageFormat::R16i => 28,
            ImageFormat::R8i => 29,
            ImageFormat::Rgba32ui => 30,
            ImageFormat::Rgba16ui => 31,
            ImageFormat::Rgba8ui => 32,
            ImageFormat::R32ui => 33,
            ImageFormat::Rgb10a2ui => 34,
            ImageFormat::Rg32ui => 35,
            ImageFormat::Rg16ui => 36,
            ImageFormat::Rg8ui => 37,
            ImageFormat::R16ui => 38,
            ImageFormat::R8ui => 39,
        }
    }

    /// Looks a wire code up against the fixed code table.
    pub fn from(w: u32) -> (r: Option<ImageFormat>)
        ensures
            r == ImageFormat::spec_from(w),
    {
        match w {
            0u32 => Some(ImageFormat::Unknown),
            1u32 => Some(ImageFormat::Rgba32f),
            2u32 => Some(ImageFormat::Rgba16f),
            3u32 => Some(ImageFormat::R32f),
            4u32 => Some(ImageFormat::Rgba8),
            5u32 => Some(ImageFormat::Rgba8Snorm),
            6u32 => Some(ImageFormat::Rg32f),
            7u32 => Some(ImageFormat::Rg16f),
            8u32 => Some(ImageFormat::R11fG11fB10f),
            9u32 => Some(ImageFormat::R16f),
            10u32 => Some(ImageFormat::Rgba16),
            11u32 => Some(ImageFormat::Rgb10A2),
            12u32 => Some(ImageFormat::Rg16),
            13u32 => Some(ImageFormat::Rg8),
            14u32 => Some(ImageFormat::R16),
            15u32 => Some(ImageFormat::R8),
            16u32 => Some(ImageFormat::Rgba16Snorm),
            17u32 => Some(ImageFormat::Rg16Snorm),
            18u32 => Some(ImageFormat::Rg8Snorm),
            19u32 => Some(ImageFormat::R16Snorm),
            20u32 => Some(ImageFormat::R8Snorm),
            21u32 => Some(ImageFormat::Rgba32i),
            22u32 => Some(ImageFormat::Rgba16i),
            23u32 => Some(ImageFormat::Rgba8i),
            24u32 => Some(ImageFormat::R32i),
            25u32 => Some(ImageFormat::Rg32i),
            26u32 => Some(ImageFormat::Rg16i),
            27u32 => Some(ImageFormat::Rg8i),
            28u32 => Some(ImageFormat::R16i),
            29u32 => Some(ImageFormat::R8i),
            30u32 => Some(ImageFormat::Rgba32ui),
            31u32 => Some(ImageFormat::Rgba16ui),
            32u32 => Some(ImageFormat::Rgba8ui),
            33u32 => Some(ImageFormat::R32ui),
            34u32 => Some(ImageFormat::Rgb10a2ui),
            35u32 => Some(ImageFormat::Rg32ui),
            36u32 => Some(ImageFormat::Rg16ui),
            37u32 => Some(ImageFormat::Rg8ui),
            38u32 => Some(ImageFormat::R16ui),
            39u32 => Some(ImageFormat::R8ui),
            _ => None,
        }
    }

    /// Decoding the code of a variant gives that variant back.
    pub proof fn lemma_code_round_trip(self)
        ensures
            ImageFormat::spec_from(self.spec_code()) == Some(self),
    {
    }

}

#[derive(Copy, Clone, PartialEq, Eq, Structural, Hash, Debug)]
pub enum AccessQualifier {
    ReadOnly,
    WriteOnly,
    ReadWrite,
}

impl AccessQualifier {
    /// The wire code of this variant.
    pub open spec fn spec_code(self) -> u32 {
        match self {
            AccessQualifier::ReadOnly => 0,
            AccessQualifier::WriteOnly => 1,
            AccessQualifier::ReadWrite => 2,
        }
    }

    /// The variant that a wire code denotes, if any.
    pub open spec fn spec_from(w: u32) -> Option<AccessQualifier> {
        match w {
            0u32 => Some(AccessQualifier::ReadOnly),
            1u32 => Some(AccessQualifier::WriteOnly),
            2u32 => Some(AccessQualifier::ReadWrite),
            _ => None,
        }
    }

    /// Emits the wire code of this variant.
    pub fn code(self) -> (r: u32)
        ensures
            r == self.spec_code(),
    {
        match self {
            AccessQualifier::ReadOnly => 0,
            AccessQualifier::WriteOnly => 1,
            AccessQualifier::ReadWrite => 2,
        }
    }

    /// Looks a wire code up against the fixed code table.
    pub fn from(w: u32) -> (r: Option<AccessQualifier>)
        ensures
            r == AccessQualifier::spec_from(w),
    {
        match w {
            0u32 => Some(AccessQualifier::ReadOnly),
            1u32 => Some(AccessQualifier::WriteOnly),
            2u32 => Some(AccessQualifier::ReadWrite),
            _ => None,
        }
    }

    /// Decoding the code of a variant gives that variant back.
    pub proof fn lemma_code_round_trip(self)
        ensures
            AccessQualifier::spec_from(self.spec_code()) == Some(self),
    {
    }

}

#[derive(Copy, Clone, PartialEq, Eq, Structural, Hash, Debug)]
pub enum Capability {
    Matrix,
    Shader,
    Geometry,
    Tessellation,
    Addresses,
    Linkage,
    Kernel,
    Vector16,
    Float16Buffer,
    Float16,
    Float64,
    Int64,
    Int64Atomics,
    ImageBasic,
    ImageReadWrite,
    ImageMipmap,
    Pipes,
    Groups,
    DeviceEnqueue,
    LiteralSampler,
    AtomicStorage,
    Int16,
    TessellationPointSize,
    GeometryPointSize,
    ImageGatherExtended,
    StorageImageMultisample,
    UniformBufferArrayDynamicIndexing,
    SampledImageArrayDynamicIndexing,
    StorageBufferArrayDynamicIndexing,
    StorageImageArrayDynamicIndexing,
    ClipDistance,
    CullDistance,
    ImageCubeArray,
    SampleRateShading,
    ImageRect,
    SampledRect,
    GenericPointer,
    Int8,
    InputAttachment,
    SparseResidency,
    MinLod,
    Sampled1D,
    Image1D,
    SampledCubeArray,
    SampledBuffer,
    ImageBuffer,
    ImageMSArray,
    StorageImageExtendedFormats,
    ImageQuery,
    DerivativeControl,
    InterpolationFunction,
    TransformFeedback,
    GeometryStreams,
    StorageImageReadWithoutFormat,
    StorageImageWriteWithoutFormat,
    MultiViewport,
}

impl Capability {
    /// The wire code of this variant.
    pub open spec fn spec_code(self) -> u32 {
        match self {
            Capability::Matrix => 0,
            Capability::Shader => 1,
            Capability::Geometry => 2,
            Capability::Tessellation => 3,
            Capability::Addresses => 4,
            Capability::Linkage => 5,
            Capability::Kernel => 6,
            Capability::Vector16 => 7,
            Capability::Float16Buffer => 8,
            Capability::Float16 => 9,
            Capability::Float64 => 10,
            Capability::Int64 => 11,
            Capability::Int64Atomics => 12,
            Capability::ImageBasic => 13,
            Capability::ImageReadWrite => 14,
            Capability::ImageMipmap => 15,
            Capability::Pipes => 17,
            Capability::Groups => 18,
            Capability::DeviceEnqueue => 19,
            Capability::LiteralSampler => 20,
            Capability::AtomicStorage => 21,
            Capability::Int16 => 22,
            Capability::TessellationPointSize => 23,
            Capability::GeometryPointSize => 24,
            Capability::ImageGatherExtended => 25,
            Capability::StorageImageMultisample => 27,
            Capability::UniformBufferArrayDynamicIndexing => 28,
            Capability::SampledImageArrayDynamicIndexing => 29,
            Capability::StorageBufferArrayDynamicIndexing => 30,
            Capability::StorageImageArrayDynamicIndexing => 31,
            Capability::ClipDistance => 32,
            Capability::CullDistance => 33,
            Capability::ImageCubeArray => 34,
            Capability::SampleRateShading => 35,
            Capability::ImageRect => 36,
            Capability::SampledRect => 37,
            Capability::GenericPointer => 38,
            Capability::Int8 => 39,
            Capability::InputAttachment => 40,
            Capability::SparseResidency => 41,
            Capability::MinLod => 42,
            Capability::Sampled1D => 43,
            Capability::Image1D => 44,
            Capability::SampledCubeArray => 45,
            Capability::SampledBuffer => 46,
            Capability::ImageBuffer => 47,
            Capability::ImageMSArray => 48,
            Capability::StorageImageExtendedFormats => 49,
            Capability::ImageQuery => 50,
            Capability::DerivativeControl => 51,
            Capability::InterpolationFunction => 52,
            Capability::TransformFeedback => 53,
            Capability::GeometryStreams => 54,
            Capability::StorageImageReadWithoutFormat => 55,
            Capability::StorageImageWriteWithoutFormat => 56,
            Capability::MultiViewport => 57,
        }
    }

    /// The variant that a wire code denotes, if any.
    pub open spec fn spec_from(w: u32) -> Option<Capability> {
        match w {
            0u32 => Some(Capability::Matrix),
            1u32 => Some(Capability::Shader),
            2u32 => Some(Capability::Geometry),
            3u32 => Some(Capability::Tessellation),
            4u32 => Some(Capability::Addresses),
            5u32 => Some(Capability::Linkage),
            6u32 => Some(Capability::Kernel),
            7u32 => Some(Capability::Vector16),
            8u32 => Some(Capability::Float16Buffer),
            9u32 => Some(Capability::Float16),
            10u32 => Some(Capability::Float64),
            11u32 => Some(Capability::Int64),
            12u32 => Some(Capability::Int64Atomics),
            13u32 => Some(Capability::ImageBasic),
            14u32 => Some(Capability::ImageReadWrite),
            15u32 => Some(Capability::ImageMipmap),
            17u32 => Some(Capability::Pipes),
            18u32 => Some(Capability::Groups),
            19u32 => Some(Capability::DeviceEnqueue),
            20u32 => Some(Capability::LiteralSampler),
            21u32 => Some(Capability::AtomicStorage),
            22u32 => Some(Capability::Int16),
            23u32 => Some(Capability::TessellationPointSize),
            24u32 => Some(Capability::GeometryPointSize),
            25u32 => Some(Capability::ImageGatherExtended),
            27u32 => Some(Capability::StorageImageMultisample),
            28u32 => Some(Capability::UniformBufferArrayDynamicIndexing),
            29u32 => Some(Capability::SampledImageArrayDynamicIndexing),
            30u32 => Some(Capability::StorageBufferArrayDynamicIndexing),
            31u32 => Some(Capability::StorageImageArrayDynamicIndexing),
            32u32 => Some(Capability::ClipDistance),
            33u32 => Some(Capability::CullDistance),
            34u32 => Some(Capability::ImageCubeArray),
            35u32 => Some(Capability::SampleRateShading),
            36u32 => Some(Capability::ImageRect),
            37u32 => Some(Capability::SampledRect),
            38u32 => Some(Capability::GenericPointer),
            39u32 => Some(Capability::Int8),
            40u32 => Some(Capability::InputAttachment),
            41u32 => Some(Capability::SparseResidency),
            42u32 => Some(Capability::MinLod),
            43u32 => Some(Capability::Sampled1D),
            44u32 => Some(Capability::Image1D),
            45u32 => Some(Capability::SampledCubeArray),
            46u32 => Some(Capability::SampledBuffer),
            47u32 => Some(Capability::ImageBuffer),
            48u32 => Some(Capability::ImageMSArray),
            49u32 => Some(Capability::StorageImageExtendedFormats),
            50u32 => Some(Capability::ImageQuery),
            51u32 => Some(Capability::DerivativeControl),
            52u32 => Some(Capability::InterpolationFunction),
            53u32 => Some(Capability::TransformFeedback),
            54u32 => Some(Capability::GeometryStreams),
            55u32 => Some(Capability::StorageImageReadWithoutFormat),
            56u32 => Some(Capability::StorageImageWriteWithoutFormat),
            57u32 => Some(Capability::MultiViewport),
            _ => None,
        }
    }

    /// Emits the wire code of this variant.
    pub fn code(self) -> (r: u32)
        ensures
            r == self.spec_code(),
    {
        match self {
            Capability::Matrix => 0,
            Capability::Shader => 1,
            Capability::Geometry => 2,
            Capability::Tessellation => 3,
            Capability::Addresses => 4,
            Capability::Linkage => 5,
            Capability::Kernel => 6,
            Capability::Vector16 => 7,
            Capability::Float16Buffer => 8,
            Capability::Float16 => 9,
            Capability::Float64 => 10,
            Capability::Int64 => 11,
            Capability::Int64Atomics => 12,
            Capability::ImageBasic => 13,
            Capability::ImageReadWrite => 14,
            Capability::ImageMipmap => 15,
            Capability::Pipes => 17,
            Capability::Groups => 18,
            Capability::DeviceEnqueue => 19,
            Capability::LiteralSampler => 20,
            Capability::AtomicStorage => 21,
            Capability::Int16 => 22,
            Capability::TessellationPointSize => 23,
            Capability::GeometryPointSize => 24,
            Capability::ImageGatherExtended => 25,
            Capability::StorageImageMultisample => 27,
            Capability::UniformBufferArrayDynamicIndexing => 28,
            Capability::SampledImageArrayDynamicIndexing => 29,
            Capability::StorageBufferArrayDynamicIndexing => 30,
            Capability::StorageImageArrayDynamicIndexing => 31,
            Capability::ClipDistance => 32,
            Capability::CullDistance => 33,
            Capability::ImageCubeArray => 34,
            Capability::SampleRateShading => 35,
            Capability::ImageRect => 36,
            Capability::SampledRect => 37,
            Capability::GenericPointer => 38,
            Capability::Int8 => 39,
            Capability::InputAttachment => 40,
            Capability::SparseResidency => 41,
            Capability::MinLod => 42,
            Capability::Sampled1D => 43,
            Capability::Image1D => 44,
            Capability::SampledCubeArray => 45,
            Capability::SampledBuffer => 46,
            Capability::ImageBuffer => 47,
            Capability::ImageMSArray => 48,
            Capability::StorageImageExtendedFormats => 49,
            Capability::ImageQuery => 50,
            Capability::DerivativeControl => 51,
            Capability::InterpolationFunction => 52,
            Capability::TransformFeedback => 53,
            Capability::GeometryStreams => 54,
            Capability::StorageImageReadWithoutFormat => 55,
            Capability::StorageImageWriteWithoutFormat => 56,
            Capability::MultiViewport => 57,
        }
    }

    /// Looks a wire code up against the fixed code table.
    pub fn from(w: u32) -> (r: Option<Capability>)
        ensures
            r == Capability::spec_from(w),
    {
        match w {
            0u32 => Some(Capability::Matrix),
            1u32 => Some(Capability::Shader),
            2u32 => Some(Capability::Geometry),
            3u32 => Some(Capability::Tessellation),
            4u32 => Some(Capability::Addresses),
            5u32 => Some(Capability::Linkage),
            6u32 => Some(Capability::Kernel),
            7u32 => Some(Capability::Vector16),
            8u32 => Some(Capability::Float16Buffer),
            9u32 => Some(Capability::Float16),
            10u32 => Some(Capability::Float64),
            11u32 => Some(Capability::Int64),
            12u32 => Some(Capability::Int64Atomics),
            13u32 => Some(Capability::ImageBasic),
            14u32 => Some(Capability::ImageReadWrite),
            15u32 => Some(Capability::ImageMipmap),
            17u32 => Some(Capability::Pipes),
            18u32 => Some(Capability::Groups),
            19u32 => Some(Capability::DeviceEnqueue),
            20u32 => Some(Capability::LiteralSampler),
            21u32 => Some(Capability::AtomicStorage),
            22u32 => Some(Capability::Int16),
            23u32 => Some(Capability::TessellationPointSize),
            24u32 => Some(Capability::GeometryPointSize),
            25u32 => Some(Capability::ImageGatherExtended),
            27u32 => Some(Capability::StorageImageMultisample),
            28u32 => Some(Capability::UniformBufferArrayDynamicIndexing),
            29u32 => Some(Capability::SampledImageArrayDynamicIndexing),
            30u32 => Some(Capability::StorageBufferArrayDynamicIndexing),
            31u32 => Some(Capability::StorageImageArrayDynamicIndexing),
            32u32 => Some(Capability::ClipDistance),
            33u32 => Some(Capability::CullDistance),
            34u32 => Some(Capability::ImageCubeArray),
            35u32 => Some(Capability::SampleRateShading),
            36u32 => Some(Capability::ImageRect),
            37u32 => Some(Capability::SampledRect),
            38u32 => Some(Capability::GenericPointer),
            39u32 => Some(Capability::Int8),
            40u32 => Some(Capability::InputAttachment),
            41u32 => Some(Capability::SparseResidency),
            42u32 => Some(Capability::MinLod),
            43u32 => Some(Capability::Sampled1D),
            44u32 => Some(Capability::Image1D),
            45u32 => Some(Capability::SampledCubeArray),
            46u32 => Some(Capability::SampledBuffer),
            47u32 => Some(Capability::ImageBuffer),
            48u32 => Some(Capability::ImageMSArray),
            49u32 => Some(Capability::StorageImageExtendedFormats),
            50u32 => Some(Capability::ImageQuery),
            51u32 => Some(Capability::DerivativeControl),
            52u32 => Some(Capability::InterpolationFunction),
            53u32 => Some(Capability::TransformFeedback),
            54u32 => Some(Capability::GeometryStreams),
            55u32 => Some(Capability::StorageImageReadWithoutFormat),
            56u32 => Some(Capability::StorageImageWriteWithoutFormat),
            57u32 => Some(Capability::MultiViewport),
            _ => None,
        }
    }

    /// Decoding the code of a variant gives that variant back.
    pub proof fn lemma_code_round_trip(self)
        ensures
            Capability::spec_from(self.spec_code()) == Some(self),
    {
    }

}

#[derive(Copy, Clone, PartialEq, Eq, Structural, Hash, Debug)]
pub enum BuiltIn {
    Position,
    PointSize,
    ClipDistance,
    CullDistance,
    VertexId,
    InstanceId,
    PrimitiveId,
    InvocationId,
    Layer,
    ViewportIndex,
    TessLevelOuter,
    TessLevelInner,
    TessCoord,
    PatchVertices,
    FragCoord,
    PointCoord,
    FrontFacing,
    SampleId,
    SamplePosition,
    SampleMask,
    FragDepth,
    HelperInvocation,
    NumWorkgroups,
    WorkgroupSize,
    WorkgroupId,
    LocalInvocationId,
    GlobalInvocationId,
    LocalInvocationIndex,
    WorkDim,
    GlobalSize,
    EnqueuedWorkgroupSize,
    GlobalOffset,
    GlobalLinearId,
    SubgroupSize,
    SubgroupMaxSize,
    NumSubgroups,
    NumEnqueuedSubgroups,
    SubgroupId,
    SubgroupLocalInvocationId,
    VertexIndex,
    InstanceIndex,
}

impl BuiltIn {
    /// The wire code of this variant.
    pub open spec fn spec_code(self) -> u32 {
        match self {
            BuiltIn::Position => 0,
            BuiltIn::PointSize => 1,
            BuiltIn::ClipDistance => 3,
            BuiltIn::CullDistance => 4,
            BuiltIn::VertexId => 5,
            BuiltIn::InstanceId => 6,
            BuiltIn::PrimitiveId => 7,
            BuiltIn::InvocationId => 8,
            BuiltIn::Layer => 9,
            BuiltIn::ViewportIndex => 10,
            BuiltIn::TessLevelOuter => 11,
            BuiltIn::TessLevelInner => 12,
            BuiltIn::TessCoord => 13,
            BuiltIn::PatchVertices => 14,
            BuiltIn::FragCoord => 15,
            BuiltIn::PointCoord => 16,
            BuiltIn::FrontFacing => 17,
            BuiltIn::SampleId => 18,
            BuiltIn::SamplePosition => 19,
            BuiltIn::SampleMask => 20,
            BuiltIn::FragDepth => 22,
            BuiltIn::HelperInvocation => 23,
            BuiltIn::NumWorkgroups => 24,
            BuiltIn::WorkgroupSize => 25,
            BuiltIn::WorkgroupId => 26,
            BuiltIn::LocalInvocationId => 27,
            BuiltIn::GlobalInvocationId => 28,
            BuiltIn::LocalInvocationIndex => 29,
            BuiltIn::WorkDim => 30,
            BuiltIn::GlobalSize => 31,
            BuiltIn::EnqueuedWorkgroupSize => 32,
            BuiltIn::GlobalOffset => 33,
            BuiltIn::GlobalLinearId => 34,
            BuiltIn::SubgroupSize => 36,
            BuiltIn::SubgroupMaxSize => 37,
            BuiltIn::NumSubgroups => 38,
            BuiltIn::NumEnqueuedSubgroups => 39,
            BuiltIn::SubgroupId => 40,
            BuiltIn::SubgroupLocalInvocationId => 41,
            BuiltIn::VertexIndex => 42,
            BuiltIn::InstanceIndex => 43,
        }
    }

    /// The variant that a wire code denotes, if any.
    pub open spec fn spec_from(w: u32) -> Option<BuiltIn> {
        match w {
            0u32 => Some(BuiltIn::Position),
            1u32 => Some(BuiltIn::PointSize),
            3u32 => Some(BuiltIn::ClipDistance),
            4u32 => Some(BuiltIn::CullDistance),
            5u32 => Some(BuiltIn::VertexId),
            6u32 => Some(BuiltIn::InstanceId),
            7u32 => Some(BuiltIn::PrimitiveId),
            8u32 => Some(BuiltIn::InvocationId),
            9u32 => Some(BuiltIn::Layer),
            10u32 => Some(BuiltIn::ViewportIndex),
            11u32 => Some(BuiltIn::TessLevelOuter),
            12u32 => Some(BuiltIn::TessLevelInner),
            13u32 => Some(BuiltIn::TessCoord),
            14u32 => Some(BuiltIn::PatchVertices),
            15u32 => Some(BuiltIn::FragCoord),
            16u32 => Some(BuiltIn::PointCoord),
            17u32 => Some(BuiltIn::FrontFacing),
            18u32 => Some(BuiltIn::SampleId),
            19u32 => Some(BuiltIn::SamplePosition),
            20u32 => Some(BuiltIn::SampleMask),
            22u32 => Some(BuiltIn::FragDepth),
            23u32 => Some(BuiltIn::HelperInvocation),
            24u32 => Some(BuiltIn::NumWorkgroups),
            25u32 => Some(BuiltIn::WorkgroupSize),
            26u32 => Some(BuiltIn::WorkgroupId),
            27u32 => Some(BuiltIn::LocalInvocationId),
            28u32 => Some(BuiltIn::GlobalInvocationId),
            29u32 => Some(BuiltIn::LocalInvocationIndex),
            30u32 => Some(BuiltIn::WorkDim),
            31u32 => Some(BuiltIn::GlobalSize),
            32u32 => Some(BuiltIn::EnqueuedWorkgroupSize),
            33u32 => Some(BuiltIn::GlobalOffset),
            34u32 => Some(BuiltIn::GlobalLinearId),
            36u32 => Some(BuiltIn::SubgroupSize),
            37u32 => Some(BuiltIn::SubgroupMaxSize),
            38u32 => Some(BuiltIn::NumSubgroups),
            39u32 => Some(BuiltIn::NumEnqueuedSubgroups),
            40u32 => Some(BuiltIn::SubgroupId),
            41u32 => Some(BuiltIn::SubgroupLocalInvocationId),
            42u32 => Some(BuiltIn::VertexIndex),
            43u32 => Some(BuiltIn::InstanceIndex),
            _ => None,
        }
    }

    /// Emits the wire code of this variant.
    pub fn code(self) -> (r: u32)
        ensures
            r == self.spec_code(),
    {
        match self {
            BuiltIn::Position => 0,
            BuiltIn::PointSize => 1,
            BuiltIn::ClipDistance => 3,
            BuiltIn::CullDistance => 4,
            BuiltIn::VertexId => 5,
            BuiltIn::InstanceId => 6,
            BuiltIn::PrimitiveId => 7,
            BuiltIn::InvocationId => 8,
            BuiltIn::Layer => 9,
            BuiltIn::ViewportIndex => 10,
            BuiltIn::TessLevelOuter => 11,
            BuiltIn::TessLevelInner => 12,
            BuiltIn::TessCoord => 13,
            BuiltIn::PatchVertices => 14,
            BuiltIn::FragCoord => 15,
            BuiltIn::PointCoord => 16,
            BuiltIn::FrontFacing => 17,
            BuiltIn::SampleId => 18,
            BuiltIn::SamplePosition => 19,
            BuiltIn::SampleMask => 20,
            BuiltIn::FragDepth => 22,
            BuiltIn::HelperInvocation => 23,
            BuiltIn::NumWorkgroups => 24,
            BuiltIn::WorkgroupSize => 25,
            BuiltIn::WorkgroupId => 26,
            BuiltIn::LocalInvocationId => 27,
            BuiltIn::GlobalInvocationId => 28,
            BuiltIn::LocalInvocationIndex => 29,
            BuiltIn::WorkDim => 30,
            BuiltIn::GlobalSize => 31,
            BuiltIn::EnqueuedWorkgroupSize => 32,
            BuiltIn::GlobalOffset => 33,
            BuiltIn::GlobalLinearId => 34,
            BuiltIn::SubgroupSize => 36,
            BuiltIn::SubgroupMaxSize => 37,
            BuiltIn::NumSubgroups => 38,
            BuiltIn::NumEnqueuedSubgroups => 39,
            BuiltIn::SubgroupId => 40,
            BuiltIn::SubgroupLocalInvocationId => 41,
            BuiltIn::VertexIndex => 42,
            BuiltIn::InstanceIndex => 43,
        }
    }

    /// Looks a wire code up against the fixed code table.
    pub fn from(w: u32) -> (r: Option<BuiltIn>)
        ensures
            r == BuiltIn::spec_from(w),
    {
        match w {
            0u32 => Some(BuiltIn::Position),
            1u32 => Some(BuiltIn::PointSize),
            3u32 => Some(BuiltIn::ClipDistance),
            4u32 => Some(BuiltIn::CullDistance),
            5u32 => Some(BuiltIn::VertexId),
            6u32 => Some(BuiltIn::InstanceId),
            7u32 => Some(BuiltIn::PrimitiveId),
            8u32 => Some(BuiltIn::InvocationId),
            9u32 => Some(BuiltIn::Layer),
            10u32 => Some(BuiltIn::ViewportIndex),
            11u32 => Some(BuiltIn::TessLevelOuter),
            12u32 => Some(BuiltIn::TessLevelInner),
            13u32 => Some(BuiltIn::TessCoord),
            14u32 => Some(BuiltIn::PatchVertices),
            15u32 => Some(BuiltIn::FragCoord),
            16u32 => Some(BuiltIn::PointCoord),
            17u32 => Some(BuiltIn::FrontFacing),
            18u32 => Some(BuiltIn::SampleId),
            19u32 => Some(BuiltIn::SamplePosition),
            20u32 => Some(BuiltIn::SampleMask),
            22u32 => Some(BuiltIn::FragDepth),
            23u32 => Some(BuiltIn::HelperInvocation),
            24u32 => Some(BuiltIn::NumWorkgroups),
            25u32 => Some(BuiltIn::WorkgroupSize),
            26u32 => Some(BuiltIn::WorkgroupId),
            27u32 => Some(BuiltIn::LocalInvocationId),
            28u32 => Some(BuiltIn::GlobalInvocationId),
            29u32 => Some(BuiltIn::LocalInvocationIndex),
            30u32 => Some(BuiltIn::WorkDim),
            31u32 => Some(BuiltIn::GlobalSize),
            32u32 => Some(BuiltIn::EnqueuedWorkgroupSize),
            33u32 => Some(BuiltIn::GlobalOffset),
            34u32 => Some(BuiltIn::GlobalLinearId),
            36u32 => Some(BuiltIn::SubgroupSize),
            37u32 => Some(BuiltIn::SubgroupMaxSize),
            38u32 => Some(BuiltIn::NumSubgroups),
            39u32 => Some(BuiltIn::NumEnqueuedSubgroups),
            40u32 => Some(BuiltIn::SubgroupId),
            41u32 => Some(BuiltIn::SubgroupLocalInvocationId),
            42u32 => Some(BuiltIn::VertexIndex),
            43u32 => Some(BuiltIn::InstanceIndex),
            _ => None,
        }
    }

    /// Decoding the code of a variant gives that variant back.
    pub proof fn lemma_code_round_trip(self)
        ensures
            BuiltIn::spec_from(self.spec_code()) == Some(self),
    {
    }

}

#[derive(Copy, Clone, PartialEq, Eq, Structural, Hash, Debug)]
pub enum FuncParamAttr {
    Zext,
    Sext,
    ByVal,
    Sret,
    NoAlias,
    NoCapture,
    NoWrite,
    NoReadWrite,
}

impl FuncParamAttr {
    /// The wire code of this variant.
    pub open spec fn spec_code(self) -> u32 {
        match self {
            FuncParamAttr::Zext => 0,
            FuncParamAttr::Sext => 1,
            FuncParamAttr::ByVal => 2,
            FuncParamAttr::Sret => 3,
            FuncParamAttr::NoAlias => 4,
            FuncParamAttr::NoCapture => 5,
            FuncParamAttr::NoWrite => 6,
            FuncParamAttr::NoReadWrite => 7,
        }
    }

    /// The variant that a wire code denotes, if any.
    pub open spec fn spec_from(w: u32) -> Option<FuncParamAttr> {
        match w {
            0u32 => Some(FuncParamAttr::Zext),
            1u32 => Some(FuncParamAttr::Sext),
            2u32 => Some(FuncParamAttr::ByVal),
            3u32 => Some(FuncParamAttr::Sret),
            4u32 => Some(FuncParamAttr::NoAlias),
            5u32 => Some(FuncParamAttr::NoCapture),
            6u32 => Some(FuncParamAttr::NoWrite),
            7u32 => Some(FuncParamAttr::NoReadWrite),
            _ => None,
        }
    }

    /// Emits the wire code of this variant.
    pub fn code(self) -> (r: u32)
        ensures
            r == self.spec_code(),
    {
        match self {
            FuncParamAttr::Zext => 0,
            FuncParamAttr::Sext => 1,
            FuncParamAttr::ByVal => 2,
            FuncParamAttr::Sret => 3,
            FuncParamAttr::NoAlias => 4,
            FuncParamAttr::NoCapture => 5,
            FuncParamAttr::NoWrite => 6,
            FuncParamAttr::NoReadWrite => 7,
        }
    }

    /// Looks a wire code up against the fixed code table.
    pub fn from(w: u32) -> (r: Option<FuncParamAttr>)
        ensures
            r == FuncParamAttr::spec_from(w),
    {
        match w {
            0u32 => Some(FuncParamAttr::Zext),
            1u32 => Some(FuncParamAttr::Sext),
            2u32 => Some(FuncParamAttr::ByVal),
            3u32 => Some(FuncParamAttr::Sret),
            4u32 => Some(FuncParamAttr::NoAlias),
            5u32 => Some(FuncParamAttr::NoCapture),
            6u32 => Some(FuncParamAttr::NoWrite),
            7u32 => Some(FuncParamAttr::NoReadWrite),
            _ => None,
        }
    }

    /// Decoding the code of a variant gives that variant back.
    pub proof fn lemma_code_round_trip(self)
        ensures
            FuncParamAttr::spec_from(self.spec_code()) == Some(self),
    {
    }

}

#[derive(Copy, Clone, PartialEq, Eq, Structural, Hash, Debug)]
pub enum FPRoundingMode {
    RTE,
    RTZ,
    RTP,
    RTN,
}

impl FPRoundingMode {
    /// The wire code of this variant.
    pub open spec fn spec_code(self) -> u32 {
        match self {
            FPRoundingMode::RTE => 0,
            FPRoundingMode::RTZ => 1,
            FPRoundingMode::RTP => 2,
            FPRoundingMode::RTN => 3,
        }
    }

    /// The variant that a wire code denotes, if any.
    pub open spec fn spec_from(w: u32) -> Option<FPRoundingMode> {
        match w {
            0u32 => Some(FPRoundingMode::RTE),
            1u32 => Some(FPRoundingMode::RTZ),
            2u32 => Some(FPRoundingMode::RTP),
            3u32 => Some(FPRoundingMode::RTN),
            _ => None,
        }
    }

    /// Emits the wire code of this variant.
    pub fn code(self) -> (r: u32)
        ensures
            r == self.spec_code(),
    {
        match self {
            FPRoundingMode::RTE => 0,
            FPRoundingMode::RTZ => 1,
            FPRoundingMode::RTP => 2,
            FPRoundingMode::RTN => 3,
        }
    }

    /// Looks a wire code up against the fixed code table.
    pub fn from(w: u32) -> (r: Option<FPRoundingMode>)
        ensures
            r == FPRoundingMode::spec_from(w),
    {
        match w {
            0u32 => Some(FPRoundingMode::RTE),
            1u32 => Some(FPRoundingMode::RTZ),
            2u32 => Some(FPRoundingMode::RTP),
            3u32 => Some(FPRoundingMode::RTN),
            _ => None,
        }
    }

    /// Decoding the code of a variant gives that variant back.
    pub proof fn lemma_code_round_trip(self)
        ensures
            FPRoundingMode::spec_from(self.spec_code()) == Some(self),
    {
    }

}

#[derive(Copy, Clone, PartialEq, Eq, Structural, Hash, Debug)]
pub enum LinkageType {
    Export,
    Import,
}

impl LinkageType {
    /// The wire code of this variant.
    pub open spec fn spec_code(self) -> u32 {
        match self {
            LinkageType::Export => 0,
            LinkageType::Import => 1,
        }
    }

    /// The variant that a wire code denotes, if any.
    pub open spec fn spec_from(w: u32) -> Option<LinkageType> {
        match w {
            0u32 => Some(LinkageType::Export),
            1u32 => Some(LinkageType::Import),
            _ => None,
        }
    }

    /// Emits the wire code of this variant.
    pub fn code(self) -> (r: u32)
        ensures
            r == self.spec_code(),
    {
        match self {
            LinkageType::Export => 0,
            LinkageType::Import => 1,
        }
    }

    /// Looks a wire code up against the fixed code table.
    pub fn from(w: u32) -> (r: Option<LinkageType>)
        ensures
            r == LinkageType::spec_from(w),
    {
        match w {
            0u32 => Some(LinkageType::Export),
            1u32 => Some(LinkageType::Import),
            _ => None,
        }
    }

    /// Decoding the code of a variant gives that variant back.
    pub proof fn lemma_code_round_trip(self)
        ensures
            LinkageType::spec_from(self.spec_code()) == Some(self),
    {
    }

}

#[derive(Copy, Clone, PartialEq, Eq, Structural, Hash, Debug)]
pub enum ExecutionMode {
    Invocations,
    SpacingEqual,
    SpacingFractionalEven,
    SpacingFractionalOdd,
    VertexOrderCw,
    VertexOrderCcw,
    PixelCenterInteger,
    OriginUpperLeft,
    OriginLowerLeft,
    EarlyFragmentTests,
    PointMode,
    Xfb,
    DepthReplacing,
    DepthGreater,
    DepthLess,
    DepthUnchanged,
    LocalSize,
    LocalSizeHint,
    InputPoints,
    InputLines,
    InputLinesAdjacency,
    Triangles,
    InputTrianglesAdjacency,
    Quads,
    IsoLines,
    OutputVertices,
    OutputPoints,
    OutputLineStrip,
    OutputTriangleStrip,
    VecTypeHint,
    ContractionOff,
}

impl ExecutionMode {
    /// The wire code of this variant.
    pub open spec fn spec_code(self) -> u32 {
        match self {
            ExecutionMode::Invocations => 0,
            ExecutionMode::SpacingEqual => 1,
            ExecutionMode::SpacingFractionalEven => 2,
            ExecutionMode::SpacingFractionalOdd => 3,
            ExecutionMode::VertexOrderCw => 4,
            ExecutionMode::VertexOrderCcw => 5,
            ExecutionMode::PixelCenterInteger => 6,
            ExecutionMode::OriginUpperLeft => 7,
            ExecutionMode::OriginLowerLeft => 8,
            ExecutionMode::EarlyFragmentTests => 9,
            ExecutionMode::PointMode => 10,
            ExecutionMode::Xfb => 11,
            ExecutionMode::DepthReplacing => 12,
            ExecutionMode::DepthGreater => 14,
            ExecutionMode::DepthLess => 15,
            ExecutionMode::DepthUnchanged => 16,
            ExecutionMode::LocalSize => 17,
            ExecutionMode::LocalSizeHint => 18,
            ExecutionMode::InputPoints => 19,
            ExecutionMode::InputLines => 20,
            ExecutionMode::InputLinesAdjacency => 21,
            ExecutionMode::Triangles => 22,
            ExecutionMode::InputTrianglesAdjacency => 23,
            ExecutionMode::Quads => 24,
            ExecutionMode::IsoLines => 25,
            ExecutionMode::OutputVertices => 26,
            ExecutionMode::OutputPoints => 27,
            ExecutionMode::OutputLineStrip => 28,
            ExecutionMode::OutputTriangleStrip => 29,
            ExecutionMode::VecTypeHint => 30,
            ExecutionMode::ContractionOff => 31,
        }
    }

    /// The variant that a wire code denotes, if any.
    pub open spec fn spec_from(w: u32) -> Option<ExecutionMode> {
        match w {
            0u32 => Some(ExecutionMode::Invocations),
            1u32 => Some(ExecutionMode::SpacingEqual),
            2u32 => Some(ExecutionMode::SpacingFractionalEven),
            3u32 => Some(ExecutionMode::SpacingFractionalOdd),
            4u32 => Some(ExecutionMode::VertexOrderCw),
            5u32 => Some(ExecutionMode::VertexOrderCcw),
            6u32 => Some(ExecutionMode::PixelCenterInteger),
            7u32 => Some(ExecutionMode::OriginUpperLeft),
            8u32 => Some(ExecutionMode::OriginLowerLeft),
            9u32 => Some(ExecutionMode::EarlyFragmentTests),
            10u32 => Some(ExecutionMode::PointMode),
            11u32 => Some(ExecutionMode::Xfb),
            12u32 => Some(ExecutionMode::DepthReplacing),
            14u32 => Some(ExecutionMode::DepthGreater),
            15u32 => Some(ExecutionMode::DepthLess),
            16u32 => Some(ExecutionMode::DepthUnchanged),
            17u32 => Some(ExecutionMode::LocalSize),
            18u32 => Some(ExecutionMode::LocalSizeHint),
            19u32 => Some(ExecutionMode::InputPoints),
            20u32 => Some(ExecutionMode::InputLines),
            21u32 => Some(ExecutionMode::InputLinesAdjacency),
            22u32 => Some(ExecutionMode::Triangles),
            23u32 => Some(ExecutionMode::InputTrianglesAdjacency),
            24u32 => Some(ExecutionMode::Quads),
            25u32 => Some(ExecutionMode::IsoLines),
            26u32 => Some(ExecutionMode::OutputVertices),
            27u32 => Some(ExecutionMode::OutputPoints),
            28u32 => Some(ExecutionMode::OutputLineStrip),
            29u32 => Some(ExecutionMode::OutputTriangleStrip),
            30u32 => Some(ExecutionMode::VecTypeHint),
            31u32 => Some(ExecutionMode::ContractionOff),
            _ => None,
        }
    }

    /// Emits the wire code of this variant.
    pub fn code(self) -> (r: u32)
        ensures
            r == self.spec_code(),
    {
        match self {
            ExecutionMode::Invocations => 0,
            ExecutionMode::SpacingEqual => 1,
            ExecutionMode::SpacingFractionalEven => 2,
            ExecutionMode::SpacingFractionalOdd => 3,
            ExecutionMode::VertexOrderCw => 4,
            ExecutionMode::VertexOrderCcw => 5,
            ExecutionMode::PixelCenterInteger => 6,
            ExecutionMode::OriginUpperLeft => 7,
            ExecutionMode::OriginLowerLeft => 8,
            ExecutionMode::EarlyFragmentTests => 9,
            ExecutionMode::PointMode => 10,
            ExecutionMode::Xfb => 11,
            ExecutionMode::DepthReplacing => 12,
            ExecutionMode::DepthGreater => 14,
            ExecutionMode::DepthLess => 15,
            ExecutionMode::DepthUnchanged => 16,
            ExecutionMode::LocalSize => 17,
            ExecutionMode::LocalSizeHint => 18,
            ExecutionMode::InputPoints => 19,
            ExecutionMode::InputLines => 20,
            ExecutionMode::InputLinesAdjacency => 21,
            ExecutionMode::Triangles => 22,
            ExecutionMode::InputTrianglesAdjacency => 23,
            ExecutionMode::Quads => 24,
            ExecutionMode::IsoLines => 25,
            ExecutionMode::OutputVertices => 26,
            ExecutionMode::OutputPoints => 27,
            ExecutionMode::OutputLineStrip => 28,
            ExecutionMode::OutputTriangleStrip => 29,
            ExecutionMode::VecTypeHint => 30,
            ExecutionMode::ContractionOff => 31,
        }
    }

    /// Looks a wire code up against the fixed code table.
    pub fn from(w: u32) -> (r: Option<ExecutionMode>)
        ensures
            r == ExecutionMode::spec_from(w),
    {
        match w {
            0u32 => Some(ExecutionMode::Invocations),
            1u32 => Some(ExecutionMode::SpacingEqual),
            2u32 => Some(ExecutionMode::SpacingFractionalEven),
            3u32 => Some(ExecutionMode::SpacingFractionalOdd),
            4u32 => Some(ExecutionMode::VertexOrderCw),
            5u32 => Some(ExecutionMode::VertexOrderCcw),
            6u32 => Some(ExecutionMode::PixelCenterInteger),
            7u32 => Some(ExecutionMode::OriginUpperLeft),
            8u32 => Some(ExecutionMode::OriginLowerLeft),
            9u32 => Some(ExecutionMode::EarlyFragmentTests),
            10u32 => Some(ExecutionMode::PointMode),
            11u32 => Some(ExecutionMode::Xfb),
            12u32 => Some(ExecutionMode::DepthReplacing),
            14u32 => Some(ExecutionMode::DepthGreater),
            15u32 => Some(ExecutionMode::DepthLess),
            16u32 => Some(ExecutionMode::DepthUnchanged),
            17u32 => Some(ExecutionMode::LocalSize),
            18u32 => Some(ExecutionMode::LocalSizeHint),
            19u32 => Some(ExecutionMode::InputPoints),
            20u32 => Some(ExecutionMode::InputLines),
            21u32 => Some(ExecutionMode::InputLinesAdjacency),
            22u32 => Some(ExecutionMode::Triangles),
            23u32 => Some(ExecutionMode::InputTrianglesAdjacency),
            24u32 => Some(ExecutionMode::Quads),
            25u32 => Some(ExecutionMode::IsoLines),
            26u32 => Some(ExecutionMode::OutputVertices),
            27u32 => Some(ExecutionMode::OutputPoints),
            28u32 => Some(ExecutionMode::OutputLineStrip),
            29u32 => Some(ExecutionMode::OutputTriangleStrip),
            30u32 => Some(ExecutionMode::VecTypeHint),
            31u32 => Some(ExecutionMode::ContractionOff),
            _ => None,
        }
    }

    /// Decoding the code of a variant gives that variant back.
    pub proof fn lemma_code_round_trip(self)
        ensures
            ExecutionMode::spec_from(self.spec_code()) == Some(self),
    {
    }

}

#[derive(Copy, Clone, PartialEq, Eq, Structural, Hash, Debug)]
pub enum Decoration {
    RelaxedPrecision,
    SpecId,
    Block,
    BufferBlock,
    RowMajor,
    ColMajor,
    ArrayStride,
    MatrixStride,
    GLSLShared,
    GLSLPacked,
    CPacked,
    BuiltIn,
    NoPerspective,
    Flat,
    Patch,
    Centroid,
    Sample,
    Invariant,
    Restrict,
    Aliased,
    Volatile,
    Constant,
    Coherent,
    NonWritable,
    NonReadable,
    Uniform,
    SaturatedConversion,
    Stream,
    Location,
    Component,
    Index,
    Binding,
    DescriptorSet,
    Offset,
    XfbBuffer,
    XfbStride,
    FuncParamAttr,
    FPRoundingMode,
    FPFastMathMode,
    LinkageAttributes,
    NoContraction,
    InputAttachmentIndex,
    Alignment,
}

impl Decoration {
    /// The wire code of this variant.
    pub open spec fn spec_code(self) -> u32 {
        match self {
            Decoration::RelaxedPrecision => 0,
            Decoration::SpecId => 1,
            Decoration::Block => 2,
            Decoration::BufferBlock => 3,
            Decoration::RowMajor => 4,
            Decoration::ColMajor => 5,
            Decoration::ArrayStride => 6,
            Decoration::MatrixStride => 7,
            Decoration::GLSLShared => 8,
            Decoration::GLSLPacked => 9,
            Decoration::CPacked => 10,
            Decoration::BuiltIn => 11,
            Decoration::NoPerspective => 13,
            Decoration::Flat => 14,
            Decoration::Patch => 15,
            Decoration::Centroid => 16,
            Decoration::Sample => 17,
            Decoration::Invariant => 18,
            Decoration::Restrict => 19,
            Decoration::Aliased => 20,
            Decoration::Volatile => 21,
            Decoration::Constant => 22,
            Decoration::Coherent => 23,
            Decoration::NonWritable => 24,
            Decoration::NonReadable => 25,
            Decoration::Uniform => 26,
            Decoration::SaturatedConversion => 28,
            Decoration::Stream => 29,
            Decoration::Location => 30,
            Decoration::Component => 31,
            Decoration::Index => 32,
            Decoration::Binding => 33,
            Decoration::DescriptorSet => 34,
            Decoration::Offset => 35,
            Decoration::XfbBuffer => 36,
            Decoration::XfbStride => 37,
            Decoration::FuncParamAttr => 38,
            Decoration::FPRoundingMode => 39,
            Decoration::FPFastMathMode => 40,
            Decoration::LinkageAttributes => 41,
            Decoration::NoContraction => 42,
            Decoration::InputAttachmentIndex => 43,
            Decoration::Alignment => 44,
        }
    }

    /// The variant that a wire code denotes, if any.
    pub open spec fn spec_from(w: u32) -> Option<Decoration> {
        match w {
            0u32 => Some(Decoration::RelaxedPrecision),
            1u32 => Some(Decoration::SpecId),
            2u32 => Some(Decoration::Block),
            3u32 => Some(Decoration::BufferBlock),
            4u32 => Some(Decoration::RowMajor),
            5u32 => Some(Decoration::ColMajor),
            6u32 => Some(Decoration::ArrayStride),
            7u32 => Some(Decoration::MatrixStride),
            8u32 => Some(Decoration::GLSLShared),
            9u32 => Some(Decoration::GLSLPacked),
            10u32 => Some(Decoration::CPacked),
            11u32 => Some(Decoration::BuiltIn),
            13u32 => Some(Decoration::NoPerspective),
            14u32 => Some(Decoration::Flat),
            15u32 => Some(Decoration::Patch),
            16u32 => Some(Decoration::Centroid),
            17u32 => Some(Decoration::Sample),
            18u32 => Some(Decoration::Invariant),
            19u32 => Some(Decoration::Restrict),
            20u32 => Some(Decoration::Aliased),
            21u32 => Some(Decoration::Volatile),
            22u32 => Some(Decoration::Constant),
            23u32 => Some(Decoration::Coherent),
            24u32 => Some(Decoration::NonWritable),
            25u32 => Some(Decoration::NonReadable),
            26u32 => Some(Decoration::Uniform),
            28u32 => Some(Decoration::SaturatedConversion),
            29u32 => Some(Decoration::Stream),
            30u32 => Some(Decoration::Location),
            31u32 => Some(Decoration::Component),
            32u32 => Some(Decoration::Index),
            33u32 => Some(Decoration::Binding),
            34u32 => Some(Decoration::DescriptorSet),
            35u32 => Some(Decoration::Offset),
            36u32 => Some(Decoration::XfbBuffer),
            37u32 => Some(Decoration::XfbStride),
            38u32 => Some(Decoration::FuncParamAttr),
            39u32 => Some(Decoration::FPRoundingMode),
            40u32 => Some(Decoration::FPFastMathMode),
            41u32 => Some(Decoration::LinkageAttributes),
            42u32 => Some(Decoration::NoContraction),
            43u32 => Some(Decoration::InputAttachmentIndex),
            44u32 => Some(Decoration::Alignment),
            _ => None,
        }
    }

    /// Emits the wire code of this variant.
    pub fn code(self) -> (r: u32)
        ensures
            r == self.spec_code(),
    {
        match self {
            Decoration::RelaxedPrecision => 0,
            Decoration::SpecId => 1,
            Decoration::Block => 2,
            Decoration::BufferBlock => 3,
            Decoration::RowMajor => 4,
            Decoration::ColMajor => 5,
            Decoration::ArrayStride => 6,
            Decoration::MatrixStride => 7,
            Decoration::GLSLShared => 8,
            Decoration::GLSLPacked => 9,
            Decoration::CPacked => 10,
            Decoration::BuiltIn => 11,
            Decoration::NoPerspective => 13,
            Decoration::Flat => 14,
            Decoration::Patch => 15,
            Decoration::Centroid => 16,
            Decoration::Sample => 17,
            Decoration::Invariant => 18,
            Decoration::Restrict => 19,
            Decoration::Aliased => 20,
            Decoration::Volatile => 21,
            Decoration::Constant => 22,
            Decoration::Coherent => 23,
            Decoration::NonWritable => 24,
            Decoration::NonReadable => 25,
            Decoration::Uniform => 26,
            Decoration::SaturatedConversion => 28,
            Decoration::Stream => 29,
            Decoration::Location => 30,
            Decoration::Component => 31,
            Decoration::Index => 32,
            Decoration::Binding => 33,
            Decoration::DescriptorSet => 34,
            Decoration::Offset => 35,
            Decoration::XfbBuffer => 36,
            Decoration::XfbStride => 37,
            Decoration::FuncParamAttr => 38,
            Decoration::FPRoundingMode => 39,
            Decoration::FPFastMathMode => 40,
            Decoration::LinkageAttributes => 41,
            Decoration::NoContraction => 42,
            Decoration::InputAttachmentIndex => 43,
            Decoration::Alignment => 44,
        }
    }

    /// Looks a wire code up against the fixed code table.
    pub fn from(w: u32) -> (r: Option<Decoration>)
        ensures
            r == Decoration::spec_from(w),
    {
        match w {
            0u32 => Some(Decoration::RelaxedPrecision),
            1u32 => Some(Decoration::SpecId),
            2u32 => Some(Decoration::Block),
            3u32 => Some(Decoration::BufferBlock),
            4u32 => Some(Decoration::RowMajor),
            5u32 => Some(Decoration::ColMajor),
            6u32 => Some(Decoration::ArrayStride),
            7u32 => Some(Decoration::MatrixStride),
            8u32 => Some(Decoration::GLSLShared),
            9u32 => Some(Decoration::GLSLPacked),
            10u32 => Some(Decoration::CPacked),
            11u32 => Some(Decoration::BuiltIn),
            13u32 => Some(Decoration::NoPerspective),
            14u32 => Some(Decoration::Flat),
            15u32 => Some(Decoration::Patch),
            16u32 => Some(Decoration::Centroid),
            17u32 => Some(Decoration::Sample),
            18u32 => Some(Decoration::Invariant),
            19u32 => Some(Decoration::Restrict),
            20u32 => Some(Decoration::Aliased),
            21u32 => Some(Decoration::Volatile),
            22u32 => Some(Decoration::Constant),
            23u32 => Some(Decoration::Coherent),
            24u32 => Some(Decoration::NonWritable),
            25u32 => Some(Decoration::NonReadable),
            26u32 => Some(Decoration::Uniform),
            28u32 => Some(Decoration::SaturatedConversion),
            29u32 => Some(Decoration::Stream),
            30u32 => Some(Decoration::Location),
            31u32 => Some(Decoration::Component),
            32u32 => Some(Decoration::Index),
            33u32 => Some(Decoration::Binding),
            34u32 => Some(Decoration::DescriptorSet),
            35u32 => Some(Decoration::Offset),
            36u32 => Some(Decoration::XfbBuffer),
            37u32 => Some(Decoration::XfbStride),
            38u32 => Some(Decoration::FuncParamAttr),
            39u32 => Some(Decoration::FPRoundingMode),
            40u32 => Some(Decoration::FPFastMathMode),
            41u32 => Some(Decoration::LinkageAttributes),
            42u32 => Some(Decoration::NoContraction),
            43u32 => Some(Decoration::InputAttachmentIndex),
            44u32 => Some(Decoration::Alignment),
            _ => None,
        }
    }

    /// Decoding the code of a variant gives that variant back.
    pub proof fn lemma_code_round_trip(self)
        ensures
            Decoration::spec_from(self.spec_code()) == Some(self),
    {
    }

}

pub const IMG_OP_BIAS: u32 = 0x01;
pub const IMG_OP_LOD: u32 = 0x02;
pub const IMG_OP_GRAD: u32 = 0x04;
pub const IMG_OP_CONST_OFFSET: u32 = 0x08;
pub const IMG_OP_OFFSET: u32 = 0x10;
pub const IMG_OP_CONST_OFFSETS: u32 = 0x20;
pub const IMG_OP_SAMPLE: u32 = 0x40;
pub const IMG_OP_MIN_LOD: u32 = 0x80;

/// A word of OR-ed flag bits; unrecognised bits pass through unchecked.
#[derive(Copy, Clone, PartialEq, Eq, Structural, Hash, Debug)]
pub struct ImageOperands(pub u32);

impl ImageOperands {
    pub fn empty() -> (r: ImageOperands)
        ensures
            r.0 == 0,
    {
        ImageOperands(0)
    }

    pub fn is_empty(&self) -> (r: bool)
        ensures
            r == (self.0 == 0),
    {
        self.0 == 0
    }

    pub fn contains(&self, val: ImageOperands) -> (r: bool)
        ensures
            r == (self.0 & val.0 != 0),
    {
        self.0 & val.0 != 0
    }

    pub fn bits(&self) -> (r: u32)
        ensures
            r == self.0,
    {
        self.0
    }

    pub fn insert(&mut self, val: ImageOperands)
        ensures
            final(self).0 == old(self).0 | val.0,
    {
        self.0 = self.0 | val.0;
    }
}

pub const FAST_MATH_NOT_NA_N: u32 = 0x01;
pub const FAST_MATH_NOT_INF: u32 = 0x02;
pub const FAST_MATH_NSZ: u32 = 0x04;
pub const FAST_MATH_ALLOW_RECIP: u32 = 0x08;
pub const FAST_MATH_FAST: u32 = 0x10;

/// A word of OR-ed flag bits; unrecognised bits pass through unchecked.
#[derive(Copy, Clone, PartialEq, Eq, Structural, Hash, Debug)]
pub struct FPFastMathMode(pub u32);

impl FPFastMathMode {
    pub fn empty() -> (r: FPFastMathMode)
        ensures
            r.0 == 0,
    {
        FPFastMathMode(0)
    }

    pub fn is_empty(&self) -> (r: bool)
        ensures
            r == (self.0 == 0),
    {
        self.0 == 0
    }

    pub fn contains(&self, val: FPFastMathMode) -> (r: bool)
        ensures
            r == (self.0 & val.0 != 0),
    {
        self.0 & val.0 != 0
    }

    pub fn bits(&self) -> (r: u32)
        ensures
            r == self.0,
    {
        self.0
    }

    pub fn insert(&mut self, val: FPFastMathMode)
        ensures
            final(self).0 == old(self).0 | val.0,
    {
        self.0 = self.0 | val.0;
    }
}

pub const FN_CTL_INLINE: u32 = 0x01;
pub const FN_CTL_DONT_INLINE: u32 = 0x02;
pub const FN_CTL_PURE: u32 = 0x04;
pub const FN_CTL_CONST: u32 = 0x08;

/// A word of OR-ed flag bits; unrecognised bits pass through unchecked.
#[derive(Copy, Clone, PartialEq, Eq, Structural, Hash, Debug)]
pub struct FunctionControl(pub u32);

impl FunctionControl {
    pub fn empty() -> (r: FunctionControl)
        ensures
            r.0 == 0,
    {
        FunctionControl(0)
    }

    pub fn is_empty(&self) -> (r: bool)
        ensures
            r == (self.0 == 0),
    {
        self.0 == 0
    }

    pub fn contains(&self, val: FunctionControl) -> (r: bool)
        ensures
            r == (self.0 & val.0 != 0),
    {
        self.0 & val.0 != 0
    }

    pub fn bits(&self) -> (r: u32)
        ensures
            r == self.0,
    {
        self.0
    }

    pub fn insert(&mut self, val: FunctionControl)
        ensures
            final(self).0 == old(self).0 | val.0,
    {
        self.0 = self.0 | val.0;
    }
}

pub const MEM_ACC_VOLATILE: u32 = 0x01;
pub const MEM_ACC_ALIGNED: u32 = 0x02;
pub const MEM_ACC_NONTEMPORAL: u32 = 0x04;

/// A word of OR-ed flag bits; unrecognised bits pass through unchecked.
#[derive(Copy, Clone, PartialEq, Eq, Structural, Hash, Debug)]
pub struct MemoryAccess(pub u32);

impl MemoryAccess {
    pub fn empty() -> (r: MemoryAccess)
        ensures
            r.0 == 0,
    {
        MemoryAccess(0)
    }

    pub fn is_empty(&self) -> (r: bool)
        ensures
            r == (self.0 == 0),
    {
        self.0 == 0
    }

    pub fn contains(&self, val: MemoryAccess) -> (r: bool)
        ensures
            r == (self.0 & val.0 != 0),
    {
        self.0 & val.0 != 0
    }

    pub fn bits(&self) -> (r: u32)
        ensures
            r == self.0,
    {
        self.0
    }

    pub fn insert(&mut self, val: MemoryAccess)
        ensures
            final(self).0 == old(self).0 | val.0,
    {
        self.0 = self.0 | val.0;
    }
}

} // verus!
