//! Round-trip and error behaviour of the instruction codec.

use spirv_utils::desc;
use spirv_utils::desc::{Id, ResultId, TypeId, ValueId};
use spirv_utils::instruction::{Decoration, ExecutionMode, ImageOperands, Instruction};
use spirv_utils::parse::{parse_raw_instruction, ParamKind, ParseError, RawInstruction};
use spirv_utils::module::Ty;
use spirv_utils::write::to_bytecode;

fn round_trip(inst: Instruction) {
    let words = to_bytecode(&inst);
    assert!(words.len() >= 1);
    let header = words[0];
    let opcode = (header & 0xFFFF) as u16;
    let count = (header >> 16) as usize;
    assert_eq!(count, words.len());
    let raw = RawInstruction {
        opcode,
        params: words[1..].to_vec(),
    };
    let back = parse_raw_instruction(raw).expect("decode failed");
    assert_eq!(back, inst);
}

#[test]
fn round_trip_nop_and_return() {
    round_trip(Instruction::Nop);
    round_trip(Instruction::Return);
    round_trip(Instruction::FunctionEnd);
}

#[test]
fn round_trip_undef() {
    round_trip(Instruction::Undef {
        result_type: TypeId(1),
        result_id: ResultId(2),
    });
}

#[test]
fn round_trip_source_with_and_without_optionals() {
    round_trip(Instruction::Source {
        src_lang: desc::SrcLang::GLSL,
        version: 450,
        file: Id(0),
        source: None,
    });
    round_trip(Instruction::Source {
        src_lang: desc::SrcLang::OpenCL_C,
        version: 120,
        file: Id(7),
        source: Some(b"kernel".to_vec()),
    });
}

#[test]
fn round_trip_names() {
    round_trip(Instruction::Name {
        target: Id(4),
        name: b"main".to_vec(),
    });
    round_trip(Instruction::MemberName {
        target: Id(4),
        member: 1,
        name: b"field".to_vec(),
    });
}

#[test]
fn round_trip_entry_point() {
    round_trip(Instruction::EntryPoint {
        execution_model: desc::ExecutionModel::Fragment,
        func: ValueId(4),
        name: b"main".to_vec(),
        interface: vec![ValueId(9), ValueId(10)],
    });
}

#[test]
fn round_trip_execution_mode_payloads() {
    round_trip(Instruction::ExecutionMode {
        target: ValueId(4),
        mode: ExecutionMode::LocalSize(8, 4, 2),
    });
    round_trip(Instruction::ExecutionMode {
        target: ValueId(4),
        mode: ExecutionMode::OriginUpperLeft,
    });
    round_trip(Instruction::ExecutionMode {
        target: ValueId(4),
        mode: ExecutionMode::Invocations(3),
    });
}

#[test]
fn round_trip_types() {
    round_trip(Instruction::TypeVoid { result_type: TypeId(1) });
    round_trip(Instruction::TypeInt {
        result_type: TypeId(2),
        width: 32,
        signed: true,
    });
    round_trip(Instruction::TypeVector {
        result_type: TypeId(3),
        type_id: TypeId(2),
        len: 4,
    });
    round_trip(Instruction::TypeStruct {
        result_type: TypeId(5),
        fields: vec![TypeId(2), TypeId(3)],
    });
    round_trip(Instruction::TypeOpaque {
        result_type: TypeId(6),
        name: b"opaque".to_vec(),
    });
    round_trip(Instruction::TypeFunction {
        result_type: TypeId(7),
        return_ty: TypeId(1),
        params: vec![TypeId(2)],
    });
    round_trip(Instruction::TypeForwardPointer {
        type_id: TypeId(8),
        storage_class: desc::StorageClass::Uniform,
    });
}

#[test]
fn round_trip_type_image_with_and_without_access() {
    round_trip(Instruction::TypeImage {
        result_type: TypeId(9),
        type_id: TypeId(2),
        dim: desc::Dim::_2D,
        depth: 0,
        arrayed: false,
        multisampled: false,
        sampled: 1,
        image_format: desc::ImageFormat::Rgba8,
        access_qualifier: None,
    });
    round_trip(Instruction::TypeImage {
        result_type: TypeId(9),
        type_id: TypeId(2),
        dim: desc::Dim::Cube,
        depth: 1,
        arrayed: true,
        multisampled: true,
        sampled: 2,
        image_format: desc::ImageFormat::Unknown,
        access_qualifier: Some(desc::AccessQualifier::ReadOnly),
    });
}

#[test]
fn round_trip_constants() {
    round_trip(Instruction::Constant {
        result_type: TypeId(2),
        result_id: ResultId(10),
        value: vec![42],
    });
    round_trip(Instruction::ConstantComposite {
        result_type: TypeId(3),
        result_id: ResultId(11),
        constituents: vec![ValueId(10), ValueId(10)],
    });
    round_trip(Instruction::SpecConstantTrue {
        result_type: TypeId(4),
        result_id: ResultId(12),
    });
}

#[test]
fn round_trip_function_and_memory() {
    round_trip(Instruction::Function {
        result_type: TypeId(1),
        result_id: ResultId(4),
        function_control: desc::FunctionControl(desc::FN_CTL_INLINE),
        function_type: TypeId(7),
    });
    round_trip(Instruction::Variable {
        result_type: TypeId(8),
        result_id: ResultId(20),
        storage_class: desc::StorageClass::Function,
        initializer: ValueId(0),
    });
    round_trip(Instruction::Variable {
        result_type: TypeId(8),
        result_id: ResultId(21),
        storage_class: desc::StorageClass::Private,
        initializer: ValueId(10),
    });
    round_trip(Instruction::Load {
        result_type: TypeId(2),
        result_id: ResultId(22),
        pointer: ValueId(20),
        memory_access: desc::MemoryAccess(desc::MEM_ACC_VOLATILE),
    });
    round_trip(Instruction::Store {
        pointer: ValueId(20),
        object: ValueId(22),
        memory_access: desc::MemoryAccess(0),
    });
    round_trip(Instruction::AccessChain {
        result_type: TypeId(8),
        result_id: ResultId(23),
        base: ValueId(20),
        indexes: vec![ValueId(10)],
    });
}

#[test]
fn round_trip_decorations() {
    round_trip(Instruction::Decorate {
        target: Id(5),
        decoration: Decoration::SpecId(3),
    });
    round_trip(Instruction::Decorate {
        target: Id(5),
        decoration: Decoration::RelaxedPrecision,
    });
    round_trip(Instruction::Decorate {
        target: Id(5),
        decoration: Decoration::BuiltIn(desc::BuiltIn::Position),
    });
    round_trip(Instruction::Decorate {
        target: Id(5),
        decoration: Decoration::LinkageAttributes(b"lib".to_vec(), desc::LinkageType::Export),
    });
    round_trip(Instruction::MemberDecorate {
        structure_type: TypeId(5),
        member: 2,
        decoration: Decoration::Offset(16),
    });
    round_trip(Instruction::GroupDecorate {
        group: Id(9),
        targets: vec![Id(5), Id(6)],
    });
    round_trip(Instruction::GroupMemberDecorate {
        group: Id(9),
        targets: vec![(Id(5), 0), (Id(6), 1)],
    });
}

#[test]
fn round_trip_control_flow() {
    round_trip(Instruction::Label { result_id: ResultId(30) });
    round_trip(Instruction::Branch { target_label: Id(30) });
    round_trip(Instruction::BranchConditional {
        condition: ValueId(12),
        true_label: Id(30),
        false_label: Id(31),
        weights: vec![3, 1],
    });
    round_trip(Instruction::Switch {
        selector: ValueId(12),
        default: Id(30),
        targets: vec![(0, Id(31)), (7, Id(32))],
    });
    round_trip(Instruction::Phi {
        result_type: TypeId(2),
        result_id: ResultId(33),
        variables: vec![(ValueId(10), ValueId(30)), (ValueId(11), ValueId(31))],
    });
    round_trip(Instruction::ReturnValue { value: ValueId(10) });
}

#[test]
fn round_trip_image_operands() {
    let mut ops = ImageOperands::new();
    // canonical order must hold whatever order the flags are set in
    ops.set(desc::ImageOperands(desc::IMG_OP_SAMPLE), ValueId(40));
    ops.set(desc::ImageOperands(desc::IMG_OP_BIAS), ValueId(41));
    // bias (bit 0x01) must be emitted before sample (bit 0x40)
    assert_eq!(ops.values, vec![ValueId(41), ValueId(40)]);
    round_trip(Instruction::ImageSampleImplicitLod {
        result_type: TypeId(3),
        result_id: ResultId(42),
        sampled_image: ValueId(43),
        coordinate: ValueId(44),
        image_operands: ops,
    });
}

#[test]
fn image_operands_get_set_replace() {
    let mut ops = ImageOperands::new();
    let lod = desc::ImageOperands(desc::IMG_OP_LOD);
    assert_eq!(ops.get(lod), None);
    ops.set(lod, ValueId(7));
    assert_eq!(ops.get(lod), Some(ValueId(7)));
    ops.set(lod, ValueId(8));
    assert_eq!(ops.get(lod), Some(ValueId(8)));
    assert_eq!(ops.values.len(), 1);
}

#[test]
fn round_trip_unknown_opcode() {
    round_trip(Instruction::Unknown(999, vec![1, 2, 3]));
}

#[test]
fn unknown_opcode_is_not_an_error() {
    let raw = RawInstruction {
        opcode: 999,
        params: vec![5, 6],
    };
    match parse_raw_instruction(raw) {
        Ok(Instruction::Unknown(op, ws)) => {
            assert_eq!(op, 999);
            assert_eq!(ws, vec![5, 6]);
        },
        other => panic!("expected Unknown, got {:?}", other),
    }
}

#[test]
fn invalid_enum_word_is_an_error() {
    // OpTypePointer with an unknown storage-class code
    let raw = RawInstruction {
        opcode: 32,
        params: vec![8, 999, 2],
    };
    assert_eq!(
        parse_raw_instruction(raw),
        Err(ParseError::InvalidParamValue(999, ParamKind::StorageClass))
    );
}

#[test]
fn missing_operand_is_an_error() {
    // OpTypeVector missing its component count
    let raw = RawInstruction {
        opcode: 23,
        params: vec![3, 2],
    };
    assert_eq!(parse_raw_instruction(raw), Err(ParseError::InstructionTooShort));
}

#[test]
fn defines_and_uses() {
    let inst = Instruction::Function {
        result_type: TypeId(1),
        result_id: ResultId(3),
        function_control: desc::FunctionControl(0),
        function_type: TypeId(2),
    };
    assert_eq!(inst.defines_value(), Some(ValueId(3)));
    assert_eq!(inst.defines_type(), None);
    assert_eq!(inst.type_id_of(), Some(TypeId(1)));
    assert_eq!(inst.uses(), vec![Id(1), Id(2)]);

    let ty = Instruction::TypeFunction {
        result_type: TypeId(2),
        return_ty: TypeId(1),
        params: vec![],
    };
    assert_eq!(ty.defines_value(), None);
    assert_eq!(ty.defines_type(), Some(TypeId(2)));
    assert_eq!(ty.uses(), vec![Id(1)]);
}

#[test]
fn canonical_words_reencode_byte_identically() {
    // OpName %7 "ab" in canonical form: decode then re-encode must give
    // the exact same words back.
    let words = vec![(3u32 << 16) | 5, 7, 0x0000_6261];
    let raw = RawInstruction {
        opcode: 5,
        params: words[1..].to_vec(),
    };
    let inst = parse_raw_instruction(raw).expect("decode failed");
    assert_eq!(to_bytecode(&inst), words);

    // OpVariable without initializer: the absent optional id stays absent
    let words = vec![(4u32 << 16) | 59, 8, 20, 7];
    let raw = RawInstruction {
        opcode: 59,
        params: words[1..].to_vec(),
    };
    let inst = parse_raw_instruction(raw).expect("decode failed");
    assert_eq!(to_bytecode(&inst), words);
}

#[test]
fn ty_queries() {
    let p = Ty::Pointer(desc::StorageClass::Uniform, TypeId(3));
    assert!(p.is_pointer());
    assert!(!p.is_struct());
    assert_eq!(p.pointee_ty(), Some(TypeId(3)));
    let s = Ty::Struct(vec![TypeId(1)]);
    assert!(s.is_struct());
    assert_eq!(s.pointee_ty(), None);
}

#[test]
fn image_operands_keep_unknown_flag_bits() {
    // a flag word with a bit outside the known eight passes through
    // decode and re-encode untouched
    let words = vec![(6u32 << 16) | 87, 3, 42, 43, 44, 0x10000];
    let raw = RawInstruction {
        opcode: 87,
        params: words[1..].to_vec(),
    };
    let inst = parse_raw_instruction(raw).expect("decode failed");
    match &inst {
        Instruction::ImageSampleImplicitLod { image_operands, .. } => {
            assert_eq!(image_operands.set.0, 0x10000);
            assert_eq!(image_operands.values, Vec::<ValueId>::new());
        },
        other => panic!("unexpected {:?}", other),
    }
    assert_eq!(to_bytecode(&inst), words);
}
