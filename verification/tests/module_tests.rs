//! Reader, loader, and indexer behaviour on whole modules.

use spirv_utils::decoration::DecorationMapBuilder;
use spirv_utils::desc;
use spirv_utils::desc::{Id, TypeId, ValueId};
use spirv_utils::instruction::{Decoration, Instruction};
use spirv_utils::module::{ConstantValue, Module, Ty};
use spirv_utils::parse::ParseError;
use spirv_utils::read::Reader;
use spirv_utils::RawModule;

const MAGIC: u32 = 0x07230203;

fn words_to_bytes(words: &[u32]) -> Vec<u8> {
    let mut out = Vec::new();
    for w in words {
        out.push((w & 0xFF) as u8);
        out.push(((w >> 8) & 0xFF) as u8);
        out.push(((w >> 16) & 0xFF) as u8);
        out.push(((w >> 24) & 0xFF) as u8);
    }
    out
}

fn words_to_bytes_swapped(words: &[u32]) -> Vec<u8> {
    let mut out = Vec::new();
    for w in words {
        out.push(((w >> 24) & 0xFF) as u8);
        out.push(((w >> 16) & 0xFF) as u8);
        out.push(((w >> 8) & 0xFF) as u8);
        out.push((w & 0xFF) as u8);
    }
    out
}

fn header(id_bound: u32) -> Vec<u32> {
    vec![MAGIC, 0x0001_0000, 0, id_bound, 0]
}

fn inst(opcode: u16, params: &[u32]) -> Vec<u32> {
    let mut out = vec![(((params.len() + 1) as u32) << 16) | opcode as u32];
    out.extend_from_slice(params);
    out
}

/// Header with id_bound = 4, then OpTypeVoid %1, OpTypeFunction %2 %1,
/// OpFunction %1 none %3 %2.
fn minimal_module() -> Vec<u32> {
    let mut words = header(4);
    words.extend(inst(19, &[1]));
    words.extend(inst(33, &[2, 1]));
    words.extend(inst(54, &[1, 3, 0, 2]));
    words
}

#[test]
fn end_to_end_def_and_use_maps() {
    let m = RawModule::read_module(words_to_bytes(&minimal_module())).expect("load failed");
    assert_eq!(m.instructions().len(), 3);
    assert_eq!(m.def_index(Id(1)), Some(0));
    assert_eq!(m.def_index(Id(2)), Some(1));
    assert_eq!(m.def_index(Id(3)), Some(2));
    assert_eq!(m.def_index(Id(0)), None);
    // both the function type and the function reference type id 1
    assert_eq!(m.use_indices(Id(1)).map(|v| v.clone()), Some(vec![1, 2]));
    assert_eq!(m.use_indices(Id(2)).map(|v| v.clone()), Some(vec![2]));
    assert_eq!(m.use_indices(Id(3)).map(|v| v.clone()), Some(vec![]));
    match m.def(Id(1)) {
        Some(Instruction::TypeVoid { result_type }) => assert_eq!(*result_type, TypeId(1)),
        other => panic!("unexpected definition {:?}", other),
    }
}

#[test]
fn endianness_byte_swapped_module_decodes_identically() {
    let words = minimal_module();
    let native = RawModule::read_module(words_to_bytes(&words)).expect("native load");
    let swapped = RawModule::read_module(words_to_bytes_swapped(&words)).expect("swapped load");
    assert_eq!(native.instructions(), swapped.instructions());
    assert_eq!(native.def_map, swapped.def_map);
    assert_eq!(native.use_map, swapped.use_map);
}

#[test]
fn invalid_magic_number_is_fatal() {
    let bytes = words_to_bytes(&[0xDEADBEEF, 0, 0, 0, 0]);
    assert_eq!(
        RawModule::read_module(bytes).err(),
        Some(ParseError::InvalidMagicNumber(0xDEADBEEF))
    );
}

#[test]
fn id_at_or_above_bound_is_rejected() {
    // id_bound = 2, but OpTypeVoid defines %2
    let mut words = header(2);
    words.extend(inst(19, &[2]));
    assert_eq!(
        RawModule::read_module(words_to_bytes(&words)).err(),
        Some(ParseError::IdOutOfRange(Id(2)))
    );
    // a reference at the bound is also rejected
    let mut words = header(2);
    words.extend(inst(33, &[1, 5]));
    assert_eq!(
        RawModule::read_module(words_to_bytes(&words)).err(),
        Some(ParseError::IdOutOfRange(Id(5)))
    );
}

#[test]
fn duplicate_definition_is_rejected() {
    let mut words = header(8);
    words.extend(inst(19, &[5]));
    words.extend(inst(20, &[5]));
    assert_eq!(
        RawModule::read_module(words_to_bytes(&words)).err(),
        Some(ParseError::DuplicateId(Id(5), 0))
    );
}

#[test]
fn truncated_instruction_is_fatal() {
    let mut words = header(4);
    // claims three words but only the header word follows
    words.push((3u32 << 16) | 19);
    assert_eq!(
        RawModule::read_module(words_to_bytes(&words)).err(),
        Some(ParseError::InstructionTooShort)
    );
}

#[test]
fn truncated_word_is_fatal() {
    let mut bytes = words_to_bytes(&minimal_module());
    bytes.pop();
    assert_eq!(
        RawModule::read_module(bytes).err(),
        Some(ParseError::InstructionTooShort)
    );
}

fn module_from_words(words: &[u32]) -> Result<Module, ParseError> {
    let mut rdr = Reader::new(words_to_bytes(words))?;
    Module::from_reader(&mut rdr)
}

#[test]
fn side_tables_are_built() {
    let mut words = header(16);
    words.extend(inst(17, &[1]));  // OpCapability Shader
    words.extend(inst(5, &[3, 0x006e_6975]));  // OpName %3 "uin" -- 3 bytes + NUL
    words.extend(inst(19, &[1]));  // OpTypeVoid %1
    words.extend(inst(21, &[2, 32, 0]));  // OpTypeInt %2 32 unsigned
    words.extend(inst(43, &[2, 3, 7]));  // OpConstant %2 %3 = 7
    words.extend(inst(59, &[2, 4, 6]));  // OpVariable %2 %4 Private
    let m = module_from_words(&words).expect("load failed");
    assert_eq!(m.capabilities, vec![desc::Capability::Shader]);
    assert_eq!(m.types().len(), 2);
    assert_eq!(m.ty(TypeId(1)).map(|t| t.ty.clone()), Some(Ty::Void));
    assert_eq!(m.ty(TypeId(2)).map(|t| t.ty.clone()), Some(Ty::UInt(32)));
    let c = &m.constants()[0];
    assert_eq!(c.id, ValueId(3));
    assert_eq!(c.value, ConstantValue::UInt(7));
    let v = m.variable(ValueId(4)).expect("variable missing");
    assert_eq!(v.ty, TypeId(2));
    assert!(v.is_private());
    assert_eq!(m.name(Id(3)), Some(&b"uin".to_vec()));
}

#[test]
fn spec_constant_needs_prior_spec_id_decoration() {
    // SpecConstantTrue before any SpecId decoration: fatal
    let mut words = header(8);
    words.extend(inst(20, &[1]));  // OpTypeBool %1
    words.extend(inst(48, &[1, 5]));  // OpSpecConstantTrue %1 %5
    assert_eq!(
        module_from_words(&words).err(),
        Some(ParseError::MissingSpecId(Id(5)))
    );

    // with the decoration first it loads, and the spec id is recorded
    let mut words = header(8);
    words.extend(inst(20, &[1]));
    words.extend(inst(71, &[5, 1, 9]));  // OpDecorate %5 SpecId 9
    words.extend(inst(48, &[1, 5]));
    let m = module_from_words(&words).expect("load failed");
    assert_eq!(m.constants()[0].spec_id, Some(9));
    assert_eq!(m.constants()[0].value, ConstantValue::Bool(true));
}

#[test]
fn constant_needs_defined_type() {
    let mut words = header(8);
    words.extend(inst(43, &[2, 3, 7]));  // OpConstant with undefined type %2
    assert_eq!(
        module_from_words(&words).err(),
        Some(ParseError::MissingConstantType(TypeId(2)))
    );
}

#[test]
fn last_type_definition_wins() {
    let mut words = header(8);
    words.extend(inst(19, &[1]));  // OpTypeVoid %1
    words.extend(inst(20, &[1]));  // OpTypeBool %1 shadows it
    let m = module_from_words(&words).expect("load failed");
    assert_eq!(m.types().len(), 1);
    assert_eq!(m.ty(TypeId(1)).map(|t| t.ty.clone()), Some(Ty::Bool));
}

#[test]
fn decoration_groups_are_kept_apart() {
    let mut words = header(16);
    words.extend(inst(71, &[5, 0]));  // OpDecorate %5 RelaxedPrecision
    words.extend(inst(73, &[9]));  // OpDecorationGroup %9
    words.extend(inst(71, &[9, 2]));  // OpDecorate %9 Block -> group bucket
    let m = module_from_words(&words).expect("load failed");
    assert_eq!(
        m.decorations(Id(5)),
        Some(&vec![Decoration::RelaxedPrecision])
    );
    // the group's decorations are not in the per-id table
    assert_eq!(m.decorations(Id(9)), None);
}

#[test]
fn member_names_and_decorations_accumulate() {
    let mut words = header(16);
    // OpMemberName %5 0 "a", OpMemberName %5 1 "b"
    words.extend(inst(6, &[5, 0, 0x0000_0061]));
    words.extend(inst(6, &[5, 1, 0x0000_0062]));
    // OpMemberDecorate %5 0 Offset 0, OpMemberDecorate %5 0 ColMajor
    words.extend(inst(72, &[5, 0, 35, 0]));
    words.extend(inst(72, &[5, 0, 5]));
    let mut rdr = Reader::new(words_to_bytes(&words)).expect("reader");
    let m = Module::from_reader(&mut rdr).expect("load failed");
    assert_eq!(m.member_name(TypeId(5), 0), Some(&b"a".to_vec()));
    assert_eq!(m.member_name(TypeId(5), 1), Some(&b"b".to_vec()));
    assert_eq!(m.member_name(TypeId(5), 2), None);
    let decs = m
        .decorations
        .get_member_decorations(Id(5), 0)
        .expect("member decorations missing");
    assert_eq!(decs, &vec![Decoration::Offset(0), Decoration::ColMajor]);
}

#[test]
fn header_fields_are_unpacked() {
    let words = vec![MAGIC, 0x0001_0300, 42, 11, 0];
    let mut rdr = Reader::new(words_to_bytes(&words)).expect("reader");
    let h = rdr.read_header().expect("header");
    assert_eq!(h.version, (1, 3));
    assert_eq!(h.generator_id, 42);
    assert_eq!(h.id_bound, 11);
    assert_eq!(rdr.read_instruction().expect("eof"), None);
}

#[test]
fn entry_points_are_recorded() {
    let mut words = header(16);
    // OpEntryPoint Fragment %4 "main" %9
    words.extend(inst(15, &[4, 4, 0x6e69_616d, 0, 9]));
    let m = module_from_words(&words).expect("load failed");
    assert_eq!(m.entry_points().len(), 1);
    let ep = &m.entry_points()[0];
    assert_eq!(ep.execution_model, desc::ExecutionModel::Fragment);
    assert_eq!(ep.func, ValueId(4));
    assert_eq!(ep.name, b"main".to_vec());
    assert_eq!(ep.interface, vec![ValueId(9)]);
}

#[test]
fn skip_header_is_idempotent() {
    let words = minimal_module();
    let mut rdr = Reader::new(words_to_bytes(&words)).expect("reader");
    rdr.skip_header().expect("first skip");
    rdr.skip_header().expect("second skip");
    // the instruction stream is untouched by the second call
    let first = rdr.read_instruction().expect("read").expect("instruction");
    assert_eq!(first.opcode, 19);
    assert_eq!(first.params, vec![1]);
}

#[test]
fn builder_member_decorations_accumulate() {
    let mut b = DecorationMapBuilder::new();
    assert!(b.get_member_decorations(Id(5), 0).is_none());
    b.insert_member_decoration(TypeId(5), 0, Decoration::Offset(0));
    b.insert_member_decoration(TypeId(5), 1, Decoration::Offset(16));
    b.insert_member_decoration(TypeId(5), 0, Decoration::ColMajor);
    assert_eq!(
        b.get_member_decorations(Id(5), 0),
        Some(&vec![Decoration::Offset(0), Decoration::ColMajor])
    );
    assert_eq!(
        b.get_member_decorations(Id(5), 1),
        Some(&vec![Decoration::Offset(16)])
    );
    assert!(b.get_member_decorations(Id(5), 2).is_none());
    assert!(b.get_member_decorations(Id(6), 0).is_none());
}
