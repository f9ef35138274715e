//! The string codec's byte-level shape.

use spirv_utils::instruction::Instruction;
use spirv_utils::desc::Id;
use spirv_utils::parse::{parse_raw_instruction, RawInstruction};
use spirv_utils::write::StringBuilder;

#[test]
fn empty_string_is_one_zero_word() {
    assert_eq!(StringBuilder::to_words(&Vec::new()), vec![0u32]);
}

#[test]
fn exact_multiple_of_four_gains_a_word() {
    // four bytes plus the mandatory terminator: two words
    let words = StringBuilder::to_words(&b"abcd".to_vec());
    assert_eq!(words, vec![0x6463_6261, 0]);
}

#[test]
fn short_strings_are_zero_padded() {
    assert_eq!(StringBuilder::to_words(&b"a".to_vec()), vec![0x0000_0061]);
    assert_eq!(StringBuilder::to_words(&b"ab".to_vec()), vec![0x0000_6261]);
    assert_eq!(StringBuilder::to_words(&b"abc".to_vec()), vec![0x0063_6261]);
}

#[test]
fn decode_stops_at_zero_byte() {
    // OpName %7 with "ab" terminated inside a word holding junk afterwards,
    // and a trailing word that the string must not swallow... the junk
    // bytes after the terminator are padding and are discarded.
    let raw = RawInstruction {
        opcode: 5,
        params: vec![7, 0xFF00_6261],
    };
    match parse_raw_instruction(raw) {
        Ok(Instruction::Name { target, name }) => {
            assert_eq!(target, Id(7));
            assert_eq!(name, b"ab".to_vec());
        },
        other => panic!("unexpected {:?}", other),
    }
}

#[test]
fn decode_consumes_words_until_terminator() {
    // "abcdef" spans two words; the terminator sits in the second
    let raw = RawInstruction {
        opcode: 5,
        params: vec![7, 0x6463_6261, 0x0000_6665],
    };
    match parse_raw_instruction(raw) {
        Ok(Instruction::Name { name, .. }) => assert_eq!(name, b"abcdef".to_vec()),
        other => panic!("unexpected {:?}", other),
    }
}
