use sxscript::error::DecodeError;
use sxscript::instruction::Instruction;
use sxscript::stream::decode_instructions;

#[test]
fn single_no_operand_word() {
    // One word: opcode 0x01 (Pop), data byte 0 ignored.
    let bytes = [0x01u8, 0x00];
    let (ins, end) = decode_instructions(&bytes, 0, 1).unwrap();
    assert_eq!(ins, vec![Instruction::Pop]);
    assert_eq!(end, 2);
}

#[test]
fn data_byte_ignored_for_no_operand_ops() {
    // A no-operand opcode carries a nonzero high byte: it decodes the same.
    let bytes = [0x01u8, 0x7F];
    let (ins, end) = decode_instructions(&bytes, 0, 1).unwrap();
    assert_eq!(ins, vec![Instruction::Pop]);
    assert_eq!(end, 2);
}

#[test]
fn high_byte_immediate_round_trip() {
    // The word (n << 8) | opcode, little-endian [opcode, n], carries n.
    let bytes = [0x08u8, 0xAB];
    let (ins, _) = decode_instructions(&bytes, 0, 1).unwrap();
    assert_eq!(ins, vec![Instruction::PushByte(0xAB)]);

    let bytes = [0x09u8, 0xFF];
    let (ins, _) = decode_instructions(&bytes, 0, 1).unwrap();
    assert_eq!(ins, vec![Instruction::PushByteAsFloat(0xFF)]);

    let bytes = [0x09u8, 0x00];
    let (ins, _) = decode_instructions(&bytes, 0, 1).unwrap();
    assert_eq!(ins, vec![Instruction::PushByteAsFloat(0x00)]);
}

#[test]
fn nop_ignores_its_data_byte() {
    // Opcode 0x00 takes no operand, so the word 0x0100 is a plain Nop
    // whose high byte 1 carries nothing.
    let bytes = [0x00u8, 0x01];
    let (ins, end) = decode_instructions(&bytes, 0, 1).unwrap();
    assert_eq!(ins, vec![Instruction::Nop]);
    assert_eq!(end, 2);
}

#[test]
fn word_operand_little_endian() {
    let bytes = [0x03u8, 0x00, 0x34, 0x12];
    let (ins, end) = decode_instructions(&bytes, 0, 2).unwrap();
    assert_eq!(ins, vec![Instruction::PushVar(0x1234)]);
    assert_eq!(end, 4);
}

#[test]
fn high_byte_immediate_with_word_operand() {
    // PushMultipleVars: count 2 in the opcode word's high byte, index 7 in
    // the following word.
    let bytes = [0x05u8, 0x02, 0x07, 0x00];
    let (ins, _) = decode_instructions(&bytes, 0, 2).unwrap();
    assert_eq!(ins, vec![Instruction::PushMultipleVars(2, 7)]);

    let bytes = [0x0Du8, 0x03, 0x09, 0x00];
    let (ins, _) = decode_instructions(&bytes, 0, 2).unwrap();
    assert_eq!(ins, vec![Instruction::PopAndStoreMultiple(3, 9)]);
}

#[test]
fn push_int_all_ones_is_minus_one() {
    let bytes = [0x06u8, 0x00, 0xFF, 0xFF, 0xFF, 0xFF];
    let (ins, _) = decode_instructions(&bytes, 0, 3).unwrap();
    assert_eq!(ins, vec![Instruction::PushInt(-1)]);
}

#[test]
fn push_int_little_endian_order() {
    let bytes = [0x06u8, 0x00, 0x78, 0x56, 0x34, 0x12];
    let (ins, _) = decode_instructions(&bytes, 0, 3).unwrap();
    assert_eq!(ins, vec![Instruction::PushInt(0x12345678)]);
}

#[test]
fn push_float_bit_pattern_one() {
    // IEEE-754 bytes 00 00 80 3F are 1.0; the raw pattern is preserved.
    let bytes = [0x07u8, 0x00, 0x00, 0x00, 0x80, 0x3F];
    let (ins, _) = decode_instructions(&bytes, 0, 3).unwrap();
    assert_eq!(ins, vec![Instruction::PushFloat(0x3F80_0000)]);
    match ins[0] {
        Instruction::PushFloat(bits) => assert_eq!(f32::from_bits(bits), 1.0f32),
        _ => panic!("expected PushFloat"),
    }
}

#[test]
fn push_float_nan_bits_unchanged() {
    let nan_bits: u32 = 0x7FC0_0001;
    let b = nan_bits.to_le_bytes();
    let bytes = [0x07u8, 0x00, b[0], b[1], b[2], b[3]];
    let (ins, _) = decode_instructions(&bytes, 0, 3).unwrap();
    assert_eq!(ins, vec![Instruction::PushFloat(nan_bits)]);
    match ins[0] {
        Instruction::PushFloat(bits) => {
            assert!(f32::from_bits(bits).is_nan());
            assert_eq!(bits, nan_bits);
        }
        _ => panic!("expected PushFloat"),
    }
}

#[test]
fn word_budget_exact_and_count_differs() {
    // Three words of budget hold a single 6-byte instruction: the decoded
    // count (1) differs from opcode_count (3), while exactly
    // opcode_count * 2 bytes are consumed.
    let bytes = [0x06u8, 0x00, 0x2A, 0x00, 0x00, 0x00, 0xEE, 0xEE];
    let (ins, end) = decode_instructions(&bytes, 0, 3).unwrap();
    assert_eq!(ins, vec![Instruction::PushInt(42)]);
    assert_eq!(end, 6);
}

#[test]
fn decode_at_nonzero_start() {
    let bytes = [0xEEu8, 0xEE, 0x01, 0x00];
    let (ins, end) = decode_instructions(&bytes, 2, 1).unwrap();
    assert_eq!(ins, vec![Instruction::Pop]);
    assert_eq!(end, 4);
}

#[test]
fn unknown_opcode_rejected() {
    // 0x99 has no assigned shape: the whole decode fails at its offset, it
    // is not skipped or guessed.
    let bytes = [0x01u8, 0x00, 0x99, 0x00];
    let r = decode_instructions(&bytes, 0, 2);
    assert_eq!(r, Err(DecodeError::MalformedStream { offset: 2 }));
}

#[test]
fn operand_crossing_budget_rejected() {
    // PushInt declares a 32-bit operand but only one word of budget
    // remains; the bytes that follow belong to the next section and must
    // not be read into the operand.
    let bytes = [0x06u8, 0x00, 0x11, 0x22, 0x33, 0x44, 0x55, 0x66];
    let r = decode_instructions(&bytes, 0, 1);
    assert_eq!(r, Err(DecodeError::MalformedStream { offset: 0 }));
}

#[test]
fn word_operand_crossing_budget_rejected() {
    let bytes = [0x01u8, 0x00, 0x03, 0x00, 0x07, 0x00];
    let r = decode_instructions(&bytes, 0, 2);
    assert_eq!(r, Err(DecodeError::MalformedStream { offset: 2 }));
}

#[test]
fn buffer_shorter_than_budget_is_truncated() {
    let bytes = [0x01u8, 0x00];
    let r = decode_instructions(&bytes, 0, 2);
    assert_eq!(r, Err(DecodeError::Truncated { offset: 2 }));
}

#[test]
fn operand_bytes_missing_is_truncated() {
    // The opcode word is there and the budget allows the operand, but the
    // buffer ends before it.
    let bytes = [0x03u8, 0x00];
    let r = decode_instructions(&bytes, 0, 2);
    assert_eq!(r, Err(DecodeError::Truncated { offset: 2 }));
}

#[test]
fn empty_budget_decodes_to_nothing() {
    let bytes = [0xAAu8, 0xBB];
    let (ins, end) = decode_instructions(&bytes, 0, 0).unwrap();
    assert_eq!(ins, Vec::<Instruction>::new());
    assert_eq!(end, 0);
}

#[test]
fn one_word_per_shape_class_sequence() {
    // One instruction of every shape class back to back: no-operand,
    // high-byte immediate, word operand, high-byte immediate plus word,
    // dword operand.
    let bytes = [
        0x02u8, 0x00, // Dup
        0x08, 0x05, // PushByte(5)
        0x2B, 0x00, 0x10, 0x00, // Jump(16)
        0x05, 0x01, 0x02, 0x00, // PushMultipleVars(1, 2)
        0x06, 0x00, 0x00, 0x01, 0x00, 0x00, // PushInt(256)
    ];
    let (ins, end) = decode_instructions(&bytes, 0, 9).unwrap();
    assert_eq!(
        ins,
        vec![
            Instruction::Dup,
            Instruction::PushByte(5),
            Instruction::Jump(16),
            Instruction::PushMultipleVars(1, 2),
            Instruction::PushInt(256),
        ]
    );
    assert_eq!(end, 18);
}
