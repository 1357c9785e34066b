use sxscript::error::DecodeError;
use sxscript::header::decode_header;
use sxscript::instruction::Instruction;
use sxscript::module::decode_module;
use sxscript::records::{
    DebugInfo, Function, LabelLookup, StaticVariable, SwitchTable, Unk, Variable, VariableLookup,
};
use sxscript::text::read_cstr;

/// Lay out the 26 header fields little-endian, in declared order.
fn header_bytes(fields: [u32; 26]) -> Vec<u8> {
    let mut out = Vec::new();
    for f in fields {
        out.extend_from_slice(&f.to_le_bytes());
    }
    out
}

/// A header whose count fields are given and whose other fields are
/// distinctive filler values.
fn header_with_counts(counts: [u32; 10]) -> [u32; 26] {
    let mut fields = [0u32; 26];
    fields[0] = 0x1234_5678; // magic
    fields[1] = 3; // version
    fields[2] = 1; // status
    fields[3] = 999; // size
    fields[4] = 0x40; // compiled_file_name_offset
    fields[5] = 0x50; // source_file_name_offset
    // opcode, debug_info, variable, static, unk, function, string,
    // variable_lookup, label_lookup, switch_table counts:
    fields[6..16].copy_from_slice(&counts);
    for k in 16..26 {
        fields[k] = 0x1000 + k as u32;
    }
    fields
}

#[test]
fn header_fields_decode_in_declared_order() {
    let mut fields = [0u32; 26];
    for (k, f) in fields.iter_mut().enumerate() {
        *f = 100 + 7 * k as u32;
    }
    let bytes = header_bytes(fields);
    let h = decode_header(&bytes).unwrap();
    assert_eq!(h.magic, 100);
    assert_eq!(h.version, 107);
    assert_eq!(h.status, 114);
    assert_eq!(h.size, 121);
    assert_eq!(h.compiled_file_name_offset, 128);
    assert_eq!(h.source_file_name_offset, 135);
    assert_eq!(h.opcode_count, 142);
    assert_eq!(h.debug_info_count, 149);
    assert_eq!(h.variable_count, 156);
    assert_eq!(h.static_count, 163);
    assert_eq!(h.unk_count, 170);
    assert_eq!(h.function_count, 177);
    assert_eq!(h.string_count, 184);
    assert_eq!(h.variable_lookup_count, 191);
    assert_eq!(h.label_lookup_count, 198);
    assert_eq!(h.switch_table_count, 205);
    assert_eq!(h.opcodes_offset, 212);
    assert_eq!(h.debug_infos_offset, 219);
    assert_eq!(h.variables_offset, 226);
    assert_eq!(h.statics_offset, 233);
    assert_eq!(h.unks_offset, 240);
    assert_eq!(h.functions_offset, 247);
    assert_eq!(h.variable_lookup_offset, 254);
    assert_eq!(h.label_lookup_offset, 261);
    assert_eq!(h.switch_tables_offset, 268);
    assert_eq!(h.string_table_offset, 275);
}

#[test]
fn header_needs_104_bytes() {
    let bytes = vec![0u8; 103];
    assert_eq!(
        decode_header(&bytes),
        Err(DecodeError::Truncated { offset: 0 })
    );
    let bytes = vec![0u8; 104];
    assert!(decode_header(&bytes).is_ok());
}

#[test]
fn end_to_end_three_word_stream() {
    // opcode_count = 3; the six stream bytes 01 00 2A 00 00 00 hold Pop
    // (no operand) and then opcode 0x2A with 16-bit operand 0.
    let mut bytes = header_bytes(header_with_counts([3, 0, 0, 0, 0, 0, 0, 0, 0, 0]));
    bytes.extend_from_slice(&[0x01, 0x00, 0x2A, 0x00, 0x00, 0x00]);
    let m = decode_module(&bytes).unwrap();
    assert_eq!(m.header.opcode_count, 3);
    assert_eq!(
        m.instructions,
        vec![Instruction::Pop, Instruction::BranchFalseNoPop(0)]
    );
    assert_eq!(m.debug_infos, Vec::<DebugInfo>::new());
    assert_eq!(m.string_offsets, Vec::<u32>::new());
    assert_eq!(bytes.len(), 110);
}

#[test]
fn module_with_every_section() {
    let mut bytes = header_bytes(header_with_counts([1, 1, 1, 1, 1, 1, 2, 1, 1, 1]));
    bytes.extend_from_slice(&[0x08, 0x2A]); // stream: PushByte(42)
    bytes.extend_from_slice(&5u32.to_le_bytes()); // debug info
    bytes.extend_from_slice(&6u32.to_le_bytes());
    bytes.extend_from_slice(&7u32.to_le_bytes()); // variable
    bytes.extend_from_slice(&8u32.to_le_bytes());
    bytes.extend_from_slice(&(-2i16).to_le_bytes());
    bytes.extend_from_slice(&9u32.to_le_bytes()); // static variable
    for w in [1u16, 2, 3, 4] {
        bytes.extend_from_slice(&w.to_le_bytes());
    }
    for d in [10u32, 11, 12] {
        // unknown record
        bytes.extend_from_slice(&d.to_le_bytes());
    }
    for w in [5u16, 6] {
        bytes.extend_from_slice(&w.to_le_bytes());
    }
    bytes.extend_from_slice(&13u32.to_le_bytes()); // function
    bytes.extend_from_slice(&14u32.to_le_bytes());
    bytes.extend_from_slice(&15u32.to_le_bytes());
    bytes.extend_from_slice(&(-3i32).to_le_bytes());
    bytes.extend_from_slice(&16u32.to_le_bytes()); // variable lookup
    bytes.extend_from_slice(&17u32.to_le_bytes());
    bytes.extend_from_slice(&18u32.to_le_bytes()); // label lookup
    bytes.extend_from_slice(&19u32.to_le_bytes());
    bytes.extend_from_slice(&20u32.to_le_bytes());
    bytes.extend_from_slice(&21u32.to_le_bytes()); // switch table
    bytes.extend_from_slice(&22u32.to_le_bytes());
    bytes.extend_from_slice(&23u32.to_le_bytes()); // string offsets
    bytes.extend_from_slice(&24u32.to_le_bytes());

    let m = decode_module(&bytes).unwrap();
    assert_eq!(m.instructions, vec![Instruction::PushByte(42)]);
    assert_eq!(
        m.debug_infos,
        vec![DebugInfo { file_name_offset: 5, line_offset: 6 }]
    );
    assert_eq!(
        m.variables,
        vec![Variable { name_offset: 7, variable_type: 8, size: -2 }]
    );
    assert_eq!(
        m.static_variables,
        vec![StaticVariable { name_offset: 9, unk: [1, 2, 3, 4] }]
    );
    assert_eq!(m.unks, vec![Unk { unk: [10, 11, 12], unk2: [5, 6] }]);
    assert_eq!(
        m.functions,
        vec![Function { name_offset: 13, name_hash: 14, address: 15, stack_delta: -3 }]
    );
    assert_eq!(
        m.variable_lookups,
        vec![VariableLookup { hash: 16, variable_index: 17 }]
    );
    assert_eq!(
        m.label_lookups,
        vec![LabelLookup { hash: 18, name_offset: 19, program_counter: 20 }]
    );
    assert_eq!(
        m.switch_tables,
        vec![SwitchTable { value: 21, program_counter: 22 }]
    );
    assert_eq!(m.string_offsets, vec![23, 24]);
}

#[test]
fn missing_record_section_is_truncated_at_its_offset() {
    // One debug-info record is declared but the file ends right after the
    // two-word instruction stream.
    let mut bytes = header_bytes(header_with_counts([1, 1, 0, 0, 0, 0, 0, 0, 0, 0]));
    bytes.extend_from_slice(&[0x01, 0x00]);
    assert_eq!(
        decode_module(&bytes),
        Err(DecodeError::Truncated { offset: 106 })
    );
}

#[test]
fn stream_error_surfaces_from_module_decode() {
    let mut bytes = header_bytes(header_with_counts([1, 0, 0, 0, 0, 0, 0, 0, 0, 0]));
    bytes.extend_from_slice(&[0x99, 0x00]);
    assert_eq!(
        decode_module(&bytes),
        Err(DecodeError::MalformedStream { offset: 104 })
    );
}

#[test]
fn partial_record_is_truncated_at_record_start() {
    // Two switch-table records declared, bytes for one and a half.
    let mut bytes = header_bytes(header_with_counts([0, 0, 0, 0, 0, 0, 0, 0, 0, 2]));
    bytes.extend_from_slice(&1u32.to_le_bytes());
    bytes.extend_from_slice(&2u32.to_le_bytes());
    bytes.extend_from_slice(&3u32.to_le_bytes());
    assert_eq!(
        decode_module(&bytes),
        Err(DecodeError::Truncated { offset: 112 })
    );
}

#[test]
fn read_cstr_stops_at_nul() {
    assert_eq!(read_cstr(&[0x61, 0x62, 0x63, 0x00, 0x64]), "abc");
    assert_eq!(read_cstr(&[0x61, 0x62, 0x63]), "abc");
    assert_eq!(read_cstr(&[0x00, 0x61]), "");
    assert_eq!(read_cstr(&[]), "");
}
