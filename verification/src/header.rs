use vstd::prelude::*;

use crate::bytes::{le32_at, read_u32_at};
use crate::error::DecodeError;

verus! {

/// The number of bytes the fixed header occupies: 26 32-bit fields.
pub const HEADER_SIZE: usize = 104;

/// The fixed-layout file header: exactly 26 unsigned little-endian 32-bit
/// fields, in this order, with no padding. `opcode_count` is a count of
/// 16-bit words, not of instructions: the instruction stream occupies
/// exactly `opcode_count * 2` bytes immediately after the header. The nine
/// `*_offset` fields declare absolute byte positions of the sections, but a
/// conforming file lays its sections out contiguously in the order of the
/// count fields, so the decoder never seeks to them; they are kept for
/// callers that wish to cross-validate.
#[derive(Clone, Copy, Debug, PartialEq, Eq)]
pub struct Header {
    pub magic: u32,
    pub version: u32,
    pub status: u32,
    pub size: u32,
    pub compiled_file_name_offset: u32,
    pub source_file_name_offset: u32,
    pub opcode_count: u32,
    pub debug_info_count: u32,
    pub variable_count: u32,
    pub static_count: u32,
    pub unk_count: u32,
    pub function_count: u32,
    pub string_count: u32,
    pub variable_lookup_count: u32,
    pub label_lookup_count: u32,
    pub switch_table_count: u32,
    pub opcodes_offset: u32,
    pub debug_infos_offset: u32,
    pub variables_offset: u32,
    pub statics_offset: u32,
    pub unks_offset: u32,
    pub functions_offset: u32,
    pub variable_lookup_offset: u32,
    pub label_lookup_offset: u32,
    pub switch_tables_offset: u32,
    pub string_table_offset: u32,
}

/// The header encoded in the first 104 bytes of `s`.
pub open spec fn spec_header(s: Seq<u8>) -> Header {
    Header {
        magic: le32_at(s, 0) as u32,
        version: le32_at(s, 4) as u32,
        status: le32_at(s, 8) as u32,
        size: le32_at(s, 12) as u32,
        compiled_file_name_offset: le32_at(s, 16) as u32,
        source_file_name_offset: le32_at(s, 20) as u32,
        opcode_count: le32_at(s, 24) as u32,
        debug_info_count: le32_at(s, 28) as u32,
        variable_count: le32_at(s, 32) as u32,
        static_count: le32_at(s, 36) as u32,
        unk_count: le32_at(s, 40) as u32,
        function_count: le32_at(s, 44) as u32,
        string_count: le32_at(s, 48) as u32,
        variable_lookup_count: le32_at(s, 52) as u32,
        label_lookup_count: le32_at(s, 56) as u32,
        switch_table_count: le32_at(s, 60) as u32,
        opcodes_offset: le32_at(s, 64) as u32,
        debug_infos_offset: le32_at(s, 68) as u32,
        variables_offset: le32_at(s, 72) as u32,
        statics_offset: le32_at(s, 76) as u32,
        unks_offset: le32_at(s, 80) as u32,
        functions_offset: le32_at(s, 84) as u32,
        variable_lookup_offset: le32_at(s, 88) as u32,
        label_lookup_offset: le32_at(s, 92) as u32,
        switch_tables_offset: le32_at(s, 96) as u32,
        string_table_offset: le32_at(s, 100) as u32,
    }
}

/// Read the 26 header fields from the start of `bytes` in their declared
/// order, consuming exactly 104 bytes. No field is validated against a known
/// constant; `magic` and `version` are exposed for caller-side validation.
/// Fails with `Truncated` at offset 0 when fewer than 104 bytes are given.
pub fn decode_header(bytes: &[u8]) -> (r: Result<Header, DecodeError>)
    ensures
        bytes@.len() >= HEADER_SIZE ==> r == Ok::<Header, DecodeError>(spec_header(bytes@)),
        bytes@.len() < HEADER_SIZE ==> r == Err::<Header, DecodeError>(
            DecodeError::Truncated { offset: 0 },
        ),
{
    if bytes.len() < HEADER_SIZE {
        return Err(DecodeError::Truncated { offset: 0 });
    }
    Ok(
        Header {
            magic: read_u32_at(bytes, 0),
            version: read_u32_at(bytes, 4),
            status: read_u32_at(bytes, 8),
            size: read_u32_at(bytes, 12),
            compiled_file_name_offset: read_u32_at(bytes, 16),
            source_file_name_offset: read_u32_at(bytes, 20),
            opcode_count: read_u32_at(bytes, 24),
            debug_info_count: read_u32_at(bytes, 28),
            variable_count: read_u32_at(bytes, 32),
            static_count: read_u32_at(bytes, 36),
            unk_count: read_u32_at(bytes, 40),
            function_count: read_u32_at(bytes, 44),
            string_count: read_u32_at(bytes, 48),
            variable_lookup_count: read_u32_at(bytes, 52),
            label_lookup_count: read_u32_at(bytes, 56),
            switch_table_count: read_u32_at(bytes, 60),
            opcodes_offset: read_u32_at(bytes, 64),
            debug_infos_offset: read_u32_at(bytes, 68),
            variables_offset: read_u32_at(bytes, 72),
            statics_offset: read_u32_at(bytes, 76),
            unks_offset: read_u32_at(bytes, 80),
            functions_offset: read_u32_at(bytes, 84),
            variable_lookup_offset: read_u32_at(bytes, 88),
            label_lookup_offset: read_u32_at(bytes, 92),
            switch_tables_offset: read_u32_at(bytes, 96),
            string_table_offset: read_u32_at(bytes, 100),
        },
    )
}

} // verus!
