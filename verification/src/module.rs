use vstd::prelude::*;

use crate::error::DecodeError;
use crate::header::{decode_header, spec_header, Header, HEADER_SIZE};
use crate::instruction::Instruction;
use crate::records::{
    read_debug_infos, read_functions, read_label_lookups, read_static_variables,
    read_string_offsets, read_switch_tables, read_unks, read_variable_lookups, read_variables,
    spec_debug_infos, spec_functions, spec_label_lookups, spec_static_variables,
    spec_string_offsets, spec_switch_tables, spec_unks, spec_variable_lookups, spec_variables,
    DebugInfo, Function, LabelLookup, StaticVariable, SwitchTable, Unk, Variable, VariableLookup,
};
use crate::stream::{decode_instructions, spec_decode_stream};

verus! {

/// A fully decoded module: the header fields, the instruction sequence, and
/// the nine fixed-stride record sections, materialized in one forward pass
/// over the input and immutable from then on.
#[derive(Debug, PartialEq, Eq)]
pub struct Module {
    pub header: Header,
    pub instructions: Vec<Instruction>,
    pub debug_infos: Vec<DebugInfo>,
    pub variables: Vec<Variable>,
    pub static_variables: Vec<StaticVariable>,
    pub unks: Vec<Unk>,
    pub functions: Vec<Function>,
    pub variable_lookups: Vec<VariableLookup>,
    pub label_lookups: Vec<LabelLookup>,
    pub switch_tables: Vec<SwitchTable>,
    pub string_offsets: Vec<u32>,
}

/// The byte offset at which each section of `s` ends, under the sequential
/// layout that a conforming file must follow: section `k + 1` begins exactly
/// where section `k` ends. Section 0 is the instruction stream, which begins
/// at byte 104 and spans `opcode_count` words.
pub open spec fn spec_section_end(s: Seq<u8>, k: int) -> int
    decreases (if k <= 0 { 0int } else { k }),
{
    let h = spec_header(s);
    if k <= 0 {
        104 + 2 * h.opcode_count
    } else if k == 1 {
        spec_section_end(s, 0) + 8 * h.debug_info_count
    } else if k == 2 {
        spec_section_end(s, 1) + 10 * h.variable_count
    } else if k == 3 {
        spec_section_end(s, 2) + 12 * h.static_count
    } else if k == 4 {
        spec_section_end(s, 3) + 16 * h.unk_count
    } else if k == 5 {
        spec_section_end(s, 4) + 16 * h.function_count
    } else if k == 6 {
        spec_section_end(s, 5) + 8 * h.variable_lookup_count
    } else if k == 7 {
        spec_section_end(s, 6) + 12 * h.label_lookup_count
    } else if k == 8 {
        spec_section_end(s, 7) + 8 * h.switch_table_count
    } else {
        spec_section_end(s, 8) + 4 * h.string_count
    }
}

/// What a successful decode of `s` holds: the header read from the first 104
/// bytes, and every section decoded from its sequential position with the
/// count its header field declares.
pub open spec fn module_ok(s: Seq<u8>, m: Module) -> bool {
    let h = spec_header(s);
    &&& s.len() >= 104
    &&& m.header == h
    &&& Ok::<Seq<Instruction>, DecodeError>(m.instructions@) == spec_decode_stream(
        s,
        104,
        spec_section_end(s, 0),
    )
    &&& Ok::<Seq<DebugInfo>, DecodeError>(m.debug_infos@) == spec_debug_infos(
        s,
        spec_section_end(s, 0),
        h.debug_info_count as int,
    )
    &&& Ok::<Seq<Variable>, DecodeError>(m.variables@) == spec_variables(
        s,
        spec_section_end(s, 1),
        h.variable_count as int,
    )
    &&& Ok::<Seq<StaticVariable>, DecodeError>(m.static_variables@) == spec_static_variables(
        s,
        spec_section_end(s, 2),
        h.static_count as int,
    )
    &&& Ok::<Seq<Unk>, DecodeError>(m.unks@) == spec_unks(
        s,
        spec_section_end(s, 3),
        h.unk_count as int,
    )
    &&& Ok::<Seq<Function>, DecodeError>(m.functions@) == spec_functions(
        s,
        spec_section_end(s, 4),
        h.function_count as int,
    )
    &&& Ok::<Seq<VariableLookup>, DecodeError>(m.variable_lookups@) == spec_variable_lookups(
        s,
        spec_section_end(s, 5),
        h.variable_lookup_count as int,
    )
    &&& Ok::<Seq<LabelLookup>, DecodeError>(m.label_lookups@) == spec_label_lookups(
        s,
        spec_section_end(s, 6),
        h.label_lookup_count as int,
    )
    &&& Ok::<Seq<SwitchTable>, DecodeError>(m.switch_tables@) == spec_switch_tables(
        s,
        spec_section_end(s, 7),
        h.switch_table_count as int,
    )
    &&& Ok::<Seq<u32>, DecodeError>(m.string_offsets@) == spec_string_offsets(
        s,
        spec_section_end(s, 8),
        h.string_count as int,
    )
}

/// Which error a failed decode of `s` surfaces: the first one, reading the
/// sections in their declared order.
pub open spec fn module_err(s: Seq<u8>, e: DecodeError) -> bool {
    let h = spec_header(s);
    let instructions = spec_decode_stream(s, 104, spec_section_end(s, 0));
    let debug_infos = spec_debug_infos(s, spec_section_end(s, 0), h.debug_info_count as int);
    let variables = spec_variables(s, spec_section_end(s, 1), h.variable_count as int);
    let static_variables = spec_static_variables(s, spec_section_end(s, 2), h.static_count as int);
    let unks = spec_unks(s, spec_section_end(s, 3), h.unk_count as int);
    let functions = spec_functions(s, spec_section_end(s, 4), h.function_count as int);
    let variable_lookups = spec_variable_lookups(
        s,
        spec_section_end(s, 5),
        h.variable_lookup_count as int,
    );
    let label_lookups = spec_label_lookups(s, spec_section_end(s, 6), h.label_lookup_count as int);
    let switch_tables = spec_switch_tables(s, spec_section_end(s, 7), h.switch_table_count as int);
    let string_offsets = spec_string_offsets(s, spec_section_end(s, 8), h.string_count as int);
    if s.len() < 104 {
        e == DecodeError::Truncated { offset: 0 }
    } else if instructions is Err {
        Err::<Seq<Instruction>, DecodeError>(e) == instructions
    } else if debug_infos is Err {
        Err::<Seq<DebugInfo>, DecodeError>(e) == debug_infos
    } else if variables is Err {
        Err::<Seq<Variable>, DecodeError>(e) == variables
    } else if static_variables is Err {
        Err::<Seq<StaticVariable>, DecodeError>(e) == static_variables
    } else if unks is Err {
        Err::<Seq<Unk>, DecodeError>(e) == unks
    } else if functions is Err {
        Err::<Seq<Function>, DecodeError>(e) == functions
    } else if variable_lookups is Err {
        Err::<Seq<VariableLookup>, DecodeError>(e) == variable_lookups
    } else if label_lookups is Err {
        Err::<Seq<LabelLookup>, DecodeError>(e) == label_lookups
    } else if switch_tables is Err {
        Err::<Seq<SwitchTable>, DecodeError>(e) == switch_tables
    } else if string_offsets is Err {
        Err::<Seq<u32>, DecodeError>(e) == string_offsets
    } else {
        false
    }
}

/// Decode a whole module file in one forward pass: the 26-field header, then
/// the instruction stream spanning exactly `opcode_count` 16-bit words, then
/// the nine record sections, each with the count its header field declares,
/// laid out contiguously in that order. Returns the first error the pass
/// meets, with the byte offset at which it occurred.
#[verifier::rlimit(60)]
pub fn decode_module(bytes: &[u8]) -> (r: Result<Module, DecodeError>)
    ensures
        match r {
            Ok(m) => module_ok(bytes@, m),
            Err(e) => module_err(bytes@, e),
        },
{
    let header = match decode_header(bytes) {
        Ok(h) => h,
        Err(e) => { return Err(e) },
    };
    let (instructions, p1) = match decode_instructions(bytes, HEADER_SIZE, header.opcode_count) {
        Ok(p) => p,
        Err(e) => { return Err(e) },
    };
    proof {
        assert(p1 as int == spec_section_end(bytes@, 0));
    }
    let (debug_infos, p2) = match read_debug_infos(bytes, p1, header.debug_info_count) {
        Ok(p) => p,
        Err(e) => { return Err(e) },
    };
    proof {
        assert(p2 as int == spec_section_end(bytes@, 1));
    }
    let (variables, p3) = match read_variables(bytes, p2, header.variable_count) {
        Ok(p) => p,
        Err(e) => { return Err(e) },
    };
    proof {
        assert(p3 as int == spec_section_end(bytes@, 2));
    }
    let (static_variables, p4) = match read_static_variables(bytes, p3, header.static_count) {
        Ok(p) => p,
        Err(e) => { return Err(e) },
    };
    proof {
        assert(p4 as int == spec_section_end(bytes@, 3));
    }
    let (unks, p5) = match read_unks(bytes, p4, header.unk_count) {
        Ok(p) => p,
        Err(e) => { return Err(e) },
    };
    proof {
        assert(p5 as int == spec_section_end(bytes@, 4));
    }
    let (functions, p6) = match read_functions(bytes, p5, header.function_count) {
        Ok(p) => p,
        Err(e) => { return Err(e) },
    };
    proof {
        assert(p6 as int == spec_section_end(bytes@, 5));
    }
    let (variable_lookups, p7) = match read_variable_lookups(
        bytes,
        p6,
        header.variable_lookup_count,
    ) {
        Ok(p) => p,
        Err(e) => { return Err(e) },
    };
    proof {
        assert(p7 as int == spec_section_end(bytes@, 6));
    }
    let (label_lookups, p8) = match read_label_lookups(bytes, p7, header.label_lookup_count) {
        Ok(p) => p,
        Err(e) => { return Err(e) },
    };
    proof {
        assert(p8 as int == spec_section_end(bytes@, 7));
    }
    let (switch_tables, p9) = match read_switch_tables(bytes, p8, header.switch_table_count) {
        Ok(p) => p,
        Err(e) => { return Err(e) },
    };
    proof {
        assert(p9 as int == spec_section_end(bytes@, 8));
    }
    let (string_offsets, _p10) = match read_string_offsets(bytes, p9, header.string_count) {
        Ok(p) => p,
        Err(e) => { return Err(e) },
    };
    Ok(
        Module {
            header,
            instructions,
            debug_infos,
            variables,
            static_variables,
            unks,
            functions,
            variable_lookups,
            label_lookups,
            switch_tables,
            string_offsets,
        },
    )
}

} // verus!
