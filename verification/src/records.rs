use vstd::prelude::*;

use crate::bytes::{as_signed16, as_signed32, le16_at, le32_at, read_i16_at, read_i32_at, read_u16_at,
    read_u32_at};
use crate::error::DecodeError;

verus! {

// The nine sections after the instruction stream are homogeneous arrays of
// fixed-size little-endian records, one reader per section, each repeating a
// fixed-stride record decode exactly `count` times. The per-record `unk`
// fields preserve raw values whose meaning is not known in the source
// format. Each spec decoder mirrors its reader exactly: `Ok` with the whole
// record sequence when `count` full records lie within the buffer, and
// `Truncated` at the start of the first record that does not.

/// One debug-line record: 8 bytes.
#[derive(Clone, Copy, Debug, PartialEq, Eq)]
pub struct DebugInfo {
    pub file_name_offset: u32,
    pub line_offset: u32,
}

/// One variable record: 10 bytes.
#[derive(Clone, Copy, Debug, PartialEq, Eq)]
pub struct Variable {
    pub name_offset: u32,
    pub variable_type: u32,
    pub size: i16,
}

/// The debug-line record at byte offset `pos`.
pub open spec fn spec_debug_info_at(s: Seq<u8>, pos: int) -> DebugInfo {
    DebugInfo {
        file_name_offset: le32_at(s, pos) as u32,
        line_offset: le32_at(s, pos + 4) as u32,
    }
}

/// The variable record at byte offset `pos`.
pub open spec fn spec_variable_at(s: Seq<u8>, pos: int) -> Variable {
    Variable {
        name_offset: le32_at(s, pos) as u32,
        variable_type: le32_at(s, pos + 4) as u32,
        size: as_signed16(le16_at(s, pos + 8)) as i16,
    }
}

/// The `count` debug-line records starting at byte offset `pos`.
pub open spec fn spec_debug_infos(s: Seq<u8>, pos: int, count: int) -> Result<
    Seq<DebugInfo>,
    DecodeError,
>
    decreases count,
{
    if count <= 0 {
        Ok(Seq::empty())
    } else if pos + 8 > s.len() {
        Err(DecodeError::Truncated { offset: pos as usize })
    } else {
        match spec_debug_infos(s, pos + 8, count - 1) {
            Ok(rest) => Ok(seq![spec_debug_info_at(s, pos)] + rest),
            Err(e) => Err(e),
        }
    }
}

/// The `count` variable records starting at byte offset `pos`.
pub open spec fn spec_variables(s: Seq<u8>, pos: int, count: int) -> Result<
    Seq<Variable>,
    DecodeError,
>
    decreases count,
{
    if count <= 0 {
        Ok(Seq::empty())
    } else if pos + 10 > s.len() {
        Err(DecodeError::Truncated { offset: pos as usize })
    } else {
        match spec_variables(s, pos + 10, count - 1) {
            Ok(rest) => Ok(seq![spec_variable_at(s, pos)] + rest),
            Err(e) => Err(e),
        }
    }
}

spec fn debug_infos_inv(
    s: Seq<u8>,
    start: int,
    pos: int,
    count: int,
    left: int,
    acc: Seq<DebugInfo>,
) -> bool {
    match spec_debug_infos(s, pos, left) {
        Ok(rest) => spec_debug_infos(s, start, count) == Ok::<Seq<DebugInfo>, DecodeError>(
            acc + rest,
        ),
        Err(e) => spec_debug_infos(s, start, count) == Err::<Seq<DebugInfo>, DecodeError>(e),
    }
}

spec fn variables_inv(
    s: Seq<u8>,
    start: int,
    pos: int,
    count: int,
    left: int,
    acc: Seq<Variable>,
) -> bool {
    match spec_variables(s, pos, left) {
        Ok(rest) => spec_variables(s, start, count) == Ok::<Seq<Variable>, DecodeError>(
            acc + rest,
        ),
        Err(e) => spec_variables(s, start, count) == Err::<Seq<Variable>, DecodeError>(e),
    }
}

/// Read the debug-line section: `count` records of 8 bytes each, starting at
/// `start`. On success the returned offset is exactly `start + count * 8`.
pub fn read_debug_infos(bytes: &[u8], start: usize, count: u32) -> (r: Result<
    (Vec<DebugInfo>, usize),
    DecodeError,
>)
    ensures
        match r {
            Ok(p) => spec_debug_infos(bytes@, start as int, count as int) == Ok::<
                Seq<DebugInfo>,
                DecodeError,
            >(p.0@) && p.1 == start + count * 8,
            Err(e) => spec_debug_infos(bytes@, start as int, count as int) == Err::<
                Seq<DebugInfo>,
                DecodeError,
            >(e),
        },
{
    let len = bytes.len();
    let mut pos: usize = start;
    let mut i: u32 = 0;
    let mut out: Vec<DebugInfo> = Vec::new();
    proof {
        if spec_debug_infos(bytes@, start as int, count as int) is Ok {
            assert(out@ + spec_debug_infos(bytes@, start as int, count as int)->Ok_0
                =~= spec_debug_infos(bytes@, start as int, count as int)->Ok_0);
        }
    }
    while i < count
        invariant
            len == bytes@.len(),
            i <= count,
            pos == start + 8 * i,
            debug_infos_inv(bytes@, start as int, pos as int, count as int, count - i, out@),
        decreases count - i,
    {
        if pos >= len || len - pos < 8 {
            return Err(DecodeError::Truncated { offset: pos });
        }
        let rec = DebugInfo {
            file_name_offset: read_u32_at(bytes, pos),
            line_offset: read_u32_at(bytes, pos + 4),
        };
        proof {
            let rest_result = spec_debug_infos(bytes@, pos + 8, count - i - 1);
            if rest_result is Ok {
                assert(out@.push(rec) + rest_result->Ok_0 =~= out@ + (seq![rec]
                    + rest_result->Ok_0));
            }
        }
        out.push(rec);
        pos = pos + 8;
        i = i + 1;
    }
    proof {
        assert(out@ + Seq::<DebugInfo>::empty() =~= out@);
    }
    Ok((out, pos))
}

/// Read the variable section: `count` records of 10 bytes each, starting at
/// `start`. On success the returned offset is exactly `start + count * 10`.
pub fn read_variables(bytes: &[u8], start: usize, count: u32) -> (r: Result<
    (Vec<Variable>, usize),
    DecodeError,
>)
    ensures
        match r {
            Ok(p) => spec_variables(bytes@, start as int, count as int) == Ok::<
                Seq<Variable>,
                DecodeError,
            >(p.0@) && p.1 == start + count * 10,
            Err(e) => spec_variables(bytes@, start as int, count as int) == Err::<
                Seq<Variable>,
                DecodeError,
            >(e),
        },
{
    let len = bytes.len();
    let mut pos: usize = start;
    let mut i: u32 = 0;
    let mut out: Vec<Variable> = Vec::new();
    proof {
        if spec_variables(bytes@, start as int, count as int) is Ok {
            assert(out@ + spec_variables(bytes@, start as int, count as int)->Ok_0
                =~= spec_variables(bytes@, start as int, count as int)->Ok_0);
        }
    }
    while i < count
        invariant
            len == bytes@.len(),
            i <= count,
            pos == start + 10 * i,
            variables_inv(bytes@, start as int, pos as int, count as int, count - i, out@),
        decreases count - i,
    {
        if pos >= len || len - pos < 10 {
            return Err(DecodeError::Truncated { offset: pos });
        }
        let rec = Variable {
            name_offset: read_u32_at(bytes, pos),
            variable_type: read_u32_at(bytes, pos + 4),
            size: read_i16_at(bytes, pos + 8),
        };
        proof {
            let rest_result = spec_variables(bytes@, pos + 10, count - i - 1);
            if rest_result is Ok {
                assert(out@.push(rec) + rest_result->Ok_0 =~= out@ + (seq![rec]
                    + rest_result->Ok_0));
            }
        }
        out.push(rec);
        pos = pos + 10;
        i = i + 1;
    }
    proof {
        assert(out@ + Seq::<Variable>::empty() =~= out@);
    }
    Ok((out, pos))
}


/// One static-variable record: 12 bytes.
#[derive(Clone, Copy, Debug, PartialEq, Eq)]
pub struct StaticVariable {
    pub name_offset: u32,
    pub unk: [u16; 4],
}

/// The record at byte offset `pos`.
pub open spec fn spec_static_variable_at(s: Seq<u8>, pos: int) -> StaticVariable {
    StaticVariable {
        name_offset: le32_at(s, pos) as u32,
        unk: [
            le16_at(s, pos + 4) as u16,
            le16_at(s, pos + 6) as u16,
            le16_at(s, pos + 8) as u16,
            le16_at(s, pos + 10) as u16,
        ],
    }
}

/// The `count` records starting at byte offset `pos`.
pub open spec fn spec_static_variables(s: Seq<u8>, pos: int, count: int) -> Result<
    Seq<StaticVariable>,
    DecodeError,
>
    decreases count,
{
    if count <= 0 {
        Ok(Seq::empty())
    } else if pos + 12 > s.len() {
        Err(DecodeError::Truncated { offset: pos as usize })
    } else {
        match spec_static_variables(s, pos + 12, count - 1) {
            Ok(rest) => Ok(seq![spec_static_variable_at(s, pos)] + rest),
            Err(e) => Err(e),
        }
    }
}

spec fn static_variables_inv(
    s: Seq<u8>,
    start: int,
    pos: int,
    count: int,
    left: int,
    acc: Seq<StaticVariable>,
) -> bool {
    match spec_static_variables(s, pos, left) {
        Ok(rest) => spec_static_variables(s, start, count) == Ok::<Seq<StaticVariable>, DecodeError>(
            acc + rest,
        ),
        Err(e) => spec_static_variables(s, start, count) == Err::<Seq<StaticVariable>, DecodeError>(e),
    }
}

/// Read the static-variable section: `count` records of 12 bytes each, starting at
/// `start`. On success the returned offset is exactly `start + count * 12`.
pub fn read_static_variables(bytes: &[u8], start: usize, count: u32) -> (r: Result<
    (Vec<StaticVariable>, usize),
    DecodeError,
>)
    ensures
        match r {
            Ok(p) => spec_static_variables(bytes@, start as int, count as int) == Ok::<
                Seq<StaticVariable>,
                DecodeError,
            >(p.0@) && p.1 == start + count * 12,
            Err(e) => spec_static_variables(bytes@, start as int, count as int) == Err::<
                Seq<StaticVariable>,
                DecodeError,
            >(e),
        },
{
    let len = bytes.len();
    let mut pos: usize = start;
    let mut i: u32 = 0;
    let mut out: Vec<StaticVariable> = Vec::new();
    proof {
        if spec_static_variables(bytes@, start as int, count as int) is Ok {
            assert(out@ + spec_static_variables(bytes@, start as int, count as int)->Ok_0
                =~= spec_static_variables(bytes@, start as int, count as int)->Ok_0);
        }
    }
    while i < count
        invariant
            len == bytes@.len(),
            i <= count,
            pos == start + 12 * i,
            static_variables_inv(bytes@, start as int, pos as int, count as int, count - i, out@),
        decreases count - i,
    {
        if pos >= len || len - pos < 12 {
            return Err(DecodeError::Truncated { offset: pos });
        }
        let rec = StaticVariable {
            name_offset: read_u32_at(bytes, pos),
            unk: [
                read_u16_at(bytes, pos + 4),
                read_u16_at(bytes, pos + 6),
                read_u16_at(bytes, pos + 8),
                read_u16_at(bytes, pos + 10),
            ],
        };
        proof {
            let rest_result = spec_static_variables(bytes@, pos + 12, count - i - 1);
            if rest_result is Ok {
                assert(out@.push(rec) + rest_result->Ok_0 =~= out@ + (seq![rec]
                    + rest_result->Ok_0));
            }
        }
        out.push(rec);
        pos = pos + 12;
        i = i + 1;
    }
    proof {
        assert(out@ + Seq::<StaticVariable>::empty() =~= out@);
    }
    Ok((out, pos))
}

/// One record of unknown purpose: 16 bytes, kept raw.
#[derive(Clone, Copy, Debug, PartialEq, Eq)]
pub struct Unk {
    pub unk: [u32; 3],
    pub unk2: [u16; 2],
}

/// The record at byte offset `pos`.
pub open spec fn spec_unk_at(s: Seq<u8>, pos: int) -> Unk {
    Unk {
        unk: [le32_at(s, pos) as u32, le32_at(s, pos + 4) as u32, le32_at(s, pos + 8) as u32],
        unk2: [le16_at(s, pos + 12) as u16, le16_at(s, pos + 14) as u16],
    }
}

/// The `count` records starting at byte offset `pos`.
pub open spec fn spec_unks(s: Seq<u8>, pos: int, count: int) -> Result<
    Seq<Unk>,
    DecodeError,
>
    decreases count,
{
    if count <= 0 {
        Ok(Seq::empty())
    } else if pos + 16 > s.len() {
        Err(DecodeError::Truncated { offset: pos as usize })
    } else {
        match spec_unks(s, pos + 16, count - 1) {
            Ok(rest) => Ok(seq![spec_unk_at(s, pos)] + rest),
            Err(e) => Err(e),
        }
    }
}

spec fn unks_inv(
    s: Seq<u8>,
    start: int,
    pos: int,
    count: int,
    left: int,
    acc: Seq<Unk>,
) -> bool {
    match spec_unks(s, pos, left) {
        Ok(rest) => spec_unks(s, start, count) == Ok::<Seq<Unk>, DecodeError>(
            acc + rest,
        ),
        Err(e) => spec_unks(s, start, count) == Err::<Seq<Unk>, DecodeError>(e),
    }
}

/// Read the unknown-record section: `count` records of 16 bytes each, starting at
/// `start`. On success the returned offset is exactly `start + count * 16`.
pub fn read_unks(bytes: &[u8], start: usize, count: u32) -> (r: Result<
    (Vec<Unk>, usize),
    DecodeError,
>)
    ensures
        match r {
            Ok(p) => spec_unks(bytes@, start as int, count as int) == Ok::<
                Seq<Unk>,
                DecodeError,
            >(p.0@) && p.1 == start + count * 16,
            Err(e) => spec_unks(bytes@, start as int, count as int) == Err::<
                Seq<Unk>,
                DecodeError,
            >(e),
        },
{
    let len = bytes.len();
    let mut pos: usize = start;
    let mut i: u32 = 0;
    let mut out: Vec<Unk> = Vec::new();
    proof {
        if spec_unks(bytes@, start as int, count as int) is Ok {
            assert(out@ + spec_unks(bytes@, start as int, count as int)->Ok_0
                =~= spec_unks(bytes@, start as int, count as int)->Ok_0);
        }
    }
    while i < count
        invariant
            len == bytes@.len(),
            i <= count,
            pos == start + 16 * i,
            unks_inv(bytes@, start as int, pos as int, count as int, count - i, out@),
        decreases count - i,
    {
        if pos >= len || len - pos < 16 {
            return Err(DecodeError::Truncated { offset: pos });
        }
        let rec = Unk {
            unk: [read_u32_at(bytes, pos), read_u32_at(bytes, pos + 4), read_u32_at(bytes, pos + 8)],
            unk2: [read_u16_at(bytes, pos + 12), read_u16_at(bytes, pos + 14)],
        };
        proof {
            let rest_result = spec_unks(bytes@, pos + 16, count - i - 1);
            if rest_result is Ok {
                assert(out@.push(rec) + rest_result->Ok_0 =~= out@ + (seq![rec]
                    + rest_result->Ok_0));
            }
        }
        out.push(rec);
        pos = pos + 16;
        i = i + 1;
    }
    proof {
        assert(out@ + Seq::<Unk>::empty() =~= out@);
    }
    Ok((out, pos))
}

/// One function record: 16 bytes.
#[derive(Clone, Copy, Debug, PartialEq, Eq)]
pub struct Function {
    pub name_offset: u32,
    pub name_hash: u32,
    pub address: u32,
    pub stack_delta: i32,
}

/// The record at byte offset `pos`.
pub open spec fn spec_function_at(s: Seq<u8>, pos: int) -> Function {
    Function {
        name_offset: le32_at(s, pos) as u32,
        name_hash: le32_at(s, pos + 4) as u32,
        address: le32_at(s, pos + 8) as u32,
        stack_delta: as_signed32(le32_at(s, pos + 12)) as i32,
    }
}

/// The `count` records starting at byte offset `pos`.
pub open spec fn spec_functions(s: Seq<u8>, pos: int, count: int) -> Result<
    Seq<Function>,
    DecodeError,
>
    decreases count,
{
    if count <= 0 {
        Ok(Seq::empty())
    } else if pos + 16 > s.len() {
        Err(DecodeError::Truncated { offset: pos as usize })
    } else {
        match spec_functions(s, pos + 16, count - 1) {
            Ok(rest) => Ok(seq![spec_function_at(s, pos)] + rest),
            Err(e) => Err(e),
        }
    }
}

spec fn functions_inv(
    s: Seq<u8>,
    start: int,
    pos: int,
    count: int,
    left: int,
    acc: Seq<Function>,
) -> bool {
    match spec_functions(s, pos, left) {
        Ok(rest) => spec_functions(s, start, count) == Ok::<Seq<Function>, DecodeError>(
            acc + rest,
        ),
        Err(e) => spec_functions(s, start, count) == Err::<Seq<Function>, DecodeError>(e),
    }
}

/// Read the function section: `count` records of 16 bytes each, starting at
/// `start`. On success the returned offset is exactly `start + count * 16`.
pub fn read_functions(bytes: &[u8], start: usize, count: u32) -> (r: Result<
    (Vec<Function>, usize),
    DecodeError,
>)
    ensures
        match r {
            Ok(p) => spec_functions(bytes@, start as int, count as int) == Ok::<
                Seq<Function>,
                DecodeError,
            >(p.0@) && p.1 == start + count * 16,
            Err(e) => spec_functions(bytes@, start as int, count as int) == Err::<
                Seq<Function>,
                DecodeError,
            >(e),
        },
{
    let len = bytes.len();
    let mut pos: usize = start;
    let mut i: u32 = 0;
    let mut out: Vec<Function> = Vec::new();
    proof {
        if spec_functions(bytes@, start as int, count as int) is Ok {
            assert(out@ + spec_functions(bytes@, start as int, count as int)->Ok_0
                =~= spec_functions(bytes@, start as int, count as int)->Ok_0);
        }
    }
    while i < count
        invariant
            len == bytes@.len(),
            i <= count,
            pos == start + 16 * i,
            functions_inv(bytes@, start as int, pos as int, count as int, count - i, out@),
        decreases count - i,
    {
        if pos >= len || len - pos < 16 {
            return Err(DecodeError::Truncated { offset: pos });
        }
        let rec = Function {
            name_offset: read_u32_at(bytes, pos),
            name_hash: read_u32_at(bytes, pos + 4),
            address: read_u32_at(bytes, pos + 8),
            stack_delta: read_i32_at(bytes, pos + 12),
        };
        proof {
            let rest_result = spec_functions(bytes@, pos + 16, count - i - 1);
            if rest_result is Ok {
                assert(out@.push(rec) + rest_result->Ok_0 =~= out@ + (seq![rec]
                    + rest_result->Ok_0));
            }
        }
        out.push(rec);
        pos = pos + 16;
        i = i + 1;
    }
    proof {
        assert(out@ + Seq::<Function>::empty() =~= out@);
    }
    Ok((out, pos))
}

/// One variable hash-lookup record: 8 bytes.
#[derive(Clone, Copy, Debug, PartialEq, Eq)]
pub struct VariableLookup {
    pub hash: u32,
    pub variable_index: u32,
}

/// The record at byte offset `pos`.
pub open spec fn spec_variable_lookup_at(s: Seq<u8>, pos: int) -> VariableLookup {
    VariableLookup {
        hash: le32_at(s, pos) as u32,
        variable_index: le32_at(s, pos + 4) as u32,
    }
}

/// The `count` records starting at byte offset `pos`.
pub open spec fn spec_variable_lookups(s: Seq<u8>, pos: int, count: int) -> Result<
    Seq<VariableLookup>,
    DecodeError,
>
    decreases count,
{
    if count <= 0 {
        Ok(Seq::empty())
    } else if pos + 8 > s.len() {
        Err(DecodeError::Truncated { offset: pos as usize })
    } else {
        match spec_variable_lookups(s, pos + 8, count - 1) {
            Ok(rest) => Ok(seq![spec_variable_lookup_at(s, pos)] + rest),
            Err(e) => Err(e),
        }
    }
}

spec fn variable_lookups_inv(
    s: Seq<u8>,
    start: int,
    pos: int,
    count: int,
    left: int,
    acc: Seq<VariableLookup>,
) -> bool {
    match spec_variable_lookups(s, pos, left) {
        Ok(rest) => spec_variable_lookups(s, start, count) == Ok::<Seq<VariableLookup>, DecodeError>(
            acc + rest,
        ),
        Err(e) => spec_variable_lookups(s, start, count) == Err::<Seq<VariableLookup>, DecodeError>(e),
    }
}

/// Read the variable hash-lookup section: `count` records of 8 bytes each, starting at
/// `start`. On success the returned offset is exactly `start + count * 8`.
pub fn read_variable_lookups(bytes: &[u8], start: usize, count: u32) -> (r: Result<
    (Vec<VariableLookup>, usize),
    DecodeError,
>)
    ensures
        match r {
            Ok(p) => spec_variable_lookups(bytes@, start as int, count as int) == Ok::<
                Seq<VariableLookup>,
                DecodeError,
            >(p.0@) && p.1 == start + count * 8,
            Err(e) => spec_variable_lookups(bytes@, start as int, count as int) == Err::<
                Seq<VariableLookup>,
                DecodeError,
            >(e),
        },
{
    let len = bytes.len();
    let mut pos: usize = start;
    let mut i: u32 = 0;
    let mut out: Vec<VariableLookup> = Vec::new();
    proof {
        if spec_variable_lookups(bytes@, start as int, count as int) is Ok {
            assert(out@ + spec_variable_lookups(bytes@, start as int, count as int)->Ok_0
                =~= spec_variable_lookups(bytes@, start as int, count as int)->Ok_0);
        }
    }
    while i < count
        invariant
            len == bytes@.len(),
            i <= count,
            pos == start + 8 * i,
            variable_lookups_inv(bytes@, start as int, pos as int, count as int, count - i, out@),
        decreases count - i,
    {
        if pos >= len || len - pos < 8 {
            return Err(DecodeError::Truncated { offset: pos });
        }
        let rec = VariableLookup {
            hash: read_u32_at(bytes, pos),
            variable_index: read_u32_at(bytes, pos + 4),
        };
        proof {
            let rest_result = spec_variable_lookups(bytes@, pos + 8, count - i - 1);
            if rest_result is Ok {
                assert(out@.push(rec) + rest_result->Ok_0 =~= out@ + (seq![rec]
                    + rest_result->Ok_0));
            }
        }
        out.push(rec);
        pos = pos + 8;
        i = i + 1;
    }
    proof {
        assert(out@ + Seq::<VariableLookup>::empty() =~= out@);
    }
    Ok((out, pos))
}

/// One label hash-lookup record: 12 bytes.
#[derive(Clone, Copy, Debug, PartialEq, Eq)]
pub struct LabelLookup {
    pub hash: u32,
    pub name_offset: u32,
    pub program_counter: u32,
}

/// The record at byte offset `pos`.
pub open spec fn spec_label_lookup_at(s: Seq<u8>, pos: int) -> LabelLookup {
    LabelLookup {
        hash: le32_at(s, pos) as u32,
        name_offset: le32_at(s, pos + 4) as u32,
        program_counter: le32_at(s, pos + 8) as u32,
    }
}

/// The `count` records starting at byte offset `pos`.
pub open spec fn spec_label_lookups(s: Seq<u8>, pos: int, count: int) -> Result<
    Seq<LabelLookup>,
    DecodeError,
>
    decreases count,
{
    if count <= 0 {
        Ok(Seq::empty())
    } else if pos + 12 > s.len() {
        Err(DecodeError::Truncated { offset: pos as usize })
    } else {
        match spec_label_lookups(s, pos + 12, count - 1) {
            Ok(rest) => Ok(seq![spec_label_lookup_at(s, pos)] + rest),
            Err(e) => Err(e),
        }
    }
}

spec fn label_lookups_inv(
    s: Seq<u8>,
    start: int,
    pos: int,
    count: int,
    left: int,
    acc: Seq<LabelLookup>,
) -> bool {
    match spec_label_lookups(s, pos, left) {
        Ok(rest) => spec_label_lookups(s, start, count) == Ok::<Seq<LabelLookup>, DecodeError>(
            acc + rest,
        ),
        Err(e) => spec_label_lookups(s, start, count) == Err::<Seq<LabelLookup>, DecodeError>(e),
    }
}

/// Read the label hash-lookup section: `count` records of 12 bytes each, starting at
/// `start`. On success the returned offset is exactly `start + count * 12`.
pub fn read_label_lookups(bytes: &[u8], start: usize, count: u32) -> (r: Result<
    (Vec<LabelLookup>, usize),
    DecodeError,
>)
    ensures
        match r {
            Ok(p) => spec_label_lookups(bytes@, start as int, count as int) == Ok::<
                Seq<LabelLookup>,
                DecodeError,
            >(p.0@) && p.1 == start + count * 12,
            Err(e) => spec_label_lookups(bytes@, start as int, count as int) == Err::<
                Seq<LabelLookup>,
                DecodeError,
            >(e),
        },
{
    let len = bytes.len();
    let mut pos: usize = start;
    let mut i: u32 = 0;
    let mut out: Vec<LabelLookup> = Vec::new();
    proof {
        if spec_label_lookups(bytes@, start as int, count as int) is Ok {
            assert(out@ + spec_label_lookups(bytes@, start as int, count as int)->Ok_0
                =~= spec_label_lookups(bytes@, start as int, count as int)->Ok_0);
        }
    }
    while i < count
        invariant
            len == bytes@.len(),
            i <= count,
            pos == start + 12 * i,
            label_lookups_inv(bytes@, start as int, pos as int, count as int, count - i, out@),
        decreases count - i,
    {
        if pos >= len || len - pos < 12 {
            return Err(DecodeError::Truncated { offset: pos });
        }
        let rec = LabelLookup {
            hash: read_u32_at(bytes, pos),
            name_offset: read_u32_at(bytes, pos + 4),
            program_counter: read_u32_at(bytes, pos + 8),
        };
        proof {
            let rest_result = spec_label_lookups(bytes@, pos + 12, count - i - 1);
            if rest_result is Ok {
                assert(out@.push(rec) + rest_result->Ok_0 =~= out@ + (seq![rec]
                    + rest_result->Ok_0));
            }
        }
        out.push(rec);
        pos = pos + 12;
        i = i + 1;
    }
    proof {
        assert(out@ + Seq::<LabelLookup>::empty() =~= out@);
    }
    Ok((out, pos))
}

/// One switch-dispatch record: 8 bytes.
#[derive(Clone, Copy, Debug, PartialEq, Eq)]
pub struct SwitchTable {
    pub value: u32,
    pub program_counter: u32,
}

/// The record at byte offset `pos`.
pub open spec fn spec_switch_table_at(s: Seq<u8>, pos: int) -> SwitchTable {
    SwitchTable {
        value: le32_at(s, pos) as u32,
        program_counter: le32_at(s, pos + 4) as u32,
    }
}

/// The `count` records starting at byte offset `pos`.
pub open spec fn spec_switch_tables(s: Seq<u8>, pos: int, count: int) -> Result<
    Seq<SwitchTable>,
    DecodeError,
>
    decreases count,
{
    if count <= 0 {
        Ok(Seq::empty())
    } else if pos + 8 > s.len() {
        Err(DecodeError::Truncated { offset: pos as usize })
    } else {
        match spec_switch_tables(s, pos + 8, count - 1) {
            Ok(rest) => Ok(seq![spec_switch_table_at(s, pos)] + rest),
            Err(e) => Err(e),
        }
    }
}

spec fn switch_tables_inv(
    s: Seq<u8>,
    start: int,
    pos: int,
    count: int,
    left: int,
    acc: Seq<SwitchTable>,
) -> bool {
    match spec_switch_tables(s, pos, left) {
        Ok(rest) => spec_switch_tables(s, start, count) == Ok::<Seq<SwitchTable>, DecodeError>(
            acc + rest,
        ),
        Err(e) => spec_switch_tables(s, start, count) == Err::<Seq<SwitchTable>, DecodeError>(e),
    }
}

/// Read the switch-dispatch section: `count` records of 8 bytes each, starting at
/// `start`. On success the returned offset is exactly `start + count * 8`.
pub fn read_switch_tables(bytes: &[u8], start: usize, count: u32) -> (r: Result<
    (Vec<SwitchTable>, usize),
    DecodeError,
>)
    ensures
        match r {
            Ok(p) => spec_switch_tables(bytes@, start as int, count as int) == Ok::<
                Seq<SwitchTable>,
                DecodeError,
            >(p.0@) && p.1 == start + count * 8,
            Err(e) => spec_switch_tables(bytes@, start as int, count as int) == Err::<
                Seq<SwitchTable>,
                DecodeError,
            >(e),
        },
{
    let len = bytes.len();
    let mut pos: usize = start;
    let mut i: u32 = 0;
    let mut out: Vec<SwitchTable> = Vec::new();
    proof {
        if spec_switch_tables(bytes@, start as int, count as int) is Ok {
            assert(out@ + spec_switch_tables(bytes@, start as int, count as int)->Ok_0
                =~= spec_switch_tables(bytes@, start as int, count as int)->Ok_0);
        }
    }
    while i < count
        invariant
            len == bytes@.len(),
            i <= count,
            pos == start + 8 * i,
            switch_tables_inv(bytes@, start as int, pos as int, count as int, count - i, out@),
        decreases count - i,
    {
        if pos >= len || len - pos < 8 {
            return Err(DecodeError::Truncated { offset: pos });
        }
        let rec = SwitchTable {
            value: read_u32_at(bytes, pos),
            program_counter: read_u32_at(bytes, pos + 4),
        };
        proof {
            let rest_result = spec_switch_tables(bytes@, pos + 8, count - i - 1);
            if rest_result is Ok {
                assert(out@.push(rec) + rest_result->Ok_0 =~= out@ + (seq![rec]
                    + rest_result->Ok_0));
            }
        }
        out.push(rec);
        pos = pos + 8;
        i = i + 1;
    }
    proof {
        assert(out@ + Seq::<SwitchTable>::empty() =~= out@);
    }
    Ok((out, pos))
}

/// The `count` string-table offsets (one `u32` each) starting at `pos`.
pub open spec fn spec_string_offsets(s: Seq<u8>, pos: int, count: int) -> Result<
    Seq<u32>,
    DecodeError,
>
    decreases count,
{
    if count <= 0 {
        Ok(Seq::empty())
    } else if pos + 4 > s.len() {
        Err(DecodeError::Truncated { offset: pos as usize })
    } else {
        match spec_string_offsets(s, pos + 4, count - 1) {
            Ok(rest) => Ok(seq![le32_at(s, pos) as u32] + rest),
            Err(e) => Err(e),
        }
    }
}

spec fn string_offsets_inv(
    s: Seq<u8>,
    start: int,
    pos: int,
    count: int,
    left: int,
    acc: Seq<u32>,
) -> bool {
    match spec_string_offsets(s, pos, left) {
        Ok(rest) => spec_string_offsets(s, start, count) == Ok::<Seq<u32>, DecodeError>(
            acc + rest,
        ),
        Err(e) => spec_string_offsets(s, start, count) == Err::<Seq<u32>, DecodeError>(e),
    }
}

/// Read the string-offset section: `count` offsets of 4 bytes each, starting
/// at `start`. On success the returned offset is exactly `start + count * 4`.
pub fn read_string_offsets(bytes: &[u8], start: usize, count: u32) -> (r: Result<
    (Vec<u32>, usize),
    DecodeError,
>)
    ensures
        match r {
            Ok(p) => spec_string_offsets(bytes@, start as int, count as int) == Ok::<
                Seq<u32>,
                DecodeError,
            >(p.0@) && p.1 == start + count * 4,
            Err(e) => spec_string_offsets(bytes@, start as int, count as int) == Err::<
                Seq<u32>,
                DecodeError,
            >(e),
        },
{
    let len = bytes.len();
    let mut pos: usize = start;
    let mut i: u32 = 0;
    let mut out: Vec<u32> = Vec::new();
    proof {
        if spec_string_offsets(bytes@, start as int, count as int) is Ok {
            assert(out@ + spec_string_offsets(bytes@, start as int, count as int)->Ok_0
                =~= spec_string_offsets(bytes@, start as int, count as int)->Ok_0);
        }
    }
    while i < count
        invariant
            len == bytes@.len(),
            i <= count,
            pos == start + 4 * i,
            string_offsets_inv(bytes@, start as int, pos as int, count as int, count - i, out@),
        decreases count - i,
    {
        if pos >= len || len - pos < 4 {
            return Err(DecodeError::Truncated { offset: pos });
        }
        let rec = read_u32_at(bytes, pos);
        proof {
            let rest_result = spec_string_offsets(bytes@, pos + 4, count - i - 1);
            if rest_result is Ok {
                assert(out@.push(rec) + rest_result->Ok_0 =~= out@ + (seq![rec]
                    + rest_result->Ok_0));
            }
        }
        out.push(rec);
        pos = pos + 4;
        i = i + 1;
    }
    proof {
        assert(out@ + Seq::<u32>::empty() =~= out@);
    }
    Ok((out, pos))
}

} // verus!
