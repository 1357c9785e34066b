use vstd::prelude::*;

use crate::bytes::{as_signed32, le16_at, le32_at, read_i32_at, read_u16_at, read_u32_at};

verus! {

// Opcode byte assignments. An instruction's first 16-bit word carries the
// opcode in its low byte; the high byte is an immediate data byte, meaningful
// only for `PushByte`, `PushByteAsFloat`, `PushMultipleVars` and
// `PopAndStoreMultiple`, and otherwise ignored.
pub const OP_NOP: u8 = 0x00;
pub const OP_POP: u8 = 0x01;
pub const OP_DUP: u8 = 0x02;
pub const OP_PUSH_VAR: u8 = 0x03;
pub const OP_PUSH_VAR_INDEXED: u8 = 0x04;
pub const OP_PUSH_MULTIPLE_VARS: u8 = 0x05;
pub const OP_PUSH_INT: u8 = 0x06;
pub const OP_PUSH_FLOAT: u8 = 0x07;
pub const OP_PUSH_BYTE: u8 = 0x08;
pub const OP_PUSH_BYTE_AS_FLOAT: u8 = 0x09;
pub const OP_PUSH_STRING: u8 = 0x0A;
pub const OP_PUSH_OWNER: u8 = 0x0B;
pub const OP_POP_AND_STORE: u8 = 0x0C;
pub const OP_POP_AND_STORE_MULTIPLE: u8 = 0x0D;
pub const OP_STORE: u8 = 0x0E;
pub const OP_STORE_INDEXED: u8 = 0x0F;
pub const OP_SWAP: u8 = 0x10;
pub const OP_LESS_THAN: u8 = 0x11;
pub const OP_LESS_THAN_EQ: u8 = 0x12;
pub const OP_GTR_THAN: u8 = 0x13;
pub const OP_GTR_THAN_EQ: u8 = 0x14;
pub const OP_EQUAL: u8 = 0x15;
pub const OP_NOT_EQUAL: u8 = 0x16;
pub const OP_ADD: u8 = 0x17;
pub const OP_SUB: u8 = 0x18;
pub const OP_MULT: u8 = 0x19;
pub const OP_DIV: u8 = 0x1A;
pub const OP_MOD: u8 = 0x1B;
pub const OP_NEGATE: u8 = 0x1C;
pub const OP_ABS: u8 = 0x1D;
pub const OP_SHIFT_L: u8 = 0x1E;
pub const OP_SHIFT_R: u8 = 0x1F;
pub const OP_LOGICAL_AND: u8 = 0x20;
pub const OP_LOGICAL_OR: u8 = 0x21;
pub const OP_LOGICAL_NOT: u8 = 0x22;
pub const OP_BITWISE_AND: u8 = 0x23;
pub const OP_BITWISE_OR: u8 = 0x24;
pub const OP_BITWISE_XOR: u8 = 0x25;
pub const OP_BITWISE_NOT: u8 = 0x26;
pub const OP_BRANCH_TRUE: u8 = 0x27;
pub const OP_BRANCH_FALSE: u8 = 0x28;
pub const OP_BRANCH_TRUE_NO_POP: u8 = 0x29;
pub const OP_BRANCH_FALSE_NO_POP: u8 = 0x2A;
pub const OP_JUMP: u8 = 0x2B;
pub const OP_CALL: u8 = 0x2C;
pub const OP_SYS_CALL: u8 = 0x2D;
pub const OP_RETURN: u8 = 0x2E;
pub const OP_SWITCH: u8 = 0x2F;
pub const OP_UNK2: u8 = 0x30;
pub const OP_UNK3: u8 = 0x31;
pub const OP_UNK4: u8 = 0x32;
pub const OP_END: u8 = 0x33;
pub const OP_SLEEP: u8 = 0x34;
pub const OP_PRINT: u8 = 0x35;
pub const OP_TARGET: u8 = 0x36;

/// One decoded instruction. Every instruction occupies 2, 4 or 6 bytes: the
/// opcode word alone, the opcode word plus one 16-bit operand, or the opcode
/// word plus one 32-bit operand. `PushFloat` keeps the raw IEEE-754 bit
/// pattern of its operand, so that any pattern — NaN and infinity included —
/// round-trips unchanged. The `Unk*` variants preserve opcodes whose meaning
/// is not known; their raw operands are kept as read.
#[derive(Clone, Copy, Debug, PartialEq, Eq)]
pub enum Instruction {
    PushVar(u16),
    PushMultipleVars(u8, u16),
    PushVarIndexed(u16),
    PushInt(i32),
    PushFloat(u32),
    PushByte(u8),
    PushByteAsFloat(u8),
    PushString(u16),
    Pop,
    PopAndStore(u16),
    PopAndStoreMultiple(u8, u16),
    Store(u16),
    StoreIndexed(u16),
    Dup,
    Swap(u16),
    PushOwner,
    LessThan,
    LessThanEq,
    GtrThan,
    GtrThanEq,
    Equal,
    NotEqual,
    Add,
    Sub,
    Mult,
    Div,
    Mod,
    Negate,
    Abs,
    ShiftL,
    ShiftR,
    LogicalAnd,
    LogicalOr,
    LogicalNot,
    BitwiseAnd,
    BitwiseOr,
    BitwiseXor,
    BitwiseNot,
    BranchTrue(u16),
    BranchFalse(u16),
    BranchTrueNoPop(u16),
    BranchFalseNoPop(u16),
    Jump(u16),
    Call(u16),
    SysCall(u16),
    Return,
    Switch(u16),
    Unk2(u16),
    Unk3,
    Unk4,
    End,
    Sleep,
    Print,
    Target,
    Nop,
}

/// The total encoded size in bytes of the instruction that opcode byte `op`
/// begins: 2, 4 or 6 — or 0 when `op` is not an assigned opcode.
pub open spec fn op_len(op: u8) -> int {
    match op {
        OP_NOP => 2,
        OP_POP => 2,
        OP_DUP => 2,
        OP_PUSH_VAR => 4,
        OP_PUSH_VAR_INDEXED => 4,
        OP_PUSH_MULTIPLE_VARS => 4,
        OP_PUSH_INT => 6,
        OP_PUSH_FLOAT => 6,
        OP_PUSH_BYTE => 2,
        OP_PUSH_BYTE_AS_FLOAT => 2,
        OP_PUSH_STRING => 4,
        OP_PUSH_OWNER => 2,
        OP_POP_AND_STORE => 4,
        OP_POP_AND_STORE_MULTIPLE => 4,
        OP_STORE => 4,
        OP_STORE_INDEXED => 4,
        OP_SWAP => 4,
        OP_LESS_THAN => 2,
        OP_LESS_THAN_EQ => 2,
        OP_GTR_THAN => 2,
        OP_GTR_THAN_EQ => 2,
        OP_EQUAL => 2,
        OP_NOT_EQUAL => 2,
        OP_ADD => 2,
        OP_SUB => 2,
        OP_MULT => 2,
        OP_DIV => 2,
        OP_MOD => 2,
        OP_NEGATE => 2,
        OP_ABS => 2,
        OP_SHIFT_L => 2,
        OP_SHIFT_R => 2,
        OP_LOGICAL_AND => 2,
        OP_LOGICAL_OR => 2,
        OP_LOGICAL_NOT => 2,
        OP_BITWISE_AND => 2,
        OP_BITWISE_OR => 2,
        OP_BITWISE_XOR => 2,
        OP_BITWISE_NOT => 2,
        OP_BRANCH_TRUE => 4,
        OP_BRANCH_FALSE => 4,
        OP_BRANCH_TRUE_NO_POP => 4,
        OP_BRANCH_FALSE_NO_POP => 4,
        OP_JUMP => 4,
        OP_CALL => 4,
        OP_SYS_CALL => 4,
        OP_RETURN => 2,
        OP_SWITCH => 4,
        OP_UNK2 => 4,
        OP_UNK3 => 2,
        OP_UNK4 => 2,
        OP_END => 2,
        OP_SLEEP => 2,
        OP_PRINT => 2,
        OP_TARGET => 2,
        _ => 0,
    }
}

/// The instruction encoded at byte offset `pos` of `s`: opcode in the low
/// byte of the first word, immediate data in its high byte, then the operand
/// that the opcode's shape calls for. Meaningful when the opcode at `pos` is
/// assigned and `pos + op_len(s[pos])` bytes lie within `s`; an unassigned
/// opcode maps to `Nop` here, but the stream decoder rejects it first.
pub open spec fn spec_instr_at(s: Seq<u8>, pos: int) -> Instruction {
    let op = s[pos];
    let data = s[pos + 1];
    match op {
        OP_NOP => Instruction::Nop,
        OP_POP => Instruction::Pop,
        OP_DUP => Instruction::Dup,
        OP_PUSH_VAR => Instruction::PushVar(le16_at(s, pos + 2) as u16),
        OP_PUSH_VAR_INDEXED => Instruction::PushVarIndexed(le16_at(s, pos + 2) as u16),
        OP_PUSH_MULTIPLE_VARS => Instruction::PushMultipleVars(data, le16_at(s, pos + 2) as u16),
        OP_PUSH_INT => Instruction::PushInt(as_signed32(le32_at(s, pos + 2)) as i32),
        OP_PUSH_FLOAT => Instruction::PushFloat(le32_at(s, pos + 2) as u32),
        OP_PUSH_BYTE => Instruction::PushByte(data),
        OP_PUSH_BYTE_AS_FLOAT => Instruction::PushByteAsFloat(data),
        OP_PUSH_STRING => Instruction::PushString(le16_at(s, pos + 2) as u16),
        OP_PUSH_OWNER => Instruction::PushOwner,
        OP_POP_AND_STORE => Instruction::PopAndStore(le16_at(s, pos + 2) as u16),
        OP_POP_AND_STORE_MULTIPLE => Instruction::PopAndStoreMultiple(
            data,
            le16_at(s, pos + 2) as u16,
        ),
        OP_STORE => Instruction::Store(le16_at(s, pos + 2) as u16),
        OP_STORE_INDEXED => Instruction::StoreIndexed(le16_at(s, pos + 2) as u16),
        OP_SWAP => Instruction::Swap(le16_at(s, pos + 2) as u16),
        OP_LESS_THAN => Instruction::LessThan,
        OP_LESS_THAN_EQ => Instruction::LessThanEq,
        OP_GTR_THAN => Instruction::GtrThan,
        OP_GTR_THAN_EQ => Instruction::GtrThanEq,
        OP_EQUAL => Instruction::Equal,
        OP_NOT_EQUAL => Instruction::NotEqual,
        OP_ADD => Instruction::Add,
        OP_SUB => Instruction::Sub,
        OP_MULT => Instruction::Mult,
        OP_DIV => Instruction::Div,
        OP_MOD => Instruction::Mod,
        OP_NEGATE => Instruction::Negate,
        OP_ABS => Instruction::Abs,
        OP_SHIFT_L => Instruction::ShiftL,
        OP_SHIFT_R => Instruction::ShiftR,
        OP_LOGICAL_AND => Instruction::LogicalAnd,
        OP_LOGICAL_OR => Instruction::LogicalOr,
        OP_LOGICAL_NOT => Instruction::LogicalNot,
        OP_BITWISE_AND => Instruction::BitwiseAnd,
        OP_BITWISE_OR => Instruction::BitwiseOr,
        OP_BITWISE_XOR => Instruction::BitwiseXor,
        OP_BITWISE_NOT => Instruction::BitwiseNot,
        OP_BRANCH_TRUE => Instruction::BranchTrue(le16_at(s, pos + 2) as u16),
        OP_BRANCH_FALSE => Instruction::BranchFalse(le16_at(s, pos + 2) as u16),
        OP_BRANCH_TRUE_NO_POP => Instruction::BranchTrueNoPop(le16_at(s, pos + 2) as u16),
        OP_BRANCH_FALSE_NO_POP => Instruction::BranchFalseNoPop(le16_at(s, pos + 2) as u16),
        OP_JUMP => Instruction::Jump(le16_at(s, pos + 2) as u16),
        OP_CALL => Instruction::Call(le16_at(s, pos + 2) as u16),
        OP_SYS_CALL => Instruction::SysCall(le16_at(s, pos + 2) as u16),
        OP_RETURN => Instruction::Return,
        OP_SWITCH => Instruction::Switch(le16_at(s, pos + 2) as u16),
        OP_UNK2 => Instruction::Unk2(le16_at(s, pos + 2) as u16),
        OP_UNK3 => Instruction::Unk3,
        OP_UNK4 => Instruction::Unk4,
        OP_END => Instruction::End,
        OP_SLEEP => Instruction::Sleep,
        OP_PRINT => Instruction::Print,
        OP_TARGET => Instruction::Target,
        _ => Instruction::Nop,
    }
}

/// Executable mirror of `op_len`: the opcode shape table.
pub fn op_size(op: u8) -> (n: usize)
    ensures
        n == op_len(op),
{
    match op {
        OP_NOP => 2,
        OP_POP => 2,
        OP_DUP => 2,
        OP_PUSH_VAR => 4,
        OP_PUSH_VAR_INDEXED => 4,
        OP_PUSH_MULTIPLE_VARS => 4,
        OP_PUSH_INT => 6,
        OP_PUSH_FLOAT => 6,
        OP_PUSH_BYTE => 2,
        OP_PUSH_BYTE_AS_FLOAT => 2,
        OP_PUSH_STRING => 4,
        OP_PUSH_OWNER => 2,
        OP_POP_AND_STORE => 4,
        OP_POP_AND_STORE_MULTIPLE => 4,
        OP_STORE => 4,
        OP_STORE_INDEXED => 4,
        OP_SWAP => 4,
        OP_LESS_THAN => 2,
        OP_LESS_THAN_EQ => 2,
        OP_GTR_THAN => 2,
        OP_GTR_THAN_EQ => 2,
        OP_EQUAL => 2,
        OP_NOT_EQUAL => 2,
        OP_ADD => 2,
        OP_SUB => 2,
        OP_MULT => 2,
        OP_DIV => 2,
        OP_MOD => 2,
        OP_NEGATE => 2,
        OP_ABS => 2,
        OP_SHIFT_L => 2,
        OP_SHIFT_R => 2,
        OP_LOGICAL_AND => 2,
        OP_LOGICAL_OR => 2,
        OP_LOGICAL_NOT => 2,
        OP_BITWISE_AND => 2,
        OP_BITWISE_OR => 2,
        OP_BITWISE_XOR => 2,
        OP_BITWISE_NOT => 2,
        OP_BRANCH_TRUE => 4,
        OP_BRANCH_FALSE => 4,
        OP_BRANCH_TRUE_NO_POP => 4,
        OP_BRANCH_FALSE_NO_POP => 4,
        OP_JUMP => 4,
        OP_CALL => 4,
        OP_SYS_CALL => 4,
        OP_RETURN => 2,
        OP_SWITCH => 4,
        OP_UNK2 => 4,
        OP_UNK3 => 2,
        OP_UNK4 => 2,
        OP_END => 2,
        OP_SLEEP => 2,
        OP_PRINT => 2,
        OP_TARGET => 2,
        _ => 0,
    }
}

/// Read the one instruction at `pos`, whose opcode and operand bytes all lie
/// within `bytes`.
pub fn read_instr_at(bytes: &[u8], pos: usize) -> (ins: Instruction)
    requires
        pos + 2 <= bytes@.len(),
        pos + op_len(bytes@[pos as int]) <= bytes@.len(),
    ensures
        ins == spec_instr_at(bytes@, pos as int),
{
    let op = bytes[pos];
    let data = bytes[pos + 1];
    match op {
        OP_NOP => Instruction::Nop,
        OP_POP => Instruction::Pop,
        OP_DUP => Instruction::Dup,
        OP_PUSH_VAR => Instruction::PushVar(read_u16_at(bytes, pos + 2)),
        OP_PUSH_VAR_INDEXED => Instruction::PushVarIndexed(read_u16_at(bytes, pos + 2)),
        OP_PUSH_MULTIPLE_VARS => Instruction::PushMultipleVars(data, read_u16_at(bytes, pos + 2)),
        OP_PUSH_INT => Instruction::PushInt(read_i32_at(bytes, pos + 2)),
        OP_PUSH_FLOAT => Instruction::PushFloat(read_u32_at(bytes, pos + 2)),
        OP_PUSH_BYTE => Instruction::PushByte(data),
        OP_PUSH_BYTE_AS_FLOAT => Instruction::PushByteAsFloat(data),
        OP_PUSH_STRING => Instruction::PushString(read_u16_at(bytes, pos + 2)),
        OP_PUSH_OWNER => Instruction::PushOwner,
        OP_POP_AND_STORE => Instruction::PopAndStore(read_u16_at(bytes, pos + 2)),
        OP_POP_AND_STORE_MULTIPLE => Instruction::PopAndStoreMultiple(
            data,
            read_u16_at(bytes, pos + 2),
        ),
        OP_STORE => Instruction::Store(read_u16_at(bytes, pos + 2)),
        OP_STORE_INDEXED => Instruction::StoreIndexed(read_u16_at(bytes, pos + 2)),
        OP_SWAP => Instruction::Swap(read_u16_at(bytes, pos + 2)),
        OP_LESS_THAN => Instruction::LessThan,
        OP_LESS_THAN_EQ => Instruction::LessThanEq,
        OP_GTR_THAN => Instruction::GtrThan,
        OP_GTR_THAN_EQ => Instruction::GtrThanEq,
        OP_EQUAL => Instruction::Equal,
        OP_NOT_EQUAL => Instruction::NotEqual,
        OP_ADD => Instruction::Add,
        OP_SUB => Instruction::Sub,
        OP_MULT => Instruction::Mult,
        OP_DIV => Instruction::Div,
        OP_MOD => Instruction::Mod,
        OP_NEGATE => Instruction::Negate,
        OP_ABS => Instruction::Abs,
        OP_SHIFT_L => Instruction::ShiftL,
        OP_SHIFT_R => Instruction::ShiftR,
        OP_LOGICAL_AND => Instruction::LogicalAnd,
        OP_LOGICAL_OR => Instruction::LogicalOr,
        OP_LOGICAL_NOT => Instruction::LogicalNot,
        OP_BITWISE_AND => Instruction::BitwiseAnd,
        OP_BITWISE_OR => Instruction::BitwiseOr,
        OP_BITWISE_XOR => Instruction::BitwiseXor,
        OP_BITWISE_NOT => Instruction::BitwiseNot,
        OP_BRANCH_TRUE => Instruction::BranchTrue(read_u16_at(bytes, pos + 2)),
        OP_BRANCH_FALSE => Instruction::BranchFalse(read_u16_at(bytes, pos + 2)),
        OP_BRANCH_TRUE_NO_POP => Instruction::BranchTrueNoPop(read_u16_at(bytes, pos + 2)),
        OP_BRANCH_FALSE_NO_POP => Instruction::BranchFalseNoPop(read_u16_at(bytes, pos + 2)),
        OP_JUMP => Instruction::Jump(read_u16_at(bytes, pos + 2)),
        OP_CALL => Instruction::Call(read_u16_at(bytes, pos + 2)),
        OP_SYS_CALL => Instruction::SysCall(read_u16_at(bytes, pos + 2)),
        OP_RETURN => Instruction::Return,
        OP_SWITCH => Instruction::Switch(read_u16_at(bytes, pos + 2)),
        OP_UNK2 => Instruction::Unk2(read_u16_at(bytes, pos + 2)),
        OP_UNK3 => Instruction::Unk3,
        OP_UNK4 => Instruction::Unk4,
        OP_END => Instruction::End,
        OP_SLEEP => Instruction::Sleep,
        OP_PRINT => Instruction::Print,
        OP_TARGET => Instruction::Target,
        _ => Instruction::Nop,
    }
}

} // verus!
