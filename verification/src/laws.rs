use vstd::prelude::*;

use crate::bytes::as_signed32;
use crate::error::DecodeError;
use crate::instruction::{
    op_len, spec_instr_at, Instruction, OP_PUSH_BYTE, OP_PUSH_BYTE_AS_FLOAT, OP_PUSH_FLOAT,
    OP_PUSH_INT,
};
use crate::stream::spec_decode_stream;

verus! {

/// Decoding splits at any cleanly reached offset: when the bytes between
/// `start` and `mid` decode completely as a stream of their own, decoding on
/// to `end` yields those instructions followed by the decode of the rest —
/// and in particular fails with exactly the error of the rest.
pub proof fn lemma_stream_split(s: Seq<u8>, start: int, mid: int, end: int)
    requires
        start <= mid <= end,
        spec_decode_stream(s, start, mid) is Ok,
    ensures
        spec_decode_stream(s, start, end) == match spec_decode_stream(s, mid, end) {
            Ok(rest) => Ok::<Seq<Instruction>, DecodeError>(
                spec_decode_stream(s, start, mid)->Ok_0 + rest,
            ),
            Err(e) => Err::<Seq<Instruction>, DecodeError>(e),
        },
    decreases mid - start,
{
    if start >= mid {
        if spec_decode_stream(s, mid, end) is Ok {
            assert(Seq::<Instruction>::empty() + spec_decode_stream(s, mid, end)->Ok_0
                =~= spec_decode_stream(s, mid, end)->Ok_0);
        }
    } else {
        let n = op_len(s[start]);
        lemma_stream_split(s, start + n, mid, end);
        let head = seq![spec_instr_at(s, start)];
        let prefix_rest = spec_decode_stream(s, start + n, mid)->Ok_0;
        if spec_decode_stream(s, mid, end) is Ok {
            let tail = spec_decode_stream(s, mid, end)->Ok_0;
            assert(head + (prefix_rest + tail) =~= (head + prefix_rest) + tail);
        }
    }
}

/// High-byte round trip: an instruction word whose low byte is `PushByte`'s
/// opcode and whose high byte is `n` — laid out little-endian as the two
/// bytes `[opcode, n]` — decodes to exactly `PushByte(n)`, for every `n` in
/// 0..=255; likewise `PushByteAsFloat`.
pub proof fn lemma_high_byte_round_trip(n: u8)
    ensures
        spec_decode_stream(seq![OP_PUSH_BYTE, n], 0, 2) == Ok::<Seq<Instruction>, DecodeError>(
            seq![Instruction::PushByte(n)],
        ),
        spec_decode_stream(seq![OP_PUSH_BYTE_AS_FLOAT, n], 0, 2) == Ok::<
            Seq<Instruction>,
            DecodeError,
        >(seq![Instruction::PushByteAsFloat(n)]),
{
    reveal_with_fuel(spec_decode_stream, 3);
    let s1: Seq<u8> = seq![OP_PUSH_BYTE, n];
    assert(seq![spec_instr_at(s1, 0)] + Seq::<Instruction>::empty() =~= seq![
        Instruction::PushByte(n),
    ]);
    let s2: Seq<u8> = seq![OP_PUSH_BYTE_AS_FLOAT, n];
    assert(seq![spec_instr_at(s2, 0)] + Seq::<Instruction>::empty() =~= seq![
        Instruction::PushByteAsFloat(n),
    ]);
}

/// 32-bit operand fidelity: `PushInt` decodes the four bytes after its
/// opcode word as one little-endian two's-complement integer, and
/// `PushFloat` keeps the same four little-endian bytes as its exact IEEE-754
/// bit pattern, for every choice of operand bytes and of the ignored data
/// byte `d`.
pub proof fn lemma_dword_operand_fidelity(d: u8, b0: u8, b1: u8, b2: u8, b3: u8)
    ensures
        spec_decode_stream(seq![OP_PUSH_INT, d, b0, b1, b2, b3], 0, 6) == Ok::<
            Seq<Instruction>,
            DecodeError,
        >(
            seq![
                Instruction::PushInt(
                    as_signed32(b0 + 0x100 * b1 + 0x1_0000 * b2 + 0x100_0000 * b3) as i32,
                ),
            ],
        ),
        spec_decode_stream(seq![OP_PUSH_FLOAT, d, b0, b1, b2, b3], 0, 6) == Ok::<
            Seq<Instruction>,
            DecodeError,
        >(
            seq![
                Instruction::PushFloat(
                    (b0 + 0x100 * b1 + 0x1_0000 * b2 + 0x100_0000 * b3) as u32,
                ),
            ],
        ),
{
    reveal_with_fuel(spec_decode_stream, 3);
    let s1: Seq<u8> = seq![OP_PUSH_INT, d, b0, b1, b2, b3];
    assert(seq![spec_instr_at(s1, 0)] + Seq::<Instruction>::empty() =~= seq![spec_instr_at(s1, 0)]);
    let s2: Seq<u8> = seq![OP_PUSH_FLOAT, d, b0, b1, b2, b3];
    assert(seq![spec_instr_at(s2, 0)] + Seq::<Instruction>::empty() =~= seq![spec_instr_at(s2, 0)]);
}

/// Unknown opcode rejection: when decoding reaches an opcode byte with no
/// assigned shape, the stream from that offset on is `MalformedStream` at
/// exactly that offset — never a truncated or shifted instruction list. By
/// `lemma_stream_split`, the same error is the result for the whole stream
/// whenever the instructions before that offset decode cleanly.
pub proof fn lemma_unknown_opcode_rejected(s: Seq<u8>, pos: int, end: int)
    requires
        pos < end,
        pos + 2 <= s.len(),
        op_len(s[pos]) == 0,
    ensures
        spec_decode_stream(s, pos, end) == Err::<Seq<Instruction>, DecodeError>(
            DecodeError::MalformedStream { offset: pos as usize },
        ),
{
}

/// Boundary truncation: an instruction whose declared operand size crosses
/// the end of the word budget is `MalformedStream`, even when the buffer
/// itself holds more bytes — the operand is never read out of the section
/// that follows the stream.
pub proof fn lemma_operand_crossing_budget_rejected(s: Seq<u8>, pos: int, end: int)
    requires
        pos + 2 <= end,
        pos + 2 <= s.len(),
        op_len(s[pos]) > 0,
        pos + op_len(s[pos]) > end,
    ensures
        spec_decode_stream(s, pos, end) == Err::<Seq<Instruction>, DecodeError>(
            DecodeError::MalformedStream { offset: pos as usize },
        ),
{
}

} // verus!
