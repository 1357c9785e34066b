use vstd::prelude::*;

use crate::error::DecodeError;
use crate::instruction::{op_len, op_size, read_instr_at, spec_instr_at, Instruction};

verus! {

/// The instruction sequence encoded in `s` between byte offsets `pos` and
/// `end`, where `end` marks the exact end of the stream's declared word
/// budget. Decoding one instruction first holds its size against the budget
/// (`MalformedStream`: an unassigned opcode, or an operand that would cross
/// `end` into the next section) and then against the buffer (`Truncated`:
/// the bytes are simply not there). Errors carry the byte offset of the
/// instruction that failed, or of the read that could not be served.
pub open spec fn spec_decode_stream(s: Seq<u8>, pos: int, end: int) -> Result<
    Seq<Instruction>,
    DecodeError,
>
    decreases end - pos,
{
    if pos >= end {
        Ok(Seq::empty())
    } else if pos + 2 > end {
        Err(DecodeError::MalformedStream { offset: pos as usize })
    } else if pos + 2 > s.len() {
        Err(DecodeError::Truncated { offset: pos as usize })
    } else {
        let n = op_len(s[pos]);
        if n == 0 {
            Err(DecodeError::MalformedStream { offset: pos as usize })
        } else if pos + n > end {
            Err(DecodeError::MalformedStream { offset: pos as usize })
        } else if pos + n > s.len() {
            Err(DecodeError::Truncated { offset: (pos + 2) as usize })
        } else {
            match spec_decode_stream(s, pos + n, end) {
                Ok(rest) => Ok(seq![spec_instr_at(s, pos)] + rest),
                Err(e) => Err(e),
            }
        }
    }
}

/// Loop invariant of `decode_instructions`: what remains to be decoded from
/// `pos` on, appended to what has been decoded already, is exactly the
/// decode of the whole stream.
spec fn stream_inv(s: Seq<u8>, start: int, pos: int, end: int, acc: Seq<Instruction>) -> bool {
    match spec_decode_stream(s, pos, end) {
        Ok(rest) => spec_decode_stream(s, start, end) == Ok::<Seq<Instruction>, DecodeError>(
            acc + rest,
        ),
        Err(e) => spec_decode_stream(s, start, end) == Err::<Seq<Instruction>, DecodeError>(e),
    }
}

/// Decode the instruction stream that occupies exactly `opcode_count` 16-bit
/// words starting at byte offset `start`. On success the returned offset is
/// exactly `start + opcode_count * 2`: the whole declared byte budget is
/// consumed, never more and never less, while the number of decoded
/// instructions may be smaller than `opcode_count` whenever a 4- or 6-byte
/// instruction appears.
pub fn decode_instructions(bytes: &[u8], start: usize, opcode_count: u32) -> (r: Result<
    (Vec<Instruction>, usize),
    DecodeError,
>)
    ensures
        match r {
            Ok(p) => spec_decode_stream(bytes@, start as int, start + opcode_count * 2)
                == Ok::<Seq<Instruction>, DecodeError>(p.0@) && p.1 == start + opcode_count * 2,
            Err(e) => spec_decode_stream(bytes@, start as int, start + opcode_count * 2)
                == Err::<Seq<Instruction>, DecodeError>(e),
        },
{
    let ghost end: int = start + opcode_count * 2;
    let len = bytes.len();
    let mut pos: usize = start;
    let mut remaining: u64 = (opcode_count as u64) * 2;
    let mut out: Vec<Instruction> = Vec::new();
    proof {
        assert(out@ + spec_decode_stream(bytes@, start as int, end)->Ok_0 =~= spec_decode_stream(
            bytes@,
            start as int,
            end,
        )->Ok_0);
    }
    while remaining > 0
        invariant
            len == bytes@.len(),
            pos + remaining == start + opcode_count * 2,
            end == start + opcode_count * 2,
            stream_inv(bytes@, start as int, pos as int, end, out@),
        decreases remaining,
    {
        let ghost s = bytes@;
        let ghost p = pos as int;
        if remaining < 2 {
            return Err(DecodeError::MalformedStream { offset: pos });
        }
        if pos >= len || len - pos < 2 {
            return Err(DecodeError::Truncated { offset: pos });
        }
        let op = bytes[pos];
        let n = op_size(op);
        if n == 0 {
            return Err(DecodeError::MalformedStream { offset: pos });
        }
        if remaining < n as u64 {
            return Err(DecodeError::MalformedStream { offset: pos });
        }
        if len - pos < n {
            return Err(DecodeError::Truncated { offset: pos + 2 });
        }
        let ins = read_instr_at(bytes, pos);
        proof {
            let rest_result = spec_decode_stream(s, p + op_len(op), end);
            if rest_result is Ok {
                assert(out@.push(ins) + rest_result->Ok_0 =~= out@ + (seq![ins]
                    + rest_result->Ok_0));
            }
        }
        out.push(ins);
        pos = pos + n;
        remaining = remaining - (n as u64);
    }
    proof {
        assert(spec_decode_stream(bytes@, pos as int, end) == Ok::<
            Seq<Instruction>,
            DecodeError,
        >(Seq::empty()));
        assert(out@ + Seq::<Instruction>::empty() =~= out@);
    }
    Ok((out, pos))
}

} // verus!
