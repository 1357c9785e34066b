use vstd::prelude::*;

verus! {

/// A decode failure. Every variant carries the byte offset in the input at
/// which the failure occurred, to aid diagnosing corrupt files.
#[derive(Clone, Copy, Debug, PartialEq, Eq)]
pub enum DecodeError {
    /// Fewer bytes remain in the input than a fixed-size read requires.
    Truncated { offset: usize },
    /// The instruction stream would overrun its declared word budget
    /// mid-instruction, or an opcode byte maps to no known shape.
    MalformedStream { offset: usize },
    /// The underlying byte source failed. The decoder itself never raises
    /// this; it is for callers that read the bytes from an I/O source.
    IoFailure { offset: usize },
}

} // verus!
