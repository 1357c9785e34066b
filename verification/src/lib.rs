//! Decoder for compiled script bytecode modules: a fixed-layout header of 26
//! little-endian 32-bit fields, followed by a variable-width instruction
//! stream whose total length is declared in 16-bit words, followed by nine
//! fixed-stride record sections laid out contiguously in a fixed order.

pub mod bytes;
pub mod error;
pub mod header;
pub mod instruction;
pub mod laws;
pub mod module;
pub mod records;
pub mod stream;
pub mod text;
