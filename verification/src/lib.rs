//! Byte quantities: a count of bytes with unit-scaled constructors, arithmetic,
//! a human-readable rendering in decimal (powers of 1000) or binary (powers of
//! 1024) units, and a parser that reads such text back into an exact count.
//!
//! The engine is in four modules. `unit` holds the unit table and resolves
//! suffixes against it. `render` chooses the magnitude of a count and renders
//! it with one decimal place, on the rounding of `rounding`. `parse` reads a
//! mantissa and a suffix, and `mantissa` multiplies the two exactly.
//! `parse_laws` and `round_trip` state what holds of them together.
//!
//! Two kinds of sizes stand on the engine. The items at the root are sizes
//! whose rendering is chosen by a formatter at each call. `bytelike` holds
//! the sizes that are displayed in binary units, with what byte-like types
//! share.

pub mod bytelike;
pub mod bytelike_ops;
pub mod bytelike_size;
pub mod conversion;
pub mod decimal;
pub mod mantissa;
pub mod order;
pub mod parse;
pub mod parse_laws;
pub mod render;
pub mod round_trip;
pub mod rounding;
pub mod scan;
pub mod size;
pub mod size_ops;
pub mod text;
pub mod unit;
pub mod wire;

pub use parse::{Failure, Rejection};
pub use size::{
    gb, gib, humanize, kb, kib, mb, mib, pb, pib, tb, tib, to_string, ByteFormatter, ByteSize,
    IEC, SI, Sort,
};
pub use unit::{Unit, B, GB, GIB, KB, KIB, MB, MIB, PB, PIB, TB, TIB};
