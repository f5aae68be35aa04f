//! Verified core of the SiFli UART ARM debug interface.
//!
//! The library decides everything that the UART debug interface decides:
//! how an unaligned memory access is widened to whole 32-bit words, which
//! words have to be fetched before a partial write, how the fetched words are
//! merged with the new bytes, and what the fixed register answers of the
//! interface are. The serial I/O itself is done by the caller, which feeds the
//! device's answers back into the transfers of [`memory`].
mod bytes;
pub mod types;
pub mod probe;
pub mod memory;
pub mod laws;
pub mod sf32lb52;
pub mod model;

use vstd::prelude::*;

verus! {

} // verus!
