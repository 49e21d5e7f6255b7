//! Linear (XOR/XNOR) circuits over homomorphically encrypted bits, and the switch
//! between a value encoded modulo a ring and its encrypted bits.
//!
//! The evaluator that computes on ciphertexts is handed in by the caller: the
//! circuit interpreter takes its sum and complement as closures, and the
//! decomposition and recomposition functions return the exact lookups, encodings
//! and constants that the evaluator is to apply.
use vstd::prelude::*;

pub mod casts;
pub mod circuit;
pub mod encoding;
pub mod error;
pub mod interpreter;
pub mod parse;
pub mod tables;

pub use casts::{decomposer, extract_bit, recomposer, retag, BitExtraction, BitStage};
pub use circuit::{CircuitDefinition, Opcode, Operation, RegFile, RegRef};
pub use encoding::{Encoding, EncryptedValue};
pub use error::Error;
pub use interpreter::LinearCircuit;
pub use tables::Table;

verus! {

} // verus!
