use vstd::prelude::*;

verus! {

/// The ways in which an operation of this library can fail.
#[derive(Clone, Copy, Debug, PartialEq, Eq, Structural)]
pub enum Error {
    /// Bit-decomposition was asked of a value whose origin modulus is not a power of two,
    /// or of a value that carries no encoding.
    InvalidEncoding,
    /// Recomposition was asked under a modulus for which no inverse of three is known.
    UnsupportedModulus,
    /// The number of inputs (or of bits) does not match what the operation expects.
    ArityMismatch,
    /// A register reference falls outside its register file once the offset is removed,
    /// or an operation writes to the input file.
    RegisterOutOfBounds,
    /// A T or Y register is read before any earlier operation wrote it.
    ReadBeforeWrite,
    /// The textual circuit source is malformed.
    ParseError,
    /// The evaluator handed back a value that the operation cannot use.
    EvaluatorFailure,
}

} // verus!
