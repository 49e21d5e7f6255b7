use vstd::prelude::*;

verus! {

/// The algebraic domain of an encrypted value's plaintext.
#[derive(Clone, Debug)]
pub struct Encoding {
    /// Size of the cleartext domain before this encoding was applied.
    pub origin_modulus: u64,
    /// Size of the ring used by the encrypted representation.
    pub modulus: u64,
    /// The canonical image of each cleartext value in the ring.
    pub coefficients: Vec<u64>,
    /// The number of distinct plaintext values.
    pub arity: usize,
}

/// The mathematical content of an [`Encoding`].
pub struct EncodingView {
    pub origin_modulus: u64,
    pub modulus: u64,
    pub coefficients: Seq<u64>,
    pub arity: usize,
}

impl View for Encoding {
    type V = EncodingView;

    open spec fn view(&self) -> EncodingView {
        EncodingView {
            origin_modulus: self.origin_modulus,
            modulus: self.modulus,
            coefficients: self.coefficients@,
            arity: self.arity,
        }
    }
}

impl Encoding {
    /// A canonical encoding: `origin_modulus` cleartext values, value `i` mapped to
    /// `coefficients[i]` in the ring of size `modulus`.
    pub fn new_canonical(origin_modulus: u64, coefficients: Vec<u64>, modulus: u64) -> (e: Encoding)
        ensures
            e.origin_modulus == origin_modulus,
            e.modulus == modulus,
            e.coefficients@ == coefficients@,
            e.arity == coefficients@.len(),
    {
        let arity = coefficients.len();
        Encoding { origin_modulus, modulus, coefficients, arity }
    }

    /// A copy with the same content.
    pub fn duplicate(&self) -> (e: Encoding)
        ensures
            e@ == self@,
    {
        Encoding {
            origin_modulus: self.origin_modulus,
            modulus: self.modulus,
            coefficients: self.coefficients.clone(),
            arity: self.arity,
        }
    }
}

/// An encrypted scalar tagged with its encoding, or a public value that stands in
/// for a register that has not been computed yet.
#[derive(Clone, Debug)]
pub enum EncryptedValue<P> {
    EncodingEncrypted(P, Encoding),
    Trivial(u64),
}

} // verus!
