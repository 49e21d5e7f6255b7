use vstd::arithmetic::power2::{lemma_pow2_strictly_increases, lemma_pow2_unfold, pow2};
use vstd::prelude::*;

use crate::encoding::{Encoding, EncodingView, EncryptedValue};
use crate::error::Error;

verus! {

/// The number of bits that a domain of size `o` splits into, where `o` is a power of two.
pub open spec fn bit_count(o: u64) -> nat
    recommends
        is_power_of_two(o),
{
    choose|k: nat| k < 64 && pow2(k) == o
}

/// `o` is a power of two that fits in 64 bits.
pub open spec fn is_power_of_two(o: u64) -> bool {
    exists|k: nat| k < 64 && pow2(k) == o
}

/// Bit `i` of `v`.
pub open spec fn bit_of(v: u64, i: u32) -> u64 {
    (v >> i) & 1
}

/// Bit `i` of `v`, the lookup that bit-decomposition evaluates for each position.
pub fn extract_bit(v: u64, i: u32) -> (r: u64)
    requires
        i < 64,
    ensures
        r == bit_of(v, i),
        r <= 1,
{
    let r = (v >> i) & 1;
    assert(r <= 1) by (bit_vector)
        requires
            r == (v >> i) & 1,
    ;
    r
}

/// The exponent of `o` as a power of two, or `None` where `o` is not one.
pub fn log2_exact(o: u64) -> (r: Option<u32>)
    ensures
        r.is_some() <==> is_power_of_two(o),
        r.is_some() ==> r.unwrap() < 64 && pow2(r.unwrap() as nat) == o && r.unwrap() as nat
            == bit_count(o),
{
    let mut p: u64 = 1;
    let mut k: u32 = 0;
    proof {
        vstd::arithmetic::power2::lemma2_to64();
    }
    while p < o && k < 63
        invariant
            k <= 63,
            p as nat == pow2(k as nat),
            forall|j: nat| j < k ==> pow2(j) < o,
        decreases 63 - k,
    {
        proof {
            lemma_pow2_unfold((k + 1) as nat);
            vstd::arithmetic::power2::lemma2_to64_rest();
            if k + 1 < 63 {
                lemma_pow2_strictly_increases((k + 1) as nat, 63);
            }
        }
        p = p * 2;
        k = k + 1;
    }
    if p == o {
        proof {
            assert forall|j: nat| j < 64 && pow2(j) == o implies j == k by {
                if j > k {
                    lemma_pow2_strictly_increases(k as nat, j);
                }
            }
        }
        Some(k)
    } else {
        proof {
            assert forall|j: nat| j < 64 implies pow2(j) != o by {
                if j > k {
                    lemma_pow2_strictly_increases(k as nat, j);
                }
            }
        }
        None
    }
}

/// The work of one bit-decomposition: one lookup per bit, most significant first,
/// each extracting the bit at `shifts[k]` and yielding a value under `encodings[k]`.
pub struct BitExtraction {
    pub encodings: Vec<Encoding>,
    pub shifts: Vec<u32>,
}

/// `b` extracts the `bits` bits of a value, most significant first, each under `e`.
pub open spec fn extracts_bits(b: BitExtraction, bits: nat, e: EncodingView) -> bool {
    &&& b.shifts@.len() == bits
    &&& b.encodings@.len() == bits
    &&& forall|k: int| 0 <= k < bits ==> #[trigger] b.shifts@[k] == bits - 1 - k
    &&& forall|k: int| 0 <= k < bits ==> (#[trigger] b.encodings@[k])@ == e
}

/// Plans the bit-decomposition of `input` into bits under `encoding_out`: the input's
/// origin modulus must be a power of two `2^n`, and then `n` bits come out, most
/// significant first.
pub fn decomposer<P>(input: &EncryptedValue<P>, encoding_out: &Encoding) -> (r: Result<
    BitExtraction,
    Error,
>)
    ensures
        input is Trivial ==> r == Err::<BitExtraction, Error>(Error::InvalidEncoding),
        input matches EncryptedValue::EncodingEncrypted(_, enc) ==> {
            &&& !is_power_of_two(enc.origin_modulus) ==> r == Err::<BitExtraction, Error>(
                Error::InvalidEncoding,
            )
            &&& is_power_of_two(enc.origin_modulus) ==> (r matches Ok(b) && extracts_bits(
                b,
                bit_count(enc.origin_modulus),
                encoding_out@,
            ))
        },
{
    let encoding_in = match input {
        EncryptedValue::EncodingEncrypted(_, enc) => enc,
        EncryptedValue::Trivial(_) => {
            return Err(Error::InvalidEncoding);
        },
    };
    let bits = match log2_exact(encoding_in.origin_modulus) {
        Some(n) => n,
        None => {
            return Err(Error::InvalidEncoding);
        },
    };
    let mut encodings: Vec<Encoding> = Vec::new();
    let mut shifts: Vec<u32> = Vec::new();
    let mut k: u32 = 0;
    while k < bits
        invariant
            k <= bits < 64,
            shifts@.len() == k,
            encodings@.len() == k,
            forall|m: int| 0 <= m < k ==> #[trigger] shifts@[m] == bits - 1 - m,
            forall|m: int| 0 <= m < k ==> (#[trigger] encodings@[m])@ == encoding_out@,
        decreases bits - k,
    {
        shifts.push(bits - 1 - k);
        encodings.push(encoding_out.duplicate());
        k = k + 1;
    }
    Ok(BitExtraction { encodings, shifts })
}

/// The inverse of 3 modulo `p`, for the moduli where recomposition knows it.
pub open spec fn known_inverse_of_three(p: u64) -> Option<u64> {
    if p == 17 {
        Some(6)
    } else {
        None
    }
}

/// The inverse of 3 modulo `p`, where recomposition supports `p`.
pub fn inverse_of_three(p: u64) -> (r: Option<u64>)
    ensures
        r == known_inverse_of_three(p),
        r matches Some(i) ==> (3 * i) % (p as int) == 1,
{
    if p == 17 {
        Some(6)
    } else {
        None
    }
}

/// The weight given to bit `k` of a recomposition (`4, 2, 1, 3`).
pub open spec fn recompose_weight(k: int) -> u64 {
    if k == 0 {
        4
    } else if k == 1 {
        2
    } else if k == 2 {
        1
    } else {
        3
    }
}

/// The public constant that bit `k` is multiplied by once it has been re-centred.
pub open spec fn recompose_multiplier(k: int) -> u64 {
    if k == 3 {
        3
    } else {
        1
    }
}

/// The negacyclic boolean encoding for weight `w` under modulus `p`: false maps to
/// `p - w` and true to `w`.
pub open spec fn negacyclic_binary(w: u64, p: u64) -> EncodingView {
    EncodingView { origin_modulus: 2, modulus: p, coefficients: seq![(p - w) as u64, w], arity: 2 }
}

/// What one bit goes through during recomposition: an encoding switch to `encoding`,
/// the addition of `constant`, then a multiplication by `multiplier`.
pub struct BitStage {
    pub encoding: Encoding,
    pub constant: u64,
    pub multiplier: u64,
}

/// `stages` is the recomposition of four bits under modulus `p`.
pub open spec fn recompose_stages(stages: Seq<BitStage>, p: u64) -> bool {
    &&& stages.len() == 4
    &&& forall|k: int|
        0 <= k < 4 ==> {
            &&& (#[trigger] stages[k]).encoding@ == negacyclic_binary(recompose_weight(k), p)
            &&& stages[k].constant == recompose_weight(k)
            &&& stages[k].multiplier == recompose_multiplier(k)
        }
}

/// The residue that bit value `b` (0 or 1) holds after going through stage `s`.
pub open spec fn stage_value(s: BitStage, b: u64) -> int {
    let p = s.encoding.modulus as int;
    (((s.encoding.coefficients@[b as int] + s.constant) % p) * s.multiplier) % p
}

/// The sum of the residues of the first `n` bits after their stages.
pub open spec fn stage_sum(stages: Seq<BitStage>, bits: Seq<u64>, n: nat) -> int
    decreases n,
{
    if n == 0 {
        0
    } else {
        stage_sum(stages, bits, (n - 1) as nat) + stage_value(stages[n - 1], bits[n - 1])
    }
}

/// The residue modulo `p` that recomposing `bits` through `stages` yields.
pub open spec fn recomposed_value(stages: Seq<BitStage>, bits: Seq<u64>, p: u64) -> int {
    stage_sum(stages, bits, stages.len()) % (p as int)
}

/// Plans the recomposition of `bits` into one value under `encoding_out`: four bits are
/// needed, and the modulus of `encoding_out` must be one whose inverse of 3 is known.
pub fn recomposer<P>(bits: &Vec<EncryptedValue<P>>, encoding_out: &Encoding) -> (r: Result<
    Vec<BitStage>,
    Error,
>)
    ensures
        bits@.len() != 4 ==> r == Err::<Vec<BitStage>, Error>(Error::ArityMismatch),
        bits@.len() == 4 && known_inverse_of_three(encoding_out.modulus) is None ==> r == Err::<
            Vec<BitStage>,
            Error,
        >(Error::UnsupportedModulus),
        bits@.len() == 4 && known_inverse_of_three(encoding_out.modulus) is Some ==> (r matches Ok(
            stages,
        ) && recompose_stages(stages@, encoding_out.modulus)),
{
    if bits.len() != 4 {
        return Err(Error::ArityMismatch);
    }
    let p = encoding_out.modulus;
    if inverse_of_three(p).is_none() {
        return Err(Error::UnsupportedModulus);
    }
    let mut stages: Vec<BitStage> = Vec::new();
    stages.push(negacyclic_stage(4, p, 1));
    stages.push(negacyclic_stage(2, p, 1));
    stages.push(negacyclic_stage(1, p, 1));
    stages.push(negacyclic_stage(3, p, 3));
    Ok(stages)
}

/// The stage of a bit of weight `w` under modulus `p`, multiplied by `m` at the end.
fn negacyclic_stage(w: u64, p: u64, m: u64) -> (s: BitStage)
    requires
        w <= p,
    ensures
        s.encoding@ == negacyclic_binary(w, p),
        s.constant == w,
        s.multiplier == m,
{
    let mut coefficients: Vec<u64> = Vec::new();
    coefficients.push(p - w);
    coefficients.push(w);
    let encoding = Encoding::new_canonical(2, coefficients, p);
    assert(encoding@.coefficients =~= seq![(p - w) as u64, w]);
    BitStage { encoding, constant: w, multiplier: m }
}

/// Tags the sum of the recomposed bits with `encoding_out`, in place of the encoding
/// that the evaluator gave it; a sum that carries no encoding is refused.
pub fn retag<P>(sum: EncryptedValue<P>, encoding_out: &Encoding) -> (r: Result<
    EncryptedValue<P>,
    Error,
>)
    ensures
        sum is Trivial ==> r == Err::<EncryptedValue<P>, Error>(Error::EvaluatorFailure),
        sum matches EncryptedValue::EncodingEncrypted(c, _) ==> (r matches Ok(
            EncryptedValue::EncodingEncrypted(c2, e2),
        ) && c2 == c && e2@ == encoding_out@),
{
    match sum {
        EncryptedValue::EncodingEncrypted(c, _) => Ok(
            EncryptedValue::EncodingEncrypted(c, encoding_out.duplicate()),
        ),
        EncryptedValue::Trivial(_) => Err(Error::EvaluatorFailure),
    }
}

/// Recomposition under modulus 17 yields, for bits `b0 b1 b2 b3` (each 0 or 1), the
/// residue `8*b0 + 4*b1 + 2*b2 + b3`: bits `0..3` end at twice their weight, and the
/// last at `2 * 3 * 3 = 18`, which is 1 because `2 * 3 = 6` is the inverse of 3.
pub proof fn lemma_recomposed_value(stages: Seq<BitStage>, bits: Seq<u64>)
    requires
        recompose_stages(stages, 17),
        bits.len() == 4,
        forall|k: int| 0 <= k < 4 ==> #[trigger] bits[k] <= 1,
    ensures
        recomposed_value(stages, bits, 17) == (8 * bits[0] + 4 * bits[1] + 2 * bits[2] + bits[3])
            % 17,
{
    reveal_with_fuel(stage_sum, 5);
    let s0 = stages[0];
    let s1 = stages[1];
    let s2 = stages[2];
    let s3 = stages[3];
    assert(s0.encoding@ == negacyclic_binary(4, 17));
    assert(s1.encoding@ == negacyclic_binary(2, 17));
    assert(s2.encoding@ == negacyclic_binary(1, 17));
    assert(s3.encoding@ == negacyclic_binary(3, 17));
    assert(bits[0] <= 1 && bits[1] <= 1 && bits[2] <= 1 && bits[3] <= 1);
    assert(stage_value(s0, bits[0]) == 8 * bits[0]);
    assert(stage_value(s1, bits[1]) == 4 * bits[1]);
    assert(stage_value(s2, bits[2]) == 2 * bits[2]);
    assert(stage_value(s3, bits[3]) == bits[3]);
}

/// Decomposing a value `v` below 16 into four bits and recomposing those bits under
/// modulus 17 gives `v` back.
pub proof fn lemma_round_trip(v: u64, extraction: BitExtraction, stages: Seq<BitStage>, e: EncodingView)
    requires
        v < 16,
        extracts_bits(extraction, 4, e),
        recompose_stages(stages, 17),
    ensures
        recomposed_value(stages, Seq::new(4, |k: int| bit_of(v, extraction.shifts@[k])), 17)
            == v,
{
    let bits = Seq::new(4, |k: int| bit_of(v, extraction.shifts@[k]));
    assert(extraction.shifts@[0] == 3 && extraction.shifts@[1] == 2);
    assert(extraction.shifts@[2] == 1 && extraction.shifts@[3] == 0);
    let b0 = bit_of(v, 3);
    let b1 = bit_of(v, 2);
    let b2 = bit_of(v, 1);
    let b3 = bit_of(v, 0);
    assert(b0 <= 1 && b1 <= 1 && b2 <= 1 && b3 <= 1 && 8 * b0 + 4 * b1 + 2 * b2 + b3 == v)
        by (bit_vector)
        requires
            v < 16,
            b0 == (v >> 3u32) & 1,
            b1 == (v >> 2u32) & 1,
            b2 == (v >> 1u32) & 1,
            b3 == (v >> 0u32) & 1,
    ;
    assert(bits[0] == b0 && bits[1] == b1 && bits[2] == b2 && bits[3] == b3);
    lemma_recomposed_value(stages, bits);
}

} // verus!
