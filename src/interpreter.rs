use vstd::prelude::*;

use crate::circuit::{
    in_bounds, op_in_bounds, slot, CircuitDefinition, Opcode, Operation, RegFile, RegRef,
};
use crate::encoding::EncryptedValue;
use crate::error::Error;

verus! {

/// The three register files: inputs, intermediates, outputs.
pub type RegisterFiles<V> = (Seq<V>, Seq<V>, Seq<V>);

/// The value held in the register that `r` names.
pub open spec fn read_reg<V>(c: CircuitDefinition, regs: RegisterFiles<V>, r: RegRef) -> V {
    match r.file {
        RegFile::X => regs.0[slot(c, r)],
        RegFile::T => regs.1[slot(c, r)],
        RegFile::Y => regs.2[slot(c, r)],
    }
}

/// The register files after `v` is stored in the T or Y register that `r` names.
pub open spec fn write_reg<V>(c: CircuitDefinition, regs: RegisterFiles<V>, r: RegRef, v: V) -> RegisterFiles<V> {
    match r.file {
        RegFile::X => regs,
        RegFile::T => (regs.0, regs.1.update(slot(c, r), v), regs.2),
        RegFile::Y => (regs.0, regs.1, regs.2.update(slot(c, r), v)),
    }
}

/// What a gate yields: the homomorphic sum of its operands, complemented for XNOR.
pub open spec fn gate_value<V>(
    opcode: Opcode,
    a: V,
    b: V,
    sum: spec_fn(V, V) -> V,
    complement: spec_fn(V) -> V,
) -> V {
    match opcode {
        Opcode::Xor => sum(a, b),
        Opcode::Xnor => complement(sum(a, b)),
    }
}

/// The register files after running `ops`, in order, from `regs`.
pub open spec fn run_ops<V>(
    c: CircuitDefinition,
    ops: Seq<Operation>,
    regs: RegisterFiles<V>,
    sum: spec_fn(V, V) -> V,
    complement: spec_fn(V) -> V,
) -> RegisterFiles<V>
    decreases ops.len(),
{
    if ops.len() == 0 {
        regs
    } else {
        let before = run_ops(c, ops.drop_last(), regs, sum, complement);
        let op = ops.last();
        write_reg(
            c,
            before,
            op.target,
            gate_value(
                op.opcode,
                read_reg(c, before, op.op1),
                read_reg(c, before, op.op2),
                sum,
                complement,
            ),
        )
    }
}

/// The register files before the first operation: the inputs, and placeholders elsewhere.
pub open spec fn initial_registers<P>(c: CircuitDefinition, x: Seq<EncryptedValue<P>>) -> RegisterFiles<
    EncryptedValue<P>,
> {
    (
        x,
        Seq::new(c.t_count as nat, |i: int| EncryptedValue::Trivial(0)),
        Seq::new(c.y_count as nat, |i: int| EncryptedValue::Trivial(0)),
    )
}

/// The register files once the whole circuit has run on inputs `x`.
pub open spec fn final_registers<P>(
    c: CircuitDefinition,
    x: Seq<EncryptedValue<P>>,
    sum: spec_fn(EncryptedValue<P>, EncryptedValue<P>) -> EncryptedValue<P>,
    complement: spec_fn(EncryptedValue<P>) -> EncryptedValue<P>,
) -> RegisterFiles<EncryptedValue<P>> {
    run_ops(c, c.operations@, initial_registers(c, x), sum, complement)
}

/// The outputs of the circuit on inputs `x`.
pub open spec fn circuit_outputs<P>(
    c: CircuitDefinition,
    x: Seq<EncryptedValue<P>>,
    sum: spec_fn(EncryptedValue<P>, EncryptedValue<P>) -> EncryptedValue<P>,
    complement: spec_fn(EncryptedValue<P>) -> EncryptedValue<P>,
) -> Seq<EncryptedValue<P>> {
    final_registers(c, x, sum, complement).2
}

/// Every value that `f` returns is the one that `g` gives.
pub open spec fn sum_follows<V, F: Fn(&V, &V) -> V>(f: F, g: spec_fn(V, V) -> V) -> bool {
    forall|a: V, b: V, r: V| #[trigger] f.ensures((&a, &b), r) ==> r == g(a, b)
}

/// Every value that `f` returns is the one that `g` gives.
pub open spec fn complement_follows<V, F: Fn(&V) -> V>(f: F, g: spec_fn(V) -> V) -> bool {
    forall|a: V, r: V| #[trigger] f.ensures((&a,), r) ==> r == g(a)
}

/// Runs linear circuits over encrypted values held in three register files.
pub struct LinearCircuit<P> {
    /// The inputs.
    pub x: Vec<EncryptedValue<P>>,
    /// The intermediate values.
    pub t: Vec<EncryptedValue<P>>,
    /// The outputs.
    pub y: Vec<EncryptedValue<P>>,
}

impl<P> LinearCircuit<P> {
    /// Holds `state_slice` as the inputs, with empty intermediate and output files.
    pub fn new(state_slice: Vec<EncryptedValue<P>>) -> (lc: Self)
        ensures
            lc.x@ == state_slice@,
            lc.t@.len() == 0,
            lc.y@.len() == 0,
    {
        LinearCircuit { x: state_slice, t: Vec::new(), y: Vec::new() }
    }

    /// Runs `circuit` on the inputs. `sum` adds two values homomorphically; `complement`
    /// adds the public constant 1 modulo 2. The intermediate and output files are
    /// replaced by the ones the run leaves; on an error nothing changes.
    pub fn execute_circuit<S, N>(&mut self, circuit: &CircuitDefinition, sum: S, complement: N) -> (r:
        Result<(), Error>) where
        S: Fn(&EncryptedValue<P>, &EncryptedValue<P>) -> EncryptedValue<P>,
        N: Fn(&EncryptedValue<P>) -> EncryptedValue<P>,

        requires
            forall|a: &EncryptedValue<P>, b: &EncryptedValue<P>| #[trigger] sum.requires((a, b)),
            forall|a: &EncryptedValue<P>| #[trigger] complement.requires((a,)),
        ensures
            old(self).x@.len() != circuit.x_count ==> r == Err::<(), Error>(Error::ArityMismatch),
            old(self).x@.len() == circuit.x_count && !in_bounds(*circuit) ==> r == Err::<(), Error>(
                Error::RegisterOutOfBounds,
            ),
            old(self).x@.len() == circuit.x_count && in_bounds(*circuit) ==> r is Ok,
            r is Err ==> *final(self) == *old(self),
            final(self).x == old(self).x,
            r is Ok ==> final(self).t@.len() == circuit.t_count && final(self).y@.len()
                == circuit.y_count,
            forall|sg: spec_fn(EncryptedValue<P>, EncryptedValue<P>) -> EncryptedValue<P>,
                ng: spec_fn(EncryptedValue<P>) -> EncryptedValue<P>|
                r is Ok && #[trigger] sum_follows(sum, sg) && #[trigger] complement_follows(
                    complement,
                    ng,
                ) ==> (final(self).x@, final(self).t@, final(self).y@) == final_registers(
                    *circuit,
                    old(self).x@,
                    sg,
                    ng,
                ),
    {
        if self.x.len() != circuit.x_count {
            return Err(Error::ArityMismatch);
        }
        if !circuit.is_in_bounds() {
            return Err(Error::RegisterOutOfBounds);
        }
        let ghost init = initial_registers(*circuit, self.x@);
        let mut t: Vec<EncryptedValue<P>> = Vec::new();
        let mut k: usize = 0;
        while k < circuit.t_count
            invariant
                k <= circuit.t_count,
                t@ == Seq::new(k as nat, |i: int| EncryptedValue::<P>::Trivial(0)),
            decreases circuit.t_count - k,
        {
            t.push(EncryptedValue::Trivial(0));
            k = k + 1;
            assert(t@ =~= Seq::new(k as nat, |i: int| EncryptedValue::<P>::Trivial(0)));
        }
        let mut y: Vec<EncryptedValue<P>> = Vec::new();
        k = 0;
        while k < circuit.y_count
            invariant
                k <= circuit.y_count,
                y@ == Seq::new(k as nat, |i: int| EncryptedValue::<P>::Trivial(0)),
            decreases circuit.y_count - k,
        {
            y.push(EncryptedValue::Trivial(0));
            k = k + 1;
            assert(y@ =~= Seq::new(k as nat, |i: int| EncryptedValue::<P>::Trivial(0)));
        }
        let ghost ops = circuit.operations@;
        let mut i: usize = 0;
        assert(ops.take(0) =~= Seq::<Operation>::empty());
        while i < circuit.operations.len()
            invariant
                0 <= i <= ops.len(),
                ops == circuit.operations@,
                in_bounds(*circuit),
                self.x@.len() == circuit.x_count,
                t@.len() == circuit.t_count,
                y@.len() == circuit.y_count,
                init == initial_registers(*circuit, self.x@),
                forall|a: &EncryptedValue<P>, b: &EncryptedValue<P>| #[trigger] sum.requires((a, b)),
                forall|a: &EncryptedValue<P>| #[trigger] complement.requires((a,)),
                forall|sg: spec_fn(EncryptedValue<P>, EncryptedValue<P>) -> EncryptedValue<P>,
                    ng: spec_fn(EncryptedValue<P>) -> EncryptedValue<P>|
                    #[trigger] sum_follows(sum, sg) && #[trigger] complement_follows(complement, ng)
                        ==> (self.x@, t@, y@) == run_ops(*circuit, ops.take(i as int), init, sg, ng),
            decreases ops.len() - i,
        {
            let op = circuit.operations[i];
            assert(op_in_bounds(*circuit, ops[i as int]));
            let s1 = circuit.resolve(op.op1).unwrap();
            let s2 = circuit.resolve(op.op2).unwrap();
            let st = circuit.resolve(op.target).unwrap();
            let a: &EncryptedValue<P> = match op.op1.file {
                RegFile::X => &self.x[s1],
                RegFile::T => &t[s1],
                RegFile::Y => &y[s1],
            };
            let b: &EncryptedValue<P> = match op.op2.file {
                RegFile::X => &self.x[s2],
                RegFile::T => &t[s2],
                RegFile::Y => &y[s2],
            };
            let v0 = sum(a, b);
            let v = match op.opcode {
                Opcode::Xor => v0,
                Opcode::Xnor => complement(&v0),
            };
            let ghost pre_t = t@;
            let ghost pre_y = y@;
            if op.target.file == RegFile::T {
                t.set(st, v);
            } else {
                y.set(st, v);
            }
            proof {
                assert(ops.take(i + 1).drop_last() =~= ops.take(i as int));
                assert forall|sg: spec_fn(EncryptedValue<P>, EncryptedValue<P>) -> EncryptedValue<P>,
                    ng: spec_fn(EncryptedValue<P>) -> EncryptedValue<P>|
                    #[trigger] sum_follows(sum, sg) && #[trigger] complement_follows(complement, ng)
                    implies (self.x@, t@, y@) == run_ops(*circuit, ops.take(i + 1), init, sg, ng) by {
                    let before = run_ops(*circuit, ops.take(i as int), init, sg, ng);
                    assert(before == (self.x@, pre_t, pre_y));
                    assert(*a == read_reg(*circuit, before, op.op1));
                    assert(*b == read_reg(*circuit, before, op.op2));
                    assert(sum.ensures((a, b), v0));
                    assert(v0 == sg(*a, *b));
                    if op.opcode == Opcode::Xnor {
                        assert(complement.ensures((&v0,), v));
                    }
                    assert(v == gate_value(op.opcode, *a, *b, sg, ng));
                }
            }
            i = i + 1;
        }
        assert(ops.take(ops.len() as int) =~= ops);
        self.t = t;
        self.y = y;
        Ok(())
    }
}

/// Running one circuit on the same inputs with the same sum and complement yields
/// the same register files each time.
pub proof fn lemma_determinism<P>(
    c: CircuitDefinition,
    x1: Seq<EncryptedValue<P>>,
    x2: Seq<EncryptedValue<P>>,
    sum: spec_fn(EncryptedValue<P>, EncryptedValue<P>) -> EncryptedValue<P>,
    complement: spec_fn(EncryptedValue<P>) -> EncryptedValue<P>,
)
    requires
        x1 == x2,
    ensures
        final_registers(c, x1, sum, complement) == final_registers(c, x2, sum, complement),
{
}

/// The circuit of the one gate `y0 = x0 OPCODE x1`, with two inputs, one output and
/// all offsets zero.
pub open spec fn is_single_gate(c: CircuitDefinition, opcode: Opcode) -> bool {
    &&& c.x_count == 2
    &&& c.x_offset == 0
    &&& c.y_count == 1
    &&& c.y_offset == 0
    &&& c.operations@ == seq![
        Operation {
            target: RegRef { file: RegFile::Y, number: 0 },
            op1: RegRef { file: RegFile::X, number: 0 },
            op2: RegRef { file: RegFile::X, number: 1 },
            opcode,
        },
    ]
}

/// Where decryption turns the sum into addition modulo 2 and the complement into the
/// addition of 1 modulo 2, a single XOR gate on bits `a` and `b` decrypts to `a XOR b`
/// and a single XNOR gate to its negation.
pub proof fn lemma_gate_correctness<P>(
    c: CircuitDefinition,
    opcode: Opcode,
    x: Seq<EncryptedValue<P>>,
    a: int,
    b: int,
    decrypt: spec_fn(EncryptedValue<P>) -> int,
    sum: spec_fn(EncryptedValue<P>, EncryptedValue<P>) -> EncryptedValue<P>,
    complement: spec_fn(EncryptedValue<P>) -> EncryptedValue<P>,
)
    requires
        is_single_gate(c, opcode),
        0 <= a <= 1,
        0 <= b <= 1,
        x.len() == 2,
        decrypt(x[0]) == a,
        decrypt(x[1]) == b,
        forall|u: EncryptedValue<P>, v: EncryptedValue<P>|
            #[trigger] decrypt(sum(u, v)) == (decrypt(u) + decrypt(v)) % 2,
        forall|u: EncryptedValue<P>| #[trigger] decrypt(complement(u)) == (decrypt(u) + 1) % 2,
    ensures
        circuit_outputs(c, x, sum, complement).len() == 1,
        decrypt(circuit_outputs(c, x, sum, complement)[0]) == match opcode {
            Opcode::Xor => if a != b { 1int } else { 0int },
            Opcode::Xnor => if a == b { 1int } else { 0int },
        },
{
    let ops = c.operations@;
    assert(ops.drop_last() =~= Seq::<Operation>::empty());
    let init = initial_registers(c, x);
    assert(run_ops(c, ops.drop_last(), init, sum, complement) == init);
    assert(slot(c, ops[0].op1) == 0);
    assert(slot(c, ops[0].op2) == 1);
    assert(slot(c, ops[0].target) == 0);
}

} // verus!
