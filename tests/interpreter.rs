use hippogriph::{
    CircuitDefinition, Encoding, EncryptedValue, Error, LinearCircuit, Opcode, Operation,
    RegFile, RegRef,
};

// A stand-in evaluator: the payload is the plaintext bit itself.
fn bit(v: &EncryptedValue<u64>) -> u64 {
    match v {
        EncryptedValue::EncodingEncrypted(p, _) => *p,
        EncryptedValue::Trivial(v) => *v,
    }
}

fn boolean() -> Encoding {
    Encoding::new_canonical(2, vec![0, 1], 2)
}

fn enc(b: u64) -> EncryptedValue<u64> {
    EncryptedValue::EncodingEncrypted(b, boolean())
}

fn sum(a: &EncryptedValue<u64>, b: &EncryptedValue<u64>) -> EncryptedValue<u64> {
    enc((bit(a) + bit(b)) % 2)
}

fn complement(a: &EncryptedValue<u64>) -> EncryptedValue<u64> {
    enc((bit(a) + 1) % 2)
}

fn reg(file: RegFile, number: usize) -> RegRef {
    RegRef { file, number }
}

fn single_gate(opcode: Opcode) -> CircuitDefinition {
    CircuitDefinition {
        x_count: 2,
        x_offset: 0,
        t_count: 0,
        t_offset: 0,
        y_count: 1,
        y_offset: 0,
        operations: vec![Operation {
            target: reg(RegFile::Y, 0),
            op1: reg(RegFile::X, 0),
            op2: reg(RegFile::X, 1),
            opcode,
        }],
    }
}

fn run(c: &CircuitDefinition, inputs: &[u64]) -> Result<Vec<u64>, Error> {
    let mut lc = LinearCircuit::new(inputs.iter().map(|b| enc(*b)).collect());
    lc.execute_circuit(c, sum, complement)?;
    Ok(lc.y.iter().map(bit).collect())
}

#[test]
fn xor_gate_on_all_bit_pairs() {
    let c = single_gate(Opcode::Xor);
    for a in 0..2u64 {
        for b in 0..2u64 {
            assert_eq!(run(&c, &[a, b]).unwrap(), vec![a ^ b]);
        }
    }
}

#[test]
fn xnor_gate_on_all_bit_pairs() {
    let c = single_gate(Opcode::Xnor);
    for a in 0..2u64 {
        for b in 0..2u64 {
            assert_eq!(run(&c, &[a, b]).unwrap(), vec![1 - (a ^ b)]);
        }
    }
}

#[test]
fn small_circuit_end_to_end() {
    let c = CircuitDefinition::from_text("2 0 1 0 1 0\nt0 = x0 XOR x1\ny0 = t0 XOR x0\n").unwrap();
    // t0 = 1 XOR 0 = 1, y0 = 1 XOR 1 = 0
    assert_eq!(run(&c, &[1, 0]).unwrap(), vec![0]);
    let mut lc = LinearCircuit::new(vec![enc(1), enc(0)]);
    lc.execute_circuit(&c, sum, complement).unwrap();
    assert_eq!(lc.t.iter().map(bit).collect::<Vec<u64>>(), vec![1]);
}

#[test]
fn execution_is_deterministic() {
    let c = CircuitDefinition::from_text(
        "3 0 2 0 2 0\nt0 = x0 XOR x1\nt1 = t0 XNOR x2\ny0 = t1 XOR x0\ny1 = y0 XNOR t0\n",
    )
    .unwrap();
    for v in 0..8u64 {
        let inputs = [v & 1, (v >> 1) & 1, (v >> 2) & 1];
        let first = run(&c, &inputs).unwrap();
        let second = run(&c, &inputs).unwrap();
        assert_eq!(first, second);
        let t0 = inputs[0] ^ inputs[1];
        let t1 = 1 - (t0 ^ inputs[2]);
        let y0 = t1 ^ inputs[0];
        let y1 = 1 - (y0 ^ t0);
        assert_eq!(first, vec![y0, y1]);
    }
}

#[test]
fn input_register_out_of_bounds() {
    let mut ops = Vec::new();
    ops.push(Operation {
        target: reg(RegFile::Y, 0),
        op1: reg(RegFile::X, 0),
        op2: reg(RegFile::X, 32),
        opcode: Opcode::Xor,
    });
    let c = CircuitDefinition {
        x_count: 32,
        x_offset: 0,
        t_count: 0,
        t_offset: 0,
        y_count: 1,
        y_offset: 0,
        operations: ops,
    };
    let mut lc = LinearCircuit::new((0..32).map(|i| enc(i % 2)).collect());
    assert_eq!(lc.execute_circuit(&c, sum, complement), Err(Error::RegisterOutOfBounds));
    assert!(lc.t.is_empty());
    assert!(lc.y.is_empty());
    assert_eq!(lc.x.len(), 32);
}

#[test]
fn writing_an_input_register_is_refused() {
    let mut c = single_gate(Opcode::Xor);
    c.operations[0].target = reg(RegFile::X, 0);
    assert_eq!(run(&c, &[1, 0]), Err(Error::RegisterOutOfBounds));
}

#[test]
fn wrong_number_of_inputs() {
    let c = single_gate(Opcode::Xor);
    assert_eq!(run(&c, &[1]), Err(Error::ArityMismatch));
    assert_eq!(run(&c, &[1, 0, 1]), Err(Error::ArityMismatch));
}

#[test]
fn offsets_are_subtracted() {
    let c = CircuitDefinition::from_text("2 4 1 10 1 7\nt10 = x4 XOR x5\ny7 = t10 XNOR x4\n").unwrap();
    assert_eq!(c.resolve(reg(RegFile::X, 5)), Some(1));
    assert_eq!(c.resolve(reg(RegFile::X, 3)), None);
    assert_eq!(c.resolve(reg(RegFile::T, 11)), None);
    // t10 = 0 XOR 1 = 1, y7 = NOT(1 XOR 0) = 0
    assert_eq!(run(&c, &[0, 1]).unwrap(), vec![0]);
}

#[test]
fn unwritten_register_reads_placeholder() {
    let mut ops = Vec::new();
    ops.push(Operation {
        target: reg(RegFile::Y, 0),
        op1: reg(RegFile::T, 0),
        op2: reg(RegFile::X, 0),
        opcode: Opcode::Xor,
    });
    let c = CircuitDefinition {
        x_count: 1,
        x_offset: 0,
        t_count: 1,
        t_offset: 0,
        y_count: 2,
        y_offset: 0,
        operations: ops,
    };
    assert_eq!(c.validate(), Err(Error::ReadBeforeWrite));
    let mut lc = LinearCircuit::new(vec![enc(1)]);
    lc.execute_circuit(&c, sum, complement).unwrap();
    assert_eq!(lc.y.len(), 2);
    assert_eq!(bit(&lc.y[0]), 1);
    assert!(matches!(lc.y[1], EncryptedValue::Trivial(0)));
    assert!(matches!(lc.t[0], EncryptedValue::Trivial(0)));
}

#[test]
fn validate_accepts_ordered_circuit() {
    let c = CircuitDefinition::from_text("2 0 1 0 1 0\nt0 = x0 XOR x1\ny0 = t0 XOR x0\n").unwrap();
    assert_eq!(c.validate(), Ok(()));
    assert!(c.is_in_bounds());
    assert!(c.is_ordered());
}

#[test]
fn new_holds_the_inputs() {
    let lc = LinearCircuit::new(vec![enc(1), enc(0), enc(1)]);
    assert_eq!(lc.x.iter().map(bit).collect::<Vec<u64>>(), vec![1, 0, 1]);
    assert!(lc.t.is_empty() && lc.y.is_empty());
}
