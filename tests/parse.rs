use hippogriph::parse::{parse_circuit_text, parse_usize, split_pieces};
use hippogriph::tables::Table;
use hippogriph::{CircuitDefinition, Error, Opcode, RegFile, RegRef};

#[test]
fn parses_header_and_gates() {
    let c = parse_circuit_text("2 0 3 1 1 0\nt1 = x0 XOR x1\n\n  t2\t=  t1 XNOR x0  \r\ny0 = t2 XOR t1").unwrap();
    assert_eq!(
        (c.x_count, c.x_offset, c.t_count, c.t_offset, c.y_count, c.y_offset),
        (2, 0, 3, 1, 1, 0)
    );
    assert_eq!(c.operations.len(), 3);
    assert_eq!(c.operations[1].target, RegRef { file: RegFile::T, number: 2 });
    assert_eq!(c.operations[1].op1, RegRef { file: RegFile::T, number: 1 });
    assert_eq!(c.operations[1].op2, RegRef { file: RegFile::X, number: 0 });
    assert_eq!(c.operations[1].opcode, Opcode::Xnor);
    assert_eq!(c.operations[2].opcode, Opcode::Xor);
}

#[test]
fn malformed_header() {
    assert_eq!(parse_circuit_text("2 0 1 0 1\nt0 = x0 XOR x1\n").err(), Some(Error::ParseError));
    assert_eq!(parse_circuit_text("2 0 1 0 1 0 0\n").err(), Some(Error::ParseError));
    assert_eq!(parse_circuit_text("2 0 a 0 1 0\n").err(), Some(Error::ParseError));
    assert_eq!(parse_circuit_text("").err(), Some(Error::ParseError));
}

#[test]
fn malformed_gates() {
    let h = "2 0 1 0 1 0\n";
    for line in [
        "t0 = z0 XOR x1",
        "t0 = x0 XOR xa",
        "t0 = x0 AND x1",
        "t0 = x0 + x1",
        "t0 x0 XOR x1",
        "t0 = x0 XOR x1 x1",
        "t0 : x0 XOR x1",
        "t0 = x XOR x1",
        "t0 = x0 XOR x99999999999999999999999",
    ] {
        let text = format!("{}{}\n", h, line);
        assert_eq!(parse_circuit_text(&text).err(), Some(Error::ParseError), "{}", line);
    }
}

#[test]
fn from_text_checks_bounds_and_order() {
    assert_eq!(
        CircuitDefinition::from_text("2 0 1 0 1 0\nt0 = x0 XOR x2\n").err(),
        Some(Error::RegisterOutOfBounds)
    );
    assert_eq!(
        CircuitDefinition::from_text("2 0 1 0 1 0\ny0 = t0 XOR x1\nt0 = x0 XOR x1\n").err(),
        Some(Error::ReadBeforeWrite)
    );
    assert_eq!(
        CircuitDefinition::from_text("2 0 1 0 1 0\nx0 = x0 XOR x1\n").err(),
        Some(Error::RegisterOutOfBounds)
    );
    assert_eq!(CircuitDefinition::from_text("2 0 1 0 1 0\nt0 = x0 XO x1\n").err(), Some(Error::ParseError));
}

#[test]
fn numbers_and_pieces() {
    let v = b"t1234".to_vec();
    assert_eq!(parse_usize(&v, 1), Some(1234));
    assert_eq!(parse_usize(&v, 5), None);
    assert_eq!(parse_usize(&b"18446744073709551615".to_vec(), 0), Some(usize::MAX));
    assert_eq!(parse_usize(&b"18446744073709551616".to_vec(), 0), None);
    assert_eq!(parse_usize(&b"12a".to_vec(), 0), None);
    let p = split_pieces(b"  a bc\t\td ", false);
    assert_eq!(p, vec![b"a".to_vec(), b"bc".to_vec(), b"d".to_vec()]);
    let l = split_pieces(b"\nab\n\ncd", true);
    assert_eq!(l, vec![b"ab".to_vec(), b"cd".to_vec()]);
}

#[test]
fn embedded_tables_are_valid() {
    let b = CircuitDefinition::from_table(Table::MixColumns2).unwrap();
    assert_eq!((b.x_count, b.x_offset, b.t_count, b.t_offset, b.y_count, b.y_offset), (32, 0, 93, 0, 32, 0));
    assert_eq!(b.operations.len(), 94);
    assert!(b.operations.iter().all(|op| op.opcode == Opcode::Xor));
}

#[test]
fn incomplete_table_is_refused() {
    assert_eq!(CircuitDefinition::from_table(Table::MixColumns).err(), Some(Error::ReadBeforeWrite));
}
