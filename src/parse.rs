use vstd::prelude::*;
use vstd::string::StringSliceAdditionalSpecFns;

use crate::circuit::{
    in_bounds, ordered, CircuitDefinition, Opcode, Operation, RegFile, RegRef,
};
use crate::error::Error;

verus! {

/// `b` separates lines (a newline), or fields within a line (space, tab, carriage return).
pub open spec fn is_sep(b: u8, lines: bool) -> bool {
    if lines {
        b == 10u8
    } else {
        b == 32u8 || b == 9u8 || b == 13u8
    }
}

/// The pieces of `s` between separators, empty ones included.
pub open spec fn split(s: Seq<u8>, lines: bool) -> Seq<Seq<u8>>
    decreases s.len(),
{
    if s.len() == 0 {
        seq![Seq::empty()]
    } else {
        let prev = split(s.drop_last(), lines);
        if is_sep(s.last(), lines) {
            prev.push(Seq::empty())
        } else {
            prev.update(prev.len() - 1, prev.last().push(s.last()))
        }
    }
}

/// The non-empty members of `ps`, in order.
pub open spec fn nonempty(ps: Seq<Seq<u8>>) -> Seq<Seq<u8>>
    decreases ps.len(),
{
    if ps.len() == 0 {
        seq![]
    } else {
        let r = nonempty(ps.drop_last());
        if ps.last().len() > 0 {
            r.push(ps.last())
        } else {
            r
        }
    }
}

/// The non-empty pieces of `s` between separators.
pub open spec fn pieces(s: Seq<u8>, lines: bool) -> Seq<Seq<u8>> {
    nonempty(split(s, lines))
}

fn is_sep_byte(b: u8, lines: bool) -> (r: bool)
    ensures
        r == is_sep(b, lines),
{
    if lines {
        b == 10u8
    } else {
        b == 32u8 || b == 9u8 || b == 13u8
    }
}

/// The non-empty pieces of `s` between separators: lines where `lines`, else fields.
pub fn split_pieces(s: &[u8], lines: bool) -> (r: Vec<Vec<u8>>)
    ensures
        r@.len() == pieces(s@, lines).len(),
        forall|k: int| 0 <= k < r@.len() ==> (#[trigger] r@[k])@ == pieces(s@, lines)[k],
{
    let mut out: Vec<Vec<u8>> = Vec::new();
    let mut cur: Vec<u8> = Vec::new();
    let mut i: usize = 0;
    proof {
        assert(s@.take(0) =~= Seq::<u8>::empty());
    }
    while i < s.len()
        invariant
            i <= s@.len(),
            split(s@.take(i as int), lines).len() >= 1,
            out@.len() == nonempty(split(s@.take(i as int), lines).drop_last()).len(),
            forall|k: int|
                0 <= k < out@.len() ==> (#[trigger] out@[k])@ == nonempty(
                    split(s@.take(i as int), lines).drop_last(),
                )[k],
            cur@ == split(s@.take(i as int), lines).last(),
        decreases s@.len() - i,
    {
        let b = s[i];
        let ghost prev = split(s@.take(i as int), lines);
        proof {
            assert(s@.take(i + 1).drop_last() =~= s@.take(i as int));
            assert(s@.take(i + 1).last() == b);
        }
        if is_sep_byte(b, lines) {
            let ghost before = out@;
            proof {
                assert(prev.push(Seq::empty()).drop_last() =~= prev);
                assert(prev.drop_last().push(prev.last()) =~= prev);
            }
            if cur.len() > 0 {
                out.push(cur);
                proof {
                    assert forall|k: int| 0 <= k < out@.len() implies (#[trigger] out@[k])@
                        == nonempty(split(s@.take(i + 1), lines).drop_last())[k] by {
                        if k < before.len() {
                            assert(out@[k] == before[k]);
                        }
                    }
                }
            }
            cur = Vec::new();
        } else {
            proof {
                assert(prev.update(prev.len() - 1, prev.last().push(b)).drop_last()
                    =~= prev.drop_last());
            }
            cur.push(b);
        }
        i = i + 1;
    }
    proof {
        assert(s@.take(s@.len() as int) =~= s@);
        let sp = split(s@, lines);
        assert(sp.drop_last().push(sp.last()) =~= sp);
    }
    let ghost before = out@;
    if cur.len() > 0 {
        out.push(cur);
        proof {
            assert forall|k: int| 0 <= k < out@.len() implies (#[trigger] out@[k])@ == pieces(
                s@,
                lines,
            )[k] by {
                if k < before.len() {
                    assert(out@[k] == before[k]);
                }
            }
        }
    }
    out
}

/// `b` is an ASCII decimal digit.
pub open spec fn is_digit(b: u8) -> bool {
    48u8 <= b <= 57u8
}

/// The number that the decimal digits `s` write.
pub open spec fn digits_value(s: Seq<u8>) -> nat
    decreases s.len(),
{
    if s.len() == 0 {
        0
    } else {
        digits_value(s.drop_last()) * 10 + (s.last() - 48) as nat
    }
}

/// The number that `s` writes in decimal, where it is one and fits in a `usize`.
pub open spec fn parse_number(s: Seq<u8>) -> Option<usize> {
    if s.len() > 0 && (forall|i: int| 0 <= i < s.len() ==> is_digit(#[trigger] s[i]))
        && digits_value(s) <= usize::MAX {
        Some(digits_value(s) as usize)
    } else {
        None
    }
}

proof fn lemma_digits_value_grows(s: Seq<u8>, j: int)
    requires
        0 <= j <= s.len(),
        forall|i: int| 0 <= i < s.len() ==> is_digit(#[trigger] s[i]),
    ensures
        digits_value(s.take(j)) <= digits_value(s),
    decreases s.len(),
{
    if j < s.len() {
        assert(s.drop_last().take(j) =~= s.take(j));
        lemma_digits_value_grows(s.drop_last(), j);
    } else {
        assert(s.take(j) =~= s);
    }
}

/// The number that `s[start..]` writes in decimal, where it is one and fits in a `usize`.
pub fn parse_usize(s: &Vec<u8>, start: usize) -> (r: Option<usize>)
    requires
        start <= s@.len(),
    ensures
        r == parse_number(s@.subrange(start as int, s@.len() as int)),
{
    let ghost t = s@.subrange(start as int, s@.len() as int);
    if start >= s.len() {
        return None;
    }
    let mut i: usize = start;
    while i < s.len()
        invariant
            start <= i <= s@.len(),
            t == s@.subrange(start as int, s@.len() as int),
            forall|k: int| start <= k < i ==> is_digit(#[trigger] s@[k]),
        decreases s@.len() - i,
    {
        if !(48u8 <= s[i] && s[i] <= 57u8) {
            assert(t[i - start] == s@[i as int]);
            return None;
        }
        i = i + 1;
    }
    assert forall|k: int| 0 <= k < t.len() implies is_digit(#[trigger] t[k]) by {
        assert(t[k] == s@[k + start]);
    }
    let mut acc: usize = 0;
    i = start;
    assert(t.take(0) =~= Seq::<u8>::empty());
    while i < s.len()
        invariant
            start <= i <= s@.len(),
            t == s@.subrange(start as int, s@.len() as int),
            forall|k: int| 0 <= k < t.len() ==> is_digit(#[trigger] t[k]),
            acc as nat == digits_value(t.take(i - start)),
        decreases s@.len() - i,
    {
        assert(t[i - start] == s@[i as int]);
        assert(is_digit(t[i - start]));
        let d = (s[i] - 48u8) as usize;
        proof {
            assert(t.take(i - start + 1).drop_last() =~= t.take(i - start));
            assert(t.take(i - start + 1).last() == s@[i as int]);
        }
        if acc > (usize::MAX - d) / 10 {
            proof {
                lemma_digits_value_grows(t, i - start + 1);
            }
            return None;
        }
        acc = acc * 10 + d;
        i = i + 1;
    }
    assert(t.take(t.len() as int) =~= t);
    Some(acc)
}

/// The register file that letter `b` names.
pub open spec fn file_of(b: u8) -> Option<RegFile> {
    if b == 120u8 {
        Some(RegFile::X)
    } else if b == 116u8 {
        Some(RegFile::T)
    } else if b == 121u8 {
        Some(RegFile::Y)
    } else {
        None
    }
}

/// The register that `s` names: a file letter followed by a decimal number.
pub open spec fn parse_reg(s: Seq<u8>) -> Option<RegRef> {
    if s.len() >= 1 && file_of(s[0]) is Some && parse_number(s.subrange(1, s.len() as int)) is Some {
        Some(RegRef { file: file_of(s[0]).unwrap(), number: parse_number(s.subrange(1, s.len() as int)).unwrap() })
    } else {
        None
    }
}

/// The opcode that `s` names: `XOR` or `XNOR`.
pub open spec fn parse_opcode(s: Seq<u8>) -> Option<Opcode> {
    if s == seq![88u8, 79u8, 82u8] {
        Some(Opcode::Xor)
    } else if s == seq![88u8, 78u8, 79u8, 82u8] {
        Some(Opcode::Xnor)
    } else {
        None
    }
}

/// The operation that the fields `f` of a line write: `target = op1 OPCODE op2`.
pub open spec fn parse_gate(f: Seq<Seq<u8>>) -> Option<Operation> {
    if f.len() == 5 && f[1] == seq![61u8] && parse_reg(f[0]) is Some && parse_reg(f[2]) is Some
        && parse_opcode(f[3]) is Some && parse_reg(f[4]) is Some {
        Some(
            Operation {
                target: parse_reg(f[0]).unwrap(),
                op1: parse_reg(f[2]).unwrap(),
                op2: parse_reg(f[4]).unwrap(),
                opcode: parse_opcode(f[3]).unwrap(),
            },
        )
    } else {
        None
    }
}

/// The operations that `lines` write, one per line; lines of white space alone are
/// skipped.
pub open spec fn parse_gates(lines: Seq<Seq<u8>>) -> Option<Seq<Operation>>
    decreases lines.len(),
{
    if lines.len() == 0 {
        Some(seq![])
    } else {
        match parse_gates(lines.drop_last()) {
            None => None,
            Some(ops) => {
                let f = pieces(lines.last(), false);
                if f.len() == 0 {
                    Some(ops)
                } else {
                    match parse_gate(f) {
                        Some(op) => Some(ops.push(op)),
                        None => None,
                    }
                }
            },
        }
    }
}

proof fn lemma_gates_fail_on(lines: Seq<Seq<u8>>, n: int)
    requires
        0 <= n <= lines.len(),
        parse_gates(lines.take(n)) is None,
    ensures
        parse_gates(lines) is None,
    decreases lines.len(),
{
    if n < lines.len() {
        assert(lines.drop_last().take(n) =~= lines.take(n));
        lemma_gates_fail_on(lines.drop_last(), n);
    } else {
        assert(lines.take(n) =~= lines);
    }
}

/// The six numbers of a header line.
pub open spec fn parse_header(line: Seq<u8>) -> Option<Seq<usize>> {
    let f = pieces(line, false);
    if f.len() == 6 && forall|k: int| 0 <= k < 6 ==> (#[trigger] parse_number(f[k])) is Some {
        Some(Seq::new(6, |k: int| parse_number(f[k]).unwrap()))
    } else {
        None
    }
}

/// The header and the operations that a circuit text writes: its first non-empty line
/// is the header, and each further line that is not white space alone is a gate.
pub open spec fn parse_circuit(text: Seq<u8>) -> Option<(Seq<usize>, Seq<Operation>)> {
    let lines = pieces(text, true);
    if lines.len() >= 1 && parse_header(lines[0]) is Some && parse_gates(lines.drop_first()) is Some {
        Some((parse_header(lines[0]).unwrap(), parse_gates(lines.drop_first()).unwrap()))
    } else {
        None
    }
}

/// `c` has the header `h` (`x_count x_offset t_count t_offset y_count y_offset`) and
/// the operations `ops`.
pub open spec fn describes(c: CircuitDefinition, h: Seq<usize>, ops: Seq<Operation>) -> bool {
    &&& h.len() == 6
    &&& c.x_count == h[0]
    &&& c.x_offset == h[1]
    &&& c.t_count == h[2]
    &&& c.t_offset == h[3]
    &&& c.y_count == h[4]
    &&& c.y_offset == h[5]
    &&& c.operations@ == ops
}

/// The register that `s` names: a file letter followed by a decimal number.
pub fn parse_register(s: &Vec<u8>) -> (r: Option<RegRef>)
    ensures
        r == parse_reg(s@),
{
    if s.len() == 0 {
        return None;
    }
    let file = if s[0] == 120u8 {
        RegFile::X
    } else if s[0] == 116u8 {
        RegFile::T
    } else if s[0] == 121u8 {
        RegFile::Y
    } else {
        return None;
    };
    match parse_usize(s, 1) {
        Some(number) => Some(RegRef { file, number }),
        None => None,
    }
}

/// The opcode that `s` names: `XOR` or `XNOR`.
pub fn parse_gate_name(s: &Vec<u8>) -> (r: Option<Opcode>)
    ensures
        r == parse_opcode(s@),
{
    if s.len() == 3 && s[0] == 88u8 && s[1] == 79u8 && s[2] == 82u8 {
        assert(s@ =~= seq![88u8, 79u8, 82u8]);
        Some(Opcode::Xor)
    } else if s.len() == 4 && s[0] == 88u8 && s[1] == 78u8 && s[2] == 79u8 && s[3] == 82u8 {
        assert(s@ =~= seq![88u8, 78u8, 79u8, 82u8]);
        Some(Opcode::Xnor)
    } else {
        proof {
            if s@ == seq![88u8, 79u8, 82u8] {
                assert(s@[0] == 88u8 && s@[1] == 79u8 && s@[2] == 82u8);
            }
            if s@ == seq![88u8, 78u8, 79u8, 82u8] {
                assert(s@[0] == 88u8 && s@[1] == 78u8 && s@[2] == 79u8 && s@[3] == 82u8);
            }
        }
        None
    }
}

/// The operation that the fields of a line write: `target = op1 OPCODE op2`.
fn parse_gate_fields(f: &Vec<Vec<u8>>, Ghost(fs): Ghost<Seq<Seq<u8>>>) -> (r: Option<Operation>)
    requires
        f@.len() == fs.len(),
        forall|k: int| 0 <= k < fs.len() ==> (#[trigger] f@[k])@ == fs[k],
    ensures
        r == parse_gate(fs),
{
    if f.len() != 5 {
        return None;
    }
    assert(f@[1]@ == fs[1]);
    let eq = f[1].len() == 1 && f[1][0] == 61u8;
    proof {
        if eq {
            assert(fs[1] =~= seq![61u8]);
        } else if fs[1] == seq![61u8] {
            assert(fs[1][0] == 61u8);
        }
    }
    if !eq {
        return None;
    }
    assert(f@[0]@ == fs[0] && f@[2]@ == fs[2] && f@[3]@ == fs[3] && f@[4]@ == fs[4]);
    let target = parse_register(&f[0]);
    let op1 = parse_register(&f[2]);
    let opcode = parse_gate_name(&f[3]);
    let op2 = parse_register(&f[4]);
    match (target, op1, opcode, op2) {
        (Some(target), Some(op1), Some(opcode), Some(op2)) => Some(
            Operation { target, op1, op2, opcode },
        ),
        _ => None,
    }
}

/// The six numbers of a header line.
fn parse_header_line(line: &Vec<u8>) -> (r: Option<Vec<usize>>)
    ensures
        r matches Some(h) ==> parse_header(line@) == Some(h@),
        r is None ==> parse_header(line@) is None,
{
    let f = split_pieces(line.as_slice(), false);
    let ghost fs = pieces(line@, false);
    if f.len() != 6 {
        return None;
    }
    let mut h: Vec<usize> = Vec::new();
    let mut k: usize = 0;
    while k < 6
        invariant
            k <= 6,
            f@.len() == 6,
            fs == pieces(line@, false),
            fs.len() == 6,
            forall|m: int| 0 <= m < 6 ==> (#[trigger] f@[m])@ == fs[m],
            h@.len() == k,
            forall|m: int| 0 <= m < k ==> parse_number(fs[m]) == Some(#[trigger] h@[m]),
        decreases 6 - k,
    {
        assert(f@[k as int]@ == fs[k as int]);
        assert(f@[k as int]@.subrange(0, f@[k as int]@.len() as int) =~= fs[k as int]);
        match parse_usize(&f[k], 0) {
            Some(v) => h.push(v),
            None => {
                return None;
            },
        }
        k = k + 1;
    }
    assert forall|m: int| 0 <= m < 6 implies (#[trigger] parse_number(fs[m])) is Some by {
        assert(parse_number(fs[m]) == Some(h@[m]));
    }
    assert(h@ =~= Seq::new(6, |m: int| parse_number(fs[m]).unwrap()));
    Some(h)
}

/// Reads a circuit text: a header line of six numbers
/// (`x_count x_offset t_count t_offset y_count y_offset`), then one gate per line,
/// `target = op1 OPCODE op2`. The registers are not checked against the header.
pub fn parse_circuit_text(text: &str) -> (r: Result<CircuitDefinition, Error>)
    ensures
        parse_circuit(text.spec_bytes()) is None ==> r == Err::<CircuitDefinition, Error>(
            Error::ParseError,
        ),
        parse_circuit(text.spec_bytes()) matches Some((h, ops)) ==> (r matches Ok(c) && describes(
            c,
            h,
            ops,
        )),
{
    let bytes = text.as_bytes();
    let lines = split_pieces(bytes, true);
    let ghost ls = pieces(bytes@, true);
    if lines.len() == 0 {
        return Err(Error::ParseError);
    }
    assert(lines@[0]@ == ls[0]);
    let h = match parse_header_line(&lines[0]) {
        Some(h) => h,
        None => {
            return Err(Error::ParseError);
        },
    };
    let ghost rest = ls.drop_first();
    let mut ops: Vec<Operation> = Vec::new();
    let mut i: usize = 1;
    assert(rest.take(0) =~= Seq::<Seq<u8>>::empty());
    while i < lines.len()
        invariant
            1 <= i <= lines@.len(),
            ls == pieces(bytes@, true),
            bytes@ == text.spec_bytes(),
            rest == ls.drop_first(),
            lines@.len() == ls.len(),
            forall|k: int| 0 <= k < lines@.len() ==> (#[trigger] lines@[k])@ == ls[k],
            parse_gates(rest.take(i - 1)) == Some(ops@),
        decreases lines@.len() - i,
    {
        proof {
            assert(rest.take(i as int).drop_last() =~= rest.take(i - 1));
            assert(rest.take(i as int).last() == ls[i as int]);
            assert(lines@[i as int]@ == ls[i as int]);
        }
        let f = split_pieces(lines[i].as_slice(), false);
        if f.len() != 0 {
            match parse_gate_fields(&f, Ghost(pieces(ls[i as int], false))) {
                Some(op) => ops.push(op),
                None => {
                    proof {
                        let fl = pieces(ls[i as int], false);
                        assert(fl.len() != 0);
                        assert(parse_gate(fl) is None);
                        assert(rest.take(i as int).last() == ls[i as int]);
                        assert(parse_gates(rest.take(i as int).drop_last()) == Some(ops@));
                        assert(parse_gates(rest.take(i as int)) is None);
                        lemma_gates_fail_on(rest, i as int);
                    }
                    return Err(Error::ParseError);
                },
            }
        }
        i = i + 1;
    }
    assert(rest.take(rest.len() as int) =~= rest);
    Ok(
        CircuitDefinition {
            x_count: h[0],
            x_offset: h[1],
            t_count: h[2],
            t_offset: h[3],
            y_count: h[4],
            y_offset: h[5],
            operations: ops,
        },
    )
}

impl CircuitDefinition {
    /// Reads and checks a circuit text: the text must parse, every register must lie
    /// inside its file, and no T or Y register may be read before it is written.
    pub fn from_text(source: &str) -> (r: Result<CircuitDefinition, Error>)
        ensures
            parse_circuit(source.spec_bytes()) is None ==> r == Err::<CircuitDefinition, Error>(
                Error::ParseError,
            ),
            parse_circuit(source.spec_bytes()) matches Some((h, ops)) ==> forall|c: CircuitDefinition|
                #[trigger] describes(c, h, ops) ==> {
                    &&& !in_bounds(c) ==> r == Err::<CircuitDefinition, Error>(
                        Error::RegisterOutOfBounds,
                    )
                    &&& in_bounds(c) && !ordered(c) ==> r == Err::<CircuitDefinition, Error>(
                        Error::ReadBeforeWrite,
                    )
                    &&& in_bounds(c) && ordered(c) ==> (r matches Ok(d) && describes(d, h, ops))
                },
    {
        let c = parse_circuit_text(source)?;
        match c.validate() {
            Ok(()) => Ok(c),
            Err(e) => Err(e),
        }
    }
}

} // verus!
