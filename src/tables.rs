use vstd::prelude::*;

use crate::circuit::{in_bounds, ordered, CircuitDefinition, Opcode, Operation, RegFile, RegRef};
use crate::parse::describes;
use crate::error::Error;

verus! {

/// The linear circuits that the library carries with it.
#[derive(Clone, Copy, Debug, PartialEq, Eq, Structural)]
pub enum Table {
    /// The AES MixColumns layer over 32 bits, with 60 intermediate registers. Its
    /// operation list is incomplete: it reads `t58` before writing it, and it writes
    /// 11 of the 32 outputs, so [`CircuitDefinition::from_table`] refuses it.
    MixColumns,
    /// A second circuit for the AES MixColumns layer, with 93 intermediate registers.
    MixColumns2,
}

/// The header `x_count x_offset t_count t_offset y_count y_offset` of an embedded circuit.
pub open spec fn table_header(t: Table) -> Seq<usize> {
    match t {
        Table::MixColumns => seq![32usize, 0usize, 60usize, 0usize, 32usize, 0usize],
        Table::MixColumns2 => seq![32usize, 0usize, 93usize, 0usize, 32usize, 0usize],
    }
}

/// The operation `target = op1 XOR op2` on the registers given as file and number.
pub open spec fn xor_op(
    target: (RegFile, usize),
    op1: (RegFile, usize),
    op2: (RegFile, usize),
) -> Operation {
    Operation {
        target: RegRef { file: target.0, number: target.1 },
        op1: RegRef { file: op1.0, number: op1.1 },
        op2: RegRef { file: op2.0, number: op2.1 },
        opcode: Opcode::Xor,
    }
}

/// The operations of an embedded circuit, in order.
pub open spec fn table_operations(t: Table) -> Seq<Operation> {
    match t {
        Table::MixColumns => mixcolumns_spec(),
        Table::MixColumns2 => mixcolumns2_spec(),
    }
}

/// The operations of the first MixColumns circuit.
#[verifier::opaque]
pub open spec fn mixcolumns_spec() -> Seq<Operation> {
    seq![
        xor_op((RegFile::T, 0), (RegFile::X, 0), (RegFile::X, 8)),
        xor_op((RegFile::T, 1), (RegFile::X, 16), (RegFile::X, 24)),
        xor_op((RegFile::T, 2), (RegFile::X, 1), (RegFile::X, 9)),
        xor_op((RegFile::T, 3), (RegFile::X, 17), (RegFile::X, 25)),
        xor_op((RegFile::T, 4), (RegFile::X, 2), (RegFile::X, 10)),
        xor_op((RegFile::T, 5), (RegFile::X, 18), (RegFile::X, 26)),
        xor_op((RegFile::T, 6), (RegFile::X, 3), (RegFile::X, 11)),
        xor_op((RegFile::T, 7), (RegFile::X, 19), (RegFile::X, 27)),
        xor_op((RegFile::T, 8), (RegFile::X, 4), (RegFile::X, 12)),
        xor_op((RegFile::T, 9), (RegFile::X, 20), (RegFile::X, 28)),
        xor_op((RegFile::T, 10), (RegFile::X, 5), (RegFile::X, 13)),
        xor_op((RegFile::T, 11), (RegFile::X, 21), (RegFile::X, 29)),
        xor_op((RegFile::T, 12), (RegFile::X, 6), (RegFile::X, 14)),
        xor_op((RegFile::T, 13), (RegFile::X, 22), (RegFile::X, 30)),
        xor_op((RegFile::T, 14), (RegFile::X, 23), (RegFile::X, 31)),
        xor_op((RegFile::T, 15), (RegFile::X, 7), (RegFile::X, 15)),
        xor_op((RegFile::T, 16), (RegFile::X, 8), (RegFile::T, 1)),
        xor_op((RegFile::Y, 0), (RegFile::T, 15), (RegFile::T, 16)),
        xor_op((RegFile::T, 17), (RegFile::X, 7), (RegFile::X, 23)),
        xor_op((RegFile::T, 18), (RegFile::X, 24), (RegFile::T, 0)),
        xor_op((RegFile::Y, 16), (RegFile::T, 14), (RegFile::T, 18)),
        xor_op((RegFile::T, 19), (RegFile::T, 1), (RegFile::Y, 16)),
        xor_op((RegFile::Y, 24), (RegFile::T, 17), (RegFile::T, 19)),
        xor_op((RegFile::T, 20), (RegFile::X, 27), (RegFile::T, 14)),
        xor_op((RegFile::T, 21), (RegFile::T, 0), (RegFile::Y, 0)),
        xor_op((RegFile::Y, 8), (RegFile::T, 17), (RegFile::T, 21)),
        xor_op((RegFile::T, 22), (RegFile::T, 5), (RegFile::T, 20)),
        xor_op((RegFile::Y, 19), (RegFile::T, 6), (RegFile::T, 22)),
        xor_op((RegFile::T, 23), (RegFile::X, 11), (RegFile::T, 15)),
        xor_op((RegFile::T, 24), (RegFile::T, 7), (RegFile::T, 23)),
        xor_op((RegFile::Y, 3), (RegFile::T, 4), (RegFile::T, 24)),
        xor_op((RegFile::T, 25), (RegFile::X, 2), (RegFile::X, 18)),
        xor_op((RegFile::T, 26), (RegFile::T, 17), (RegFile::T, 25)),
        xor_op((RegFile::T, 27), (RegFile::T, 9), (RegFile::T, 23)),
        xor_op((RegFile::T, 28), (RegFile::T, 8), (RegFile::T, 20)),
        xor_op((RegFile::T, 29), (RegFile::X, 10), (RegFile::T, 2)),
        xor_op((RegFile::Y, 2), (RegFile::T, 5), (RegFile::T, 29)),
        xor_op((RegFile::T, 30), (RegFile::X, 26), (RegFile::T, 3)),
        xor_op((RegFile::Y, 18), (RegFile::T, 4), (RegFile::T, 30)),
        xor_op((RegFile::T, 31), (RegFile::X, 9), (RegFile::X, 25)),
        xor_op((RegFile::T, 32), (RegFile::T, 25), (RegFile::T, 31)),
        xor_op((RegFile::Y, 10), (RegFile::T, 30), (RegFile::T, 32)),
        xor_op((RegFile::Y, 26), (RegFile::T, 29), (RegFile::T, 32)),
        xor_op((RegFile::T, 33), (RegFile::X, 1), (RegFile::T, 18)),
        xor_op((RegFile::T, 59), (RegFile::T, 17), (RegFile::T, 58)),
        xor_op((RegFile::Y, 28), (RegFile::X, 20), (RegFile::T, 59)),
    ]
}

/// The operations of the second MixColumns circuit.
#[verifier::opaque]
pub open spec fn mixcolumns2_spec() -> Seq<Operation> {
    mixcolumns2_first_half() + mixcolumns2_second_half()
}

/// The first 47 operations of the second MixColumns circuit.
#[verifier::opaque]
pub open spec fn mixcolumns2_first_half() -> Seq<Operation> {
    seq![
        xor_op((RegFile::T, 0), (RegFile::X, 8), (RegFile::X, 16)),
        xor_op((RegFile::T, 1), (RegFile::X, 7), (RegFile::X, 31)),
        xor_op((RegFile::T, 2), (RegFile::X, 23), (RegFile::T, 0)),
        xor_op((RegFile::Y, 15), (RegFile::T, 1), (RegFile::T, 2)),
        xor_op((RegFile::T, 4), (RegFile::X, 16), (RegFile::X, 24)),
        xor_op((RegFile::T, 5), (RegFile::X, 15), (RegFile::T, 4)),
        xor_op((RegFile::Y, 23), (RegFile::T, 1), (RegFile::T, 5)),
        xor_op((RegFile::T, 7), (RegFile::X, 1), (RegFile::X, 25)),
        xor_op((RegFile::T, 8), (RegFile::X, 0), (RegFile::T, 0)),
        xor_op((RegFile::Y, 24), (RegFile::T, 7), (RegFile::T, 8)),
        xor_op((RegFile::T, 10), (RegFile::X, 10), (RegFile::X, 18)),
        xor_op((RegFile::T, 11), (RegFile::X, 17), (RegFile::T, 10)),
        xor_op((RegFile::Y, 9), (RegFile::T, 7), (RegFile::T, 11)),
        xor_op((RegFile::T, 13), (RegFile::X, 3), (RegFile::X, 27)),
        xor_op((RegFile::T, 14), (RegFile::X, 2), (RegFile::T, 13)),
        xor_op((RegFile::Y, 26), (RegFile::T, 10), (RegFile::T, 14)),
        xor_op((RegFile::T, 16), (RegFile::X, 1), (RegFile::X, 9)),
        xor_op((RegFile::T, 17), (RegFile::X, 8), (RegFile::T, 16)),
        xor_op((RegFile::Y, 0), (RegFile::T, 4), (RegFile::T, 17)),
        xor_op((RegFile::T, 19), (RegFile::X, 18), (RegFile::X, 26)),
        xor_op((RegFile::T, 20), (RegFile::X, 25), (RegFile::T, 19)),
        xor_op((RegFile::Y, 17), (RegFile::T, 16), (RegFile::T, 20)),
        xor_op((RegFile::T, 22), (RegFile::X, 11), (RegFile::X, 19)),
        xor_op((RegFile::T, 23), (RegFile::X, 2), (RegFile::T, 19)),
        xor_op((RegFile::Y, 10), (RegFile::T, 22), (RegFile::T, 23)),
        xor_op((RegFile::T, 25), (RegFile::X, 11), (RegFile::T, 10)),
        xor_op((RegFile::T, 26), (RegFile::X, 3), (RegFile::T, 25)),
        xor_op((RegFile::Y, 2), (RegFile::X, 26), (RegFile::T, 26)),
        xor_op((RegFile::T, 28), (RegFile::X, 27), (RegFile::Y, 10)),
        xor_op((RegFile::Y, 18), (RegFile::T, 25), (RegFile::T, 28)),
        xor_op((RegFile::T, 30), (RegFile::X, 26), (RegFile::T, 16)),
        xor_op((RegFile::T, 31), (RegFile::Y, 9), (RegFile::T, 23)),
        xor_op((RegFile::Y, 1), (RegFile::T, 30), (RegFile::T, 31)),
        xor_op((RegFile::T, 33), (RegFile::X, 2), (RegFile::T, 30)),
        xor_op((RegFile::Y, 25), (RegFile::X, 17), (RegFile::T, 33)),
        xor_op((RegFile::T, 35), (RegFile::X, 17), (RegFile::T, 4)),
        xor_op((RegFile::T, 36), (RegFile::X, 1), (RegFile::T, 35)),
        xor_op((RegFile::Y, 16), (RegFile::Y, 24), (RegFile::T, 36)),
        xor_op((RegFile::T, 38), (RegFile::X, 0), (RegFile::T, 16)),
        xor_op((RegFile::Y, 8), (RegFile::T, 36), (RegFile::T, 38)),
        xor_op((RegFile::T, 40), (RegFile::X, 0), (RegFile::X, 8)),
        xor_op((RegFile::T, 41), (RegFile::X, 31), (RegFile::T, 40)),
        xor_op((RegFile::T, 42), (RegFile::X, 15), (RegFile::T, 41)),
        xor_op((RegFile::Y, 7), (RegFile::X, 23), (RegFile::T, 42)),
        xor_op((RegFile::T, 44), (RegFile::Y, 15), (RegFile::T, 41)),
        xor_op((RegFile::Y, 31), (RegFile::T, 5), (RegFile::T, 44)),
        xor_op((RegFile::T, 46), (RegFile::X, 14), (RegFile::X, 22)),
    ]
}

/// The last 47 operations of the second MixColumns circuit.
#[verifier::opaque]
pub open spec fn mixcolumns2_second_half() -> Seq<Operation> {
    seq![
        xor_op((RegFile::T, 47), (RegFile::X, 21), (RegFile::X, 29)),
        xor_op((RegFile::T, 48), (RegFile::X, 5), (RegFile::T, 46)),
        xor_op((RegFile::Y, 13), (RegFile::T, 47), (RegFile::T, 48)),
        xor_op((RegFile::T, 50), (RegFile::T, 1), (RegFile::T, 46)),
        xor_op((RegFile::T, 51), (RegFile::X, 30), (RegFile::T, 42)),
        xor_op((RegFile::Y, 6), (RegFile::T, 50), (RegFile::T, 51)),
        xor_op((RegFile::T, 53), (RegFile::X, 6), (RegFile::X, 14)),
        xor_op((RegFile::T, 54), (RegFile::T, 47), (RegFile::T, 53)),
        xor_op((RegFile::Y, 5), (RegFile::X, 13), (RegFile::T, 54)),
        xor_op((RegFile::T, 56), (RegFile::Y, 6), (RegFile::T, 53)),
        xor_op((RegFile::Y, 14), (RegFile::T, 44), (RegFile::T, 56)),
        xor_op((RegFile::T, 58), (RegFile::X, 0), (RegFile::X, 24)),
        xor_op((RegFile::T, 59), (RegFile::X, 6), (RegFile::T, 50)),
        xor_op((RegFile::Y, 30), (RegFile::T, 58), (RegFile::T, 59)),
        xor_op((RegFile::T, 61), (RegFile::X, 22), (RegFile::X, 30)),
        xor_op((RegFile::T, 62), (RegFile::T, 44), (RegFile::Y, 30)),
        xor_op((RegFile::Y, 22), (RegFile::T, 61), (RegFile::T, 62)),
        xor_op((RegFile::T, 64), (RegFile::X, 5), (RegFile::X, 29)),
        xor_op((RegFile::T, 65), (RegFile::T, 61), (RegFile::T, 64)),
        xor_op((RegFile::Y, 21), (RegFile::X, 13), (RegFile::T, 65)),
        xor_op((RegFile::T, 67), (RegFile::T, 46), (RegFile::T, 65)),
        xor_op((RegFile::Y, 29), (RegFile::Y, 5), (RegFile::T, 67)),
        xor_op((RegFile::T, 69), (RegFile::X, 4), (RegFile::X, 12)),
        xor_op((RegFile::T, 70), (RegFile::X, 28), (RegFile::T, 4)),
        xor_op((RegFile::T, 71), (RegFile::T, 47), (RegFile::T, 69)),
        xor_op((RegFile::Y, 20), (RegFile::T, 70), (RegFile::T, 71)),
        xor_op((RegFile::T, 73), (RegFile::X, 20), (RegFile::T, 13)),
        xor_op((RegFile::T, 74), (RegFile::X, 11), (RegFile::T, 70)),
        xor_op((RegFile::Y, 19), (RegFile::T, 73), (RegFile::T, 74)),
        xor_op((RegFile::T, 76), (RegFile::T, 58), (RegFile::T, 64)),
        xor_op((RegFile::T, 77), (RegFile::T, 69), (RegFile::T, 76)),
        xor_op((RegFile::Y, 28), (RegFile::X, 20), (RegFile::T, 77)),
        xor_op((RegFile::T, 79), (RegFile::X, 12), (RegFile::T, 0)),
        xor_op((RegFile::T, 80), (RegFile::X, 19), (RegFile::T, 79)),
        xor_op((RegFile::Y, 11), (RegFile::T, 73), (RegFile::T, 80)),
        xor_op((RegFile::T, 82), (RegFile::T, 40), (RegFile::T, 69)),
        xor_op((RegFile::T, 83), (RegFile::T, 28), (RegFile::T, 82)),
        xor_op((RegFile::Y, 3), (RegFile::T, 23), (RegFile::T, 83)),
        xor_op((RegFile::T, 85), (RegFile::X, 3), (RegFile::Y, 19)),
        xor_op((RegFile::T, 86), (RegFile::Y, 11), (RegFile::T, 85)),
        xor_op((RegFile::Y, 27), (RegFile::T, 82), (RegFile::T, 86)),
        xor_op((RegFile::T, 88), (RegFile::Y, 28), (RegFile::T, 79)),
        xor_op((RegFile::T, 89), (RegFile::X, 13), (RegFile::T, 88)),
        xor_op((RegFile::T, 90), (RegFile::X, 21), (RegFile::T, 89)),
        xor_op((RegFile::Y, 4), (RegFile::Y, 20), (RegFile::T, 90)),
        xor_op((RegFile::T, 92), (RegFile::X, 28), (RegFile::T, 90)),
        xor_op((RegFile::Y, 12), (RegFile::T, 76), (RegFile::T, 92)),
    ]
}

fn push_xor(
    ops: &mut Vec<Operation>,
    target: (RegFile, usize),
    op1: (RegFile, usize),
    op2: (RegFile, usize),
)
    ensures
        final(ops)@ == old(ops)@.push(xor_op(target, op1, op2)),
{
    ops.push(
        Operation {
            target: RegRef { file: target.0, number: target.1 },
            op1: RegRef { file: op1.0, number: op1.1 },
            op2: RegRef { file: op2.0, number: op2.1 },
            opcode: Opcode::Xor,
        },
    );
}

#[verifier::rlimit(100)]
fn mixcolumns_operations() -> (ops: Vec<Operation>)
    ensures
        ops@ == mixcolumns_spec(),
{
    proof {
        reveal(mixcolumns_spec);
    }
    let mut ops: Vec<Operation> = Vec::new();
    push_xor(&mut ops, (RegFile::T, 0), (RegFile::X, 0), (RegFile::X, 8));
    push_xor(&mut ops, (RegFile::T, 1), (RegFile::X, 16), (RegFile::X, 24));
    push_xor(&mut ops, (RegFile::T, 2), (RegFile::X, 1), (RegFile::X, 9));
    push_xor(&mut ops, (RegFile::T, 3), (RegFile::X, 17), (RegFile::X, 25));
    push_xor(&mut ops, (RegFile::T, 4), (RegFile::X, 2), (RegFile::X, 10));
    push_xor(&mut ops, (RegFile::T, 5), (RegFile::X, 18), (RegFile::X, 26));
    push_xor(&mut ops, (RegFile::T, 6), (RegFile::X, 3), (RegFile::X, 11));
    push_xor(&mut ops, (RegFile::T, 7), (RegFile::X, 19), (RegFile::X, 27));
    push_xor(&mut ops, (RegFile::T, 8), (RegFile::X, 4), (RegFile::X, 12));
    push_xor(&mut ops, (RegFile::T, 9), (RegFile::X, 20), (RegFile::X, 28));
    push_xor(&mut ops, (RegFile::T, 10), (RegFile::X, 5), (RegFile::X, 13));
    push_xor(&mut ops, (RegFile::T, 11), (RegFile::X, 21), (RegFile::X, 29));
    push_xor(&mut ops, (RegFile::T, 12), (RegFile::X, 6), (RegFile::X, 14));
    push_xor(&mut ops, (RegFile::T, 13), (RegFile::X, 22), (RegFile::X, 30));
    push_xor(&mut ops, (RegFile::T, 14), (RegFile::X, 23), (RegFile::X, 31));
    push_xor(&mut ops, (RegFile::T, 15), (RegFile::X, 7), (RegFile::X, 15));
    push_xor(&mut ops, (RegFile::T, 16), (RegFile::X, 8), (RegFile::T, 1));
    push_xor(&mut ops, (RegFile::Y, 0), (RegFile::T, 15), (RegFile::T, 16));
    push_xor(&mut ops, (RegFile::T, 17), (RegFile::X, 7), (RegFile::X, 23));
    push_xor(&mut ops, (RegFile::T, 18), (RegFile::X, 24), (RegFile::T, 0));
    push_xor(&mut ops, (RegFile::Y, 16), (RegFile::T, 14), (RegFile::T, 18));
    push_xor(&mut ops, (RegFile::T, 19), (RegFile::T, 1), (RegFile::Y, 16));
    push_xor(&mut ops, (RegFile::Y, 24), (RegFile::T, 17), (RegFile::T, 19));
    push_xor(&mut ops, (RegFile::T, 20), (RegFile::X, 27), (RegFile::T, 14));
    push_xor(&mut ops, (RegFile::T, 21), (RegFile::T, 0), (RegFile::Y, 0));
    push_xor(&mut ops, (RegFile::Y, 8), (RegFile::T, 17), (RegFile::T, 21));
    push_xor(&mut ops, (RegFile::T, 22), (RegFile::T, 5), (RegFile::T, 20));
    push_xor(&mut ops, (RegFile::Y, 19), (RegFile::T, 6), (RegFile::T, 22));
    push_xor(&mut ops, (RegFile::T, 23), (RegFile::X, 11), (RegFile::T, 15));
    push_xor(&mut ops, (RegFile::T, 24), (RegFile::T, 7), (RegFile::T, 23));
    push_xor(&mut ops, (RegFile::Y, 3), (RegFile::T, 4), (RegFile::T, 24));
    push_xor(&mut ops, (RegFile::T, 25), (RegFile::X, 2), (RegFile::X, 18));
    push_xor(&mut ops, (RegFile::T, 26), (RegFile::T, 17), (RegFile::T, 25));
    push_xor(&mut ops, (RegFile::T, 27), (RegFile::T, 9), (RegFile::T, 23));
    push_xor(&mut ops, (RegFile::T, 28), (RegFile::T, 8), (RegFile::T, 20));
    push_xor(&mut ops, (RegFile::T, 29), (RegFile::X, 10), (RegFile::T, 2));
    push_xor(&mut ops, (RegFile::Y, 2), (RegFile::T, 5), (RegFile::T, 29));
    push_xor(&mut ops, (RegFile::T, 30), (RegFile::X, 26), (RegFile::T, 3));
    push_xor(&mut ops, (RegFile::Y, 18), (RegFile::T, 4), (RegFile::T, 30));
    push_xor(&mut ops, (RegFile::T, 31), (RegFile::X, 9), (RegFile::X, 25));
    push_xor(&mut ops, (RegFile::T, 32), (RegFile::T, 25), (RegFile::T, 31));
    push_xor(&mut ops, (RegFile::Y, 10), (RegFile::T, 30), (RegFile::T, 32));
    push_xor(&mut ops, (RegFile::Y, 26), (RegFile::T, 29), (RegFile::T, 32));
    push_xor(&mut ops, (RegFile::T, 33), (RegFile::X, 1), (RegFile::T, 18));
    push_xor(&mut ops, (RegFile::T, 59), (RegFile::T, 17), (RegFile::T, 58));
    push_xor(&mut ops, (RegFile::Y, 28), (RegFile::X, 20), (RegFile::T, 59));
    ops
}

fn mixcolumns2_operations() -> (ops: Vec<Operation>)
    ensures
        ops@ == mixcolumns2_spec(),
{
    proof {
        reveal(mixcolumns2_spec);
    }
    let mut ops = mixcolumns2_first_operations();
    let mut rest = mixcolumns2_second_operations();
    ops.append(&mut rest);
    ops
}

#[verifier::rlimit(100)]
fn mixcolumns2_first_operations() -> (ops: Vec<Operation>)
    ensures
        ops@ == mixcolumns2_first_half(),
{
    proof {
        reveal(mixcolumns2_first_half);
    }
    let mut ops: Vec<Operation> = Vec::new();
    push_xor(&mut ops, (RegFile::T, 0), (RegFile::X, 8), (RegFile::X, 16));
    push_xor(&mut ops, (RegFile::T, 1), (RegFile::X, 7), (RegFile::X, 31));
    push_xor(&mut ops, (RegFile::T, 2), (RegFile::X, 23), (RegFile::T, 0));
    push_xor(&mut ops, (RegFile::Y, 15), (RegFile::T, 1), (RegFile::T, 2));
    push_xor(&mut ops, (RegFile::T, 4), (RegFile::X, 16), (RegFile::X, 24));
    push_xor(&mut ops, (RegFile::T, 5), (RegFile::X, 15), (RegFile::T, 4));
    push_xor(&mut ops, (RegFile::Y, 23), (RegFile::T, 1), (RegFile::T, 5));
    push_xor(&mut ops, (RegFile::T, 7), (RegFile::X, 1), (RegFile::X, 25));
    push_xor(&mut ops, (RegFile::T, 8), (RegFile::X, 0), (RegFile::T, 0));
    push_xor(&mut ops, (RegFile::Y, 24), (RegFile::T, 7), (RegFile::T, 8));
    push_xor(&mut ops, (RegFile::T, 10), (RegFile::X, 10), (RegFile::X, 18));
    push_xor(&mut ops, (RegFile::T, 11), (RegFile::X, 17), (RegFile::T, 10));
    push_xor(&mut ops, (RegFile::Y, 9), (RegFile::T, 7), (RegFile::T, 11));
    push_xor(&mut ops, (RegFile::T, 13), (RegFile::X, 3), (RegFile::X, 27));
    push_xor(&mut ops, (RegFile::T, 14), (RegFile::X, 2), (RegFile::T, 13));
    push_xor(&mut ops, (RegFile::Y, 26), (RegFile::T, 10), (RegFile::T, 14));
    push_xor(&mut ops, (RegFile::T, 16), (RegFile::X, 1), (RegFile::X, 9));
    push_xor(&mut ops, (RegFile::T, 17), (RegFile::X, 8), (RegFile::T, 16));
    push_xor(&mut ops, (RegFile::Y, 0), (RegFile::T, 4), (RegFile::T, 17));
    push_xor(&mut ops, (RegFile::T, 19), (RegFile::X, 18), (RegFile::X, 26));
    push_xor(&mut ops, (RegFile::T, 20), (RegFile::X, 25), (RegFile::T, 19));
    push_xor(&mut ops, (RegFile::Y, 17), (RegFile::T, 16), (RegFile::T, 20));
    push_xor(&mut ops, (RegFile::T, 22), (RegFile::X, 11), (RegFile::X, 19));
    push_xor(&mut ops, (RegFile::T, 23), (RegFile::X, 2), (RegFile::T, 19));
    push_xor(&mut ops, (RegFile::Y, 10), (RegFile::T, 22), (RegFile::T, 23));
    push_xor(&mut ops, (RegFile::T, 25), (RegFile::X, 11), (RegFile::T, 10));
    push_xor(&mut ops, (RegFile::T, 26), (RegFile::X, 3), (RegFile::T, 25));
    push_xor(&mut ops, (RegFile::Y, 2), (RegFile::X, 26), (RegFile::T, 26));
    push_xor(&mut ops, (RegFile::T, 28), (RegFile::X, 27), (RegFile::Y, 10));
    push_xor(&mut ops, (RegFile::Y, 18), (RegFile::T, 25), (RegFile::T, 28));
    push_xor(&mut ops, (RegFile::T, 30), (RegFile::X, 26), (RegFile::T, 16));
    push_xor(&mut ops, (RegFile::T, 31), (RegFile::Y, 9), (RegFile::T, 23));
    push_xor(&mut ops, (RegFile::Y, 1), (RegFile::T, 30), (RegFile::T, 31));
    push_xor(&mut ops, (RegFile::T, 33), (RegFile::X, 2), (RegFile::T, 30));
    push_xor(&mut ops, (RegFile::Y, 25), (RegFile::X, 17), (RegFile::T, 33));
    push_xor(&mut ops, (RegFile::T, 35), (RegFile::X, 17), (RegFile::T, 4));
    push_xor(&mut ops, (RegFile::T, 36), (RegFile::X, 1), (RegFile::T, 35));
    push_xor(&mut ops, (RegFile::Y, 16), (RegFile::Y, 24), (RegFile::T, 36));
    push_xor(&mut ops, (RegFile::T, 38), (RegFile::X, 0), (RegFile::T, 16));
    push_xor(&mut ops, (RegFile::Y, 8), (RegFile::T, 36), (RegFile::T, 38));
    push_xor(&mut ops, (RegFile::T, 40), (RegFile::X, 0), (RegFile::X, 8));
    push_xor(&mut ops, (RegFile::T, 41), (RegFile::X, 31), (RegFile::T, 40));
    push_xor(&mut ops, (RegFile::T, 42), (RegFile::X, 15), (RegFile::T, 41));
    push_xor(&mut ops, (RegFile::Y, 7), (RegFile::X, 23), (RegFile::T, 42));
    push_xor(&mut ops, (RegFile::T, 44), (RegFile::Y, 15), (RegFile::T, 41));
    push_xor(&mut ops, (RegFile::Y, 31), (RegFile::T, 5), (RegFile::T, 44));
    push_xor(&mut ops, (RegFile::T, 46), (RegFile::X, 14), (RegFile::X, 22));
    ops
}

#[verifier::rlimit(100)]
fn mixcolumns2_second_operations() -> (ops: Vec<Operation>)
    ensures
        ops@ == mixcolumns2_second_half(),
{
    proof {
        reveal(mixcolumns2_second_half);
    }
    let mut ops: Vec<Operation> = Vec::new();
    push_xor(&mut ops, (RegFile::T, 47), (RegFile::X, 21), (RegFile::X, 29));
    push_xor(&mut ops, (RegFile::T, 48), (RegFile::X, 5), (RegFile::T, 46));
    push_xor(&mut ops, (RegFile::Y, 13), (RegFile::T, 47), (RegFile::T, 48));
    push_xor(&mut ops, (RegFile::T, 50), (RegFile::T, 1), (RegFile::T, 46));
    push_xor(&mut ops, (RegFile::T, 51), (RegFile::X, 30), (RegFile::T, 42));
    push_xor(&mut ops, (RegFile::Y, 6), (RegFile::T, 50), (RegFile::T, 51));
    push_xor(&mut ops, (RegFile::T, 53), (RegFile::X, 6), (RegFile::X, 14));
    push_xor(&mut ops, (RegFile::T, 54), (RegFile::T, 47), (RegFile::T, 53));
    push_xor(&mut ops, (RegFile::Y, 5), (RegFile::X, 13), (RegFile::T, 54));
    push_xor(&mut ops, (RegFile::T, 56), (RegFile::Y, 6), (RegFile::T, 53));
    push_xor(&mut ops, (RegFile::Y, 14), (RegFile::T, 44), (RegFile::T, 56));
    push_xor(&mut ops, (RegFile::T, 58), (RegFile::X, 0), (RegFile::X, 24));
    push_xor(&mut ops, (RegFile::T, 59), (RegFile::X, 6), (RegFile::T, 50));
    push_xor(&mut ops, (RegFile::Y, 30), (RegFile::T, 58), (RegFile::T, 59));
    push_xor(&mut ops, (RegFile::T, 61), (RegFile::X, 22), (RegFile::X, 30));
    push_xor(&mut ops, (RegFile::T, 62), (RegFile::T, 44), (RegFile::Y, 30));
    push_xor(&mut ops, (RegFile::Y, 22), (RegFile::T, 61), (RegFile::T, 62));
    push_xor(&mut ops, (RegFile::T, 64), (RegFile::X, 5), (RegFile::X, 29));
    push_xor(&mut ops, (RegFile::T, 65), (RegFile::T, 61), (RegFile::T, 64));
    push_xor(&mut ops, (RegFile::Y, 21), (RegFile::X, 13), (RegFile::T, 65));
    push_xor(&mut ops, (RegFile::T, 67), (RegFile::T, 46), (RegFile::T, 65));
    push_xor(&mut ops, (RegFile::Y, 29), (RegFile::Y, 5), (RegFile::T, 67));
    push_xor(&mut ops, (RegFile::T, 69), (RegFile::X, 4), (RegFile::X, 12));
    push_xor(&mut ops, (RegFile::T, 70), (RegFile::X, 28), (RegFile::T, 4));
    push_xor(&mut ops, (RegFile::T, 71), (RegFile::T, 47), (RegFile::T, 69));
    push_xor(&mut ops, (RegFile::Y, 20), (RegFile::T, 70), (RegFile::T, 71));
    push_xor(&mut ops, (RegFile::T, 73), (RegFile::X, 20), (RegFile::T, 13));
    push_xor(&mut ops, (RegFile::T, 74), (RegFile::X, 11), (RegFile::T, 70));
    push_xor(&mut ops, (RegFile::Y, 19), (RegFile::T, 73), (RegFile::T, 74));
    push_xor(&mut ops, (RegFile::T, 76), (RegFile::T, 58), (RegFile::T, 64));
    push_xor(&mut ops, (RegFile::T, 77), (RegFile::T, 69), (RegFile::T, 76));
    push_xor(&mut ops, (RegFile::Y, 28), (RegFile::X, 20), (RegFile::T, 77));
    push_xor(&mut ops, (RegFile::T, 79), (RegFile::X, 12), (RegFile::T, 0));
    push_xor(&mut ops, (RegFile::T, 80), (RegFile::X, 19), (RegFile::T, 79));
    push_xor(&mut ops, (RegFile::Y, 11), (RegFile::T, 73), (RegFile::T, 80));
    push_xor(&mut ops, (RegFile::T, 82), (RegFile::T, 40), (RegFile::T, 69));
    push_xor(&mut ops, (RegFile::T, 83), (RegFile::T, 28), (RegFile::T, 82));
    push_xor(&mut ops, (RegFile::Y, 3), (RegFile::T, 23), (RegFile::T, 83));
    push_xor(&mut ops, (RegFile::T, 85), (RegFile::X, 3), (RegFile::Y, 19));
    push_xor(&mut ops, (RegFile::T, 86), (RegFile::Y, 11), (RegFile::T, 85));
    push_xor(&mut ops, (RegFile::Y, 27), (RegFile::T, 82), (RegFile::T, 86));
    push_xor(&mut ops, (RegFile::T, 88), (RegFile::Y, 28), (RegFile::T, 79));
    push_xor(&mut ops, (RegFile::T, 89), (RegFile::X, 13), (RegFile::T, 88));
    push_xor(&mut ops, (RegFile::T, 90), (RegFile::X, 21), (RegFile::T, 89));
    push_xor(&mut ops, (RegFile::Y, 4), (RegFile::Y, 20), (RegFile::T, 90));
    push_xor(&mut ops, (RegFile::T, 92), (RegFile::X, 28), (RegFile::T, 90));
    push_xor(&mut ops, (RegFile::Y, 12), (RegFile::T, 76), (RegFile::T, 92));
    ops
}

impl CircuitDefinition {
    /// An embedded circuit, checked as a circuit text is: every register must lie inside
    /// its file, and no T or Y register may be read before it is written.
    pub fn from_table(t: Table) -> (r: Result<CircuitDefinition, Error>)
        ensures
            forall|c: CircuitDefinition|
                #[trigger] describes(c, table_header(t), table_operations(t)) ==> {
                    &&& !in_bounds(c) ==> r == Err::<CircuitDefinition, Error>(
                        Error::RegisterOutOfBounds,
                    )
                    &&& in_bounds(c) && !ordered(c) ==> r == Err::<CircuitDefinition, Error>(
                        Error::ReadBeforeWrite,
                    )
                    &&& in_bounds(c) && ordered(c) ==> (r matches Ok(d) && describes(
                        d,
                        table_header(t),
                        table_operations(t),
                    ))
                },
    {
        let c = match t {
            Table::MixColumns => CircuitDefinition {
                x_count: 32,
                x_offset: 0,
                t_count: 60,
                t_offset: 0,
                y_count: 32,
                y_offset: 0,
                operations: mixcolumns_operations(),
            },
            Table::MixColumns2 => CircuitDefinition {
                x_count: 32,
                x_offset: 0,
                t_count: 93,
                t_offset: 0,
                y_count: 32,
                y_offset: 0,
                operations: mixcolumns2_operations(),
            },
        };
        match c.validate() {
            Ok(()) => Ok(c),
            Err(e) => Err(e),
        }
    }
}

} // verus!
