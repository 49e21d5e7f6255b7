use vstd::prelude::*;

use crate::error::Error;

verus! {

/// One of the three register files of a linear circuit.
#[derive(Clone, Copy, Debug, PartialEq, Eq, Structural)]
pub enum RegFile {
    /// Primary inputs.
    X,
    /// Intermediate values.
    T,
    /// Outputs.
    Y,
}

/// A reference to a register: its file and the number written after the file letter.
/// The slot it names is `number` minus the file's offset.
#[derive(Clone, Copy, Debug, PartialEq, Eq, Structural)]
pub struct RegRef {
    pub file: RegFile,
    pub number: usize,
}

/// The Boolean function that an operation applies.
#[derive(Clone, Copy, Debug, PartialEq, Eq, Structural)]
pub enum Opcode {
    Xor,
    Xnor,
}

/// One gate: `target = op1 OPCODE op2`.
#[derive(Clone, Copy, Debug, PartialEq, Eq, Structural)]
pub struct Operation {
    pub target: RegRef,
    pub op1: RegRef,
    pub op2: RegRef,
    pub opcode: Opcode,
}

/// A linear circuit: the sizes and offsets of the three register files and the
/// gates, in the order in which they run.
#[derive(Clone, Debug)]
pub struct CircuitDefinition {
    pub x_count: usize,
    pub x_offset: usize,
    pub t_count: usize,
    pub t_offset: usize,
    pub y_count: usize,
    pub y_offset: usize,
    pub operations: Vec<Operation>,
}

/// The number of slots of a register file.
pub open spec fn file_count(c: CircuitDefinition, f: RegFile) -> int {
    match f {
        RegFile::X => c.x_count as int,
        RegFile::T => c.t_count as int,
        RegFile::Y => c.y_count as int,
    }
}

/// The offset of a register file.
pub open spec fn file_offset(c: CircuitDefinition, f: RegFile) -> int {
    match f {
        RegFile::X => c.x_offset as int,
        RegFile::T => c.t_offset as int,
        RegFile::Y => c.y_offset as int,
    }
}

/// The slot that a reference names.
pub open spec fn slot(c: CircuitDefinition, r: RegRef) -> int {
    r.number - file_offset(c, r.file)
}

/// The reference names an existing slot of its file.
pub open spec fn ref_in_bounds(c: CircuitDefinition, r: RegRef) -> bool {
    0 <= slot(c, r) < file_count(c, r.file)
}

/// Both operands name existing slots, and the target is an existing T or Y slot.
pub open spec fn op_in_bounds(c: CircuitDefinition, op: Operation) -> bool {
    &&& ref_in_bounds(c, op.op1)
    &&& ref_in_bounds(c, op.op2)
    &&& ref_in_bounds(c, op.target)
    &&& op.target.file != RegFile::X
}

/// Every operation of the circuit is in bounds.
pub open spec fn in_bounds(c: CircuitDefinition) -> bool {
    forall|i: int| 0 <= i < c.operations@.len() ==> op_in_bounds(c, #[trigger] c.operations@[i])
}

/// One of the first `n` operations writes the slot that `r` names.
pub open spec fn written_before(c: CircuitDefinition, n: int, r: RegRef) -> bool {
    exists|j: int|
        0 <= j < n && (#[trigger] c.operations@[j]).target.file == r.file && slot(
            c,
            c.operations@[j].target,
        ) == slot(c, r)
}

/// Reading `r` at operation `n` sees a value: it is an input or an earlier operation wrote it.
pub open spec fn readable_at(c: CircuitDefinition, n: int, r: RegRef) -> bool {
    r.file == RegFile::X || written_before(c, n, r)
}

/// No operation reads a T or Y register before an earlier operation wrote it.
pub open spec fn ordered(c: CircuitDefinition) -> bool {
    forall|i: int|
        0 <= i < c.operations@.len() ==> readable_at(c, i, (#[trigger] c.operations@[i]).op1)
            && readable_at(c, i, c.operations@[i].op2)
}

impl CircuitDefinition {
    /// The slot that `r` names, where it lies inside its file.
    pub fn resolve(&self, r: RegRef) -> (res: Option<usize>)
        ensures
            ref_in_bounds(*self, r) <==> res.is_some(),
            res.is_some() ==> res.unwrap() == slot(*self, r),
    {
        let (count, offset) = match r.file {
            RegFile::X => (self.x_count, self.x_offset),
            RegFile::T => (self.t_count, self.t_offset),
            RegFile::Y => (self.y_count, self.y_offset),
        };
        if r.number < offset {
            None
        } else if r.number - offset < count {
            Some(r.number - offset)
        } else {
            None
        }
    }

    /// Whether the operation's operands and target all name existing slots,
    /// the target lying in the T or Y file.
    pub fn operation_in_bounds(&self, op: &Operation) -> (b: bool)
        ensures
            b == op_in_bounds(*self, *op),
    {
        op.target.file != RegFile::X && self.resolve(op.op1).is_some() && self.resolve(
            op.op2,
        ).is_some() && self.resolve(op.target).is_some()
    }

    /// Whether every operation of the circuit is in bounds.
    pub fn is_in_bounds(&self) -> (b: bool)
        ensures
            b == in_bounds(*self),
    {
        let mut i: usize = 0;
        while i < self.operations.len()
            invariant
                0 <= i <= self.operations@.len(),
                forall|k: int| 0 <= k < i ==> op_in_bounds(*self, #[trigger] self.operations@[k]),
            decreases self.operations@.len() - i,
        {
            if !self.operation_in_bounds(&self.operations[i]) {
                return false;
            }
            i = i + 1;
        }
        true
    }
    /// Whether no operation reads a T or Y register before an earlier operation wrote it.
    pub fn is_ordered(&self) -> (b: bool)
        requires
            in_bounds(*self),
        ensures
            b == ordered(*self),
    {
        let mut written_t: Vec<bool> = Vec::new();
        let mut k: usize = 0;
        while k < self.t_count
            invariant
                k <= self.t_count,
                written_t@.len() == k,
                forall|m: int| 0 <= m < k ==> !(#[trigger] written_t@[m]),
            decreases self.t_count - k,
        {
            written_t.push(false);
            k = k + 1;
        }
        let mut written_y: Vec<bool> = Vec::new();
        k = 0;
        while k < self.y_count
            invariant
                k <= self.y_count,
                written_y@.len() == k,
                forall|m: int| 0 <= m < k ==> !(#[trigger] written_y@[m]),
            decreases self.y_count - k,
        {
            written_y.push(false);
            k = k + 1;
        }
        let mut i: usize = 0;
        while i < self.operations.len()
            invariant
                0 <= i <= self.operations@.len(),
                in_bounds(*self),
                written_t@.len() == self.t_count,
                written_y@.len() == self.y_count,
                forall|r: RegRef|
                    r.file == RegFile::T && ref_in_bounds(*self, r) ==> (written_t@[slot(*self, r)]
                        <==> #[trigger] written_before(*self, i as int, r)),
                forall|r: RegRef|
                    r.file == RegFile::Y && ref_in_bounds(*self, r) ==> (written_y@[slot(*self, r)]
                        <==> #[trigger] written_before(*self, i as int, r)),
                forall|n: int|
                    0 <= n < i ==> readable_at(*self, n, (#[trigger] self.operations@[n]).op1)
                        && readable_at(*self, n, self.operations@[n].op2),
            decreases self.operations@.len() - i,
        {
            let op = self.operations[i];
            assert(op_in_bounds(*self, self.operations@[i as int]));
            if !self.reads_written(&written_t, &written_y, op.op1) || !self.reads_written(
                &written_t,
                &written_y,
                op.op2,
            ) {
                return false;
            }
            let s = self.resolve(op.target).unwrap();
            proof {
                assert forall|r: RegRef| #[trigger]
                    written_before(*self, i as int + 1, r) <==> (written_before(*self, i as int, r)
                        || (op.target.file == r.file && slot(*self, op.target) == slot(*self, r))) by {
                    if written_before(*self, i as int + 1, r) && !(op.target.file == r.file && slot(
                        *self,
                        op.target,
                    ) == slot(*self, r)) {
                        let j = choose|j: int|
                            0 <= j < i + 1 && (#[trigger] self.operations@[j]).target.file == r.file
                                && slot(*self, self.operations@[j].target) == slot(*self, r);
                        assert(j < i);
                    }
                    if written_before(*self, i as int, r) {
                        let j = choose|j: int|
                            0 <= j < i && (#[trigger] self.operations@[j]).target.file == r.file
                                && slot(*self, self.operations@[j].target) == slot(*self, r);
                        assert(0 <= j < i + 1);
                    }
                    if op.target.file == r.file && slot(*self, op.target) == slot(*self, r) {
                        assert(self.operations@[i as int].target.file == r.file);
                    }
                }
            }
            if op.target.file == RegFile::T {
                written_t.set(s, true);
            } else {
                written_y.set(s, true);
            }
            proof {
                assert forall|n: int|
                    0 <= n < i + 1 implies readable_at(*self, n, (#[trigger] self.operations@[n]).op1)
                    && readable_at(*self, n, self.operations@[n].op2) by {
                    if n < i {
                    } else {
                        assert(n == i);
                    }
                }
            }
            i = i + 1;
        }
        true
    }

    /// Whether reading `r` sees a value, given which T and Y slots were written.
    fn reads_written(&self, written_t: &Vec<bool>, written_y: &Vec<bool>, r: RegRef) -> (b: bool)
        requires
            ref_in_bounds(*self, r),
            written_t@.len() == self.t_count,
            written_y@.len() == self.y_count,
        ensures
            b == (r.file == RegFile::X || (r.file == RegFile::T && written_t@[slot(*self, r)]) || (
            r.file == RegFile::Y && written_y@[slot(*self, r)])),
    {
        let s = self.resolve(r).unwrap();
        match r.file {
            RegFile::X => true,
            RegFile::T => written_t[s],
            RegFile::Y => written_y[s],
        }
    }

    /// Checks that every register reference lies inside its file and that no operation
    /// reads a T or Y register before an earlier operation wrote it.
    pub fn validate(&self) -> (r: Result<(), Error>)
        ensures
            !in_bounds(*self) ==> r == Err::<(), Error>(Error::RegisterOutOfBounds),
            in_bounds(*self) && !ordered(*self) ==> r == Err::<(), Error>(Error::ReadBeforeWrite),
            in_bounds(*self) && ordered(*self) ==> r is Ok,
    {
        if !self.is_in_bounds() {
            Err(Error::RegisterOutOfBounds)
        } else if !self.is_ordered() {
            Err(Error::ReadBeforeWrite)
        } else {
            Ok(())
        }
    }
}

} // verus!
