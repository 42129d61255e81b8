//! An interpreter for a machine with three instructions (add, multiply,
//! halt) over a flat memory of unsigned integers.
//!
//! An instruction occupies four cells: the opcode and three operand cells.
//! The first two operand cells hold the addresses of the values to combine,
//! the third holds the address that receives the result.

use vstd::prelude::*;
use vstd::slice::slice_to_vec;

verus! {

/// A decoded instruction. `a` and `b` are values already fetched from
/// memory; `dest` is the address that receives the result.
#[derive(Debug, PartialEq, Eq, Clone, Copy, Structural)]
pub enum Op {
    Add { a: usize, b: usize, dest: usize },
    Mul { a: usize, b: usize, dest: usize },
    Halt,
}

/// Why a run stopped without reaching a halt instruction.
#[derive(Debug, PartialEq, Eq, Clone, Copy, Structural)]
pub enum Fault {
    /// A read or a write at `address`, which lies beyond the memory.
    InvalidAddress { address: usize },
    /// The cell at `pc` holds `opcode`, which names no instruction.
    UnknownOpcode { opcode: usize, pc: usize },
    /// The instruction at `pc` has a result that no memory cell can hold.
    Overflow { pc: usize },
}

/// What one instruction leaves behind: the memory after it, and the value
/// of the run if the instruction was a halt.
pub type Effect = (Seq<usize>, Option<usize>);

/// The machine: its memory, one unsigned integer to a cell.
pub struct Machine {
    pub ops: Vec<usize>,
}

/// Reading the cell at `address`.
pub open spec fn read_at(mem: Seq<usize>, address: int) -> Result<usize, Fault> {
    if 0 <= address < mem.len() {
        Ok(mem[address])
    } else {
        Err(Fault::InvalidAddress { address: address as usize })
    }
}

/// Writing `value` to the cell at `dest`.
pub open spec fn write_at(mem: Seq<usize>, dest: usize, value: usize) -> Result<Seq<usize>, Fault> {
    if dest < mem.len() {
        Ok(mem.update(dest as int, value))
    } else {
        Err(Fault::InvalidAddress { address: dest })
    }
}

/// Reading the cell whose address stands in the cell at `slot`.
pub open spec fn read_through(mem: Seq<usize>, slot: int) -> Result<usize, Fault> {
    match read_at(mem, slot) {
        Ok(address) => read_at(mem, address as int),
        Err(fault) => Err(fault),
    }
}

/// The operands of the instruction at `pc`: the two values and the
/// destination address, fetched in this order. The first read that fails
/// gives the fault.
pub open spec fn operands_at(mem: Seq<usize>, pc: int) -> Result<(usize, usize, usize), Fault> {
    match read_through(mem, pc + 1) {
        Err(fault) => Err(fault),
        Ok(a) => match read_through(mem, pc + 2) {
            Err(fault) => Err(fault),
            Ok(b) => match read_at(mem, pc + 3) {
                Err(fault) => Err(fault),
                Ok(dest) => Ok((a, b, dest)),
            },
        },
    }
}

/// The instruction that the memory encodes at `pc`.
pub open spec fn decode(mem: Seq<usize>, pc: int) -> Result<Op, Fault> {
    match read_at(mem, pc) {
        Err(fault) => Err(fault),
        Ok(opcode) => if opcode == 1 {
            match operands_at(mem, pc) {
                Ok((a, b, dest)) => Ok(Op::Add { a, b, dest }),
                Err(fault) => Err(fault),
            }
        } else if opcode == 2 {
            match operands_at(mem, pc) {
                Ok((a, b, dest)) => Ok(Op::Mul { a, b, dest }),
                Err(fault) => Err(fault),
            }
        } else if opcode == 99 {
            Ok(Op::Halt)
        } else {
            Err(Fault::UnknownOpcode { opcode, pc: pc as usize })
        },
    }
}

/// Storing the result `value` of the instruction at `pc` in the cell at
/// `dest`. A value that does not fit a cell is a fault, and comes before
/// the fault of a destination beyond the memory.
pub open spec fn store_result(mem: Seq<usize>, pc: int, dest: usize, value: int) -> Result<
    Effect,
    Fault,
> {
    if value > usize::MAX {
        Err(Fault::Overflow { pc: pc as usize })
    } else {
        match write_at(mem, dest, value as usize) {
            Ok(after) => Ok((after, None)),
            Err(fault) => Err(fault),
        }
    }
}

/// Carrying out `op`, which was decoded at `pc`.
pub open spec fn perform(mem: Seq<usize>, pc: int, op: Op) -> Result<Effect, Fault> {
    match op {
        Op::Add { a, b, dest } => store_result(mem, pc, dest, a + b),
        Op::Mul { a, b, dest } => store_result(mem, pc, dest, a * b),
        Op::Halt => match read_at(mem, 0) {
            Ok(value) => Ok((mem, Some(value))),
            Err(fault) => Err(fault),
        },
    }
}

/// Decoding and carrying out the instruction at `pc`.
pub open spec fn exec_at(mem: Seq<usize>, pc: int) -> Result<Effect, Fault> {
    match decode(mem, pc) {
        Ok(op) => perform(mem, pc, op),
        Err(fault) => Err(fault),
    }
}

/// Running from `pc` until a halt or a fault: the memory at that moment,
/// and either the value in cell 0 at the halt or the fault. After each
/// instruction that is no halt the next one is taken four cells further.
pub open spec fn run_from(mem: Seq<usize>, pc: int) -> (Seq<usize>, Result<usize, Fault>)
    decreases mem.len() - pc,
{
    match exec_at(mem, pc) {
        Err(fault) => (mem, Err(fault)),
        Ok((after, Some(value))) => (after, Ok(value)),
        Ok((after, None)) => run_from(after, pc + 4),
    }
}

/// No instruction changes the number of cells.
pub proof fn lemma_exec_keeps_length(mem: Seq<usize>, pc: int)
    ensures
        exec_at(mem, pc) is Ok ==> exec_at(mem, pc)->Ok_0.0.len() == mem.len(),
{
}

/// A run ends with as many cells as it began with.
pub proof fn lemma_run_keeps_length(mem: Seq<usize>, pc: int)
    ensures
        run_from(mem, pc).0.len() == mem.len(),
    decreases mem.len() - pc,
{
    match exec_at(mem, pc) {
        Ok((after, None)) => {
            lemma_run_keeps_length(after, pc + 4);
        },
        _ => {},
    }
}

/// An instruction that is no halt has all four of its cells inside the
/// memory, so the next instruction starts at or before the memory's end.
pub proof fn lemma_exec_within_memory(mem: Seq<usize>, pc: int)
    ensures
        exec_at(mem, pc) is Ok ==> 0 <= pc < mem.len(),
        exec_at(mem, pc) is Ok && exec_at(mem, pc)->Ok_0.1 is None ==> pc + 4 <= mem.len(),
{
}

/// A run that starts at a halt instruction changes nothing and gives the
/// content of cell 0.
pub proof fn lemma_run_at_halt(mem: Seq<usize>, pc: int)
    requires
        0 <= pc < mem.len(),
        mem[pc] == 99,
    ensures
        run_from(mem, pc) == (mem, Ok::<usize, Fault>(mem[0])),
{
}

/// A run that starts at a cell which holds no opcode stops there with that
/// fault and changes nothing.
pub proof fn lemma_run_at_unknown_opcode(mem: Seq<usize>, pc: usize)
    requires
        pc < mem.len(),
        mem[pc as int] != 1,
        mem[pc as int] != 2,
        mem[pc as int] != 99,
    ensures
        run_from(mem, pc as int) == (
            mem,
            Err::<usize, Fault>(Fault::UnknownOpcode { opcode: mem[pc as int], pc }),
        ),
{
}

/// A run that starts beyond the memory stops at once with the fault of
/// that address and changes nothing.
pub proof fn lemma_run_beyond_memory(mem: Seq<usize>, pc: usize)
    requires
        pc >= mem.len(),
    ensures
        run_from(mem, pc as int) == (mem, Err::<usize, Fault>(Fault::InvalidAddress { address: pc })),
{
}

/// A run that starts at an addition or a multiplication whose first operand
/// cell points beyond the memory stops there with the fault of that address
/// and changes nothing.
pub proof fn lemma_run_first_operand_beyond_memory(mem: Seq<usize>, pc: int)
    requires
        0 <= pc,
        pc + 1 < mem.len(),
        mem[pc] == 1 || mem[pc] == 2,
        mem[pc + 1] >= mem.len(),
    ensures
        run_from(mem, pc) == (
            mem,
            Err::<usize, Fault>(Fault::InvalidAddress { address: mem[pc + 1] }),
        ),
{
}

/// What a run reports is true of the memory it leaves. A value is the
/// content of cell 0. A reported address lies beyond the memory. A reported
/// opcode stands at the reported place, at or after the start, and names no
/// instruction. A reported overflow stands at an addition or a
/// multiplication.
pub proof fn lemma_run_reports_faithfully(mem: Seq<usize>, pc: int)
    requires
        0 <= pc <= usize::MAX,
        mem.len() <= usize::MAX,
    ensures
        match run_from(mem, pc).1 {
            Ok(value) => mem.len() > 0 && value == run_from(mem, pc).0[0],
            Err(Fault::InvalidAddress { address }) => address >= mem.len(),
            Err(Fault::UnknownOpcode { opcode, pc: at }) => {
                &&& pc <= at < mem.len()
                &&& run_from(mem, pc).0[at as int] == opcode
                &&& opcode != 1 && opcode != 2 && opcode != 99
            },
            Err(Fault::Overflow { pc: at }) => {
                &&& pc <= at < mem.len()
                &&& run_from(mem, pc).0[at as int] == 1 || run_from(mem, pc).0[at as int] == 2
            },
        },
    decreases mem.len() - pc,
{
    match exec_at(mem, pc) {
        Ok((after, None)) => {
            lemma_run_reports_faithfully(after, pc + 4);
        },
        _ => {},
    }
}

impl View for Machine {
    type V = Seq<usize>;

    open spec fn view(&self) -> Seq<usize> {
        self.ops@
    }
}

impl Machine {
    /// A machine's memory has at most `usize::MAX` cells.
    pub proof fn lemma_memory_bounded(&self)
        ensures
            self@.len() <= usize::MAX,
    {
        assert(self.ops.len() == self@.len());
    }

    /// A machine whose memory is a copy of `ops`.
    pub fn new(ops: &[usize]) -> (machine: Self)
        ensures
            machine@ == ops@,
    {
        Machine { ops: slice_to_vec(ops) }
    }

    /// The content of the cell at `address`; an address beyond the memory
    /// is a fault.
    pub fn read(&self, address: usize) -> (value: Result<usize, Fault>)
        ensures
            value == read_at(self@, address as int),
    {
        if address < self.ops.len() {
            Ok(self.ops[address])
        } else {
            Err(Fault::InvalidAddress { address })
        }
    }

    /// Puts `value` in the cell at `dest`; an address beyond the memory is
    /// a fault and leaves the memory as it was.
    pub fn write(&mut self, dest: usize, value: usize) -> (done: Result<(), Fault>)
        ensures
            match write_at(old(self)@, dest, value) {
                Ok(after) => done == Ok::<(), Fault>(()) && final(self)@ == after,
                Err(fault) => done == Err::<(), Fault>(fault) && final(self)@ == old(self)@,
            },
    {
        if dest < self.ops.len() {
            self.ops[dest] = value;
            Ok(())
        } else {
            Err(Fault::InvalidAddress { address: dest })
        }
    }

    /// The content of the cell whose address stands in the cell at `slot`.
    fn read_indirect(&self, slot: usize) -> (value: Result<usize, Fault>)
        ensures
            value == read_through(self@, slot as int),
    {
        match self.read(slot) {
            Ok(address) => self.read(address),
            Err(fault) => Err(fault),
        }
    }

    /// The two values and the destination of the instruction at `pc`.
    fn operands(&self, pc: usize) -> (fetched: Result<(usize, usize, usize), Fault>)
        requires
            pc < self@.len(),
        ensures
            fetched == operands_at(self@, pc as int),
    {
        proof {
            self.lemma_memory_bounded();
        }
        let a: usize = match self.read_indirect(pc + 1) {
            Ok(value) => value,
            Err(fault) => return Err(fault),
        };
        let b: usize = match self.read_indirect(pc + 2) {
            Ok(value) => value,
            Err(fault) => return Err(fault),
        };
        match self.read(pc + 3) {
            Ok(dest) => Ok((a, b, dest)),
            Err(fault) => Err(fault),
        }
    }

    /// Decodes the instruction at `pc`. Opcode 1 is an addition, 2 a
    /// multiplication, 99 a halt; any other is a fault, and so is an
    /// operand that lies beyond the memory.
    pub fn op(&self, pc: usize) -> (decoded: Result<Op, Fault>)
        ensures
            decoded == decode(self@, pc as int),
    {
        let opcode: usize = match self.read(pc) {
            Ok(value) => value,
            Err(fault) => return Err(fault),
        };
        if opcode == 1 {
            match self.operands(pc) {
                Ok((a, b, dest)) => Ok(Op::Add { a, b, dest }),
                Err(fault) => Err(fault),
            }
        } else if opcode == 2 {
            match self.operands(pc) {
                Ok((a, b, dest)) => Ok(Op::Mul { a, b, dest }),
                Err(fault) => Err(fault),
            }
        } else if opcode == 99 {
            Ok(Op::Halt)
        } else {
            Err(Fault::UnknownOpcode { opcode, pc })
        }
    }

    /// Decodes and carries out the instruction at `pc`. An addition or a
    /// multiplication stores its result and gives `None`; a halt gives the
    /// content of cell 0. On a fault the memory stays as it was.
    pub fn exec(&mut self, pc: usize) -> (outcome: Result<Option<usize>, Fault>)
        ensures
            match exec_at(old(self)@, pc as int) {
                Ok((after, value)) => outcome == Ok::<Option<usize>, Fault>(value) && final(self)@
                    == after,
                Err(fault) => outcome == Err::<Option<usize>, Fault>(fault) && final(self)@ == old(
                    self,
                )@,
            },
            final(self)@.len() == old(self)@.len(),
    {
        let op: Op = match self.op(pc) {
            Ok(op) => op,
            Err(fault) => return Err(fault),
        };
        match op {
            Op::Add { a, b, dest } => match a.checked_add(b) {
                Some(sum) => match self.write(dest, sum) {
                    Ok(()) => Ok(None),
                    Err(fault) => Err(fault),
                },
                None => Err(Fault::Overflow { pc }),
            },
            Op::Mul { a, b, dest } => match a.checked_mul(b) {
                Some(product) => match self.write(dest, product) {
                    Ok(()) => Ok(None),
                    Err(fault) => Err(fault),
                },
                None => Err(Fault::Overflow { pc }),
            },
            Op::Halt => match self.read(0) {
                Ok(value) => Ok(Some(value)),
                Err(fault) => Err(fault),
            },
        }
    }

    /// Runs from `pc` until a halt or a fault, taking each next instruction
    /// four cells after the last. Gives the content of cell 0 at the halt,
    /// or the fault; the memory is left as it was at that moment.
    pub fn step(&mut self, pc: usize) -> (result: Result<usize, Fault>)
        ensures
            (final(self)@, result) == run_from(old(self)@, pc as int),
            final(self)@.len() == old(self)@.len(),
            result is Ok ==> final(self)@.len() > 0 && result->Ok_0 == final(self)@[0],
    {
        let mut at: usize = pc;
        loop
            invariant
                run_from(self@, at as int) == run_from(old(self)@, pc as int),
                self@.len() == old(self)@.len(),
            decreases self@.len() - at,
        {
            proof {
                self.lemma_memory_bounded();
                lemma_run_reports_faithfully(self@, at as int);
            }
            match self.exec(at) {
                Err(fault) => return Err(fault),
                Ok(Some(value)) => return Ok(value),
                Ok(None) => {
                    at = at + 4;
                },
            }
        }
    }

    /// Runs the program from its first cell. Gives the content of cell 0
    /// at the halt, or the fault that stopped the run.
    pub fn run(&mut self) -> (result: Result<usize, Fault>)
        ensures
            (final(self)@, result) == run_from(old(self)@, 0),
            final(self)@.len() == old(self)@.len(),
            result is Ok ==> final(self)@.len() > 0 && result->Ok_0 == final(self)@[0],
    {
        self.step(0)
    }

    /// Overwrites cell 1 with `a` and cell 2 with `b`, the two inputs of a
    /// program.
    pub fn patch(&mut self, a: usize, b: usize)
        requires
            old(self)@.len() >= 3,
        ensures
            final(self)@ == old(self)@.update(1, a).update(2, b),
    {
        self.ops[1] = a;
        self.ops[2] = b;
    }
}

} // verus!
