//! The micro-operation vocabulary of the 6502-family cycle engine.
//!
//! Each emulated bus cycle is a [`Cycle`]: a bus direction, an optional
//! phase-1 address-bus operation, and up to three phase-2 steps that run
//! strictly in order after the bus transaction.  Every type here is plain
//! copyable data, so the interpreter's contracts can speak about cycles and
//! step lists structurally.

use vstd::prelude::*;

verus! {

/// One of the three byte-wide programmer registers.
#[derive(Clone, Copy, PartialEq, Eq, Structural, Debug)]
pub enum GeneralPurposeRegister {
    A,
    X,
    Y,
}

/// Where a pointer-register addition takes its addend.
#[derive(Clone, Copy, PartialEq, Eq, Structural, Debug)]
pub enum AddToPointerLikeRegisterSource {
    Register(GeneralPurposeRegister),
    Constant(u8),
    Operand,
}

/// The direction of the cycle's bus transaction.
#[derive(Clone, Copy, PartialEq, Eq, Structural, Debug)]
pub enum BusMode {
    Read,
    Write,
}

/// Where a byte move reads from.
#[derive(Clone, Copy, PartialEq, Eq, Structural, Debug)]
pub enum MoveSource {
    Register { register: GeneralPurposeRegister },
    Operand,
    Stack,
    Data,
    Constant(u8),
    Flags { break_: bool },
    /// Byte `offset` of the instruction pointer, little-endian: 0 is low.
    InstructionPointer { offset: u8 },
}

/// Where a byte move stores to.
#[derive(Clone, Copy, PartialEq, Eq, Structural, Debug)]
pub enum MoveDestination {
    Register { register: GeneralPurposeRegister, update_nz: bool },
    Operand,
    Stack,
    EffectiveAddress,
    /// Decode the byte as an opcode and queue its expansion.
    Opcode,
    Data,
    Flags,
}

/// A single processor status flag.
#[derive(Clone, Copy, PartialEq, Eq, Structural, Debug)]
pub enum Flag {
    Carry,
    Zero,
    Overflow,
    Negative,
    Decimal,
    InterruptDisable,
}

/// What drives the address bus during phase 1.
#[derive(Clone, Copy, PartialEq, Eq, Structural, Debug)]
pub enum SetAddressBusSource {
    InstructionPointer,
    EffectiveAddress,
    Constant(u16),
    Stack,
}

/// A sixteen-bit-wide register that pointer arithmetic can target.
#[derive(Clone, Copy, PartialEq, Eq, Structural, Debug)]
pub enum PointerLikeRegister {
    AddressBus,
    EffectiveAddress,
    InstructionPointer,
}

/// Whether a pointer addend is taken as unsigned or as two's complement.
#[derive(Clone, Copy, PartialEq, Eq, Structural, Debug)]
pub enum ArithmeticOperandInterpretation {
    Unsigned,
    Signed,
}

/// What an increment step targets.
#[derive(Clone, Copy, PartialEq, Eq, Structural, Debug)]
pub enum IncrementOperand {
    X,
    Y,
    Operand,
}

/// The direction of a shift or rotate.
#[derive(Clone, Copy, PartialEq, Eq, Structural, Debug)]
pub enum ShiftDirection {
    Left,
    Right,
}

/// The phase-1 half of a cycle: it only places the address.
#[derive(Clone, Copy, PartialEq, Eq, Structural, Debug)]
pub enum Phi1 {
    SetAddressBus { source: SetAddressBusSource },
}

/// One phase-2 step.  The vocabulary is closed; a cycle runs its steps
/// strictly in order.
#[allow(inconsistent_fields)]
#[derive(Clone, Copy, PartialEq, Eq, Structural, Debug)]
pub enum Phi2 {
    Move {
        source: MoveSource,
        destination: MoveDestination,
    },
    SetFlag {
        flag: Flag,
        value: bool,
    },
    Increment {
        operand: IncrementOperand,
        subtract: bool,
    },
    Compare {
        register: GeneralPurposeRegister,
    },
    IncrementStack {
        subtract: bool,
    },
    Add {
        invert_operand: bool,
    },
    And {
        writeback: bool,
    },
    Or,
    Xor,
    Shift {
        direction: ShiftDirection,
        rotate: bool,
        a_is_operand: bool,
    },
    IncrementInstructionPointer,
    AddToPointerLikeRegister {
        insert_adjustment_cycle_upon_carry: bool,
        interpretation: ArithmeticOperandInterpretation,
        source: AddToPointerLikeRegisterSource,
        destination: PointerLikeRegister,
    },
    AddCarryToPointerLikeRegister {
        register: PointerLikeRegister,
        carry: i8,
    },
    LoadInstructionPointerFromEffectiveAddress,
}

/// Up to three phase-2 steps, kept in order.
#[derive(Clone, Copy, PartialEq, Eq, Structural, Debug)]
pub enum StepList {
    Empty,
    One(Phi2),
    Two(Phi2, Phi2),
    Three(Phi2, Phi2, Phi2),
}

/// Appending one step to a list, at specification level; a full list is
/// left as it is.
pub open spec fn spec_steplist_push(list: StepList, step: Phi2) -> StepList {
    match list {
        StepList::Empty => StepList::One(step),
        StepList::One(s0) => StepList::Two(s0, step),
        StepList::Two(s0, s1) => StepList::Three(s0, s1, step),
        StepList::Three(..) => list,
    }
}

/// Appending a whole list, at specification level.
pub open spec fn spec_steplist_append(a: StepList, b: StepList) -> StepList {
    match b {
        StepList::Empty => a,
        StepList::One(s0) => spec_steplist_push(a, s0),
        StepList::Two(s0, s1) => spec_steplist_push(spec_steplist_push(a, s0), s1),
        StepList::Three(s0, s1, s2) => spec_steplist_push(
            spec_steplist_push(spec_steplist_push(a, s0), s1),
            s2,
        ),
    }
}

impl StepList {
    /// The steps as a sequence, in execution order.
    pub open spec fn seq(self) -> Seq<Phi2> {
        match self {
            StepList::Empty => Seq::empty(),
            StepList::One(s0) => seq![s0],
            StepList::Two(s0, s1) => seq![s0, s1],
            StepList::Three(s0, s1, s2) => seq![s0, s1, s2],
        }
    }

    /// Number of steps held.
    pub fn len(&self) -> (r: usize)
        ensures
            r == self.seq().len(),
    {
        match self {
            StepList::Empty => 0,
            StepList::One(..) => 1,
            StepList::Two(..) => 2,
            StepList::Three(..) => 3,
        }
    }

    /// Appends one step; the list must have room.
    pub fn push(self, step: Phi2) -> (r: Self)
        requires
            self.seq().len() < 3,
        ensures
            r == spec_steplist_push(self, step),
            r.seq() == self.seq().push(step),
    {
        proof {
            match self {
                StepList::Empty => {
                    assert(Seq::<Phi2>::empty().push(step) =~= seq![step]);
                },
                StepList::One(s0) => {
                    assert(seq![s0].push(step) =~= seq![s0, step]);
                },
                StepList::Two(s0, s1) => {
                    assert(seq![s0, s1].push(step) =~= seq![s0, s1, step]);
                },
                StepList::Three(..) => {},
            }
        }
        match self {
            StepList::Empty => StepList::One(step),
            StepList::One(s0) => StepList::Two(s0, step),
            StepList::Two(s0, s1) => StepList::Three(s0, s1, step),
            StepList::Three(..) => self,
        }
    }

    /// Appends the steps of another list; the result must fit.
    pub fn append(self, other: Self) -> (r: Self)
        requires
            self.seq().len() + other.seq().len() <= 3,
        ensures
            r == spec_steplist_append(self, other),
            r.seq() == self.seq() + other.seq(),
    {
        let mut out = self;
        proof {
            assert(self.seq() + Seq::<Phi2>::empty() =~= self.seq());
        }
        match other {
            StepList::Empty => out,
            StepList::One(s0) => {
                out = out.push(s0);
                proof {
                    assert(self.seq().push(s0) =~= self.seq() + seq![s0]);
                }
                out
            },
            StepList::Two(s0, s1) => {
                out = out.push(s0);
                out = out.push(s1);
                proof {
                    assert(self.seq().push(s0).push(s1) =~= self.seq() + seq![s0, s1]);
                }
                out
            },
            StepList::Three(s0, s1, s2) => {
                out = out.push(s0);
                out = out.push(s1);
                out = out.push(s2);
                proof {
                    assert(self.seq().push(s0).push(s1).push(s2) =~= self.seq() + seq![
                        s0,
                        s1,
                        s2,
                    ]);
                }
                out
            },
        }
    }
}

/// One emulated bus tick: phase 1 places the address, the bus transaction
/// moves a byte, the phase-2 steps do everything else, in order.
#[derive(Clone, Copy, PartialEq, Eq, Structural, Debug)]
pub struct Cycle {
    pub bus_mode: BusMode,
    pub phi1: Option<Phi1>,
    pub phi2: StepList,
}

impl Cycle {
    /// Builds a cycle from its three parts.
    pub fn new(bus_mode: BusMode, phi1: Option<Phi1>, phi2: StepList) -> (r: Self)
        ensures
            r == (Cycle { bus_mode, phi1, phi2 }),
    {
        Cycle { bus_mode, phi1, phi2 }
    }

    /// A read cycle that drives nothing and performs no step.
    pub fn dummy() -> (r: Self)
        ensures
            r == (Cycle { bus_mode: BusMode::Read, phi1: None, phi2: StepList::Empty }),
    {
        Cycle { bus_mode: BusMode::Read, phi1: None, phi2: StepList::Empty }
    }
}

} // verus!
