//! Opcodes, addressing modes, and processor kinds of the 6502 family, and
//! the expansion of a decoded instruction into its bus-cycle sequence.
//!
//! An instruction expands in two composable parts: the addressing-mode
//! prelude, whose cycle count is the published one for the mode, and the
//! operation tail: nothing extra for operations that ride on the last
//! prelude cycle, one read or write cycle for plain memory operations,
//! three cycles for read-modify-write ones, and fixed sequences for the
//! stack-discipline instructions, which replace the queue outright.
//! [`spec_expansion_len`] is that arithmetic written down, and the queue
//! builders are proved to add exactly that many cycles.

use vstd::prelude::*;

use crate::cpu::{CpuModel, FlagRegister, Mos6502};
use crate::cycle::{
    spec_steplist_append, AddToPointerLikeRegisterSource, ArithmeticOperandInterpretation,
    BusMode, Cycle, Flag, GeneralPurposeRegister, IncrementOperand, MoveDestination, MoveSource,
    Phi1, Phi2, PointerLikeRegister, SetAddressBusSource, ShiftDirection, StepList,
};

verus! {

/// Which member of the 6502 family is being emulated.  The kind gates
/// instruction-set extensions, decimal mode, interrupts, and the
/// absolute-indirect page-wrap erratum.
#[derive(Clone, Copy, PartialEq, Eq, Structural, Debug, Hash)]
pub enum Mos6502Kind {
    /// The standard part.
    Mos6502,
    /// The cut-down variant without interrupt pins.
    Mos6507,
    /// The console variant without decimal mode.
    Ricoh2A0x,
    /// The later CMOS part with the extended instruction set.
    Wdc65C02,
}

impl Mos6502Kind {
    /// True for the kinds that carry only the original instruction set.
    pub fn original_instruction_set(&self) -> (r: bool)
        ensures
            r == !(*self is Wdc65C02),
    {
        matches!(self, Mos6502Kind::Mos6502 | Mos6502Kind::Mos6507 | Mos6502Kind::Ricoh2A0x)
    }

    /// True when decimal mode has an effect on this kind.
    pub fn supports_decimal(&self) -> (r: bool)
        ensures
            r == !(*self is Ricoh2A0x),
    {
        !matches!(self, Mos6502Kind::Ricoh2A0x)
    }

    /// True when the kind has interrupt inputs at all.
    pub fn supports_interrupts(&self) -> (r: bool)
        ensures
            r == !(*self is Mos6507),
    {
        !matches!(self, Mos6502Kind::Mos6507)
    }

    /// True when an absolute-indirect jump whose pointer ends a page reads
    /// its high byte from the start of the same page instead of the next.
    pub fn has_absolute_indirect_page_wrap_errata(&self) -> (r: bool)
        ensures
            r == !(*self is Wdc65C02),
    {
        matches!(self, Mos6502Kind::Mos6502 | Mos6502Kind::Mos6507 | Mos6502Kind::Ricoh2A0x)
    }
}

/// Addressing modes of the original instruction set.
#[derive(Clone, Copy, PartialEq, Eq, Structural, Debug)]
pub enum Mos6502AddressingMode {
    Immediate,
    Absolute,
    XIndexedAbsolute,
    YIndexedAbsolute,
    AbsoluteIndirect,
    ZeroPage,
    XIndexedZeroPage,
    YIndexedZeroPage,
    XIndexedZeroPageIndirect,
    ZeroPageIndirectYIndexed,
    Relative,
    Accumulator,
}

/// Addressing modes added by the later CMOS part.
#[derive(Clone, Copy, PartialEq, Eq, Structural, Debug)]
pub enum Wdc65C02AddressingMode {
    ZeroPageIndirect,
}

/// Any addressing mode, tagged by the instruction-set generation it
/// belongs to.
#[derive(Clone, Copy, PartialEq, Eq, Structural, Debug)]
pub enum AddressingMode {
    Mos6502(Mos6502AddressingMode),
    Wdc65C02(Wdc65C02AddressingMode),
}

impl AddressingMode {
    /// Whether this mode exists on the given processor kind.
    pub fn is_valid_for_mode(&self, mode: Mos6502Kind) -> (r: bool)
        ensures
            r == (*self is Mos6502 || mode is Wdc65C02),
    {
        match mode {
            Mos6502Kind::Mos6502 => matches!(self, AddressingMode::Mos6502(_)),
            Mos6502Kind::Mos6507 => matches!(self, AddressingMode::Mos6502(_)),
            Mos6502Kind::Ricoh2A0x => matches!(self, AddressingMode::Mos6502(_)),
            Mos6502Kind::Wdc65C02 => matches!(
                self,
                AddressingMode::Mos6502(_) | AddressingMode::Wdc65C02(_),
            ),
        }
    }
}

/// Opcodes of the original instruction set, documented and undocumented.
#[derive(Clone, Copy, PartialEq, Eq, Structural, Debug, Hash)]
pub enum Mos6502Opcode {
    Adc,
    Anc,
    And,
    Arr,
    Asl,
    Asr,
    Bcc,
    Bcs,
    Beq,
    Bit,
    Bmi,
    Bne,
    Bpl,
    Brk,
    Bvc,
    Bvs,
    Clc,
    Cld,
    Cli,
    Clv,
    Cmp,
    Cpx,
    Cpy,
    Dcp,
    Dec,
    Dex,
    Dey,
    Eor,
    Inc,
    Inx,
    Iny,
    Isc,
    Jam,
    Jmp,
    Jsr,
    Las,
    Lax,
    Lda,
    Ldx,
    Ldy,
    Lsr,
    Nop,
    Ora,
    Pha,
    Php,
    Pla,
    Plp,
    Rla,
    Rol,
    Ror,
    Rra,
    Rti,
    Rts,
    Sax,
    Sbc,
    Sbx,
    Sec,
    Sed,
    Sei,
    Sha,
    Shs,
    Shx,
    Shy,
    Slo,
    Sre,
    Sta,
    Stx,
    Sty,
    Tax,
    Tay,
    Tsx,
    Txa,
    Txs,
    Tya,
    Xaa,
}

/// Opcodes added by the later CMOS part.
#[derive(Clone, Copy, PartialEq, Eq, Structural, Debug, Hash)]
pub enum Wdc65C02Opcode {
    Bra,
    Phx,
    Phy,
    Plx,
    Ply,
    Stz,
    Trb,
    Tsb,
    Stp,
    Wai,
}

/// Any opcode, tagged by the instruction-set generation it belongs to.
#[derive(Clone, Copy, PartialEq, Eq, Structural, Debug)]
pub enum Opcode {
    Mos6502(Mos6502Opcode),
    Wdc65C02(Wdc65C02Opcode),
}

/// A decoded instruction: its opcode and, unless the instruction is
/// implied, its addressing mode.
#[derive(Clone, Copy, PartialEq, Eq, Structural, Debug)]
pub struct Mos6502InstructionSet {
    pub opcode: Opcode,
    pub addressing_mode: Option<AddressingMode>,
}

/// Instructions whose behaviour is not implemented: the undocumented
/// opcodes, the software-interrupt opcode, the CMOS bit-test and wait
/// opcodes, and the CMOS zero-page-indirect mode.  Meeting one freezes the
/// processor without touching the host: the queue is left empty and
/// nothing more is fetched.
pub open spec fn spec_instr_halts(instr: Mos6502InstructionSet) -> bool {
    ||| (match instr.opcode {
        Opcode::Mos6502(op) => match op {
            Mos6502Opcode::Anc => true,
            Mos6502Opcode::Arr => true,
            Mos6502Opcode::Asr => true,
            Mos6502Opcode::Brk => true,
            Mos6502Opcode::Dcp => true,
            Mos6502Opcode::Isc => true,
            Mos6502Opcode::Jam => true,
            Mos6502Opcode::Las => true,
            Mos6502Opcode::Lax => true,
            Mos6502Opcode::Rla => true,
            Mos6502Opcode::Rra => true,
            Mos6502Opcode::Sax => true,
            Mos6502Opcode::Sbx => true,
            Mos6502Opcode::Sha => true,
            Mos6502Opcode::Shs => true,
            Mos6502Opcode::Shx => true,
            Mos6502Opcode::Shy => true,
            Mos6502Opcode::Slo => true,
            Mos6502Opcode::Sre => true,
            Mos6502Opcode::Xaa => true,
            _ => false,
        },
        Opcode::Wdc65C02(op) => match op {
            Wdc65C02Opcode::Plx => true,
            Wdc65C02Opcode::Ply => true,
            Wdc65C02Opcode::Trb => true,
            Wdc65C02Opcode::Tsb => true,
            Wdc65C02Opcode::Stp => true,
            Wdc65C02Opcode::Wai => true,
            _ => false,
        },
    })
    ||| instr.addressing_mode matches Some(AddressingMode::Wdc65C02(_))
}

/// Modes whose operation rides on the final prelude cycle instead of
/// adding a bus access of its own.
pub open spec fn spec_leech_mode(mode: Option<AddressingMode>) -> bool {
    match mode {
        None => true,
        Some(AddressingMode::Mos6502(m)) => m is Accumulator || m is Immediate || m is Relative,
        Some(AddressingMode::Wdc65C02(_)) => false,
    }
}

/// The published cycle count of each addressing-mode prelude.  Dynamic
/// page-crossing adjustments are not in this table: they are inserted at
/// run time by the pointer-addition step, one cycle when the low-byte sum
/// carries.
pub open spec fn spec_prelude_len(mode: Option<AddressingMode>) -> int {
    match mode {
        None => 1,
        Some(AddressingMode::Wdc65C02(_)) => 0,
        Some(AddressingMode::Mos6502(m)) => match m {
            Mos6502AddressingMode::Immediate => 1,
            Mos6502AddressingMode::Relative => 1,
            Mos6502AddressingMode::ZeroPage => 1,
            Mos6502AddressingMode::Accumulator => 1,
            Mos6502AddressingMode::Absolute => 2,
            Mos6502AddressingMode::XIndexedZeroPage => 2,
            Mos6502AddressingMode::YIndexedZeroPage => 2,
            Mos6502AddressingMode::XIndexedAbsolute => 2,
            Mos6502AddressingMode::YIndexedAbsolute => 2,
            Mos6502AddressingMode::ZeroPageIndirectYIndexed => 3,
            Mos6502AddressingMode::AbsoluteIndirect => 4,
            Mos6502AddressingMode::XIndexedZeroPageIndirect => 4,
        },
    }
}

/// The conditional-branch opcodes, including the CMOS unconditional one.
pub open spec fn spec_is_branch(op: Opcode) -> bool {
    match op {
        Opcode::Mos6502(o) => match o {
            Mos6502Opcode::Bcc => true,
            Mos6502Opcode::Bcs => true,
            Mos6502Opcode::Beq => true,
            Mos6502Opcode::Bne => true,
            Mos6502Opcode::Bmi => true,
            Mos6502Opcode::Bpl => true,
            Mos6502Opcode::Bvc => true,
            Mos6502Opcode::Bvs => true,
            _ => false,
        },
        Opcode::Wdc65C02(o) => o is Bra,
    }
}

/// Whether a branch is taken under the given flags.
pub open spec fn spec_branch_taken(op: Opcode, f: FlagRegister) -> bool {
    match op {
        Opcode::Mos6502(o) => match o {
            Mos6502Opcode::Bcc => !f.carry,
            Mos6502Opcode::Bcs => f.carry,
            Mos6502Opcode::Beq => f.zero,
            Mos6502Opcode::Bne => !f.zero,
            Mos6502Opcode::Bmi => f.negative,
            Mos6502Opcode::Bpl => !f.negative,
            Mos6502Opcode::Bvc => !f.overflow,
            Mos6502Opcode::Bvs => f.overflow,
            _ => false,
        },
        Opcode::Wdc65C02(o) => o is Bra,
    }
}

/// The stack-discipline instructions that discard any pending prelude and
/// install their own fixed sequence.
pub open spec fn spec_clears_queue(op: Opcode) -> bool {
    match op {
        Opcode::Mos6502(o) => match o {
            Mos6502Opcode::Jsr => true,
            Mos6502Opcode::Rti => true,
            Mos6502Opcode::Rts => true,
            Mos6502Opcode::Pla => true,
            Mos6502Opcode::Plp => true,
            _ => false,
        },
        Opcode::Wdc65C02(_) => false,
    }
}

/// The read-modify-write opcodes; on the accumulator the shifts instead
/// ride on the prelude cycle.
pub open spec fn spec_is_rmw(op: Opcode) -> bool {
    match op {
        Opcode::Mos6502(o) => match o {
            Mos6502Opcode::Asl => true,
            Mos6502Opcode::Lsr => true,
            Mos6502Opcode::Rol => true,
            Mos6502Opcode::Ror => true,
            Mos6502Opcode::Dec => true,
            Mos6502Opcode::Inc => true,
            _ => false,
        },
        Opcode::Wdc65C02(_) => false,
    }
}

/// The plain store opcodes, whose tail is one write cycle.
pub open spec fn spec_is_store(op: Opcode) -> bool {
    match op {
        Opcode::Mos6502(o) => match o {
            Mos6502Opcode::Sta => true,
            Mos6502Opcode::Stx => true,
            Mos6502Opcode::Sty => true,
            _ => false,
        },
        Opcode::Wdc65C02(o) => o is Stz,
    }
}

/// How many cycles the expansion of one instruction queues, not counting
/// the opcode fetch itself nor run-time page-crossing adjustments.  For
/// the stack-discipline instructions this is the whole queue they install.
pub open spec fn spec_expansion_len(instr: Mos6502InstructionSet, taken: bool) -> int {
    let mode = instr.addressing_mode;
    let p = spec_prelude_len(mode);
    match instr.opcode {
        Opcode::Mos6502(Mos6502Opcode::Jsr) => 5,
        Opcode::Mos6502(Mos6502Opcode::Rti) => 5,
        Opcode::Mos6502(Mos6502Opcode::Rts) => 5,
        Opcode::Mos6502(Mos6502Opcode::Pla) => 3,
        Opcode::Mos6502(Mos6502Opcode::Plp) => 3,
        Opcode::Mos6502(Mos6502Opcode::Pha) => p + 1,
        Opcode::Mos6502(Mos6502Opcode::Php) => p + 1,
        Opcode::Wdc65C02(Wdc65C02Opcode::Phx) => p + 1,
        Opcode::Wdc65C02(Wdc65C02Opcode::Phy) => p + 1,
        Opcode::Mos6502(Mos6502Opcode::Jmp) => p,
        Opcode::Mos6502(Mos6502Opcode::Nop) => p,
        _ => if spec_is_branch(instr.opcode) {
            p + if taken {
                if spec_leech_mode(mode) {
                    1int
                } else {
                    2int
                }
            } else {
                0int
            }
        } else if instr.opcode == Opcode::Mos6502(Mos6502Opcode::Dec) || instr.opcode
            == Opcode::Mos6502(Mos6502Opcode::Inc) {
            p + 3
        } else if spec_is_rmw(instr.opcode) {
            if mode == Some(AddressingMode::Mos6502(Mos6502AddressingMode::Accumulator)) {
                p
            } else {
                p + 3
            }
        } else if spec_is_store(instr.opcode) {
            if spec_leech_mode(mode) {
                p
            } else {
                p + 1
            }
        } else {
            // Plain reads, register transfers, and flag operations.
            if spec_leech_mode(mode) {
                p
            } else {
                p + 1
            }
        },
    }
}

/// The prelude cycle that reads one operand byte at the instruction
/// pointer into the effective address.
pub open spec fn spec_operand_fetch_cycle() -> Cycle {
    Cycle {
        bus_mode: BusMode::Read,
        phi1: Some(Phi1::SetAddressBus { source: SetAddressBusSource::InstructionPointer }),
        phi2: StepList::Two(
            Phi2::IncrementInstructionPointer,
            Phi2::Move { source: MoveSource::Data, destination: MoveDestination::EffectiveAddress },
        ),
    }
}

/// The prelude cycle of the immediate and relative modes: the operand
/// byte is read and stepped past, left on the data bus for the tail.
pub open spec fn spec_operand_skip_cycle() -> Cycle {
    Cycle {
        bus_mode: BusMode::Read,
        phi1: Some(Phi1::SetAddressBus { source: SetAddressBusSource::InstructionPointer }),
        phi2: StepList::One(Phi2::IncrementInstructionPointer),
    }
}

/// A read cycle that does nothing: implied and accumulator preludes.
pub open spec fn spec_dummy_cycle() -> Cycle {
    Cycle { bus_mode: BusMode::Read, phi1: None, phi2: StepList::Empty }
}

/// The second cycle of the index-register-offset absolute modes: the high
/// operand byte is read and the index added low-byte-first, with a fix-up
/// cycle on carry.
pub open spec fn spec_indexed_absolute_cycle(register: GeneralPurposeRegister) -> Cycle {
    Cycle {
        bus_mode: BusMode::Read,
        phi1: Some(Phi1::SetAddressBus { source: SetAddressBusSource::InstructionPointer }),
        phi2: StepList::Three(
            Phi2::IncrementInstructionPointer,
            Phi2::Move { source: MoveSource::Data, destination: MoveDestination::EffectiveAddress },
            Phi2::AddToPointerLikeRegister {
                source: AddToPointerLikeRegisterSource::Register(register),
                destination: PointerLikeRegister::EffectiveAddress,
                insert_adjustment_cycle_upon_carry: true,
                interpretation: ArithmeticOperandInterpretation::Unsigned,
            },
        ),
    }
}

/// The second cycle of the index-register-offset zero-page modes: the sum
/// wraps inside the zero page, so no fix-up cycle is ever queued.
pub open spec fn spec_indexed_zero_page_cycle(register: GeneralPurposeRegister) -> Cycle {
    Cycle {
        bus_mode: BusMode::Read,
        phi1: None,
        phi2: StepList::One(
            Phi2::AddToPointerLikeRegister {
                source: AddToPointerLikeRegisterSource::Register(register),
                destination: PointerLikeRegister::EffectiveAddress,
                interpretation: ArithmeticOperandInterpretation::Unsigned,
                insert_adjustment_cycle_upon_carry: false,
            },
        ),
    }
}

/// The addressing-mode prelude: exactly the bus cycles each mode performs,
/// in order.  The absolute-indirect third cycle queues a page fix-up only
/// on kinds free of the wrap erratum.
pub open spec fn spec_prelude(mode: Option<AddressingMode>, kind: Mos6502Kind) -> Seq<Cycle> {
    match mode {
        None => seq![spec_dummy_cycle()],
        Some(AddressingMode::Wdc65C02(_)) => Seq::empty(),
        Some(AddressingMode::Mos6502(m)) => match m {
            Mos6502AddressingMode::Immediate => seq![spec_operand_skip_cycle()],
            Mos6502AddressingMode::Relative => seq![spec_operand_skip_cycle()],
            Mos6502AddressingMode::ZeroPage => seq![spec_operand_fetch_cycle()],
            Mos6502AddressingMode::Accumulator => seq![spec_dummy_cycle()],
            Mos6502AddressingMode::Absolute => seq![
                spec_operand_fetch_cycle(),
                spec_operand_fetch_cycle(),
            ],
            Mos6502AddressingMode::XIndexedZeroPage => seq![
                spec_operand_fetch_cycle(),
                spec_indexed_zero_page_cycle(GeneralPurposeRegister::X),
            ],
            Mos6502AddressingMode::YIndexedZeroPage => seq![
                spec_operand_fetch_cycle(),
                spec_indexed_zero_page_cycle(GeneralPurposeRegister::Y),
            ],
            Mos6502AddressingMode::XIndexedAbsolute => seq![
                spec_operand_fetch_cycle(),
                spec_indexed_absolute_cycle(GeneralPurposeRegister::X),
            ],
            Mos6502AddressingMode::YIndexedAbsolute => seq![
                spec_operand_fetch_cycle(),
                spec_indexed_absolute_cycle(GeneralPurposeRegister::Y),
            ],
            Mos6502AddressingMode::AbsoluteIndirect => seq![
                spec_operand_fetch_cycle(),
                spec_operand_fetch_cycle(),
                Cycle {
                    bus_mode: BusMode::Read,
                    phi1: Some(Phi1::SetAddressBus {
                        source: SetAddressBusSource::EffectiveAddress,
                    }),
                    phi2: StepList::Two(
                        Phi2::Move {
                            source: MoveSource::Data,
                            destination: MoveDestination::EffectiveAddress,
                        },
                        Phi2::AddToPointerLikeRegister {
                            source: AddToPointerLikeRegisterSource::Constant(1),
                            destination: PointerLikeRegister::AddressBus,
                            interpretation: ArithmeticOperandInterpretation::Unsigned,
                            insert_adjustment_cycle_upon_carry: !(
                            kind == Mos6502Kind::Mos6502 || kind == Mos6502Kind::Mos6507 || kind
                                == Mos6502Kind::Ricoh2A0x),
                        },
                    ),
                },
                Cycle {
                    bus_mode: BusMode::Read,
                    phi1: None,
                    phi2: StepList::One(
                        Phi2::Move {
                            source: MoveSource::Data,
                            destination: MoveDestination::EffectiveAddress,
                        },
                    ),
                },
            ],
            Mos6502AddressingMode::XIndexedZeroPageIndirect => seq![
                spec_operand_fetch_cycle(),
                Cycle {
                    bus_mode: BusMode::Read,
                    phi1: Some(Phi1::SetAddressBus {
                        source: SetAddressBusSource::EffectiveAddress,
                    }),
                    phi2: StepList::One(
                        Phi2::AddToPointerLikeRegister {
                            source: AddToPointerLikeRegisterSource::Register(
                                GeneralPurposeRegister::X,
                            ),
                            destination: PointerLikeRegister::AddressBus,
                            insert_adjustment_cycle_upon_carry: false,
                            interpretation: ArithmeticOperandInterpretation::Unsigned,
                        },
                    ),
                },
                Cycle {
                    bus_mode: BusMode::Read,
                    phi1: None,
                    phi2: StepList::Two(
                        Phi2::Move {
                            source: MoveSource::Data,
                            destination: MoveDestination::EffectiveAddress,
                        },
                        Phi2::AddToPointerLikeRegister {
                            source: AddToPointerLikeRegisterSource::Constant(1),
                            destination: PointerLikeRegister::AddressBus,
                            interpretation: ArithmeticOperandInterpretation::Unsigned,
                            insert_adjustment_cycle_upon_carry: false,
                        },
                    ),
                },
                Cycle {
                    bus_mode: BusMode::Read,
                    phi1: None,
                    phi2: StepList::One(
                        Phi2::Move {
                            source: MoveSource::Data,
                            destination: MoveDestination::EffectiveAddress,
                        },
                    ),
                },
            ],
            Mos6502AddressingMode::ZeroPageIndirectYIndexed => seq![
                spec_operand_fetch_cycle(),
                Cycle {
                    bus_mode: BusMode::Read,
                    phi1: Some(Phi1::SetAddressBus {
                        source: SetAddressBusSource::EffectiveAddress,
                    }),
                    phi2: StepList::Two(
                        Phi2::Move {
                            source: MoveSource::Data,
                            destination: MoveDestination::EffectiveAddress,
                        },
                        Phi2::AddToPointerLikeRegister {
                            source: AddToPointerLikeRegisterSource::Constant(1),
                            destination: PointerLikeRegister::AddressBus,
                            interpretation: ArithmeticOperandInterpretation::Unsigned,
                            insert_adjustment_cycle_upon_carry: false,
                        },
                    ),
                },
                Cycle {
                    bus_mode: BusMode::Read,
                    phi1: None,
                    phi2: StepList::Two(
                        Phi2::Move {
                            source: MoveSource::Data,
                            destination: MoveDestination::EffectiveAddress,
                        },
                        Phi2::AddToPointerLikeRegister {
                            source: AddToPointerLikeRegisterSource::Register(
                                GeneralPurposeRegister::Y,
                            ),
                            destination: PointerLikeRegister::EffectiveAddress,
                            interpretation: ArithmeticOperandInterpretation::Unsigned,
                            insert_adjustment_cycle_upon_carry: true,
                        },
                    ),
                },
            ],
        },
    }
}

/// Attaching steps to the final cycle of a sequence: how a tail rides on
/// the last prelude cycle.
pub open spec fn spec_merge_last(cycles: Seq<Cycle>, steps: StepList) -> Seq<Cycle> {
    if cycles.len() == 0 {
        cycles
    } else {
        let last = cycles.last();
        cycles.update(
            cycles.len() - 1,
            Cycle {
                bus_mode: last.bus_mode,
                phi1: last.phi1,
                phi2: spec_steplist_append(last.phi2, steps),
            },
        )
    }
}

/// A read-style tail: ridden on the last prelude cycle for modes without
/// their own memory access, one read cycle at the effective address
/// otherwise.
pub open spec fn spec_patched_read(
    prelude: Seq<Cycle>,
    mode: Option<AddressingMode>,
    steps: StepList,
) -> Seq<Cycle> {
    if spec_leech_mode(mode) {
        spec_merge_last(prelude, steps)
    } else {
        prelude.push(
            Cycle {
                bus_mode: BusMode::Read,
                phi1: Some(Phi1::SetAddressBus { source: SetAddressBusSource::EffectiveAddress }),
                phi2: steps,
            },
        )
    }
}

/// A store tail: one write cycle at the effective address; nothing for a
/// mode that forms no address.
pub open spec fn spec_inserted_write(
    prelude: Seq<Cycle>,
    mode: Option<AddressingMode>,
    steps: StepList,
) -> Seq<Cycle> {
    if spec_leech_mode(mode) {
        prelude
    } else {
        prelude.push(
            Cycle {
                bus_mode: BusMode::Write,
                phi1: Some(Phi1::SetAddressBus { source: SetAddressBusSource::EffectiveAddress }),
                phi2: steps,
            },
        )
    }
}

/// The read-modify-write tail: read the target into the operand, write
/// the unmodified byte back, then write the modified byte — peripherals
/// observe the canonical double write.
pub open spec fn spec_rmw_tail(prelude: Seq<Cycle>, steps: StepList) -> Seq<Cycle> {
    prelude + seq![
        Cycle {
            bus_mode: BusMode::Read,
            phi1: Some(Phi1::SetAddressBus { source: SetAddressBusSource::EffectiveAddress }),
            phi2: StepList::One(
                Phi2::Move { source: MoveSource::Data, destination: MoveDestination::Operand },
            ),
        },
        Cycle {
            bus_mode: BusMode::Write,
            phi1: None,
            phi2: StepList::One(
                Phi2::Move { source: MoveSource::Operand, destination: MoveDestination::Data },
            ),
        },
        Cycle {
            bus_mode: BusMode::Write,
            phi1: None,
            phi2: spec_steplist_append(
                steps,
                StepList::One(
                    Phi2::Move { source: MoveSource::Operand, destination: MoveDestination::Data },
                ),
            ),
        },
    ]
}

/// The jump tail: the final pointer load rides on the last prelude cycle.
pub open spec fn spec_jmp_patched(prelude: Seq<Cycle>) -> Seq<Cycle> {
    if prelude.len() == 0 {
        prelude
    } else if prelude.last().phi2.seq().len() < 3 {
        spec_merge_last(prelude, StepList::One(Phi2::LoadInstructionPointerFromEffectiveAddress))
    } else {
        prelude
    }
}

/// The one-cycle push of a byte onto the stack.
pub open spec fn spec_push_stack_cycle(item: MoveSource) -> Cycle {
    Cycle {
        bus_mode: BusMode::Write,
        phi1: Some(Phi1::SetAddressBus { source: SetAddressBusSource::Stack }),
        phi2: StepList::Two(
            Phi2::Move { source: item, destination: MoveDestination::Data },
            Phi2::IncrementStack { subtract: true },
        ),
    }
}

/// The three-cycle pull of a byte from the stack: a dummy, the stack
/// pointer stepped up, then the read at the stack address into the
/// destination.
pub open spec fn spec_pull_stack_cycles(item: MoveDestination) -> Seq<Cycle> {
    seq![
        spec_dummy_cycle(),
        Cycle {
            bus_mode: BusMode::Read,
            phi1: None,
            phi2: StepList::One(Phi2::IncrementStack { subtract: false }),
        },
        Cycle {
            bus_mode: BusMode::Read,
            phi1: Some(Phi1::SetAddressBus { source: SetAddressBusSource::Stack }),
            phi2: StepList::One(Phi2::Move { source: MoveSource::Data, destination: item }),
        },
    ]
}

/// The five-cycle subroutine call: read the target low byte, push the
/// return address high then low, read the target high byte, load the
/// instruction pointer.
pub open spec fn spec_jsr_cycles() -> Seq<Cycle> {
    seq![
        spec_operand_fetch_cycle(),
        spec_push_stack_cycle(MoveSource::InstructionPointer { offset: 1 }),
        spec_push_stack_cycle(MoveSource::InstructionPointer { offset: 0 }),
        spec_operand_fetch_cycle(),
        Cycle {
            bus_mode: BusMode::Read,
            phi1: None,
            phi2: StepList::One(Phi2::LoadInstructionPointerFromEffectiveAddress),
        },
    ]
}

/// The five-cycle interrupt return: the flags then both pointer bytes are
/// pulled, and the pointer loaded.
pub open spec fn spec_rti_cycles() -> Seq<Cycle> {
    seq![
        Cycle {
            bus_mode: BusMode::Read,
            phi1: None,
            phi2: StepList::One(Phi2::IncrementStack { subtract: false }),
        },
        Cycle {
            bus_mode: BusMode::Read,
            phi1: Some(Phi1::SetAddressBus { source: SetAddressBusSource::Stack }),
            phi2: StepList::Two(
                Phi2::Move { source: MoveSource::Data, destination: MoveDestination::Flags },
                Phi2::IncrementStack { subtract: false },
            ),
        },
        Cycle {
            bus_mode: BusMode::Read,
            phi1: Some(Phi1::SetAddressBus { source: SetAddressBusSource::Stack }),
            phi2: StepList::Two(
                Phi2::Move {
                    source: MoveSource::Data,
                    destination: MoveDestination::EffectiveAddress,
                },
                Phi2::IncrementStack { subtract: false },
            ),
        },
        Cycle {
            bus_mode: BusMode::Read,
            phi1: Some(Phi1::SetAddressBus { source: SetAddressBusSource::Stack }),
            phi2: StepList::One(
                Phi2::Move {
                    source: MoveSource::Data,
                    destination: MoveDestination::EffectiveAddress,
                },
            ),
        },
        Cycle {
            bus_mode: BusMode::Read,
            phi1: None,
            phi2: StepList::One(Phi2::LoadInstructionPointerFromEffectiveAddress),
        },
    ]
}

/// The five-cycle subroutine return: both pointer bytes pulled, the
/// pointer loaded, then stepped past the call's last operand byte.
pub open spec fn spec_rts_cycles() -> Seq<Cycle> {
    seq![
        Cycle {
            bus_mode: BusMode::Read,
            phi1: None,
            phi2: StepList::One(Phi2::IncrementStack { subtract: false }),
        },
        Cycle {
            bus_mode: BusMode::Read,
            phi1: Some(Phi1::SetAddressBus { source: SetAddressBusSource::Stack }),
            phi2: StepList::Two(
                Phi2::Move {
                    source: MoveSource::Data,
                    destination: MoveDestination::EffectiveAddress,
                },
                Phi2::IncrementStack { subtract: false },
            ),
        },
        Cycle {
            bus_mode: BusMode::Read,
            phi1: Some(Phi1::SetAddressBus { source: SetAddressBusSource::Stack }),
            phi2: StepList::One(
                Phi2::Move {
                    source: MoveSource::Data,
                    destination: MoveDestination::EffectiveAddress,
                },
            ),
        },
        Cycle {
            bus_mode: BusMode::Read,
            phi1: None,
            phi2: StepList::One(Phi2::LoadInstructionPointerFromEffectiveAddress),
        },
        Cycle {
            bus_mode: BusMode::Read,
            phi1: None,
            phi2: StepList::One(Phi2::IncrementInstructionPointer),
        },
    ]
}

/// The taken-branch tail cycle: a signed add of the fetched offset to the
/// instruction pointer, with the page fix-up cycle queued on carry.
pub open spec fn spec_branch_add_cycle() -> Cycle {
    Cycle {
        bus_mode: BusMode::Read,
        phi1: None,
        phi2: StepList::One(
            Phi2::AddToPointerLikeRegister {
                insert_adjustment_cycle_upon_carry: true,
                source: AddToPointerLikeRegisterSource::Operand,
                destination: PointerLikeRegister::InstructionPointer,
                interpretation: ArithmeticOperandInterpretation::Signed,
            },
        ),
    }
}

/// The whole cycle sequence one instruction queues: its prelude with the
/// operation tail applied.  For a stack-discipline instruction this is
/// the entire replacement queue; for a halting stub it is empty.
///
/// Kept opaque so that contracts composing many instructions stay small;
/// reveal it to reason about a single opcode's cycles.
#[verifier::opaque]
pub open spec fn spec_expansion_cycles(
    instr: Mos6502InstructionSet,
    kind: Mos6502Kind,
    taken: bool,
) -> Seq<Cycle> {
    let mode = instr.addressing_mode;
    let p = spec_prelude(mode, kind);
    match instr.opcode {
        Opcode::Mos6502(Mos6502Opcode::Jsr) => spec_jsr_cycles(),
        Opcode::Mos6502(Mos6502Opcode::Rti) => spec_rti_cycles(),
        Opcode::Mos6502(Mos6502Opcode::Rts) => spec_rts_cycles(),
        Opcode::Mos6502(Mos6502Opcode::Pla) => spec_pull_stack_cycles(
            MoveDestination::Register { register: GeneralPurposeRegister::A, update_nz: true },
        ),
        Opcode::Mos6502(Mos6502Opcode::Plp) => spec_pull_stack_cycles(MoveDestination::Flags),
        Opcode::Mos6502(Mos6502Opcode::Pha) => p.push(
            spec_push_stack_cycle(
                MoveSource::Register { register: GeneralPurposeRegister::A },
            ),
        ),
        Opcode::Mos6502(Mos6502Opcode::Php) => p.push(
            spec_push_stack_cycle(MoveSource::Flags { break_: true }),
        ),
        Opcode::Wdc65C02(Wdc65C02Opcode::Phx) => p.push(
            spec_push_stack_cycle(
                MoveSource::Register { register: GeneralPurposeRegister::X },
            ),
        ),
        Opcode::Wdc65C02(Wdc65C02Opcode::Phy) => p.push(
            spec_push_stack_cycle(
                MoveSource::Register { register: GeneralPurposeRegister::Y },
            ),
        ),
        Opcode::Mos6502(Mos6502Opcode::Jmp) => spec_jmp_patched(p),
        Opcode::Mos6502(Mos6502Opcode::Nop) => p,
        Opcode::Mos6502(Mos6502Opcode::Adc) => spec_patched_read(
            p,
            mode,
            StepList::Two(
                Phi2::Move { source: MoveSource::Data, destination: MoveDestination::Operand },
                Phi2::Add { invert_operand: false },
            ),
        ),
        Opcode::Mos6502(Mos6502Opcode::Sbc) => spec_patched_read(
            p,
            mode,
            StepList::Two(
                Phi2::Move { source: MoveSource::Data, destination: MoveDestination::Operand },
                Phi2::Add { invert_operand: true },
            ),
        ),
        Opcode::Mos6502(Mos6502Opcode::And) => spec_patched_read(
            p,
            mode,
            StepList::Two(
                Phi2::Move { source: MoveSource::Data, destination: MoveDestination::Operand },
                Phi2::And { writeback: true },
            ),
        ),
        Opcode::Mos6502(Mos6502Opcode::Bit) => spec_patched_read(
            p,
            mode,
            StepList::Two(
                Phi2::Move { source: MoveSource::Data, destination: MoveDestination::Operand },
                Phi2::And { writeback: false },
            ),
        ),
        Opcode::Mos6502(Mos6502Opcode::Ora) => spec_patched_read(
            p,
            mode,
            StepList::Two(
                Phi2::Move { source: MoveSource::Data, destination: MoveDestination::Operand },
                Phi2::Or,
            ),
        ),
        Opcode::Mos6502(Mos6502Opcode::Eor) => spec_patched_read(
            p,
            mode,
            StepList::Two(
                Phi2::Move { source: MoveSource::Data, destination: MoveDestination::Operand },
                Phi2::Xor,
            ),
        ),
        Opcode::Mos6502(Mos6502Opcode::Cmp) => spec_patched_read(
            p,
            mode,
            StepList::Two(
                Phi2::Move { source: MoveSource::Data, destination: MoveDestination::Operand },
                Phi2::Compare { register: GeneralPurposeRegister::A },
            ),
        ),
        Opcode::Mos6502(Mos6502Opcode::Cpx) => spec_patched_read(
            p,
            mode,
            StepList::Two(
                Phi2::Move { source: MoveSource::Data, destination: MoveDestination::Operand },
                Phi2::Compare { register: GeneralPurposeRegister::X },
            ),
        ),
        Opcode::Mos6502(Mos6502Opcode::Cpy) => spec_patched_read(
            p,
            mode,
            StepList::Two(
                Phi2::Move { source: MoveSource::Data, destination: MoveDestination::Operand },
                Phi2::Compare { register: GeneralPurposeRegister::Y },
            ),
        ),
        Opcode::Mos6502(Mos6502Opcode::Lda) => spec_patched_read(
            p,
            mode,
            StepList::One(
                Phi2::Move {
                    source: MoveSource::Data,
                    destination: MoveDestination::Register {
                        register: GeneralPurposeRegister::A,
                        update_nz: true,
                    },
                },
            ),
        ),
        Opcode::Mos6502(Mos6502Opcode::Ldx) => spec_patched_read(
            p,
            mode,
            StepList::One(
                Phi2::Move {
                    source: MoveSource::Data,
                    destination: MoveDestination::Register {
                        register: GeneralPurposeRegister::X,
                        update_nz: true,
                    },
                },
            ),
        ),
        Opcode::Mos6502(Mos6502Opcode::Ldy) => spec_patched_read(
            p,
            mode,
            StepList::One(
                Phi2::Move {
                    source: MoveSource::Data,
                    destination: MoveDestination::Register {
                        register: GeneralPurposeRegister::Y,
                        update_nz: true,
                    },
                },
            ),
        ),
        Opcode::Mos6502(Mos6502Opcode::Clc) => spec_patched_read(
            p,
            mode,
            StepList::One(Phi2::SetFlag { flag: Flag::Carry, value: false }),
        ),
        Opcode::Mos6502(Mos6502Opcode::Sec) => spec_patched_read(
            p,
            mode,
            StepList::One(Phi2::SetFlag { flag: Flag::Carry, value: true }),
        ),
        Opcode::Mos6502(Mos6502Opcode::Cld) => spec_patched_read(
            p,
            mode,
            StepList::One(Phi2::SetFlag { flag: Flag::Decimal, value: false }),
        ),
        Opcode::Mos6502(Mos6502Opcode::Sed) => spec_patched_read(
            p,
            mode,
            StepList::One(Phi2::SetFlag { flag: Flag::Decimal, value: true }),
        ),
        Opcode::Mos6502(Mos6502Opcode::Cli) => spec_patched_read(
            p,
            mode,
            StepList::One(Phi2::SetFlag { flag: Flag::InterruptDisable, value: false }),
        ),
        Opcode::Mos6502(Mos6502Opcode::Sei) => spec_patched_read(
            p,
            mode,
            StepList::One(Phi2::SetFlag { flag: Flag::InterruptDisable, value: true }),
        ),
        Opcode::Mos6502(Mos6502Opcode::Clv) => spec_patched_read(
            p,
            mode,
            StepList::One(Phi2::SetFlag { flag: Flag::Overflow, value: false }),
        ),
        Opcode::Mos6502(Mos6502Opcode::Dex) => spec_patched_read(
            p,
            mode,
            StepList::One(Phi2::Increment { operand: IncrementOperand::X, subtract: true }),
        ),
        Opcode::Mos6502(Mos6502Opcode::Dey) => spec_patched_read(
            p,
            mode,
            StepList::One(Phi2::Increment { operand: IncrementOperand::Y, subtract: true }),
        ),
        Opcode::Mos6502(Mos6502Opcode::Inx) => spec_patched_read(
            p,
            mode,
            StepList::One(Phi2::Increment { operand: IncrementOperand::X, subtract: false }),
        ),
        Opcode::Mos6502(Mos6502Opcode::Iny) => spec_patched_read(
            p,
            mode,
            StepList::One(Phi2::Increment { operand: IncrementOperand::Y, subtract: false }),
        ),
        Opcode::Mos6502(Mos6502Opcode::Tax) => spec_patched_read(
            p,
            mode,
            StepList::One(
                Phi2::Move {
                    source: MoveSource::Register { register: GeneralPurposeRegister::A },
                    destination: MoveDestination::Register {
                        register: GeneralPurposeRegister::X,
                        update_nz: true,
                    },
                },
            ),
        ),
        Opcode::Mos6502(Mos6502Opcode::Tay) => spec_patched_read(
            p,
            mode,
            StepList::One(
                Phi2::Move {
                    source: MoveSource::Register { register: GeneralPurposeRegister::A },
                    destination: MoveDestination::Register {
                        register: GeneralPurposeRegister::Y,
                        update_nz: true,
                    },
                },
            ),
        ),
        Opcode::Mos6502(Mos6502Opcode::Tsx) => spec_patched_read(
            p,
            mode,
            StepList::One(
                Phi2::Move {
                    source: MoveSource::Stack,
                    destination: MoveDestination::Register {
                        register: GeneralPurposeRegister::X,
                        update_nz: true,
                    },
                },
            ),
        ),
        Opcode::Mos6502(Mos6502Opcode::Txa) => spec_patched_read(
            p,
            mode,
            StepList::One(
                Phi2::Move {
                    source: MoveSource::Register { register: GeneralPurposeRegister::X },
                    destination: MoveDestination::Register {
                        register: GeneralPurposeRegister::A,
                        update_nz: true,
                    },
                },
            ),
        ),
        Opcode::Mos6502(Mos6502Opcode::Txs) => spec_patched_read(
            p,
            mode,
            StepList::One(
                Phi2::Move {
                    source: MoveSource::Register { register: GeneralPurposeRegister::X },
                    destination: MoveDestination::Stack,
                },
            ),
        ),
        Opcode::Mos6502(Mos6502Opcode::Tya) => spec_patched_read(
            p,
            mode,
            StepList::One(
                Phi2::Move {
                    source: MoveSource::Register { register: GeneralPurposeRegister::Y },
                    destination: MoveDestination::Register {
                        register: GeneralPurposeRegister::A,
                        update_nz: true,
                    },
                },
            ),
        ),
        Opcode::Mos6502(Mos6502Opcode::Asl) => if mode == Some(
            AddressingMode::Mos6502(Mos6502AddressingMode::Accumulator),
        ) {
            spec_patched_read(
                p,
                mode,
                StepList::One(
                    Phi2::Shift {
                        direction: ShiftDirection::Left,
                        rotate: false,
                        a_is_operand: true,
                    },
                ),
            )
        } else {
            spec_rmw_tail(
                p,
                StepList::One(
                    Phi2::Shift {
                        direction: ShiftDirection::Left,
                        rotate: false,
                        a_is_operand: false,
                    },
                ),
            )
        },
        Opcode::Mos6502(Mos6502Opcode::Lsr) => if mode == Some(
            AddressingMode::Mos6502(Mos6502AddressingMode::Accumulator),
        ) {
            spec_patched_read(
                p,
                mode,
                StepList::One(
                    Phi2::Shift {
                        direction: ShiftDirection::Right,
                        rotate: false,
                        a_is_operand: true,
                    },
                ),
            )
        } else {
            spec_rmw_tail(
                p,
                StepList::One(
                    Phi2::Shift {
                        direction: ShiftDirection::Right,
                        rotate: false,
                        a_is_operand: false,
                    },
                ),
            )
        },
        Opcode::Mos6502(Mos6502Opcode::Rol) => if mode == Some(
            AddressingMode::Mos6502(Mos6502AddressingMode::Accumulator),
        ) {
            spec_patched_read(
                p,
                mode,
                StepList::One(
                    Phi2::Shift {
                        direction: ShiftDirection::Left,
                        rotate: true,
                        a_is_operand: true,
                    },
                ),
            )
        } else {
            spec_rmw_tail(
                p,
                StepList::One(
                    Phi2::Shift {
                        direction: ShiftDirection::Left,
                        rotate: true,
                        a_is_operand: false,
                    },
                ),
            )
        },
        Opcode::Mos6502(Mos6502Opcode::Ror) => if mode == Some(
            AddressingMode::Mos6502(Mos6502AddressingMode::Accumulator),
        ) {
            spec_patched_read(
                p,
                mode,
                StepList::One(
                    Phi2::Shift {
                        direction: ShiftDirection::Right,
                        rotate: true,
                        a_is_operand: true,
                    },
                ),
            )
        } else {
            spec_rmw_tail(
                p,
                StepList::One(
                    Phi2::Shift {
                        direction: ShiftDirection::Right,
                        rotate: true,
                        a_is_operand: false,
                    },
                ),
            )
        },
        Opcode::Mos6502(Mos6502Opcode::Dec) => spec_rmw_tail(
            p,
            StepList::One(
                Phi2::Increment { operand: IncrementOperand::Operand, subtract: true },
            ),
        ),
        Opcode::Mos6502(Mos6502Opcode::Inc) => spec_rmw_tail(
            p,
            StepList::One(
                Phi2::Increment { operand: IncrementOperand::Operand, subtract: false },
            ),
        ),
        Opcode::Mos6502(Mos6502Opcode::Sta) => spec_inserted_write(
            p,
            mode,
            StepList::One(
                Phi2::Move {
                    source: MoveSource::Register { register: GeneralPurposeRegister::A },
                    destination: MoveDestination::Data,
                },
            ),
        ),
        Opcode::Mos6502(Mos6502Opcode::Stx) => spec_inserted_write(
            p,
            mode,
            StepList::One(
                Phi2::Move {
                    source: MoveSource::Register { register: GeneralPurposeRegister::X },
                    destination: MoveDestination::Data,
                },
            ),
        ),
        Opcode::Mos6502(Mos6502Opcode::Sty) => spec_inserted_write(
            p,
            mode,
            StepList::One(
                Phi2::Move {
                    source: MoveSource::Register { register: GeneralPurposeRegister::Y },
                    destination: MoveDestination::Data,
                },
            ),
        ),
        Opcode::Wdc65C02(Wdc65C02Opcode::Stz) => spec_inserted_write(
            p,
            mode,
            StepList::One(
                Phi2::Move {
                    source: MoveSource::Constant(0),
                    destination: MoveDestination::Data,
                },
            ),
        ),
        _ => if spec_is_branch(instr.opcode) {
            if taken {
                spec_patched_read(
                    p,
                    mode,
                    StepList::One(
                        Phi2::Move {
                            source: MoveSource::Data,
                            destination: MoveDestination::Operand,
                        },
                    ),
                ).push(spec_branch_add_cycle())
            } else {
                p
            }
        } else {
            // The remaining opcodes are the halting stubs, which queue
            // nothing.
            Seq::empty()
        },
    }
}

/// How the processor state after queuing one instruction's expansion
/// relates to the state before: the programmer registers are untouched,
/// an unimplemented instruction halts with an empty queue, a
/// stack-discipline instruction replaces the queue, and everything else
/// appends exactly the published number of cycles.
pub open spec fn spec_expanded(
    pre: CpuModel,
    post: CpuModel,
    instr: Mos6502InstructionSet,
    kind: Mos6502Kind,
) -> bool {
    &&& post.a == pre.a
    &&& post.x == pre.x
    &&& post.y == pre.y
    &&& post.flags == pre.flags
    &&& post.stack == pre.stack
    &&& post.instruction_pointer == pre.instruction_pointer
    &&& post.operand == pre.operand
    &&& post.bus == pre.bus
    &&& post.effective_address == pre.effective_address
    &&& if spec_instr_halts(instr) {
        post.halted && post.queue.len() == 0
    } else {
        &&& post.halted == pre.halted
        &&& post.queue == (if spec_clears_queue(instr.opcode) {
            Seq::<Cycle>::empty()
        } else {
            pre.queue
        }) + spec_expansion_cycles(instr, kind, spec_branch_taken(instr.opcode, pre.flags))
    }
}

/// The expansion queues exactly the published number of cycles: the mode
/// prelude's count plus the operation tail's, with the taken-branch extra
/// cycle counted and the run-time page-crossing fix-ups left to execution.
pub proof fn lemma_expansion_cycle_count(
    instr: Mos6502InstructionSet,
    kind: Mos6502Kind,
    taken: bool,
)
    requires
        !spec_instr_halts(instr),
    ensures
        spec_expansion_cycles(instr, kind, taken).len() == spec_expansion_len(instr, taken),
{
    reveal(spec_expansion_cycles);
}


/// Every non-halting mode has a prelude of at least one cycle.
proof fn lemma_prelude_nonempty(mode: Option<AddressingMode>, kind: Mos6502Kind)
    requires
        !(mode matches Some(AddressingMode::Wdc65C02(_))),
    ensures
        spec_prelude(mode, kind).len() >= 1,
        spec_prelude(mode, kind).len() == spec_prelude_len(mode),
{
}

/// Riding steps on the last cycle touches only the appended segment.
broadcast proof fn lemma_merge_last_after_append(prefix: Seq<Cycle>, cycles: Seq<Cycle>, steps: StepList)
    requires
        cycles.len() > 0,
    ensures
        #[trigger] spec_merge_last(prefix + cycles, steps) == prefix + spec_merge_last(
            cycles,
            steps,
        ),
{
    assert((prefix + cycles).last() == cycles.last());
    assert(spec_merge_last(prefix + cycles, steps) =~= prefix + spec_merge_last(cycles, steps));
}

/// The read tail distributes over an earlier queue segment.
broadcast proof fn lemma_patched_read_after_append(
    prefix: Seq<Cycle>,
    cycles: Seq<Cycle>,
    mode: Option<AddressingMode>,
    steps: StepList,
)
    requires
        cycles.len() > 0,
    ensures
        #[trigger] spec_patched_read(prefix + cycles, mode, steps) == prefix + spec_patched_read(
            cycles,
            mode,
            steps,
        ),
{
    if spec_leech_mode(mode) {
        lemma_merge_last_after_append(prefix, cycles, steps);
    } else {
        assert(spec_patched_read(prefix + cycles, mode, steps) =~= prefix + spec_patched_read(
            cycles,
            mode,
            steps,
        ));
    }
}

/// The store tail distributes over an earlier queue segment.
broadcast proof fn lemma_inserted_write_after_append(
    prefix: Seq<Cycle>,
    cycles: Seq<Cycle>,
    mode: Option<AddressingMode>,
    steps: StepList,
)
    ensures
        #[trigger] spec_inserted_write(prefix + cycles, mode, steps) == prefix
            + spec_inserted_write(cycles, mode, steps),
{
    assert(spec_inserted_write(prefix + cycles, mode, steps) =~= prefix + spec_inserted_write(
        cycles,
        mode,
        steps,
    ));
}

/// The read-modify-write tail distributes over an earlier queue segment.
broadcast proof fn lemma_rmw_after_append(prefix: Seq<Cycle>, cycles: Seq<Cycle>, steps: StepList)
    ensures
        #[trigger] spec_rmw_tail(prefix + cycles, steps) == prefix + spec_rmw_tail(cycles, steps),
{
    assert(spec_rmw_tail(prefix + cycles, steps) =~= prefix + spec_rmw_tail(cycles, steps));
}

/// The jump patch distributes over an earlier queue segment.
broadcast proof fn lemma_jmp_after_append(prefix: Seq<Cycle>, cycles: Seq<Cycle>)
    requires
        cycles.len() > 0,
    ensures
        #[trigger] spec_jmp_patched(prefix + cycles) == prefix + spec_jmp_patched(cycles),
{
    assert((prefix + cycles).last() == cycles.last());
    if cycles.last().phi2.seq().len() < 3 {
        lemma_merge_last_after_append(
            prefix,
            cycles,
            StepList::One(Phi2::LoadInstructionPointerFromEffectiveAddress),
        );
    } else {
        assert(spec_jmp_patched(prefix + cycles) =~= prefix + spec_jmp_patched(cycles));
    }
}

impl Mos6502 {
    /// Whether this instruction is one of the unimplemented stubs.
    fn instruction_stubbed(instruction: &Mos6502InstructionSet) -> (r: bool)
        ensures
            r == spec_instr_halts(*instruction),
    {
        if matches!(instruction.addressing_mode, Some(AddressingMode::Wdc65C02(_))) {
            return true;
        }
        match instruction.opcode {
            Opcode::Mos6502(op) => matches!(
                op,
                Mos6502Opcode::Anc | Mos6502Opcode::Arr | Mos6502Opcode::Asr | Mos6502Opcode::Brk
                    | Mos6502Opcode::Dcp | Mos6502Opcode::Isc | Mos6502Opcode::Jam
                    | Mos6502Opcode::Las | Mos6502Opcode::Lax | Mos6502Opcode::Rla
                    | Mos6502Opcode::Rra | Mos6502Opcode::Sax | Mos6502Opcode::Sbx
                    | Mos6502Opcode::Sha | Mos6502Opcode::Shs | Mos6502Opcode::Shx
                    | Mos6502Opcode::Shy | Mos6502Opcode::Slo | Mos6502Opcode::Sre
                    | Mos6502Opcode::Xaa,
            ),
            Opcode::Wdc65C02(op) => matches!(
                op,
                Wdc65C02Opcode::Plx | Wdc65C02Opcode::Ply | Wdc65C02Opcode::Trb
                    | Wdc65C02Opcode::Tsb | Wdc65C02Opcode::Stp | Wdc65C02Opcode::Wai,
            ),
        }
    }

    /// The prelude cycle that reads one operand byte at the instruction
    /// pointer into the effective address.
    fn push_operand_fetch(&mut self)
        ensures
            crate::cpu::regs_unchanged(*old(self), *final(self)),
            crate::cpu::interpreter_frame(*old(self), *final(self)),
            final(self).halted == old(self).halted,
            final(self).instruction_queue@ == old(self).instruction_queue@.push(
                spec_operand_fetch_cycle(),
            ),
    {
        self.instruction_queue.push_back(
            Cycle {
                bus_mode: BusMode::Read,
                phi1: Some(Phi1::SetAddressBus {
                    source: SetAddressBusSource::InstructionPointer,
                }),
                phi2: StepList::Two(
                    Phi2::IncrementInstructionPointer,
                    Phi2::Move {
                        source: MoveSource::Data,
                        destination: MoveDestination::EffectiveAddress,
                    },
                ),
            },
        );
    }

    /// The two-cycle prelude of the index-register-offset absolute modes;
    /// a page crossing queues its fix-up cycle at run time.
    fn register_indexed_absolute(&mut self, register: GeneralPurposeRegister)
        requires
            register is X || register is Y,
        ensures
            crate::cpu::regs_unchanged(*old(self), *final(self)),
            crate::cpu::interpreter_frame(*old(self), *final(self)),
            final(self).halted == old(self).halted,
            final(self).instruction_queue@ == old(self).instruction_queue@ + seq![
                spec_operand_fetch_cycle(),
                spec_indexed_absolute_cycle(register),
            ],
    {
        self.push_operand_fetch();
        self.instruction_queue.push_back(
            Cycle {
                bus_mode: BusMode::Read,
                phi1: Some(Phi1::SetAddressBus {
                    source: SetAddressBusSource::InstructionPointer,
                }),
                phi2: StepList::Three(
                    Phi2::IncrementInstructionPointer,
                    Phi2::Move {
                        source: MoveSource::Data,
                        destination: MoveDestination::EffectiveAddress,
                    },
                    Phi2::AddToPointerLikeRegister {
                        source: AddToPointerLikeRegisterSource::Register(register),
                        destination: PointerLikeRegister::EffectiveAddress,
                        insert_adjustment_cycle_upon_carry: true,
                        interpretation: ArithmeticOperandInterpretation::Unsigned,
                    },
                ),
            },
        );
        proof {
            assert(self.instruction_queue@ =~= old(self).instruction_queue@ + seq![
                spec_operand_fetch_cycle(),
                spec_indexed_absolute_cycle(register),
            ]);
        }
    }

    /// The two-cycle prelude of the index-register-offset zero-page modes;
    /// the sum wraps inside the zero page, so no fix-up is ever queued.
    fn register_indexed_zero_page(&mut self, register: GeneralPurposeRegister)
        requires
            register is X || register is Y,
        ensures
            crate::cpu::regs_unchanged(*old(self), *final(self)),
            crate::cpu::interpreter_frame(*old(self), *final(self)),
            final(self).halted == old(self).halted,
            final(self).instruction_queue@ == old(self).instruction_queue@ + seq![
                spec_operand_fetch_cycle(),
                spec_indexed_zero_page_cycle(register),
            ],
    {
        self.push_operand_fetch();
        self.instruction_queue.push_back(
            Cycle {
                bus_mode: BusMode::Read,
                phi1: None,
                phi2: StepList::One(
                    Phi2::AddToPointerLikeRegister {
                        source: AddToPointerLikeRegisterSource::Register(register),
                        destination: PointerLikeRegister::EffectiveAddress,
                        interpretation: ArithmeticOperandInterpretation::Unsigned,
                        insert_adjustment_cycle_upon_carry: false,
                    },
                ),
            },
        );
        proof {
            assert(self.instruction_queue@ =~= old(self).instruction_queue@ + seq![
                spec_operand_fetch_cycle(),
                spec_indexed_zero_page_cycle(register),
            ]);
        }
    }

    /// Attaches a read-style operation: onto the final prelude cycle for
    /// modes without their own memory access, as a read cycle at the
    /// effective address otherwise.
    fn patch_read_maybe_effective_address_dependent(
        &mut self,
        instruction: &Mos6502InstructionSet,
        steps: StepList,
    )
        requires
            spec_leech_mode(instruction.addressing_mode) ==> old(self).instruction_queue@.len() > 0 && old(self).instruction_queue@.last().phi2.seq().len()
                + steps.seq().len() <= 3,
        ensures
            crate::cpu::regs_unchanged(*old(self), *final(self)),
            crate::cpu::interpreter_frame(*old(self), *final(self)),
            final(self).halted == old(self).halted,
            final(self).instruction_queue@ == spec_patched_read(
                old(self).instruction_queue@,
                instruction.addressing_mode,
                steps,
            ),
    {
        let leech = match instruction.addressing_mode {
            None => true,
            Some(AddressingMode::Mos6502(Mos6502AddressingMode::Accumulator)) => true,
            Some(AddressingMode::Mos6502(Mos6502AddressingMode::Immediate)) => true,
            Some(AddressingMode::Mos6502(Mos6502AddressingMode::Relative)) => true,
            Some(_) => false,
        };
        if leech {
            if let Some(last) = self.instruction_queue.pop_back() {
                let patched = Cycle {
                    bus_mode: last.bus_mode,
                    phi1: last.phi1,
                    phi2: last.phi2.append(steps),
                };
                self.instruction_queue.push_back(patched);
                proof {
                    assert(self.instruction_queue@ =~= spec_merge_last(
                        old(self).instruction_queue@,
                        steps,
                    ));
                }
            }
        } else {
            self.instruction_queue.push_back(
                Cycle {
                    bus_mode: BusMode::Read,
                    phi1: Some(Phi1::SetAddressBus {
                        source: SetAddressBusSource::EffectiveAddress,
                    }),
                    phi2: steps,
                },
            );
        }
    }

    /// The three-cycle read-modify-write tail: read the target, write the
    /// unmodified byte back, then write the modified byte.
    fn insert_rmw_effective_address_dependent(&mut self, steps: StepList)
        requires
            steps.seq().len() <= 2,
        ensures
            crate::cpu::regs_unchanged(*old(self), *final(self)),
            crate::cpu::interpreter_frame(*old(self), *final(self)),
            final(self).halted == old(self).halted,
            final(self).instruction_queue@ == spec_rmw_tail(old(self).instruction_queue@, steps),
    {
        self.instruction_queue.push_back(
            Cycle {
                bus_mode: BusMode::Read,
                phi1: Some(Phi1::SetAddressBus {
                    source: SetAddressBusSource::EffectiveAddress,
                }),
                phi2: StepList::One(
                    Phi2::Move { source: MoveSource::Data, destination: MoveDestination::Operand },
                ),
            },
        );
        self.instruction_queue.push_back(
            Cycle {
                bus_mode: BusMode::Write,
                phi1: None,
                phi2: StepList::One(
                    Phi2::Move { source: MoveSource::Operand, destination: MoveDestination::Data },
                ),
            },
        );
        self.instruction_queue.push_back(
            Cycle {
                bus_mode: BusMode::Write,
                phi1: None,
                phi2: steps.append(
                    StepList::One(
                        Phi2::Move {
                            source: MoveSource::Operand,
                            destination: MoveDestination::Data,
                        },
                    ),
                ),
            },
        );
        proof {
            assert(self.instruction_queue@ =~= spec_rmw_tail(
                old(self).instruction_queue@,
                steps,
            ));
        }
    }

    /// The one-cycle store tail.  Store opcodes always carry a mode that
    /// forms an effective address; with any other mode nothing is queued.
    fn insert_write_effective_address_dependent(
        &mut self,
        instruction: &Mos6502InstructionSet,
        steps: StepList,
    )
        ensures
            crate::cpu::regs_unchanged(*old(self), *final(self)),
            crate::cpu::interpreter_frame(*old(self), *final(self)),
            final(self).halted == old(self).halted,
            final(self).instruction_queue@ == spec_inserted_write(
                old(self).instruction_queue@,
                instruction.addressing_mode,
                steps,
            ),
    {
        let leech = match instruction.addressing_mode {
            None => true,
            Some(AddressingMode::Mos6502(Mos6502AddressingMode::Accumulator)) => true,
            Some(AddressingMode::Mos6502(Mos6502AddressingMode::Immediate)) => true,
            Some(AddressingMode::Mos6502(Mos6502AddressingMode::Relative)) => true,
            Some(_) => false,
        };
        if !leech {
            self.instruction_queue.push_back(
                Cycle {
                    bus_mode: BusMode::Write,
                    phi1: Some(Phi1::SetAddressBus {
                        source: SetAddressBusSource::EffectiveAddress,
                    }),
                    phi2: steps,
                },
            );
        }
    }

    /// Queues the one-cycle push of a byte onto the stack.
    fn push_stack_item(&mut self, item: MoveSource)
        ensures
            crate::cpu::regs_unchanged(*old(self), *final(self)),
            crate::cpu::interpreter_frame(*old(self), *final(self)),
            final(self).halted == old(self).halted,
            final(self).instruction_queue@ == old(self).instruction_queue@.push(
                spec_push_stack_cycle(item),
            ),
    {
        self.instruction_queue.push_back(
            Cycle {
                bus_mode: BusMode::Write,
                phi1: Some(Phi1::SetAddressBus { source: SetAddressBusSource::Stack }),
                phi2: StepList::Two(
                    Phi2::Move { source: item, destination: MoveDestination::Data },
                    Phi2::IncrementStack { subtract: true },
                ),
            },
        );
    }

    /// Replaces the queue with the three-cycle pull of a byte from the
    /// stack.
    fn pull_stack_item(&mut self, item: MoveDestination)
        ensures
            crate::cpu::regs_unchanged(*old(self), *final(self)),
            crate::cpu::interpreter_frame(*old(self), *final(self)),
            final(self).halted == old(self).halted,
            final(self).instruction_queue@ == spec_pull_stack_cycles(item),
    {
        self.instruction_queue.clear();
        self.instruction_queue.push_back(
            Cycle { bus_mode: BusMode::Read, phi1: None, phi2: StepList::Empty },
        );
        self.instruction_queue.push_back(
            Cycle {
                bus_mode: BusMode::Read,
                phi1: None,
                phi2: StepList::One(Phi2::IncrementStack { subtract: false }),
            },
        );
        self.instruction_queue.push_back(
            Cycle {
                bus_mode: BusMode::Read,
                phi1: Some(Phi1::SetAddressBus { source: SetAddressBusSource::Stack }),
                phi2: StepList::One(
                    Phi2::Move { source: MoveSource::Data, destination: item },
                ),
            },
        );
        proof {
            assert(self.instruction_queue@ =~= spec_pull_stack_cycles(item));
        }
    }
}


impl Mos6502 {
    /// Queues the cycle expansion of one decoded instruction: the
    /// addressing-mode prelude, then the operation tail.  An unimplemented
    /// instruction halts the processor with an empty queue instead.
    pub fn push_steps_for_instruction(&mut self, instruction: &Mos6502InstructionSet)
        ensures
            crate::cpu::regs_unchanged(*old(self), *final(self)),
            crate::cpu::interpreter_frame(*old(self), *final(self)),
            spec_expanded(
                old(self).model(),
                final(self).model(),
                *instruction,
                old(self).config.kind,
            ),
    {
        if Self::instruction_stubbed(instruction) {
            self.halted = true;
            self.instruction_queue.clear();
            return;
        }
        let ghost prefix = self.instruction_queue@;
        self.push_prelude(instruction);
        self.push_tail(instruction, Ghost(prefix));
        proof {
            if spec_clears_queue(instruction.opcode) {
                assert(Seq::<Cycle>::empty() + self.instruction_queue@
                    =~= self.instruction_queue@);
            }
        }
    }

    /// Queues the addressing-mode prelude: exactly the published number of
    /// cycles for the mode, leaving the target in the effective address.
    #[verifier::rlimit(50)]
    fn push_prelude(&mut self, instruction: &Mos6502InstructionSet)
        requires
            !spec_instr_halts(*instruction),
        ensures
            crate::cpu::regs_unchanged(*old(self), *final(self)),
            crate::cpu::interpreter_frame(*old(self), *final(self)),
            final(self).halted == old(self).halted,
            final(self).instruction_queue@ == old(self).instruction_queue@ + spec_prelude(
                instruction.addressing_mode,
                old(self).config.kind,
            ),
            spec_leech_mode(instruction.addressing_mode) ==> final(self).instruction_queue@.len() > 0 && final(self).instruction_queue@.last().phi2.seq().len() <= 1,
            !(instruction.addressing_mode matches Some(AddressingMode::Mos6502(
                Mos6502AddressingMode::XIndexedAbsolute,
            )) || instruction.addressing_mode matches Some(AddressingMode::Mos6502(
                Mos6502AddressingMode::YIndexedAbsolute,
            ))) ==> final(self).instruction_queue@.len() > 0 && final(self).instruction_queue@.last().phi2.seq().len() <= 2,
    {
        match instruction.addressing_mode {
            Some(AddressingMode::Mos6502(Mos6502AddressingMode::Absolute)) => {
                self.push_operand_fetch();
                self.push_operand_fetch();
            },
            Some(AddressingMode::Mos6502(Mos6502AddressingMode::Immediate)) => {
                self.instruction_queue.push_back(
                    Cycle {
                        bus_mode: BusMode::Read,
                        phi1: Some(Phi1::SetAddressBus {
                            source: SetAddressBusSource::InstructionPointer,
                        }),
                        phi2: StepList::One(Phi2::IncrementInstructionPointer),
                    },
                );
            },
            Some(AddressingMode::Mos6502(Mos6502AddressingMode::Relative)) => {
                self.instruction_queue.push_back(
                    Cycle {
                        bus_mode: BusMode::Read,
                        phi1: Some(Phi1::SetAddressBus {
                            source: SetAddressBusSource::InstructionPointer,
                        }),
                        phi2: StepList::One(Phi2::IncrementInstructionPointer),
                    },
                );
            },
            Some(AddressingMode::Mos6502(Mos6502AddressingMode::XIndexedAbsolute)) => {
                self.register_indexed_absolute(GeneralPurposeRegister::X);
            },
            Some(AddressingMode::Mos6502(Mos6502AddressingMode::YIndexedAbsolute)) => {
                self.register_indexed_absolute(GeneralPurposeRegister::Y);
            },
            Some(AddressingMode::Mos6502(Mos6502AddressingMode::AbsoluteIndirect)) => {
                self.push_operand_fetch();
                self.push_operand_fetch();
                let adjust = !self.config.kind.has_absolute_indirect_page_wrap_errata();
                self.instruction_queue.push_back(
                    Cycle {
                        bus_mode: BusMode::Read,
                        phi1: Some(Phi1::SetAddressBus {
                            source: SetAddressBusSource::EffectiveAddress,
                        }),
                        phi2: StepList::Two(
                            Phi2::Move {
                                source: MoveSource::Data,
                                destination: MoveDestination::EffectiveAddress,
                            },
                            Phi2::AddToPointerLikeRegister {
                                source: AddToPointerLikeRegisterSource::Constant(1),
                                destination: PointerLikeRegister::AddressBus,
                                interpretation: ArithmeticOperandInterpretation::Unsigned,
                                insert_adjustment_cycle_upon_carry: adjust,
                            },
                        ),
                    },
                );
                self.instruction_queue.push_back(
                    Cycle {
                        bus_mode: BusMode::Read,
                        phi1: None,
                        phi2: StepList::One(
                            Phi2::Move {
                                source: MoveSource::Data,
                                destination: MoveDestination::EffectiveAddress,
                            },
                        ),
                    },
                );
            },
            Some(AddressingMode::Mos6502(Mos6502AddressingMode::XIndexedZeroPageIndirect)) => {
                self.push_operand_fetch();
                self.instruction_queue.push_back(
                    Cycle {
                        bus_mode: BusMode::Read,
                        phi1: Some(Phi1::SetAddressBus {
                            source: SetAddressBusSource::EffectiveAddress,
                        }),
                        phi2: StepList::One(
                            Phi2::AddToPointerLikeRegister {
                                source: AddToPointerLikeRegisterSource::Register(
                                    GeneralPurposeRegister::X,
                                ),
                                destination: PointerLikeRegister::AddressBus,
                                insert_adjustment_cycle_upon_carry: false,
                                interpretation: ArithmeticOperandInterpretation::Unsigned,
                            },
                        ),
                    },
                );
                self.instruction_queue.push_back(
                    Cycle {
                        bus_mode: BusMode::Read,
                        phi1: None,
                        phi2: StepList::Two(
                            Phi2::Move {
                                source: MoveSource::Data,
                                destination: MoveDestination::EffectiveAddress,
                            },
                            Phi2::AddToPointerLikeRegister {
                                source: AddToPointerLikeRegisterSource::Constant(1),
                                destination: PointerLikeRegister::AddressBus,
                                interpretation: ArithmeticOperandInterpretation::Unsigned,
                                insert_adjustment_cycle_upon_carry: false,
                            },
                        ),
                    },
                );
                self.instruction_queue.push_back(
                    Cycle {
                        bus_mode: BusMode::Read,
                        phi1: None,
                        phi2: StepList::One(
                            Phi2::Move {
                                source: MoveSource::Data,
                                destination: MoveDestination::EffectiveAddress,
                            },
                        ),
                    },
                );
            },
            Some(AddressingMode::Mos6502(Mos6502AddressingMode::ZeroPageIndirectYIndexed)) => {
                self.push_operand_fetch();
                self.instruction_queue.push_back(
                    Cycle {
                        bus_mode: BusMode::Read,
                        phi1: Some(Phi1::SetAddressBus {
                            source: SetAddressBusSource::EffectiveAddress,
                        }),
                        phi2: StepList::Two(
                            Phi2::Move {
                                source: MoveSource::Data,
                                destination: MoveDestination::EffectiveAddress,
                            },
                            Phi2::AddToPointerLikeRegister {
                                source: AddToPointerLikeRegisterSource::Constant(1),
                                destination: PointerLikeRegister::AddressBus,
                                interpretation: ArithmeticOperandInterpretation::Unsigned,
                                insert_adjustment_cycle_upon_carry: false,
                            },
                        ),
                    },
                );
                self.instruction_queue.push_back(
                    Cycle {
                        bus_mode: BusMode::Read,
                        phi1: None,
                        phi2: StepList::Two(
                            Phi2::Move {
                                source: MoveSource::Data,
                                destination: MoveDestination::EffectiveAddress,
                            },
                            Phi2::AddToPointerLikeRegister {
                                source: AddToPointerLikeRegisterSource::Register(
                                    GeneralPurposeRegister::Y,
                                ),
                                destination: PointerLikeRegister::EffectiveAddress,
                                interpretation: ArithmeticOperandInterpretation::Unsigned,
                                insert_adjustment_cycle_upon_carry: true,
                            },
                        ),
                    },
                );
            },
            Some(AddressingMode::Mos6502(Mos6502AddressingMode::XIndexedZeroPage)) => {
                self.register_indexed_zero_page(GeneralPurposeRegister::X);
            },
            Some(AddressingMode::Mos6502(Mos6502AddressingMode::YIndexedZeroPage)) => {
                self.register_indexed_zero_page(GeneralPurposeRegister::Y);
            },
            Some(AddressingMode::Mos6502(Mos6502AddressingMode::ZeroPage)) => {
                self.push_operand_fetch();
            },
            Some(AddressingMode::Mos6502(Mos6502AddressingMode::Accumulator)) => {
                self.instruction_queue.push_back(Cycle::dummy());
            },
            Some(AddressingMode::Wdc65C02(Wdc65C02AddressingMode::ZeroPageIndirect)) => {
                // Filtered out above: this mode is one of the stubs.
            },
            None => {
                self.instruction_queue.push_back(Cycle::dummy());
            },
        }
    }

    /// Queues the operation tail after the prelude.
    #[verifier::rlimit(100)]
    #[verifier::spinoff_prover]
    fn push_tail(
        &mut self,
        instruction: &Mos6502InstructionSet,
        Ghost(prefix): Ghost<Seq<Cycle>>,
    )
        requires
            !spec_instr_halts(*instruction),
            old(self).instruction_queue@ == prefix + spec_prelude(
                instruction.addressing_mode,
                old(self).config.kind,
            ),
            spec_leech_mode(instruction.addressing_mode) ==> old(self).instruction_queue@.len() > 0 && old(self).instruction_queue@.last().phi2.seq().len() <= 1,
            !(instruction.addressing_mode matches Some(AddressingMode::Mos6502(
                Mos6502AddressingMode::XIndexedAbsolute,
            )) || instruction.addressing_mode matches Some(AddressingMode::Mos6502(
                Mos6502AddressingMode::YIndexedAbsolute,
            ))) ==> old(self).instruction_queue@.len() > 0 && old(self).instruction_queue@.last().phi2.seq().len() <= 2,
        ensures
            crate::cpu::regs_unchanged(*old(self), *final(self)),
            crate::cpu::interpreter_frame(*old(self), *final(self)),
            final(self).halted == old(self).halted,
            final(self).instruction_queue@ == (if spec_clears_queue(instruction.opcode) {
                spec_expansion_cycles(
                    *instruction,
                    old(self).config.kind,
                    spec_branch_taken(instruction.opcode, old(self).flags),
                )
            } else {
                prefix + spec_expansion_cycles(
                    *instruction,
                    old(self).config.kind,
                    spec_branch_taken(instruction.opcode, old(self).flags),
                )
            }),
    {
        proof {
            reveal(spec_expansion_cycles);
            lemma_prelude_nonempty(instruction.addressing_mode, self.config.kind);
            broadcast use lemma_merge_last_after_append;
            broadcast use lemma_patched_read_after_append;
            broadcast use lemma_inserted_write_after_append;
            broadcast use lemma_rmw_after_append;
            broadcast use lemma_jmp_after_append;
        }
        let ghost prelude = spec_prelude(instruction.addressing_mode, self.config.kind);
        match instruction.opcode {
            Opcode::Mos6502(Mos6502Opcode::Adc) => {
                self.patch_read_maybe_effective_address_dependent(
                    instruction,
                    StepList::Two(
                        Phi2::Move {
                            source: MoveSource::Data,
                            destination: MoveDestination::Operand,
                        },
                        Phi2::Add { invert_operand: false },
                    ),
                );
            },
            Opcode::Mos6502(Mos6502Opcode::And) => {
                self.patch_read_maybe_effective_address_dependent(
                    instruction,
                    StepList::Two(
                        Phi2::Move {
                            source: MoveSource::Data,
                            destination: MoveDestination::Operand,
                        },
                        Phi2::And { writeback: true },
                    ),
                );
            },
            Opcode::Mos6502(Mos6502Opcode::Asl) => {
                if matches!(
                    instruction.addressing_mode,
                    Some(AddressingMode::Mos6502(Mos6502AddressingMode::Accumulator)),
                ) {
                    self.patch_read_maybe_effective_address_dependent(
                        instruction,
                        StepList::One(
                            Phi2::Shift {
                                direction: ShiftDirection::Left,
                                rotate: false,
                                a_is_operand: true,
                            },
                        ),
                    );
                } else {
                    self.insert_rmw_effective_address_dependent(
                        StepList::One(
                            Phi2::Shift {
                                direction: ShiftDirection::Left,
                                rotate: false,
                                a_is_operand: false,
                            },
                        ),
                    );
                }
            },
            Opcode::Mos6502(Mos6502Opcode::Bit) => {
                self.patch_read_maybe_effective_address_dependent(
                    instruction,
                    StepList::Two(
                        Phi2::Move {
                            source: MoveSource::Data,
                            destination: MoveDestination::Operand,
                        },
                        Phi2::And { writeback: false },
                    ),
                );
            },
            Opcode::Mos6502(Mos6502Opcode::Clc) => {
                self.patch_read_maybe_effective_address_dependent(
                    instruction,
                    StepList::One(Phi2::SetFlag { flag: Flag::Carry, value: false }),
                );
            },
            Opcode::Mos6502(Mos6502Opcode::Cld) => {
                self.patch_read_maybe_effective_address_dependent(
                    instruction,
                    StepList::One(Phi2::SetFlag { flag: Flag::Decimal, value: false }),
                );
            },
            Opcode::Mos6502(Mos6502Opcode::Cli) => {
                self.patch_read_maybe_effective_address_dependent(
                    instruction,
                    StepList::One(Phi2::SetFlag { flag: Flag::InterruptDisable, value: false }),
                );
            },
            Opcode::Mos6502(Mos6502Opcode::Clv) => {
                self.patch_read_maybe_effective_address_dependent(
                    instruction,
                    StepList::One(Phi2::SetFlag { flag: Flag::Overflow, value: false }),
                );
            },
            Opcode::Mos6502(Mos6502Opcode::Cmp) => {
                self.patch_read_maybe_effective_address_dependent(
                    instruction,
                    StepList::Two(
                        Phi2::Move {
                            source: MoveSource::Data,
                            destination: MoveDestination::Operand,
                        },
                        Phi2::Compare { register: GeneralPurposeRegister::A },
                    ),
                );
            },
            Opcode::Mos6502(Mos6502Opcode::Cpx) => {
                self.patch_read_maybe_effective_address_dependent(
                    instruction,
                    StepList::Two(
                        Phi2::Move {
                            source: MoveSource::Data,
                            destination: MoveDestination::Operand,
                        },
                        Phi2::Compare { register: GeneralPurposeRegister::X },
                    ),
                );
            },
            Opcode::Mos6502(Mos6502Opcode::Cpy) => {
                self.patch_read_maybe_effective_address_dependent(
                    instruction,
                    StepList::Two(
                        Phi2::Move {
                            source: MoveSource::Data,
                            destination: MoveDestination::Operand,
                        },
                        Phi2::Compare { register: GeneralPurposeRegister::Y },
                    ),
                );
            },
            Opcode::Mos6502(Mos6502Opcode::Dec) => {
                self.insert_rmw_effective_address_dependent(
                    StepList::One(
                        Phi2::Increment { operand: IncrementOperand::Operand, subtract: true },
                    ),
                );
            },
            Opcode::Mos6502(Mos6502Opcode::Dex) => {
                self.patch_read_maybe_effective_address_dependent(
                    instruction,
                    StepList::One(
                        Phi2::Increment { operand: IncrementOperand::X, subtract: true },
                    ),
                );
            },
            Opcode::Mos6502(Mos6502Opcode::Dey) => {
                self.patch_read_maybe_effective_address_dependent(
                    instruction,
                    StepList::One(
                        Phi2::Increment { operand: IncrementOperand::Y, subtract: true },
                    ),
                );
            },
            Opcode::Mos6502(Mos6502Opcode::Eor) => {
                self.patch_read_maybe_effective_address_dependent(
                    instruction,
                    StepList::Two(
                        Phi2::Move {
                            source: MoveSource::Data,
                            destination: MoveDestination::Operand,
                        },
                        Phi2::Xor,
                    ),
                );
            },
            Opcode::Mos6502(Mos6502Opcode::Inc) => {
                self.insert_rmw_effective_address_dependent(
                    StepList::One(
                        Phi2::Increment { operand: IncrementOperand::Operand, subtract: false },
                    ),
                );
            },
            Opcode::Mos6502(Mos6502Opcode::Inx) => {
                self.patch_read_maybe_effective_address_dependent(
                    instruction,
                    StepList::One(
                        Phi2::Increment { operand: IncrementOperand::X, subtract: false },
                    ),
                );
            },
            Opcode::Mos6502(Mos6502Opcode::Iny) => {
                self.patch_read_maybe_effective_address_dependent(
                    instruction,
                    StepList::One(
                        Phi2::Increment { operand: IncrementOperand::Y, subtract: false },
                    ),
                );
            },
            Opcode::Mos6502(Mos6502Opcode::Jmp) => {
                // Both real jump modes leave a prelude cycle with room for
                // the final load; the load rides on it.
                if let Some(last) = self.instruction_queue.pop_back() {
                    if last.phi2.len() < 3 {
                        self.instruction_queue.push_back(
                            Cycle {
                                bus_mode: last.bus_mode,
                                phi1: last.phi1,
                                phi2: last.phi2.push(
                                    Phi2::LoadInstructionPointerFromEffectiveAddress,
                                ),
                            },
                        );
                    } else {
                        self.instruction_queue.push_back(last);
                    }
                }
            },
            Opcode::Mos6502(Mos6502Opcode::Jsr) => {
                self.instruction_queue.clear();
                self.push_operand_fetch();
                self.push_stack_item(MoveSource::InstructionPointer { offset: 1 });
                self.push_stack_item(MoveSource::InstructionPointer { offset: 0 });
                self.push_operand_fetch();
                self.instruction_queue.push_back(
                    Cycle {
                        bus_mode: BusMode::Read,
                        phi1: None,
                        phi2: StepList::One(Phi2::LoadInstructionPointerFromEffectiveAddress),
                    },
                );
            },
            Opcode::Mos6502(Mos6502Opcode::Lda) => {
                self.patch_read_maybe_effective_address_dependent(
                    instruction,
                    StepList::One(
                        Phi2::Move {
                            source: MoveSource::Data,
                            destination: MoveDestination::Register {
                                register: GeneralPurposeRegister::A,
                                update_nz: true,
                            },
                        },
                    ),
                );
            },
            Opcode::Mos6502(Mos6502Opcode::Ldx) => {
                self.patch_read_maybe_effective_address_dependent(
                    instruction,
                    StepList::One(
                        Phi2::Move {
                            source: MoveSource::Data,
                            destination: MoveDestination::Register {
                                register: GeneralPurposeRegister::X,
                                update_nz: true,
                            },
                        },
                    ),
                );
            },
            Opcode::Mos6502(Mos6502Opcode::Ldy) => {
                self.patch_read_maybe_effective_address_dependent(
                    instruction,
                    StepList::One(
                        Phi2::Move {
                            source: MoveSource::Data,
                            destination: MoveDestination::Register {
                                register: GeneralPurposeRegister::Y,
                                update_nz: true,
                            },
                        },
                    ),
                );
            },
            Opcode::Mos6502(Mos6502Opcode::Lsr) => {
                if matches!(
                    instruction.addressing_mode,
                    Some(AddressingMode::Mos6502(Mos6502AddressingMode::Accumulator)),
                ) {
                    self.patch_read_maybe_effective_address_dependent(
                        instruction,
                        StepList::One(
                            Phi2::Shift {
                                direction: ShiftDirection::Right,
                                rotate: false,
                                a_is_operand: true,
                            },
                        ),
                    );
                } else {
                    self.insert_rmw_effective_address_dependent(
                        StepList::One(
                            Phi2::Shift {
                                direction: ShiftDirection::Right,
                                rotate: false,
                                a_is_operand: false,
                            },
                        ),
                    );
                }
            },
            Opcode::Mos6502(Mos6502Opcode::Nop) => {},
            Opcode::Mos6502(Mos6502Opcode::Ora) => {
                self.patch_read_maybe_effective_address_dependent(
                    instruction,
                    StepList::Two(
                        Phi2::Move {
                            source: MoveSource::Data,
                            destination: MoveDestination::Operand,
                        },
                        Phi2::Or,
                    ),
                );
            },
            Opcode::Mos6502(Mos6502Opcode::Pha) => {
                self.push_stack_item(MoveSource::Register { register: GeneralPurposeRegister::A });
            },
            Opcode::Mos6502(Mos6502Opcode::Php) => {
                self.push_stack_item(MoveSource::Flags { break_: true });
            },
            Opcode::Mos6502(Mos6502Opcode::Pla) => {
                self.pull_stack_item(
                    MoveDestination::Register {
                        register: GeneralPurposeRegister::A,
                        update_nz: true,
                    },
                );
            },
            Opcode::Mos6502(Mos6502Opcode::Plp) => {
                self.pull_stack_item(MoveDestination::Flags);
            },
            Opcode::Mos6502(Mos6502Opcode::Rol) => {
                if matches!(
                    instruction.addressing_mode,
                    Some(AddressingMode::Mos6502(Mos6502AddressingMode::Accumulator)),
                ) {
                    self.patch_read_maybe_effective_address_dependent(
                        instruction,
                        StepList::One(
                            Phi2::Shift {
                                direction: ShiftDirection::Left,
                                rotate: true,
                                a_is_operand: true,
                            },
                        ),
                    );
                } else {
                    self.insert_rmw_effective_address_dependent(
                        StepList::One(
                            Phi2::Shift {
                                direction: ShiftDirection::Left,
                                rotate: true,
                                a_is_operand: false,
                            },
                        ),
                    );
                }
            },
            Opcode::Mos6502(Mos6502Opcode::Ror) => {
                if matches!(
                    instruction.addressing_mode,
                    Some(AddressingMode::Mos6502(Mos6502AddressingMode::Accumulator)),
                ) {
                    self.patch_read_maybe_effective_address_dependent(
                        instruction,
                        StepList::One(
                            Phi2::Shift {
                                direction: ShiftDirection::Right,
                                rotate: true,
                                a_is_operand: true,
                            },
                        ),
                    );
                } else {
                    self.insert_rmw_effective_address_dependent(
                        StepList::One(
                            Phi2::Shift {
                                direction: ShiftDirection::Right,
                                rotate: true,
                                a_is_operand: false,
                            },
                        ),
                    );
                }
            },
            Opcode::Mos6502(Mos6502Opcode::Rti) => {
                self.instruction_queue.clear();
                self.instruction_queue.push_back(
                    Cycle {
                        bus_mode: BusMode::Read,
                        phi1: None,
                        phi2: StepList::One(Phi2::IncrementStack { subtract: false }),
                    },
                );
                self.instruction_queue.push_back(
                    Cycle {
                        bus_mode: BusMode::Read,
                        phi1: Some(Phi1::SetAddressBus { source: SetAddressBusSource::Stack }),
                        phi2: StepList::Two(
                            Phi2::Move {
                                source: MoveSource::Data,
                                destination: MoveDestination::Flags,
                            },
                            Phi2::IncrementStack { subtract: false },
                        ),
                    },
                );
                self.instruction_queue.push_back(
                    Cycle {
                        bus_mode: BusMode::Read,
                        phi1: Some(Phi1::SetAddressBus { source: SetAddressBusSource::Stack }),
                        phi2: StepList::Two(
                            Phi2::Move {
                                source: MoveSource::Data,
                                destination: MoveDestination::EffectiveAddress,
                            },
                            Phi2::IncrementStack { subtract: false },
                        ),
                    },
                );
                self.instruction_queue.push_back(
                    Cycle {
                        bus_mode: BusMode::Read,
                        phi1: Some(Phi1::SetAddressBus { source: SetAddressBusSource::Stack }),
                        phi2: StepList::One(
                            Phi2::Move {
                                source: MoveSource::Data,
                                destination: MoveDestination::EffectiveAddress,
                            },
                        ),
                    },
                );
                self.instruction_queue.push_back(
                    Cycle {
                        bus_mode: BusMode::Read,
                        phi1: None,
                        phi2: StepList::One(Phi2::LoadInstructionPointerFromEffectiveAddress),
                    },
                );
            },
            Opcode::Mos6502(Mos6502Opcode::Rts) => {
                self.instruction_queue.clear();
                self.instruction_queue.push_back(
                    Cycle {
                        bus_mode: BusMode::Read,
                        phi1: None,
                        phi2: StepList::One(Phi2::IncrementStack { subtract: false }),
                    },
                );
                self.instruction_queue.push_back(
                    Cycle {
                        bus_mode: BusMode::Read,
                        phi1: Some(Phi1::SetAddressBus { source: SetAddressBusSource::Stack }),
                        phi2: StepList::Two(
                            Phi2::Move {
                                source: MoveSource::Data,
                                destination: MoveDestination::EffectiveAddress,
                            },
                            Phi2::IncrementStack { subtract: false },
                        ),
                    },
                );
                self.instruction_queue.push_back(
                    Cycle {
                        bus_mode: BusMode::Read,
                        phi1: Some(Phi1::SetAddressBus { source: SetAddressBusSource::Stack }),
                        phi2: StepList::One(
                            Phi2::Move {
                                source: MoveSource::Data,
                                destination: MoveDestination::EffectiveAddress,
                            },
                        ),
                    },
                );
                self.instruction_queue.push_back(
                    Cycle {
                        bus_mode: BusMode::Read,
                        phi1: None,
                        phi2: StepList::One(Phi2::LoadInstructionPointerFromEffectiveAddress),
                    },
                );
                self.instruction_queue.push_back(
                    Cycle {
                        bus_mode: BusMode::Read,
                        phi1: None,
                        phi2: StepList::One(Phi2::IncrementInstructionPointer),
                    },
                );
            },
            Opcode::Mos6502(Mos6502Opcode::Sbc) => {
                self.patch_read_maybe_effective_address_dependent(
                    instruction,
                    StepList::Two(
                        Phi2::Move {
                            source: MoveSource::Data,
                            destination: MoveDestination::Operand,
                        },
                        Phi2::Add { invert_operand: true },
                    ),
                );
            },
            Opcode::Mos6502(Mos6502Opcode::Sec) => {
                self.patch_read_maybe_effective_address_dependent(
                    instruction,
                    StepList::One(Phi2::SetFlag { flag: Flag::Carry, value: true }),
                );
            },
            Opcode::Mos6502(Mos6502Opcode::Sed) => {
                self.patch_read_maybe_effective_address_dependent(
                    instruction,
                    StepList::One(Phi2::SetFlag { flag: Flag::Decimal, value: true }),
                );
            },
            Opcode::Mos6502(Mos6502Opcode::Sei) => {
                self.patch_read_maybe_effective_address_dependent(
                    instruction,
                    StepList::One(Phi2::SetFlag { flag: Flag::InterruptDisable, value: true }),
                );
            },
            Opcode::Mos6502(Mos6502Opcode::Sta) => {
                self.insert_write_effective_address_dependent(
                    instruction,
                    StepList::One(
                        Phi2::Move {
                            source: MoveSource::Register { register: GeneralPurposeRegister::A },
                            destination: MoveDestination::Data,
                        },
                    ),
                );
            },
            Opcode::Mos6502(Mos6502Opcode::Stx) => {
                self.insert_write_effective_address_dependent(
                    instruction,
                    StepList::One(
                        Phi2::Move {
                            source: MoveSource::Register { register: GeneralPurposeRegister::X },
                            destination: MoveDestination::Data,
                        },
                    ),
                );
            },
            Opcode::Mos6502(Mos6502Opcode::Sty) => {
                self.insert_write_effective_address_dependent(
                    instruction,
                    StepList::One(
                        Phi2::Move {
                            source: MoveSource::Register { register: GeneralPurposeRegister::Y },
                            destination: MoveDestination::Data,
                        },
                    ),
                );
            },
            Opcode::Mos6502(Mos6502Opcode::Tax) => {
                self.patch_read_maybe_effective_address_dependent(
                    instruction,
                    StepList::One(
                        Phi2::Move {
                            source: MoveSource::Register { register: GeneralPurposeRegister::A },
                            destination: MoveDestination::Register {
                                register: GeneralPurposeRegister::X,
                                update_nz: true,
                            },
                        },
                    ),
                );
            },
            Opcode::Mos6502(Mos6502Opcode::Tay) => {
                self.patch_read_maybe_effective_address_dependent(
                    instruction,
                    StepList::One(
                        Phi2::Move {
                            source: MoveSource::Register { register: GeneralPurposeRegister::A },
                            destination: MoveDestination::Register {
                                register: GeneralPurposeRegister::Y,
                                update_nz: true,
                            },
                        },
                    ),
                );
            },
            Opcode::Mos6502(Mos6502Opcode::Tsx) => {
                self.patch_read_maybe_effective_address_dependent(
                    instruction,
                    StepList::One(
                        Phi2::Move {
                            source: MoveSource::Stack,
                            destination: MoveDestination::Register {
                                register: GeneralPurposeRegister::X,
                                update_nz: true,
                            },
                        },
                    ),
                );
            },
            Opcode::Mos6502(Mos6502Opcode::Txa) => {
                self.patch_read_maybe_effective_address_dependent(
                    instruction,
                    StepList::One(
                        Phi2::Move {
                            source: MoveSource::Register { register: GeneralPurposeRegister::X },
                            destination: MoveDestination::Register {
                                register: GeneralPurposeRegister::A,
                                update_nz: true,
                            },
                        },
                    ),
                );
            },
            Opcode::Mos6502(Mos6502Opcode::Txs) => {
                self.patch_read_maybe_effective_address_dependent(
                    instruction,
                    StepList::One(
                        Phi2::Move {
                            source: MoveSource::Register { register: GeneralPurposeRegister::X },
                            destination: MoveDestination::Stack,
                        },
                    ),
                );
            },
            Opcode::Mos6502(Mos6502Opcode::Tya) => {
                self.patch_read_maybe_effective_address_dependent(
                    instruction,
                    StepList::One(
                        Phi2::Move {
                            source: MoveSource::Register { register: GeneralPurposeRegister::Y },
                            destination: MoveDestination::Register {
                                register: GeneralPurposeRegister::A,
                                update_nz: true,
                            },
                        },
                    ),
                );
            },
            Opcode::Mos6502(Mos6502Opcode::Bvs) | Opcode::Mos6502(Mos6502Opcode::Bvc)
                | Opcode::Mos6502(Mos6502Opcode::Beq) | Opcode::Mos6502(Mos6502Opcode::Bne)
                | Opcode::Mos6502(Mos6502Opcode::Bcs) | Opcode::Mos6502(Mos6502Opcode::Bcc)
                | Opcode::Mos6502(Mos6502Opcode::Bmi) | Opcode::Mos6502(Mos6502Opcode::Bpl)
                | Opcode::Wdc65C02(Wdc65C02Opcode::Bra) => {
                let branch_taken = match instruction.opcode {
                    Opcode::Mos6502(Mos6502Opcode::Bvs) => self.flags.overflow,
                    Opcode::Mos6502(Mos6502Opcode::Bvc) => !self.flags.overflow,
                    Opcode::Mos6502(Mos6502Opcode::Beq) => self.flags.zero,
                    Opcode::Mos6502(Mos6502Opcode::Bne) => !self.flags.zero,
                    Opcode::Mos6502(Mos6502Opcode::Bcs) => self.flags.carry,
                    Opcode::Mos6502(Mos6502Opcode::Bcc) => !self.flags.carry,
                    Opcode::Mos6502(Mos6502Opcode::Bmi) => self.flags.negative,
                    Opcode::Mos6502(Mos6502Opcode::Bpl) => !self.flags.negative,
                    _ => true,
                };
                if branch_taken {
                    self.patch_read_maybe_effective_address_dependent(
                        instruction,
                        StepList::One(
                            Phi2::Move {
                                source: MoveSource::Data,
                                destination: MoveDestination::Operand,
                            },
                        ),
                    );
                    self.instruction_queue.push_back(
                        Cycle {
                            bus_mode: BusMode::Read,
                            phi1: None,
                            phi2: StepList::One(
                                Phi2::AddToPointerLikeRegister {
                                    insert_adjustment_cycle_upon_carry: true,
                                    source: AddToPointerLikeRegisterSource::Operand,
                                    destination: PointerLikeRegister::InstructionPointer,
                                    interpretation: ArithmeticOperandInterpretation::Signed,
                                },
                            ),
                        },
                    );
                }
            },
            Opcode::Wdc65C02(Wdc65C02Opcode::Phx) => {
                self.push_stack_item(MoveSource::Register { register: GeneralPurposeRegister::X });
            },
            Opcode::Wdc65C02(Wdc65C02Opcode::Phy) => {
                self.push_stack_item(MoveSource::Register { register: GeneralPurposeRegister::Y });
            },
            Opcode::Wdc65C02(Wdc65C02Opcode::Stz) => {
                self.insert_write_effective_address_dependent(
                    instruction,
                    StepList::One(
                        Phi2::Move {
                            source: MoveSource::Constant(0),
                            destination: MoveDestination::Data,
                        },
                    ),
                );
            },
            _ => {
                // The remaining opcodes are the stubs filtered out above.
            },
        }
    }
}

} // verus!
