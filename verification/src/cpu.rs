//! The 6502-family micro-operation cycle engine.
//!
//! The processor holds a queue of pending [`Cycle`]s.  Each quantum of
//! virtual time it executes exactly one: phase 1 places the address bus, a
//! read cycle fetches one byte through the address space, the phase-2
//! steps run strictly in order, a write cycle stores the bus byte, and,
//! when the queue has drained, the interrupt lines are polled.  An empty
//! queue synthesizes an opcode fetch, whose decode appends the next
//! instruction's expansion.
//!
//! Every step's effect on the programmer-visible state is specified
//! exactly by [`spec_apply_step`] over the ghost [`CpuModel`]; the
//! executable interpreter is proved to match it step by step.

use vstd::prelude::*;

use std::collections::VecDeque;

use crate::cycle::{
    AddToPointerLikeRegisterSource, ArithmeticOperandInterpretation, BusMode, Cycle, Flag,
    GeneralPurposeRegister, IncrementOperand, MoveDestination, MoveSource, Phi1, Phi2,
    PointerLikeRegister, SetAddressBusSource, ShiftDirection, StepList,
};
use crate::decoder::{decode, spec_decode};
use crate::instruction::{AddressingMode, Mos6502InstructionSet, Mos6502Kind};
use crate::interrupt::{IrqFlag, NmiFlag, RdyFlag, spec_nmi_consume};
use crate::memory::{AddressSpace, AddressSpaceCache};
use crate::event::EventManager;
use crate::scheduler::{spec_budget, QuantaIterator, SynchronizationContext};
use crate::time::{Frequency, Period};

verus! {

/// Identifies an address space within a machine.
pub type AddressSpaceId = usize;

/// Where the processor fetches its program counter after a reset.
pub const RESET_VECTOR: u16 = 0xfffc;

/// Where a maskable interrupt fetches its handler address.
pub const IRQ_VECTOR: u16 = 0xfffe;

/// Where a non-maskable interrupt fetches its handler address.
pub const NMI_VECTOR: u16 = 0xfffa;

/// The high byte of every stack address.
pub const STACK_BASE_ADDRESS: u16 = 0x0100;

/// How many cycles the reset sequence takes.
pub const RESET_SEQUENCE_LENGTH: u32 = 6;

/// The 256-byte page size that indexing adjustments are measured against.
pub const PAGE_SIZE: usize = 256;

/// The externally visible bus pins: a 16-bit address and an 8-bit datum.
#[derive(Clone, Copy, PartialEq, Eq, Structural, Debug)]
pub struct Bus {
    pub address: u16,
    pub data: u8,
}

/// The processor status flags, kept unpacked.
#[derive(Clone, Copy, PartialEq, Eq, Structural, Debug)]
pub struct FlagRegister {
    pub negative: bool,
    pub overflow: bool,
    pub decimal: bool,
    pub interrupt_disable: bool,
    pub zero: bool,
    pub carry: bool,
}

impl Default for FlagRegister {
    /// All flags clear.
    fn default() -> (r: Self)
        ensures
            r == (FlagRegister {
                negative: false,
                overflow: false,
                decimal: false,
                interrupt_disable: false,
                zero: false,
                carry: false,
            }),
    {
        FlagRegister {
            negative: false,
            overflow: false,
            decimal: false,
            interrupt_disable: false,
            zero: false,
            carry: false,
        }
    }
}

/// The flag byte as pushed on the stack: `NV1BDIZC`, bit 5 always set,
/// bit 4 the break mark chosen by the pusher.
pub open spec fn spec_flags_to_byte(f: FlagRegister, break_: bool) -> u8 {
    ((if f.negative {
        128int
    } else {
        0int
    }) + (if f.overflow {
        64int
    } else {
        0int
    }) + 32int + (if break_ {
        16int
    } else {
        0int
    }) + (if f.decimal {
        8int
    } else {
        0int
    }) + (if f.interrupt_disable {
        4int
    } else {
        0int
    }) + (if f.zero {
        2int
    } else {
        0int
    }) + (if f.carry {
        1int
    } else {
        0int
    })) as u8
}

/// The flags reconstituted from a stacked byte; bits 4 and 5 are ignored.
pub open spec fn spec_flags_from_byte(byte: u8) -> FlagRegister {
    FlagRegister {
        negative: byte / 128 % 2 == 1,
        overflow: byte / 64 % 2 == 1,
        decimal: byte / 8 % 2 == 1,
        interrupt_disable: byte / 4 % 2 == 1,
        zero: byte / 2 % 2 == 1,
        carry: byte % 2 == 1,
    }
}

impl FlagRegister {
    /// Packs the flags into the stacked byte layout.
    pub fn to_byte(&self, break_: bool) -> (r: u8)
        ensures
            r == spec_flags_to_byte(*self, break_),
    {
        let mut byte: u8 = 32;
        if self.negative {
            byte = byte + 128;
        }
        if self.overflow {
            byte = byte + 64;
        }
        if break_ {
            byte = byte + 16;
        }
        if self.decimal {
            byte = byte + 8;
        }
        if self.interrupt_disable {
            byte = byte + 4;
        }
        if self.zero {
            byte = byte + 2;
        }
        if self.carry {
            byte = byte + 1;
        }
        byte
    }

    /// Unpacks a stacked flag byte.
    pub fn from_byte(byte: u8) -> (r: Self)
        ensures
            r == spec_flags_from_byte(byte),
    {
        FlagRegister {
            negative: byte / 128 % 2 == 1,
            overflow: byte / 64 % 2 == 1,
            decimal: byte / 8 % 2 == 1,
            interrupt_disable: byte / 4 % 2 == 1,
            zero: byte / 2 % 2 == 1,
            carry: byte % 2 == 1,
        }
    }
}

/// The scratch register where addressing modes accumulate their target:
/// empty, a single low byte, or a full little-endian pair.
#[derive(Clone, Copy, PartialEq, Eq, Structural, Debug)]
pub enum EffectiveAddress {
    Empty,
    One(u8),
    Two(u8, u8),
}

/// The 16-bit address an effective-address value denotes: a single byte is
/// zero-extended, the empty state reads as zero.
pub open spec fn spec_eff_address(e: EffectiveAddress) -> u16 {
    match e {
        EffectiveAddress::Empty => 0,
        EffectiveAddress::One(lo) => lo as u16,
        EffectiveAddress::Two(lo, hi) => (lo + 256 * hi) as u16,
    }
}

/// Appending a byte: a third byte is discarded (the generated cycle
/// sequences never produce one).
pub open spec fn spec_eff_push(e: EffectiveAddress, v: u8) -> EffectiveAddress {
    match e {
        EffectiveAddress::Empty => EffectiveAddress::One(v),
        EffectiveAddress::One(lo) => EffectiveAddress::Two(lo, v),
        EffectiveAddress::Two(lo, hi) => EffectiveAddress::Two(lo, hi),
    }
}

/// The low byte of a 16-bit word.
pub open spec fn word_lo(v: u16) -> u8 {
    (v % 256) as u8
}

/// The high byte of a 16-bit word.
pub open spec fn word_hi(v: u16) -> u8 {
    (v / 256) as u8
}

/// A 16-bit word from its little-endian bytes.
pub open spec fn make_word(lo: u8, hi: u8) -> u16 {
    (lo + 256 * hi) as u16
}

/// The programmer-visible processor state that the step semantics speak
/// about.
pub ghost struct CpuModel {
    pub a: u8,
    pub x: u8,
    pub y: u8,
    pub flags: FlagRegister,
    pub stack: u8,
    pub instruction_pointer: u16,
    pub operand: u8,
    pub bus: Bus,
    pub effective_address: EffectiveAddress,
    pub queue: Seq<Cycle>,
    pub halted: bool,
}

/// The value a general-purpose register holds.
pub open spec fn spec_reg(m: CpuModel, r: GeneralPurposeRegister) -> u8 {
    match r {
        GeneralPurposeRegister::A => m.a,
        GeneralPurposeRegister::X => m.x,
        GeneralPurposeRegister::Y => m.y,
    }
}

/// The model with one register replaced.
pub open spec fn spec_set_reg(m: CpuModel, r: GeneralPurposeRegister, v: u8) -> CpuModel {
    match r {
        GeneralPurposeRegister::A => CpuModel { a: v, ..m },
        GeneralPurposeRegister::X => CpuModel { x: v, ..m },
        GeneralPurposeRegister::Y => CpuModel { y: v, ..m },
    }
}

/// Negative and zero recomputed from a byte.
pub open spec fn spec_nz(f: FlagRegister, v: u8) -> FlagRegister {
    FlagRegister { negative: v >= 128, zero: v == 0, ..f }
}

/// The one-cycle fix-up queued when pointer arithmetic carries out of the
/// low byte.
pub open spec fn spec_carry_cycle(register: PointerLikeRegister, carry: i8) -> Cycle {
    Cycle {
        bus_mode: BusMode::Read,
        phi1: None,
        phi2: StepList::One(Phi2::AddCarryToPointerLikeRegister { register, carry }),
    }
}

/// What a move step reads.
pub open spec fn spec_move_value(m: CpuModel, source: MoveSource) -> u8 {
    match source {
        MoveSource::Register { register } => spec_reg(m, register),
        MoveSource::Operand => m.operand,
        MoveSource::Stack => m.stack,
        MoveSource::Data => m.bus.data,
        MoveSource::Constant(v) => v,
        MoveSource::Flags { break_ } => spec_flags_to_byte(m.flags, break_),
        MoveSource::InstructionPointer { offset } => if offset == 0 {
            word_lo(m.instruction_pointer)
        } else {
            word_hi(m.instruction_pointer)
        },
    }
}

/// The exact effect of one phase-2 step on the programmer-visible state.
///
/// The one step not covered here is a move into the opcode register: that
/// step decodes and queues an instruction expansion, and its contract is
/// stated separately over the expansion tables.  For that case this
/// function returns the state unchanged.
///
/// Kept opaque so that composed applications stay small; reveal it to
/// reason about a single step.
#[verifier::opaque]
pub open spec fn spec_apply_step(m: CpuModel, step: Phi2, kind: Mos6502Kind) -> CpuModel {
    match step {
        Phi2::Move { source, destination } => {
            let value = spec_move_value(m, source);
            match destination {
                MoveDestination::Register { register, update_nz } => {
                    let m1 = spec_set_reg(m, register, value);
                    if update_nz {
                        CpuModel { flags: spec_nz(m.flags, value), ..m1 }
                    } else {
                        m1
                    }
                },
                MoveDestination::Operand => CpuModel { operand: value, ..m },
                MoveDestination::Stack => CpuModel { stack: value, ..m },
                MoveDestination::EffectiveAddress => CpuModel {
                    effective_address: spec_eff_push(m.effective_address, value),
                    ..m
                },
                MoveDestination::Data => CpuModel { bus: Bus { data: value, ..m.bus }, ..m },
                MoveDestination::Flags => CpuModel { flags: spec_flags_from_byte(value), ..m },
                MoveDestination::Opcode => m,
            }
        },
        Phi2::SetFlag { flag, value } => {
            let f = m.flags;
            let nf = match flag {
                Flag::Carry => FlagRegister { carry: value, ..f },
                Flag::Zero => FlagRegister { zero: value, ..f },
                Flag::Overflow => FlagRegister { overflow: value, ..f },
                Flag::Negative => FlagRegister { negative: value, ..f },
                Flag::Decimal => FlagRegister { decimal: value, ..f },
                Flag::InterruptDisable => FlagRegister { interrupt_disable: value, ..f },
            };
            CpuModel { flags: nf, ..m }
        },
        Phi2::Increment { operand, subtract } => {
            let t = match operand {
                IncrementOperand::X => m.x,
                IncrementOperand::Y => m.y,
                IncrementOperand::Operand => m.operand,
            };
            let nv = if subtract {
                ((t + 255) % 256) as u8
            } else {
                ((t + 1) % 256) as u8
            };
            let m1 = match operand {
                IncrementOperand::X => CpuModel { x: nv, ..m },
                IncrementOperand::Y => CpuModel { y: nv, ..m },
                IncrementOperand::Operand => CpuModel { operand: nv, ..m },
            };
            CpuModel { flags: spec_nz(m.flags, nv), ..m1 }
        },
        Phi2::Compare { register } => {
            let value = spec_reg(m, register);
            let result = ((value + 256 - m.operand) % 256) as u8;
            CpuModel {
                flags: FlagRegister {
                    carry: value >= m.operand,
                    zero: result == 0,
                    negative: result >= 128,
                    ..m.flags
                },
                ..m
            }
        },
        Phi2::IncrementStack { subtract } => {
            let nv = if subtract {
                ((m.stack + 255) % 256) as u8
            } else {
                ((m.stack + 1) % 256) as u8
            };
            CpuModel { stack: nv, ..m }
        },
        Phi2::Add { invert_operand } => {
            let op = if invert_operand {
                !m.operand
            } else {
                m.operand
            };
            let total = m.a + op + (if m.flags.carry {
                1int
            } else {
                0int
            });
            let result = (total % 256) as u8;
            CpuModel {
                a: result,
                flags: FlagRegister {
                    overflow: (m.a & 0x80) == (op & 0x80) && (m.a & 0x80) != (result & 0x80),
                    carry: total >= 256,
                    negative: result >= 128,
                    zero: result == 0,
                    ..m.flags
                },
                ..m
            }
        },
        Phi2::And { writeback } => {
            let result = m.a & m.operand;
            if writeback {
                CpuModel {
                    a: result,
                    flags: FlagRegister {
                        zero: result == 0,
                        negative: result >= 128,
                        ..m.flags
                    },
                    ..m
                }
            } else {
                CpuModel {
                    flags: FlagRegister {
                        zero: result == 0,
                        negative: m.operand >= 128,
                        overflow: (m.operand & 0x40) != 0,
                        ..m.flags
                    },
                    ..m
                }
            }
        },
        Phi2::Or => {
            let result = m.a | m.operand;
            CpuModel {
                a: result,
                flags: FlagRegister { zero: result == 0, negative: result >= 128, ..m.flags },
                ..m
            }
        },
        Phi2::Xor => {
            let result = m.a ^ m.operand;
            CpuModel {
                a: result,
                flags: FlagRegister { zero: result == 0, negative: result >= 128, ..m.flags },
                ..m
            }
        },
        Phi2::Shift { direction, rotate, a_is_operand } => {
            let t = if a_is_operand {
                m.a
            } else {
                m.operand
            };
            let shift_in: u8 = if rotate && m.flags.carry {
                1
            } else {
                0
            };
            let out_bit = match direction {
                ShiftDirection::Left => (t & 0x80) != 0,
                ShiftDirection::Right => (t & 0x01) != 0,
            };
            let nv = match direction {
                ShiftDirection::Left => ((t * 2 + shift_in) % 256) as u8,
                ShiftDirection::Right => (t / 2 + shift_in * 128) as u8,
            };
            let m1 = if a_is_operand {
                CpuModel { a: nv, ..m }
            } else {
                CpuModel { operand: nv, ..m }
            };
            CpuModel {
                flags: FlagRegister {
                    carry: out_bit,
                    zero: nv == 0,
                    negative: nv >= 128,
                    ..m.flags
                },
                ..m1
            }
        },
        Phi2::IncrementInstructionPointer => CpuModel {
            instruction_pointer: ((m.instruction_pointer + 1) % 0x10000) as u16,
            ..m
        },
        Phi2::AddToPointerLikeRegister {
            insert_adjustment_cycle_upon_carry,
            interpretation,
            source,
            destination,
        } => {
            let value = match source {
                AddToPointerLikeRegisterSource::Register(register) => spec_reg(m, register),
                AddToPointerLikeRegisterSource::Constant(v) => v,
                AddToPointerLikeRegisterSource::Operand => m.operand,
            };
            let address = match destination {
                PointerLikeRegister::AddressBus => m.bus.address,
                PointerLikeRegister::EffectiveAddress => spec_eff_address(m.effective_address),
                PointerLikeRegister::InstructionPointer => m.instruction_pointer,
            };
            let signed_value: int = match interpretation {
                ArithmeticOperandInterpretation::Unsigned => value as int,
                ArithmeticOperandInterpretation::Signed => if value >= 128 {
                    value - 256
                } else {
                    value as int
                },
            };
            let result = ((address + signed_value) % 0x10000) as u16;
            let carried = word_hi(result) != word_hi(address);
            let carry: i8 = if signed_value < 0 {
                -1i8
            } else {
                1i8
            };
            // The high byte stays stale; a queued fix-up cycle corrects it,
            // so peripherals observe the spurious in-between address.
            let patched = make_word(word_lo(result), word_hi(address));
            let m1 = match destination {
                PointerLikeRegister::AddressBus => CpuModel {
                    bus: Bus { address: patched, ..m.bus },
                    ..m
                },
                PointerLikeRegister::InstructionPointer => CpuModel {
                    instruction_pointer: patched,
                    ..m
                },
                PointerLikeRegister::EffectiveAddress => CpuModel {
                    effective_address: match m.effective_address {
                        EffectiveAddress::Empty => EffectiveAddress::Empty,
                        EffectiveAddress::One(_) => EffectiveAddress::One(word_lo(result)),
                        EffectiveAddress::Two(_, _) => EffectiveAddress::Two(
                            word_lo(result),
                            word_hi(address),
                        ),
                    },
                    ..m
                },
            };
            if carried && insert_adjustment_cycle_upon_carry {
                CpuModel { queue: seq![spec_carry_cycle(destination, carry)] + m1.queue, ..m1 }
            } else {
                m1
            }
        },
        Phi2::AddCarryToPointerLikeRegister { register, carry } => {
            let address = match register {
                PointerLikeRegister::AddressBus => m.bus.address,
                PointerLikeRegister::EffectiveAddress => spec_eff_address(m.effective_address),
                PointerLikeRegister::InstructionPointer => m.instruction_pointer,
            };
            let new_high = ((word_hi(address) + carry + 256) % 256) as u8;
            let patched = make_word(word_lo(address), new_high);
            match register {
                PointerLikeRegister::AddressBus => CpuModel {
                    bus: Bus { address: patched, ..m.bus },
                    ..m
                },
                PointerLikeRegister::InstructionPointer => CpuModel {
                    instruction_pointer: patched,
                    ..m
                },
                PointerLikeRegister::EffectiveAddress => CpuModel {
                    effective_address: match m.effective_address {
                        EffectiveAddress::Empty => EffectiveAddress::Empty,
                        EffectiveAddress::One(lo) => EffectiveAddress::One(lo),
                        EffectiveAddress::Two(lo, _) => EffectiveAddress::Two(lo, new_high),
                    },
                    ..m
                },
            }
        },
        Phi2::LoadInstructionPointerFromEffectiveAddress => {
            let target = match m.effective_address {
                EffectiveAddress::Empty => m.instruction_pointer,
                EffectiveAddress::One(lo) => lo as u16,
                EffectiveAddress::Two(lo, hi) => make_word(lo, hi),
            };
            CpuModel {
                instruction_pointer: target,
                effective_address: EffectiveAddress::Empty,
                ..m
            }
        },
    }
}

/// Running a whole step list in order.
pub open spec fn spec_run_list(m: CpuModel, steps: StepList, kind: Mos6502Kind) -> CpuModel {
    match steps {
        StepList::Empty => m,
        StepList::One(s0) => spec_apply_step(m, s0, kind),
        StepList::Two(s0, s1) => spec_apply_step(spec_apply_step(m, s0, kind), s1, kind),
        StepList::Three(s0, s1, s2) => spec_apply_step(
            spec_apply_step(spec_apply_step(m, s0, kind), s1, kind),
            s2,
            kind,
        ),
    }
}

/// Whether a step list contains a decode (a move into the opcode register).
pub open spec fn spec_list_has_decode(steps: StepList) -> bool {
    exists|i: int|
        0 <= i < steps.seq().len() && (#[trigger] steps.seq()[i]) matches Phi2::Move {
            destination: MoveDestination::Opcode,
            ..
        }
}

/// The phase-1 effect: the chosen source drives the address bus; driving
/// it from the effective address consumes that register.
pub open spec fn spec_apply_phi1(m: CpuModel, phi1: Option<Phi1>) -> CpuModel {
    match phi1 {
        None => m,
        Some(Phi1::SetAddressBus { source }) => match source {
            SetAddressBusSource::InstructionPointer => CpuModel {
                bus: Bus { address: m.instruction_pointer, ..m.bus },
                ..m
            },
            SetAddressBusSource::EffectiveAddress => CpuModel {
                bus: Bus { address: spec_eff_address(m.effective_address), ..m.bus },
                effective_address: EffectiveAddress::Empty,
                ..m
            },
            SetAddressBusSource::Constant(value) => CpuModel {
                bus: Bus { address: value, ..m.bus },
                ..m
            },
            SetAddressBusSource::Stack => CpuModel {
                bus: Bus { address: (m.stack as u16) | STACK_BASE_ADDRESS, ..m.bus },
                ..m
            },
        },
    }
}

/// The cycle one step executes: the queue's head, or a synthesized fetch.
pub open spec fn spec_current_cycle(m: CpuModel) -> Cycle {
    if m.queue.len() == 0 {
        spec_fetch_cycle()
    } else {
        m.queue[0]
    }
}

/// The state after the cycle left the queue.
pub open spec fn spec_after_pop(m: CpuModel) -> CpuModel {
    if m.queue.len() == 0 {
        m
    } else {
        CpuModel { queue: m.queue.drop_first(), ..m }
    }
}

/// What a bus read returns: the dispatched byte, or zero where nothing
/// (or an unserved I/O handler) answers — the open-bus policy.
pub open spec fn spec_open_bus_read(memory: AddressSpace, address: u16) -> u8 {
    match memory.spec_read8(address as int) {
        Ok(v) => v,
        Err(_) => 0,
    }
}

/// The cycle synthesized when the queue is empty: fetch the next opcode at
/// the instruction pointer, step past it, and decode.
pub open spec fn spec_fetch_cycle() -> Cycle {
    Cycle {
        bus_mode: BusMode::Read,
        phi1: Some(Phi1::SetAddressBus { source: SetAddressBusSource::InstructionPointer }),
        phi2: StepList::Two(
            Phi2::IncrementInstructionPointer,
            Phi2::Move { source: MoveSource::Data, destination: MoveDestination::Opcode },
        ),
    }
}

/// The six-cycle sequence that serves an interrupt: a dummy fetch, the
/// program counter pushed high byte first, the flags pushed with the break
/// mark clear, then the handler address read from the vector.
pub open spec fn spec_interrupt_sequence(vector: u16) -> Seq<Cycle> {
    seq![
        Cycle {
            bus_mode: BusMode::Read,
            phi1: Some(Phi1::SetAddressBus { source: SetAddressBusSource::InstructionPointer }),
            phi2: StepList::Empty,
        },
        Cycle {
            bus_mode: BusMode::Write,
            phi1: Some(Phi1::SetAddressBus { source: SetAddressBusSource::Stack }),
            phi2: StepList::Two(
                Phi2::Move {
                    source: MoveSource::InstructionPointer { offset: 1 },
                    destination: MoveDestination::Data,
                },
                Phi2::IncrementStack { subtract: true },
            ),
        },
        Cycle {
            bus_mode: BusMode::Write,
            phi1: Some(Phi1::SetAddressBus { source: SetAddressBusSource::Stack }),
            phi2: StepList::Two(
                Phi2::Move {
                    source: MoveSource::InstructionPointer { offset: 0 },
                    destination: MoveDestination::Data,
                },
                Phi2::IncrementStack { subtract: true },
            ),
        },
        Cycle {
            bus_mode: BusMode::Write,
            phi1: Some(Phi1::SetAddressBus { source: SetAddressBusSource::Stack }),
            phi2: StepList::Two(
                Phi2::Move {
                    source: MoveSource::Flags { break_: false },
                    destination: MoveDestination::Data,
                },
                Phi2::IncrementStack { subtract: true },
            ),
        },
        Cycle {
            bus_mode: BusMode::Read,
            phi1: Some(Phi1::SetAddressBus { source: SetAddressBusSource::Constant(vector) }),
            phi2: StepList::One(
                Phi2::Move { source: MoveSource::Data, destination: MoveDestination::EffectiveAddress },
            ),
        },
        Cycle {
            bus_mode: BusMode::Read,
            phi1: Some(Phi1::SetAddressBus {
                source: SetAddressBusSource::Constant((vector + 1) as u16),
            }),
            phi2: StepList::Two(
                Phi2::Move { source: MoveSource::Data, destination: MoveDestination::EffectiveAddress },
                Phi2::LoadInstructionPointerFromEffectiveAddress,
            ),
        },
    ]
}

/// The six-cycle reset sequence: two dummy reads, the stack pointer forced
/// to `0xfd`, the flags forced to `interrupt_disable` alone, then the
/// program counter read from the reset vector.
pub open spec fn spec_reset_sequence() -> Seq<Cycle> {
    seq![
        Cycle { bus_mode: BusMode::Read, phi1: None, phi2: StepList::Empty },
        Cycle { bus_mode: BusMode::Read, phi1: None, phi2: StepList::Empty },
        Cycle {
            bus_mode: BusMode::Read,
            phi1: None,
            phi2: StepList::One(
                Phi2::Move { source: MoveSource::Constant(0xfd), destination: MoveDestination::Stack },
            ),
        },
        Cycle {
            bus_mode: BusMode::Read,
            phi1: None,
            phi2: StepList::One(
                Phi2::Move {
                    source: MoveSource::Constant(0x24),
                    destination: MoveDestination::Flags,
                },
            ),
        },
        Cycle {
            bus_mode: BusMode::Read,
            phi1: Some(Phi1::SetAddressBus { source: SetAddressBusSource::Constant(RESET_VECTOR) }),
            phi2: StepList::One(
                Phi2::Move { source: MoveSource::Data, destination: MoveDestination::EffectiveAddress },
            ),
        },
        Cycle {
            bus_mode: BusMode::Read,
            phi1: Some(Phi1::SetAddressBus {
                source: SetAddressBusSource::Constant((RESET_VECTOR + 1) as u16),
            }),
            phi2: StepList::Two(
                Phi2::Move { source: MoveSource::Data, destination: MoveDestination::EffectiveAddress },
                Phi2::LoadInstructionPointerFromEffectiveAddress,
            ),
        },
    ]
}

/// Which interrupt, if any, the poll after a cycle takes: polling happens
/// only with an empty queue on a kind that has interrupt inputs; the
/// non-maskable edge wins over the level line, and only the level line is
/// gated by the interrupt-disable flag.
pub open spec fn spec_interrupt_vector(
    kind: Mos6502Kind,
    queue_len: int,
    nmi: NmiFlag,
    irq: IrqFlag,
    flags: FlagRegister,
) -> Option<u16> {
    if kind is Mos6507 || queue_len > 0 {
        None
    } else if nmi.falling_edge_occurred {
        Some(NMI_VECTOR)
    } else if !irq.stored && !flags.interrupt_disable {
        Some(IRQ_VECTOR)
    } else {
        None
    }
}

/// The maskable interrupt is suppressed exactly while the
/// interrupt-disable flag is set; the non-maskable edge is served
/// regardless of that flag.
pub proof fn lemma_irq_masked_nmi_unmasked(
    kind: Mos6502Kind,
    nmi: NmiFlag,
    irq: IrqFlag,
    flags: FlagRegister,
)
    requires
        !(kind is Mos6507),
    ensures
        flags.interrupt_disable && !nmi.falling_edge_occurred ==> spec_interrupt_vector(
            kind,
            0,
            nmi,
            irq,
            flags,
        ) is None,
        nmi.falling_edge_occurred ==> spec_interrupt_vector(kind, 0, nmi, irq, flags) == Some(
            NMI_VECTOR,
        ),
        !flags.interrupt_disable && !irq.stored ==> spec_interrupt_vector(
            kind,
            0,
            nmi,
            irq,
            flags,
        ) is Some,
{
}

/// The whole effect of one call of the cycle interpreter, as a relation
/// between the programmer-visible state, the non-maskable latch, and the
/// address space before and after: a halted processor does nothing; a low
/// ready line freezes a read cycle (re-queuing a popped cycle, or leaving
/// the synthesized fetch pending); otherwise the popped or synthesized
/// cycle drives the address, a read fetches the bus byte (open bus reads
/// as zero), the phase-2 steps run in order, a write stores the bus byte,
/// and the poll serves a pending interrupt once the queue has drained.
///
/// Kept opaque so that chains of steps stay small; reveal it to reason
/// about a single step.
#[verifier::opaque]
pub open spec fn spec_cycle_rel(
    pre: CpuModel,
    pre_nmi: NmiFlag,
    mem_pre: AddressSpace,
    post: CpuModel,
    post_nmi: NmiFlag,
    mem_post: AddressSpace,
    rdy: bool,
    irq: IrqFlag,
    kind: Mos6502Kind,
) -> bool {
    let cyc = spec_current_cycle(pre);
    let m0 = spec_after_pop(pre);
    let m1 = spec_apply_phi1(m0, cyc.phi1);
    let data = spec_open_bus_read(mem_pre, m1.bus.address);
    let m2 = if cyc.bus_mode is Read {
        CpuModel { bus: Bus { data, ..m1.bus }, ..m1 }
    } else {
        m1
    };
    let proceed = rdy || !(cyc.bus_mode is Read);
    &&& (pre.halted ==> post == pre && post_nmi == pre_nmi && mem_post == mem_pre)
    &&& (!pre.halted && !proceed ==> {
        &&& post == (CpuModel {
            bus: m2.bus,
            effective_address: m1.effective_address,
            queue: if pre.queue.len() == 0 {
                seq![spec_fetch_cycle()]
            } else {
                pre.queue
            },
            ..pre
        })
        &&& post_nmi == pre_nmi
        &&& mem_post == mem_pre
    })
    &&& (!pre.halted && proceed && !spec_list_has_decode(cyc.phi2) ==> {
        let m3 = spec_run_list(m2, cyc.phi2, kind);
        &&& (cyc.bus_mode is Read ==> mem_post == mem_pre)
        &&& (cyc.bus_mode is Write ==> AddressSpace::spec_wrote8(
            mem_pre,
            mem_post,
            m3.bus.address as int,
            m3.bus.data,
            mem_pre.spec_write_result(m3.bus.address as int),
        ))
        &&& (m3.halted ==> post == m3 && post_nmi == pre_nmi)
        &&& (!m3.halted ==> {
            let polled = !(kind is Mos6507) && m3.queue.len() == 0;
            let vector = spec_interrupt_vector(kind, m3.queue.len() as int, pre_nmi, irq, m3.flags);
            &&& post_nmi == (if polled {
                spec_nmi_consume(pre_nmi).1
            } else {
                pre_nmi
            })
            &&& post == (CpuModel {
                queue: match vector {
                    Some(v) => spec_interrupt_sequence(v),
                    None => m3.queue,
                },
                ..m3
            })
        })
    })
    &&& (!pre.halted && proceed && cyc.bus_mode is Read && cyc.phi2 == (StepList::Two(
        Phi2::IncrementInstructionPointer,
        Phi2::Move { source: MoveSource::Data, destination: MoveDestination::Opcode },
    )) ==> {
        &&& mem_post == mem_pre
        &&& post_nmi == pre_nmi
        &&& crate::instruction::spec_expanded(
            spec_apply_step(m2, Phi2::IncrementInstructionPointer, kind),
            post,
            spec_decode(data, kind),
            kind,
        )
    })
}

/// `n` cycle-interpreter steps chained in order.
pub open spec fn spec_cycles_rel_n(
    pre: CpuModel,
    pre_nmi: NmiFlag,
    mem_pre: AddressSpace,
    post: CpuModel,
    post_nmi: NmiFlag,
    mem_post: AddressSpace,
    n: nat,
    rdy: bool,
    irq: IrqFlag,
    kind: Mos6502Kind,
) -> bool
    decreases n,
{
    if n == 0 {
        post == pre && post_nmi == pre_nmi && mem_post == mem_pre
    } else {
        exists|mid: CpuModel, mid_nmi: NmiFlag, mem_mid: AddressSpace|
            #![trigger spec_cycle_rel(mid, mid_nmi, mem_mid, post, post_nmi, mem_post, rdy, irq, kind)]
            {
                &&& spec_cycles_rel_n(
                    pre,
                    pre_nmi,
                    mem_pre,
                    mid,
                    mid_nmi,
                    mem_mid,
                    (n - 1) as nat,
                    rdy,
                    irq,
                    kind,
                )
                &&& spec_cycle_rel(mid, mid_nmi, mem_mid, post, post_nmi, mem_post, rdy, irq, kind)
            }
    }
}

/// A chain of `n` steps followed by one more step is a chain of `n + 1`.
proof fn lemma_cycles_rel_snoc(
    pre: CpuModel,
    pre_nmi: NmiFlag,
    mem_pre: AddressSpace,
    mid: CpuModel,
    mid_nmi: NmiFlag,
    mem_mid: AddressSpace,
    post: CpuModel,
    post_nmi: NmiFlag,
    mem_post: AddressSpace,
    n: nat,
    rdy: bool,
    irq: IrqFlag,
    kind: Mos6502Kind,
)
    requires
        spec_cycles_rel_n(pre, pre_nmi, mem_pre, mid, mid_nmi, mem_mid, n, rdy, irq, kind),
        spec_cycle_rel(mid, mid_nmi, mem_mid, post, post_nmi, mem_post, rdy, irq, kind),
    ensures
        spec_cycles_rel_n(pre, pre_nmi, mem_pre, post, post_nmi, mem_post, n + 1, rdy, irq, kind),
{
    reveal_with_fuel(spec_cycles_rel_n, 3);
    assert(spec_cycles_rel_n(
        pre,
        pre_nmi,
        mem_pre,
        mid,
        mid_nmi,
        mem_mid,
        ((n + 1) - 1) as nat,
        rdy,
        irq,
        kind,
    ));
    assert(spec_cycle_rel(mid, mid_nmi, mem_mid, post, post_nmi, mem_post, rdy, irq, kind));
}

/// Configuration a processor is built from.
#[derive(Clone, Copy, PartialEq, Eq, Structural, Debug)]
pub struct Mos6502Config {
    pub frequency: Frequency,
    pub assigned_address_space: AddressSpaceId,
    pub kind: Mos6502Kind,
    pub broken_ror: bool,
}

/// The processor.
#[derive(Debug)]
pub struct Mos6502 {
    pub a: u8,
    pub x: u8,
    pub y: u8,
    pub flags: FlagRegister,
    pub stack: u8,
    pub instruction_pointer: u16,
    pub instruction_queue: VecDeque<Cycle>,
    pub bus: Bus,
    pub effective_address: EffectiveAddress,
    pub operand: u8,
    pub halted: bool,
    pub rdy: RdyFlag,
    pub irq: IrqFlag,
    pub nmi: NmiFlag,
    pub config: Mos6502Config,
    pub address_space_cache: AddressSpaceCache,
    pub timestamp: Period,
    pub period: Period,
}

/// The bookkeeping fields that the cycle interpreter never touches.
pub open spec fn frame_unchanged(pre: Mos6502, post: Mos6502) -> bool {
    &&& post.config == pre.config
    &&& post.timestamp == pre.timestamp
    &&& post.period == pre.period
    &&& post.rdy == pre.rdy
    &&& post.irq == pre.irq
}

/// The frame plus the two fields only specific phases touch.
pub open spec fn interpreter_frame(pre: Mos6502, post: Mos6502) -> bool {
    &&& frame_unchanged(pre, post)
    &&& post.nmi == pre.nmi
    &&& post.address_space_cache == pre.address_space_cache
}

/// All programmer-visible state except the cycle queue and the halt mark.
pub open spec fn regs_unchanged(pre: Mos6502, post: Mos6502) -> bool {
    &&& post.a == pre.a
    &&& post.x == pre.x
    &&& post.y == pre.y
    &&& post.flags == pre.flags
    &&& post.stack == pre.stack
    &&& post.instruction_pointer == pre.instruction_pointer
    &&& post.operand == pre.operand
    &&& post.bus == pre.bus
    &&& post.effective_address == pre.effective_address
}

impl Mos6502 {
    /// The programmer-visible state.
    pub open spec fn model(self) -> CpuModel {
        CpuModel {
            a: self.a,
            x: self.x,
            y: self.y,
            flags: self.flags,
            stack: self.stack,
            instruction_pointer: self.instruction_pointer,
            operand: self.operand,
            bus: self.bus,
            effective_address: self.effective_address,
            queue: self.instruction_queue@,
            halted: self.halted,
        }
    }

    /// The address space this processor is wired to.
    pub fn address_space(&self) -> (r: AddressSpaceId)
        ensures
            r == self.config.assigned_address_space,
    {
        self.config.assigned_address_space
    }

    /// The 16-bit address currently held by the effective-address register.
    fn eff_address16(&self) -> (r: u16)
        ensures
            r == spec_eff_address(self.effective_address),
    {
        match self.effective_address {
            EffectiveAddress::Empty => 0,
            EffectiveAddress::One(lo) => lo as u16,
            EffectiveAddress::Two(lo, hi) => (lo as u16) + 256 * (hi as u16),
        }
    }

    /// Runs phase 1 of a cycle: drives the address bus.
    fn apply_phi1(&mut self, phi1: Option<Phi1>)
        ensures
            final(self).model() == spec_apply_phi1(old(self).model(), phi1),
            frame_unchanged(*old(self), *final(self)),
            final(self).nmi == old(self).nmi,
            final(self).address_space_cache == old(self).address_space_cache,
    {
        match phi1 {
            None => {},
            Some(Phi1::SetAddressBus { source }) => {
                match source {
                    SetAddressBusSource::InstructionPointer => {
                        self.bus.address = self.instruction_pointer;
                    },
                    SetAddressBusSource::EffectiveAddress => {
                        self.bus.address = self.eff_address16();
                        self.effective_address = EffectiveAddress::Empty;
                    },
                    SetAddressBusSource::Constant(value) => {
                        self.bus.address = value;
                    },
                    SetAddressBusSource::Stack => {
                        self.bus.address = (self.stack as u16) | STACK_BASE_ADDRESS;
                    },
                }
            },
        }
    }
}


impl Mos6502 {

    /// One byte move: reads the source, stores to the destination; a move
    /// into the opcode register decodes and queues the next expansion.
    #[verifier::rlimit(100)]
    fn step_move(&mut self, source: MoveSource, destination: MoveDestination)
        ensures
            frame_unchanged(*old(self), *final(self)),
            final(self).nmi == old(self).nmi,
            final(self).address_space_cache == old(self).address_space_cache,
            !(destination is Opcode) ==> final(self).model() == spec_apply_step(
                old(self).model(),
                Phi2::Move { source, destination },
                old(self).config.kind,
            ),
            destination is Opcode ==> crate::instruction::spec_expanded(
                old(self).model(),
                final(self).model(),
                spec_decode(old(self).bus.data, old(self).config.kind),
                old(self).config.kind,
            ),
    {
        proof {
            reveal(spec_apply_step);
        }
        let value: u8 = match source {
            MoveSource::Register { register } => match register {
                GeneralPurposeRegister::A => self.a,
                GeneralPurposeRegister::X => self.x,
                GeneralPurposeRegister::Y => self.y,
            },
            MoveSource::Operand => self.operand,
            MoveSource::Stack => self.stack,
            MoveSource::Data => self.bus.data,
            MoveSource::Constant(v) => v,
            MoveSource::Flags { break_ } => self.flags.to_byte(break_),
            MoveSource::InstructionPointer { offset } => if offset == 0 {
                (self.instruction_pointer % 256) as u8
            } else {
                (self.instruction_pointer / 256) as u8
            },
        };
        match destination {
            MoveDestination::Register { register, update_nz } => {
                if update_nz {
                    self.flags.negative = value >= 128;
                    self.flags.zero = value == 0;
                }
                match register {
                    GeneralPurposeRegister::A => {
                        self.a = value;
                    },
                    GeneralPurposeRegister::X => {
                        self.x = value;
                    },
                    GeneralPurposeRegister::Y => {
                        self.y = value;
                    },
                }
            },
            MoveDestination::Operand => {
                self.operand = value;
            },
            MoveDestination::Stack => {
                self.stack = value;
            },
            MoveDestination::EffectiveAddress => {
                self.effective_address = match self.effective_address {
                    EffectiveAddress::Empty => EffectiveAddress::One(value),
                    EffectiveAddress::One(lo) => EffectiveAddress::Two(lo, value),
                    EffectiveAddress::Two(lo, hi) => EffectiveAddress::Two(lo, hi),
                };
            },
            MoveDestination::Data => {
                self.bus.data = value;
            },
            MoveDestination::Flags => {
                self.flags = FlagRegister::from_byte(value);
            },
            MoveDestination::Opcode => {
                let instruction = decode(self.bus.data, self.config.kind);
                self.push_steps_for_instruction(&instruction);
            },
        }
    }

    /// One shift or rotate on the accumulator or the scratch operand.
    #[verifier::rlimit(60)]
    fn step_shift(&mut self, direction: ShiftDirection, rotate: bool, a_is_operand: bool)
        ensures
            frame_unchanged(*old(self), *final(self)),
            final(self).nmi == old(self).nmi,
            final(self).address_space_cache == old(self).address_space_cache,
            final(self).model() == spec_apply_step(
                old(self).model(),
                Phi2::Shift { direction, rotate, a_is_operand },
                old(self).config.kind,
            ),
    {
        proof {
            reveal(spec_apply_step);
        }
        let t: u8 = if a_is_operand {
            self.a
        } else {
            self.operand
        };
        let shift_in: u8 = if rotate && self.flags.carry {
            1
        } else {
            0
        };
        let out_bit: bool;
        let nv: u8;
        match direction {
            ShiftDirection::Left => {
                out_bit = (t & 0x80) != 0;
                nv = (((t as u16) * 2 + (shift_in as u16)) % 256) as u8;
            },
            ShiftDirection::Right => {
                out_bit = (t & 0x01) != 0;
                nv = t / 2 + shift_in * 128;
            },
        }
        if a_is_operand {
            self.a = nv;
        } else {
            self.operand = nv;
        }
        self.flags.carry = out_bit;
        self.flags.zero = nv == 0;
        self.flags.negative = nv >= 128;
    }


    /// The 16-bit sum of a pointer and a byte addend, wrapped; a negative
    /// addend is the byte taken as two's complement.
    fn pointer_add(address: u16, value: u8, negative: bool) -> (r: u16)
        ensures
            r as int == (address + (if negative {
                value - 256
            } else {
                value as int
            })) % 0x10000,
    {
        if negative {
            let r: u16 = ((((address as u32) + 0x10000) - (256 - (value as u32)))
                % 0x10000) as u16;
            proof {
                vstd::arithmetic::div_mod::lemma_mod_add_multiples_vanish(
                    address + (value - 256),
                    0x10000,
                );
            }
            r
        } else {
            (((address as u32) + (value as u32)) % 0x10000) as u16
        }
    }

    /// A low-byte pointer addition; the high byte stays stale and a fix-up
    /// cycle is queued at the front when the low byte carried.
    #[verifier::rlimit(100)]
    fn step_add_to_pointer(
        &mut self,
        insert_adjustment_cycle_upon_carry: bool,
        interpretation: ArithmeticOperandInterpretation,
        source: AddToPointerLikeRegisterSource,
        destination: PointerLikeRegister,
    )
        ensures
            frame_unchanged(*old(self), *final(self)),
            final(self).nmi == old(self).nmi,
            final(self).address_space_cache == old(self).address_space_cache,
            final(self).model() == spec_apply_step(
                old(self).model(),
                Phi2::AddToPointerLikeRegister {
                    insert_adjustment_cycle_upon_carry,
                    interpretation,
                    source,
                    destination,
                },
                old(self).config.kind,
            ),
    {
        proof {
            reveal(spec_apply_step);
        }
        let value: u8 = match source {
            AddToPointerLikeRegisterSource::Register(register) => match register {
                GeneralPurposeRegister::A => self.a,
                GeneralPurposeRegister::X => self.x,
                GeneralPurposeRegister::Y => self.y,
            },
            AddToPointerLikeRegisterSource::Constant(v) => v,
            AddToPointerLikeRegisterSource::Operand => self.operand,
        };
        let address: u16 = match destination {
            PointerLikeRegister::AddressBus => self.bus.address,
            PointerLikeRegister::EffectiveAddress => self.eff_address16(),
            PointerLikeRegister::InstructionPointer => self.instruction_pointer,
        };
        let negative = matches!(
            interpretation,
            ArithmeticOperandInterpretation::Signed,
        ) && value >= 128;
        let result: u16 = Self::pointer_add(address, value, negative);
        let carried = result / 256 != address / 256;
        let carry: i8 = if negative {
            -1i8
        } else {
            1i8
        };
        let patched: u16 = (result % 256) + 256 * (address / 256);
        match destination {
            PointerLikeRegister::AddressBus => {
                self.bus.address = patched;
            },
            PointerLikeRegister::InstructionPointer => {
                self.instruction_pointer = patched;
            },
            PointerLikeRegister::EffectiveAddress => {
                self.effective_address = match self.effective_address {
                    EffectiveAddress::Empty => EffectiveAddress::Empty,
                    EffectiveAddress::One(_) => EffectiveAddress::One((result % 256) as u8),
                    EffectiveAddress::Two(_, _) => EffectiveAddress::Two(
                        (result % 256) as u8,
                        (address / 256) as u8,
                    ),
                };
            },
        }
        if carried && insert_adjustment_cycle_upon_carry {
            self.instruction_queue.push_front(
                Cycle {
                    bus_mode: BusMode::Read,
                    phi1: None,
                    phi2: StepList::One(
                        Phi2::AddCarryToPointerLikeRegister { register: destination, carry },
                    ),
                },
            );
            proof {
                assert(self.instruction_queue@ =~= seq![spec_carry_cycle(destination, carry)]
                    + old(self).instruction_queue@);
            }
        }
    }

    /// The queued fix-up: adds the pending carry into the high byte.
    #[verifier::rlimit(60)]
    fn step_add_carry(&mut self, register: PointerLikeRegister, carry: i8)
        ensures
            frame_unchanged(*old(self), *final(self)),
            final(self).nmi == old(self).nmi,
            final(self).address_space_cache == old(self).address_space_cache,
            final(self).model() == spec_apply_step(
                old(self).model(),
                Phi2::AddCarryToPointerLikeRegister { register, carry },
                old(self).config.kind,
            ),
    {
        proof {
            reveal(spec_apply_step);
        }
        let address: u16 = match register {
            PointerLikeRegister::AddressBus => self.bus.address,
            PointerLikeRegister::EffectiveAddress => self.eff_address16(),
            PointerLikeRegister::InstructionPointer => self.instruction_pointer,
        };
        let new_high: u8 = ((((address / 256) as i32) + (carry as i32) + 256) % 256) as u8;
        let patched: u16 = (address % 256) + 256 * (new_high as u16);
        match register {
            PointerLikeRegister::AddressBus => {
                self.bus.address = patched;
            },
            PointerLikeRegister::InstructionPointer => {
                self.instruction_pointer = patched;
            },
            PointerLikeRegister::EffectiveAddress => {
                self.effective_address = match self.effective_address {
                    EffectiveAddress::Empty => EffectiveAddress::Empty,
                    EffectiveAddress::One(lo) => EffectiveAddress::One(lo),
                    EffectiveAddress::Two(lo, _) => EffectiveAddress::Two(lo, new_high),
                };
            },
        }
    }

    /// Executes one phase-2 step.  Every step except a decode changes the
    /// state exactly as the step semantics say.
    fn apply_step(&mut self, step: Phi2)
        ensures
            frame_unchanged(*old(self), *final(self)),
            final(self).nmi == old(self).nmi,
            final(self).address_space_cache == old(self).address_space_cache,
            !(step matches Phi2::Move { destination: MoveDestination::Opcode, .. }) ==> final(self).model() == spec_apply_step(old(self).model(), step, old(self).config.kind),
            step matches Phi2::Move { destination: MoveDestination::Opcode, .. }
                ==> crate::instruction::spec_expanded(
                old(self).model(),
                final(self).model(),
                spec_decode(old(self).bus.data, old(self).config.kind),
                old(self).config.kind,
            ),
    {
        match step {
            Phi2::Move { source, destination } => {
                self.step_move(source, destination);
            },
            Phi2::SetFlag { flag, value } => {
                self.step_set_flag(flag, value);
            },
            Phi2::Increment { operand, subtract } => {
                self.step_increment(operand, subtract);
            },
            Phi2::Compare { register } => {
                self.step_compare(register);
            },
            Phi2::IncrementStack { subtract } => {
                self.step_increment_stack(subtract);
            },
            Phi2::Add { invert_operand } => {
                self.step_add(invert_operand);
            },
            Phi2::And { writeback } => {
                self.step_and(writeback);
            },
            Phi2::Or => {
                self.step_or();
            },
            Phi2::Xor => {
                self.step_xor();
            },
            Phi2::Shift { direction, rotate, a_is_operand } => {
                self.step_shift(direction, rotate, a_is_operand);
            },
            Phi2::IncrementInstructionPointer => {
                self.step_increment_ip();
            },
            Phi2::AddToPointerLikeRegister {
                insert_adjustment_cycle_upon_carry,
                interpretation,
                source,
                destination,
            } => {
                self.step_add_to_pointer(
                    insert_adjustment_cycle_upon_carry,
                    interpretation,
                    source,
                    destination,
                );
            },
            Phi2::AddCarryToPointerLikeRegister { register, carry } => {
                self.step_add_carry(register, carry);
            },
            Phi2::LoadInstructionPointerFromEffectiveAddress => {
                self.step_load_ip();
            },
        }
    }

    /// Sets one status flag.
    fn step_set_flag(&mut self, flag: Flag, value: bool)
        ensures
            frame_unchanged(*old(self), *final(self)),
            final(self).nmi == old(self).nmi,
            final(self).address_space_cache == old(self).address_space_cache,
            final(self).model() == spec_apply_step(
                old(self).model(),
                Phi2::SetFlag { flag, value },
                old(self).config.kind,
            ),
    {
        proof {
            reveal(spec_apply_step);
        }
        match flag {
            Flag::Carry => {
                self.flags.carry = value;
            },
            Flag::Zero => {
                self.flags.zero = value;
            },
            Flag::Overflow => {
                self.flags.overflow = value;
            },
            Flag::Negative => {
                self.flags.negative = value;
            },
            Flag::Decimal => {
                self.flags.decimal = value;
            },
            Flag::InterruptDisable => {
                self.flags.interrupt_disable = value;
            },
        }
    }

    /// Steps a register or the scratch operand by one, wrapping.
    fn step_increment(&mut self, operand: IncrementOperand, subtract: bool)
        ensures
            frame_unchanged(*old(self), *final(self)),
            final(self).nmi == old(self).nmi,
            final(self).address_space_cache == old(self).address_space_cache,
            final(self).model() == spec_apply_step(
                old(self).model(),
                Phi2::Increment { operand, subtract },
                old(self).config.kind,
            ),
    {
        proof {
            reveal(spec_apply_step);
        }
        let t: u8 = match operand {
            IncrementOperand::X => self.x,
            IncrementOperand::Y => self.y,
            IncrementOperand::Operand => self.operand,
        };
        let nv: u8 = if subtract {
            (((t as u16) + 255) % 256) as u8
        } else {
            (((t as u16) + 1) % 256) as u8
        };
        match operand {
            IncrementOperand::X => {
                self.x = nv;
            },
            IncrementOperand::Y => {
                self.y = nv;
            },
            IncrementOperand::Operand => {
                self.operand = nv;
            },
        }
        self.flags.negative = nv >= 128;
        self.flags.zero = nv == 0;
    }

    /// Compares a register against the scratch operand.
    fn step_compare(&mut self, register: GeneralPurposeRegister)
        ensures
            frame_unchanged(*old(self), *final(self)),
            final(self).nmi == old(self).nmi,
            final(self).address_space_cache == old(self).address_space_cache,
            final(self).model() == spec_apply_step(
                old(self).model(),
                Phi2::Compare { register },
                old(self).config.kind,
            ),
    {
        proof {
            reveal(spec_apply_step);
        }
        let value: u8 = match register {
            GeneralPurposeRegister::A => self.a,
            GeneralPurposeRegister::X => self.x,
            GeneralPurposeRegister::Y => self.y,
        };
        let result: u8 = (((value as u16) + 256 - (self.operand as u16)) % 256) as u8;
        self.flags.carry = value >= self.operand;
        self.flags.zero = result == 0;
        self.flags.negative = result >= 128;
    }

    /// Steps the stack pointer by one, wrapping.
    fn step_increment_stack(&mut self, subtract: bool)
        ensures
            frame_unchanged(*old(self), *final(self)),
            final(self).nmi == old(self).nmi,
            final(self).address_space_cache == old(self).address_space_cache,
            final(self).model() == spec_apply_step(
                old(self).model(),
                Phi2::IncrementStack { subtract },
                old(self).config.kind,
            ),
    {
        proof {
            reveal(spec_apply_step);
        }
        self.stack = if subtract {
            (((self.stack as u16) + 255) % 256) as u8
        } else {
            (((self.stack as u16) + 1) % 256) as u8
        };
    }

    /// Binary add with carry into the accumulator; subtraction is the same
    /// add on the inverted operand.
    fn step_add(&mut self, invert_operand: bool)
        ensures
            frame_unchanged(*old(self), *final(self)),
            final(self).nmi == old(self).nmi,
            final(self).address_space_cache == old(self).address_space_cache,
            final(self).model() == spec_apply_step(
                old(self).model(),
                Phi2::Add { invert_operand },
                old(self).config.kind,
            ),
    {
        proof {
            reveal(spec_apply_step);
        }
        let op: u8 = if invert_operand {
            !self.operand
        } else {
            self.operand
        };
        let carry_in: u16 = if self.flags.carry {
            1
        } else {
            0
        };
        let total: u16 = (self.a as u16) + (op as u16) + carry_in;
        let result: u8 = (total % 256) as u8;
        self.flags.overflow = (self.a & 0x80) == (op & 0x80) && (self.a & 0x80) != (result
            & 0x80);
        self.flags.carry = total >= 256;
        self.flags.negative = result >= 128;
        self.flags.zero = result == 0;
        self.a = result;
    }

    /// Bitwise and: either into the accumulator, or the bit-test form that
    /// only sets flags from the operand.
    fn step_and(&mut self, writeback: bool)
        ensures
            frame_unchanged(*old(self), *final(self)),
            final(self).nmi == old(self).nmi,
            final(self).address_space_cache == old(self).address_space_cache,
            final(self).model() == spec_apply_step(
                old(self).model(),
                Phi2::And { writeback },
                old(self).config.kind,
            ),
    {
        proof {
            reveal(spec_apply_step);
        }
        let result: u8 = self.a & self.operand;
        self.flags.zero = result == 0;
        if writeback {
            self.a = result;
            self.flags.negative = result >= 128;
        } else {
            self.flags.negative = self.operand >= 128;
            self.flags.overflow = (self.operand & 0x40) != 0;
        }
    }

    /// Bitwise or into the accumulator.
    fn step_or(&mut self)
        ensures
            frame_unchanged(*old(self), *final(self)),
            final(self).nmi == old(self).nmi,
            final(self).address_space_cache == old(self).address_space_cache,
            final(self).model() == spec_apply_step(
                old(self).model(),
                Phi2::Or,
                old(self).config.kind,
            ),
    {
        proof {
            reveal(spec_apply_step);
        }
        let result: u8 = self.a | self.operand;
        self.flags.zero = result == 0;
        self.flags.negative = result >= 128;
        self.a = result;
    }

    /// Bitwise exclusive or into the accumulator.
    fn step_xor(&mut self)
        ensures
            frame_unchanged(*old(self), *final(self)),
            final(self).nmi == old(self).nmi,
            final(self).address_space_cache == old(self).address_space_cache,
            final(self).model() == spec_apply_step(
                old(self).model(),
                Phi2::Xor,
                old(self).config.kind,
            ),
    {
        proof {
            reveal(spec_apply_step);
        }
        let result: u8 = self.a ^ self.operand;
        self.flags.zero = result == 0;
        self.flags.negative = result >= 128;
        self.a = result;
    }

    /// Steps the instruction pointer past the byte just fetched.
    fn step_increment_ip(&mut self)
        ensures
            frame_unchanged(*old(self), *final(self)),
            final(self).nmi == old(self).nmi,
            final(self).address_space_cache == old(self).address_space_cache,
            final(self).model() == spec_apply_step(
                old(self).model(),
                Phi2::IncrementInstructionPointer,
                old(self).config.kind,
            ),
    {
        proof {
            reveal(spec_apply_step);
        }
        self.instruction_pointer = (((self.instruction_pointer as u32) + 1) % 0x10000) as u16;
    }

    /// Loads the instruction pointer from the effective address, consuming
    /// it.
    fn step_load_ip(&mut self)
        ensures
            frame_unchanged(*old(self), *final(self)),
            final(self).nmi == old(self).nmi,
            final(self).address_space_cache == old(self).address_space_cache,
            final(self).model() == spec_apply_step(
                old(self).model(),
                Phi2::LoadInstructionPointerFromEffectiveAddress,
                old(self).config.kind,
            ),
    {
        proof {
            reveal(spec_apply_step);
        }
        match self.effective_address {
            EffectiveAddress::Empty => {},
            EffectiveAddress::One(lo) => {
                self.instruction_pointer = lo as u16;
            },
            EffectiveAddress::Two(lo, hi) => {
                self.instruction_pointer = (lo as u16) + 256 * (hi as u16);
            },
        }
        self.effective_address = EffectiveAddress::Empty;
    }

    /// Runs a cycle's phase-2 steps strictly in order.
    #[verifier::rlimit(100)]
    fn run_steps(&mut self, steps: StepList)
        ensures
            frame_unchanged(*old(self), *final(self)),
            final(self).nmi == old(self).nmi,
            final(self).address_space_cache == old(self).address_space_cache,
            !spec_list_has_decode(steps) ==> final(self).model() == spec_run_list(
                old(self).model(),
                steps,
                old(self).config.kind,
            ),
            steps == (StepList::Two(
                Phi2::IncrementInstructionPointer,
                Phi2::Move { source: MoveSource::Data, destination: MoveDestination::Opcode },
            )) ==> crate::instruction::spec_expanded(
                spec_apply_step(
                    old(self).model(),
                    Phi2::IncrementInstructionPointer,
                    old(self).config.kind,
                ),
                final(self).model(),
                spec_decode(old(self).bus.data, old(self).config.kind),
                old(self).config.kind,
            ),
    {
        match steps {
            StepList::Empty => {
                proof {
                    assert(!spec_list_has_decode(steps));
                }
            },
            StepList::One(s0) => {
                self.apply_step(s0);
                proof {
                    if !spec_list_has_decode(steps) {
                        assert(steps.seq()[0] == s0);
                    }
                }
            },
            StepList::Two(s0, s1) => {
                self.apply_step(s0);
                let ghost mid = self.model();
                self.apply_step(s1);
                proof {
                    if !spec_list_has_decode(steps) {
                        assert(steps.seq()[0] == s0);
                        assert(steps.seq()[1] == s1);
                    }
                    if steps == (StepList::Two(
                        Phi2::IncrementInstructionPointer,
                        Phi2::Move {
                            source: MoveSource::Data,
                            destination: MoveDestination::Opcode,
                        },
                    )) {
                        assert(mid.bus == old(self).model().bus) by {
                            reveal(spec_apply_step);
                        };
                    }
                }
            },
            StepList::Three(s0, s1, s2) => {
                self.apply_step(s0);
                self.apply_step(s1);
                self.apply_step(s2);
                proof {
                    if !spec_list_has_decode(steps) {
                        assert(steps.seq()[0] == s0);
                        assert(steps.seq()[1] == s1);
                        assert(steps.seq()[2] == s2);
                    }
                }
            },
        }
    }
}


impl Mos6502 {
    /// Polls the interrupt lines after a cycle, only when the queue has
    /// drained on a kind that has interrupt inputs.  The non-maskable edge
    /// latch is consumed by the poll; if it was armed, the handler
    /// sequence for the NMI vector is queued, else a low IRQ line queues
    /// the IRQ sequence unless the interrupt-disable flag is set.
    fn poll_interrupts(&mut self)
        ensures
            frame_unchanged(*old(self), *final(self)),
            final(self).address_space_cache == old(self).address_space_cache,
            regs_unchanged(*old(self), *final(self)),
            final(self).halted == old(self).halted,
            old(self).config.kind is Mos6507 || old(self).instruction_queue@.len() > 0 ==> final(self).nmi == old(self).nmi
                && final(self).instruction_queue@ == old(self).instruction_queue@,
            !(old(self).config.kind is Mos6507) && old(self).instruction_queue@.len() == 0 ==> {
                &&& final(self).nmi == spec_nmi_consume(old(self).nmi).1
                &&& final(self).instruction_queue@ == (match spec_interrupt_vector(
                    old(self).config.kind,
                    0,
                    old(self).nmi,
                    old(self).irq,
                    old(self).flags,
                ) {
                    Some(vector) => spec_interrupt_sequence(vector),
                    None => old(self).instruction_queue@,
                })
            },
    {
        if !self.config.kind.supports_interrupts() {
            return;
        }
        if self.instruction_queue.len() > 0 {
            return;
        }
        let nmi_fired = self.nmi.interrupt_required();
        if nmi_fired {
            self.push_interrupt_sequence(NMI_VECTOR);
        } else if self.irq.interrupt_required() && !self.flags.interrupt_disable {
            self.push_interrupt_sequence(IRQ_VECTOR);
        }
    }

    /// Queues the six-cycle interrupt entry for one vector.
    fn push_interrupt_sequence(&mut self, vector: u16)
        requires
            vector < 0xffff,
            old(self).instruction_queue@.len() == 0,
        ensures
            frame_unchanged(*old(self), *final(self)),
            final(self).nmi == old(self).nmi,
            final(self).address_space_cache == old(self).address_space_cache,
            regs_unchanged(*old(self), *final(self)),
            final(self).halted == old(self).halted,
            final(self).instruction_queue@ == spec_interrupt_sequence(vector),
    {
        self.instruction_queue.push_back(
            Cycle {
                bus_mode: BusMode::Read,
                phi1: Some(Phi1::SetAddressBus {
                    source: SetAddressBusSource::InstructionPointer,
                }),
                phi2: StepList::Empty,
            },
        );
        self.instruction_queue.push_back(
            Cycle {
                bus_mode: BusMode::Write,
                phi1: Some(Phi1::SetAddressBus { source: SetAddressBusSource::Stack }),
                phi2: StepList::Two(
                    Phi2::Move {
                        source: MoveSource::InstructionPointer { offset: 1 },
                        destination: MoveDestination::Data,
                    },
                    Phi2::IncrementStack { subtract: true },
                ),
            },
        );
        self.instruction_queue.push_back(
            Cycle {
                bus_mode: BusMode::Write,
                phi1: Some(Phi1::SetAddressBus { source: SetAddressBusSource::Stack }),
                phi2: StepList::Two(
                    Phi2::Move {
                        source: MoveSource::InstructionPointer { offset: 0 },
                        destination: MoveDestination::Data,
                    },
                    Phi2::IncrementStack { subtract: true },
                ),
            },
        );
        self.instruction_queue.push_back(
            Cycle {
                bus_mode: BusMode::Write,
                phi1: Some(Phi1::SetAddressBus { source: SetAddressBusSource::Stack }),
                phi2: StepList::Two(
                    Phi2::Move {
                        source: MoveSource::Flags { break_: false },
                        destination: MoveDestination::Data,
                    },
                    Phi2::IncrementStack { subtract: true },
                ),
            },
        );
        self.instruction_queue.push_back(
            Cycle {
                bus_mode: BusMode::Read,
                phi1: Some(Phi1::SetAddressBus {
                    source: SetAddressBusSource::Constant(vector),
                }),
                phi2: StepList::One(
                    Phi2::Move {
                        source: MoveSource::Data,
                        destination: MoveDestination::EffectiveAddress,
                    },
                ),
            },
        );
        self.instruction_queue.push_back(
            Cycle {
                bus_mode: BusMode::Read,
                phi1: Some(Phi1::SetAddressBus {
                    source: SetAddressBusSource::Constant(vector + 1),
                }),
                phi2: StepList::Two(
                    Phi2::Move {
                        source: MoveSource::Data,
                        destination: MoveDestination::EffectiveAddress,
                    },
                    Phi2::LoadInstructionPointerFromEffectiveAddress,
                ),
            },
        );
        proof {
            assert(self.instruction_queue@ =~= spec_interrupt_sequence(vector));
        }
    }

    /// Clears the queue and installs the reset sequence; the halt mark is
    /// lifted so the processor starts over.
    pub fn reset(&mut self)
        ensures
            frame_unchanged(*old(self), *final(self)),
            final(self).nmi == old(self).nmi,
            final(self).address_space_cache == old(self).address_space_cache,
            regs_unchanged(*old(self), *final(self)),
            final(self).halted == false,
            final(self).instruction_queue@ == spec_reset_sequence(),
    {
        self.halted = false;
        self.instruction_queue.clear();
        self.instruction_queue.push_back(Cycle::dummy());
        self.instruction_queue.push_back(Cycle::dummy());
        self.instruction_queue.push_back(
            Cycle {
                bus_mode: BusMode::Read,
                phi1: None,
                phi2: StepList::One(
                    Phi2::Move {
                        source: MoveSource::Constant(0xfd),
                        destination: MoveDestination::Stack,
                    },
                ),
            },
        );
        let flags_byte = FlagRegister {
            negative: false,
            overflow: false,
            decimal: false,
            interrupt_disable: true,
            zero: false,
            carry: false,
        }.to_byte(false);
        self.instruction_queue.push_back(
            Cycle {
                bus_mode: BusMode::Read,
                phi1: None,
                phi2: StepList::One(
                    Phi2::Move {
                        source: MoveSource::Constant(flags_byte),
                        destination: MoveDestination::Flags,
                    },
                ),
            },
        );
        self.instruction_queue.push_back(
            Cycle {
                bus_mode: BusMode::Read,
                phi1: Some(Phi1::SetAddressBus {
                    source: SetAddressBusSource::Constant(RESET_VECTOR),
                }),
                phi2: StepList::One(
                    Phi2::Move {
                        source: MoveSource::Data,
                        destination: MoveDestination::EffectiveAddress,
                    },
                ),
            },
        );
        self.instruction_queue.push_back(
            Cycle {
                bus_mode: BusMode::Read,
                phi1: Some(Phi1::SetAddressBus {
                    source: SetAddressBusSource::Constant(0xfffd),
                }),
                phi2: StepList::Two(
                    Phi2::Move {
                        source: MoveSource::Data,
                        destination: MoveDestination::EffectiveAddress,
                    },
                    Phi2::LoadInstructionPointerFromEffectiveAddress,
                ),
            },
        );
        proof {
            assert(self.instruction_queue@ =~= spec_reset_sequence());
        }
    }

    /// Builds a processor in its power-on state: registers clear, the
    /// stack pointer at the top, the lines released, and the reset
    /// sequence queued.
    pub fn new(config: Mos6502Config) -> (r: Self)
        requires
            config.frequency.bits >= 2,
        ensures
            r.a == 0 && r.x == 0 && r.y == 0,
            r.flags == (FlagRegister {
                negative: false,
                overflow: false,
                decimal: false,
                interrupt_disable: false,
                zero: false,
                carry: false,
            }),
            r.stack == 0xff,
            r.instruction_pointer == 0,
            r.operand == 0,
            r.bus == (Bus { address: 0, data: 0 }),
            r.effective_address is Empty,
            r.halted == false,
            r.instruction_queue@ == spec_reset_sequence(),
            r.rdy.value == true,
            r.irq.stored == true,
            r.nmi.current_state == true && r.nmi.falling_edge_occurred == false,
            r.config == config,
            r.address_space_cache.slot is None,
            r.timestamp.bits == 0,
            r.period.bits == 0x1_0000_0000_0000_0000_0000_0000_0000_0000int / (
            config.frequency.bits as int),
    {
        let period = config.frequency.recip();
        let mut cpu = Mos6502 {
            a: 0,
            x: 0,
            y: 0,
            flags: FlagRegister::default(),
            stack: 0xff,
            instruction_pointer: 0,
            instruction_queue: VecDeque::new(),
            bus: Bus { address: 0, data: 0 },
            effective_address: EffectiveAddress::Empty,
            operand: 0,
            halted: false,
            rdy: RdyFlag::default(),
            irq: IrqFlag::default(),
            nmi: NmiFlag::default(),
            config,
            address_space_cache: AddressSpaceCache::empty(),
            timestamp: Period::zero(),
            period,
        };
        cpu.reset();
        cpu
    }

    /// Executes one bus cycle: pops the next queued cycle (or synthesizes
    /// an opcode fetch), drives the address, performs the bus transaction
    /// through the address space, runs the phase-2 steps, and polls the
    /// interrupt lines once the queue has drained.  While the ready line
    /// is low the processor freezes on read cycles: the cycle is put back
    /// and nothing past the bus read happens.  A halted processor does
    /// nothing at all.
    #[verifier::rlimit(100)]
    #[verifier::spinoff_prover]
    pub fn step_cycle(&mut self, memory: &mut AddressSpace)
        requires
            memory.wf(),
            old(self).address_space_cache.consistent_with(old(memory).table),
        ensures
            final(memory).wf(),
            final(memory).table == old(memory).table,
            final(self).address_space_cache.consistent_with(final(memory).table),
            frame_unchanged(*old(self), *final(self)),
            old(self).halted ==> *final(self) == *old(self) && *final(memory) == *old(memory),
            spec_cycle_rel(
                old(self).model(),
                old(self).nmi,
                *old(memory),
                final(self).model(),
                final(self).nmi,
                *final(memory),
                old(self).rdy.value,
                old(self).irq,
                old(self).config.kind,
            ),
    {
        proof {
            reveal(spec_cycle_rel);
        }
        if self.halted {
            return;
        }
        let current_cycle: Cycle = match self.instruction_queue.pop_front() {
            Some(cycle) => cycle,
            None => Cycle {
                bus_mode: BusMode::Read,
                phi1: Some(Phi1::SetAddressBus {
                    source: SetAddressBusSource::InstructionPointer,
                }),
                phi2: StepList::Two(
                    Phi2::IncrementInstructionPointer,
                    Phi2::Move { source: MoveSource::Data, destination: MoveDestination::Opcode },
                ),
            },
        };
        proof {
            assert(current_cycle == spec_current_cycle(old(self).model()));
            if old(self).instruction_queue@.len() > 0 {
                assert(self.instruction_queue@ =~= old(self).instruction_queue@.drop_first());
            } else {
                assert(self.instruction_queue@ =~= Seq::<Cycle>::empty());
            }
            assert(self.model() == spec_after_pop(old(self).model()));
        }
        self.apply_phi1(current_cycle.phi1);
        let is_read_cycle = matches!(current_cycle.bus_mode, BusMode::Read);
        if is_read_cycle {
            let address = self.bus.address;
            self.bus.data = match memory.read8_cached(
                address as usize,
                &mut self.address_space_cache,
            ) {
                Ok(value) => value,
                Err(_) => 0,
            };
        }
        let ghost m2 = self.model();
        proof {
            let cyc = spec_current_cycle(old(self).model());
            let m0 = spec_after_pop(old(self).model());
            let m1 = spec_apply_phi1(m0, cyc.phi1);
            let data = spec_open_bus_read(*old(memory), m1.bus.address);
            if cyc.bus_mode is Read {
                assert(m2 == (CpuModel { bus: Bus { data, ..m1.bus }, ..m1 }));
            } else {
                assert(m2 == m1);
            }
        }
        if self.rdy.load() || !is_read_cycle {
            self.run_steps(current_cycle.phi2);
            proof {
                if current_cycle.phi2 == (StepList::Two(
                    Phi2::IncrementInstructionPointer,
                    Phi2::Move { source: MoveSource::Data, destination: MoveDestination::Opcode },
                )) {
                    let kind = old(self).config.kind;
                    let pre = spec_apply_step(m2, Phi2::IncrementInstructionPointer, kind);
                    let instr = spec_decode(m2.bus.data, kind);
                    assert(crate::instruction::spec_expanded(pre, self.model(), instr, kind));
                    if !self.halted {
                        // A non-halting expansion queues at least its
                        // prelude, so the coming poll finds a busy queue
                        // and does nothing.
                        assert(!crate::instruction::spec_instr_halts(instr));
                        crate::instruction::lemma_expansion_cycle_count(
                            instr,
                            kind,
                            crate::instruction::spec_branch_taken(instr.opcode, pre.flags),
                        );
                        assert(self.instruction_queue@.len() > 0);
                    }
                }
            }
            if matches!(current_cycle.bus_mode, BusMode::Write) {
                let address = self.bus.address;
                let data = self.bus.data;
                let _ = memory.write8_cached(
                    address as usize,
                    data,
                    &mut self.address_space_cache,
                );
            }
            if self.halted {
                return;
            }
            self.poll_interrupts();
        } else {
            self.instruction_queue.push_front(current_cycle);
            proof {
                if old(self).instruction_queue@.len() > 0 {
                    assert(self.instruction_queue@ =~= old(self).instruction_queue@);
                } else {
                    assert(self.instruction_queue@ =~= seq![spec_fetch_cycle()]);
                }
            }
        }
    }
}


impl Mos6502 {
    /// Whether a span of virtual time is worth a synchronize call: at
    /// least one whole cycle must fit.
    pub fn needs_work(&self, delta: Period) -> (r: bool)
        ensures
            r == (delta.bits >= self.period.bits),
    {
        self.period.le(delta)
    }

    /// The version mark this component's snapshots carry.
    pub fn snapshot_version(&self) -> (r: Option<u16>)
        ensures
            r == Some(0u16),
    {
        Some(0)
    }

    /// Synchronizes the processor up to the context's target: one bus
    /// cycle per allocated quantum of its own period.  The final processor,
    /// latch, and memory state are exactly the allocation's worth of
    /// cycle-interpreter steps folded over the starting state; the
    /// context's time advances by the same number of quanta, and the
    /// preemption signal is left lowered.
    pub fn synchronize(
        &mut self,
        context: &mut SynchronizationContext,
        events: &mut EventManager,
        memory: &mut AddressSpace,
    )
        requires
            old(self).period.bits > 0,
            old(memory).wf(),
            old(self).address_space_cache.consistent_with(old(memory).table),
            spec_budget(*old(context), old(self).period) <= u64::MAX,
        ensures
            final(memory).wf(),
            final(memory).table == old(memory).table,
            final(self).address_space_cache.consistent_with(final(memory).table),
            final(self).config == old(self).config,
            final(self).period == old(self).period,
            final(self).rdy == old(self).rdy,
            final(self).irq == old(self).irq,
            final(events).events == old(events).events,
            final(events).preemption.raised == false,
            final(context).target_timestamp == old(context).target_timestamp,
            final(context).next_event == old(context).next_event,
            final(context).last_attempted_allocation == Some(old(self).period),
            ({
                let it0 = QuantaIterator {
                    period: old(self).period,
                    budget: spec_budget(*old(context), old(self).period) as u64,
                    timestamp: old(context).updated_timestamp,
                    target: old(context).target_timestamp,
                };
                let n = crate::scheduler::spec_effective_quanta(it0, *old(events));
                &&& final(context).updated_timestamp.bits == old(
                    context,
                ).updated_timestamp.bits + n * old(self).period.bits
                &&& final(self).timestamp == (if n > 0 {
                    final(context).updated_timestamp
                } else {
                    old(self).timestamp
                })
                &&& spec_cycles_rel_n(
                    old(self).model(),
                    old(self).nmi,
                    *old(memory),
                    final(self).model(),
                    final(self).nmi,
                    *final(memory),
                    n,
                    old(self).rdy.value,
                    old(self).irq,
                    old(self).config.kind,
                )
            }),
    {
        let period = self.period;
        let mut quanta = context.allocate(period, None);
        let ghost it0 = quanta;
        let ghost n_total = crate::scheduler::spec_effective_quanta(it0, *old(events));
        let ghost entry_model = self.model();
        let ghost entry_nmi = self.nmi;
        let ghost entry_mem = *memory;
        proof {
            crate::scheduler::lemma_allocation_is_exact(
                context.updated_timestamp.bits as int,
                (if context.updated_timestamp.bits <= crate::scheduler::spec_stop_time(*context) {
                    crate::scheduler::spec_stop_time(*context) as int
                } else {
                    context.updated_timestamp.bits as int
                }),
                period.bits as int,
            );
        }
        let ghost mut started = false;
        let ghost mut consumed: nat = 0;
        loop
            invariant
                memory.wf(),
                memory.table == old(memory).table,
                self.address_space_cache.consistent_with(memory.table),
                self.config == old(self).config,
                self.period == old(self).period,
                self.rdy == old(self).rdy,
                self.irq == old(self).irq,
                events.events == old(events).events,
                quanta.period == period,
                quanta.target == it0.target,
                period == old(self).period,
                period.bits > 0,
                !started ==> quanta == it0 && *events == *old(events) && self.model()
                    == entry_model && self.nmi == entry_nmi && *memory == entry_mem
                    && self.timestamp == old(self).timestamp && consumed == 0,
                started ==> {
                    &&& events.preemption.raised == false
                    &&& consumed + quanta.budget == n_total
                    &&& quanta.timestamp.bits == it0.timestamp.bits + consumed * period.bits
                    &&& spec_cycles_rel_n(
                        entry_model,
                        entry_nmi,
                        entry_mem,
                        self.model(),
                        self.nmi,
                        *memory,
                        consumed,
                        old(self).rdy.value,
                        old(self).irq,
                        old(self).config.kind,
                    )
                    &&& self.timestamp == (if consumed > 0 {
                        quanta.timestamp
                    } else {
                        old(self).timestamp
                    })
                },
                quanta.timestamp.bits + quanta.budget * quanta.period.bits <= u128::MAX,
            decreases quanta.budget,
        {
            proof {
                if quanta.budget > 0 {
                    assert(quanta.budget * quanta.period.bits >= quanta.period.bits)
                        by (nonlinear_arith)
                        requires
                            quanta.budget >= 1,
                            quanta.period.bits >= 0,
                    ;
                }
            }
            let ghost pre_it = quanta;
            let ghost pre_events = *events;
            let ghost pre_started = started;
            let ghost pre_model = self.model();
            let ghost pre_nmi = self.nmi;
            let ghost pre_mem = *memory;
            match quanta.next(events) {
                None => {
                    proof {
                        if !pre_started {
                            started = true;
                            assert(crate::scheduler::spec_checked_budget(pre_it, pre_events)
                                == n_total);
                            assert(spec_cycles_rel_n(
                                entry_model,
                                entry_nmi,
                                entry_mem,
                                self.model(),
                                self.nmi,
                                *memory,
                                0,
                                old(self).rdy.value,
                                old(self).irq,
                                old(self).config.kind,
                            ));
                        }
                    }
                    break;
                },
                Some(now) => {
                    proof {
                        let checked = crate::scheduler::spec_checked_budget(pre_it, pre_events);
                        if !pre_started {
                            started = true;
                            assert(checked == n_total);
                            assert(spec_cycles_rel_n(
                                entry_model,
                                entry_nmi,
                                entry_mem,
                                self.model(),
                                self.nmi,
                                *memory,
                                0,
                                old(self).rdy.value,
                                old(self).irq,
                                old(self).config.kind,
                            ));
                        } else {
                            assert(checked == pre_it.budget);
                        }
                        assert(checked <= pre_it.budget);
                        assert((checked - 1) * period.bits + period.bits == checked * period.bits)
                            by (nonlinear_arith);
                        assert(checked * period.bits <= pre_it.budget * period.bits)
                            by (nonlinear_arith)
                            requires
                                0 <= checked <= pre_it.budget,
                                period.bits >= 0,
                        ;
                        assert((consumed + 1) * period.bits == consumed * period.bits
                            + period.bits) by (nonlinear_arith);
                    }
                    self.timestamp = now;
                    self.step_cycle(memory);
                    proof {
                        lemma_cycles_rel_snoc(
                            entry_model,
                            entry_nmi,
                            entry_mem,
                            pre_model,
                            pre_nmi,
                            pre_mem,
                            self.model(),
                            self.nmi,
                            *memory,
                            consumed,
                            old(self).rdy.value,
                            old(self).irq,
                            old(self).config.kind,
                        );
                        consumed = consumed + 1;
                    }
                },
            }
        }
        context.updated_timestamp = quanta.timestamp;
    }
}

} // verus!