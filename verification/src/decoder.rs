//! The opcode matrix: from a fetched byte to an instruction.
//!
//! A byte splits into `group = byte % 4`, `secondary = byte / 32` and
//! `argument = (byte / 4) % 8`.  Four tables, one per group, give the
//! opcode and addressing mode, following the published matrix of the
//! original part with the CMOS additions gated on the processor kind.
//! Each table exists once as the specification and once as executable
//! code proved equal to it.

use vstd::prelude::*;

use crate::instruction::{
    AddressingMode, Mos6502AddressingMode, Mos6502InstructionSet, Mos6502Kind, Mos6502Opcode,
    Opcode, Wdc65C02AddressingMode, Wdc65C02Opcode,
};

verus! {

/// The arithmetic/load/store group: bytes whose low two bits are 1.
pub open spec fn spec_decode_group1(secondary: u8, argument: u8, kind: Mos6502Kind) -> (Opcode, Option<AddressingMode>) {
    match secondary {
        0 => match argument {
            0 => (Opcode::Mos6502(Mos6502Opcode::Ora), Some(AddressingMode::Mos6502(Mos6502AddressingMode::XIndexedZeroPageIndirect))),
            1 => (Opcode::Mos6502(Mos6502Opcode::Ora), Some(AddressingMode::Mos6502(Mos6502AddressingMode::ZeroPage))),
            2 => (Opcode::Mos6502(Mos6502Opcode::Ora), Some(AddressingMode::Mos6502(Mos6502AddressingMode::Immediate))),
            3 => (Opcode::Mos6502(Mos6502Opcode::Ora), Some(AddressingMode::Mos6502(Mos6502AddressingMode::Absolute))),
            4 => (Opcode::Mos6502(Mos6502Opcode::Ora), Some(AddressingMode::Mos6502(Mos6502AddressingMode::ZeroPageIndirectYIndexed))),
            5 => (Opcode::Mos6502(Mos6502Opcode::Ora), Some(AddressingMode::Mos6502(Mos6502AddressingMode::XIndexedZeroPage))),
            6 => (Opcode::Mos6502(Mos6502Opcode::Ora), Some(AddressingMode::Mos6502(Mos6502AddressingMode::YIndexedAbsolute))),
            7 => (Opcode::Mos6502(Mos6502Opcode::Ora), Some(AddressingMode::Mos6502(Mos6502AddressingMode::XIndexedAbsolute))),
            _ => (Opcode::Mos6502(Mos6502Opcode::Jam), None),
        },
        1 => match argument {
            0 => (Opcode::Mos6502(Mos6502Opcode::And), Some(AddressingMode::Mos6502(Mos6502AddressingMode::XIndexedZeroPageIndirect))),
            1 => (Opcode::Mos6502(Mos6502Opcode::And), Some(AddressingMode::Mos6502(Mos6502AddressingMode::ZeroPage))),
            2 => (Opcode::Mos6502(Mos6502Opcode::And), Some(AddressingMode::Mos6502(Mos6502AddressingMode::Immediate))),
            3 => (Opcode::Mos6502(Mos6502Opcode::And), Some(AddressingMode::Mos6502(Mos6502AddressingMode::Absolute))),
            4 => (Opcode::Mos6502(Mos6502Opcode::And), Some(AddressingMode::Mos6502(Mos6502AddressingMode::ZeroPageIndirectYIndexed))),
            5 => (Opcode::Mos6502(Mos6502Opcode::And), Some(AddressingMode::Mos6502(Mos6502AddressingMode::XIndexedZeroPage))),
            6 => (Opcode::Mos6502(Mos6502Opcode::And), Some(AddressingMode::Mos6502(Mos6502AddressingMode::YIndexedAbsolute))),
            7 => (Opcode::Mos6502(Mos6502Opcode::And), Some(AddressingMode::Mos6502(Mos6502AddressingMode::XIndexedAbsolute))),
            _ => (Opcode::Mos6502(Mos6502Opcode::Jam), None),
        },
        2 => match argument {
            0 => (Opcode::Mos6502(Mos6502Opcode::Eor), Some(AddressingMode::Mos6502(Mos6502AddressingMode::XIndexedZeroPageIndirect))),
            1 => (Opcode::Mos6502(Mos6502Opcode::Eor), Some(AddressingMode::Mos6502(Mos6502AddressingMode::ZeroPage))),
            2 => (Opcode::Mos6502(Mos6502Opcode::Eor), Some(AddressingMode::Mos6502(Mos6502AddressingMode::Immediate))),
            3 => (Opcode::Mos6502(Mos6502Opcode::Eor), Some(AddressingMode::Mos6502(Mos6502AddressingMode::Absolute))),
            4 => (Opcode::Mos6502(Mos6502Opcode::Eor), Some(AddressingMode::Mos6502(Mos6502AddressingMode::ZeroPageIndirectYIndexed))),
            5 => (Opcode::Mos6502(Mos6502Opcode::Eor), Some(AddressingMode::Mos6502(Mos6502AddressingMode::XIndexedZeroPage))),
            6 => (Opcode::Mos6502(Mos6502Opcode::Eor), Some(AddressingMode::Mos6502(Mos6502AddressingMode::YIndexedAbsolute))),
            7 => (Opcode::Mos6502(Mos6502Opcode::Eor), Some(AddressingMode::Mos6502(Mos6502AddressingMode::XIndexedAbsolute))),
            _ => (Opcode::Mos6502(Mos6502Opcode::Jam), None),
        },
        3 => match argument {
            0 => (Opcode::Mos6502(Mos6502Opcode::Adc), Some(AddressingMode::Mos6502(Mos6502AddressingMode::XIndexedZeroPageIndirect))),
            1 => (Opcode::Mos6502(Mos6502Opcode::Adc), Some(AddressingMode::Mos6502(Mos6502AddressingMode::ZeroPage))),
            2 => (Opcode::Mos6502(Mos6502Opcode::Adc), Some(AddressingMode::Mos6502(Mos6502AddressingMode::Immediate))),
            3 => (Opcode::Mos6502(Mos6502Opcode::Adc), Some(AddressingMode::Mos6502(Mos6502AddressingMode::Absolute))),
            4 => (Opcode::Mos6502(Mos6502Opcode::Adc), Some(AddressingMode::Mos6502(Mos6502AddressingMode::ZeroPageIndirectYIndexed))),
            5 => (Opcode::Mos6502(Mos6502Opcode::Adc), Some(AddressingMode::Mos6502(Mos6502AddressingMode::XIndexedZeroPage))),
            6 => (Opcode::Mos6502(Mos6502Opcode::Adc), Some(AddressingMode::Mos6502(Mos6502AddressingMode::YIndexedAbsolute))),
            7 => (Opcode::Mos6502(Mos6502Opcode::Adc), Some(AddressingMode::Mos6502(Mos6502AddressingMode::XIndexedAbsolute))),
            _ => (Opcode::Mos6502(Mos6502Opcode::Jam), None),
        },
        4 => match argument {
            0 => (Opcode::Mos6502(Mos6502Opcode::Sta), Some(AddressingMode::Mos6502(Mos6502AddressingMode::XIndexedZeroPageIndirect))),
            1 => (Opcode::Mos6502(Mos6502Opcode::Sta), Some(AddressingMode::Mos6502(Mos6502AddressingMode::ZeroPage))),
            2 => match kind {
                Mos6502Kind::Wdc65C02 => (Opcode::Mos6502(Mos6502Opcode::Bit), Some(AddressingMode::Mos6502(Mos6502AddressingMode::Immediate))),
                _ => (Opcode::Mos6502(Mos6502Opcode::Nop), Some(AddressingMode::Mos6502(Mos6502AddressingMode::Immediate))),
            },
            3 => (Opcode::Mos6502(Mos6502Opcode::Sta), Some(AddressingMode::Mos6502(Mos6502AddressingMode::Absolute))),
            4 => (Opcode::Mos6502(Mos6502Opcode::Sta), Some(AddressingMode::Mos6502(Mos6502AddressingMode::ZeroPageIndirectYIndexed))),
            5 => (Opcode::Mos6502(Mos6502Opcode::Sta), Some(AddressingMode::Mos6502(Mos6502AddressingMode::XIndexedZeroPage))),
            6 => (Opcode::Mos6502(Mos6502Opcode::Sta), Some(AddressingMode::Mos6502(Mos6502AddressingMode::YIndexedAbsolute))),
            7 => (Opcode::Mos6502(Mos6502Opcode::Sta), Some(AddressingMode::Mos6502(Mos6502AddressingMode::XIndexedAbsolute))),
            _ => (Opcode::Mos6502(Mos6502Opcode::Jam), None),
        },
        5 => match argument {
            0 => (Opcode::Mos6502(Mos6502Opcode::Lda), Some(AddressingMode::Mos6502(Mos6502AddressingMode::XIndexedZeroPageIndirect))),
            1 => (Opcode::Mos6502(Mos6502Opcode::Lda), Some(AddressingMode::Mos6502(Mos6502AddressingMode::ZeroPage))),
            2 => (Opcode::Mos6502(Mos6502Opcode::Lda), Some(AddressingMode::Mos6502(Mos6502AddressingMode::Immediate))),
            3 => (Opcode::Mos6502(Mos6502Opcode::Lda), Some(AddressingMode::Mos6502(Mos6502AddressingMode::Absolute))),
            4 => (Opcode::Mos6502(Mos6502Opcode::Lda), Some(AddressingMode::Mos6502(Mos6502AddressingMode::ZeroPageIndirectYIndexed))),
            5 => (Opcode::Mos6502(Mos6502Opcode::Lda), Some(AddressingMode::Mos6502(Mos6502AddressingMode::XIndexedZeroPage))),
            6 => (Opcode::Mos6502(Mos6502Opcode::Lda), Some(AddressingMode::Mos6502(Mos6502AddressingMode::YIndexedAbsolute))),
            7 => (Opcode::Mos6502(Mos6502Opcode::Lda), Some(AddressingMode::Mos6502(Mos6502AddressingMode::XIndexedAbsolute))),
            _ => (Opcode::Mos6502(Mos6502Opcode::Jam), None),
        },
        6 => match argument {
            0 => (Opcode::Mos6502(Mos6502Opcode::Cmp), Some(AddressingMode::Mos6502(Mos6502AddressingMode::XIndexedZeroPageIndirect))),
            1 => (Opcode::Mos6502(Mos6502Opcode::Cmp), Some(AddressingMode::Mos6502(Mos6502AddressingMode::ZeroPage))),
            2 => (Opcode::Mos6502(Mos6502Opcode::Cmp), Some(AddressingMode::Mos6502(Mos6502AddressingMode::Immediate))),
            3 => (Opcode::Mos6502(Mos6502Opcode::Cmp), Some(AddressingMode::Mos6502(Mos6502AddressingMode::Absolute))),
            4 => (Opcode::Mos6502(Mos6502Opcode::Cmp), Some(AddressingMode::Mos6502(Mos6502AddressingMode::ZeroPageIndirectYIndexed))),
            5 => (Opcode::Mos6502(Mos6502Opcode::Cmp), Some(AddressingMode::Mos6502(Mos6502AddressingMode::XIndexedZeroPage))),
            6 => (Opcode::Mos6502(Mos6502Opcode::Cmp), Some(AddressingMode::Mos6502(Mos6502AddressingMode::YIndexedAbsolute))),
            7 => (Opcode::Mos6502(Mos6502Opcode::Cmp), Some(AddressingMode::Mos6502(Mos6502AddressingMode::XIndexedAbsolute))),
            _ => (Opcode::Mos6502(Mos6502Opcode::Jam), None),
        },
        7 => match argument {
            0 => (Opcode::Mos6502(Mos6502Opcode::Sbc), Some(AddressingMode::Mos6502(Mos6502AddressingMode::XIndexedZeroPageIndirect))),
            1 => (Opcode::Mos6502(Mos6502Opcode::Sbc), Some(AddressingMode::Mos6502(Mos6502AddressingMode::ZeroPage))),
            2 => (Opcode::Mos6502(Mos6502Opcode::Sbc), Some(AddressingMode::Mos6502(Mos6502AddressingMode::Immediate))),
            3 => (Opcode::Mos6502(Mos6502Opcode::Sbc), Some(AddressingMode::Mos6502(Mos6502AddressingMode::Absolute))),
            4 => (Opcode::Mos6502(Mos6502Opcode::Sbc), Some(AddressingMode::Mos6502(Mos6502AddressingMode::ZeroPageIndirectYIndexed))),
            5 => (Opcode::Mos6502(Mos6502Opcode::Sbc), Some(AddressingMode::Mos6502(Mos6502AddressingMode::XIndexedZeroPage))),
            6 => (Opcode::Mos6502(Mos6502Opcode::Sbc), Some(AddressingMode::Mos6502(Mos6502AddressingMode::YIndexedAbsolute))),
            7 => (Opcode::Mos6502(Mos6502Opcode::Sbc), Some(AddressingMode::Mos6502(Mos6502AddressingMode::XIndexedAbsolute))),
            _ => (Opcode::Mos6502(Mos6502Opcode::Jam), None),
        },
        _ => (Opcode::Mos6502(Mos6502Opcode::Jam), None),
    }
}

/// The arithmetic/load/store group: bytes whose low two bits are 1.
pub fn decode_group1_space_instruction(secondary: u8, argument: u8, kind: Mos6502Kind) -> (r: (Opcode, Option<AddressingMode>))
    ensures
        r == spec_decode_group1(secondary, argument, kind),
{
    match secondary {
        0 => match argument {
            0 => (Opcode::Mos6502(Mos6502Opcode::Ora), Some(AddressingMode::Mos6502(Mos6502AddressingMode::XIndexedZeroPageIndirect))),
            1 => (Opcode::Mos6502(Mos6502Opcode::Ora), Some(AddressingMode::Mos6502(Mos6502AddressingMode::ZeroPage))),
            2 => (Opcode::Mos6502(Mos6502Opcode::Ora), Some(AddressingMode::Mos6502(Mos6502AddressingMode::Immediate))),
            3 => (Opcode::Mos6502(Mos6502Opcode::Ora), Some(AddressingMode::Mos6502(Mos6502AddressingMode::Absolute))),
            4 => (Opcode::Mos6502(Mos6502Opcode::Ora), Some(AddressingMode::Mos6502(Mos6502AddressingMode::ZeroPageIndirectYIndexed))),
            5 => (Opcode::Mos6502(Mos6502Opcode::Ora), Some(AddressingMode::Mos6502(Mos6502AddressingMode::XIndexedZeroPage))),
            6 => (Opcode::Mos6502(Mos6502Opcode::Ora), Some(AddressingMode::Mos6502(Mos6502AddressingMode::YIndexedAbsolute))),
            7 => (Opcode::Mos6502(Mos6502Opcode::Ora), Some(AddressingMode::Mos6502(Mos6502AddressingMode::XIndexedAbsolute))),
            _ => (Opcode::Mos6502(Mos6502Opcode::Jam), None),
        },
        1 => match argument {
            0 => (Opcode::Mos6502(Mos6502Opcode::And), Some(AddressingMode::Mos6502(Mos6502AddressingMode::XIndexedZeroPageIndirect))),
            1 => (Opcode::Mos6502(Mos6502Opcode::And), Some(AddressingMode::Mos6502(Mos6502AddressingMode::ZeroPage))),
            2 => (Opcode::Mos6502(Mos6502Opcode::And), Some(AddressingMode::Mos6502(Mos6502AddressingMode::Immediate))),
            3 => (Opcode::Mos6502(Mos6502Opcode::And), Some(AddressingMode::Mos6502(Mos6502AddressingMode::Absolute))),
            4 => (Opcode::Mos6502(Mos6502Opcode::And), Some(AddressingMode::Mos6502(Mos6502AddressingMode::ZeroPageIndirectYIndexed))),
            5 => (Opcode::Mos6502(Mos6502Opcode::And), Some(AddressingMode::Mos6502(Mos6502AddressingMode::XIndexedZeroPage))),
            6 => (Opcode::Mos6502(Mos6502Opcode::And), Some(AddressingMode::Mos6502(Mos6502AddressingMode::YIndexedAbsolute))),
            7 => (Opcode::Mos6502(Mos6502Opcode::And), Some(AddressingMode::Mos6502(Mos6502AddressingMode::XIndexedAbsolute))),
            _ => (Opcode::Mos6502(Mos6502Opcode::Jam), None),
        },
        2 => match argument {
            0 => (Opcode::Mos6502(Mos6502Opcode::Eor), Some(AddressingMode::Mos6502(Mos6502AddressingMode::XIndexedZeroPageIndirect))),
            1 => (Opcode::Mos6502(Mos6502Opcode::Eor), Some(AddressingMode::Mos6502(Mos6502AddressingMode::ZeroPage))),
            2 => (Opcode::Mos6502(Mos6502Opcode::Eor), Some(AddressingMode::Mos6502(Mos6502AddressingMode::Immediate))),
            3 => (Opcode::Mos6502(Mos6502Opcode::Eor), Some(AddressingMode::Mos6502(Mos6502AddressingMode::Absolute))),
            4 => (Opcode::Mos6502(Mos6502Opcode::Eor), Some(AddressingMode::Mos6502(Mos6502AddressingMode::ZeroPageIndirectYIndexed))),
            5 => (Opcode::Mos6502(Mos6502Opcode::Eor), Some(AddressingMode::Mos6502(Mos6502AddressingMode::XIndexedZeroPage))),
            6 => (Opcode::Mos6502(Mos6502Opcode::Eor), Some(AddressingMode::Mos6502(Mos6502AddressingMode::YIndexedAbsolute))),
            7 => (Opcode::Mos6502(Mos6502Opcode::Eor), Some(AddressingMode::Mos6502(Mos6502AddressingMode::XIndexedAbsolute))),
            _ => (Opcode::Mos6502(Mos6502Opcode::Jam), None),
        },
        3 => match argument {
            0 => (Opcode::Mos6502(Mos6502Opcode::Adc), Some(AddressingMode::Mos6502(Mos6502AddressingMode::XIndexedZeroPageIndirect))),
            1 => (Opcode::Mos6502(Mos6502Opcode::Adc), Some(AddressingMode::Mos6502(Mos6502AddressingMode::ZeroPage))),
            2 => (Opcode::Mos6502(Mos6502Opcode::Adc), Some(AddressingMode::Mos6502(Mos6502AddressingMode::Immediate))),
            3 => (Opcode::Mos6502(Mos6502Opcode::Adc), Some(AddressingMode::Mos6502(Mos6502AddressingMode::Absolute))),
            4 => (Opcode::Mos6502(Mos6502Opcode::Adc), Some(AddressingMode::Mos6502(Mos6502AddressingMode::ZeroPageIndirectYIndexed))),
            5 => (Opcode::Mos6502(Mos6502Opcode::Adc), Some(AddressingMode::Mos6502(Mos6502AddressingMode::XIndexedZeroPage))),
            6 => (Opcode::Mos6502(Mos6502Opcode::Adc), Some(AddressingMode::Mos6502(Mos6502AddressingMode::YIndexedAbsolute))),
            7 => (Opcode::Mos6502(Mos6502Opcode::Adc), Some(AddressingMode::Mos6502(Mos6502AddressingMode::XIndexedAbsolute))),
            _ => (Opcode::Mos6502(Mos6502Opcode::Jam), None),
        },
        4 => match argument {
            0 => (Opcode::Mos6502(Mos6502Opcode::Sta), Some(AddressingMode::Mos6502(Mos6502AddressingMode::XIndexedZeroPageIndirect))),
            1 => (Opcode::Mos6502(Mos6502Opcode::Sta), Some(AddressingMode::Mos6502(Mos6502AddressingMode::ZeroPage))),
            2 => match kind {
                Mos6502Kind::Wdc65C02 => (Opcode::Mos6502(Mos6502Opcode::Bit), Some(AddressingMode::Mos6502(Mos6502AddressingMode::Immediate))),
                _ => (Opcode::Mos6502(Mos6502Opcode::Nop), Some(AddressingMode::Mos6502(Mos6502AddressingMode::Immediate))),
            },
            3 => (Opcode::Mos6502(Mos6502Opcode::Sta), Some(AddressingMode::Mos6502(Mos6502AddressingMode::Absolute))),
            4 => (Opcode::Mos6502(Mos6502Opcode::Sta), Some(AddressingMode::Mos6502(Mos6502AddressingMode::ZeroPageIndirectYIndexed))),
            5 => (Opcode::Mos6502(Mos6502Opcode::Sta), Some(AddressingMode::Mos6502(Mos6502AddressingMode::XIndexedZeroPage))),
            6 => (Opcode::Mos6502(Mos6502Opcode::Sta), Some(AddressingMode::Mos6502(Mos6502AddressingMode::YIndexedAbsolute))),
            7 => (Opcode::Mos6502(Mos6502Opcode::Sta), Some(AddressingMode::Mos6502(Mos6502AddressingMode::XIndexedAbsolute))),
            _ => (Opcode::Mos6502(Mos6502Opcode::Jam), None),
        },
        5 => match argument {
            0 => (Opcode::Mos6502(Mos6502Opcode::Lda), Some(AddressingMode::Mos6502(Mos6502AddressingMode::XIndexedZeroPageIndirect))),
            1 => (Opcode::Mos6502(Mos6502Opcode::Lda), Some(AddressingMode::Mos6502(Mos6502AddressingMode::ZeroPage))),
            2 => (Opcode::Mos6502(Mos6502Opcode::Lda), Some(AddressingMode::Mos6502(Mos6502AddressingMode::Immediate))),
            3 => (Opcode::Mos6502(Mos6502Opcode::Lda), Some(AddressingMode::Mos6502(Mos6502AddressingMode::Absolute))),
            4 => (Opcode::Mos6502(Mos6502Opcode::Lda), Some(AddressingMode::Mos6502(Mos6502AddressingMode::ZeroPageIndirectYIndexed))),
            5 => (Opcode::Mos6502(Mos6502Opcode::Lda), Some(AddressingMode::Mos6502(Mos6502AddressingMode::XIndexedZeroPage))),
            6 => (Opcode::Mos6502(Mos6502Opcode::Lda), Some(AddressingMode::Mos6502(Mos6502AddressingMode::YIndexedAbsolute))),
            7 => (Opcode::Mos6502(Mos6502Opcode::Lda), Some(AddressingMode::Mos6502(Mos6502AddressingMode::XIndexedAbsolute))),
            _ => (Opcode::Mos6502(Mos6502Opcode::Jam), None),
        },
        6 => match argument {
            0 => (Opcode::Mos6502(Mos6502Opcode::Cmp), Some(AddressingMode::Mos6502(Mos6502AddressingMode::XIndexedZeroPageIndirect))),
            1 => (Opcode::Mos6502(Mos6502Opcode::Cmp), Some(AddressingMode::Mos6502(Mos6502AddressingMode::ZeroPage))),
            2 => (Opcode::Mos6502(Mos6502Opcode::Cmp), Some(AddressingMode::Mos6502(Mos6502AddressingMode::Immediate))),
            3 => (Opcode::Mos6502(Mos6502Opcode::Cmp), Some(AddressingMode::Mos6502(Mos6502AddressingMode::Absolute))),
            4 => (Opcode::Mos6502(Mos6502Opcode::Cmp), Some(AddressingMode::Mos6502(Mos6502AddressingMode::ZeroPageIndirectYIndexed))),
            5 => (Opcode::Mos6502(Mos6502Opcode::Cmp), Some(AddressingMode::Mos6502(Mos6502AddressingMode::XIndexedZeroPage))),
            6 => (Opcode::Mos6502(Mos6502Opcode::Cmp), Some(AddressingMode::Mos6502(Mos6502AddressingMode::YIndexedAbsolute))),
            7 => (Opcode::Mos6502(Mos6502Opcode::Cmp), Some(AddressingMode::Mos6502(Mos6502AddressingMode::XIndexedAbsolute))),
            _ => (Opcode::Mos6502(Mos6502Opcode::Jam), None),
        },
        7 => match argument {
            0 => (Opcode::Mos6502(Mos6502Opcode::Sbc), Some(AddressingMode::Mos6502(Mos6502AddressingMode::XIndexedZeroPageIndirect))),
            1 => (Opcode::Mos6502(Mos6502Opcode::Sbc), Some(AddressingMode::Mos6502(Mos6502AddressingMode::ZeroPage))),
            2 => (Opcode::Mos6502(Mos6502Opcode::Sbc), Some(AddressingMode::Mos6502(Mos6502AddressingMode::Immediate))),
            3 => (Opcode::Mos6502(Mos6502Opcode::Sbc), Some(AddressingMode::Mos6502(Mos6502AddressingMode::Absolute))),
            4 => (Opcode::Mos6502(Mos6502Opcode::Sbc), Some(AddressingMode::Mos6502(Mos6502AddressingMode::ZeroPageIndirectYIndexed))),
            5 => (Opcode::Mos6502(Mos6502Opcode::Sbc), Some(AddressingMode::Mos6502(Mos6502AddressingMode::XIndexedZeroPage))),
            6 => (Opcode::Mos6502(Mos6502Opcode::Sbc), Some(AddressingMode::Mos6502(Mos6502AddressingMode::YIndexedAbsolute))),
            7 => (Opcode::Mos6502(Mos6502Opcode::Sbc), Some(AddressingMode::Mos6502(Mos6502AddressingMode::XIndexedAbsolute))),
            _ => (Opcode::Mos6502(Mos6502Opcode::Jam), None),
        },
        _ => (Opcode::Mos6502(Mos6502Opcode::Jam), None),
    }
}

/// The read-modify-write and register-transfer group: low bits 2.
pub open spec fn spec_decode_group2(secondary: u8, argument: u8, kind: Mos6502Kind) -> (Opcode, Option<AddressingMode>) {
    match secondary {
        0 => match argument {
            0 => match kind {
                Mos6502Kind::Wdc65C02 => (Opcode::Mos6502(Mos6502Opcode::Nop), Some(AddressingMode::Mos6502(Mos6502AddressingMode::Immediate))),
                _ => (Opcode::Mos6502(Mos6502Opcode::Jam), None),
            },
            1 => (Opcode::Mos6502(Mos6502Opcode::Asl), Some(AddressingMode::Mos6502(Mos6502AddressingMode::ZeroPage))),
            2 => (Opcode::Mos6502(Mos6502Opcode::Asl), Some(AddressingMode::Mos6502(Mos6502AddressingMode::Accumulator))),
            3 => (Opcode::Mos6502(Mos6502Opcode::Asl), Some(AddressingMode::Mos6502(Mos6502AddressingMode::Absolute))),
            4 => match kind {
                Mos6502Kind::Wdc65C02 => (Opcode::Mos6502(Mos6502Opcode::Ora), Some(AddressingMode::Wdc65C02(Wdc65C02AddressingMode::ZeroPageIndirect))),
                _ => (Opcode::Mos6502(Mos6502Opcode::Jam), None),
            },
            5 => (Opcode::Mos6502(Mos6502Opcode::Asl), Some(AddressingMode::Mos6502(Mos6502AddressingMode::XIndexedZeroPage))),
            6 => match kind {
                Mos6502Kind::Wdc65C02 => (Opcode::Mos6502(Mos6502Opcode::Inc), Some(AddressingMode::Mos6502(Mos6502AddressingMode::Accumulator))),
                _ => (Opcode::Mos6502(Mos6502Opcode::Nop), None),
            },
            7 => (Opcode::Mos6502(Mos6502Opcode::Asl), Some(AddressingMode::Mos6502(Mos6502AddressingMode::XIndexedAbsolute))),
            _ => (Opcode::Mos6502(Mos6502Opcode::Jam), None),
        },
        1 => match argument {
            0 => match kind {
                Mos6502Kind::Wdc65C02 => (Opcode::Mos6502(Mos6502Opcode::Nop), Some(AddressingMode::Mos6502(Mos6502AddressingMode::Immediate))),
                _ => (Opcode::Mos6502(Mos6502Opcode::Jam), None),
            },
            1 => (Opcode::Mos6502(Mos6502Opcode::Rol), Some(AddressingMode::Mos6502(Mos6502AddressingMode::ZeroPage))),
            2 => (Opcode::Mos6502(Mos6502Opcode::Rol), Some(AddressingMode::Mos6502(Mos6502AddressingMode::Accumulator))),
            3 => (Opcode::Mos6502(Mos6502Opcode::Rol), Some(AddressingMode::Mos6502(Mos6502AddressingMode::Absolute))),
            4 => match kind {
                Mos6502Kind::Wdc65C02 => (Opcode::Mos6502(Mos6502Opcode::And), Some(AddressingMode::Wdc65C02(Wdc65C02AddressingMode::ZeroPageIndirect))),
                _ => (Opcode::Mos6502(Mos6502Opcode::Jam), None),
            },
            5 => (Opcode::Mos6502(Mos6502Opcode::Rol), Some(AddressingMode::Mos6502(Mos6502AddressingMode::XIndexedZeroPage))),
            6 => match kind {
                Mos6502Kind::Wdc65C02 => (Opcode::Mos6502(Mos6502Opcode::Dec), Some(AddressingMode::Mos6502(Mos6502AddressingMode::Accumulator))),
                _ => (Opcode::Mos6502(Mos6502Opcode::Nop), None),
            },
            7 => (Opcode::Mos6502(Mos6502Opcode::Rol), Some(AddressingMode::Mos6502(Mos6502AddressingMode::XIndexedAbsolute))),
            _ => (Opcode::Mos6502(Mos6502Opcode::Jam), None),
        },
        2 => match argument {
            0 => match kind {
                Mos6502Kind::Wdc65C02 => (Opcode::Mos6502(Mos6502Opcode::Nop), Some(AddressingMode::Mos6502(Mos6502AddressingMode::Immediate))),
                _ => (Opcode::Mos6502(Mos6502Opcode::Jam), None),
            },
            1 => (Opcode::Mos6502(Mos6502Opcode::Lsr), Some(AddressingMode::Mos6502(Mos6502AddressingMode::ZeroPage))),
            2 => (Opcode::Mos6502(Mos6502Opcode::Lsr), Some(AddressingMode::Mos6502(Mos6502AddressingMode::Accumulator))),
            3 => (Opcode::Mos6502(Mos6502Opcode::Lsr), Some(AddressingMode::Mos6502(Mos6502AddressingMode::Absolute))),
            4 => match kind {
                Mos6502Kind::Wdc65C02 => (Opcode::Mos6502(Mos6502Opcode::Eor), Some(AddressingMode::Wdc65C02(Wdc65C02AddressingMode::ZeroPageIndirect))),
                _ => (Opcode::Mos6502(Mos6502Opcode::Jam), None),
            },
            5 => (Opcode::Mos6502(Mos6502Opcode::Lsr), Some(AddressingMode::Mos6502(Mos6502AddressingMode::XIndexedZeroPage))),
            6 => match kind {
                Mos6502Kind::Wdc65C02 => (Opcode::Wdc65C02(Wdc65C02Opcode::Phy), None),
                _ => (Opcode::Mos6502(Mos6502Opcode::Nop), None),
            },
            7 => (Opcode::Mos6502(Mos6502Opcode::Lsr), Some(AddressingMode::Mos6502(Mos6502AddressingMode::XIndexedAbsolute))),
            _ => (Opcode::Mos6502(Mos6502Opcode::Jam), None),
        },
        3 => match argument {
            0 => match kind {
                Mos6502Kind::Wdc65C02 => (Opcode::Mos6502(Mos6502Opcode::Nop), Some(AddressingMode::Mos6502(Mos6502AddressingMode::Immediate))),
                _ => (Opcode::Mos6502(Mos6502Opcode::Jam), None),
            },
            1 => (Opcode::Mos6502(Mos6502Opcode::Ror), Some(AddressingMode::Mos6502(Mos6502AddressingMode::ZeroPage))),
            2 => (Opcode::Mos6502(Mos6502Opcode::Ror), Some(AddressingMode::Mos6502(Mos6502AddressingMode::Accumulator))),
            3 => (Opcode::Mos6502(Mos6502Opcode::Ror), Some(AddressingMode::Mos6502(Mos6502AddressingMode::Absolute))),
            4 => match kind {
                Mos6502Kind::Wdc65C02 => (Opcode::Mos6502(Mos6502Opcode::Adc), Some(AddressingMode::Wdc65C02(Wdc65C02AddressingMode::ZeroPageIndirect))),
                _ => (Opcode::Mos6502(Mos6502Opcode::Jam), None),
            },
            5 => (Opcode::Mos6502(Mos6502Opcode::Ror), Some(AddressingMode::Mos6502(Mos6502AddressingMode::XIndexedZeroPage))),
            6 => match kind {
                Mos6502Kind::Wdc65C02 => (Opcode::Wdc65C02(Wdc65C02Opcode::Ply), None),
                _ => (Opcode::Mos6502(Mos6502Opcode::Nop), None),
            },
            7 => (Opcode::Mos6502(Mos6502Opcode::Ror), Some(AddressingMode::Mos6502(Mos6502AddressingMode::XIndexedAbsolute))),
            _ => (Opcode::Mos6502(Mos6502Opcode::Jam), None),
        },
        4 => match argument {
            0 => (Opcode::Mos6502(Mos6502Opcode::Nop), Some(AddressingMode::Mos6502(Mos6502AddressingMode::Immediate))),
            1 => (Opcode::Mos6502(Mos6502Opcode::Stx), Some(AddressingMode::Mos6502(Mos6502AddressingMode::ZeroPage))),
            2 => (Opcode::Mos6502(Mos6502Opcode::Txa), None),
            3 => (Opcode::Mos6502(Mos6502Opcode::Stx), Some(AddressingMode::Mos6502(Mos6502AddressingMode::Absolute))),
            4 => match kind {
                Mos6502Kind::Wdc65C02 => (Opcode::Mos6502(Mos6502Opcode::Sta), Some(AddressingMode::Wdc65C02(Wdc65C02AddressingMode::ZeroPageIndirect))),
                _ => (Opcode::Mos6502(Mos6502Opcode::Jam), None),
            },
            5 => (Opcode::Mos6502(Mos6502Opcode::Stx), Some(AddressingMode::Mos6502(Mos6502AddressingMode::YIndexedZeroPage))),
            6 => (Opcode::Mos6502(Mos6502Opcode::Txs), None),
            7 => match kind {
                Mos6502Kind::Wdc65C02 => (Opcode::Wdc65C02(Wdc65C02Opcode::Stz), Some(AddressingMode::Mos6502(Mos6502AddressingMode::XIndexedAbsolute))),
                _ => (Opcode::Mos6502(Mos6502Opcode::Shx), Some(AddressingMode::Mos6502(Mos6502AddressingMode::YIndexedAbsolute))),
            },
            _ => (Opcode::Mos6502(Mos6502Opcode::Jam), None),
        },
        5 => match argument {
            0 => (Opcode::Mos6502(Mos6502Opcode::Ldx), Some(AddressingMode::Mos6502(Mos6502AddressingMode::Immediate))),
            1 => (Opcode::Mos6502(Mos6502Opcode::Ldx), Some(AddressingMode::Mos6502(Mos6502AddressingMode::ZeroPage))),
            2 => (Opcode::Mos6502(Mos6502Opcode::Tax), None),
            3 => (Opcode::Mos6502(Mos6502Opcode::Ldx), Some(AddressingMode::Mos6502(Mos6502AddressingMode::Absolute))),
            4 => match kind {
                Mos6502Kind::Wdc65C02 => (Opcode::Mos6502(Mos6502Opcode::Lda), Some(AddressingMode::Wdc65C02(Wdc65C02AddressingMode::ZeroPageIndirect))),
                _ => (Opcode::Mos6502(Mos6502Opcode::Jam), None),
            },
            5 => (Opcode::Mos6502(Mos6502Opcode::Ldx), Some(AddressingMode::Mos6502(Mos6502AddressingMode::YIndexedZeroPage))),
            6 => (Opcode::Mos6502(Mos6502Opcode::Tsx), None),
            7 => (Opcode::Mos6502(Mos6502Opcode::Ldx), Some(AddressingMode::Mos6502(Mos6502AddressingMode::YIndexedAbsolute))),
            _ => (Opcode::Mos6502(Mos6502Opcode::Jam), None),
        },
        6 => match argument {
            0 => (Opcode::Mos6502(Mos6502Opcode::Nop), Some(AddressingMode::Mos6502(Mos6502AddressingMode::Immediate))),
            1 => (Opcode::Mos6502(Mos6502Opcode::Dec), Some(AddressingMode::Mos6502(Mos6502AddressingMode::ZeroPage))),
            2 => (Opcode::Mos6502(Mos6502Opcode::Dex), None),
            3 => (Opcode::Mos6502(Mos6502Opcode::Dec), Some(AddressingMode::Mos6502(Mos6502AddressingMode::Absolute))),
            4 => match kind {
                Mos6502Kind::Wdc65C02 => (Opcode::Mos6502(Mos6502Opcode::Cmp), Some(AddressingMode::Wdc65C02(Wdc65C02AddressingMode::ZeroPageIndirect))),
                _ => (Opcode::Mos6502(Mos6502Opcode::Jam), None),
            },
            5 => (Opcode::Mos6502(Mos6502Opcode::Dec), Some(AddressingMode::Mos6502(Mos6502AddressingMode::XIndexedZeroPage))),
            6 => match kind {
                Mos6502Kind::Wdc65C02 => (Opcode::Wdc65C02(Wdc65C02Opcode::Phx), None),
                _ => (Opcode::Mos6502(Mos6502Opcode::Nop), None),
            },
            7 => (Opcode::Mos6502(Mos6502Opcode::Dec), Some(AddressingMode::Mos6502(Mos6502AddressingMode::XIndexedAbsolute))),
            _ => (Opcode::Mos6502(Mos6502Opcode::Jam), None),
        },
        7 => match argument {
            0 => (Opcode::Mos6502(Mos6502Opcode::Nop), Some(AddressingMode::Mos6502(Mos6502AddressingMode::Immediate))),
            1 => (Opcode::Mos6502(Mos6502Opcode::Inc), Some(AddressingMode::Mos6502(Mos6502AddressingMode::ZeroPage))),
            2 => (Opcode::Mos6502(Mos6502Opcode::Nop), None),
            3 => (Opcode::Mos6502(Mos6502Opcode::Inc), Some(AddressingMode::Mos6502(Mos6502AddressingMode::Absolute))),
            4 => match kind {
                Mos6502Kind::Wdc65C02 => (Opcode::Mos6502(Mos6502Opcode::Sbc), Some(AddressingMode::Wdc65C02(Wdc65C02AddressingMode::ZeroPageIndirect))),
                _ => (Opcode::Mos6502(Mos6502Opcode::Jam), None),
            },
            5 => (Opcode::Mos6502(Mos6502Opcode::Inc), Some(AddressingMode::Mos6502(Mos6502AddressingMode::XIndexedZeroPage))),
            6 => match kind {
                Mos6502Kind::Wdc65C02 => (Opcode::Wdc65C02(Wdc65C02Opcode::Plx), None),
                _ => (Opcode::Mos6502(Mos6502Opcode::Nop), None),
            },
            7 => (Opcode::Mos6502(Mos6502Opcode::Inc), Some(AddressingMode::Mos6502(Mos6502AddressingMode::XIndexedAbsolute))),
            _ => (Opcode::Mos6502(Mos6502Opcode::Jam), None),
        },
        _ => (Opcode::Mos6502(Mos6502Opcode::Jam), None),
    }
}

/// The read-modify-write and register-transfer group: low bits 2.
pub fn decode_group2_space_instruction(secondary: u8, argument: u8, kind: Mos6502Kind) -> (r: (Opcode, Option<AddressingMode>))
    ensures
        r == spec_decode_group2(secondary, argument, kind),
{
    match secondary {
        0 => match argument {
            0 => match kind {
                Mos6502Kind::Wdc65C02 => (Opcode::Mos6502(Mos6502Opcode::Nop), Some(AddressingMode::Mos6502(Mos6502AddressingMode::Immediate))),
                _ => (Opcode::Mos6502(Mos6502Opcode::Jam), None),
            },
            1 => (Opcode::Mos6502(Mos6502Opcode::Asl), Some(AddressingMode::Mos6502(Mos6502AddressingMode::ZeroPage))),
            2 => (Opcode::Mos6502(Mos6502Opcode::Asl), Some(AddressingMode::Mos6502(Mos6502AddressingMode::Accumulator))),
            3 => (Opcode::Mos6502(Mos6502Opcode::Asl), Some(AddressingMode::Mos6502(Mos6502AddressingMode::Absolute))),
            4 => match kind {
                Mos6502Kind::Wdc65C02 => (Opcode::Mos6502(Mos6502Opcode::Ora), Some(AddressingMode::Wdc65C02(Wdc65C02AddressingMode::ZeroPageIndirect))),
                _ => (Opcode::Mos6502(Mos6502Opcode::Jam), None),
            },
            5 => (Opcode::Mos6502(Mos6502Opcode::Asl), Some(AddressingMode::Mos6502(Mos6502AddressingMode::XIndexedZeroPage))),
            6 => match kind {
                Mos6502Kind::Wdc65C02 => (Opcode::Mos6502(Mos6502Opcode::Inc), Some(AddressingMode::Mos6502(Mos6502AddressingMode::Accumulator))),
                _ => (Opcode::Mos6502(Mos6502Opcode::Nop), None),
            },
            7 => (Opcode::Mos6502(Mos6502Opcode::Asl), Some(AddressingMode::Mos6502(Mos6502AddressingMode::XIndexedAbsolute))),
            _ => (Opcode::Mos6502(Mos6502Opcode::Jam), None),
        },
        1 => match argument {
            0 => match kind {
                Mos6502Kind::Wdc65C02 => (Opcode::Mos6502(Mos6502Opcode::Nop), Some(AddressingMode::Mos6502(Mos6502AddressingMode::Immediate))),
                _ => (Opcode::Mos6502(Mos6502Opcode::Jam), None),
            },
            1 => (Opcode::Mos6502(Mos6502Opcode::Rol), Some(AddressingMode::Mos6502(Mos6502AddressingMode::ZeroPage))),
            2 => (Opcode::Mos6502(Mos6502Opcode::Rol), Some(AddressingMode::Mos6502(Mos6502AddressingMode::Accumulator))),
            3 => (Opcode::Mos6502(Mos6502Opcode::Rol), Some(AddressingMode::Mos6502(Mos6502AddressingMode::Absolute))),
            4 => match kind {
                Mos6502Kind::Wdc65C02 => (Opcode::Mos6502(Mos6502Opcode::And), Some(AddressingMode::Wdc65C02(Wdc65C02AddressingMode::ZeroPageIndirect))),
                _ => (Opcode::Mos6502(Mos6502Opcode::Jam), None),
            },
            5 => (Opcode::Mos6502(Mos6502Opcode::Rol), Some(AddressingMode::Mos6502(Mos6502AddressingMode::XIndexedZeroPage))),
            6 => match kind {
                Mos6502Kind::Wdc65C02 => (Opcode::Mos6502(Mos6502Opcode::Dec), Some(AddressingMode::Mos6502(Mos6502AddressingMode::Accumulator))),
                _ => (Opcode::Mos6502(Mos6502Opcode::Nop), None),
            },
            7 => (Opcode::Mos6502(Mos6502Opcode::Rol), Some(AddressingMode::Mos6502(Mos6502AddressingMode::XIndexedAbsolute))),
            _ => (Opcode::Mos6502(Mos6502Opcode::Jam), None),
        },
        2 => match argument {
            0 => match kind {
                Mos6502Kind::Wdc65C02 => (Opcode::Mos6502(Mos6502Opcode::Nop), Some(AddressingMode::Mos6502(Mos6502AddressingMode::Immediate))),
                _ => (Opcode::Mos6502(Mos6502Opcode::Jam), None),
            },
            1 => (Opcode::Mos6502(Mos6502Opcode::Lsr), Some(AddressingMode::Mos6502(Mos6502AddressingMode::ZeroPage))),
            2 => (Opcode::Mos6502(Mos6502Opcode::Lsr), Some(AddressingMode::Mos6502(Mos6502AddressingMode::Accumulator))),
            3 => (Opcode::Mos6502(Mos6502Opcode::Lsr), Some(AddressingMode::Mos6502(Mos6502AddressingMode::Absolute))),
            4 => match kind {
                Mos6502Kind::Wdc65C02 => (Opcode::Mos6502(Mos6502Opcode::Eor), Some(AddressingMode::Wdc65C02(Wdc65C02AddressingMode::ZeroPageIndirect))),
                _ => (Opcode::Mos6502(Mos6502Opcode::Jam), None),
            },
            5 => (Opcode::Mos6502(Mos6502Opcode::Lsr), Some(AddressingMode::Mos6502(Mos6502AddressingMode::XIndexedZeroPage))),
            6 => match kind {
                Mos6502Kind::Wdc65C02 => (Opcode::Wdc65C02(Wdc65C02Opcode::Phy), None),
                _ => (Opcode::Mos6502(Mos6502Opcode::Nop), None),
            },
            7 => (Opcode::Mos6502(Mos6502Opcode::Lsr), Some(AddressingMode::Mos6502(Mos6502AddressingMode::XIndexedAbsolute))),
            _ => (Opcode::Mos6502(Mos6502Opcode::Jam), None),
        },
        3 => match argument {
            0 => match kind {
                Mos6502Kind::Wdc65C02 => (Opcode::Mos6502(Mos6502Opcode::Nop), Some(AddressingMode::Mos6502(Mos6502AddressingMode::Immediate))),
                _ => (Opcode::Mos6502(Mos6502Opcode::Jam), None),
            },
            1 => (Opcode::Mos6502(Mos6502Opcode::Ror), Some(AddressingMode::Mos6502(Mos6502AddressingMode::ZeroPage))),
            2 => (Opcode::Mos6502(Mos6502Opcode::Ror), Some(AddressingMode::Mos6502(Mos6502AddressingMode::Accumulator))),
            3 => (Opcode::Mos6502(Mos6502Opcode::Ror), Some(AddressingMode::Mos6502(Mos6502AddressingMode::Absolute))),
            4 => match kind {
                Mos6502Kind::Wdc65C02 => (Opcode::Mos6502(Mos6502Opcode::Adc), Some(AddressingMode::Wdc65C02(Wdc65C02AddressingMode::ZeroPageIndirect))),
                _ => (Opcode::Mos6502(Mos6502Opcode::Jam), None),
            },
            5 => (Opcode::Mos6502(Mos6502Opcode::Ror), Some(AddressingMode::Mos6502(Mos6502AddressingMode::XIndexedZeroPage))),
            6 => match kind {
                Mos6502Kind::Wdc65C02 => (Opcode::Wdc65C02(Wdc65C02Opcode::Ply), None),
                _ => (Opcode::Mos6502(Mos6502Opcode::Nop), None),
            },
            7 => (Opcode::Mos6502(Mos6502Opcode::Ror), Some(AddressingMode::Mos6502(Mos6502AddressingMode::XIndexedAbsolute))),
            _ => (Opcode::Mos6502(Mos6502Opcode::Jam), None),
        },
        4 => match argument {
            0 => (Opcode::Mos6502(Mos6502Opcode::Nop), Some(AddressingMode::Mos6502(Mos6502AddressingMode::Immediate))),
            1 => (Opcode::Mos6502(Mos6502Opcode::Stx), Some(AddressingMode::Mos6502(Mos6502AddressingMode::ZeroPage))),
            2 => (Opcode::Mos6502(Mos6502Opcode::Txa), None),
            3 => (Opcode::Mos6502(Mos6502Opcode::Stx), Some(AddressingMode::Mos6502(Mos6502AddressingMode::Absolute))),
            4 => match kind {
                Mos6502Kind::Wdc65C02 => (Opcode::Mos6502(Mos6502Opcode::Sta), Some(AddressingMode::Wdc65C02(Wdc65C02AddressingMode::ZeroPageIndirect))),
                _ => (Opcode::Mos6502(Mos6502Opcode::Jam), None),
            },
            5 => (Opcode::Mos6502(Mos6502Opcode::Stx), Some(AddressingMode::Mos6502(Mos6502AddressingMode::YIndexedZeroPage))),
            6 => (Opcode::Mos6502(Mos6502Opcode::Txs), None),
            7 => match kind {
                Mos6502Kind::Wdc65C02 => (Opcode::Wdc65C02(Wdc65C02Opcode::Stz), Some(AddressingMode::Mos6502(Mos6502AddressingMode::XIndexedAbsolute))),
                _ => (Opcode::Mos6502(Mos6502Opcode::Shx), Some(AddressingMode::Mos6502(Mos6502AddressingMode::YIndexedAbsolute))),
            },
            _ => (Opcode::Mos6502(Mos6502Opcode::Jam), None),
        },
        5 => match argument {
            0 => (Opcode::Mos6502(Mos6502Opcode::Ldx), Some(AddressingMode::Mos6502(Mos6502AddressingMode::Immediate))),
            1 => (Opcode::Mos6502(Mos6502Opcode::Ldx), Some(AddressingMode::Mos6502(Mos6502AddressingMode::ZeroPage))),
            2 => (Opcode::Mos6502(Mos6502Opcode::Tax), None),
            3 => (Opcode::Mos6502(Mos6502Opcode::Ldx), Some(AddressingMode::Mos6502(Mos6502AddressingMode::Absolute))),
            4 => match kind {
                Mos6502Kind::Wdc65C02 => (Opcode::Mos6502(Mos6502Opcode::Lda), Some(AddressingMode::Wdc65C02(Wdc65C02AddressingMode::ZeroPageIndirect))),
                _ => (Opcode::Mos6502(Mos6502Opcode::Jam), None),
            },
            5 => (Opcode::Mos6502(Mos6502Opcode::Ldx), Some(AddressingMode::Mos6502(Mos6502AddressingMode::YIndexedZeroPage))),
            6 => (Opcode::Mos6502(Mos6502Opcode::Tsx), None),
            7 => (Opcode::Mos6502(Mos6502Opcode::Ldx), Some(AddressingMode::Mos6502(Mos6502AddressingMode::YIndexedAbsolute))),
            _ => (Opcode::Mos6502(Mos6502Opcode::Jam), None),
        },
        6 => match argument {
            0 => (Opcode::Mos6502(Mos6502Opcode::Nop), Some(AddressingMode::Mos6502(Mos6502AddressingMode::Immediate))),
            1 => (Opcode::Mos6502(Mos6502Opcode::Dec), Some(AddressingMode::Mos6502(Mos6502AddressingMode::ZeroPage))),
            2 => (Opcode::Mos6502(Mos6502Opcode::Dex), None),
            3 => (Opcode::Mos6502(Mos6502Opcode::Dec), Some(AddressingMode::Mos6502(Mos6502AddressingMode::Absolute))),
            4 => match kind {
                Mos6502Kind::Wdc65C02 => (Opcode::Mos6502(Mos6502Opcode::Cmp), Some(AddressingMode::Wdc65C02(Wdc65C02AddressingMode::ZeroPageIndirect))),
                _ => (Opcode::Mos6502(Mos6502Opcode::Jam), None),
            },
            5 => (Opcode::Mos6502(Mos6502Opcode::Dec), Some(AddressingMode::Mos6502(Mos6502AddressingMode::XIndexedZeroPage))),
            6 => match kind {
                Mos6502Kind::Wdc65C02 => (Opcode::Wdc65C02(Wdc65C02Opcode::Phx), None),
                _ => (Opcode::Mos6502(Mos6502Opcode::Nop), None),
            },
            7 => (Opcode::Mos6502(Mos6502Opcode::Dec), Some(AddressingMode::Mos6502(Mos6502AddressingMode::XIndexedAbsolute))),
            _ => (Opcode::Mos6502(Mos6502Opcode::Jam), None),
        },
        7 => match argument {
            0 => (Opcode::Mos6502(Mos6502Opcode::Nop), Some(AddressingMode::Mos6502(Mos6502AddressingMode::Immediate))),
            1 => (Opcode::Mos6502(Mos6502Opcode::Inc), Some(AddressingMode::Mos6502(Mos6502AddressingMode::ZeroPage))),
            2 => (Opcode::Mos6502(Mos6502Opcode::Nop), None),
            3 => (Opcode::Mos6502(Mos6502Opcode::Inc), Some(AddressingMode::Mos6502(Mos6502AddressingMode::Absolute))),
            4 => match kind {
                Mos6502Kind::Wdc65C02 => (Opcode::Mos6502(Mos6502Opcode::Sbc), Some(AddressingMode::Wdc65C02(Wdc65C02AddressingMode::ZeroPageIndirect))),
                _ => (Opcode::Mos6502(Mos6502Opcode::Jam), None),
            },
            5 => (Opcode::Mos6502(Mos6502Opcode::Inc), Some(AddressingMode::Mos6502(Mos6502AddressingMode::XIndexedZeroPage))),
            6 => match kind {
                Mos6502Kind::Wdc65C02 => (Opcode::Wdc65C02(Wdc65C02Opcode::Plx), None),
                _ => (Opcode::Mos6502(Mos6502Opcode::Nop), None),
            },
            7 => (Opcode::Mos6502(Mos6502Opcode::Inc), Some(AddressingMode::Mos6502(Mos6502AddressingMode::XIndexedAbsolute))),
            _ => (Opcode::Mos6502(Mos6502Opcode::Jam), None),
        },
        _ => (Opcode::Mos6502(Mos6502Opcode::Jam), None),
    }
}

/// The control-flow and flag group: low bits 0.
pub open spec fn spec_decode_group3(secondary: u8, argument: u8, kind: Mos6502Kind) -> (Opcode, Option<AddressingMode>) {
    match secondary {
        0 => match argument {
            0 => (Opcode::Mos6502(Mos6502Opcode::Brk), None),
            1 => match kind {
                Mos6502Kind::Wdc65C02 => (Opcode::Wdc65C02(Wdc65C02Opcode::Tsb), Some(AddressingMode::Mos6502(Mos6502AddressingMode::ZeroPage))),
                _ => (Opcode::Mos6502(Mos6502Opcode::Nop), Some(AddressingMode::Mos6502(Mos6502AddressingMode::ZeroPage))),
            },
            2 => (Opcode::Mos6502(Mos6502Opcode::Php), None),
            3 => match kind {
                Mos6502Kind::Wdc65C02 => (Opcode::Wdc65C02(Wdc65C02Opcode::Tsb), Some(AddressingMode::Mos6502(Mos6502AddressingMode::Absolute))),
                _ => (Opcode::Mos6502(Mos6502Opcode::Nop), Some(AddressingMode::Mos6502(Mos6502AddressingMode::Absolute))),
            },
            4 => (Opcode::Mos6502(Mos6502Opcode::Bpl), Some(AddressingMode::Mos6502(Mos6502AddressingMode::Relative))),
            5 => match kind {
                Mos6502Kind::Wdc65C02 => (Opcode::Wdc65C02(Wdc65C02Opcode::Trb), Some(AddressingMode::Mos6502(Mos6502AddressingMode::ZeroPage))),
                _ => (Opcode::Mos6502(Mos6502Opcode::Nop), Some(AddressingMode::Mos6502(Mos6502AddressingMode::XIndexedZeroPage))),
            },
            6 => (Opcode::Mos6502(Mos6502Opcode::Clc), None),
            7 => match kind {
                Mos6502Kind::Wdc65C02 => (Opcode::Wdc65C02(Wdc65C02Opcode::Trb), Some(AddressingMode::Mos6502(Mos6502AddressingMode::Absolute))),
                _ => (Opcode::Mos6502(Mos6502Opcode::Nop), Some(AddressingMode::Mos6502(Mos6502AddressingMode::XIndexedAbsolute))),
            },
            _ => (Opcode::Mos6502(Mos6502Opcode::Jam), None),
        },
        1 => match argument {
            0 => (Opcode::Mos6502(Mos6502Opcode::Jsr), Some(AddressingMode::Mos6502(Mos6502AddressingMode::Absolute))),
            1 => (Opcode::Mos6502(Mos6502Opcode::Bit), Some(AddressingMode::Mos6502(Mos6502AddressingMode::ZeroPage))),
            2 => (Opcode::Mos6502(Mos6502Opcode::Plp), None),
            3 => (Opcode::Mos6502(Mos6502Opcode::Bit), Some(AddressingMode::Mos6502(Mos6502AddressingMode::Absolute))),
            4 => (Opcode::Mos6502(Mos6502Opcode::Bmi), Some(AddressingMode::Mos6502(Mos6502AddressingMode::Relative))),
            5 => match kind {
                Mos6502Kind::Wdc65C02 => (Opcode::Mos6502(Mos6502Opcode::Bit), Some(AddressingMode::Mos6502(Mos6502AddressingMode::XIndexedZeroPage))),
                _ => (Opcode::Mos6502(Mos6502Opcode::Nop), Some(AddressingMode::Mos6502(Mos6502AddressingMode::XIndexedZeroPage))),
            },
            6 => (Opcode::Mos6502(Mos6502Opcode::Sec), None),
            7 => match kind {
                Mos6502Kind::Wdc65C02 => (Opcode::Mos6502(Mos6502Opcode::Bit), Some(AddressingMode::Mos6502(Mos6502AddressingMode::XIndexedAbsolute))),
                _ => (Opcode::Mos6502(Mos6502Opcode::Nop), Some(AddressingMode::Mos6502(Mos6502AddressingMode::XIndexedAbsolute))),
            },
            _ => (Opcode::Mos6502(Mos6502Opcode::Jam), None),
        },
        2 => match argument {
            0 => (Opcode::Mos6502(Mos6502Opcode::Rti), None),
            1 => (Opcode::Mos6502(Mos6502Opcode::Nop), Some(AddressingMode::Mos6502(Mos6502AddressingMode::ZeroPage))),
            2 => (Opcode::Mos6502(Mos6502Opcode::Pha), None),
            3 => (Opcode::Mos6502(Mos6502Opcode::Jmp), Some(AddressingMode::Mos6502(Mos6502AddressingMode::Absolute))),
            4 => (Opcode::Mos6502(Mos6502Opcode::Bvc), Some(AddressingMode::Mos6502(Mos6502AddressingMode::Relative))),
            5 => (Opcode::Mos6502(Mos6502Opcode::Nop), Some(AddressingMode::Mos6502(Mos6502AddressingMode::XIndexedZeroPage))),
            6 => (Opcode::Mos6502(Mos6502Opcode::Cli), None),
            7 => (Opcode::Mos6502(Mos6502Opcode::Nop), Some(AddressingMode::Mos6502(Mos6502AddressingMode::XIndexedAbsolute))),
            _ => (Opcode::Mos6502(Mos6502Opcode::Jam), None),
        },
        3 => match argument {
            0 => (Opcode::Mos6502(Mos6502Opcode::Rts), None),
            1 => match kind {
                Mos6502Kind::Wdc65C02 => (Opcode::Wdc65C02(Wdc65C02Opcode::Stz), Some(AddressingMode::Mos6502(Mos6502AddressingMode::ZeroPage))),
                _ => (Opcode::Mos6502(Mos6502Opcode::Nop), Some(AddressingMode::Mos6502(Mos6502AddressingMode::ZeroPage))),
            },
            2 => (Opcode::Mos6502(Mos6502Opcode::Pla), None),
            3 => (Opcode::Mos6502(Mos6502Opcode::Jmp), Some(AddressingMode::Mos6502(Mos6502AddressingMode::AbsoluteIndirect))),
            4 => (Opcode::Mos6502(Mos6502Opcode::Bvs), Some(AddressingMode::Mos6502(Mos6502AddressingMode::Relative))),
            5 => match kind {
                Mos6502Kind::Wdc65C02 => (Opcode::Wdc65C02(Wdc65C02Opcode::Stz), Some(AddressingMode::Mos6502(Mos6502AddressingMode::XIndexedZeroPage))),
                _ => (Opcode::Mos6502(Mos6502Opcode::Nop), Some(AddressingMode::Mos6502(Mos6502AddressingMode::XIndexedZeroPage))),
            },
            6 => (Opcode::Mos6502(Mos6502Opcode::Sei), None),
            7 => (Opcode::Mos6502(Mos6502Opcode::Nop), Some(AddressingMode::Mos6502(Mos6502AddressingMode::XIndexedAbsolute))),
            _ => (Opcode::Mos6502(Mos6502Opcode::Jam), None),
        },
        4 => match argument {
            0 => match kind {
                Mos6502Kind::Wdc65C02 => (Opcode::Wdc65C02(Wdc65C02Opcode::Bra), Some(AddressingMode::Mos6502(Mos6502AddressingMode::Relative))),
                _ => (Opcode::Mos6502(Mos6502Opcode::Nop), Some(AddressingMode::Mos6502(Mos6502AddressingMode::Immediate))),
            },
            1 => (Opcode::Mos6502(Mos6502Opcode::Sty), Some(AddressingMode::Mos6502(Mos6502AddressingMode::ZeroPage))),
            2 => (Opcode::Mos6502(Mos6502Opcode::Dey), None),
            3 => (Opcode::Mos6502(Mos6502Opcode::Sty), Some(AddressingMode::Mos6502(Mos6502AddressingMode::Absolute))),
            4 => (Opcode::Mos6502(Mos6502Opcode::Bcc), Some(AddressingMode::Mos6502(Mos6502AddressingMode::Relative))),
            5 => (Opcode::Mos6502(Mos6502Opcode::Sty), Some(AddressingMode::Mos6502(Mos6502AddressingMode::XIndexedZeroPage))),
            6 => (Opcode::Mos6502(Mos6502Opcode::Tya), None),
            7 => match kind {
                Mos6502Kind::Wdc65C02 => (Opcode::Wdc65C02(Wdc65C02Opcode::Stz), Some(AddressingMode::Mos6502(Mos6502AddressingMode::Absolute))),
                _ => (Opcode::Mos6502(Mos6502Opcode::Shy), Some(AddressingMode::Mos6502(Mos6502AddressingMode::XIndexedAbsolute))),
            },
            _ => (Opcode::Mos6502(Mos6502Opcode::Jam), None),
        },
        5 => match argument {
            0 => (Opcode::Mos6502(Mos6502Opcode::Ldy), Some(AddressingMode::Mos6502(Mos6502AddressingMode::Immediate))),
            1 => (Opcode::Mos6502(Mos6502Opcode::Ldy), Some(AddressingMode::Mos6502(Mos6502AddressingMode::ZeroPage))),
            2 => (Opcode::Mos6502(Mos6502Opcode::Tay), None),
            3 => (Opcode::Mos6502(Mos6502Opcode::Ldy), Some(AddressingMode::Mos6502(Mos6502AddressingMode::Absolute))),
            4 => (Opcode::Mos6502(Mos6502Opcode::Bcs), Some(AddressingMode::Mos6502(Mos6502AddressingMode::Relative))),
            5 => (Opcode::Mos6502(Mos6502Opcode::Ldy), Some(AddressingMode::Mos6502(Mos6502AddressingMode::XIndexedZeroPage))),
            6 => (Opcode::Mos6502(Mos6502Opcode::Clv), None),
            7 => (Opcode::Mos6502(Mos6502Opcode::Ldy), Some(AddressingMode::Mos6502(Mos6502AddressingMode::XIndexedAbsolute))),
            _ => (Opcode::Mos6502(Mos6502Opcode::Jam), None),
        },
        6 => match argument {
            0 => (Opcode::Mos6502(Mos6502Opcode::Cpy), Some(AddressingMode::Mos6502(Mos6502AddressingMode::Immediate))),
            1 => (Opcode::Mos6502(Mos6502Opcode::Cpy), Some(AddressingMode::Mos6502(Mos6502AddressingMode::ZeroPage))),
            2 => (Opcode::Mos6502(Mos6502Opcode::Iny), None),
            3 => (Opcode::Mos6502(Mos6502Opcode::Cpy), Some(AddressingMode::Mos6502(Mos6502AddressingMode::Absolute))),
            4 => (Opcode::Mos6502(Mos6502Opcode::Bne), Some(AddressingMode::Mos6502(Mos6502AddressingMode::Relative))),
            5 => (Opcode::Mos6502(Mos6502Opcode::Nop), Some(AddressingMode::Mos6502(Mos6502AddressingMode::XIndexedZeroPage))),
            6 => (Opcode::Mos6502(Mos6502Opcode::Cld), None),
            7 => (Opcode::Mos6502(Mos6502Opcode::Nop), Some(AddressingMode::Mos6502(Mos6502AddressingMode::XIndexedAbsolute))),
            _ => (Opcode::Mos6502(Mos6502Opcode::Jam), None),
        },
        7 => match argument {
            0 => (Opcode::Mos6502(Mos6502Opcode::Cpx), Some(AddressingMode::Mos6502(Mos6502AddressingMode::Immediate))),
            1 => (Opcode::Mos6502(Mos6502Opcode::Cpx), Some(AddressingMode::Mos6502(Mos6502AddressingMode::ZeroPage))),
            2 => (Opcode::Mos6502(Mos6502Opcode::Inx), None),
            3 => (Opcode::Mos6502(Mos6502Opcode::Cpx), Some(AddressingMode::Mos6502(Mos6502AddressingMode::Absolute))),
            4 => (Opcode::Mos6502(Mos6502Opcode::Beq), Some(AddressingMode::Mos6502(Mos6502AddressingMode::Relative))),
            5 => (Opcode::Mos6502(Mos6502Opcode::Nop), Some(AddressingMode::Mos6502(Mos6502AddressingMode::XIndexedZeroPage))),
            6 => (Opcode::Mos6502(Mos6502Opcode::Sed), None),
            7 => (Opcode::Mos6502(Mos6502Opcode::Nop), Some(AddressingMode::Mos6502(Mos6502AddressingMode::XIndexedAbsolute))),
            _ => (Opcode::Mos6502(Mos6502Opcode::Jam), None),
        },
        _ => (Opcode::Mos6502(Mos6502Opcode::Jam), None),
    }
}

/// The control-flow and flag group: low bits 0.
pub fn decode_group3_space_instruction(secondary: u8, argument: u8, kind: Mos6502Kind) -> (r: (Opcode, Option<AddressingMode>))
    ensures
        r == spec_decode_group3(secondary, argument, kind),
{
    match secondary {
        0 => match argument {
            0 => (Opcode::Mos6502(Mos6502Opcode::Brk), None),
            1 => match kind {
                Mos6502Kind::Wdc65C02 => (Opcode::Wdc65C02(Wdc65C02Opcode::Tsb), Some(AddressingMode::Mos6502(Mos6502AddressingMode::ZeroPage))),
                _ => (Opcode::Mos6502(Mos6502Opcode::Nop), Some(AddressingMode::Mos6502(Mos6502AddressingMode::ZeroPage))),
            },
            2 => (Opcode::Mos6502(Mos6502Opcode::Php), None),
            3 => match kind {
                Mos6502Kind::Wdc65C02 => (Opcode::Wdc65C02(Wdc65C02Opcode::Tsb), Some(AddressingMode::Mos6502(Mos6502AddressingMode::Absolute))),
                _ => (Opcode::Mos6502(Mos6502Opcode::Nop), Some(AddressingMode::Mos6502(Mos6502AddressingMode::Absolute))),
            },
            4 => (Opcode::Mos6502(Mos6502Opcode::Bpl), Some(AddressingMode::Mos6502(Mos6502AddressingMode::Relative))),
            5 => match kind {
                Mos6502Kind::Wdc65C02 => (Opcode::Wdc65C02(Wdc65C02Opcode::Trb), Some(AddressingMode::Mos6502(Mos6502AddressingMode::ZeroPage))),
                _ => (Opcode::Mos6502(Mos6502Opcode::Nop), Some(AddressingMode::Mos6502(Mos6502AddressingMode::XIndexedZeroPage))),
            },
            6 => (Opcode::Mos6502(Mos6502Opcode::Clc), None),
            7 => match kind {
                Mos6502Kind::Wdc65C02 => (Opcode::Wdc65C02(Wdc65C02Opcode::Trb), Some(AddressingMode::Mos6502(Mos6502AddressingMode::Absolute))),
                _ => (Opcode::Mos6502(Mos6502Opcode::Nop), Some(AddressingMode::Mos6502(Mos6502AddressingMode::XIndexedAbsolute))),
            },
            _ => (Opcode::Mos6502(Mos6502Opcode::Jam), None),
        },
        1 => match argument {
            0 => (Opcode::Mos6502(Mos6502Opcode::Jsr), Some(AddressingMode::Mos6502(Mos6502AddressingMode::Absolute))),
            1 => (Opcode::Mos6502(Mos6502Opcode::Bit), Some(AddressingMode::Mos6502(Mos6502AddressingMode::ZeroPage))),
            2 => (Opcode::Mos6502(Mos6502Opcode::Plp), None),
            3 => (Opcode::Mos6502(Mos6502Opcode::Bit), Some(AddressingMode::Mos6502(Mos6502AddressingMode::Absolute))),
            4 => (Opcode::Mos6502(Mos6502Opcode::Bmi), Some(AddressingMode::Mos6502(Mos6502AddressingMode::Relative))),
            5 => match kind {
                Mos6502Kind::Wdc65C02 => (Opcode::Mos6502(Mos6502Opcode::Bit), Some(AddressingMode::Mos6502(Mos6502AddressingMode::XIndexedZeroPage))),
                _ => (Opcode::Mos6502(Mos6502Opcode::Nop), Some(AddressingMode::Mos6502(Mos6502AddressingMode::XIndexedZeroPage))),
            },
            6 => (Opcode::Mos6502(Mos6502Opcode::Sec), None),
            7 => match kind {
                Mos6502Kind::Wdc65C02 => (Opcode::Mos6502(Mos6502Opcode::Bit), Some(AddressingMode::Mos6502(Mos6502AddressingMode::XIndexedAbsolute))),
                _ => (Opcode::Mos6502(Mos6502Opcode::Nop), Some(AddressingMode::Mos6502(Mos6502AddressingMode::XIndexedAbsolute))),
            },
            _ => (Opcode::Mos6502(Mos6502Opcode::Jam), None),
        },
        2 => match argument {
            0 => (Opcode::Mos6502(Mos6502Opcode::Rti), None),
            1 => (Opcode::Mos6502(Mos6502Opcode::Nop), Some(AddressingMode::Mos6502(Mos6502AddressingMode::ZeroPage))),
            2 => (Opcode::Mos6502(Mos6502Opcode::Pha), None),
            3 => (Opcode::Mos6502(Mos6502Opcode::Jmp), Some(AddressingMode::Mos6502(Mos6502AddressingMode::Absolute))),
            4 => (Opcode::Mos6502(Mos6502Opcode::Bvc), Some(AddressingMode::Mos6502(Mos6502AddressingMode::Relative))),
            5 => (Opcode::Mos6502(Mos6502Opcode::Nop), Some(AddressingMode::Mos6502(Mos6502AddressingMode::XIndexedZeroPage))),
            6 => (Opcode::Mos6502(Mos6502Opcode::Cli), None),
            7 => (Opcode::Mos6502(Mos6502Opcode::Nop), Some(AddressingMode::Mos6502(Mos6502AddressingMode::XIndexedAbsolute))),
            _ => (Opcode::Mos6502(Mos6502Opcode::Jam), None),
        },
        3 => match argument {
            0 => (Opcode::Mos6502(Mos6502Opcode::Rts), None),
            1 => match kind {
                Mos6502Kind::Wdc65C02 => (Opcode::Wdc65C02(Wdc65C02Opcode::Stz), Some(AddressingMode::Mos6502(Mos6502AddressingMode::ZeroPage))),
                _ => (Opcode::Mos6502(Mos6502Opcode::Nop), Some(AddressingMode::Mos6502(Mos6502AddressingMode::ZeroPage))),
            },
            2 => (Opcode::Mos6502(Mos6502Opcode::Pla), None),
            3 => (Opcode::Mos6502(Mos6502Opcode::Jmp), Some(AddressingMode::Mos6502(Mos6502AddressingMode::AbsoluteIndirect))),
            4 => (Opcode::Mos6502(Mos6502Opcode::Bvs), Some(AddressingMode::Mos6502(Mos6502AddressingMode::Relative))),
            5 => match kind {
                Mos6502Kind::Wdc65C02 => (Opcode::Wdc65C02(Wdc65C02Opcode::Stz), Some(AddressingMode::Mos6502(Mos6502AddressingMode::XIndexedZeroPage))),
                _ => (Opcode::Mos6502(Mos6502Opcode::Nop), Some(AddressingMode::Mos6502(Mos6502AddressingMode::XIndexedZeroPage))),
            },
            6 => (Opcode::Mos6502(Mos6502Opcode::Sei), None),
            7 => (Opcode::Mos6502(Mos6502Opcode::Nop), Some(AddressingMode::Mos6502(Mos6502AddressingMode::XIndexedAbsolute))),
            _ => (Opcode::Mos6502(Mos6502Opcode::Jam), None),
        },
        4 => match argument {
            0 => match kind {
                Mos6502Kind::Wdc65C02 => (Opcode::Wdc65C02(Wdc65C02Opcode::Bra), Some(AddressingMode::Mos6502(Mos6502AddressingMode::Relative))),
                _ => (Opcode::Mos6502(Mos6502Opcode::Nop), Some(AddressingMode::Mos6502(Mos6502AddressingMode::Immediate))),
            },
            1 => (Opcode::Mos6502(Mos6502Opcode::Sty), Some(AddressingMode::Mos6502(Mos6502AddressingMode::ZeroPage))),
            2 => (Opcode::Mos6502(Mos6502Opcode::Dey), None),
            3 => (Opcode::Mos6502(Mos6502Opcode::Sty), Some(AddressingMode::Mos6502(Mos6502AddressingMode::Absolute))),
            4 => (Opcode::Mos6502(Mos6502Opcode::Bcc), Some(AddressingMode::Mos6502(Mos6502AddressingMode::Relative))),
            5 => (Opcode::Mos6502(Mos6502Opcode::Sty), Some(AddressingMode::Mos6502(Mos6502AddressingMode::XIndexedZeroPage))),
            6 => (Opcode::Mos6502(Mos6502Opcode::Tya), None),
            7 => match kind {
                Mos6502Kind::Wdc65C02 => (Opcode::Wdc65C02(Wdc65C02Opcode::Stz), Some(AddressingMode::Mos6502(Mos6502AddressingMode::Absolute))),
                _ => (Opcode::Mos6502(Mos6502Opcode::Shy), Some(AddressingMode::Mos6502(Mos6502AddressingMode::XIndexedAbsolute))),
            },
            _ => (Opcode::Mos6502(Mos6502Opcode::Jam), None),
        },
        5 => match argument {
            0 => (Opcode::Mos6502(Mos6502Opcode::Ldy), Some(AddressingMode::Mos6502(Mos6502AddressingMode::Immediate))),
            1 => (Opcode::Mos6502(Mos6502Opcode::Ldy), Some(AddressingMode::Mos6502(Mos6502AddressingMode::ZeroPage))),
            2 => (Opcode::Mos6502(Mos6502Opcode::Tay), None),
            3 => (Opcode::Mos6502(Mos6502Opcode::Ldy), Some(AddressingMode::Mos6502(Mos6502AddressingMode::Absolute))),
            4 => (Opcode::Mos6502(Mos6502Opcode::Bcs), Some(AddressingMode::Mos6502(Mos6502AddressingMode::Relative))),
            5 => (Opcode::Mos6502(Mos6502Opcode::Ldy), Some(AddressingMode::Mos6502(Mos6502AddressingMode::XIndexedZeroPage))),
            6 => (Opcode::Mos6502(Mos6502Opcode::Clv), None),
            7 => (Opcode::Mos6502(Mos6502Opcode::Ldy), Some(AddressingMode::Mos6502(Mos6502AddressingMode::XIndexedAbsolute))),
            _ => (Opcode::Mos6502(Mos6502Opcode::Jam), None),
        },
        6 => match argument {
            0 => (Opcode::Mos6502(Mos6502Opcode::Cpy), Some(AddressingMode::Mos6502(Mos6502AddressingMode::Immediate))),
            1 => (Opcode::Mos6502(Mos6502Opcode::Cpy), Some(AddressingMode::Mos6502(Mos6502AddressingMode::ZeroPage))),
            2 => (Opcode::Mos6502(Mos6502Opcode::Iny), None),
            3 => (Opcode::Mos6502(Mos6502Opcode::Cpy), Some(AddressingMode::Mos6502(Mos6502AddressingMode::Absolute))),
            4 => (Opcode::Mos6502(Mos6502Opcode::Bne), Some(AddressingMode::Mos6502(Mos6502AddressingMode::Relative))),
            5 => (Opcode::Mos6502(Mos6502Opcode::Nop), Some(AddressingMode::Mos6502(Mos6502AddressingMode::XIndexedZeroPage))),
            6 => (Opcode::Mos6502(Mos6502Opcode::Cld), None),
            7 => (Opcode::Mos6502(Mos6502Opcode::Nop), Some(AddressingMode::Mos6502(Mos6502AddressingMode::XIndexedAbsolute))),
            _ => (Opcode::Mos6502(Mos6502Opcode::Jam), None),
        },
        7 => match argument {
            0 => (Opcode::Mos6502(Mos6502Opcode::Cpx), Some(AddressingMode::Mos6502(Mos6502AddressingMode::Immediate))),
            1 => (Opcode::Mos6502(Mos6502Opcode::Cpx), Some(AddressingMode::Mos6502(Mos6502AddressingMode::ZeroPage))),
            2 => (Opcode::Mos6502(Mos6502Opcode::Inx), None),
            3 => (Opcode::Mos6502(Mos6502Opcode::Cpx), Some(AddressingMode::Mos6502(Mos6502AddressingMode::Absolute))),
            4 => (Opcode::Mos6502(Mos6502Opcode::Beq), Some(AddressingMode::Mos6502(Mos6502AddressingMode::Relative))),
            5 => (Opcode::Mos6502(Mos6502Opcode::Nop), Some(AddressingMode::Mos6502(Mos6502AddressingMode::XIndexedZeroPage))),
            6 => (Opcode::Mos6502(Mos6502Opcode::Sed), None),
            7 => (Opcode::Mos6502(Mos6502Opcode::Nop), Some(AddressingMode::Mos6502(Mos6502AddressingMode::XIndexedAbsolute))),
            _ => (Opcode::Mos6502(Mos6502Opcode::Jam), None),
        },
        _ => (Opcode::Mos6502(Mos6502Opcode::Jam), None),
    }
}

/// The undocumented group: bytes whose low two bits are both set.
pub open spec fn spec_decode_undocumented(secondary: u8, argument: u8, kind: Mos6502Kind) -> (Opcode, Option<AddressingMode>) {
    match secondary {
        0 => match argument {
            0 => match kind {
                Mos6502Kind::Wdc65C02 => (Opcode::Mos6502(Mos6502Opcode::Nop), None),
                _ => (Opcode::Mos6502(Mos6502Opcode::Slo), Some(AddressingMode::Mos6502(Mos6502AddressingMode::XIndexedZeroPageIndirect))),
            },
            1 => match kind {
                Mos6502Kind::Wdc65C02 => (Opcode::Mos6502(Mos6502Opcode::Nop), None),
                _ => (Opcode::Mos6502(Mos6502Opcode::Slo), Some(AddressingMode::Mos6502(Mos6502AddressingMode::ZeroPage))),
            },
            2 => match kind {
                Mos6502Kind::Wdc65C02 => (Opcode::Mos6502(Mos6502Opcode::Nop), None),
                _ => (Opcode::Mos6502(Mos6502Opcode::Anc), Some(AddressingMode::Mos6502(Mos6502AddressingMode::Immediate))),
            },
            3 => match kind {
                Mos6502Kind::Wdc65C02 => (Opcode::Mos6502(Mos6502Opcode::Nop), None),
                _ => (Opcode::Mos6502(Mos6502Opcode::Slo), Some(AddressingMode::Mos6502(Mos6502AddressingMode::Absolute))),
            },
            4 => match kind {
                Mos6502Kind::Wdc65C02 => (Opcode::Mos6502(Mos6502Opcode::Nop), None),
                _ => (Opcode::Mos6502(Mos6502Opcode::Slo), Some(AddressingMode::Mos6502(Mos6502AddressingMode::ZeroPageIndirectYIndexed))),
            },
            5 => match kind {
                Mos6502Kind::Wdc65C02 => (Opcode::Mos6502(Mos6502Opcode::Nop), None),
                _ => (Opcode::Mos6502(Mos6502Opcode::Slo), Some(AddressingMode::Mos6502(Mos6502AddressingMode::XIndexedZeroPage))),
            },
            6 => match kind {
                Mos6502Kind::Wdc65C02 => (Opcode::Mos6502(Mos6502Opcode::Nop), None),
                _ => (Opcode::Mos6502(Mos6502Opcode::Slo), Some(AddressingMode::Mos6502(Mos6502AddressingMode::YIndexedAbsolute))),
            },
            7 => match kind {
                Mos6502Kind::Wdc65C02 => (Opcode::Mos6502(Mos6502Opcode::Nop), None),
                _ => (Opcode::Mos6502(Mos6502Opcode::Slo), Some(AddressingMode::Mos6502(Mos6502AddressingMode::XIndexedAbsolute))),
            },
            _ => (Opcode::Mos6502(Mos6502Opcode::Jam), None),
        },
        1 => match argument {
            0 => match kind {
                Mos6502Kind::Wdc65C02 => (Opcode::Mos6502(Mos6502Opcode::Nop), None),
                _ => (Opcode::Mos6502(Mos6502Opcode::Rla), Some(AddressingMode::Mos6502(Mos6502AddressingMode::XIndexedZeroPageIndirect))),
            },
            1 => match kind {
                Mos6502Kind::Wdc65C02 => (Opcode::Mos6502(Mos6502Opcode::Nop), None),
                _ => (Opcode::Mos6502(Mos6502Opcode::Rla), Some(AddressingMode::Mos6502(Mos6502AddressingMode::ZeroPage))),
            },
            2 => match kind {
                Mos6502Kind::Wdc65C02 => (Opcode::Mos6502(Mos6502Opcode::Nop), None),
                _ => (Opcode::Mos6502(Mos6502Opcode::Anc), Some(AddressingMode::Mos6502(Mos6502AddressingMode::Immediate))),
            },
            3 => match kind {
                Mos6502Kind::Wdc65C02 => (Opcode::Mos6502(Mos6502Opcode::Nop), None),
                _ => (Opcode::Mos6502(Mos6502Opcode::Rla), Some(AddressingMode::Mos6502(Mos6502AddressingMode::Absolute))),
            },
            4 => match kind {
                Mos6502Kind::Wdc65C02 => (Opcode::Mos6502(Mos6502Opcode::Nop), None),
                _ => (Opcode::Mos6502(Mos6502Opcode::Rla), Some(AddressingMode::Mos6502(Mos6502AddressingMode::ZeroPageIndirectYIndexed))),
            },
            5 => match kind {
                Mos6502Kind::Wdc65C02 => (Opcode::Mos6502(Mos6502Opcode::Nop), None),
                _ => (Opcode::Mos6502(Mos6502Opcode::Rla), Some(AddressingMode::Mos6502(Mos6502AddressingMode::XIndexedZeroPage))),
            },
            6 => match kind {
                Mos6502Kind::Wdc65C02 => (Opcode::Mos6502(Mos6502Opcode::Nop), None),
                _ => (Opcode::Mos6502(Mos6502Opcode::Rla), Some(AddressingMode::Mos6502(Mos6502AddressingMode::YIndexedAbsolute))),
            },
            7 => match kind {
                Mos6502Kind::Wdc65C02 => (Opcode::Mos6502(Mos6502Opcode::Nop), None),
                _ => (Opcode::Mos6502(Mos6502Opcode::Rla), Some(AddressingMode::Mos6502(Mos6502AddressingMode::XIndexedAbsolute))),
            },
            _ => (Opcode::Mos6502(Mos6502Opcode::Jam), None),
        },
        2 => match argument {
            0 => match kind {
                Mos6502Kind::Wdc65C02 => (Opcode::Mos6502(Mos6502Opcode::Nop), None),
                _ => (Opcode::Mos6502(Mos6502Opcode::Sre), Some(AddressingMode::Mos6502(Mos6502AddressingMode::XIndexedZeroPageIndirect))),
            },
            1 => match kind {
                Mos6502Kind::Wdc65C02 => (Opcode::Mos6502(Mos6502Opcode::Nop), None),
                _ => (Opcode::Mos6502(Mos6502Opcode::Sre), Some(AddressingMode::Mos6502(Mos6502AddressingMode::ZeroPage))),
            },
            2 => match kind {
                Mos6502Kind::Wdc65C02 => (Opcode::Mos6502(Mos6502Opcode::Nop), None),
                _ => (Opcode::Mos6502(Mos6502Opcode::Asr), Some(AddressingMode::Mos6502(Mos6502AddressingMode::Immediate))),
            },
            3 => match kind {
                Mos6502Kind::Wdc65C02 => (Opcode::Mos6502(Mos6502Opcode::Nop), None),
                _ => (Opcode::Mos6502(Mos6502Opcode::Sre), Some(AddressingMode::Mos6502(Mos6502AddressingMode::Absolute))),
            },
            4 => match kind {
                Mos6502Kind::Wdc65C02 => (Opcode::Mos6502(Mos6502Opcode::Nop), None),
                _ => (Opcode::Mos6502(Mos6502Opcode::Sre), Some(AddressingMode::Mos6502(Mos6502AddressingMode::ZeroPageIndirectYIndexed))),
            },
            5 => match kind {
                Mos6502Kind::Wdc65C02 => (Opcode::Mos6502(Mos6502Opcode::Nop), None),
                _ => (Opcode::Mos6502(Mos6502Opcode::Sre), Some(AddressingMode::Mos6502(Mos6502AddressingMode::XIndexedZeroPage))),
            },
            6 => match kind {
                Mos6502Kind::Wdc65C02 => (Opcode::Mos6502(Mos6502Opcode::Nop), None),
                _ => (Opcode::Mos6502(Mos6502Opcode::Sre), Some(AddressingMode::Mos6502(Mos6502AddressingMode::YIndexedAbsolute))),
            },
            7 => match kind {
                Mos6502Kind::Wdc65C02 => (Opcode::Mos6502(Mos6502Opcode::Nop), None),
                _ => (Opcode::Mos6502(Mos6502Opcode::Sre), Some(AddressingMode::Mos6502(Mos6502AddressingMode::XIndexedAbsolute))),
            },
            _ => (Opcode::Mos6502(Mos6502Opcode::Jam), None),
        },
        3 => match argument {
            0 => match kind {
                Mos6502Kind::Wdc65C02 => (Opcode::Mos6502(Mos6502Opcode::Nop), None),
                _ => (Opcode::Mos6502(Mos6502Opcode::Rra), Some(AddressingMode::Mos6502(Mos6502AddressingMode::XIndexedZeroPageIndirect))),
            },
            1 => match kind {
                Mos6502Kind::Wdc65C02 => (Opcode::Mos6502(Mos6502Opcode::Nop), None),
                _ => (Opcode::Mos6502(Mos6502Opcode::Rra), Some(AddressingMode::Mos6502(Mos6502AddressingMode::ZeroPage))),
            },
            2 => match kind {
                Mos6502Kind::Wdc65C02 => (Opcode::Mos6502(Mos6502Opcode::Nop), None),
                _ => (Opcode::Mos6502(Mos6502Opcode::Arr), Some(AddressingMode::Mos6502(Mos6502AddressingMode::Immediate))),
            },
            3 => match kind {
                Mos6502Kind::Wdc65C02 => (Opcode::Mos6502(Mos6502Opcode::Nop), None),
                _ => (Opcode::Mos6502(Mos6502Opcode::Rra), Some(AddressingMode::Mos6502(Mos6502AddressingMode::Absolute))),
            },
            4 => match kind {
                Mos6502Kind::Wdc65C02 => (Opcode::Mos6502(Mos6502Opcode::Nop), None),
                _ => (Opcode::Mos6502(Mos6502Opcode::Rra), Some(AddressingMode::Mos6502(Mos6502AddressingMode::ZeroPageIndirectYIndexed))),
            },
            5 => match kind {
                Mos6502Kind::Wdc65C02 => (Opcode::Mos6502(Mos6502Opcode::Nop), None),
                _ => (Opcode::Mos6502(Mos6502Opcode::Rra), Some(AddressingMode::Mos6502(Mos6502AddressingMode::XIndexedZeroPage))),
            },
            6 => match kind {
                Mos6502Kind::Wdc65C02 => (Opcode::Mos6502(Mos6502Opcode::Nop), None),
                _ => (Opcode::Mos6502(Mos6502Opcode::Rra), Some(AddressingMode::Mos6502(Mos6502AddressingMode::YIndexedAbsolute))),
            },
            7 => match kind {
                Mos6502Kind::Wdc65C02 => (Opcode::Mos6502(Mos6502Opcode::Nop), None),
                _ => (Opcode::Mos6502(Mos6502Opcode::Rra), Some(AddressingMode::Mos6502(Mos6502AddressingMode::XIndexedAbsolute))),
            },
            _ => (Opcode::Mos6502(Mos6502Opcode::Jam), None),
        },
        4 => match argument {
            0 => match kind {
                Mos6502Kind::Wdc65C02 => (Opcode::Mos6502(Mos6502Opcode::Nop), None),
                _ => (Opcode::Mos6502(Mos6502Opcode::Sax), Some(AddressingMode::Mos6502(Mos6502AddressingMode::XIndexedZeroPageIndirect))),
            },
            1 => match kind {
                Mos6502Kind::Wdc65C02 => (Opcode::Mos6502(Mos6502Opcode::Nop), None),
                _ => (Opcode::Mos6502(Mos6502Opcode::Sax), Some(AddressingMode::Mos6502(Mos6502AddressingMode::ZeroPage))),
            },
            2 => match kind {
                Mos6502Kind::Wdc65C02 => (Opcode::Mos6502(Mos6502Opcode::Nop), None),
                _ => (Opcode::Mos6502(Mos6502Opcode::Xaa), Some(AddressingMode::Mos6502(Mos6502AddressingMode::Immediate))),
            },
            3 => match kind {
                Mos6502Kind::Wdc65C02 => (Opcode::Mos6502(Mos6502Opcode::Nop), None),
                _ => (Opcode::Mos6502(Mos6502Opcode::Sax), Some(AddressingMode::Mos6502(Mos6502AddressingMode::Absolute))),
            },
            4 => match kind {
                Mos6502Kind::Wdc65C02 => (Opcode::Mos6502(Mos6502Opcode::Nop), None),
                _ => (Opcode::Mos6502(Mos6502Opcode::Sha), Some(AddressingMode::Mos6502(Mos6502AddressingMode::ZeroPageIndirectYIndexed))),
            },
            5 => match kind {
                Mos6502Kind::Wdc65C02 => (Opcode::Mos6502(Mos6502Opcode::Nop), None),
                _ => (Opcode::Mos6502(Mos6502Opcode::Sax), Some(AddressingMode::Mos6502(Mos6502AddressingMode::YIndexedZeroPage))),
            },
            6 => match kind {
                Mos6502Kind::Wdc65C02 => (Opcode::Mos6502(Mos6502Opcode::Nop), None),
                _ => (Opcode::Mos6502(Mos6502Opcode::Shs), Some(AddressingMode::Mos6502(Mos6502AddressingMode::YIndexedAbsolute))),
            },
            7 => match kind {
                Mos6502Kind::Wdc65C02 => (Opcode::Mos6502(Mos6502Opcode::Nop), None),
                _ => (Opcode::Mos6502(Mos6502Opcode::Sha), Some(AddressingMode::Mos6502(Mos6502AddressingMode::YIndexedAbsolute))),
            },
            _ => (Opcode::Mos6502(Mos6502Opcode::Jam), None),
        },
        5 => match argument {
            0 => match kind {
                Mos6502Kind::Wdc65C02 => (Opcode::Mos6502(Mos6502Opcode::Nop), None),
                _ => (Opcode::Mos6502(Mos6502Opcode::Lax), Some(AddressingMode::Mos6502(Mos6502AddressingMode::XIndexedZeroPageIndirect))),
            },
            1 => match kind {
                Mos6502Kind::Wdc65C02 => (Opcode::Mos6502(Mos6502Opcode::Nop), None),
                _ => (Opcode::Mos6502(Mos6502Opcode::Lax), Some(AddressingMode::Mos6502(Mos6502AddressingMode::ZeroPage))),
            },
            2 => match kind {
                Mos6502Kind::Wdc65C02 => (Opcode::Mos6502(Mos6502Opcode::Nop), None),
                _ => (Opcode::Mos6502(Mos6502Opcode::Lax), Some(AddressingMode::Mos6502(Mos6502AddressingMode::Immediate))),
            },
            3 => match kind {
                Mos6502Kind::Wdc65C02 => (Opcode::Mos6502(Mos6502Opcode::Nop), None),
                _ => (Opcode::Mos6502(Mos6502Opcode::Lax), Some(AddressingMode::Mos6502(Mos6502AddressingMode::Absolute))),
            },
            4 => match kind {
                Mos6502Kind::Wdc65C02 => (Opcode::Mos6502(Mos6502Opcode::Nop), None),
                _ => (Opcode::Mos6502(Mos6502Opcode::Lax), Some(AddressingMode::Mos6502(Mos6502AddressingMode::ZeroPageIndirectYIndexed))),
            },
            5 => match kind {
                Mos6502Kind::Wdc65C02 => (Opcode::Mos6502(Mos6502Opcode::Nop), None),
                _ => (Opcode::Mos6502(Mos6502Opcode::Lax), Some(AddressingMode::Mos6502(Mos6502AddressingMode::YIndexedZeroPage))),
            },
            6 => match kind {
                Mos6502Kind::Wdc65C02 => (Opcode::Mos6502(Mos6502Opcode::Nop), None),
                _ => (Opcode::Mos6502(Mos6502Opcode::Las), Some(AddressingMode::Mos6502(Mos6502AddressingMode::YIndexedAbsolute))),
            },
            7 => match kind {
                Mos6502Kind::Wdc65C02 => (Opcode::Mos6502(Mos6502Opcode::Nop), None),
                _ => (Opcode::Mos6502(Mos6502Opcode::Lax), Some(AddressingMode::Mos6502(Mos6502AddressingMode::YIndexedAbsolute))),
            },
            _ => (Opcode::Mos6502(Mos6502Opcode::Jam), None),
        },
        6 => match argument {
            0 => match kind {
                Mos6502Kind::Wdc65C02 => (Opcode::Mos6502(Mos6502Opcode::Nop), None),
                _ => (Opcode::Mos6502(Mos6502Opcode::Dcp), Some(AddressingMode::Mos6502(Mos6502AddressingMode::XIndexedZeroPageIndirect))),
            },
            1 => match kind {
                Mos6502Kind::Wdc65C02 => (Opcode::Mos6502(Mos6502Opcode::Nop), None),
                _ => (Opcode::Mos6502(Mos6502Opcode::Dcp), Some(AddressingMode::Mos6502(Mos6502AddressingMode::ZeroPage))),
            },
            2 => match kind {
                Mos6502Kind::Wdc65C02 => (Opcode::Mos6502(Mos6502Opcode::Nop), None),
                _ => (Opcode::Mos6502(Mos6502Opcode::Sbx), Some(AddressingMode::Mos6502(Mos6502AddressingMode::Immediate))),
            },
            3 => match kind {
                Mos6502Kind::Wdc65C02 => (Opcode::Mos6502(Mos6502Opcode::Nop), None),
                _ => (Opcode::Mos6502(Mos6502Opcode::Dcp), Some(AddressingMode::Mos6502(Mos6502AddressingMode::Absolute))),
            },
            4 => match kind {
                Mos6502Kind::Wdc65C02 => (Opcode::Mos6502(Mos6502Opcode::Nop), None),
                _ => (Opcode::Mos6502(Mos6502Opcode::Dcp), Some(AddressingMode::Mos6502(Mos6502AddressingMode::ZeroPageIndirectYIndexed))),
            },
            5 => match kind {
                Mos6502Kind::Wdc65C02 => (Opcode::Mos6502(Mos6502Opcode::Nop), None),
                _ => (Opcode::Mos6502(Mos6502Opcode::Dcp), Some(AddressingMode::Mos6502(Mos6502AddressingMode::XIndexedZeroPage))),
            },
            6 => match kind {
                Mos6502Kind::Wdc65C02 => (Opcode::Mos6502(Mos6502Opcode::Nop), None),
                _ => (Opcode::Mos6502(Mos6502Opcode::Dcp), Some(AddressingMode::Mos6502(Mos6502AddressingMode::YIndexedAbsolute))),
            },
            7 => match kind {
                Mos6502Kind::Wdc65C02 => (Opcode::Mos6502(Mos6502Opcode::Nop), None),
                _ => (Opcode::Mos6502(Mos6502Opcode::Dcp), Some(AddressingMode::Mos6502(Mos6502AddressingMode::XIndexedAbsolute))),
            },
            _ => (Opcode::Mos6502(Mos6502Opcode::Jam), None),
        },
        7 => match argument {
            0 => match kind {
                Mos6502Kind::Wdc65C02 => (Opcode::Mos6502(Mos6502Opcode::Nop), None),
                _ => (Opcode::Mos6502(Mos6502Opcode::Isc), Some(AddressingMode::Mos6502(Mos6502AddressingMode::XIndexedZeroPageIndirect))),
            },
            1 => match kind {
                Mos6502Kind::Wdc65C02 => (Opcode::Mos6502(Mos6502Opcode::Nop), None),
                _ => (Opcode::Mos6502(Mos6502Opcode::Isc), Some(AddressingMode::Mos6502(Mos6502AddressingMode::ZeroPage))),
            },
            2 => match kind {
                Mos6502Kind::Wdc65C02 => (Opcode::Mos6502(Mos6502Opcode::Nop), None),
                _ => (Opcode::Mos6502(Mos6502Opcode::Sbc), Some(AddressingMode::Mos6502(Mos6502AddressingMode::Immediate))),
            },
            3 => match kind {
                Mos6502Kind::Wdc65C02 => (Opcode::Mos6502(Mos6502Opcode::Nop), None),
                _ => (Opcode::Mos6502(Mos6502Opcode::Isc), Some(AddressingMode::Mos6502(Mos6502AddressingMode::Absolute))),
            },
            4 => match kind {
                Mos6502Kind::Wdc65C02 => (Opcode::Mos6502(Mos6502Opcode::Nop), None),
                _ => (Opcode::Mos6502(Mos6502Opcode::Isc), Some(AddressingMode::Mos6502(Mos6502AddressingMode::ZeroPageIndirectYIndexed))),
            },
            5 => match kind {
                Mos6502Kind::Wdc65C02 => (Opcode::Mos6502(Mos6502Opcode::Nop), None),
                _ => (Opcode::Mos6502(Mos6502Opcode::Isc), Some(AddressingMode::Mos6502(Mos6502AddressingMode::XIndexedZeroPage))),
            },
            6 => match kind {
                Mos6502Kind::Wdc65C02 => (Opcode::Mos6502(Mos6502Opcode::Nop), None),
                _ => (Opcode::Mos6502(Mos6502Opcode::Isc), Some(AddressingMode::Mos6502(Mos6502AddressingMode::YIndexedAbsolute))),
            },
            7 => match kind {
                Mos6502Kind::Wdc65C02 => (Opcode::Mos6502(Mos6502Opcode::Nop), None),
                _ => (Opcode::Mos6502(Mos6502Opcode::Isc), Some(AddressingMode::Mos6502(Mos6502AddressingMode::XIndexedAbsolute))),
            },
            _ => (Opcode::Mos6502(Mos6502Opcode::Jam), None),
        },
        _ => (Opcode::Mos6502(Mos6502Opcode::Jam), None),
    }
}

/// The undocumented group: bytes whose low two bits are both set.
pub fn decode_undocumented_space_instruction(secondary: u8, argument: u8, kind: Mos6502Kind) -> (r: (Opcode, Option<AddressingMode>))
    ensures
        r == spec_decode_undocumented(secondary, argument, kind),
{
    match secondary {
        0 => match argument {
            0 => match kind {
                Mos6502Kind::Wdc65C02 => (Opcode::Mos6502(Mos6502Opcode::Nop), None),
                _ => (Opcode::Mos6502(Mos6502Opcode::Slo), Some(AddressingMode::Mos6502(Mos6502AddressingMode::XIndexedZeroPageIndirect))),
            },
            1 => match kind {
                Mos6502Kind::Wdc65C02 => (Opcode::Mos6502(Mos6502Opcode::Nop), None),
                _ => (Opcode::Mos6502(Mos6502Opcode::Slo), Some(AddressingMode::Mos6502(Mos6502AddressingMode::ZeroPage))),
            },
            2 => match kind {
                Mos6502Kind::Wdc65C02 => (Opcode::Mos6502(Mos6502Opcode::Nop), None),
                _ => (Opcode::Mos6502(Mos6502Opcode::Anc), Some(AddressingMode::Mos6502(Mos6502AddressingMode::Immediate))),
            },
            3 => match kind {
                Mos6502Kind::Wdc65C02 => (Opcode::Mos6502(Mos6502Opcode::Nop), None),
                _ => (Opcode::Mos6502(Mos6502Opcode::Slo), Some(AddressingMode::Mos6502(Mos6502AddressingMode::Absolute))),
            },
            4 => match kind {
                Mos6502Kind::Wdc65C02 => (Opcode::Mos6502(Mos6502Opcode::Nop), None),
                _ => (Opcode::Mos6502(Mos6502Opcode::Slo), Some(AddressingMode::Mos6502(Mos6502AddressingMode::ZeroPageIndirectYIndexed))),
            },
            5 => match kind {
                Mos6502Kind::Wdc65C02 => (Opcode::Mos6502(Mos6502Opcode::Nop), None),
                _ => (Opcode::Mos6502(Mos6502Opcode::Slo), Some(AddressingMode::Mos6502(Mos6502AddressingMode::XIndexedZeroPage))),
            },
            6 => match kind {
                Mos6502Kind::Wdc65C02 => (Opcode::Mos6502(Mos6502Opcode::Nop), None),
                _ => (Opcode::Mos6502(Mos6502Opcode::Slo), Some(AddressingMode::Mos6502(Mos6502AddressingMode::YIndexedAbsolute))),
            },
            7 => match kind {
                Mos6502Kind::Wdc65C02 => (Opcode::Mos6502(Mos6502Opcode::Nop), None),
                _ => (Opcode::Mos6502(Mos6502Opcode::Slo), Some(AddressingMode::Mos6502(Mos6502AddressingMode::XIndexedAbsolute))),
            },
            _ => (Opcode::Mos6502(Mos6502Opcode::Jam), None),
        },
        1 => match argument {
            0 => match kind {
                Mos6502Kind::Wdc65C02 => (Opcode::Mos6502(Mos6502Opcode::Nop), None),
                _ => (Opcode::Mos6502(Mos6502Opcode::Rla), Some(AddressingMode::Mos6502(Mos6502AddressingMode::XIndexedZeroPageIndirect))),
            },
            1 => match kind {
                Mos6502Kind::Wdc65C02 => (Opcode::Mos6502(Mos6502Opcode::Nop), None),
                _ => (Opcode::Mos6502(Mos6502Opcode::Rla), Some(AddressingMode::Mos6502(Mos6502AddressingMode::ZeroPage))),
            },
            2 => match kind {
                Mos6502Kind::Wdc65C02 => (Opcode::Mos6502(Mos6502Opcode::Nop), None),
                _ => (Opcode::Mos6502(Mos6502Opcode::Anc), Some(AddressingMode::Mos6502(Mos6502AddressingMode::Immediate))),
            },
            3 => match kind {
                Mos6502Kind::Wdc65C02 => (Opcode::Mos6502(Mos6502Opcode::Nop), None),
                _ => (Opcode::Mos6502(Mos6502Opcode::Rla), Some(AddressingMode::Mos6502(Mos6502AddressingMode::Absolute))),
            },
            4 => match kind {
                Mos6502Kind::Wdc65C02 => (Opcode::Mos6502(Mos6502Opcode::Nop), None),
                _ => (Opcode::Mos6502(Mos6502Opcode::Rla), Some(AddressingMode::Mos6502(Mos6502AddressingMode::ZeroPageIndirectYIndexed))),
            },
            5 => match kind {
                Mos6502Kind::Wdc65C02 => (Opcode::Mos6502(Mos6502Opcode::Nop), None),
                _ => (Opcode::Mos6502(Mos6502Opcode::Rla), Some(AddressingMode::Mos6502(Mos6502AddressingMode::XIndexedZeroPage))),
            },
            6 => match kind {
                Mos6502Kind::Wdc65C02 => (Opcode::Mos6502(Mos6502Opcode::Nop), None),
                _ => (Opcode::Mos6502(Mos6502Opcode::Rla), Some(AddressingMode::Mos6502(Mos6502AddressingMode::YIndexedAbsolute))),
            },
            7 => match kind {
                Mos6502Kind::Wdc65C02 => (Opcode::Mos6502(Mos6502Opcode::Nop), None),
                _ => (Opcode::Mos6502(Mos6502Opcode::Rla), Some(AddressingMode::Mos6502(Mos6502AddressingMode::XIndexedAbsolute))),
            },
            _ => (Opcode::Mos6502(Mos6502Opcode::Jam), None),
        },
        2 => match argument {
            0 => match kind {
                Mos6502Kind::Wdc65C02 => (Opcode::Mos6502(Mos6502Opcode::Nop), None),
                _ => (Opcode::Mos6502(Mos6502Opcode::Sre), Some(AddressingMode::Mos6502(Mos6502AddressingMode::XIndexedZeroPageIndirect))),
            },
            1 => match kind {
                Mos6502Kind::Wdc65C02 => (Opcode::Mos6502(Mos6502Opcode::Nop), None),
                _ => (Opcode::Mos6502(Mos6502Opcode::Sre), Some(AddressingMode::Mos6502(Mos6502AddressingMode::ZeroPage))),
            },
            2 => match kind {
                Mos6502Kind::Wdc65C02 => (Opcode::Mos6502(Mos6502Opcode::Nop), None),
                _ => (Opcode::Mos6502(Mos6502Opcode::Asr), Some(AddressingMode::Mos6502(Mos6502AddressingMode::Immediate))),
            },
            3 => match kind {
                Mos6502Kind::Wdc65C02 => (Opcode::Mos6502(Mos6502Opcode::Nop), None),
                _ => (Opcode::Mos6502(Mos6502Opcode::Sre), Some(AddressingMode::Mos6502(Mos6502AddressingMode::Absolute))),
            },
            4 => match kind {
                Mos6502Kind::Wdc65C02 => (Opcode::Mos6502(Mos6502Opcode::Nop), None),
                _ => (Opcode::Mos6502(Mos6502Opcode::Sre), Some(AddressingMode::Mos6502(Mos6502AddressingMode::ZeroPageIndirectYIndexed))),
            },
            5 => match kind {
                Mos6502Kind::Wdc65C02 => (Opcode::Mos6502(Mos6502Opcode::Nop), None),
                _ => (Opcode::Mos6502(Mos6502Opcode::Sre), Some(AddressingMode::Mos6502(Mos6502AddressingMode::XIndexedZeroPage))),
            },
            6 => match kind {
                Mos6502Kind::Wdc65C02 => (Opcode::Mos6502(Mos6502Opcode::Nop), None),
                _ => (Opcode::Mos6502(Mos6502Opcode::Sre), Some(AddressingMode::Mos6502(Mos6502AddressingMode::YIndexedAbsolute))),
            },
            7 => match kind {
                Mos6502Kind::Wdc65C02 => (Opcode::Mos6502(Mos6502Opcode::Nop), None),
                _ => (Opcode::Mos6502(Mos6502Opcode::Sre), Some(AddressingMode::Mos6502(Mos6502AddressingMode::XIndexedAbsolute))),
            },
            _ => (Opcode::Mos6502(Mos6502Opcode::Jam), None),
        },
        3 => match argument {
            0 => match kind {
                Mos6502Kind::Wdc65C02 => (Opcode::Mos6502(Mos6502Opcode::Nop), None),
                _ => (Opcode::Mos6502(Mos6502Opcode::Rra), Some(AddressingMode::Mos6502(Mos6502AddressingMode::XIndexedZeroPageIndirect))),
            },
            1 => match kind {
                Mos6502Kind::Wdc65C02 => (Opcode::Mos6502(Mos6502Opcode::Nop), None),
                _ => (Opcode::Mos6502(Mos6502Opcode::Rra), Some(AddressingMode::Mos6502(Mos6502AddressingMode::ZeroPage))),
            },
            2 => match kind {
                Mos6502Kind::Wdc65C02 => (Opcode::Mos6502(Mos6502Opcode::Nop), None),
                _ => (Opcode::Mos6502(Mos6502Opcode::Arr), Some(AddressingMode::Mos6502(Mos6502AddressingMode::Immediate))),
            },
            3 => match kind {
                Mos6502Kind::Wdc65C02 => (Opcode::Mos6502(Mos6502Opcode::Nop), None),
                _ => (Opcode::Mos6502(Mos6502Opcode::Rra), Some(AddressingMode::Mos6502(Mos6502AddressingMode::Absolute))),
            },
            4 => match kind {
                Mos6502Kind::Wdc65C02 => (Opcode::Mos6502(Mos6502Opcode::Nop), None),
                _ => (Opcode::Mos6502(Mos6502Opcode::Rra), Some(AddressingMode::Mos6502(Mos6502AddressingMode::ZeroPageIndirectYIndexed))),
            },
            5 => match kind {
                Mos6502Kind::Wdc65C02 => (Opcode::Mos6502(Mos6502Opcode::Nop), None),
                _ => (Opcode::Mos6502(Mos6502Opcode::Rra), Some(AddressingMode::Mos6502(Mos6502AddressingMode::XIndexedZeroPage))),
            },
            6 => match kind {
                Mos6502Kind::Wdc65C02 => (Opcode::Mos6502(Mos6502Opcode::Nop), None),
                _ => (Opcode::Mos6502(Mos6502Opcode::Rra), Some(AddressingMode::Mos6502(Mos6502AddressingMode::YIndexedAbsolute))),
            },
            7 => match kind {
                Mos6502Kind::Wdc65C02 => (Opcode::Mos6502(Mos6502Opcode::Nop), None),
                _ => (Opcode::Mos6502(Mos6502Opcode::Rra), Some(AddressingMode::Mos6502(Mos6502AddressingMode::XIndexedAbsolute))),
            },
            _ => (Opcode::Mos6502(Mos6502Opcode::Jam), None),
        },
        4 => match argument {
            0 => match kind {
                Mos6502Kind::Wdc65C02 => (Opcode::Mos6502(Mos6502Opcode::Nop), None),
                _ => (Opcode::Mos6502(Mos6502Opcode::Sax), Some(AddressingMode::Mos6502(Mos6502AddressingMode::XIndexedZeroPageIndirect))),
            },
            1 => match kind {
                Mos6502Kind::Wdc65C02 => (Opcode::Mos6502(Mos6502Opcode::Nop), None),
                _ => (Opcode::Mos6502(Mos6502Opcode::Sax), Some(AddressingMode::Mos6502(Mos6502AddressingMode::ZeroPage))),
            },
            2 => match kind {
                Mos6502Kind::Wdc65C02 => (Opcode::Mos6502(Mos6502Opcode::Nop), None),
                _ => (Opcode::Mos6502(Mos6502Opcode::Xaa), Some(AddressingMode::Mos6502(Mos6502AddressingMode::Immediate))),
            },
            3 => match kind {
                Mos6502Kind::Wdc65C02 => (Opcode::Mos6502(Mos6502Opcode::Nop), None),
                _ => (Opcode::Mos6502(Mos6502Opcode::Sax), Some(AddressingMode::Mos6502(Mos6502AddressingMode::Absolute))),
            },
            4 => match kind {
                Mos6502Kind::Wdc65C02 => (Opcode::Mos6502(Mos6502Opcode::Nop), None),
                _ => (Opcode::Mos6502(Mos6502Opcode::Sha), Some(AddressingMode::Mos6502(Mos6502AddressingMode::ZeroPageIndirectYIndexed))),
            },
            5 => match kind {
                Mos6502Kind::Wdc65C02 => (Opcode::Mos6502(Mos6502Opcode::Nop), None),
                _ => (Opcode::Mos6502(Mos6502Opcode::Sax), Some(AddressingMode::Mos6502(Mos6502AddressingMode::YIndexedZeroPage))),
            },
            6 => match kind {
                Mos6502Kind::Wdc65C02 => (Opcode::Mos6502(Mos6502Opcode::Nop), None),
                _ => (Opcode::Mos6502(Mos6502Opcode::Shs), Some(AddressingMode::Mos6502(Mos6502AddressingMode::YIndexedAbsolute))),
            },
            7 => match kind {
                Mos6502Kind::Wdc65C02 => (Opcode::Mos6502(Mos6502Opcode::Nop), None),
                _ => (Opcode::Mos6502(Mos6502Opcode::Sha), Some(AddressingMode::Mos6502(Mos6502AddressingMode::YIndexedAbsolute))),
            },
            _ => (Opcode::Mos6502(Mos6502Opcode::Jam), None),
        },
        5 => match argument {
            0 => match kind {
                Mos6502Kind::Wdc65C02 => (Opcode::Mos6502(Mos6502Opcode::Nop), None),
                _ => (Opcode::Mos6502(Mos6502Opcode::Lax), Some(AddressingMode::Mos6502(Mos6502AddressingMode::XIndexedZeroPageIndirect))),
            },
            1 => match kind {
                Mos6502Kind::Wdc65C02 => (Opcode::Mos6502(Mos6502Opcode::Nop), None),
                _ => (Opcode::Mos6502(Mos6502Opcode::Lax), Some(AddressingMode::Mos6502(Mos6502AddressingMode::ZeroPage))),
            },
            2 => match kind {
                Mos6502Kind::Wdc65C02 => (Opcode::Mos6502(Mos6502Opcode::Nop), None),
                _ => (Opcode::Mos6502(Mos6502Opcode::Lax), Some(AddressingMode::Mos6502(Mos6502AddressingMode::Immediate))),
            },
            3 => match kind {
                Mos6502Kind::Wdc65C02 => (Opcode::Mos6502(Mos6502Opcode::Nop), None),
                _ => (Opcode::Mos6502(Mos6502Opcode::Lax), Some(AddressingMode::Mos6502(Mos6502AddressingMode::Absolute))),
            },
            4 => match kind {
                Mos6502Kind::Wdc65C02 => (Opcode::Mos6502(Mos6502Opcode::Nop), None),
                _ => (Opcode::Mos6502(Mos6502Opcode::Lax), Some(AddressingMode::Mos6502(Mos6502AddressingMode::ZeroPageIndirectYIndexed))),
            },
            5 => match kind {
                Mos6502Kind::Wdc65C02 => (Opcode::Mos6502(Mos6502Opcode::Nop), None),
                _ => (Opcode::Mos6502(Mos6502Opcode::Lax), Some(AddressingMode::Mos6502(Mos6502AddressingMode::YIndexedZeroPage))),
            },
            6 => match kind {
                Mos6502Kind::Wdc65C02 => (Opcode::Mos6502(Mos6502Opcode::Nop), None),
                _ => (Opcode::Mos6502(Mos6502Opcode::Las), Some(AddressingMode::Mos6502(Mos6502AddressingMode::YIndexedAbsolute))),
            },
            7 => match kind {
                Mos6502Kind::Wdc65C02 => (Opcode::Mos6502(Mos6502Opcode::Nop), None),
                _ => (Opcode::Mos6502(Mos6502Opcode::Lax), Some(AddressingMode::Mos6502(Mos6502AddressingMode::YIndexedAbsolute))),
            },
            _ => (Opcode::Mos6502(Mos6502Opcode::Jam), None),
        },
        6 => match argument {
            0 => match kind {
                Mos6502Kind::Wdc65C02 => (Opcode::Mos6502(Mos6502Opcode::Nop), None),
                _ => (Opcode::Mos6502(Mos6502Opcode::Dcp), Some(AddressingMode::Mos6502(Mos6502AddressingMode::XIndexedZeroPageIndirect))),
            },
            1 => match kind {
                Mos6502Kind::Wdc65C02 => (Opcode::Mos6502(Mos6502Opcode::Nop), None),
                _ => (Opcode::Mos6502(Mos6502Opcode::Dcp), Some(AddressingMode::Mos6502(Mos6502AddressingMode::ZeroPage))),
            },
            2 => match kind {
                Mos6502Kind::Wdc65C02 => (Opcode::Mos6502(Mos6502Opcode::Nop), None),
                _ => (Opcode::Mos6502(Mos6502Opcode::Sbx), Some(AddressingMode::Mos6502(Mos6502AddressingMode::Immediate))),
            },
            3 => match kind {
                Mos6502Kind::Wdc65C02 => (Opcode::Mos6502(Mos6502Opcode::Nop), None),
                _ => (Opcode::Mos6502(Mos6502Opcode::Dcp), Some(AddressingMode::Mos6502(Mos6502AddressingMode::Absolute))),
            },
            4 => match kind {
                Mos6502Kind::Wdc65C02 => (Opcode::Mos6502(Mos6502Opcode::Nop), None),
                _ => (Opcode::Mos6502(Mos6502Opcode::Dcp), Some(AddressingMode::Mos6502(Mos6502AddressingMode::ZeroPageIndirectYIndexed))),
            },
            5 => match kind {
                Mos6502Kind::Wdc65C02 => (Opcode::Mos6502(Mos6502Opcode::Nop), None),
                _ => (Opcode::Mos6502(Mos6502Opcode::Dcp), Some(AddressingMode::Mos6502(Mos6502AddressingMode::XIndexedZeroPage))),
            },
            6 => match kind {
                Mos6502Kind::Wdc65C02 => (Opcode::Mos6502(Mos6502Opcode::Nop), None),
                _ => (Opcode::Mos6502(Mos6502Opcode::Dcp), Some(AddressingMode::Mos6502(Mos6502AddressingMode::YIndexedAbsolute))),
            },
            7 => match kind {
                Mos6502Kind::Wdc65C02 => (Opcode::Mos6502(Mos6502Opcode::Nop), None),
                _ => (Opcode::Mos6502(Mos6502Opcode::Dcp), Some(AddressingMode::Mos6502(Mos6502AddressingMode::XIndexedAbsolute))),
            },
            _ => (Opcode::Mos6502(Mos6502Opcode::Jam), None),
        },
        7 => match argument {
            0 => match kind {
                Mos6502Kind::Wdc65C02 => (Opcode::Mos6502(Mos6502Opcode::Nop), None),
                _ => (Opcode::Mos6502(Mos6502Opcode::Isc), Some(AddressingMode::Mos6502(Mos6502AddressingMode::XIndexedZeroPageIndirect))),
            },
            1 => match kind {
                Mos6502Kind::Wdc65C02 => (Opcode::Mos6502(Mos6502Opcode::Nop), None),
                _ => (Opcode::Mos6502(Mos6502Opcode::Isc), Some(AddressingMode::Mos6502(Mos6502AddressingMode::ZeroPage))),
            },
            2 => match kind {
                Mos6502Kind::Wdc65C02 => (Opcode::Mos6502(Mos6502Opcode::Nop), None),
                _ => (Opcode::Mos6502(Mos6502Opcode::Sbc), Some(AddressingMode::Mos6502(Mos6502AddressingMode::Immediate))),
            },
            3 => match kind {
                Mos6502Kind::Wdc65C02 => (Opcode::Mos6502(Mos6502Opcode::Nop), None),
                _ => (Opcode::Mos6502(Mos6502Opcode::Isc), Some(AddressingMode::Mos6502(Mos6502AddressingMode::Absolute))),
            },
            4 => match kind {
                Mos6502Kind::Wdc65C02 => (Opcode::Mos6502(Mos6502Opcode::Nop), None),
                _ => (Opcode::Mos6502(Mos6502Opcode::Isc), Some(AddressingMode::Mos6502(Mos6502AddressingMode::ZeroPageIndirectYIndexed))),
            },
            5 => match kind {
                Mos6502Kind::Wdc65C02 => (Opcode::Mos6502(Mos6502Opcode::Nop), None),
                _ => (Opcode::Mos6502(Mos6502Opcode::Isc), Some(AddressingMode::Mos6502(Mos6502AddressingMode::XIndexedZeroPage))),
            },
            6 => match kind {
                Mos6502Kind::Wdc65C02 => (Opcode::Mos6502(Mos6502Opcode::Nop), None),
                _ => (Opcode::Mos6502(Mos6502Opcode::Isc), Some(AddressingMode::Mos6502(Mos6502AddressingMode::YIndexedAbsolute))),
            },
            7 => match kind {
                Mos6502Kind::Wdc65C02 => (Opcode::Mos6502(Mos6502Opcode::Nop), None),
                _ => (Opcode::Mos6502(Mos6502Opcode::Isc), Some(AddressingMode::Mos6502(Mos6502AddressingMode::XIndexedAbsolute))),
            },
            _ => (Opcode::Mos6502(Mos6502Opcode::Jam), None),
        },
        _ => (Opcode::Mos6502(Mos6502Opcode::Jam), None),
    }
}

/// The whole matrix: what one fetched byte decodes to on a given kind.
pub open spec fn spec_decode(byte: u8, kind: Mos6502Kind) -> Mos6502InstructionSet {
    let secondary = (byte / 32) as u8;
    let argument = ((byte / 4) % 8) as u8;
    let cell = if byte % 4 == 0 {
        spec_decode_group3(secondary, argument, kind)
    } else if byte % 4 == 1 {
        spec_decode_group1(secondary, argument, kind)
    } else if byte % 4 == 2 {
        spec_decode_group2(secondary, argument, kind)
    } else {
        spec_decode_undocumented(secondary, argument, kind)
    };
    Mos6502InstructionSet { opcode: cell.0, addressing_mode: cell.1 }
}

/// Decodes one fetched byte on the given kind.
pub fn decode(byte: u8, kind: Mos6502Kind) -> (r: Mos6502InstructionSet)
    ensures
        r == spec_decode(byte, kind),
{
    let secondary: u8 = byte / 32;
    let argument: u8 = (byte / 4) % 8;
    let cell = if byte % 4 == 0 {
        decode_group3_space_instruction(secondary, argument, kind)
    } else if byte % 4 == 1 {
        decode_group1_space_instruction(secondary, argument, kind)
    } else if byte % 4 == 2 {
        decode_group2_space_instruction(secondary, argument, kind)
    } else {
        decode_undocumented_space_instruction(secondary, argument, kind)
    };
    Mos6502InstructionSet { opcode: cell.0, addressing_mode: cell.1 }
}

/// The decoder never emits a mode that the kind lacks: the CMOS-only
/// zero-page-indirect mode appears only when decoding for that kind.
pub proof fn lemma_decode_mode_valid(byte: u8, kind: Mos6502Kind)
    ensures
        match spec_decode(byte, kind).addressing_mode {
            Some(mode) => mode is Mos6502 || kind is Wdc65C02,
            None => true,
        },
{
}

/// The decoder never emits a CMOS-only opcode on an original-set kind.
pub proof fn lemma_decode_opcode_valid(byte: u8, kind: Mos6502Kind)
    ensures
        spec_decode(byte, kind).opcode is Wdc65C02 ==> kind is Wdc65C02,
{
}

} // verus!
