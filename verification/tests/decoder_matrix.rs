//! Spot checks of the opcode matrix against the published tables.

use fluxemu_core::decoder::decode;

use fluxemu_core::instruction::Mos6502AddressingMode as M;
use fluxemu_core::instruction::Mos6502Opcode as O;
use fluxemu_core::instruction::Wdc65C02Opcode as W;
use fluxemu_core::instruction::{
    AddressingMode, Mos6502AddressingMode, Mos6502Kind, Mos6502Opcode, Opcode,
    Wdc65C02AddressingMode, Wdc65C02Opcode,
};

fn nmos(byte: u8) -> (Opcode, Option<AddressingMode>) {
    let i = decode(byte, Mos6502Kind::Mos6502);
    (i.opcode, i.addressing_mode)
}

fn cmos(byte: u8) -> (Opcode, Option<AddressingMode>) {
    let i = decode(byte, Mos6502Kind::Wdc65C02);
    (i.opcode, i.addressing_mode)
}

fn m(mode: Mos6502AddressingMode) -> Option<AddressingMode> {
    Some(AddressingMode::Mos6502(mode))
}

#[test]
fn documented_matrix_samples() {
    assert_eq!(nmos(0xa9), (Opcode::Mos6502(O::Lda), m(M::Immediate)));
    assert_eq!(nmos(0xad), (Opcode::Mos6502(O::Lda), m(M::Absolute)));
    assert_eq!(nmos(0xbd), (Opcode::Mos6502(O::Lda), m(M::XIndexedAbsolute)));
    assert_eq!(nmos(0xb1), (Opcode::Mos6502(O::Lda), m(M::ZeroPageIndirectYIndexed)));
    assert_eq!(nmos(0x8d), (Opcode::Mos6502(O::Sta), m(M::Absolute)));
    assert_eq!(nmos(0x91), (Opcode::Mos6502(O::Sta), m(M::ZeroPageIndirectYIndexed)));
    assert_eq!(nmos(0xa2), (Opcode::Mos6502(O::Ldx), m(M::Immediate)));
    assert_eq!(nmos(0xb6), (Opcode::Mos6502(O::Ldx), m(M::YIndexedZeroPage)));
    assert_eq!(nmos(0x4c), (Opcode::Mos6502(O::Jmp), m(M::Absolute)));
    assert_eq!(nmos(0x6c), (Opcode::Mos6502(O::Jmp), m(M::AbsoluteIndirect)));
    assert_eq!(nmos(0x20), (Opcode::Mos6502(O::Jsr), m(M::Absolute)));
    assert_eq!(nmos(0x60), (Opcode::Mos6502(O::Rts), None));
    assert_eq!(nmos(0x40), (Opcode::Mos6502(O::Rti), None));
    assert_eq!(nmos(0x0a), (Opcode::Mos6502(O::Asl), m(M::Accumulator)));
    assert_eq!(nmos(0x06), (Opcode::Mos6502(O::Asl), m(M::ZeroPage)));
    assert_eq!(nmos(0xf0), (Opcode::Mos6502(O::Beq), m(M::Relative)));
    assert_eq!(nmos(0xd0), (Opcode::Mos6502(O::Bne), m(M::Relative)));
    assert_eq!(nmos(0x48), (Opcode::Mos6502(O::Pha), None));
    assert_eq!(nmos(0x68), (Opcode::Mos6502(O::Pla), None));
    assert_eq!(nmos(0xe8), (Opcode::Mos6502(O::Inx), None));
    assert_eq!(nmos(0xca), (Opcode::Mos6502(O::Dex), None));
    assert_eq!(nmos(0x18), (Opcode::Mos6502(O::Clc), None));
    assert_eq!(nmos(0x78), (Opcode::Mos6502(O::Sei), None));
    assert_eq!(nmos(0xc9), (Opcode::Mos6502(O::Cmp), m(M::Immediate)));
    assert_eq!(nmos(0xe0), (Opcode::Mos6502(O::Cpx), m(M::Immediate)));
    assert_eq!(nmos(0x24), (Opcode::Mos6502(O::Bit), m(M::ZeroPage)));
    assert_eq!(nmos(0x61), (Opcode::Mos6502(O::Adc), m(M::XIndexedZeroPageIndirect)));
    assert_eq!(nmos(0xe9), (Opcode::Mos6502(O::Sbc), m(M::Immediate)));
    assert_eq!(nmos(0xea), (Opcode::Mos6502(O::Nop), None));
    assert_eq!(nmos(0x9a), (Opcode::Mos6502(O::Txs), None));
    assert_eq!(nmos(0xba), (Opcode::Mos6502(O::Tsx), None));
}

#[test]
fn undocumented_rows_decode_on_the_original_part() {
    assert_eq!(nmos(0x02), (Opcode::Mos6502(O::Jam), None));
    assert_eq!(nmos(0x07), (Opcode::Mos6502(O::Slo), m(M::ZeroPage)));
    assert_eq!(nmos(0xa7), (Opcode::Mos6502(O::Lax), m(M::ZeroPage)));
    assert_eq!(nmos(0x87), (Opcode::Mos6502(O::Sax), m(M::ZeroPage)));
    assert_eq!(nmos(0xc7), (Opcode::Mos6502(O::Dcp), m(M::ZeroPage)));
    assert_eq!(nmos(0xe7), (Opcode::Mos6502(O::Isc), m(M::ZeroPage)));
    assert_eq!(nmos(0x0b), (Opcode::Mos6502(O::Anc), m(M::Immediate)));
    assert_eq!(nmos(0xcb), (Opcode::Mos6502(O::Sbx), m(M::Immediate)));
    assert_eq!(nmos(0xeb), (Opcode::Mos6502(O::Sbc), m(M::Immediate)));
    assert_eq!(nmos(0x80), (Opcode::Mos6502(O::Nop), m(M::Immediate)));
}

#[test]
fn cmos_additions_appear_only_on_the_cmos_part() {
    assert_eq!(cmos(0x80), (Opcode::Wdc65C02(W::Bra), m(M::Relative)));
    assert_eq!(cmos(0xda), (Opcode::Wdc65C02(W::Phx), None));
    assert_eq!(cmos(0x5a), (Opcode::Wdc65C02(W::Phy), None));
    assert_eq!(cmos(0xfa), (Opcode::Wdc65C02(W::Plx), None));
    assert_eq!(cmos(0x7a), (Opcode::Wdc65C02(W::Ply), None));
    assert_eq!(cmos(0x64), (Opcode::Wdc65C02(W::Stz), m(M::ZeroPage)));
    assert_eq!(cmos(0x9c), (Opcode::Wdc65C02(W::Stz), m(M::Absolute)));
    assert_eq!(cmos(0x9e), (Opcode::Wdc65C02(W::Stz), m(M::XIndexedAbsolute)));
    assert_eq!(cmos(0x04), (Opcode::Wdc65C02(W::Tsb), m(M::ZeroPage)));
    assert_eq!(cmos(0x14), (Opcode::Wdc65C02(W::Trb), m(M::ZeroPage)));
    assert_eq!(
        cmos(0x12),
        (
            Opcode::Mos6502(O::Ora),
            Some(AddressingMode::Wdc65C02(Wdc65C02AddressingMode::ZeroPageIndirect)),
        )
    );
    // The same bytes on the original part.
    assert_eq!(nmos(0x80), (Opcode::Mos6502(O::Nop), m(M::Immediate)));
    assert_eq!(nmos(0xda), (Opcode::Mos6502(O::Nop), None));
    assert_eq!(nmos(0x12), (Opcode::Mos6502(O::Jam), None));
    assert_eq!(nmos(0x9c), (Opcode::Mos6502(O::Shy), m(M::XIndexedAbsolute)));
}

#[test]
fn every_decoded_mode_is_valid_for_its_kind() {
    for byte in 0..=255u8 {
        for kind in [
            Mos6502Kind::Mos6502,
            Mos6502Kind::Mos6507,
            Mos6502Kind::Ricoh2A0x,
            Mos6502Kind::Wdc65C02,
        ] {
            let instruction = decode(byte, kind);
            if let Some(mode) = instruction.addressing_mode {
                assert!(
                    mode.is_valid_for_mode(kind),
                    "byte {byte:#04x} decoded to an invalid mode on {kind:?}"
                );
            }
        }
    }
}
