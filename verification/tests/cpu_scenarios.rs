//! Cycle-accurate processor scenarios: reset, loads and stores, branch
//! timing, the indirect-jump erratum, interrupts, and freezes.

use fluxemu_core::cpu::{FlagRegister, Mos6502, Mos6502Config};
use fluxemu_core::instruction::Mos6502Kind;
use fluxemu_core::memory::AddressSpace;
use fluxemu_core::time::Period;

fn machine(kind: Mos6502Kind) -> (Mos6502, AddressSpace) {
    let mut space = AddressSpace::new(16);
    let buffer = space.register_buffer(vec![0u8; 65536], true);
    space.map_ram(0, 0xffff, buffer).unwrap();
    let cpu = Mos6502::new(Mos6502Config {
        frequency: Period::from_int(1_000_000),
        assigned_address_space: 0,
        kind,
        broken_ror: false,
    });
    (cpu, space)
}

fn run(cpu: &mut Mos6502, space: &mut AddressSpace, cycles: usize) {
    for _ in 0..cycles {
        cpu.step_cycle(space);
    }
}

/// Boots with the reset vector pointing at 0x8000 and the reset sequence
/// already consumed.
fn booted(kind: Mos6502Kind) -> (Mos6502, AddressSpace) {
    let (mut cpu, mut space) = machine(kind);
    space.write8(0xfffc, 0x00).unwrap();
    space.write8(0xfffd, 0x80).unwrap();
    run(&mut cpu, &mut space, 6);
    assert_eq!(cpu.instruction_pointer, 0x8000);
    (cpu, space)
}

#[test]
fn reset_takes_six_cycles_and_loads_the_vector() {
    let (mut cpu, mut space) = machine(Mos6502Kind::Mos6502);
    space.write8(0xfffc, 0x34).unwrap();
    space.write8(0xfffd, 0x12).unwrap();
    // One cycle short: the vector is not loaded yet.
    run(&mut cpu, &mut space, 5);
    assert_ne!(cpu.instruction_pointer, 0x1234);
    run(&mut cpu, &mut space, 1);
    assert_eq!(cpu.instruction_pointer, 0x1234);
    assert_eq!(cpu.stack, 0xfd);
    assert!(cpu.flags.interrupt_disable);
    assert!(!cpu.flags.decimal);
}

#[test]
fn lda_immediate_and_sta_absolute() {
    let (mut cpu, mut space) = booted(Mos6502Kind::Mos6502);
    // LDA #$42; STA $2000
    space.write8(0x8000, 0xa9).unwrap();
    space.write8(0x8001, 0x42).unwrap();
    space.write8(0x8002, 0x8d).unwrap();
    space.write8(0x8003, 0x00).unwrap();
    space.write8(0x8004, 0x20).unwrap();
    run(&mut cpu, &mut space, 2);
    assert_eq!(cpu.a, 0x42);
    assert!(!cpu.flags.negative);
    assert!(!cpu.flags.zero);
    run(&mut cpu, &mut space, 4);
    assert_eq!(space.read8(0x2000).unwrap(), 0x42);
}

#[test]
fn load_flags_track_the_value() {
    let (mut cpu, mut space) = booted(Mos6502Kind::Mos6502);
    // LDA #$00 then LDA #$80.
    space.write8(0x8000, 0xa9).unwrap();
    space.write8(0x8001, 0x00).unwrap();
    space.write8(0x8002, 0xa9).unwrap();
    space.write8(0x8003, 0x80).unwrap();
    run(&mut cpu, &mut space, 2);
    assert!(cpu.flags.zero);
    assert!(!cpu.flags.negative);
    run(&mut cpu, &mut space, 2);
    assert!(!cpu.flags.zero);
    assert!(cpu.flags.negative);
}

#[test]
fn adc_sets_carry_and_overflow() {
    let (mut cpu, mut space) = booted(Mos6502Kind::Mos6502);
    // LDA #$7f; ADC #$01 -> 0x80, overflow set, carry clear.
    space.write8(0x8000, 0xa9).unwrap();
    space.write8(0x8001, 0x7f).unwrap();
    space.write8(0x8002, 0x69).unwrap();
    space.write8(0x8003, 0x01).unwrap();
    run(&mut cpu, &mut space, 4);
    assert_eq!(cpu.a, 0x80);
    assert!(cpu.flags.overflow);
    assert!(!cpu.flags.carry);
    assert!(cpu.flags.negative);
}

#[test]
fn branch_taken_without_page_cross_is_three_cycles() {
    let (mut cpu, mut space) = booted(Mos6502Kind::Mos6502);
    // LDA #$00 (Z set); BEQ +16.
    space.write8(0x8000, 0xa9).unwrap();
    space.write8(0x8001, 0x00).unwrap();
    space.write8(0x8002, 0xf0).unwrap();
    space.write8(0x8003, 0x10).unwrap();
    run(&mut cpu, &mut space, 2);
    // Two branch cycles fetch and leech the offset; the pointer add runs
    // on the third.
    run(&mut cpu, &mut space, 2);
    assert_eq!(cpu.instruction_pointer, 0x8004);
    run(&mut cpu, &mut space, 1);
    assert_eq!(cpu.instruction_pointer, 0x8014);
}

#[test]
fn branch_not_taken_is_two_cycles() {
    let (mut cpu, mut space) = booted(Mos6502Kind::Mos6502);
    // LDA #$01 (Z clear); BEQ +16 falls through in two cycles.
    space.write8(0x8000, 0xa9).unwrap();
    space.write8(0x8001, 0x01).unwrap();
    space.write8(0x8002, 0xf0).unwrap();
    space.write8(0x8003, 0x10).unwrap();
    run(&mut cpu, &mut space, 4);
    assert_eq!(cpu.instruction_pointer, 0x8004);
    // The next cycle already fetches the following opcode.
    run(&mut cpu, &mut space, 1);
    assert_eq!(cpu.instruction_pointer, 0x8005);
}

#[test]
fn branch_page_cross_costs_one_extra_cycle() {
    let (mut cpu, mut space) = machine(Mos6502Kind::Mos6502);
    space.write8(0xfffc, 0xfa).unwrap();
    space.write8(0xfffd, 0x80).unwrap();
    run(&mut cpu, &mut space, 6);
    // LDA #$00 at 0x80fa; BEQ +0x20 at 0x80fc: the target 0x811e crosses
    // out of page 0x80.
    space.write8(0x80fa, 0xa9).unwrap();
    space.write8(0x80fb, 0x00).unwrap();
    space.write8(0x80fc, 0xf0).unwrap();
    space.write8(0x80fd, 0x20).unwrap();
    run(&mut cpu, &mut space, 2);
    run(&mut cpu, &mut space, 3);
    // After the third branch cycle only the low byte is patched: the
    // spurious in-between address is architecturally visible.
    assert_eq!(cpu.instruction_pointer, 0x801e);
    run(&mut cpu, &mut space, 1);
    assert_eq!(cpu.instruction_pointer, 0x811e);
}

#[test]
fn absolute_indirect_jump_page_wrap_erratum() {
    // JMP ($02ff) with the pointer's low byte at the end of a page.
    let program = [0x6cu8, 0xff, 0x02];
    let (mut cpu, mut space) = booted(Mos6502Kind::Mos6502);
    for (i, b) in program.iter().enumerate() {
        space.write8(0x8000 + i, *b).unwrap();
    }
    space.write8(0x02ff, 0x34).unwrap();
    space.write8(0x0200, 0x12).unwrap();
    space.write8(0x0300, 0x78).unwrap();
    // The original part wraps inside the page: five cycles, high byte
    // from 0x0200.
    run(&mut cpu, &mut space, 5);
    assert_eq!(cpu.instruction_pointer, 0x1234);

    let (mut cpu, mut space) = booted(Mos6502Kind::Wdc65C02);
    for (i, b) in program.iter().enumerate() {
        space.write8(0x8000 + i, *b).unwrap();
    }
    space.write8(0x02ff, 0x34).unwrap();
    space.write8(0x0200, 0x12).unwrap();
    space.write8(0x0300, 0x78).unwrap();
    // The CMOS part takes the fix-up cycle and reads 0x0300.
    run(&mut cpu, &mut space, 6);
    assert_eq!(cpu.instruction_pointer, 0x7834);
}

#[test]
fn jsr_and_rts_round_trip() {
    let (mut cpu, mut space) = booted(Mos6502Kind::Mos6502);
    // JSR $9000 ... at 0x9000: RTS.
    space.write8(0x8000, 0x20).unwrap();
    space.write8(0x8001, 0x00).unwrap();
    space.write8(0x8002, 0x90).unwrap();
    space.write8(0x9000, 0x60).unwrap();
    run(&mut cpu, &mut space, 6);
    assert_eq!(cpu.instruction_pointer, 0x9000);
    assert_eq!(cpu.stack, 0xfb);
    run(&mut cpu, &mut space, 6);
    assert_eq!(cpu.instruction_pointer, 0x8003);
    assert_eq!(cpu.stack, 0xfd);
}

#[test]
fn read_modify_write_shifts_memory() {
    let (mut cpu, mut space) = booted(Mos6502Kind::Mos6502);
    // ASL $0040 (zero page): five cycles.
    space.write8(0x8000, 0x06).unwrap();
    space.write8(0x8001, 0x40).unwrap();
    space.write8(0x0040, 0x81).unwrap();
    run(&mut cpu, &mut space, 5);
    assert_eq!(space.read8(0x0040).unwrap(), 0x02);
    assert!(cpu.flags.carry);
}

#[test]
fn nmi_edge_is_served_once() {
    let (mut cpu, mut space) = booted(Mos6502Kind::Mos6502);
    space.write8(0xfffa, 0x00).unwrap();
    space.write8(0xfffb, 0x90).unwrap();
    // NOP at 0x8000 and at the handler entry.
    space.write8(0x8000, 0xea).unwrap();
    space.write8(0x9000, 0xea).unwrap();
    cpu.nmi.store(false);
    // The NOP finishes after two cycles; the poll then queues the
    // six-cycle entry sequence.
    run(&mut cpu, &mut space, 2 + 6);
    assert_eq!(cpu.instruction_pointer, 0x9000);
    assert_eq!(cpu.stack, 0xfa);
    // Pushed: the return address high and low, then the flags with the
    // break mark clear (reset left only interrupt-disable set: 0x24).
    assert_eq!(space.read8(0x01fd).unwrap(), 0x80);
    assert_eq!(space.read8(0x01fc).unwrap(), 0x01);
    assert_eq!(space.read8(0x01fb).unwrap(), 0x24);
    // Holding the line low never re-arms the latch.
    cpu.nmi.store(false);
    run(&mut cpu, &mut space, 2 + 6);
    assert_eq!(cpu.stack, 0xfa);
}

#[test]
fn irq_is_masked_by_interrupt_disable_and_nmi_is_not() {
    let (mut cpu, mut space) = booted(Mos6502Kind::Mos6502);
    space.write8(0xfffe, 0x00).unwrap();
    space.write8(0xffff, 0xa0).unwrap();
    space.write8(0xfffa, 0x00).unwrap();
    space.write8(0xfffb, 0x90).unwrap();
    for addr in 0x8000..0x8010usize {
        space.write8(addr, 0xea).unwrap();
    }
    // Reset left the interrupt-disable flag set: the low IRQ line is
    // ignored.
    cpu.irq.store(false);
    run(&mut cpu, &mut space, 4);
    assert_eq!(cpu.instruction_pointer, 0x8002);
    assert_eq!(cpu.stack, 0xfd);
    // The non-maskable edge fires regardless of the flag.
    cpu.nmi.store(false);
    run(&mut cpu, &mut space, 2 + 6);
    assert_eq!(cpu.instruction_pointer, 0x9000);
}

#[test]
fn cli_lets_a_pending_irq_through() {
    let (mut cpu, mut space) = booted(Mos6502Kind::Mos6502);
    space.write8(0xfffe, 0x00).unwrap();
    space.write8(0xffff, 0xa0).unwrap();
    // CLI, then a NOP the interrupt preempts.
    space.write8(0x8000, 0x58).unwrap();
    space.write8(0x8001, 0xea).unwrap();
    cpu.irq.store(false);
    // CLI takes two cycles; the poll after its last cycle queues the
    // six-cycle entry.
    run(&mut cpu, &mut space, 2 + 6);
    assert_eq!(cpu.instruction_pointer, 0xa000);
}

#[test]
fn the_cut_down_kind_has_no_interrupt_inputs() {
    let (mut cpu, mut space) = booted(Mos6502Kind::Mos6507);
    space.write8(0x8000, 0xea).unwrap();
    space.write8(0x8001, 0xea).unwrap();
    cpu.nmi.store(false);
    cpu.irq.store(false);
    run(&mut cpu, &mut space, 4);
    assert_eq!(cpu.instruction_pointer, 0x8002);
    assert_eq!(cpu.stack, 0xfd);
}

#[test]
fn jam_freezes_without_fetching() {
    let (mut cpu, mut space) = booted(Mos6502Kind::Mos6502);
    space.write8(0x8000, 0x02).unwrap();
    run(&mut cpu, &mut space, 1);
    assert!(cpu.halted);
    let ip = cpu.instruction_pointer;
    run(&mut cpu, &mut space, 10);
    assert_eq!(cpu.instruction_pointer, ip);
    assert!(cpu.instruction_queue.is_empty());
}

#[test]
fn ready_line_freezes_read_cycles() {
    let (mut cpu, mut space) = booted(Mos6502Kind::Mos6502);
    space.write8(0x8000, 0xa9).unwrap();
    space.write8(0x8001, 0x42).unwrap();
    cpu.rdy.store(false);
    run(&mut cpu, &mut space, 10);
    // Nothing past the bus read happened: the fetch is still pending.
    assert_eq!(cpu.instruction_pointer, 0x8000);
    assert_eq!(cpu.a, 0);
    cpu.rdy.store(true);
    run(&mut cpu, &mut space, 2);
    assert_eq!(cpu.a, 0x42);
}

#[test]
fn indexed_absolute_page_cross_adds_a_cycle() {
    let (mut cpu, mut space) = booted(Mos6502Kind::Mos6502);
    // LDX #$01; LDA $10ff,X -> reads 0x1100, five cycles instead of four.
    space.write8(0x8000, 0xa2).unwrap();
    space.write8(0x8001, 0x01).unwrap();
    space.write8(0x8002, 0xbd).unwrap();
    space.write8(0x8003, 0xff).unwrap();
    space.write8(0x8004, 0x10).unwrap();
    space.write8(0x1100, 0x77).unwrap();
    run(&mut cpu, &mut space, 2);
    run(&mut cpu, &mut space, 4);
    // Four cycles in: the read went to the spurious stale-high address.
    assert_ne!(cpu.a, 0x77);
    run(&mut cpu, &mut space, 1);
    assert_eq!(cpu.a, 0x77);

    // Without a crossing the same instruction takes four cycles.
    let (mut cpu, mut space) = booted(Mos6502Kind::Mos6502);
    space.write8(0x8000, 0xa2).unwrap();
    space.write8(0x8001, 0x01).unwrap();
    space.write8(0x8002, 0xbd).unwrap();
    space.write8(0x8003, 0x00).unwrap();
    space.write8(0x8004, 0x10).unwrap();
    space.write8(0x1001, 0x55).unwrap();
    run(&mut cpu, &mut space, 6);
    assert_eq!(cpu.a, 0x55);
}

#[test]
fn php_and_plp_round_trip_the_flags() {
    let (mut cpu, mut space) = booted(Mos6502Kind::Mos6502);
    // SEC; SED; PHP; CLC; CLD; PLP restores carry and decimal.
    for (i, b) in [0x38u8, 0xf8, 0x08, 0x18, 0xd8, 0x28].iter().enumerate() {
        space.write8(0x8000 + i, *b).unwrap();
    }
    run(&mut cpu, &mut space, 2 + 2 + 3);
    assert!(cpu.flags.carry);
    assert!(cpu.flags.decimal);
    // The pushed byte has bit 5 and the break mark set on a push.
    assert_eq!(space.read8(0x01fd).unwrap(), 0x3d);
    run(&mut cpu, &mut space, 2 + 2);
    assert!(!cpu.flags.carry);
    assert!(!cpu.flags.decimal);
    run(&mut cpu, &mut space, 4);
    assert!(cpu.flags.carry);
    assert!(cpu.flags.decimal);
}

#[test]
fn flag_byte_codec_matches_the_layout() {
    let flags = FlagRegister {
        negative: true,
        overflow: false,
        decimal: true,
        interrupt_disable: false,
        zero: false,
        carry: true,
    };
    // N..1B DIZC with bit 5 always set.
    assert_eq!(flags.to_byte(false), 0b1010_1001);
    assert_eq!(flags.to_byte(true), 0b1011_1001);
    let back = FlagRegister::from_byte(0b1011_1001);
    assert_eq!(back, flags);
    // Bits 4 and 5 are ignored on the way back in.
    assert_eq!(FlagRegister::from_byte(0b1000_1001), flags);
}

#[test]
fn processor_needs_work_only_with_a_whole_cycle() {
    let (cpu, _space) = machine(Mos6502Kind::Mos6502);
    let period = Period::from_int(1_000_000).recip();
    assert!(cpu.needs_work(period));
    assert!(!cpu.needs_work(Period::from_bits(period.bits - 1)));
}
