//! The audio timer's pacing, and a whole machine driven through the
//! scheduler.

use fluxemu_core::chip8_audio::Chip8Audio;
use fluxemu_core::cpu::Mos6502Config;
use fluxemu_core::instruction::Mos6502Kind;
use fluxemu_core::interrupt::NmiFlag;
use fluxemu_core::machine::{Machine, MachineComponent};
use fluxemu_core::event::EventManager;
use fluxemu_core::scheduler::SynchronizationContext;
use fluxemu_core::time::Period;

fn second_of_context() -> SynchronizationContext {
    SynchronizationContext {
        target_timestamp: Period::from_int(1),
        next_event: None,
        updated_timestamp: Period::zero(),
        last_attempted_allocation: None,
    }
}

#[test]
fn one_second_produces_eight_thousand_samples_and_drains_the_timer() {
    let mut audio = Chip8Audio::new(Period::from_int(500));
    audio.set(60);
    let mut ctx = second_of_context();
    audio.synchronize(&mut ctx, &mut EventManager::new());
    let samples = audio.samples();
    // The stored period is the exact floor of the reciprocal, so one
    // second of quanta accrues a hair under 8000 whole samples.
    assert!(samples.len() == 7999 || samples.len() == 8000, "len = {}", samples.len());
    // Likewise the sixtieths: at most one count is still pending.
    assert!(audio.timer <= 1, "timer = {}", audio.timer);
    // Even duty: half the samples are the high level, near enough.
    let positives = samples.iter().filter(|s| **s > 0).count();
    assert!(positives >= 3600 && positives <= 4400, "positives = {positives}");
    // Every sample is one of the two levels.
    assert!(samples.iter().all(|s| *s == 1 || *s == -1));
    // A second run finishes the countdown; production stops with it.
    let mut later = SynchronizationContext {
        target_timestamp: Period::from_int(2),
        next_event: None,
        updated_timestamp: Period::from_int(1),
        last_attempted_allocation: None,
    };
    audio.synchronize(&mut later, &mut EventManager::new());
    assert_eq!(audio.timer, 0);
    // At most one sixtieth of extra tone came out before it stopped.
    assert!(audio.samples().len() <= 8140, "len = {}", audio.samples().len());
}

#[test]
fn a_zero_timer_produces_no_samples() {
    let mut audio = Chip8Audio::new(Period::from_int(500));
    let mut ctx = second_of_context();
    audio.synchronize(&mut ctx, &mut EventManager::new());
    assert_eq!(audio.samples().len(), 0);
}

#[test]
fn a_short_timer_stops_production_early() {
    let mut audio = Chip8Audio::new(Period::from_int(500));
    // Thirty sixtieths: half a second of tone in a one-second run.
    audio.set(30);
    let mut ctx = second_of_context();
    audio.synchronize(&mut ctx, &mut EventManager::new());
    let produced = audio.samples().len();
    assert!(produced >= 3900 && produced <= 4100, "produced = {produced}");
    assert_eq!(audio.timer, 0);
}

#[test]
fn the_consumer_drains_oldest_first() {
    let mut audio = Chip8Audio::new(Period::from_int(500));
    audio.set(60);
    let mut ctx = second_of_context();
    audio.synchronize(&mut ctx, &mut EventManager::new());
    let all = audio.samples();
    let first = audio.take_sample().unwrap();
    let second = audio.take_sample().unwrap();
    assert_eq!(first, all[0]);
    assert_eq!(second, all[1]);
    assert_eq!(audio.samples().len(), all.len() - 2);
}

#[test]
fn nmi_latch_arms_once_per_falling_edge() {
    let mut nmi = NmiFlag::default();
    nmi.store(false);
    assert!(nmi.interrupt_required());
    assert!(!nmi.interrupt_required());
    // Still low: no new edge.
    nmi.store(false);
    assert!(!nmi.interrupt_required());
    // Release and drop again: one new edge.
    nmi.store(true);
    nmi.store(false);
    assert!(nmi.interrupt_required());
    assert!(!nmi.interrupt_required());
}

#[test]
fn a_machine_runs_its_processor_for_exactly_the_allocated_time() {
    let mut machine = Machine::new();
    let space = machine.insert_address_space(16);
    let ram = machine
        .memory_register_buffer(space, vec![0u8; 65536], true)
        .unwrap();
    machine.memory_map_buffer_write(space, 0, 0xffff, ram).unwrap();
    // Reset vector to 0x8000, then an endless chain of NOPs.
    machine.address_spaces[space].write8(0xfffc, 0x00).unwrap();
    machine.address_spaces[space].write8(0xfffd, 0x80).unwrap();
    for addr in 0x8000..0x8100usize {
        machine.address_spaces[space].write8(addr, 0xea).unwrap();
    }
    let frequency = Period::from_int(1_000_000);
    let cpu_id = machine
        .insert_processor(Mos6502Config {
            frequency,
            assigned_address_space: space,
            kind: Mos6502Kind::Mos6502,
            broken_ror: false,
        })
        .unwrap();
    let before = machine.now();
    // One hundred processor cycles of virtual time.
    let delta = Period::from_bits(frequency.recip().bits * 100);
    machine.run(delta);
    assert_eq!(machine.now().bits, before.bits + delta.bits);
    match &machine.components[cpu_id] {
        MachineComponent::Processor(cpu) => {
            // Reset took 6 cycles; the rest ran NOPs at 2 cycles each.
            assert_eq!(cpu.instruction_pointer, 0x8000 + (100 - 6) / 2);
            assert!(!cpu.halted);
        }
        MachineComponent::AudioTimer(_) => panic!("expected the processor"),
    }
    // A second run continues from where the first stopped.
    machine.run(delta);
    match &machine.components[cpu_id] {
        MachineComponent::Processor(cpu) => {
            assert_eq!(cpu.instruction_pointer, 0x8000 + (200 - 6) / 2);
        }
        MachineComponent::AudioTimer(_) => panic!("expected the processor"),
    }
}

#[test]
fn machine_rejects_unknown_spaces() {
    let mut machine = Machine::new();
    assert!(machine
        .memory_register_buffer(3, vec![0u8; 16], true)
        .is_err());
    assert!(machine
        .insert_processor(Mos6502Config {
            frequency: Period::from_int(1000),
            assigned_address_space: 9,
            kind: Mos6502Kind::Mos6502,
            broken_ror: false,
        })
        .is_err());
}

#[test]
fn snapshots_round_trip_the_timer() {
    let mut audio = Chip8Audio::new(Period::from_int(500));
    audio.set(42);
    assert_eq!(audio.snapshot_version(), Some(0));
    let snapshot = audio.store_snapshot();
    assert_eq!(snapshot, vec![42]);
    let mut restored = Chip8Audio::new(Period::from_int(500));
    restored.load_snapshot(0, &snapshot).unwrap();
    assert_eq!(restored.timer, 42);
    // An unknown version is refused and changes nothing.
    assert!(restored.load_snapshot(3, &snapshot).is_err());
    assert_eq!(restored.timer, 42);
    assert!(restored.load_snapshot(0, &Vec::new()).is_err());
}

#[test]
fn needs_work_requires_a_whole_quantum() {
    let audio = Chip8Audio::new(Period::from_int(500));
    let period = Period::from_int(500).recip();
    assert!(!audio.needs_work(Period::from_bits(period.bits - 1)));
    assert!(audio.needs_work(period));
    assert!(audio.needs_work(Period::from_int(1)));
}

#[test]
fn the_machine_mediates_audio_timer_access() {
    let mut machine = Machine::new();
    let id = machine.insert_audio_timer(Period::from_int(500));
    machine.audio_timer_set(id, 60).unwrap();
    // Run one second of virtual time; the on-demand component is not
    // scheduler-driven, so the backend ticks it explicitly.
    machine.run(Period::from_int(1));
    machine.audio_timer_synchronize(id, Period::zero()).unwrap();
    let first = machine.audio_timer_take_sample(id).unwrap();
    assert!(matches!(first, Some(1) | Some(-1)));
    // Wrong ids are refused.
    assert!(machine.audio_timer_set(9, 1).is_err());
    assert!(machine.audio_timer_take_sample(9).is_err());
    assert!(machine.audio_timer_synchronize(9, Period::zero()).is_err());
}
