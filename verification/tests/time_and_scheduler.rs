//! Exact fixed-point time arithmetic and scheduler pacing.

use fluxemu_core::event::{EventManager, EventType};
use fluxemu_core::scheduler::{Scheduler, SynchronizationContext};
use fluxemu_core::time::{Period, PERIOD_SCALE};

#[test]
fn period_conversions_are_exact() {
    let p = Period::from_int(7);
    assert_eq!(p.bits, 7u128 * PERIOD_SCALE);
    assert_eq!(p.to_int(), 7);
    let q = Period::from_bits(PERIOD_SCALE + PERIOD_SCALE / 2);
    assert_eq!(q.to_int(), 1);
}

#[test]
fn period_addition_and_saturation() {
    let a = Period::from_int(3);
    let b = Period::from_int(4);
    assert_eq!(a.add(b).bits, Period::from_int(7).bits);
    assert_eq!(a.saturating_sub(b).bits, 0);
    assert_eq!(b.saturating_sub(a).bits, Period::from_int(1).bits);
}

#[test]
fn reciprocal_is_exact_on_powers_of_two() {
    // A frequency of 2 events per unit has a period of exactly one half.
    let two = Period::from_int(2);
    let half = two.recip();
    assert_eq!(half.bits, PERIOD_SCALE / 2);
    // And back again.
    assert_eq!(half.recip().bits, two.bits);
}

#[test]
fn reciprocal_of_sixty_floor() {
    let sixty = Period::from_int(60);
    let r = sixty.recip();
    // floor(2^128 / (60 * 2^64)) == floor(2^64 / 60)
    assert_eq!(r.bits, PERIOD_SCALE / 60);
}

#[test]
fn division_counts_whole_periods() {
    let span = Period::from_int(10);
    let period = Period::from_int(3);
    assert_eq!(span.div_floor(period), 3);
    assert_eq!(Period::from_int(9).div_floor(period), 3);
}

#[test]
fn scheduler_run_advances_time_exactly() {
    let mut scheduler = Scheduler::new();
    assert_eq!(scheduler.now().bits, 0);
    let before = scheduler.now();
    let delta = Period::from_bits(123_456_789_012_345);
    scheduler.run(delta);
    assert_eq!(scheduler.now().bits, before.bits + delta.bits);
    // A second run adds exactly again, no drift.
    scheduler.run(delta);
    assert_eq!(scheduler.now().bits, before.bits + 2 * delta.bits);
}

#[test]
fn quanta_iterator_yields_exact_multiples() {
    let mut events = EventManager::new();
    let mut ctx = SynchronizationContext {
        target_timestamp: Period::from_int(10),
        next_event: None,
        updated_timestamp: Period::zero(),
        last_attempted_allocation: None,
    };
    let period = Period::from_int(3);
    let mut it = ctx.allocate(period, None);
    assert_eq!(it.budget, 3);
    assert_eq!(it.next(&mut events).unwrap().bits, Period::from_int(3).bits);
    assert_eq!(it.next(&mut events).unwrap().bits, Period::from_int(6).bits);
    assert_eq!(it.next(&mut events).unwrap().bits, Period::from_int(9).bits);
    assert!(it.next(&mut events).is_none());
    // Never overshoots the target of 10.
}

#[test]
fn allocation_respects_execution_limit() {
    let mut ctx = SynchronizationContext {
        target_timestamp: Period::from_int(100),
        next_event: None,
        updated_timestamp: Period::zero(),
        last_attempted_allocation: None,
    };
    let it = ctx.allocate(Period::from_int(1), Some(5));
    assert_eq!(it.budget, 5);
    assert_eq!(ctx.last_attempted_allocation.unwrap().bits, Period::from_int(1).bits);
}

#[test]
fn allocation_stops_at_next_event() {
    let mut ctx = SynchronizationContext {
        target_timestamp: Period::from_int(10),
        next_event: Some(Period::from_int(4)),
        updated_timestamp: Period::zero(),
        last_attempted_allocation: None,
    };
    let it = ctx.allocate(Period::from_int(3), None);
    // Only one whole period of 3 fits before the event at 4.
    assert_eq!(it.budget, 1);
}

#[test]
fn preemption_signal_shrinks_the_budget_at_the_next_quantum() {
    let mut events = EventManager::new();
    let mut ctx = SynchronizationContext {
        target_timestamp: Period::from_int(10),
        next_event: None,
        updated_timestamp: Period::zero(),
        last_attempted_allocation: None,
    };
    let mut it = ctx.allocate(Period::from_int(1), None);
    assert_eq!(it.budget, 10);
    assert_eq!(it.next(&mut events).unwrap().bits, Period::from_int(1).bits);
    assert_eq!(it.next(&mut events).unwrap().bits, Period::from_int(2).bits);
    // A sooner event arrives: the signal is raised, and the very next
    // quantum boundary re-computes the budget and lowers the signal.
    events.push(Period::from_int(6), EventType::Wakeup, 0);
    assert!(events.preemption.needs_preemption());
    assert_eq!(it.next(&mut events).unwrap().bits, Period::from_int(3).bits);
    assert!(!events.preemption.needs_preemption());
    assert_eq!(it.budget, 3);
    assert_eq!(it.next(&mut events).unwrap().bits, Period::from_int(4).bits);
    assert_eq!(it.next(&mut events).unwrap().bits, Period::from_int(5).bits);
    assert_eq!(it.next(&mut events).unwrap().bits, Period::from_int(6).bits);
    // The event bound is never passed.
    assert!(it.next(&mut events).is_none());
}

#[test]
fn sooner_event_raises_preemption() {
    let mut events = EventManager::new();
    events.push(Period::from_int(5), EventType::Wakeup, 0);
    assert!(events.preemption.needs_preemption());
    events.clear_preemption();
    // A later event does not raise the signal.
    events.push(Period::from_int(9), EventType::Wakeup, 0);
    assert!(!events.preemption.needs_preemption());
    // A sooner one does.
    events.push(Period::from_int(2), EventType::Wakeup, 1);
    assert!(events.preemption.needs_preemption());
    assert_eq!(events.next_event().unwrap().bits, Period::from_int(2).bits);
}

#[test]
fn pop_due_partitions_in_order() {
    let mut events = EventManager::new();
    events.push(Period::from_int(5), EventType::Wakeup, 10);
    events.push(Period::from_int(1), EventType::Wakeup, 11);
    events.push(Period::from_int(7), EventType::Wakeup, 12);
    events.push(Period::from_int(3), EventType::Wakeup, 13);
    let due = events.pop_due(Period::from_int(4));
    let targets: Vec<usize> = due.iter().map(|e| e.target).collect();
    assert_eq!(targets, vec![11, 13]);
    assert_eq!(events.events.len(), 2);
    assert_eq!(events.events[0].target, 10);
    assert_eq!(events.events[1].target, 12);
}
