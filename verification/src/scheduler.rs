//! The cooperative, frequency-based scheduler.
//!
//! One call to [`Scheduler::run`] advances virtual time by exactly the
//! allocated span.  Each driven component, in insertion order, then
//! synchronizes itself up to the new time through a
//! [`SynchronizationContext`]: it asks for an allocation at its own period
//! and receives a [`QuantaIterator`] that yields one timestamp per quantum,
//! never past the allocation's stop time.  A component that consumes `n`
//! quanta observes its time advance by exactly `n` periods.

use vstd::prelude::*;

use vstd::arithmetic::div_mod::lemma_fundamental_div_mod;
use vstd::arithmetic::mul::lemma_mul_inequality;

use crate::event::{spec_min_trigger, ComponentId, EventManager};
use crate::time::Period;

verus! {

/// A component the scheduler actively drives each run.
#[derive(Clone, Copy, PartialEq, Eq, Structural, Debug)]
pub struct DrivenComponent {
    pub component: ComponentId,
}

/// The scheduler: the shared event queue, the driven components in
/// insertion order, and the current virtual time.
#[derive(Debug)]
pub struct Scheduler {
    pub event_queue: EventManager,
    pub driven: Vec<DrivenComponent>,
    pub current_driven_time: Period,
    pub start_time: Period,
}

impl Scheduler {
    /// A scheduler at time zero with nothing registered.
    pub fn new() -> (r: Self)
        ensures
            r.driven@.len() == 0,
            r.current_driven_time.bits == 0,
            r.start_time.bits == 0,
            r.event_queue.events@.len() == 0,
            r.event_queue.preemption.raised == false,
    {
        Scheduler {
            event_queue: EventManager::new(),
            driven: Vec::new(),
            current_driven_time: Period::zero(),
            start_time: Period::zero(),
        }
    }

    /// The current virtual time.
    pub fn now(&self) -> (r: Period)
        ensures
            r == self.current_driven_time,
    {
        self.current_driven_time
    }

    /// The virtual time the scheduler was started at.
    pub fn start_time(&self) -> (r: Period)
        ensures
            r == self.start_time,
    {
        self.start_time
    }

    /// Adds a component to be driven each run; iteration order is
    /// insertion order.
    pub fn register_driven_component(&mut self, component: ComponentId)
        ensures
            final(self).driven@ == old(self).driven@.push(DrivenComponent { component }),
            final(self).current_driven_time == old(self).current_driven_time,
            final(self).start_time == old(self).start_time,
            final(self).event_queue == old(self).event_queue,
    {
        self.driven.push(DrivenComponent { component });
    }

    /// Advances virtual time by exactly `allocated_time` and returns the
    /// new target.  After the call, `now()` equals the value before the
    /// call plus the allocation, exactly: virtual time never drifts.
    pub fn run(&mut self, allocated_time: Period) -> (target: Period)
        requires
            old(self).current_driven_time.bits + allocated_time.bits <= u128::MAX,
        ensures
            final(self).current_driven_time.bits == old(self).current_driven_time.bits
                + allocated_time.bits,
            target == final(self).current_driven_time,
            final(self).driven == old(self).driven,
            final(self).start_time == old(self).start_time,
            final(self).event_queue == old(self).event_queue,
    {
        self.current_driven_time = self.current_driven_time.add(allocated_time);
        self.current_driven_time
    }

    /// Builds the context one driven component synchronizes under: bounded
    /// by the run's target and by the soonest pending event.
    pub fn synchronization_context(&self, component_time: Period) -> (r: SynchronizationContext)
        ensures
            r.target_timestamp == self.current_driven_time,
            r.next_event is None <==> crate::event::spec_min_trigger(
                self.event_queue.events@,
            ) is None,
            r.next_event is Some ==> r.next_event.unwrap().bits == crate::event::spec_min_trigger(
                self.event_queue.events@,
            ).unwrap(),
            r.updated_timestamp == component_time,
            r.last_attempted_allocation is None,
    {
        SynchronizationContext {
            target_timestamp: self.current_driven_time,
            next_event: self.event_queue.next_event(),
            updated_timestamp: component_time,
            last_attempted_allocation: None,
        }
    }
}

/// What one component sees while it synchronizes: the target time, the
/// soonest pending event, and its own last-observed time.
#[derive(Clone, Copy, PartialEq, Eq, Structural, Debug)]
pub struct SynchronizationContext {
    pub target_timestamp: Period,
    pub next_event: Option<Period>,
    pub updated_timestamp: Period,
    pub last_attempted_allocation: Option<Period>,
}

/// The allocation's stop time: the run target, shortened by the soonest
/// pending event.
pub open spec fn spec_stop_time(ctx: SynchronizationContext) -> u128 {
    match ctx.next_event {
        None => ctx.target_timestamp.bits,
        Some(next) => if next.bits <= ctx.target_timestamp.bits {
            next.bits
        } else {
            ctx.target_timestamp.bits
        },
    }
}

/// The whole quanta of `period` that fit between the component's time and
/// the stop time.
pub open spec fn spec_budget(ctx: SynchronizationContext, period: Period) -> int {
    if ctx.updated_timestamp.bits >= spec_stop_time(ctx) {
        0
    } else {
        (spec_stop_time(ctx) - ctx.updated_timestamp.bits) / (period.bits as int)
    }
}

impl SynchronizationContext {
    /// Allocates quanta of `period`, optionally capped: the budget is the
    /// number of whole periods between the component's time and the stop
    /// time, so the iterator can never overshoot the target nor run past
    /// a pending event.
    pub fn allocate(&mut self, period: Period, execution_limit: Option<u64>) -> (r: QuantaIterator)
        requires
            period.bits > 0,
            spec_budget(*old(self), period) <= u64::MAX,
        ensures
            final(self).target_timestamp == old(self).target_timestamp,
            final(self).next_event == old(self).next_event,
            final(self).updated_timestamp == old(self).updated_timestamp,
            final(self).last_attempted_allocation == Some(period),
            r.period == period,
            r.timestamp == old(self).updated_timestamp,
            r.target == old(self).target_timestamp,
            r.budget == (match execution_limit {
                None => spec_budget(*old(self), period),
                Some(limit) => if spec_budget(*old(self), period) <= limit {
                    spec_budget(*old(self), period)
                } else {
                    limit as int
                },
            }),
    {
        self.last_attempted_allocation = Some(period);
        let stop_time = match self.next_event {
            None => self.target_timestamp,
            Some(next) => next.min(self.target_timestamp),
        };
        let raw_budget: u128 = stop_time.saturating_sub(self.updated_timestamp).div_floor(period);
        let mut budget: u64 = raw_budget as u64;
        if let Some(limit) = execution_limit {
            if budget > limit {
                budget = limit;
            }
        }
        QuantaIterator {
            period,
            budget,
            timestamp: self.updated_timestamp,
            target: self.target_timestamp,
        }
    }
}

/// The allocation bound recomputed against the live event queue: the run
/// target shortened by the soonest pending trigger.
pub open spec fn spec_fresh_stop(target: Period, events: EventManager) -> u128 {
    match spec_min_trigger(events.events@) {
        None => target.bits,
        Some(m) => if m <= target.bits {
            m
        } else {
            target.bits
        },
    }
}

/// The whole quanta that still fit between a timestamp and the live stop
/// bound.
pub open spec fn spec_fresh_budget(it: QuantaIterator, events: EventManager) -> int {
    if it.timestamp.bits >= spec_fresh_stop(it.target, events) {
        0
    } else {
        (spec_fresh_stop(it.target, events) - it.timestamp.bits) / (it.period.bits as int)
    }
}

/// The budget a step works with: shrunk against the live event queue when
/// the preemption signal warned of a sooner event, untouched otherwise.
pub open spec fn spec_checked_budget(it: QuantaIterator, events: EventManager) -> int {
    if events.preemption.raised {
        if spec_fresh_budget(it, events) < it.budget {
            spec_fresh_budget(it, events)
        } else {
            it.budget as int
        }
    } else {
        it.budget as int
    }
}

/// How many quanta one allocation yields in all, on an event queue that
/// does not change while the component runs: the allocated budget, shrunk
/// once against the live queue if the preemption signal was up.
pub open spec fn spec_effective_quanta(it: QuantaIterator, events: EventManager) -> nat {
    if spec_checked_budget(it, events) >= 0 {
        spec_checked_budget(it, events) as nat
    } else {
        0
    }
}

/// Yields one timestamp per allocated quantum: each step advances the
/// component's observed time by exactly one period.  When the preemption
/// signal is up, the budget is first recomputed against the live event
/// queue — preemption can only shrink it — and the signal is lowered.
#[derive(Clone, Copy, PartialEq, Eq, Structural, Debug)]
pub struct QuantaIterator {
    pub period: Period,
    pub budget: u64,
    pub timestamp: Period,
    pub target: Period,
}

impl QuantaIterator {
    /// The next quantum's timestamp, or `None` when the budget is spent.
    pub fn next(&mut self, events: &mut EventManager) -> (r: Option<Period>)
        requires
            old(self).period.bits > 0,
            old(self).budget > 0 ==> old(self).timestamp.bits + old(self).period.bits
                <= u128::MAX,
        ensures
            final(events).events == old(events).events,
            final(events).preemption.raised == false,
            final(self).period == old(self).period,
            final(self).target == old(self).target,
            ({
                let checked = spec_checked_budget(*old(self), *old(events));
                &&& checked == 0 ==> r is None && final(self).timestamp == old(self).timestamp
                    && final(self).budget == checked
                &&& checked > 0 ==> {
                    &&& final(self).budget == checked - 1
                    &&& final(self).timestamp.bits == old(self).timestamp.bits + old(
                        self,
                    ).period.bits
                    &&& r == Some(final(self).timestamp)
                }
            }),
    {
        if events.preemption.needs_preemption() {
            let stop = match events.next_event() {
                None => self.target,
                Some(next) => next.min(self.target),
            };
            let fresh: u128 = stop.saturating_sub(self.timestamp).div_floor(self.period);
            if fresh < (self.budget as u128) {
                self.budget = fresh as u64;
            }
            events.clear_preemption();
        }
        if self.budget == 0 {
            return None;
        }
        self.budget = self.budget - 1;
        self.timestamp = self.timestamp.add(self.period);
        Some(self.timestamp)
    }
}

/// A component that consumes its whole budget advances by the largest
/// whole number of periods that fits before the stop time: it reaches
/// within one period of the stop and never passes it.
pub proof fn lemma_allocation_is_exact(start: int, stop: int, period: int)
    requires
        0 <= start <= stop,
        period > 0,
    ensures
        start + ((stop - start) / period) * period <= stop,
        stop < start + ((stop - start) / period) * period + period,
        (stop - start) / period >= 0,
{
    let delta = stop - start;
    lemma_fundamental_div_mod(delta, period);
    vstd::arithmetic::div_mod::lemma_mod_bound(delta, period);
    assert(delta == period * (delta / period) + delta % period);
    assert(period * (delta / period) == (delta / period) * period) by (nonlinear_arith);
    if delta / period < 0 {
        lemma_mul_inequality(delta / period, -1, period);
    }
}

} // verus!
