//! Scheduled wakeups and the preemption signal.
//!
//! Components ask to be woken at a virtual time by pushing an event.  The
//! scheduler bounds each allocation by the soonest pending trigger.  When a
//! pushed event is sooner than everything already pending, the advisory
//! preemption signal is raised, so a running quanta iterator re-checks its
//! budget at the next quantum boundary.

use vstd::prelude::*;

use crate::time::Period;

verus! {

/// Identifies a component within a machine.
pub type ComponentId = usize;

/// What a scheduled event asks for.
#[derive(Clone, Copy, PartialEq, Eq, Structural, Debug)]
pub enum EventType {
    /// Wake the target component at the trigger time.
    Wakeup,
}

/// One scheduled wakeup.
#[derive(Clone, Copy, PartialEq, Eq, Structural, Debug)]
pub struct QueuedEvent {
    pub trigger_at: Period,
    pub kind: EventType,
    pub target: ComponentId,
}

/// The advisory one-bit signal that a sooner event has been enqueued.
#[derive(Clone, Copy, PartialEq, Eq, Structural, Debug)]
pub struct PreemptionSignal {
    pub raised: bool,
}

impl PreemptionSignal {
    /// True while a re-check of the allocation bound is advised.
    pub fn needs_preemption(&self) -> (r: bool)
        ensures
            r == self.raised,
    {
        self.raised
    }
}

/// The soonest trigger among pending events, as raw time ticks.
pub open spec fn spec_min_trigger(events: Seq<QueuedEvent>) -> Option<u128>
    decreases events.len(),
{
    if events.len() == 0 {
        None
    } else {
        match spec_min_trigger(events.drop_first()) {
            None => Some(events[0].trigger_at.bits),
            Some(rest) => if events[0].trigger_at.bits <= rest {
                Some(events[0].trigger_at.bits)
            } else {
                Some(rest)
            },
        }
    }
}

/// `spec_min_trigger` commutes with appending one event.
proof fn lemma_min_trigger_push(events: Seq<QueuedEvent>, e: QueuedEvent)
    ensures
        spec_min_trigger(events.push(e)) == (match spec_min_trigger(events) {
            None => Some(e.trigger_at.bits),
            Some(m) => if e.trigger_at.bits <= m {
                Some(e.trigger_at.bits)
            } else {
                Some(m)
            },
        }),
    decreases events.len(),
{
    if events.len() == 0 {
        assert(events.push(e) =~= seq![e]);
        assert(seq![e].drop_first() =~= Seq::<QueuedEvent>::empty());
        assert(spec_min_trigger(Seq::<QueuedEvent>::empty()) is None);
    } else {
        assert(events.push(e)[0] == events[0]);
        assert(events.push(e).drop_first() =~= events.drop_first().push(e));
        lemma_min_trigger_push(events.drop_first(), e);
    }
}

/// The events with trigger at or before `now`, in stored order.
pub open spec fn spec_due(events: Seq<QueuedEvent>, now: u128) -> Seq<QueuedEvent>
    decreases events.len(),
{
    if events.len() == 0 {
        Seq::empty()
    } else if events[0].trigger_at.bits <= now {
        seq![events[0]] + spec_due(events.drop_first(), now)
    } else {
        spec_due(events.drop_first(), now)
    }
}

/// The events with trigger after `now`, in stored order.
pub open spec fn spec_pending(events: Seq<QueuedEvent>, now: u128) -> Seq<QueuedEvent>
    decreases events.len(),
{
    if events.len() == 0 {
        Seq::empty()
    } else if events[0].trigger_at.bits <= now {
        spec_pending(events.drop_first(), now)
    } else {
        seq![events[0]] + spec_pending(events.drop_first(), now)
    }
}

/// Both partitions commute with appending one event.
proof fn lemma_due_pending_push(events: Seq<QueuedEvent>, e: QueuedEvent, now: u128)
    ensures
        spec_due(events.push(e), now) == if e.trigger_at.bits <= now {
            spec_due(events, now).push(e)
        } else {
            spec_due(events, now)
        },
        spec_pending(events.push(e), now) == if e.trigger_at.bits <= now {
            spec_pending(events, now)
        } else {
            spec_pending(events, now).push(e)
        },
    decreases events.len(),
{
    if events.len() == 0 {
        assert(events.push(e) =~= seq![e]);
        assert(seq![e].drop_first() =~= Seq::<QueuedEvent>::empty());
        assert(spec_due(Seq::<QueuedEvent>::empty(), now) =~= Seq::<QueuedEvent>::empty());
        assert(spec_pending(Seq::<QueuedEvent>::empty(), now) =~= Seq::<QueuedEvent>::empty());
        assert(seq![e] + Seq::<QueuedEvent>::empty() =~= Seq::<QueuedEvent>::empty().push(e));
    } else {
        assert(events.push(e)[0] == events[0]);
        assert(events.push(e).drop_first() =~= events.drop_first().push(e));
        lemma_due_pending_push(events.drop_first(), e, now);
        if events[0].trigger_at.bits <= now {
            if e.trigger_at.bits <= now {
                assert(seq![events[0]] + spec_due(events.drop_first(), now).push(e) =~= (seq![
                    events[0],
                ] + spec_due(events.drop_first(), now)).push(e));
            }
        } else {
            if e.trigger_at.bits > now {
                assert(seq![events[0]] + spec_pending(events.drop_first(), now).push(e) =~= (seq![
                    events[0],
                ] + spec_pending(events.drop_first(), now)).push(e));
            }
        }
    }
}

/// The pending wakeups, in insertion order, plus the preemption signal.
#[derive(Debug)]
pub struct EventManager {
    pub events: Vec<QueuedEvent>,
    pub preemption: PreemptionSignal,
}

impl EventManager {
    /// An empty queue with the signal clear.
    pub fn new() -> (r: Self)
        ensures
            r.events@.len() == 0,
            r.preemption.raised == false,
    {
        EventManager { events: Vec::new(), preemption: PreemptionSignal { raised: false } }
    }

    /// Schedules a wakeup.  When the new trigger is sooner than every
    /// pending one (or nothing was pending, so the allocation bound may
    /// shrink), the preemption signal is raised.
    pub fn push(&mut self, trigger_at: Period, kind: EventType, target: ComponentId)
        ensures
            final(self).events@ == old(self).events@.push(
                QueuedEvent { trigger_at, kind, target },
            ),
            final(self).preemption.raised == (old(self).preemption.raised || (
            match spec_min_trigger(old(self).events@) {
                None => true,
                Some(m) => trigger_at.bits < m,
            })),
    {
        let sooner = match self.next_event() {
            None => true,
            Some(next) => trigger_at.lt(next),
        };
        if sooner {
            self.preemption.raised = true;
        }
        self.events.push(QueuedEvent { trigger_at, kind, target });
    }

    /// The soonest pending trigger, without removing anything.
    pub fn next_event(&self) -> (r: Option<Period>)
        ensures
            r is None <==> spec_min_trigger(self.events@) is None,
            r is Some ==> r.unwrap().bits == spec_min_trigger(self.events@).unwrap(),
    {
        let ghost full = self.events@;
        let mut best: Option<Period> = None;
        let mut i: usize = 0;
        proof {
            assert(full.take(0) =~= Seq::<QueuedEvent>::empty());
        }
        while i < self.events.len()
            invariant
                i <= self.events@.len(),
                self.events@ == full,
                best is None <==> spec_min_trigger(full.take(i as int)) is None,
                best is Some ==> best.unwrap().bits == spec_min_trigger(
                    full.take(i as int),
                ).unwrap(),
            decreases self.events@.len() - i,
        {
            let e = self.events[i];
            proof {
                assert(full.take(i as int + 1) =~= full.take(i as int).push(full[i as int]));
                lemma_min_trigger_push(full.take(i as int), full[i as int]);
            }
            best = match best {
                None => Some(e.trigger_at),
                Some(b) => if e.trigger_at.bits <= b.bits {
                    Some(e.trigger_at)
                } else {
                    Some(b)
                },
            };
            i = i + 1;
        }
        proof {
            assert(full.take(self.events@.len() as int) =~= full);
        }
        best
    }

    /// Removes and returns every event due at or before `now`, keeping
    /// stored order in both halves.
    pub fn pop_due(&mut self, now: Period) -> (r: Vec<QueuedEvent>)
        ensures
            r@ == spec_due(old(self).events@, now.bits),
            final(self).events@ == spec_pending(old(self).events@, now.bits),
            final(self).preemption == old(self).preemption,
    {
        let ghost full = self.events@;
        let mut due: Vec<QueuedEvent> = Vec::new();
        let mut pending: Vec<QueuedEvent> = Vec::new();
        let mut i: usize = 0;
        proof {
            assert(full.take(0) =~= Seq::<QueuedEvent>::empty());
        }
        while i < self.events.len()
            invariant
                i <= self.events@.len(),
                self.events@ == full,
                due@ == spec_due(full.take(i as int), now.bits),
                pending@ == spec_pending(full.take(i as int), now.bits),
            decreases self.events@.len() - i,
        {
            let e = self.events[i];
            proof {
                assert(full.take(i as int + 1) =~= full.take(i as int).push(full[i as int]));
                lemma_due_pending_push(full.take(i as int), full[i as int], now.bits);
            }
            if e.trigger_at.bits <= now.bits {
                due.push(e);
            } else {
                pending.push(e);
            }
            i = i + 1;
        }
        proof {
            assert(full.take(self.events@.len() as int) =~= full);
        }
        self.events = pending;
        due
    }

    /// Lowers the preemption signal once the new bound has been read.
    pub fn clear_preemption(&mut self)
        ensures
            final(self).events == old(self).events,
            final(self).preemption.raised == false,
    {
        self.preemption.raised = false;
    }
}

} // verus!
