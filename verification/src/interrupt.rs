//! The shared processor control lines: ready, IRQ level, and the NMI
//! falling-edge latch.
//!
//! IRQ is level-triggered and active low: the line stores `true` when
//! deasserted, and an interrupt is required exactly while the stored level
//! is low.  NMI is edge-triggered: a store that takes the line from high to
//! low sets a one-shot latch, which the consumer reads and clears in one
//! step.  Holding the line low, or releasing it, never re-arms the latch.

use vstd::prelude::*;

verus! {

/// The ready line: the processor freezes on read cycles while it is low.
#[derive(Clone, Copy, PartialEq, Eq, Structural, Debug)]
pub struct RdyFlag {
    pub value: bool,
}

impl RdyFlag {
    /// Reads the line.
    pub fn load(&self) -> (r: bool)
        ensures
            r == self.value,
    {
        self.value
    }

    /// Drives the line.
    pub fn store(&mut self, value: bool)
        ensures
            final(self).value == value,
    {
        self.value = value;
    }
}

impl Default for RdyFlag {
    /// The line starts high: the processor runs.
    fn default() -> (r: Self)
        ensures
            r.value == true,
    {
        RdyFlag { value: true }
    }
}

/// The IRQ level line, active low: `stored == false` means an interrupt is
/// required.
#[derive(Clone, Copy, PartialEq, Eq, Structural, Debug)]
pub struct IrqFlag {
    pub stored: bool,
}

impl IrqFlag {
    /// Drives the line; `false` asserts the interrupt.
    pub fn store(&mut self, irq: bool)
        ensures
            final(self).stored == irq,
    {
        self.stored = irq;
    }

    /// True exactly while the line is held low.
    pub fn interrupt_required(&self) -> (r: bool)
        ensures
            r == !self.stored,
    {
        !self.stored
    }
}

impl Default for IrqFlag {
    /// The line starts high: no interrupt required.
    fn default() -> (r: Self)
        ensures
            r.stored == true,
    {
        IrqFlag { stored: true }
    }
}

/// The NMI line with its one-shot falling-edge latch.
#[derive(Clone, Copy, PartialEq, Eq, Structural, Debug)]
pub struct NmiFlag {
    pub current_state: bool,
    pub falling_edge_occurred: bool,
}

/// The state of the latch after the line is driven to `nmi`: only a
/// high-to-low transition arms it; nothing else changes it.
pub open spec fn spec_nmi_store(f: NmiFlag, nmi: bool) -> NmiFlag {
    NmiFlag {
        current_state: nmi,
        falling_edge_occurred: f.falling_edge_occurred || (f.current_state && !nmi),
    }
}

/// What the consumer observes and leaves behind: the latch value, and the
/// flag with the latch cleared.
pub open spec fn spec_nmi_consume(f: NmiFlag) -> (bool, NmiFlag) {
    (f.falling_edge_occurred, NmiFlag { current_state: f.current_state, falling_edge_occurred: false })
}

impl NmiFlag {
    /// Drives the line; a high-to-low transition arms the one-shot latch.
    pub fn store(&mut self, nmi: bool)
        ensures
            *final(self) == spec_nmi_store(*old(self), nmi),
    {
        if self.current_state && !nmi {
            self.falling_edge_occurred = true;
        }
        self.current_state = nmi;
    }

    /// Reads and clears the latch in one step.
    pub fn interrupt_required(&mut self) -> (r: bool)
        ensures
            r == spec_nmi_consume(*old(self)).0,
            *final(self) == spec_nmi_consume(*old(self)).1,
    {
        let r = self.falling_edge_occurred;
        self.falling_edge_occurred = false;
        r
    }
}

impl Default for NmiFlag {
    /// The line starts high with the latch clear.
    fn default() -> (r: Self)
        ensures
            r.current_state == true,
            r.falling_edge_occurred == false,
    {
        NmiFlag { current_state: true, falling_edge_occurred: false }
    }
}

/// One high-to-low transition arms the latch exactly once: driving the line
/// low, then high, then low again yields one consumable edge per
/// high-to-low step, and a consumer that has taken the edge finds none
/// until the next such transition.  In particular, repeating `store(false)`
/// while the line is already low never re-arms the latch.
pub proof fn lemma_nmi_edge_latches_once(f0: NmiFlag)
    requires
        f0.current_state,
        !f0.falling_edge_occurred,
    ensures
        ({
            let f1 = spec_nmi_store(f0, false);
            let (seen1, f2) = spec_nmi_consume(f1);
            let f3 = spec_nmi_store(f2, false);
            let (seen2, f4) = spec_nmi_consume(f3);
            let f5 = spec_nmi_store(f4, false);
            let (seen3, _f6) = spec_nmi_consume(f5);
            seen1 && !seen2 && !seen3
        }),
        ({
            let f1 = spec_nmi_store(f0, false);
            let (_, f2) = spec_nmi_consume(f1);
            let f3 = spec_nmi_store(f2, true);
            let f4 = spec_nmi_store(f3, false);
            let (seen_again, _) = spec_nmi_consume(f4);
            seen_again
        }),
{
}

} // verus!
