//! The CHIP-8 audio timer: an on-demand component that paces square-wave
//! samples into a ring buffer.
//!
//! The imaginary hardware produces samples at 8000 Hz.  A 60 Hz countdown
//! timer, set by the processor, gates production: while it is above zero,
//! each elapsed sample period pushes one sample of a 440 Hz square wave
//! with even duty into the buffer.  All pacing arithmetic is exact
//! fixed-point: per quantum of the processor's period the component
//! accrues `8000 * period` sample time and one period of timer time, and
//! drains whole samples and whole sixtieths respectively.
//!
//! The ring buffer itself comes from an outside crate; the declarations
//! below state, and the library relies on, what that crate documents of
//! its behaviour.

use vstd::prelude::*;

use ringbuffer::RingBuffer;

use crate::event::EventManager;
use crate::scheduler::{spec_budget, QuantaIterator, SynchronizationContext};
use crate::time::{Frequency, Period, PERIOD_SCALE};

verus! {

/// The imaginary hardware's sample rate, in samples per unit of virtual
/// time.
pub const INTERNAL_SAMPLE_RATE: u64 = 8000;

/// How many samples the ring buffer holds: ten units of virtual time.
pub const AUDIO_BUFFER_CAPACITY: usize = 80000;

/// The square wave's frequency in cycles per unit of virtual time.
pub const WAVE_FREQUENCY: u32 = 440;

/// Raw ticks of one sixtieth of a time unit: the countdown timer's period.
pub const TIMER_PERIOD_BITS: u128 = 0x1_0000_0000_0000_0000u128 / 60;

#[verifier::external_type_specification]
#[verifier::external_body]
#[verifier::reject_recursive_types(T)]
pub struct ExAllocRingBuffer<T>(ringbuffer::AllocRingBuffer<T>);

/// What the outside ring buffer holds, oldest first.
pub uninterp spec fn ring_samples(r: ringbuffer::AllocRingBuffer<i8>) -> Seq<i8>;

/// The fixed capacity the outside ring buffer was created with.
pub uninterp spec fn ring_capacity(r: ringbuffer::AllocRingBuffer<i8>) -> nat;

/// Relies on ringbuffer::AllocRingBuffer::new: an empty buffer of the
/// given capacity (which must not be zero).
#[verifier::external_body]
fn ring_new(capacity: usize) -> (r: ringbuffer::AllocRingBuffer<i8>)
    requires
        capacity > 0,
    ensures
        ring_samples(r) == Seq::<i8>::empty(),
        ring_capacity(r) == capacity,
{
    ringbuffer::AllocRingBuffer::new(capacity)
}

/// Relies on ringbuffer::RingBuffer::enqueue: appends at the back and,
/// when the buffer is full, drops and returns the oldest element.
#[verifier::external_body]
fn ring_enqueue(r: &mut ringbuffer::AllocRingBuffer<i8>, value: i8)
    ensures
        ring_capacity(*final(r)) == ring_capacity(*old(r)),
        ring_samples(*final(r)) == (if ring_samples(*old(r)).len() < ring_capacity(*old(r)) {
            ring_samples(*old(r)).push(value)
        } else {
            ring_samples(*old(r)).drop_first().push(value)
        }),
{
    let _ = r.enqueue(value);
}

/// Relies on ringbuffer::RingBuffer::dequeue: removes and returns the
/// oldest element, or nothing when empty.
#[verifier::external_body]
fn ring_dequeue(r: &mut ringbuffer::AllocRingBuffer<i8>) -> (v: Option<i8>)
    ensures
        ring_capacity(*final(r)) == ring_capacity(*old(r)),
        ring_samples(*old(r)).len() == 0 ==> v is None && ring_samples(*final(r))
            == ring_samples(*old(r)),
        ring_samples(*old(r)).len() > 0 ==> v == Some(ring_samples(*old(r))[0]) && ring_samples(
            *final(r),
        ) == ring_samples(*old(r)).drop_first(),
{
    r.dequeue()
}

/// Relies on ringbuffer::RingBuffer::to_vec: the held elements, oldest
/// first.
#[verifier::external_body]
fn ring_to_vec(r: &ringbuffer::AllocRingBuffer<i8>) -> (v: Vec<i8>)
    ensures
        v@ == ring_samples(*r),
{
    r.to_vec()
}

/// Restoring a snapshot can fail; the failure is fatal to the load and
/// never to the run.
#[derive(Clone, Copy, PartialEq, Eq, Structural, Debug)]
pub enum SnapshotError {
    /// The stream carries a version this component does not know.
    UnsupportedVersion { version: u16 },
    /// The stream ended before the component's state was complete.
    TruncatedStream,
}

/// The square wave's level at a phase position: high through the first
/// half of each 8000-step cycle (even duty), low through the second.
pub open spec fn spec_wave_level(phase: int) -> i8 {
    if phase % 8000 < 4000 {
        1i8
    } else {
        -1i8
    }
}

/// The audio timer component.
pub struct Chip8Audio {
    pub timer: u8,
    pub buffer: ringbuffer::AllocRingBuffer<i8>,
    pub wave_phase: u32,
    pub processor_period: Period,
    pub timer_accumulator: Period,
    pub audio_accumulator: Period,
}

impl Chip8Audio {
    /// The component's pacing state is sound: the period is positive and
    /// small enough for a quantum's worth of samples to be counted
    /// exactly, and both accumulators hold less than one whole unit of
    /// their drain.
    pub open spec fn wf(self) -> bool {
        &&& 1 <= self.processor_period.bits <= 0x2000_0000_0000_0000_0000
        &&& self.audio_accumulator.bits < PERIOD_SCALE as u128
        &&& self.timer_accumulator.bits < TIMER_PERIOD_BITS as u128
        &&& self.wave_phase < 8000
        &&& ring_capacity(self.buffer) == AUDIO_BUFFER_CAPACITY
        &&& ring_samples(self.buffer).len() <= AUDIO_BUFFER_CAPACITY
    }

    /// Builds the component for a processor frequency; the buffer starts
    /// empty and the timer at zero.
    pub fn new(processor_frequency: Frequency) -> (r: Self)
        requires
            processor_frequency.bits >= 0x8_0000_0000_0000,
        ensures
            r.wf(),
            r.timer == 0,
            ring_samples(r.buffer) == Seq::<i8>::empty(),
            r.processor_period.bits == 0x1_0000_0000_0000_0000_0000_0000_0000_0000int / (
            processor_frequency.bits as int),
    {
        let period = processor_frequency.recip();
        proof {
            vstd::arithmetic::div_mod::lemma_div_is_ordered_by_denominator(
                0x1_0000_0000_0000_0000_0000_0000_0000_0000int,
                0x8_0000_0000_0000int,
                processor_frequency.bits as int,
            );
            assert(0x1_0000_0000_0000_0000_0000_0000_0000_0000int / 0x8_0000_0000_0000int
                == 0x2000_0000_0000_0000_0000int) by (nonlinear_arith);
            vstd::arithmetic::div_mod::lemma_div_non_zero(
                0x1_0000_0000_0000_0000_0000_0000_0000_0000int,
                processor_frequency.bits as int,
            );
        }
        Chip8Audio {
            timer: 0,
            buffer: ring_new(AUDIO_BUFFER_CAPACITY),
            wave_phase: 0,
            processor_period: period,
            timer_accumulator: Period::zero(),
            audio_accumulator: Period::zero(),
        }
    }

    /// The processor sets the countdown timer.
    pub fn set(&mut self, value: u8)
        ensures
            *final(self) == (Chip8Audio { timer: value, ..*old(self) }),
    {
        self.timer = value;
    }

    /// The samples currently buffered, oldest first.
    pub fn samples(&self) -> (v: Vec<i8>)
        ensures
            v@ == ring_samples(self.buffer),
    {
        ring_to_vec(&self.buffer)
    }

    /// The audio consumer takes the oldest sample.
    pub fn take_sample(&mut self) -> (v: Option<i8>)
        ensures
            final(self).timer == old(self).timer,
            old(self).wf() ==> final(self).wf(),
            ring_capacity(final(self).buffer) == ring_capacity(old(self).buffer),
            ring_samples(old(self).buffer).len() == 0 ==> v is None && ring_samples(
                final(self).buffer,
            ) == ring_samples(old(self).buffer),
            ring_samples(old(self).buffer).len() > 0 ==> v == Some(
                ring_samples(old(self).buffer)[0],
            ) && ring_samples(final(self).buffer) == ring_samples(old(self).buffer).drop_first(),
    {
        ring_dequeue(&mut self.buffer)
    }

    /// Whether a span of virtual time is worth a synchronize call: at
    /// least one whole quantum must fit.
    pub fn needs_work(&self, delta: Period) -> (r: bool)
        ensures
            r == (delta.bits >= self.processor_period.bits),
    {
        self.processor_period.le(delta)
    }

    /// The version mark this component's snapshots carry.
    pub fn snapshot_version(&self) -> (r: Option<u16>)
        ensures
            r == Some(0u16),
    {
        Some(0)
    }

    /// The component's versioned snapshot stream: one byte, the countdown
    /// timer.
    pub fn store_snapshot(&self) -> (r: Vec<u8>)
        ensures
            r@ == seq![self.timer],
    {
        let mut bytes: Vec<u8> = Vec::new();
        bytes.push(self.timer);
        proof {
            assert(bytes@ =~= seq![self.timer]);
        }
        bytes
    }

    /// Restores a snapshot: the timer byte from a version-zero stream.
    /// Any other version is refused without touching the component.
    pub fn load_snapshot(&mut self, version: u16, bytes: &Vec<u8>) -> (r: Result<
        (),
        SnapshotError,
    >)
        ensures
            version != 0 ==> r == (Err::<(), SnapshotError>(
                SnapshotError::UnsupportedVersion { version },
            )) && *final(self) == *old(self),
            version == 0 && bytes@.len() == 0 ==> r == (Err::<(), SnapshotError>(
                SnapshotError::TruncatedStream,
            )) && *final(self) == *old(self),
            version == 0 && bytes@.len() > 0 ==> r == (Ok::<(), SnapshotError>(())) && *final(self)
                == (Chip8Audio { timer: bytes@[0], ..*old(self) }),
    {
        if version != 0 {
            return Err(SnapshotError::UnsupportedVersion { version });
        }
        if bytes.len() == 0 {
            return Err(SnapshotError::TruncatedStream);
        }
        self.timer = bytes[0];
        Ok(())
    }

    /// The whole effect of one quantum on the component, as a relation
    /// between the state before and after: one period's worth of sample
    /// time and of timer time accrues, every whole sample interval pushes
    /// one square-wave sample while the timer runs (the wave phase
    /// stepping by the wave frequency each sample), and every whole
    /// sixtieth counts the timer down once.
    pub open spec fn spec_ticked(pre: Chip8Audio, post: Chip8Audio) -> bool {
        let gained_audio = pre.audio_accumulator.bits + pre.processor_period.bits
            * INTERNAL_SAMPLE_RATE;
        let produced = gained_audio / (PERIOD_SCALE as int);
        let gained_timer = pre.timer_accumulator.bits + pre.processor_period.bits;
        let drops = gained_timer / (TIMER_PERIOD_BITS as int);
        &&& post.processor_period == pre.processor_period
        &&& ring_capacity(post.buffer) == ring_capacity(pre.buffer)
        &&& post.audio_accumulator.bits == gained_audio % (PERIOD_SCALE as int)
        &&& post.wave_phase == (if pre.timer > 0 {
            (pre.wave_phase + 440 * produced) % 8000
        } else {
            pre.wave_phase as int
        })
        &&& (pre.timer == 0 ==> ring_samples(post.buffer) == ring_samples(pre.buffer))
        &&& (pre.timer > 0 ==> ring_samples(post.buffer).len() == (if ring_samples(
            pre.buffer,
        ).len() + produced <= AUDIO_BUFFER_CAPACITY {
            ring_samples(pre.buffer).len() + produced
        } else {
            AUDIO_BUFFER_CAPACITY as int
        }))
        &&& (pre.timer > 0 && ring_samples(pre.buffer).len() + produced
            <= AUDIO_BUFFER_CAPACITY ==> ring_samples(post.buffer) == ring_samples(pre.buffer)
            + Seq::new(
            produced as nat,
            |i: int| spec_wave_level(pre.wave_phase + 440 * i),
        ))
        &&& post.timer_accumulator.bits == gained_timer % (TIMER_PERIOD_BITS as int)
        &&& post.timer == (if pre.timer >= drops {
            pre.timer - drops
        } else {
            0int
        })
    }

    /// `n` quanta chained in order.
    pub open spec fn spec_ticked_n(pre: Chip8Audio, post: Chip8Audio, n: nat) -> bool
        decreases n,
    {
        if n == 0 {
            post == pre
        } else {
            exists|mid: Chip8Audio|
                #![trigger Chip8Audio::spec_ticked(mid, post)]
                {
                    &&& Chip8Audio::spec_ticked_n(pre, mid, (n - 1) as nat)
                    &&& Chip8Audio::spec_ticked(mid, post)
                }
        }
    }

    /// A chain of `n` quanta followed by one more is a chain of `n + 1`.
    proof fn lemma_ticked_snoc(pre: Chip8Audio, mid: Chip8Audio, post: Chip8Audio, n: nat)
        requires
            Chip8Audio::spec_ticked_n(pre, mid, n),
            Chip8Audio::spec_ticked(mid, post),
        ensures
            Chip8Audio::spec_ticked_n(pre, post, n + 1),
    {
        reveal_with_fuel(Chip8Audio::spec_ticked_n, 2);
        assert(Chip8Audio::spec_ticked_n(pre, mid, ((n + 1) - 1) as nat));
        assert(Chip8Audio::spec_ticked(mid, post));
    }

    /// One quantum of the processor's period: accrues one period of
    /// sample time and of timer time, pushes one square-wave sample per
    /// whole elapsed sample interval while the timer runs, and counts the
    /// elapsed sixtieths down from the timer.
    pub fn tick(&mut self)
        requires
            old(self).wf(),
        ensures
            final(self).wf(),
            Chip8Audio::spec_ticked(*old(self), *final(self)),
            final(self).processor_period == old(self).processor_period,
            ({
                let gained = old(self).audio_accumulator.bits + old(self).processor_period.bits
                    * INTERNAL_SAMPLE_RATE;
                let produced = gained / (PERIOD_SCALE as int);
                &&& final(self).audio_accumulator.bits == gained % (PERIOD_SCALE as int)
                &&& final(self).wave_phase == (if old(self).timer > 0 {
                    (old(self).wave_phase + 440 * produced) % 8000
                } else {
                    old(self).wave_phase as int
                })
                &&& (old(self).timer == 0 ==> ring_samples(final(self).buffer) == ring_samples(
                    old(self).buffer,
                ))
                &&& (old(self).timer > 0 ==> ring_samples(final(self).buffer).len() == (
                if ring_samples(old(self).buffer).len() + produced <= AUDIO_BUFFER_CAPACITY {
                    ring_samples(old(self).buffer).len() + produced
                } else {
                    AUDIO_BUFFER_CAPACITY as int
                }))
                &&& (old(self).timer > 0 && ring_samples(old(self).buffer).len() + produced
                    <= AUDIO_BUFFER_CAPACITY ==> ring_samples(final(self).buffer) == ring_samples(
                    old(self).buffer,
                ) + Seq::new(
                    produced as nat,
                    |i: int| spec_wave_level(old(self).wave_phase + 440 * i),
                ))
            }),
            ({
                let gained = old(self).timer_accumulator.bits + old(self).processor_period.bits;
                let drops = gained / (TIMER_PERIOD_BITS as int);
                &&& final(self).timer_accumulator.bits == gained % (TIMER_PERIOD_BITS as int)
                &&& final(self).timer == (if old(self).timer >= drops {
                    old(self).timer - drops
                } else {
                    0int
                })
            }),
    {
        let samples_per_tick: Period = self.processor_period.mul_int(INTERNAL_SAMPLE_RATE);
        let ghost gained = self.audio_accumulator.bits + samples_per_tick.bits;
        self.audio_accumulator = self.audio_accumulator.add(samples_per_tick);
        let ghost phase0 = self.wave_phase;
        let ghost ring0 = ring_samples(self.buffer);
        let ghost len0 = ring_samples(self.buffer).len();
        let mut produced: u128 = 0;
        while self.audio_accumulator.bits >= PERIOD_SCALE
            invariant
                self.processor_period == old(self).processor_period,
                self.timer == old(self).timer,
                self.timer_accumulator == old(self).timer_accumulator,
                ring_capacity(self.buffer) == AUDIO_BUFFER_CAPACITY,
                ring_samples(self.buffer).len() <= AUDIO_BUFFER_CAPACITY,
                self.wave_phase < 8000,
                self.audio_accumulator.bits + produced * PERIOD_SCALE == gained,
                self.timer > 0 ==> self.wave_phase == (phase0 + 440 * produced) % 8000,
                self.timer == 0 ==> self.wave_phase == phase0 && ring_samples(self.buffer)
                    == ring_samples(old(self).buffer),
                self.timer > 0 ==> ring_samples(self.buffer).len() == (if len0 + produced
                    <= AUDIO_BUFFER_CAPACITY {
                    len0 + produced
                } else {
                    AUDIO_BUFFER_CAPACITY as int
                }),
                self.timer > 0 && len0 + produced <= AUDIO_BUFFER_CAPACITY ==> ring_samples(
                    self.buffer,
                ) == ring0 + Seq::new(produced as nat, |i: int| spec_wave_level(phase0 + 440 * i)),
            decreases self.audio_accumulator.bits,
        {
            if self.timer > 0 {
                let sample: i8 = if self.wave_phase < 4000 {
                    1
                } else {
                    -1
                };
                proof {
                    if len0 + produced + 1 <= AUDIO_BUFFER_CAPACITY {
                        vstd::arithmetic::div_mod::lemma_mod_bound(
                            (phase0 + 440 * produced) as int,
                            8000,
                        );
                        vstd::arithmetic::div_mod::lemma_mod_twice(
                            (phase0 + 440 * produced) as int,
                            8000,
                        );
                        assert(sample == spec_wave_level(phase0 + 440 * produced));
                    }
                }
                ring_enqueue(&mut self.buffer, sample);
                proof {
                    if len0 + produced + 1 <= AUDIO_BUFFER_CAPACITY {
                        assert(ring_samples(self.buffer) =~= ring0 + Seq::new(
                            (produced + 1) as nat,
                            |i: int| spec_wave_level(phase0 + 440 * i),
                        ));
                    }
                }
                let new_phase = (self.wave_phase + WAVE_FREQUENCY) % 8000;
                proof {
                    assert(440 * (produced + 1) == 440 * produced + 440) by (nonlinear_arith);
                    vstd::arithmetic::div_mod::lemma_add_mod_noop(
                        (phase0 + 440 * produced) as int,
                        440,
                        8000,
                    );
                }
                self.wave_phase = new_phase;
            }
            self.audio_accumulator = Period::from_bits(self.audio_accumulator.bits - PERIOD_SCALE);
            proof {
                assert((produced + 1) * PERIOD_SCALE == produced * PERIOD_SCALE + PERIOD_SCALE)
                    by (nonlinear_arith);
            }
            produced = produced + 1;
        }
        proof {
            vstd::arithmetic::div_mod::lemma_fundamental_div_mod_converse(
                gained as int,
                PERIOD_SCALE as int,
                produced as int,
                self.audio_accumulator.bits as int,
            );
        }
        let ghost tgained = self.timer_accumulator.bits + self.processor_period.bits;
        self.timer_accumulator = self.timer_accumulator.add(self.processor_period);
        let mut drops: u128 = 0;
        let ghost timer0 = self.timer;
        let ghost samples_mid = ring_samples(self.buffer);
        let ghost phase_mid = self.wave_phase;
        let ghost audio_mid = self.audio_accumulator;
        while self.timer_accumulator.bits >= TIMER_PERIOD_BITS
            invariant
                self.processor_period == old(self).processor_period,
                ring_capacity(self.buffer) == AUDIO_BUFFER_CAPACITY,
                ring_samples(self.buffer).len() <= AUDIO_BUFFER_CAPACITY,
                ring_samples(self.buffer) == samples_mid,
                self.wave_phase == phase_mid,
                self.audio_accumulator == audio_mid,
                self.timer_accumulator.bits + drops * TIMER_PERIOD_BITS == tgained,
                self.timer as int == (if timer0 >= drops {
                    timer0 - drops
                } else {
                    0int
                }),
            decreases self.timer_accumulator.bits,
        {
            self.timer = if self.timer > 0 {
                self.timer - 1
            } else {
                0
            };
            self.timer_accumulator = Period::from_bits(
                self.timer_accumulator.bits - TIMER_PERIOD_BITS,
            );
            proof {
                assert((drops + 1) * TIMER_PERIOD_BITS == drops * TIMER_PERIOD_BITS
                    + TIMER_PERIOD_BITS) by (nonlinear_arith);
            }
            drops = drops + 1;
        }
        proof {
            vstd::arithmetic::div_mod::lemma_fundamental_div_mod_converse(
                tgained as int,
                TIMER_PERIOD_BITS as int,
                drops as int,
                self.timer_accumulator.bits as int,
            );
        }
    }

    /// Synchronizes the component: one [`Chip8Audio::tick`] per allocated
    /// quantum of its processor period.  The final state is exactly that
    /// many ticks folded over the starting state; the context's time
    /// advances by the same quanta and the preemption signal is left
    /// lowered.
    pub fn synchronize(
        &mut self,
        context: &mut SynchronizationContext,
        events: &mut EventManager,
    )
        requires
            old(self).wf(),
            spec_budget(*old(context), old(self).processor_period) <= u64::MAX,
        ensures
            final(self).wf(),
            final(self).processor_period == old(self).processor_period,
            final(events).events == old(events).events,
            final(events).preemption.raised == false,
            final(context).target_timestamp == old(context).target_timestamp,
            final(context).next_event == old(context).next_event,
            final(context).last_attempted_allocation == Some(old(self).processor_period),
            ({
                let it0 = QuantaIterator {
                    period: old(self).processor_period,
                    budget: spec_budget(*old(context), old(self).processor_period) as u64,
                    timestamp: old(context).updated_timestamp,
                    target: old(context).target_timestamp,
                };
                let n = crate::scheduler::spec_effective_quanta(it0, *old(events));
                &&& final(context).updated_timestamp.bits == old(
                    context,
                ).updated_timestamp.bits + n * old(self).processor_period.bits
                &&& Chip8Audio::spec_ticked_n(*old(self), *final(self), n)
            }),
    {
        let period = self.processor_period;
        let mut quanta = context.allocate(period, None);
        let ghost it0 = quanta;
        let ghost n_total = crate::scheduler::spec_effective_quanta(it0, *old(events));
        let ghost entry = *self;
        proof {
            crate::scheduler::lemma_allocation_is_exact(
                context.updated_timestamp.bits as int,
                (if context.updated_timestamp.bits <= crate::scheduler::spec_stop_time(*context) {
                    crate::scheduler::spec_stop_time(*context) as int
                } else {
                    context.updated_timestamp.bits as int
                }),
                period.bits as int,
            );
        }
        let ghost mut started = false;
        let ghost mut consumed: nat = 0;
        loop
            invariant
                self.wf(),
                self.processor_period == period,
                period == old(self).processor_period,
                period.bits > 0,
                events.events == old(events).events,
                quanta.period == period,
                quanta.target == it0.target,
                !started ==> quanta == it0 && *events == *old(events) && *self == entry
                    && consumed == 0,
                started ==> {
                    &&& events.preemption.raised == false
                    &&& consumed + quanta.budget == n_total
                    &&& quanta.timestamp.bits == it0.timestamp.bits + consumed * period.bits
                    &&& Chip8Audio::spec_ticked_n(entry, *self, consumed)
                },
                quanta.timestamp.bits + quanta.budget * quanta.period.bits <= u128::MAX,
            decreases quanta.budget,
        {
            proof {
                if quanta.budget > 0 {
                    assert(quanta.budget * quanta.period.bits >= quanta.period.bits)
                        by (nonlinear_arith)
                        requires
                            quanta.budget >= 1,
                            quanta.period.bits >= 0,
                    ;
                }
            }
            let ghost pre_it = quanta;
            let ghost pre_events = *events;
            let ghost pre_started = started;
            let ghost pre_self = *self;
            match quanta.next(events) {
                None => {
                    proof {
                        if !pre_started {
                            started = true;
                            assert(crate::scheduler::spec_checked_budget(pre_it, pre_events)
                                == n_total);
                            assert(Chip8Audio::spec_ticked_n(entry, *self, 0));
                        }
                    }
                    break;
                },
                Some(_now) => {
                    proof {
                        let checked = crate::scheduler::spec_checked_budget(pre_it, pre_events);
                        if !pre_started {
                            started = true;
                            assert(checked == n_total);
                            assert(Chip8Audio::spec_ticked_n(entry, *self, 0));
                        } else {
                            assert(checked == pre_it.budget);
                        }
                        assert(checked <= pre_it.budget);
                        assert((checked - 1) * period.bits + period.bits == checked * period.bits)
                            by (nonlinear_arith);
                        assert(checked * period.bits <= pre_it.budget * period.bits)
                            by (nonlinear_arith)
                            requires
                                0 <= checked <= pre_it.budget,
                                period.bits >= 0,
                        ;
                        assert((consumed + 1) * period.bits == consumed * period.bits
                            + period.bits) by (nonlinear_arith);
                    }
                    self.tick();
                    proof {
                        Chip8Audio::lemma_ticked_snoc(entry, pre_self, *self, consumed);
                        consumed = consumed + 1;
                    }
                },
            }
        }
        context.updated_timestamp = quanta.timestamp;
    }
}

} // verus!