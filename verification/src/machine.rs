//! The composition root: components, address spaces, and the scheduler.
//!
//! A machine is assembled in a builder phase — address spaces are created,
//! buffers registered and mapped, components inserted — and then driven:
//! each [`Machine::run`] advances virtual time by the allocated span and
//! synchronizes every scheduler-driven component, in insertion order, up
//! to the new time.  On-demand components are ticked only when another
//! path pulls on them, through the access methods below.

use vstd::prelude::*;

use crate::chip8_audio::Chip8Audio;
use crate::cpu::{AddressSpaceId, Mos6502, Mos6502Config};
use crate::event::ComponentId;
use crate::memory::{AddressSpace, BufferPath, MappingError};
use crate::event::spec_min_trigger;
use crate::scheduler::{spec_budget, spec_effective_quanta, QuantaIterator, Scheduler, SynchronizationContext};
use crate::time::Period;

verus! {

/// A component a machine can own.
pub enum MachineComponent {
    Processor(Mos6502),
    AudioTimer(Chip8Audio),
}

/// A machine-building or access mistake.
#[derive(Clone, Copy, PartialEq, Eq, Structural, Debug)]
pub enum MachineError {
    UnknownAddressSpace { space: AddressSpaceId },
    UnknownComponent { component: ComponentId },
    Mapping { error: MappingError },
}

/// The composition root.
pub struct Machine {
    pub scheduler: Scheduler,
    pub address_spaces: Vec<AddressSpace>,
    pub components: Vec<MachineComponent>,
}

impl Machine {
    /// Every address space is sound, every processor points at an
    /// existing space with a cache consistent with it, and every driven
    /// entry names a processor.
    pub open spec fn wf(self) -> bool {
        &&& forall|i: int|
            0 <= i < self.address_spaces@.len() ==> (#[trigger] self.address_spaces@[i]).wf()
        &&& forall|i: int|
            0 <= i < self.components@.len() ==> match #[trigger] self.components@[i] {
                MachineComponent::Processor(cpu) => {
                    &&& cpu.config.assigned_address_space < self.address_spaces@.len()
                    &&& cpu.address_space_cache.consistent_with(
                        self.address_spaces@[cpu.config.assigned_address_space as int].table,
                    )
                    &&& cpu.period.bits > 0
                },
                MachineComponent::AudioTimer(audio) => audio.wf(),
            }
        &&& forall|j: int|
            0 <= j < self.scheduler.driven@.len() ==> {
                &&& (#[trigger] self.scheduler.driven@[j]).component < self.components@.len()
                &&& self.components@[self.scheduler.driven@[j].component as int]
                    is Processor
            }
    }

    /// An empty machine at time zero.
    pub fn new() -> (r: Self)
        ensures
            r.wf(),
            r.scheduler.current_driven_time.bits == 0,
            r.address_spaces@.len() == 0,
            r.components@.len() == 0,
    {
        Machine {
            scheduler: Scheduler::new(),
            address_spaces: Vec::new(),
            components: Vec::new(),
        }
    }

    /// Creates an address space of `width_bits` address lines.
    pub fn insert_address_space(&mut self, width_bits: u32) -> (r: AddressSpaceId)
        requires
            old(self).wf(),
            12 <= width_bits <= 30,
        ensures
            final(self).wf(),
            r == old(self).address_spaces@.len(),
            final(self).address_spaces@.len() == old(self).address_spaces@.len() + 1,
            final(self).components == old(self).components,
            final(self).scheduler == old(self).scheduler,
    {
        let id = self.address_spaces.len();
        self.address_spaces.push(AddressSpace::new(width_bits));
        proof {
            assert forall|i: int| 0 <= i < self.components@.len() implies match #[trigger] self.components@[i] {
                MachineComponent::Processor(cpu) => {
                    &&& cpu.config.assigned_address_space < self.address_spaces@.len()
                    &&& cpu.address_space_cache.consistent_with(
                        self.address_spaces@[cpu.config.assigned_address_space as int].table,
                    )
                    &&& cpu.period.bits > 0
                },
                MachineComponent::AudioTimer(audio) => audio.wf(),
            } by {
                assert(old(self).components@[i] == self.components@[i]);
            };
        }
        id
    }

    /// Registers a byte buffer in one address space.
    pub fn memory_register_buffer(
        &mut self,
        space: AddressSpaceId,
        bytes: Vec<u8>,
        writable: bool,
    ) -> (r: Result<BufferPath, MachineError>)
        requires
            old(self).wf(),
        ensures
            final(self).wf(),
            space >= old(self).address_spaces@.len() ==> r == (Err::<BufferPath, MachineError>(
                MachineError::UnknownAddressSpace { space },
            )) && *final(self) == *old(self),
            space < old(self).address_spaces@.len() ==> {
                &&& r == (Ok::<BufferPath, MachineError>(
                    old(self).address_spaces@[space as int].buffers@.len() as usize,
                ))
                &&& final(self).address_spaces@[space as int].buffers@.len() == old(self).address_spaces@[space as int].buffers@.len() + 1
                &&& final(self).address_spaces@[space as int].buffers@.last().bytes@ == bytes@
                &&& final(self).address_spaces@[space as int].buffers@.last().writable == writable
                &&& final(self).address_spaces@[space as int].table == old(self).address_spaces@[
                    space as int
                ].table
                &&& forall|i: int|
                    0 <= i < old(self).address_spaces@.len() && i != space ==> final(self).address_spaces@[i] == old(self).address_spaces@[i]
            },
            final(self).components == old(self).components,
            final(self).scheduler == old(self).scheduler,
    {
        if space >= self.address_spaces.len() {
            return Err(MachineError::UnknownAddressSpace { space });
        }
        let ghost pre = *self;
        let path = self.address_spaces[space].register_buffer(bytes, writable);
        proof {
            assert forall|i: int|
                0 <= i < self.address_spaces@.len() implies (
            #[trigger] self.address_spaces@[i]).wf() by {
                if i != space {
                    assert(self.address_spaces@[i] == pre.address_spaces@[i]);
                }
            };
            assert forall|i: int| 0 <= i < self.components@.len() implies match #[trigger] self.components@[i] {
                MachineComponent::Processor(cpu) => {
                    &&& cpu.config.assigned_address_space < self.address_spaces@.len()
                    &&& cpu.address_space_cache.consistent_with(
                        self.address_spaces@[cpu.config.assigned_address_space as int].table,
                    )
                    &&& cpu.period.bits > 0
                },
                MachineComponent::AudioTimer(audio) => audio.wf(),
            } by {
                match self.components@[i] {
                    MachineComponent::Processor(cpu) => {
                        if cpu.config.assigned_address_space == space {
                            assert(self.address_spaces@[space as int].table == pre.address_spaces@[
                                space as int
                            ].table);
                        } else {
                            assert(self.address_spaces@[cpu.config.assigned_address_space as int]
                                == pre.address_spaces@[cpu.config.assigned_address_space as int]);
                        }
                    },
                    MachineComponent::AudioTimer(_) => {},
                }
            };
        }
        Ok(path)
    }

    /// Maps a registered buffer read-write over a range: on success the
    /// space's dispatch table gains the RAM entry exactly as
    /// [`AddressSpace::map_ram`] states; each validation error comes back
    /// unchanged, and nothing else moves.
    pub fn memory_map_buffer_write(
        &mut self,
        space: AddressSpaceId,
        low: usize,
        high: usize,
        buffer: BufferPath,
    ) -> (r: Result<(), MachineError>)
        requires
            old(self).wf(),
            forall|i: int|
                0 <= i < old(self).components@.len() ==> match #[trigger] old(self).components@[i] {
                    MachineComponent::Processor(cpu) => cpu.address_space_cache.slot is None,
                    MachineComponent::AudioTimer(_) => true,
                },
        ensures
            final(self).wf(),
            final(self).components == old(self).components,
            final(self).scheduler == old(self).scheduler,
            space >= old(self).address_spaces@.len() ==> r == (Err::<(), MachineError>(
                MachineError::UnknownAddressSpace { space },
            )) && final(self).address_spaces == old(self).address_spaces,
            space < old(self).address_spaces@.len() ==> {
                &&& r == (match old(self).address_spaces@[space as int].spec_ram_check(
                    low,
                    high,
                    buffer,
                ) {
                    Ok(()) => Ok::<(), MachineError>(()),
                    Err(error) => Err::<(), MachineError>(MachineError::Mapping { error }),
                })
                &&& (r is Err ==> final(self).address_spaces@ == old(self).address_spaces@)
                &&& (r is Ok ==> AddressSpace::spec_mapped(
                    old(self).address_spaces@[space as int],
                    final(self).address_spaces@[space as int],
                    crate::memory::MappingEntry {
                        low,
                        high,
                        target: crate::memory::PageTarget::Ram { buffer, base: low },
                    },
                ))
                &&& forall|i: int|
                    0 <= i < old(self).address_spaces@.len() && i != space ==> final(self).address_spaces@[i] == old(self).address_spaces@[i]
            },
    {
        if space >= self.address_spaces.len() {
            return Err(MachineError::UnknownAddressSpace { space });
        }
        let ghost pre = *self;
        let outcome = self.address_spaces[space].map_ram(low, high, buffer);
        proof {
            self.lemma_spaces_edit_preserves_wf(pre, space as int);
            if outcome is Err {
                assert(self.address_spaces@ =~= pre.address_spaces@);
            }
        }
        match outcome {
            Ok(()) => Ok(()),
            Err(error) => Err(MachineError::Mapping { error }),
        }
    }

    /// Maps a registered buffer read-only over a range: on success the
    /// space's dispatch table gains the ROM entry exactly as
    /// [`AddressSpace::map_rom`] states; each validation error comes back
    /// unchanged, and nothing else moves.
    pub fn memory_map_buffer_read(
        &mut self,
        space: AddressSpaceId,
        low: usize,
        high: usize,
        buffer: BufferPath,
    ) -> (r: Result<(), MachineError>)
        requires
            old(self).wf(),
            forall|i: int|
                0 <= i < old(self).components@.len() ==> match #[trigger] old(self).components@[i] {
                    MachineComponent::Processor(cpu) => cpu.address_space_cache.slot is None,
                    MachineComponent::AudioTimer(_) => true,
                },
        ensures
            final(self).wf(),
            final(self).components == old(self).components,
            final(self).scheduler == old(self).scheduler,
            space >= old(self).address_spaces@.len() ==> r == (Err::<(), MachineError>(
                MachineError::UnknownAddressSpace { space },
            )) && final(self).address_spaces == old(self).address_spaces,
            space < old(self).address_spaces@.len() ==> {
                &&& r == (match old(self).address_spaces@[space as int].spec_rom_check(
                    low,
                    high,
                    buffer,
                ) {
                    Ok(()) => Ok::<(), MachineError>(()),
                    Err(error) => Err::<(), MachineError>(MachineError::Mapping { error }),
                })
                &&& (r is Err ==> final(self).address_spaces@ == old(self).address_spaces@)
                &&& (r is Ok ==> AddressSpace::spec_mapped(
                    old(self).address_spaces@[space as int],
                    final(self).address_spaces@[space as int],
                    crate::memory::MappingEntry {
                        low,
                        high,
                        target: crate::memory::PageTarget::Rom { buffer, base: low },
                    },
                ))
                &&& forall|i: int|
                    0 <= i < old(self).address_spaces@.len() && i != space ==> final(self).address_spaces@[i] == old(self).address_spaces@[i]
            },
    {
        if space >= self.address_spaces.len() {
            return Err(MachineError::UnknownAddressSpace { space });
        }
        let ghost pre = *self;
        let outcome = self.address_spaces[space].map_rom(low, high, buffer);
        proof {
            self.lemma_spaces_edit_preserves_wf(pre, space as int);
            if outcome is Err {
                assert(self.address_spaces@ =~= pre.address_spaces@);
            }
        }
        match outcome {
            Ok(()) => Ok(()),
            Err(error) => Err(MachineError::Mapping { error }),
        }
    }

    /// After editing one address space, the machine stays sound provided
    /// processors' caches were emptied or the table was only read.
    proof fn lemma_spaces_edit_preserves_wf(&self, pre: Machine, space: int)
        requires
            pre.wf(),
            0 <= space < pre.address_spaces@.len(),
            self.address_spaces@.len() == pre.address_spaces@.len(),
            self.address_spaces@[space].wf(),
            forall|i: int|
                0 <= i < pre.address_spaces@.len() && i != space
                    ==> self.address_spaces@[i] == pre.address_spaces@[i],
            self.components@ == pre.components@,
            self.scheduler.driven@ == pre.scheduler.driven@,
            forall|i: int|
                0 <= i < pre.components@.len() ==> match #[trigger] pre.components@[i] {
                    MachineComponent::Processor(cpu) => cpu.address_space_cache.slot is None,
                    MachineComponent::AudioTimer(_) => true,
                },
        ensures
            self.wf(),
    {
        assert forall|i: int|
            0 <= i < self.address_spaces@.len() implies (
        #[trigger] self.address_spaces@[i]).wf() by {
            if i != space {
                assert(self.address_spaces@[i] == pre.address_spaces@[i]);
            }
        };
        assert forall|i: int| 0 <= i < self.components@.len() implies match #[trigger] self.components@[i] {
            MachineComponent::Processor(cpu) => {
                &&& cpu.config.assigned_address_space < self.address_spaces@.len()
                &&& cpu.address_space_cache.consistent_with(
                    self.address_spaces@[cpu.config.assigned_address_space as int].table,
                )
                &&& cpu.period.bits > 0
            },
            MachineComponent::AudioTimer(audio) => audio.wf(),
        } by {
            assert(pre.components@[i] == self.components@[i]);
        };
    }

    /// Inserts a processor, wires it to its address space, and registers
    /// it as scheduler-driven.
    pub fn insert_processor(&mut self, config: Mos6502Config) -> (r: Result<
        ComponentId,
        MachineError,
    >)
        requires
            old(self).wf(),
            config.frequency.bits >= 2,
        ensures
            final(self).wf(),
            config.assigned_address_space >= old(self).address_spaces@.len() ==> r == (Err::<
                ComponentId,
                MachineError,
            >(MachineError::UnknownAddressSpace { space: config.assigned_address_space }))
                && *final(self) == *old(self),
            config.assigned_address_space < old(self).address_spaces@.len() ==> {
                &&& r == (Ok::<ComponentId, MachineError>(old(self).components@.len() as usize))
                &&& final(self).components@.len() == old(self).components@.len() + 1
                &&& forall|i: int|
                    0 <= i < old(self).components@.len() ==> final(self).components@[i] == old(self).components@[i]
                &&& final(self).components@[old(self).components@.len() as int] matches
                    MachineComponent::Processor(cpu) && cpu.config == config && cpu.halted
                    == false && cpu.instruction_queue@ == crate::cpu::spec_reset_sequence()
                    && cpu.a == 0 && cpu.x == 0 && cpu.y == 0 && cpu.stack == 0xff
                &&& final(self).scheduler.driven@ == old(self).scheduler.driven@.push(
                    crate::scheduler::DrivenComponent {
                        component: old(self).components@.len() as usize,
                    },
                )
                &&& final(self).address_spaces == old(self).address_spaces
            },
    {
        if config.assigned_address_space >= self.address_spaces.len() {
            return Err(MachineError::UnknownAddressSpace {
                space: config.assigned_address_space,
            });
        }
        let ghost pre = *self;
        let id = self.components.len();
        let cpu = Mos6502::new(config);
        proof {
            vstd::arithmetic::div_mod::lemma_div_non_zero(
                0x1_0000_0000_0000_0000_0000_0000_0000_0000int,
                config.frequency.bits as int,
            );
        }
        self.components.push(MachineComponent::Processor(cpu));
        self.scheduler.register_driven_component(id);
        proof {
            assert forall|i: int| 0 <= i < self.components@.len() implies match #[trigger] self.components@[i] {
                MachineComponent::Processor(c) => {
                    &&& c.config.assigned_address_space < self.address_spaces@.len()
                    &&& c.address_space_cache.consistent_with(
                        self.address_spaces@[c.config.assigned_address_space as int].table,
                    )
                    &&& c.period.bits > 0
                },
                MachineComponent::AudioTimer(audio) => audio.wf(),
            } by {
                if i < pre.components@.len() {
                    assert(pre.components@[i] == self.components@[i]);
                }
            };
        }
        Ok(id)
    }

    /// Inserts the audio timer as an on-demand component: the scheduler
    /// never drives it; the audio consumer reaches it through the
    /// mediated access methods below.
    pub fn insert_audio_timer(&mut self, processor_frequency: Period) -> (r: ComponentId)
        requires
            old(self).wf(),
            processor_frequency.bits >= 0x8_0000_0000_0000,
        ensures
            final(self).wf(),
            r == old(self).components@.len(),
            final(self).components@.len() == old(self).components@.len() + 1,
            forall|i: int|
                0 <= i < old(self).components@.len() ==> final(self).components@[i] == old(self).components@[i],
            final(self).components@[r as int] matches MachineComponent::AudioTimer(audio)
                && audio.wf() && audio.timer == 0 && crate::chip8_audio::ring_samples(audio.buffer)
                == Seq::<i8>::empty() && audio.processor_period.bits
                == 0x1_0000_0000_0000_0000_0000_0000_0000_0000int / (
            processor_frequency.bits as int),
            final(self).address_spaces == old(self).address_spaces,
            final(self).scheduler == old(self).scheduler,
    {
        let ghost pre = *self;
        let id = self.components.len();
        let audio = Chip8Audio::new(processor_frequency);
        self.components.push(MachineComponent::AudioTimer(audio));
        proof {
            assert forall|i: int| 0 <= i < self.components@.len() implies match #[trigger] self.components@[i] {
                MachineComponent::Processor(c) => {
                    &&& c.config.assigned_address_space < self.address_spaces@.len()
                    &&& c.address_space_cache.consistent_with(
                        self.address_spaces@[c.config.assigned_address_space as int].table,
                    )
                    &&& c.period.bits > 0
                },
                MachineComponent::AudioTimer(a) => a.wf(),
            } by {
                if i < pre.components@.len() {
                    assert(pre.components@[i] == self.components@[i]);
                }
            };
        }
        id
    }

    /// The current virtual time.
    pub fn now(&self) -> (r: Period)
        ensures
            r == self.scheduler.current_driven_time,
    {
        self.scheduler.now()
    }

    /// The scheduler bookkeeping one dispatch step never touches.
    pub open spec fn spec_dispatch_frame(pre: Machine, post: Machine) -> bool {
        &&& post.scheduler.driven@ == pre.scheduler.driven@
        &&& post.scheduler.current_driven_time == pre.scheduler.current_driven_time
        &&& post.scheduler.start_time == pre.scheduler.start_time
        &&& post.scheduler.event_queue.events == pre.scheduler.event_queue.events
        &&& post.components@.len() == pre.components@.len()
        &&& post.address_spaces@.len() == pre.address_spaces@.len()
    }

    /// How handling the `j`-th driven entry relates the machine before and
    /// after: the named processor is synchronized against its address
    /// space — its final state exactly the effective allocation's worth of
    /// cycle-interpreter steps — unless its backlog exceeds what any
    /// budget could consume in one call, in which case nothing moves.
    ///
    /// Kept opaque so that the whole-run fold stays small; reveal it to
    /// reason about one dispatch.
    #[verifier::opaque]
    pub open spec fn spec_component_ran(pre: Machine, post: Machine, j: int) -> bool {
        let id = pre.scheduler.driven@[j].component as int;
        &&& Machine::spec_dispatch_frame(pre, post)
        &&& match pre.components@[id] {
            MachineComponent::Processor(cpu) => {
                let sid = cpu.config.assigned_address_space as int;
                let target = pre.scheduler.current_driven_time;
                let ctx = SynchronizationContext {
                    target_timestamp: target,
                    next_event: match spec_min_trigger(pre.scheduler.event_queue.events@) {
                        None => None,
                        Some(m) => Some(Period { bits: m }),
                    },
                    updated_timestamp: cpu.timestamp,
                    last_attempted_allocation: None,
                };
                if spec_budget(ctx, cpu.period) > u64::MAX {
                    &&& post.components@ == pre.components@
                    &&& post.address_spaces@ == pre.address_spaces@
                    &&& post.scheduler.event_queue.preemption
                        == pre.scheduler.event_queue.preemption
                } else {
                    let it0 = QuantaIterator {
                        period: cpu.period,
                        budget: spec_budget(ctx, cpu.period) as u64,
                        timestamp: cpu.timestamp,
                        target,
                    };
                    let n = spec_effective_quanta(it0, pre.scheduler.event_queue);
                    match post.components@[id] {
                        MachineComponent::Processor(cpu2) => {
                            &&& crate::cpu::spec_cycles_rel_n(
                                cpu.model(),
                                cpu.nmi,
                                pre.address_spaces@[sid],
                                cpu2.model(),
                                cpu2.nmi,
                                post.address_spaces@[sid],
                                n,
                                cpu.rdy.value,
                                cpu.irq,
                                cpu.config.kind,
                            )
                            &&& cpu2.config == cpu.config
                            &&& cpu2.period == cpu.period
                            &&& cpu2.rdy == cpu.rdy
                            &&& cpu2.irq == cpu.irq
                            &&& cpu2.timestamp.bits == (if n > 0 {
                                cpu.timestamp.bits + n * cpu.period.bits
                            } else {
                                cpu.timestamp.bits as int
                            })
                            &&& post.components@ == pre.components@.update(
                                id,
                                MachineComponent::Processor(cpu2),
                            )
                            &&& post.address_spaces@ == pre.address_spaces@.update(
                                sid,
                                post.address_spaces@[sid],
                            )
                            &&& post.scheduler.event_queue.preemption.raised == false
                        },
                        MachineComponent::AudioTimer(_) => false,
                    }
                }
            },
            MachineComponent::AudioTimer(_) => {
                &&& post.components@ == pre.components@
                &&& post.address_spaces@ == pre.address_spaces@
                &&& post.scheduler.event_queue.preemption == pre.scheduler.event_queue.preemption
            },
        }
    }

    /// The first `j` driven entries handled, in insertion order.
    pub open spec fn spec_ran_components(pre: Machine, post: Machine, j: int) -> bool
        decreases j,
    {
        if j <= 0 {
            &&& Machine::spec_dispatch_frame(pre, post)
            &&& post.components@ == pre.components@
            &&& post.address_spaces@ == pre.address_spaces@
            &&& post.scheduler.event_queue.preemption == pre.scheduler.event_queue.preemption
        } else {
            exists|mid: Machine|
                #![trigger Machine::spec_component_ran(mid, post, j - 1)]
                {
                    &&& Machine::spec_ran_components(pre, mid, j - 1)
                    &&& Machine::spec_component_ran(mid, post, j - 1)
                }
        }
    }

    /// A prefix of handled entries followed by the next one.
    proof fn lemma_ran_components_snoc(pre: Machine, mid: Machine, post: Machine, j: int)
        requires
            j >= 0,
            Machine::spec_ran_components(pre, mid, j),
            Machine::spec_component_ran(mid, post, j),
        ensures
            Machine::spec_ran_components(pre, post, j + 1),
    {
        reveal_with_fuel(Machine::spec_ran_components, 3);
        assert(Machine::spec_ran_components(pre, mid, (j + 1) - 1));
        assert(Machine::spec_component_ran(mid, post, (j + 1) - 1));
    }

    /// Advances virtual time by exactly `delta` and synchronizes every
    /// driven component, in insertion order, up to the new time: the
    /// final machine is the dispatch fold over all driven entries, each
    /// processor's state the effective allocation's worth of
    /// cycle-interpreter steps.  After the call the clock reads exactly
    /// the old time plus the allocation.
    #[verifier::rlimit(100)]
    #[verifier::spinoff_prover]
    pub fn run(&mut self, delta: Period)
        requires
            old(self).wf(),
            old(self).scheduler.current_driven_time.bits + delta.bits <= u128::MAX,
        ensures
            final(self).wf(),
            final(self).scheduler.current_driven_time.bits == old(self).scheduler.current_driven_time.bits + delta.bits,
            final(self).scheduler.driven@ == old(self).scheduler.driven@,
            final(self).scheduler.start_time == old(self).scheduler.start_time,
            final(self).scheduler.event_queue.events == old(self).scheduler.event_queue.events,
            Machine::spec_ran_components(
                Machine {
                    scheduler: Scheduler {
                        event_queue: old(self).scheduler.event_queue,
                        driven: old(self).scheduler.driven,
                        current_driven_time: Period {
                            bits: (old(self).scheduler.current_driven_time.bits
                                + delta.bits) as u128,
                        },
                        start_time: old(self).scheduler.start_time,
                    },
                    address_spaces: old(self).address_spaces,
                    components: old(self).components,
                },
                *final(self),
                old(self).scheduler.driven@.len() as int,
            ),
    {
        let target = self.scheduler.run(delta);
        let ghost start_state = *self;
        let driven_count = self.scheduler.driven.len();
        let mut j: usize = 0;
        while j < driven_count
            invariant
                self.wf(),
                j <= driven_count,
                driven_count == self.scheduler.driven@.len(),
                self.scheduler.current_driven_time == target,
                self.scheduler.driven@ == old(self).scheduler.driven@,
                self.scheduler.start_time == old(self).scheduler.start_time,
                self.scheduler.event_queue.events == old(self).scheduler.event_queue.events,
                self.components@.len() == old(self).components@.len(),
                self.address_spaces@.len() == old(self).address_spaces@.len(),
                target.bits == old(self).scheduler.current_driven_time.bits + delta.bits,
                start_state.scheduler.driven@ == old(self).scheduler.driven@,
                start_state.scheduler.current_driven_time == target,
                start_state.scheduler.start_time == old(self).scheduler.start_time,
                start_state.scheduler.event_queue == old(self).scheduler.event_queue,
                start_state.components == old(self).components,
                start_state.address_spaces == old(self).address_spaces,
                Machine::spec_ran_components(start_state, *self, j as int),
            decreases driven_count - j,
        {
            proof {
                reveal(Machine::spec_component_ran);
            }
            let id = self.scheduler.driven[j].component;
            let next_event = self.scheduler.event_queue.next_event();
            let ghost pre_loop = *self;
            let component = self.components.remove(id);
            match component {
                MachineComponent::Processor(mut cpu) => {
                    let ghost cpu_pre = cpu;
                    let space_id = cpu.config.assigned_address_space;
                    let stop = match next_event {
                        None => target,
                        Some(n) => n.min(target),
                    };
                    let raw_budget: u128 = stop.saturating_sub(cpu.timestamp).div_floor(
                        cpu.period,
                    );
                    let ghost ctx0 = SynchronizationContext {
                        target_timestamp: target,
                        next_event,
                        updated_timestamp: cpu.timestamp,
                        last_attempted_allocation: None,
                    };
                    proof {
                        assert(next_event == (match spec_min_trigger(
                            pre_loop.scheduler.event_queue.events@,
                        ) {
                            None => None::<Period>,
                            Some(m) => Some(Period { bits: m }),
                        }));
                        assert(raw_budget == spec_budget(ctx0, cpu.period));
                    }
                    if raw_budget <= (u64::MAX as u128) {
                        let mut context = SynchronizationContext {
                            target_timestamp: target,
                            next_event,
                            updated_timestamp: cpu.timestamp,
                            last_attempted_allocation: None,
                        };
                        let ghost pre_table = self.address_spaces@[space_id as int].table;
                        cpu.synchronize(
                            &mut context,
                            &mut self.scheduler.event_queue,
                            &mut self.address_spaces[space_id],
                        );
                        proof {
                            assert(self.address_spaces@[space_id as int].table == pre_table);
                            assert forall|i: int|
                                0 <= i < self.address_spaces@.len() implies (
                            #[trigger] self.address_spaces@[i]).wf() by {
                                if i != space_id {
                                    assert(self.address_spaces@[i] == pre_loop.address_spaces@[i]);
                                }
                            };
                        }
                    }
                    let ghost cpu_post = cpu;
                    let ghost mem_post = self.address_spaces@[space_id as int];
                    self.components.insert(id, MachineComponent::Processor(cpu));
                    proof {
                        assert(self.components@ =~= pre_loop.components@.update(
                            id as int,
                            MachineComponent::Processor(cpu_post),
                        ));
                        let sid = cpu_pre.config.assigned_address_space as int;
                        let ctxg = SynchronizationContext {
                            target_timestamp: pre_loop.scheduler.current_driven_time,
                            next_event: match spec_min_trigger(
                                pre_loop.scheduler.event_queue.events@,
                            ) {
                                None => None,
                                Some(m) => Some(Period { bits: m }),
                            },
                            updated_timestamp: cpu_pre.timestamp,
                            last_attempted_allocation: None,
                        };
                        assert(ctxg == ctx0);
                        if raw_budget <= (u64::MAX as u128) {
                            assert(self.address_spaces@ =~= pre_loop.address_spaces@.update(
                                space_id as int,
                                mem_post,
                            ));
                            let it0g = QuantaIterator {
                                period: cpu_pre.period,
                                budget: spec_budget(ctxg, cpu_pre.period) as u64,
                                timestamp: cpu_pre.timestamp,
                                target: pre_loop.scheduler.current_driven_time,
                            };
                            let ng = spec_effective_quanta(
                                it0g,
                                pre_loop.scheduler.event_queue,
                            );
                            assert(crate::cpu::spec_cycles_rel_n(
                                cpu_pre.model(),
                                cpu_pre.nmi,
                                pre_loop.address_spaces@[sid],
                                cpu_post.model(),
                                cpu_post.nmi,
                                mem_post,
                                ng,
                                cpu_pre.rdy.value,
                                cpu_pre.irq,
                                cpu_pre.config.kind,
                            ));
                        } else {
                            assert(self.components@ =~= pre_loop.components@);
                            assert(self.address_spaces@ =~= pre_loop.address_spaces@);
                        }
                        assert(pre_loop.components@[id as int] == MachineComponent::Processor(
                            cpu_pre,
                        ));
                        assert(Machine::spec_dispatch_frame(pre_loop, *self));
                        assert(self.components@[id as int] == MachineComponent::Processor(
                            cpu_post,
                        ));
                        if raw_budget <= (u64::MAX as u128) {
                            let it0g = QuantaIterator {
                                period: cpu_pre.period,
                                budget: spec_budget(ctxg, cpu_pre.period) as u64,
                                timestamp: cpu_pre.timestamp,
                                target: pre_loop.scheduler.current_driven_time,
                            };
                            let ng = spec_effective_quanta(
                                it0g,
                                pre_loop.scheduler.event_queue,
                            );
                            assert(self.address_spaces@[
                                cpu_pre.config.assigned_address_space as int
                            ] == mem_post);
                            assert(crate::cpu::spec_cycles_rel_n(
                                cpu_pre.model(),
                                cpu_pre.nmi,
                                pre_loop.address_spaces@[
                                    cpu_pre.config.assigned_address_space as int
                                ],
                                cpu_post.model(),
                                cpu_post.nmi,
                                self.address_spaces@[
                                    cpu_pre.config.assigned_address_space as int
                                ],
                                ng,
                                cpu_pre.rdy.value,
                                cpu_pre.irq,
                                cpu_pre.config.kind,
                            ));
                            assert(self.address_spaces@ =~= pre_loop.address_spaces@.update(
                                cpu_pre.config.assigned_address_space as int,
                                self.address_spaces@[
                                    cpu_pre.config.assigned_address_space as int
                                ],
                            ));
                        }
                        assert(Machine::spec_component_ran(pre_loop, *self, j as int));
                    }
                },
                MachineComponent::AudioTimer(audio) => {
                    self.components.insert(id, MachineComponent::AudioTimer(audio));
                    proof {
                        assert(self.components@ =~= pre_loop.components@);
                        assert(Machine::spec_component_ran(pre_loop, *self, j as int));
                    }
                },
            }
            proof {
                Machine::lemma_ran_components_snoc(start_state, pre_loop, *self, j as int);
                assert forall|i: int| 0 <= i < self.components@.len() implies match #[trigger] self.components@[i] {
                    MachineComponent::Processor(c) => {
                        &&& c.config.assigned_address_space < self.address_spaces@.len()
                        &&& c.address_space_cache.consistent_with(
                            self.address_spaces@[c.config.assigned_address_space as int].table,
                        )
                        &&& c.period.bits > 0
                    },
                    MachineComponent::AudioTimer(a) => a.wf(),
                } by {
                    if i != id {
                        assert(self.components@[i] == pre_loop.components@[i]);
                        match pre_loop.components@[i] {
                            MachineComponent::Processor(c) => {
                                assert(self.address_spaces@[c.config.assigned_address_space
                                    as int].table == pre_loop.address_spaces@[
                                    c.config.assigned_address_space as int
                                ].table);
                            },
                            MachineComponent::AudioTimer(_) => {},
                        }
                    }
                };
            }
            j = j + 1;
        }
        proof {
            assert(start_state == (Machine {
                scheduler: Scheduler {
                    event_queue: old(self).scheduler.event_queue,
                    driven: old(self).scheduler.driven,
                    current_driven_time: Period {
                        bits: (old(self).scheduler.current_driven_time.bits + delta.bits) as u128,
                    },
                    start_time: old(self).scheduler.start_time,
                },
                address_spaces: old(self).address_spaces,
                components: old(self).components,
            }));
        }
    }

    /// Sets the audio timer's countdown register, under the machine's
    /// mediation: the only mutation is that one field of that component.
    pub fn audio_timer_set(&mut self, component: ComponentId, value: u8) -> (r: Result<
        (),
        MachineError,
    >)
        requires
            old(self).wf(),
        ensures
            final(self).wf(),
            final(self).scheduler == old(self).scheduler,
            final(self).address_spaces == old(self).address_spaces,
            ({
                if component < old(self).components@.len() {
                    match old(self).components@[component as int] {
                        MachineComponent::AudioTimer(audio) => {
                            &&& r == (Ok::<(), MachineError>(()))
                            &&& final(self).components@ == old(self).components@.update(
                                component as int,
                                MachineComponent::AudioTimer(
                                    Chip8Audio { timer: value, ..audio },
                                ),
                            )
                        },
                        MachineComponent::Processor(_) => r == (Err::<(), MachineError>(
                            MachineError::UnknownComponent { component },
                        )) && final(self).components@ == old(self).components@,
                    }
                } else {
                    r == (Err::<(), MachineError>(
                        MachineError::UnknownComponent { component },
                    )) && final(self).components == old(self).components
                }
            }),
    {
        if component >= self.components.len() {
            return Err(MachineError::UnknownComponent { component });
        }
        let ghost pre = *self;
        let taken = self.components.remove(component);
        match taken {
            MachineComponent::AudioTimer(mut audio) => {
                audio.set(value);
                self.components.insert(component, MachineComponent::AudioTimer(audio));
                proof {
                    self.lemma_component_swap_preserves_wf(pre, component as int);
                    assert(self.components@ =~= pre.components@.update(
                        component as int,
                        self.components@[component as int],
                    ));
                }
                Ok(())
            },
            other => {
                self.components.insert(component, other);
                proof {
                    self.lemma_component_swap_preserves_wf(pre, component as int);
                    assert(self.components@ =~= pre.components@);
                }
                Err(MachineError::UnknownComponent { component })
            },
        }
    }

    /// Takes the oldest buffered sample from the audio timer, under the
    /// machine's mediation — the audio backend's pull path.
    pub fn audio_timer_take_sample(&mut self, component: ComponentId) -> (r: Result<
        Option<i8>,
        MachineError,
    >)
        requires
            old(self).wf(),
        ensures
            final(self).wf(),
            final(self).scheduler == old(self).scheduler,
            final(self).address_spaces == old(self).address_spaces,
            ({
                if component < old(self).components@.len() {
                    match old(self).components@[component as int] {
                        MachineComponent::AudioTimer(audio) => {
                            &&& match final(self).components@[component as int] {
                                MachineComponent::AudioTimer(audio2) => {
                                    &&& (crate::chip8_audio::ring_samples(audio.buffer).len()
                                        == 0 ==> r == (Ok::<Option<i8>, MachineError>(None))
                                        && crate::chip8_audio::ring_samples(audio2.buffer)
                                        == crate::chip8_audio::ring_samples(audio.buffer))
                                    &&& (crate::chip8_audio::ring_samples(audio.buffer).len()
                                        > 0 ==> r == (Ok::<Option<i8>, MachineError>(
                                        Some(crate::chip8_audio::ring_samples(audio.buffer)[0]),
                                    )) && crate::chip8_audio::ring_samples(audio2.buffer)
                                        == crate::chip8_audio::ring_samples(
                                        audio.buffer,
                                    ).drop_first())
                                },
                                MachineComponent::Processor(_) => false,
                            }
                            &&& forall|i: int|
                                0 <= i < old(self).components@.len() && i != component
                                    ==> final(self).components@[i] == old(self).components@[i]
                        },
                        MachineComponent::Processor(_) => r == (Err::<Option<i8>, MachineError>(
                            MachineError::UnknownComponent { component },
                        )) && final(self).components@ == old(self).components@,
                    }
                } else {
                    r == (Err::<Option<i8>, MachineError>(
                        MachineError::UnknownComponent { component },
                    )) && final(self).components == old(self).components
                }
            }),
    {
        if component >= self.components.len() {
            return Err(MachineError::UnknownComponent { component });
        }
        let ghost pre = *self;
        let taken = self.components.remove(component);
        match taken {
            MachineComponent::AudioTimer(mut audio) => {
                let sample = audio.take_sample();
                self.components.insert(component, MachineComponent::AudioTimer(audio));
                proof {
                    self.lemma_component_swap_preserves_wf(pre, component as int);
                    assert(self.components@ =~= pre.components@.update(
                        component as int,
                        self.components@[component as int],
                    ));
                }
                Ok(sample)
            },
            other => {
                self.components.insert(component, other);
                proof {
                    self.lemma_component_swap_preserves_wf(pre, component as int);
                    assert(self.components@ =~= pre.components@);
                }
                Err(MachineError::UnknownComponent { component })
            },
        }
    }

    /// Synchronizes the on-demand audio timer up to the machine's current
    /// time, under the machine's mediation — the audio backend's tick
    /// path.  The component state becomes its effective allocation of
    /// quanta folded over, exactly as [`Chip8Audio::synchronize`] states.
    pub fn audio_timer_synchronize(&mut self, component: ComponentId, component_time: Period) -> (r:
        Result<(), MachineError>)
        requires
            old(self).wf(),
        ensures
            final(self).wf(),
            final(self).address_spaces == old(self).address_spaces,
            final(self).scheduler.driven == old(self).scheduler.driven,
            final(self).scheduler.current_driven_time == old(self).scheduler.current_driven_time,
            final(self).scheduler.start_time == old(self).scheduler.start_time,
            final(self).scheduler.event_queue.events == old(self).scheduler.event_queue.events,
            ({
                let ctx = SynchronizationContext {
                    target_timestamp: old(self).scheduler.current_driven_time,
                    next_event: match spec_min_trigger(old(self).scheduler.event_queue.events@) {
                        None => None,
                        Some(m) => Some(Period { bits: m }),
                    },
                    updated_timestamp: component_time,
                    last_attempted_allocation: None,
                };
                if component < old(self).components@.len() {
                    match old(self).components@[component as int] {
                        MachineComponent::AudioTimer(audio) => {
                            spec_budget(ctx, audio.processor_period) <= u64::MAX ==> {
                                &&& r == (Ok::<(), MachineError>(()))
                                &&& match final(self).components@[component as int] {
                                    MachineComponent::AudioTimer(audio2) => {
                                        Chip8Audio::spec_ticked_n(
                                            audio,
                                            audio2,
                                            spec_effective_quanta(
                                                QuantaIterator {
                                                    period: audio.processor_period,
                                                    budget: spec_budget(
                                                        ctx,
                                                        audio.processor_period,
                                                    ) as u64,
                                                    timestamp: component_time,
                                                    target: old(
                                                        self,
                                                    ).scheduler.current_driven_time,
                                                },
                                                old(self).scheduler.event_queue,
                                            ),
                                        )
                                    },
                                    MachineComponent::Processor(_) => false,
                                }
                                &&& forall|i: int|
                                    0 <= i < old(self).components@.len() && i != component
                                        ==> final(self).components@[i] == old(self).components@[i]
                            }
                        },
                        MachineComponent::Processor(_) => r == (Err::<(), MachineError>(
                            MachineError::UnknownComponent { component },
                        )) && final(self).components@ == old(self).components@
                            && final(self).scheduler == old(self).scheduler,
                    }
                } else {
                    r == (Err::<(), MachineError>(
                        MachineError::UnknownComponent { component },
                    )) && final(self).components == old(self).components && final(self).scheduler
                        == old(self).scheduler
                }
            }),
    {
        if component >= self.components.len() {
            return Err(MachineError::UnknownComponent { component });
        }
        let ghost pre = *self;
        let taken = self.components.remove(component);
        match taken {
            MachineComponent::AudioTimer(mut audio) => {
                let target = self.scheduler.now();
                let next_event = self.scheduler.event_queue.next_event();
                let mut context = SynchronizationContext {
                    target_timestamp: target,
                    next_event,
                    updated_timestamp: component_time,
                    last_attempted_allocation: None,
                };
                let stop = match next_event {
                    None => target,
                    Some(n) => n.min(target),
                };
                let raw_budget: u128 = stop.saturating_sub(component_time).div_floor(
                    audio.processor_period,
                );
                let outcome = if raw_budget <= (u64::MAX as u128) {
                    audio.synchronize(&mut context, &mut self.scheduler.event_queue);
                    Ok(())
                } else {
                    Err(MachineError::UnknownComponent { component })
                };
                self.components.insert(component, MachineComponent::AudioTimer(audio));
                proof {
                    self.lemma_component_swap_preserves_wf(pre, component as int);
                    assert(self.components@ =~= pre.components@.update(
                        component as int,
                        self.components@[component as int],
                    ));
                }
                outcome
            },
            other => {
                self.components.insert(component, other);
                proof {
                    self.lemma_component_swap_preserves_wf(pre, component as int);
                    assert(self.components@ =~= pre.components@);
                }
                Err(MachineError::UnknownComponent { component })
            },
        }
    }

    /// Taking one component out and putting one satisfying its own
    /// soundness back keeps the machine sound.
    proof fn lemma_component_swap_preserves_wf(&self, pre: Machine, at: int)
        requires
            pre.wf(),
            0 <= at < pre.components@.len(),
            self.scheduler.driven@ == pre.scheduler.driven@,
            self.address_spaces@ == pre.address_spaces@,
            self.components@.len() == pre.components@.len(),
            forall|i: int|
                0 <= i < pre.components@.len() && i != at ==> self.components@[i]
                    == pre.components@[i],
            match self.components@[at] {
                MachineComponent::Processor(c) => {
                    &&& c.config.assigned_address_space < self.address_spaces@.len()
                    &&& c.address_space_cache.consistent_with(
                        self.address_spaces@[c.config.assigned_address_space as int].table,
                    )
                    &&& c.period.bits > 0
                },
                MachineComponent::AudioTimer(a) => a.wf(),
            },
            match pre.components@[at] {
                MachineComponent::Processor(_) => self.components@[at] is Processor,
                MachineComponent::AudioTimer(_) => self.components@[at] is AudioTimer,
            },
        ensures
            self.wf(),
    {
        assert forall|i: int| 0 <= i < self.components@.len() implies match #[trigger] self.components@[i] {
            MachineComponent::Processor(c) => {
                &&& c.config.assigned_address_space < self.address_spaces@.len()
                &&& c.address_space_cache.consistent_with(
                    self.address_spaces@[c.config.assigned_address_space as int].table,
                )
                &&& c.period.bits > 0
            },
            MachineComponent::AudioTimer(a) => a.wf(),
        } by {
            if i != at {
                assert(self.components@[i] == pre.components@[i]);
            }
        };
        assert forall|q: int| 0 <= q < self.scheduler.driven@.len() implies {
            &&& (#[trigger] self.scheduler.driven@[q]).component < self.components@.len()
            &&& self.components@[self.scheduler.driven@[q].component as int] is Processor
        } by {
            assert(pre.scheduler.driven@[q] == self.scheduler.driven@[q]);
        };
    }
}

} // verus!