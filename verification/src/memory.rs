//! Paged address-space dispatch.
//!
//! An [`AddressSpace`] owns registered byte buffers and a
//! [`MemoryMappingTable`]: one slot per 4 KiB page, each slot holding the
//! mapping entries whose ranges touch that page, in insertion order.  An
//! address resolves to the first entry, in insertion order, whose range
//! contains it and whose target can serve the access direction.  A
//! per-caller [`AddressSpaceCache`] remembers a range of addresses whose
//! resolution is already known, so a hit skips the page walk; reads through
//! the cache return exactly what an uncached read would.
//!
//! RAM and ROM targets are served directly from the registered buffers.
//! Memory-mapped I/O targets carry a handler identifier; resolution reports
//! them to the caller, which owns the dispatch to the handling component.

use vstd::prelude::*;

verus! {

/// A location in an address space.
pub type Address = usize;

/// Bytes per mapping-table page.
pub const PAGE_SIZE: usize = 4096;

/// Identifies a registered buffer inside one address space.
pub type BufferPath = usize;

/// Where a mapped range sends its accesses.
#[derive(Clone, Copy, PartialEq, Eq, Structural, Debug)]
pub enum PageTarget {
    /// Readable and writable bytes: `buffer[address - base]`.
    Ram { buffer: BufferPath, base: Address },
    /// Readable bytes; writes are accepted and silently ignored.
    Rom { buffer: BufferPath, base: Address },
    /// Read handler; not a write target.
    MmioRead { handler: usize },
    /// Write handler; not a read target.
    MmioWrite { handler: usize },
    /// Handler for both directions.
    MmioReadWrite { handler: usize },
}

/// One mapping: an inclusive address range and its target.
#[derive(Clone, Copy, PartialEq, Eq, Structural, Debug)]
pub struct MappingEntry {
    pub low: Address,
    pub high: Address,
    pub target: PageTarget,
}

/// The entries whose ranges touch one page, in insertion order.
#[derive(Debug)]
pub enum Page {
    Single(MappingEntry),
    Multi(Vec<MappingEntry>),
}

/// One slot per page; `None` when nothing is mapped there.
#[derive(Debug)]
pub struct MemoryMappingTable {
    pub computed_table: Vec<Option<Page>>,
}

/// A registered byte array; `writable` buffers back RAM, the rest back ROM.
#[derive(Debug)]
pub struct Buffer {
    pub bytes: Vec<u8>,
    pub writable: bool,
}

/// The failure of a single byte access.
#[derive(Clone, Copy, PartialEq, Eq, Structural, Debug)]
pub enum MemoryOperationError {
    /// No mapping serves this address in the requested direction.
    Unmapped { address: Address },
    /// The address resolves to an I/O handler; the caller owns the dispatch.
    Mmio { handler: usize, address: Address },
}

/// True when the target can serve a read.
pub open spec fn read_capable(t: PageTarget) -> bool {
    !(t is MmioWrite)
}

/// True when the target can serve a write.
pub open spec fn write_capable(t: PageTarget) -> bool {
    !(t is MmioRead)
}

/// True when `addr` lies inside the entry's inclusive range.
pub open spec fn entry_contains(e: MappingEntry, addr: int) -> bool {
    e.low <= addr <= e.high
}

/// True when the entry's range and `[low, high]` share an address.
pub open spec fn entry_intersects(e: MappingEntry, low: int, high: int) -> bool {
    e.low <= high && low <= e.high
}

/// The entries of one page slot as a sequence, in insertion order.
pub open spec fn page_entry_seq(slot: Option<Page>) -> Seq<MappingEntry> {
    match slot {
        None => Seq::empty(),
        Some(Page::Single(e)) => seq![e],
        Some(Page::Multi(es)) => es@,
    }
}

/// First entry, in order, that contains `addr` and can serve the direction.
pub open spec fn first_match(entries: Seq<MappingEntry>, addr: int, want_read: bool) -> Option<
    MappingEntry,
>
    decreases entries.len(),
{
    if entries.len() == 0 {
        None
    } else if entry_contains(entries[0], addr) && (if want_read {
        read_capable(entries[0].target)
    } else {
        write_capable(entries[0].target)
    }) {
        Some(entries[0])
    } else {
        first_match(entries.drop_first(), addr, want_read)
    }
}

/// Appending an entry never changes an earlier match; it only fills a miss.
proof fn lemma_first_match_push(entries: Seq<MappingEntry>, e: MappingEntry, addr: int, want_read: bool)
    ensures
        first_match(entries.push(e), addr, want_read) == (match first_match(entries, addr, want_read) {
            Some(m) => Some(m),
            None => if entry_contains(e, addr) && (if want_read {
                read_capable(e.target)
            } else {
                write_capable(e.target)
            }) {
                Some(e)
            } else {
                None
            },
        }),
    decreases entries.len(),
{
    if entries.len() == 0 {
        assert(entries.push(e) =~= seq![e]);
        assert(first_match(seq![e], addr, want_read) == (if entry_contains(e, addr) && (if want_read {
            read_capable(e.target)
        } else {
            write_capable(e.target)
        }) {
            Some(e)
        } else {
            first_match(seq![e].drop_first(), addr, want_read)
        }));
        assert(seq![e].drop_first() =~= Seq::<MappingEntry>::empty());
    } else {
        assert(entries.push(e).drop_first() =~= entries.drop_first().push(e));
        lemma_first_match_push(entries.drop_first(), e, addr, want_read);
    }
}

impl MemoryMappingTable {
    /// Number of page slots.
    pub open spec fn spec_pages(self) -> int {
        self.computed_table@.len() as int
    }

    /// The entry an access at `addr` dispatches to, or `None`.
    pub open spec fn spec_resolve(self, addr: int, want_read: bool) -> Option<MappingEntry> {
        if 0 <= addr && addr / (PAGE_SIZE as int) < self.spec_pages() {
            first_match(
                page_entry_seq(self.computed_table@[addr / (PAGE_SIZE as int)]),
                addr,
                want_read,
            )
        } else {
            None
        }
    }

    /// Walks the page slot of `addr` and returns the dispatch entry.
    pub fn resolve(&self, addr: Address, want_read: bool) -> (r: Option<MappingEntry>)
        ensures
            r == self.spec_resolve(addr as int, want_read),
    {
        let page: usize = addr / PAGE_SIZE;
        if page >= self.computed_table.len() {
            return None;
        }
        proof {
            assert(addr as int / (PAGE_SIZE as int) == page as int);
        }
        match &self.computed_table[page] {
            None => {
                proof {
                    assert(page_entry_seq(self.computed_table@[page as int])
                        =~= Seq::<MappingEntry>::empty());
                }
                None
            },
            Some(Page::Single(e)) => {
                proof {
                    assert(page_entry_seq(self.computed_table@[page as int]) =~= seq![*e]);
                    assert(seq![*e][0] == *e);
                }
                if e.low <= addr && addr <= e.high && (if want_read {
                    !matches!(e.target, PageTarget::MmioWrite { .. })
                } else {
                    !matches!(e.target, PageTarget::MmioRead { .. })
                }) {
                    Some(*e)
                } else {
                    proof {
                        assert(seq![*e].drop_first() =~= Seq::<MappingEntry>::empty());
                        assert(first_match(Seq::<MappingEntry>::empty(), addr as int, want_read)
                            is None);
                    }
                    None
                }
            },
            Some(Page::Multi(es)) => {
                let ghost full = es@;
                proof {
                    assert(page_entry_seq(self.computed_table@[page as int]) =~= full);
                    assert(full.skip(0) =~= full);
                }
                let mut i: usize = 0;
                loop
                    invariant
                        i <= es.len(),
                        es@ == full,
                        first_match(full, addr as int, want_read) == first_match(
                            full.skip(i as int),
                            addr as int,
                            want_read,
                        ),
                    decreases es.len() - i,
                {
                    if i >= es.len() {
                        proof {
                            assert(full.skip(i as int) =~= Seq::<MappingEntry>::empty());
                        }
                        return None;
                    }
                    let e = es[i];
                    let eligible = e.low <= addr && addr <= e.high && (if want_read {
                        !matches!(e.target, PageTarget::MmioWrite { .. })
                    } else {
                        !matches!(e.target, PageTarget::MmioRead { .. })
                    });
                    proof {
                        assert(full.skip(i as int)[0] == full[i as int]);
                        assert(full.skip(i as int).drop_first() =~= full.skip(i as int + 1));
                    }
                    if eligible {
                        return Some(e);
                    }
                    i = i + 1;
                }
            },
        }
    }
}

/// A caller-owned locality record: a range of addresses whose resolution is
/// already known, together with the entry they resolve to.
#[derive(Clone, Copy, PartialEq, Eq, Structural, Debug)]
pub struct CacheSlot {
    pub low: Address,
    pub high: Address,
    pub entry: MappingEntry,
}

/// Per-caller dispatch cache.  Mutated only by the caller holding it.
#[derive(Clone, Copy, PartialEq, Eq, Structural, Debug)]
pub struct AddressSpaceCache {
    pub slot: Option<CacheSlot>,
}

impl AddressSpaceCache {
    /// The cache agrees with the table: every address it covers resolves to
    /// the recorded entry, in each direction the entry's target can serve.
    pub open spec fn consistent_with(self, table: MemoryMappingTable) -> bool {
        match self.slot {
            None => true,
            Some(s) => forall|a: int|
                s.low <= a <= s.high ==> {
                    &&& (read_capable(s.entry.target) ==> table.spec_resolve(a, true) == Some(
                        s.entry,
                    ))
                    &&& (write_capable(s.entry.target) ==> table.spec_resolve(a, false) == Some(
                        s.entry,
                    ))
                },
        }
    }

    /// An empty cache, consistent with every table.
    pub fn empty() -> (r: Self)
        ensures
            r.slot is None,
    {
        AddressSpaceCache { slot: None }
    }
}

/// A builder mistake, reported when a mapping is requested.
#[derive(Clone, Copy, PartialEq, Eq, Structural, Debug)]
pub enum MappingError {
    /// The range's low end lies above its high end.
    InvalidRange { low: Address, high: Address },
    /// The range reaches past the end of the address space.
    RangeOutsideSpace { high: Address },
    /// No buffer is registered under this path.
    UnknownBuffer { buffer: BufferPath },
    /// The buffer is shorter than the range it should back.
    BufferTooSmall { buffer: BufferPath },
    /// RAM needs a writable buffer.
    BufferImmutable { buffer: BufferPath },
    /// An I/O mapping must serve at least one direction.
    NoDirection,
}

/// The entries of `es` whose ranges do not intersect `[low, high]`, in order.
pub open spec fn keep_entries(es: Seq<MappingEntry>, low: int, high: int) -> Seq<MappingEntry>
    decreases es.len(),
{
    if es.len() == 0 {
        Seq::empty()
    } else if entry_intersects(es[0], low, high) {
        keep_entries(es.drop_first(), low, high)
    } else {
        seq![es[0]] + keep_entries(es.drop_first(), low, high)
    }
}

/// `keep_entries` commutes with appending one entry.
proof fn lemma_keep_entries_push(es: Seq<MappingEntry>, e: MappingEntry, low: int, high: int)
    ensures
        keep_entries(es.push(e), low, high) == if entry_intersects(e, low, high) {
            keep_entries(es, low, high)
        } else {
            keep_entries(es, low, high).push(e)
        },
    decreases es.len(),
{
    if es.len() == 0 {
        assert(es.push(e) =~= seq![e]);
        assert(seq![e][0] == e);
        assert(seq![e].drop_first() =~= Seq::<MappingEntry>::empty());
        assert(keep_entries(Seq::<MappingEntry>::empty(), low, high)
            == Seq::<MappingEntry>::empty());
        assert(keep_entries(es, low, high) == Seq::<MappingEntry>::empty());
        if entry_intersects(e, low, high) {
        } else {
            assert(seq![e] + Seq::<MappingEntry>::empty() =~= Seq::<MappingEntry>::empty().push(
                e,
            ));
        }
    } else {
        assert(es.push(e)[0] == es[0]);
        assert(es.push(e).drop_first() =~= es.drop_first().push(e));
        lemma_keep_entries_push(es.drop_first(), e, low, high);
        if !entry_intersects(es[0], low, high) {
            if entry_intersects(e, low, high) {
            } else {
                assert(seq![es[0]] + keep_entries(es.drop_first(), low, high).push(e) =~= (seq![
                    es[0],
                ] + keep_entries(es.drop_first(), low, high)).push(e));
            }
        }
    }
}

/// Every kept entry misses the removed range.
proof fn lemma_keep_entries_no_intersect(es: Seq<MappingEntry>, low: int, high: int)
    ensures
        forall|i: int|
            0 <= i < keep_entries(es, low, high).len() ==> !entry_intersects(
                #[trigger] keep_entries(es, low, high)[i],
                low,
                high,
            ),
        forall|i: int|
            0 <= i < keep_entries(es, low, high).len() ==> exists|j: int|
                0 <= j < es.len() && #[trigger] es[j] == #[trigger] keep_entries(
                    es,
                    low,
                    high,
                )[i],
    decreases es.len(),
{
    if es.len() > 0 {
        lemma_keep_entries_no_intersect(es.drop_first(), low, high);
        if !entry_intersects(es[0], low, high) {
            let kept = keep_entries(es, low, high);
            let sub = keep_entries(es.drop_first(), low, high);
            assert(kept =~= seq![es[0]] + sub);
            assert forall|i: int| 0 <= i < kept.len() implies !entry_intersects(
                kept[i],
                low,
                high,
            ) && exists|j: int| 0 <= j < es.len() && es[j] == kept[i] by {
                if i == 0 {
                    assert(es[0] == kept[i]);
                } else {
                    assert(kept[i] == sub[i - 1]);
                    let j = choose|j: int| 0 <= j < es.drop_first().len() && es.drop_first()[j]
                        == sub[i - 1];
                    assert(es[j + 1] == kept[i]);
                }
            };
        } else {
            let kept = keep_entries(es, low, high);
            let sub = keep_entries(es.drop_first(), low, high);
            assert(kept =~= sub);
            assert forall|i: int| 0 <= i < kept.len() implies !entry_intersects(
                kept[i],
                low,
                high,
            ) && exists|j: int| 0 <= j < es.len() && es[j] == kept[i] by {
                let j = choose|j: int| 0 <= j < es.drop_first().len() && es.drop_first()[j]
                    == sub[i];
                assert(es[j + 1] == kept[i]);
            };
        }
    }
}

/// A match is always a member of the searched sequence and contains the address.
proof fn lemma_first_match_member(entries: Seq<MappingEntry>, addr: int, want_read: bool)
    requires
        first_match(entries, addr, want_read) is Some,
    ensures
        exists|i: int|
            0 <= i < entries.len() && entries[i] == first_match(entries, addr, want_read).unwrap(),
        entry_contains(first_match(entries, addr, want_read).unwrap(), addr),
    decreases entries.len(),
{
    if entries.len() > 0 {
        if entry_contains(entries[0], addr) && (if want_read {
            read_capable(entries[0].target)
        } else {
            write_capable(entries[0].target)
        }) {
            assert(entries[0] == first_match(entries, addr, want_read).unwrap());
        } else {
            lemma_first_match_member(entries.drop_first(), addr, want_read);
            let sub = entries.drop_first();
            let e = first_match(sub, addr, want_read).unwrap();
            let i = choose|i: int| 0 <= i < sub.len() && sub[i] == e;
            assert(entries[i + 1] == e);
        }
    }
}

/// An address space: registered byte buffers plus the paged dispatch table.
#[derive(Debug)]
pub struct AddressSpace {
    pub table: MemoryMappingTable,
    pub buffers: Vec<Buffer>,
}

/// Upper bound on page-slot count, so page arithmetic stays in `usize`.
pub const MAX_PAGES: usize = 0x40000;

impl AddressSpace {
    /// One mapping entry is sound: its range is ordered and any buffer it
    /// names is present, long enough, and of the right mutability.
    pub open spec fn entry_wf(self, e: MappingEntry) -> bool {
        &&& e.low <= e.high
        &&& match e.target {
            PageTarget::Ram { buffer, base } => {
                &&& buffer < self.buffers@.len()
                &&& base <= e.low
                &&& e.high - base < self.buffers@[buffer as int].bytes@.len()
                &&& self.buffers@[buffer as int].writable
            },
            PageTarget::Rom { buffer, base } => {
                &&& buffer < self.buffers@.len()
                &&& base <= e.low
                &&& e.high - base < self.buffers@[buffer as int].bytes@.len()
            },
            _ => true,
        }
    }

    /// All entries of one page slot are sound.
    pub open spec fn page_wf(self, es: Seq<MappingEntry>) -> bool {
        forall|i: int| 0 <= i < es.len() ==> self.entry_wf(#[trigger] es[i])
    }

    /// The whole space is sound; established by the builder operations and
    /// preserved by every access.
    pub open spec fn wf(self) -> bool {
        &&& self.table.computed_table@.len() <= MAX_PAGES
        &&& forall|p: int|
            0 <= p < self.table.computed_table@.len() ==> self.page_wf(
                page_entry_seq(#[trigger] self.table.computed_table@[p]),
            )
    }

    /// The resolved entry of a sound space is itself sound.
    proof fn lemma_resolved_entry_wf(self, addr: int, want_read: bool)
        requires
            self.wf(),
            self.table.spec_resolve(addr, want_read) is Some,
        ensures
            self.entry_wf(self.table.spec_resolve(addr, want_read).unwrap()),
            entry_contains(self.table.spec_resolve(addr, want_read).unwrap(), addr),
    {
        let p = addr / (PAGE_SIZE as int);
        let es = page_entry_seq(self.table.computed_table@[p]);
        lemma_first_match_member(es, addr, want_read);
    }

    /// What one byte read returns, before any cache is consulted.
    pub open spec fn spec_read8(self, addr: int) -> Result<u8, MemoryOperationError> {
        match self.table.spec_resolve(addr, true) {
            None => Err(MemoryOperationError::Unmapped { address: addr as usize }),
            Some(e) => match e.target {
                PageTarget::Ram { buffer, base } => Ok(
                    self.buffers@[buffer as int].bytes@[addr - base],
                ),
                PageTarget::Rom { buffer, base } => Ok(
                    self.buffers@[buffer as int].bytes@[addr - base],
                ),
                PageTarget::MmioRead { handler } => Err(
                    MemoryOperationError::Mmio { handler, address: addr as usize },
                ),
                PageTarget::MmioReadWrite { handler } => Err(
                    MemoryOperationError::Mmio { handler, address: addr as usize },
                ),
                PageTarget::MmioWrite { .. } => Err(
                    MemoryOperationError::Unmapped { address: addr as usize },
                ),
            },
        }
    }

    /// Serves a read from an already-resolved entry.
    fn read_resolved(&self, e: MappingEntry, addr: Address) -> (r: Result<
        u8,
        MemoryOperationError,
    >)
        requires
            self.entry_wf(e),
            entry_contains(e, addr as int),
        ensures
            r == (match e.target {
                PageTarget::Ram { buffer, base } => Ok::<u8, MemoryOperationError>(
                    self.buffers@[buffer as int].bytes@[addr - base],
                ),
                PageTarget::Rom { buffer, base } => Ok(
                    self.buffers@[buffer as int].bytes@[addr - base],
                ),
                PageTarget::MmioRead { handler } => Err(
                    MemoryOperationError::Mmio { handler, address: addr },
                ),
                PageTarget::MmioReadWrite { handler } => Err(
                    MemoryOperationError::Mmio { handler, address: addr },
                ),
                PageTarget::MmioWrite { .. } => Err(
                    MemoryOperationError::Unmapped { address: addr },
                ),
            }),
    {
        match e.target {
            PageTarget::Ram { buffer, base } => Ok(self.buffers[buffer].bytes[addr - base]),
            PageTarget::Rom { buffer, base } => Ok(self.buffers[buffer].bytes[addr - base]),
            PageTarget::MmioRead { handler } => Err(
                MemoryOperationError::Mmio { handler, address: addr },
            ),
            PageTarget::MmioReadWrite { handler } => Err(
                MemoryOperationError::Mmio { handler, address: addr },
            ),
            PageTarget::MmioWrite { .. } => Err(
                MemoryOperationError::Unmapped { address: addr },
            ),
        }
    }

    /// Reads one byte without a cache.
    pub fn read8(&self, addr: Address) -> (r: Result<u8, MemoryOperationError>)
        requires
            self.wf(),
        ensures
            r == self.spec_read8(addr as int),
    {
        match self.table.resolve(addr, true) {
            None => Err(MemoryOperationError::Unmapped { address: addr }),
            Some(e) => {
                proof {
                    self.lemma_resolved_entry_wf(addr as int, true);
                }
                self.read_resolved(e, addr)
            },
        }
    }

    /// The write-effect relation: how `post` and the result relate to `pre`
    /// after one byte write of `v` at `addr`.
    pub open spec fn spec_wrote8(
        pre: AddressSpace,
        post: AddressSpace,
        addr: int,
        v: u8,
        r: Result<(), MemoryOperationError>,
    ) -> bool {
        &&& post.table == pre.table
        &&& post.buffers@.len() == pre.buffers@.len()
        &&& match pre.table.spec_resolve(addr, false) {
            None => {
                &&& r == (Err::<(), MemoryOperationError>(
                    MemoryOperationError::Unmapped { address: addr as usize },
                ))
                &&& post.buffers == pre.buffers
            },
            Some(e) => match e.target {
                PageTarget::Ram { buffer, base } => {
                    &&& r == (Ok::<(), MemoryOperationError>(()))
                    &&& post.buffers@[buffer as int].bytes@ == pre.buffers@[
                        buffer as int
                    ].bytes@.update(addr - base, v)
                    &&& post.buffers@[buffer as int].writable == pre.buffers@[
                        buffer as int
                    ].writable
                    &&& forall|j: int|
                        0 <= j < pre.buffers@.len() && j != buffer ==> post.buffers@[j]
                            == pre.buffers@[j]
                },
                PageTarget::Rom { .. } => {
                    &&& r == (Ok::<(), MemoryOperationError>(()))
                    &&& post.buffers == pre.buffers
                },
                PageTarget::MmioWrite { handler } => {
                    &&& r == (Err::<(), MemoryOperationError>(
                        MemoryOperationError::Mmio { handler, address: addr as usize },
                    ))
                    &&& post.buffers == pre.buffers
                },
                PageTarget::MmioReadWrite { handler } => {
                    &&& r == (Err::<(), MemoryOperationError>(
                        MemoryOperationError::Mmio { handler, address: addr as usize },
                    ))
                    &&& post.buffers == pre.buffers
                },
                PageTarget::MmioRead { .. } => {
                    &&& r == (Err::<(), MemoryOperationError>(
                        MemoryOperationError::Unmapped { address: addr as usize },
                    ))
                    &&& post.buffers == pre.buffers
                },
            },
        }
    }

    /// Writes one byte without a cache.  RAM stores the byte; ROM accepts
    /// and ignores it; I/O targets and holes report an error and change
    /// nothing.
    pub fn write8(&mut self, addr: Address, v: u8) -> (r: Result<(), MemoryOperationError>)
        requires
            old(self).wf(),
        ensures
            final(self).wf(),
            AddressSpace::spec_wrote8(*old(self), *final(self), addr as int, v, r),
    {
        match self.table.resolve(addr, false) {
            None => Err(MemoryOperationError::Unmapped { address: addr }),
            Some(e) => {
                proof {
                    self.lemma_resolved_entry_wf(addr as int, false);
                }
                self.write_resolved(e, addr, v)
            },
        }
    }

    /// Serves a write to an already-resolved entry.
    fn write_resolved(&mut self, e: MappingEntry, addr: Address, v: u8) -> (r: Result<
        (),
        MemoryOperationError,
    >)
        requires
            old(self).wf(),
            old(self).entry_wf(e),
            entry_contains(e, addr as int),
        ensures
            final(self).wf(),
            final(self).table == old(self).table,
            final(self).buffers@.len() == old(self).buffers@.len(),
            match e.target {
                PageTarget::Ram { buffer, base } => {
                    &&& r == (Ok::<(), MemoryOperationError>(()))
                    &&& final(self).buffers@[buffer as int].bytes@ == old(self).buffers@[
                        buffer as int
                    ].bytes@.update(addr - base, v)
                    &&& final(self).buffers@[buffer as int].writable == old(self).buffers@[
                        buffer as int
                    ].writable
                    &&& forall|j: int|
                        0 <= j < old(self).buffers@.len() && j != buffer ==> final(self).buffers@[j]
                            == old(self).buffers@[j]
                },
                PageTarget::Rom { .. } => {
                    &&& r == (Ok::<(), MemoryOperationError>(()))
                    &&& final(self).buffers == old(self).buffers
                },
                PageTarget::MmioWrite { handler } => {
                    &&& r == (Err::<(), MemoryOperationError>(
                        MemoryOperationError::Mmio { handler, address: addr },
                    ))
                    &&& final(self).buffers == old(self).buffers
                },
                PageTarget::MmioReadWrite { handler } => {
                    &&& r == (Err::<(), MemoryOperationError>(
                        MemoryOperationError::Mmio { handler, address: addr },
                    ))
                    &&& final(self).buffers == old(self).buffers
                },
                PageTarget::MmioRead { .. } => {
                    &&& r == (Err::<(), MemoryOperationError>(
                        MemoryOperationError::Unmapped { address: addr },
                    ))
                    &&& final(self).buffers == old(self).buffers
                },
            },
    {
        match e.target {
            PageTarget::Ram { buffer, base } => {
                self.buffers[buffer].bytes[addr - base] = v;
                Ok(())
            },
            PageTarget::Rom { .. } => Ok(()),
            PageTarget::MmioWrite { handler } => Err(
                MemoryOperationError::Mmio { handler, address: addr },
            ),
            PageTarget::MmioReadWrite { handler } => Err(
                MemoryOperationError::Mmio { handler, address: addr },
            ),
            PageTarget::MmioRead { .. } => Err(
                MemoryOperationError::Unmapped { address: addr },
            ),
        }
    }
}

impl MemoryMappingTable {
    /// Resolves like [`MemoryMappingTable::resolve`], and additionally offers
    /// a cache slot when the match is provably dominant: the entry is alone
    /// in its page slot or stands first in it, so every address of its range
    /// within this page resolves to it in every direction its target serves.
    fn resolve_for_cache(&self, addr: Address, want_read: bool) -> (r: Option<
        (MappingEntry, Option<CacheSlot>),
    >)
        requires
            self.computed_table@.len() <= MAX_PAGES,
        ensures
            r is None ==> self.spec_resolve(addr as int, want_read) is None,
            r is Some ==> self.spec_resolve(addr as int, want_read) == Some(r.unwrap().0),
            r is Some && r.unwrap().1 is Some ==> {
                let slot = r.unwrap().1.unwrap();
                &&& slot.entry == r.unwrap().0
                &&& forall|a: int|
                    slot.low <= a <= slot.high ==> {
                        &&& (read_capable(slot.entry.target) ==> self.spec_resolve(a, true)
                            == Some(slot.entry))
                        &&& (write_capable(slot.entry.target) ==> self.spec_resolve(a, false)
                            == Some(slot.entry))
                    }
            },
    {
        let page: usize = addr / PAGE_SIZE;
        if page >= self.computed_table.len() {
            return None;
        }
        proof {
            assert(addr as int / (PAGE_SIZE as int) == page as int);
            vstd::arithmetic::div_mod::lemma_fundamental_div_mod(addr as int, PAGE_SIZE as int);
            vstd::arithmetic::div_mod::lemma_mod_bound(addr as int, PAGE_SIZE as int);
        }
        let page_first: usize = page * PAGE_SIZE;
        let page_last: usize = page_first + (PAGE_SIZE - 1);
        match &self.computed_table[page] {
            None => {
                proof {
                    assert(page_entry_seq(self.computed_table@[page as int])
                        =~= Seq::<MappingEntry>::empty());
                }
                None
            },
            Some(Page::Single(e)) => {
                proof {
                    assert(page_entry_seq(self.computed_table@[page as int]) =~= seq![*e]);
                }
                if e.low <= addr && addr <= e.high && (if want_read {
                    !matches!(e.target, PageTarget::MmioWrite { .. })
                } else {
                    !matches!(e.target, PageTarget::MmioRead { .. })
                }) {
                    let slot_low: usize = if e.low > page_first {
                        e.low
                    } else {
                        page_first
                    };
                    let slot_high: usize = if e.high < page_last {
                        e.high
                    } else {
                        page_last
                    };
                    let slot = CacheSlot { low: slot_low, high: slot_high, entry: *e };
                    proof {
                        assert forall|a: int| slot.low <= a <= slot.high implies {
                            &&& (read_capable(slot.entry.target) ==> self.spec_resolve(a, true)
                                == Some(slot.entry))
                            &&& (write_capable(slot.entry.target) ==> self.spec_resolve(a, false)
                                == Some(slot.entry))
                        } by {
                            assert(a / (PAGE_SIZE as int) == page as int);
                        };
                    }
                    Some((*e, Some(slot)))
                } else {
                    proof {
                        assert(seq![*e].drop_first() =~= Seq::<MappingEntry>::empty());
                        assert(first_match(Seq::<MappingEntry>::empty(), addr as int, want_read)
                            is None);
                    }
                    None
                }
            },
            Some(Page::Multi(es)) => {
                let ghost full = es@;
                proof {
                    assert(page_entry_seq(self.computed_table@[page as int]) =~= full);
                    assert(full.skip(0) =~= full);
                }
                let mut i: usize = 0;
                loop
                    invariant
                        i <= es.len(),
                        es@ == full,
                        first_match(full, addr as int, want_read) == first_match(
                            full.skip(i as int),
                            addr as int,
                            want_read,
                        ),
                    decreases es.len() - i,
                {
                    if i >= es.len() {
                        proof {
                            assert(full.skip(i as int) =~= Seq::<MappingEntry>::empty());
                        }
                        return None;
                    }
                    let e = es[i];
                    let eligible = e.low <= addr && addr <= e.high && (if want_read {
                        !matches!(e.target, PageTarget::MmioWrite { .. })
                    } else {
                        !matches!(e.target, PageTarget::MmioRead { .. })
                    });
                    proof {
                        assert(full.skip(i as int)[0] == full[i as int]);
                        assert(full.skip(i as int).drop_first() =~= full.skip(i as int + 1));
                    }
                    if eligible {
                        if i == 0 {
                            let slot_low: usize = if e.low > page_first {
                                e.low
                            } else {
                                page_first
                            };
                            let slot_high: usize = if e.high < page_last {
                                e.high
                            } else {
                                page_last
                            };
                            let slot = CacheSlot { low: slot_low, high: slot_high, entry: e };
                            proof {
                                assert forall|a: int| slot.low <= a <= slot.high implies {
                                    &&& (read_capable(slot.entry.target) ==> self.spec_resolve(
                                        a,
                                        true,
                                    ) == Some(slot.entry))
                                    &&& (write_capable(slot.entry.target) ==> self.spec_resolve(
                                        a,
                                        false,
                                    ) == Some(slot.entry))
                                } by {
                                    assert(a / (PAGE_SIZE as int) == page as int);
                                    assert(full[0] == e);
                                };
                            }
                            return Some((e, Some(slot)));
                        }
                        return Some((e, None));
                    }
                    i = i + 1;
                }
            },
        }
    }
}

impl AddressSpace {
    /// Reads one byte through the caller's cache.  Returns exactly what the
    /// uncached [`AddressSpace::read8`] returns, for every address and every
    /// consistent cache state: the cache changes locality, never results.
    pub fn read8_cached(&self, addr: Address, cache: &mut AddressSpaceCache) -> (r: Result<
        u8,
        MemoryOperationError,
    >)
        requires
            self.wf(),
            old(cache).consistent_with(self.table),
        ensures
            r == self.spec_read8(addr as int),
            final(cache).consistent_with(self.table),
    {
        if let Some(s) = cache.slot {
            if s.low <= addr && addr <= s.high && !matches!(
                s.entry.target,
                PageTarget::MmioWrite { .. },
            ) {
                proof {
                    assert(self.table.spec_resolve(addr as int, true) == Some(s.entry));
                    self.lemma_resolved_entry_wf(addr as int, true);
                }
                return self.read_resolved(s.entry, addr);
            }
        }
        match self.table.resolve_for_cache(addr, true) {
            None => Err(MemoryOperationError::Unmapped { address: addr }),
            Some((e, slot)) => {
                proof {
                    self.lemma_resolved_entry_wf(addr as int, true);
                }
                if let Some(s) = slot {
                    cache.slot = Some(s);
                }
                self.read_resolved(e, addr)
            },
        }
    }

    /// Writes one byte through the caller's cache; same result as the
    /// uncached [`AddressSpace::write8`] in every state.
    pub fn write8_cached(&mut self, addr: Address, v: u8, cache: &mut AddressSpaceCache) -> (r:
        Result<(), MemoryOperationError>)
        requires
            old(self).wf(),
            old(cache).consistent_with(old(self).table),
        ensures
            final(self).wf(),
            final(self).table == old(self).table,
            final(cache).consistent_with(final(self).table),
            AddressSpace::spec_wrote8(*old(self), *final(self), addr as int, v, r),
    {
        if let Some(s) = cache.slot {
            if s.low <= addr && addr <= s.high && !matches!(
                s.entry.target,
                PageTarget::MmioRead { .. },
            ) {
                proof {
                    assert(self.table.spec_resolve(addr as int, false) == Some(s.entry));
                    self.lemma_resolved_entry_wf(addr as int, false);
                }
                return self.write_resolved(s.entry, addr, v);
            }
        }
        match self.table.resolve_for_cache(addr, false) {
            None => Err(MemoryOperationError::Unmapped { address: addr }),
            Some((e, slot)) => {
                proof {
                    self.lemma_resolved_entry_wf(addr as int, false);
                }
                if let Some(s) = slot {
                    cache.slot = Some(s);
                }
                self.write_resolved(e, addr, v)
            },
        }
    }
}

impl AddressSpace {
    /// An empty address space of `width_bits` address lines: one `None`
    /// slot per 4 KiB page, and no registered buffers.
    pub fn new(width_bits: u32) -> (r: Self)
        requires
            12 <= width_bits <= 30,
        ensures
            r.wf(),
            r.buffers@.len() == 0,
            r.table.computed_table@.len() == (1usize << width_bits) / (PAGE_SIZE as usize),
            forall|p: int|
                0 <= p < r.table.computed_table@.len() ==> (
                #[trigger] r.table.computed_table@[p]) is None,
    {
        proof {
            assert((12 <= width_bits <= 30) ==> (4096 <= (1usize << width_bits)
                <= 0x4000_0000)) by (bit_vector);
        }
        let num_pages: usize = (1usize << width_bits) / PAGE_SIZE;
        let mut slots: Vec<Option<Page>> = Vec::new();
        let mut i: usize = 0;
        while i < num_pages
            invariant
                i <= num_pages,
                slots@.len() == i,
                forall|p: int| 0 <= p < i ==> (#[trigger] slots@[p]) is None,
            decreases num_pages - i,
        {
            slots.push(None);
            i = i + 1;
        }
        AddressSpace { table: MemoryMappingTable { computed_table: slots }, buffers: Vec::new() }
    }

    /// A fresh, empty dispatch cache for this space.
    pub fn cache(&self) -> (r: AddressSpaceCache)
        ensures
            r.slot is None,
            r.consistent_with(self.table),
    {
        AddressSpaceCache { slot: None }
    }

    /// Registers a byte array and returns its path.
    pub fn register_buffer(&mut self, bytes: Vec<u8>, writable: bool) -> (r: BufferPath)
        requires
            old(self).wf(),
        ensures
            final(self).wf(),
            final(self).table == old(self).table,
            r == old(self).buffers@.len(),
            final(self).buffers@.len() == old(self).buffers@.len() + 1,
            forall|j: int|
                0 <= j < old(self).buffers@.len() ==> final(self).buffers@[j] == old(
                    self,
                ).buffers@[j],
            final(self).buffers@[r as int].bytes@ == bytes@,
            final(self).buffers@[r as int].writable == writable,
    {
        let path = self.buffers.len();
        self.buffers.push(Buffer { bytes, writable });
        proof {
            assert forall|p: int|
                0 <= p < self.table.computed_table@.len() implies self.page_wf(
                page_entry_seq(#[trigger] self.table.computed_table@[p]),
            ) by {
                let es = page_entry_seq(self.table.computed_table@[p]);
                assert forall|i: int| 0 <= i < es.len() implies self.entry_wf(
                    #[trigger] es[i],
                ) by {
                    assert(old(self).entry_wf(es[i]));
                };
            };
        }
        path
    }

    /// How `post` relates to `pre` after entry `e` was appended to every
    /// page slot its range touches: the complete effect of one mapping call.
    pub open spec fn spec_mapped(pre: AddressSpace, post: AddressSpace, e: MappingEntry) -> bool {
        &&& post.buffers == pre.buffers
        &&& post.table.computed_table@.len() == pre.table.computed_table@.len()
        &&& forall|p: int|
            0 <= p < post.table.computed_table@.len() && !(e.low as int / (PAGE_SIZE as int) <= p
                <= e.high as int / (PAGE_SIZE as int)) ==> post.table.computed_table@[p]
                == pre.table.computed_table@[p]
        &&& forall|p: int|
            e.low as int / (PAGE_SIZE as int) <= p <= e.high as int / (PAGE_SIZE as int)
                ==> page_entry_seq(#[trigger] post.table.computed_table@[p]) == page_entry_seq(
                pre.table.computed_table@[p],
            ).push(e)
    }

    /// Appends one entry to every page slot its range touches.
    fn map_entry(&mut self, e: MappingEntry)
        requires
            old(self).wf(),
            old(self).entry_wf(e),
            e.high as int / (PAGE_SIZE as int) < old(self).table.computed_table@.len(),
        ensures
            final(self).wf(),
            AddressSpace::spec_mapped(*old(self), *final(self), e),
    {
        let start_page: usize = e.low / PAGE_SIZE;
        let end_page: usize = e.high / PAGE_SIZE;
        proof {
            vstd::arithmetic::div_mod::lemma_div_is_ordered(
                e.low as int,
                e.high as int,
                PAGE_SIZE as int,
            );
        }
        let mut p: usize = start_page;
        while p <= end_page
            invariant
                start_page <= p <= end_page + 1,
                self.buffers == old(self).buffers,
                self.table.computed_table@.len() == old(self).table.computed_table@.len(),
                forall|q: int|
                    0 <= q < self.table.computed_table@.len() && !(start_page <= q < p)
                        ==> self.table.computed_table@[q] == old(self).table.computed_table@[q],
                forall|q: int|
                    start_page <= q < p ==> page_entry_seq(
                        #[trigger] self.table.computed_table@[q],
                    ) == page_entry_seq(old(self).table.computed_table@[q]).push(e),
            decreases end_page + 1 - p,
        {
            let ghost table_before = self.table.computed_table@;
            let slot = self.table.computed_table.remove(p);
            let new_slot: Option<Page> = match slot {
                None => {
                    proof {
                        assert(Seq::<MappingEntry>::empty().push(e) =~= seq![e]);
                    }
                    Some(Page::Single(e))
                },
                Some(Page::Single(prev)) => {
                    let mut entries: Vec<MappingEntry> = Vec::new();
                    entries.push(prev);
                    entries.push(e);
                    proof {
                        assert(entries@ =~= seq![prev].push(e));
                    }
                    Some(Page::Multi(entries))
                },
                Some(Page::Multi(mut entries)) => {
                    entries.push(e);
                    Some(Page::Multi(entries))
                },
            };
            let ghost new_slot_snapshot = new_slot;
            self.table.computed_table.insert(p, new_slot);
            proof {
                assert(self.table.computed_table@ =~= table_before.update(
                    p as int,
                    new_slot_snapshot,
                ));
            }
            p = p + 1;
        }
        proof {
            assert forall|q: int|
                0 <= q < self.table.computed_table@.len() implies self.page_wf(
                page_entry_seq(#[trigger] self.table.computed_table@[q]),
            ) by {
                let es = page_entry_seq(self.table.computed_table@[q]);
                let old_es = page_entry_seq(old(self).table.computed_table@[q]);
                assert forall|i: int| 0 <= i < es.len() implies self.entry_wf(
                    #[trigger] es[i],
                ) by {
                    if start_page <= q <= end_page && i == old_es.len() {
                        assert(es[i] == e);
                    } else {
                        assert(es[i] == old_es[i]);
                        assert(old(self).entry_wf(old_es[i]));
                    }
                };
            };
        }
    }

    /// The validation that a RAM mapping request must pass.
    pub open spec fn spec_ram_check(self, low: Address, high: Address, buffer: BufferPath) -> Result<
        (),
        MappingError,
    > {
        if low > high {
            Err(MappingError::InvalidRange { low, high })
        } else if high as int / (PAGE_SIZE as int) >= self.table.computed_table@.len() {
            Err(MappingError::RangeOutsideSpace { high })
        } else if buffer >= self.buffers@.len() {
            Err(MappingError::UnknownBuffer { buffer })
        } else if !self.buffers@[buffer as int].writable {
            Err(MappingError::BufferImmutable { buffer })
        } else if self.buffers@[buffer as int].bytes@.len() < high - low + 1 {
            Err(MappingError::BufferTooSmall { buffer })
        } else {
            Ok(())
        }
    }

    /// Maps `[low, high]` to the writable buffer, byte `low + k` backed by
    /// `buffer[k]`.  On a validation error nothing changes.
    pub fn map_ram(&mut self, low: Address, high: Address, buffer: BufferPath) -> (r: Result<
        (),
        MappingError,
    >)
        requires
            old(self).wf(),
        ensures
            final(self).wf(),
            r == old(self).spec_ram_check(low, high, buffer),
            r is Err ==> *final(self) == *old(self),
            r is Ok ==> AddressSpace::spec_mapped(
                *old(self),
                *final(self),
                MappingEntry { low, high, target: PageTarget::Ram { buffer, base: low } },
            ),
    {
        if low > high {
            return Err(MappingError::InvalidRange { low, high });
        }
        if high / PAGE_SIZE >= self.table.computed_table.len() {
            return Err(MappingError::RangeOutsideSpace { high });
        }
        if buffer >= self.buffers.len() {
            return Err(MappingError::UnknownBuffer { buffer });
        }
        if !self.buffers[buffer].writable {
            return Err(MappingError::BufferImmutable { buffer });
        }
        if self.buffers[buffer].bytes.len() < high - low + 1 {
            return Err(MappingError::BufferTooSmall { buffer });
        }
        self.map_entry(
            MappingEntry { low, high, target: PageTarget::Ram { buffer, base: low } },
        );
        Ok(())
    }

    /// The validation that a ROM mapping request must pass.
    pub open spec fn spec_rom_check(self, low: Address, high: Address, buffer: BufferPath) -> Result<
        (),
        MappingError,
    > {
        if low > high {
            Err(MappingError::InvalidRange { low, high })
        } else if high as int / (PAGE_SIZE as int) >= self.table.computed_table@.len() {
            Err(MappingError::RangeOutsideSpace { high })
        } else if buffer >= self.buffers@.len() {
            Err(MappingError::UnknownBuffer { buffer })
        } else if self.buffers@[buffer as int].bytes@.len() < high - low + 1 {
            Err(MappingError::BufferTooSmall { buffer })
        } else {
            Ok(())
        }
    }

    /// Maps `[low, high]` read-only to a buffer; writes through the range
    /// will be accepted and ignored.
    pub fn map_rom(&mut self, low: Address, high: Address, buffer: BufferPath) -> (r: Result<
        (),
        MappingError,
    >)
        requires
            old(self).wf(),
        ensures
            final(self).wf(),
            r == old(self).spec_rom_check(low, high, buffer),
            r is Err ==> *final(self) == *old(self),
            r is Ok ==> AddressSpace::spec_mapped(
                *old(self),
                *final(self),
                MappingEntry { low, high, target: PageTarget::Rom { buffer, base: low } },
            ),
    {
        if low > high {
            return Err(MappingError::InvalidRange { low, high });
        }
        if high / PAGE_SIZE >= self.table.computed_table.len() {
            return Err(MappingError::RangeOutsideSpace { high });
        }
        if buffer >= self.buffers.len() {
            return Err(MappingError::UnknownBuffer { buffer });
        }
        if self.buffers[buffer].bytes.len() < high - low + 1 {
            return Err(MappingError::BufferTooSmall { buffer });
        }
        self.map_entry(
            MappingEntry { low, high, target: PageTarget::Rom { buffer, base: low } },
        );
        Ok(())
    }

    /// The validation that an I/O mapping request must pass, and the target
    /// it yields.
    pub open spec fn spec_mmio_check(
        self,
        low: Address,
        high: Address,
        readable: bool,
        writable: bool,
    ) -> Result<(), MappingError> {
        if low > high {
            Err(MappingError::InvalidRange { low, high })
        } else if high as int / (PAGE_SIZE as int) >= self.table.computed_table@.len() {
            Err(MappingError::RangeOutsideSpace { high })
        } else if !readable && !writable {
            Err(MappingError::NoDirection)
        } else {
            Ok(())
        }
    }

    /// The I/O target that serves the requested directions.
    pub open spec fn spec_mmio_target(handler: usize, readable: bool, writable: bool) -> PageTarget {
        if readable && writable {
            PageTarget::MmioReadWrite { handler }
        } else if readable {
            PageTarget::MmioRead { handler }
        } else {
            PageTarget::MmioWrite { handler }
        }
    }

    /// Maps `[low, high]` to an I/O handler for the given directions.
    pub fn map_mmio(
        &mut self,
        low: Address,
        high: Address,
        handler: usize,
        readable: bool,
        writable: bool,
    ) -> (r: Result<(), MappingError>)
        requires
            old(self).wf(),
        ensures
            final(self).wf(),
            r == old(self).spec_mmio_check(low, high, readable, writable),
            r is Err ==> *final(self) == *old(self),
            r is Ok ==> AddressSpace::spec_mapped(
                *old(self),
                *final(self),
                MappingEntry {
                    low,
                    high,
                    target: AddressSpace::spec_mmio_target(handler, readable, writable),
                },
            ),
    {
        if low > high {
            return Err(MappingError::InvalidRange { low, high });
        }
        if high / PAGE_SIZE >= self.table.computed_table.len() {
            return Err(MappingError::RangeOutsideSpace { high });
        }
        if !readable && !writable {
            return Err(MappingError::NoDirection);
        }
        let target = if readable && writable {
            PageTarget::MmioReadWrite { handler }
        } else if readable {
            PageTarget::MmioRead { handler }
        } else {
            PageTarget::MmioWrite { handler }
        };
        self.map_entry(MappingEntry { low, high, target });
        Ok(())
    }

    /// How `post` relates to `pre` after `[low, high]` was unmapped: every
    /// entry whose range intersects the unmapped range is gone from the page
    /// slots the range touches; slots elsewhere are untouched.
    pub open spec fn spec_unmapped(
        pre: AddressSpace,
        post: AddressSpace,
        low: Address,
        high: Address,
    ) -> bool {
        &&& post.buffers == pre.buffers
        &&& post.table.computed_table@.len() == pre.table.computed_table@.len()
        &&& forall|p: int|
            0 <= p < post.table.computed_table@.len() && !(low as int / (PAGE_SIZE as int) <= p
                <= high as int / (PAGE_SIZE as int)) ==> post.table.computed_table@[p]
                == pre.table.computed_table@[p]
        &&& forall|p: int|
            low as int / (PAGE_SIZE as int) <= p <= high as int / (PAGE_SIZE as int)
                ==> page_entry_seq(#[trigger] post.table.computed_table@[p]) == keep_entries(
                page_entry_seq(pre.table.computed_table@[p]),
                low as int,
                high as int,
            )
    }

    /// Removes every mapping entry whose range intersects `[low, high]`,
    /// from the page slots that the range touches.
    pub fn unmap(&mut self, low: Address, high: Address) -> (r: Result<(), MappingError>)
        requires
            old(self).wf(),
        ensures
            final(self).wf(),
            r == (if low > high {
                Err::<(), MappingError>(MappingError::InvalidRange { low, high })
            } else if high as int / (PAGE_SIZE as int) >= old(self).table.computed_table@.len() {
                Err::<(), MappingError>(MappingError::RangeOutsideSpace { high })
            } else {
                Ok::<(), MappingError>(())
            }),
            r is Err ==> *final(self) == *old(self),
            r is Ok ==> AddressSpace::spec_unmapped(*old(self), *final(self), low, high),
    {
        if low > high {
            return Err(MappingError::InvalidRange { low, high });
        }
        if high / PAGE_SIZE >= self.table.computed_table.len() {
            return Err(MappingError::RangeOutsideSpace { high });
        }
        let start_page: usize = low / PAGE_SIZE;
        let end_page: usize = high / PAGE_SIZE;
        proof {
            vstd::arithmetic::div_mod::lemma_div_is_ordered(
                low as int,
                high as int,
                PAGE_SIZE as int,
            );
        }
        let mut p: usize = start_page;
        while p <= end_page
            invariant
                start_page <= p <= end_page + 1,
                self.buffers == old(self).buffers,
                self.table.computed_table@.len() == old(self).table.computed_table@.len(),
                forall|q: int|
                    0 <= q < self.table.computed_table@.len() && !(start_page <= q < p)
                        ==> self.table.computed_table@[q] == old(self).table.computed_table@[q],
                forall|q: int|
                    start_page <= q < p ==> page_entry_seq(
                        #[trigger] self.table.computed_table@[q],
                    ) == keep_entries(
                        page_entry_seq(old(self).table.computed_table@[q]),
                        low as int,
                        high as int,
                    ),
            decreases end_page + 1 - p,
        {
            let ghost table_before = self.table.computed_table@;
            let slot = self.table.computed_table.remove(p);
            let ghost old_es = page_entry_seq(slot);
            let new_slot: Option<Page> = match slot {
                None => {
                    proof {
                        assert(keep_entries(Seq::<MappingEntry>::empty(), low as int, high as int)
                            =~= Seq::<MappingEntry>::empty());
                    }
                    None
                },
                Some(Page::Single(prev)) => {
                    proof {
                        assert(seq![prev].drop_first() =~= Seq::<MappingEntry>::empty());
                        assert(keep_entries(Seq::<MappingEntry>::empty(), low as int, high as int)
                            =~= Seq::<MappingEntry>::empty());
                        assert(seq![prev][0] == prev);
                        if !entry_intersects(prev, low as int, high as int) {
                            assert(keep_entries(seq![prev], low as int, high as int) =~= seq![
                                prev,
                            ]);
                        }
                    }
                    if prev.low <= high && low <= prev.high {
                        None
                    } else {
                        Some(Page::Single(prev))
                    }
                },
                Some(Page::Multi(entries)) => {
                    let ghost full = entries@;
                    let mut kept: Vec<MappingEntry> = Vec::new();
                    let mut i: usize = 0;
                    proof {
                        assert(full.take(0) =~= Seq::<MappingEntry>::empty());
                    }
                    while i < entries.len()
                        invariant
                            i <= entries.len(),
                            entries@ == full,
                            kept@ == keep_entries(full.take(i as int), low as int, high as int),
                        decreases entries.len() - i,
                    {
                        let e = entries[i];
                        proof {
                            assert(full.take(i as int + 1) =~= full.take(i as int).push(full[
                                i as int
                            ]));
                            lemma_keep_entries_push(
                                full.take(i as int),
                                full[i as int],
                                low as int,
                                high as int,
                            );
                        }
                        if !(e.low <= high && low <= e.high) {
                            kept.push(e);
                        }
                        i = i + 1;
                    }
                    proof {
                        assert(full.take(entries@.len() as int) =~= full);
                    }
                    if kept.len() == 0 {
                        None
                    } else {
                        Some(Page::Multi(kept))
                    }
                },
            };
            let ghost new_slot_snapshot = new_slot;
            proof {
                assert(page_entry_seq(new_slot_snapshot) == keep_entries(
                    old_es,
                    low as int,
                    high as int,
                ));
            }
            self.table.computed_table.insert(p, new_slot);
            proof {
                assert(self.table.computed_table@ =~= table_before.update(
                    p as int,
                    new_slot_snapshot,
                ));
            }
            p = p + 1;
        }
        proof {
            assert forall|q: int|
                0 <= q < self.table.computed_table@.len() implies self.page_wf(
                page_entry_seq(#[trigger] self.table.computed_table@[q]),
            ) by {
                let es = page_entry_seq(self.table.computed_table@[q]);
                let old_es = page_entry_seq(old(self).table.computed_table@[q]);
                assert forall|i: int| 0 <= i < es.len() implies self.entry_wf(
                    #[trigger] es[i],
                ) by {
                    if start_page <= q <= end_page {
                        lemma_keep_entries_no_intersect(old_es, low as int, high as int);
                        let j = choose|j: int| 0 <= j < old_es.len() && old_es[j] == es[i];
                        assert(old(self).entry_wf(old_es[j]));
                    } else {
                        assert(es[i] == old_es[i]);
                        assert(old(self).entry_wf(old_es[i]));
                    }
                };
            };
        }
        Ok(())
    }

    /// How the result of one byte read feeds a word read: the byte value,
    /// or the first error.
    pub open spec fn spec_byte(self, addr: int) -> u8 {
        self.spec_read8(addr)->Ok_0
    }

    /// What a write at `addr` answers, determined by dispatch alone.
    pub open spec fn spec_write_result(self, addr: int) -> Result<(), MemoryOperationError> {
        match self.table.spec_resolve(addr, false) {
            None => Err(MemoryOperationError::Unmapped { address: addr as usize }),
            Some(e) => match e.target {
                PageTarget::Ram { .. } => Ok(()),
                PageTarget::Rom { .. } => Ok(()),
                PageTarget::MmioWrite { handler } => Err(
                    MemoryOperationError::Mmio { handler, address: addr as usize },
                ),
                PageTarget::MmioReadWrite { handler } => Err(
                    MemoryOperationError::Mmio { handler, address: addr as usize },
                ),
                PageTarget::MmioRead { .. } => Err(
                    MemoryOperationError::Unmapped { address: addr as usize },
                ),
            },
        }
    }

    /// Reads a two-byte little-endian value; fails with the first byte error.
    pub fn read_le_u16(&self, addr: Address) -> (r: Result<u16, MemoryOperationError>)
        requires
            self.wf(),
            addr + 1 <= usize::MAX,
        ensures
            self.spec_read8(addr as int) is Err ==> r == Err::<u16, MemoryOperationError>(
                self.spec_read8(addr as int)->Err_0,
            ),
            self.spec_read8(addr as int) is Ok && self.spec_read8(addr as int + 1) is Err ==> r
                == Err::<u16, MemoryOperationError>(self.spec_read8(addr as int + 1)->Err_0),
            self.spec_read8(addr as int) is Ok && self.spec_read8(addr as int + 1) is Ok ==> r
                == Ok::<u16, MemoryOperationError>(
                (self.spec_byte(addr as int) + 256 * self.spec_byte(addr as int + 1)) as u16,
            ),
    {
        let b0 = match self.read8(addr) {
            Ok(b) => b,
            Err(e) => {
                return Err(e);
            },
        };
        let b1 = match self.read8(addr + 1) {
            Ok(b) => b,
            Err(e) => {
                return Err(e);
            },
        };
        Ok((b0 as u16) + 256 * (b1 as u16))
    }

    /// Reads a four-byte little-endian value; fails with the first byte error.
    pub fn read_le_u32(&self, addr: Address) -> (r: Result<u32, MemoryOperationError>)
        requires
            self.wf(),
            addr + 3 <= usize::MAX,
        ensures
            r == (if self.spec_read8(addr as int) is Err {
                Err::<u32, MemoryOperationError>(self.spec_read8(addr as int)->Err_0)
            } else if self.spec_read8(addr as int + 1) is Err {
                Err::<u32, MemoryOperationError>(self.spec_read8(addr as int + 1)->Err_0)
            } else if self.spec_read8(addr as int + 2) is Err {
                Err::<u32, MemoryOperationError>(self.spec_read8(addr as int + 2)->Err_0)
            } else if self.spec_read8(addr as int + 3) is Err {
                Err::<u32, MemoryOperationError>(self.spec_read8(addr as int + 3)->Err_0)
            } else {
                Ok::<u32, MemoryOperationError>(
                    (self.spec_byte(addr as int) + 256 * self.spec_byte(addr as int + 1) + 0x1_0000
                        * self.spec_byte(addr as int + 2) + 0x100_0000 * self.spec_byte(
                        addr as int + 3,
                    )) as u32,
                )
            }),
    {
        let b0 = match self.read8(addr) {
            Ok(b) => b,
            Err(e) => {
                return Err(e);
            },
        };
        let b1 = match self.read8(addr + 1) {
            Ok(b) => b,
            Err(e) => {
                return Err(e);
            },
        };
        let b2 = match self.read8(addr + 2) {
            Ok(b) => b,
            Err(e) => {
                return Err(e);
            },
        };
        let b3 = match self.read8(addr + 3) {
            Ok(b) => b,
            Err(e) => {
                return Err(e);
            },
        };
        Ok((b0 as u32) + 256 * (b1 as u32) + 0x1_0000 * (b2 as u32) + 0x100_0000 * (b3 as u32))
    }

    /// Reads an eight-byte little-endian value; fails with the first byte error.
    pub fn read_le_u64(&self, addr: Address) -> (r: Result<u64, MemoryOperationError>)
        requires
            self.wf(),
            addr + 7 <= usize::MAX,
        ensures
            r == (if self.spec_read8(addr as int) is Err {
                Err::<u64, MemoryOperationError>(self.spec_read8(addr as int)->Err_0)
            } else if self.spec_read8(addr as int + 1) is Err {
                Err::<u64, MemoryOperationError>(self.spec_read8(addr as int + 1)->Err_0)
            } else if self.spec_read8(addr as int + 2) is Err {
                Err::<u64, MemoryOperationError>(self.spec_read8(addr as int + 2)->Err_0)
            } else if self.spec_read8(addr as int + 3) is Err {
                Err::<u64, MemoryOperationError>(self.spec_read8(addr as int + 3)->Err_0)
            } else if self.spec_read8(addr as int + 4) is Err {
                Err::<u64, MemoryOperationError>(self.spec_read8(addr as int + 4)->Err_0)
            } else if self.spec_read8(addr as int + 5) is Err {
                Err::<u64, MemoryOperationError>(self.spec_read8(addr as int + 5)->Err_0)
            } else if self.spec_read8(addr as int + 6) is Err {
                Err::<u64, MemoryOperationError>(self.spec_read8(addr as int + 6)->Err_0)
            } else if self.spec_read8(addr as int + 7) is Err {
                Err::<u64, MemoryOperationError>(self.spec_read8(addr as int + 7)->Err_0)
            } else {
                Ok::<u64, MemoryOperationError>(
                    (self.spec_byte(addr as int) + 256 * self.spec_byte(addr as int + 1) + 0x1_0000
                        * self.spec_byte(addr as int + 2) + 0x100_0000 * self.spec_byte(
                        addr as int + 3,
                    ) + 0x1_0000_0000 * self.spec_byte(addr as int + 4) + 0x100_0000_0000
                        * self.spec_byte(addr as int + 5) + 0x1_0000_0000_0000 * self.spec_byte(
                        addr as int + 6,
                    ) + 0x100_0000_0000_0000 * self.spec_byte(addr as int + 7)) as u64,
                )
            }),
    {
        let lo = match self.read_le_u32(addr) {
            Ok(v) => v,
            Err(e) => {
                return Err(e);
            },
        };
        let hi = match self.read_le_u32(addr + 4) {
            Ok(v) => v,
            Err(e) => {
                return Err(e);
            },
        };
        Ok((lo as u64) + 0x1_0000_0000 * (hi as u64))
    }

    /// Writes a two-byte little-endian value, one byte at a time, low byte
    /// first.  Every byte is attempted; the result is the first error.
    pub fn write_le_u16(&mut self, addr: Address, v: u16) -> (r: Result<(), MemoryOperationError>)
        requires
            old(self).wf(),
            addr + 1 <= usize::MAX,
        ensures
            final(self).wf(),
            final(self).table == old(self).table,
            r == (if old(self).spec_write_result(addr as int) is Err {
                old(self).spec_write_result(addr as int)
            } else {
                old(self).spec_write_result(addr as int + 1)
            }),
            exists|mid: AddressSpace|
                {
                    &&& #[trigger] AddressSpace::spec_wrote8(
                        *old(self),
                        mid,
                        addr as int,
                        (v % 256) as u8,
                        old(self).spec_write_result(addr as int),
                    )
                    &&& AddressSpace::spec_wrote8(
                        mid,
                        *final(self),
                        addr as int + 1,
                        (v / 256) as u8,
                        mid.spec_write_result(addr as int + 1),
                    )
                },
    {
        let r0 = self.write8(addr, (v % 256) as u8);
        let ghost mid = *self;
        let r1 = self.write8(addr + 1, (v / 256) as u8);
        proof {
            assert(r0 == old(self).spec_write_result(addr as int));
            assert(r1 == mid.spec_write_result(addr as int + 1));
            assert(mid.table == old(self).table);
            assert(AddressSpace::spec_wrote8(
                *old(self),
                mid,
                addr as int,
                (v % 256) as u8,
                old(self).spec_write_result(addr as int),
            ));
        }
        if r0.is_err() {
            r0
        } else {
            r1
        }
    }

    /// Writes a four-byte little-endian value as two word writes, low word
    /// first; every byte is attempted and the result is the first error.
    pub fn write_le_u32(&mut self, addr: Address, v: u32) -> (r: Result<(), MemoryOperationError>)
        requires
            old(self).wf(),
            addr + 3 <= usize::MAX,
        ensures
            final(self).wf(),
            final(self).table == old(self).table,
            r == (if old(self).spec_write_result(addr as int) is Err {
                old(self).spec_write_result(addr as int)
            } else if old(self).spec_write_result(addr as int + 1) is Err {
                old(self).spec_write_result(addr as int + 1)
            } else if old(self).spec_write_result(addr as int + 2) is Err {
                old(self).spec_write_result(addr as int + 2)
            } else {
                old(self).spec_write_result(addr as int + 3)
            }),
    {
        let r0 = self.write_le_u16(addr, (v % 0x1_0000) as u16);
        proof {
            assert(self.table == old(self).table);
        }
        let r1 = self.write_le_u16(addr + 2, (v / 0x1_0000) as u16);
        if r0.is_err() {
            r0
        } else {
            r1
        }
    }

    /// Writes an eight-byte little-endian value as two double-word writes,
    /// low first; every byte is attempted and the result is the first error.
    pub fn write_le_u64(&mut self, addr: Address, v: u64) -> (r: Result<(), MemoryOperationError>)
        requires
            old(self).wf(),
            addr + 7 <= usize::MAX,
        ensures
            final(self).wf(),
            final(self).table == old(self).table,
            r == (if old(self).spec_write_result(addr as int) is Err {
                old(self).spec_write_result(addr as int)
            } else if old(self).spec_write_result(addr as int + 1) is Err {
                old(self).spec_write_result(addr as int + 1)
            } else if old(self).spec_write_result(addr as int + 2) is Err {
                old(self).spec_write_result(addr as int + 2)
            } else if old(self).spec_write_result(addr as int + 3) is Err {
                old(self).spec_write_result(addr as int + 3)
            } else if old(self).spec_write_result(addr as int + 4) is Err {
                old(self).spec_write_result(addr as int + 4)
            } else if old(self).spec_write_result(addr as int + 5) is Err {
                old(self).spec_write_result(addr as int + 5)
            } else if old(self).spec_write_result(addr as int + 6) is Err {
                old(self).spec_write_result(addr as int + 6)
            } else {
                old(self).spec_write_result(addr as int + 7)
            }),
    {
        let r0 = self.write_le_u32(addr, (v % 0x1_0000_0000) as u32);
        proof {
            assert(self.table == old(self).table);
        }
        let r1 = self.write_le_u32(addr + 4, (v / 0x1_0000_0000) as u32);
        if r0.is_err() {
            r0
        } else {
            r1
        }
    }
}

/// An entry yielded by [`MemoryMappingTable::overlapping`].
#[derive(Clone, Copy, PartialEq, Eq, Structural, Debug)]
pub struct Item {
    /// The entry's own assigned range, not clipped to the queried one.
    pub range_low: Address,
    pub range_high: Address,
    /// The entry's target.
    pub target: PageTarget,
}

/// The entries still to be yielded, walking pages `page ..= end_page` and,
/// inside each page, the slot's entries from `entry` on, keeping those that
/// intersect `[low, high]`: `(page index, entry index)` order.
pub open spec fn iter_rest(
    t: MemoryMappingTable,
    low: int,
    high: int,
    page: int,
    entry: int,
    end_page: int,
) -> Seq<MappingEntry>
    decreases end_page + 1 - page, page_entry_seq(t.computed_table@[page]).len() + 1 - entry,
{
    if page < 0 || page > end_page || page >= t.computed_table@.len() || entry < 0 {
        Seq::empty()
    } else {
        let es = page_entry_seq(t.computed_table@[page]);
        if entry >= es.len() {
            iter_rest(t, low, high, page + 1, 0, end_page)
        } else if entry_intersects(es[entry], low, high) {
            seq![es[entry]] + iter_rest(t, low, high, page, entry + 1, end_page)
        } else {
            iter_rest(t, low, high, page, entry + 1, end_page)
        }
    }
}

/// Walks every mapping entry whose range intersects a queried range, page
/// by page, inside a page in insertion order.
pub struct OverlappingMappingsIter<'a> {
    pub table: &'a MemoryMappingTable,
    pub access_low: Address,
    pub access_high: Address,
    pub page_index: usize,
    pub end_page: usize,
    pub entry_index: usize,
}

impl<'a> OverlappingMappingsIter<'a> {
    /// The iterator's cursor stays inside the table.
    pub open spec fn wf(self) -> bool {
        &&& self.end_page < self.table.computed_table@.len()
        &&& self.end_page < usize::MAX
        &&& self.access_low <= self.access_high
    }

    /// The table being walked.
    pub open spec fn spec_table(self) -> MemoryMappingTable {
        *self.table
    }

    /// The entries this iterator will still yield, in order.
    pub open spec fn remaining(self) -> Seq<MappingEntry> {
        iter_rest(
            *self.table,
            self.access_low as int,
            self.access_high as int,
            self.page_index as int,
            self.entry_index as int,
            self.end_page as int,
        )
    }

    /// Yields the next intersecting entry, in `(page, entry)` order.
    pub fn next(&mut self) -> (r: Option<Item>)
        requires
            old(self).wf(),
        ensures
            final(self).wf(),
            final(self).spec_table() == old(self).spec_table(),
            match r {
                Some(item) => {
                    &&& old(self).remaining().len() > 0
                    &&& old(self).remaining()[0] == (MappingEntry {
                        low: item.range_low,
                        high: item.range_high,
                        target: item.target,
                    })
                    &&& final(self).remaining() == old(self).remaining().drop_first()
                },
                None => {
                    &&& old(self).remaining().len() == 0
                    &&& final(self).remaining().len() == 0
                },
            },
    {
        loop
            invariant
                self.wf(),
                self.table == old(self).table,
                self.access_low == old(self).access_low,
                self.access_high == old(self).access_high,
                self.remaining() == old(self).remaining(),
            decreases
                    self.end_page + 1 - self.page_index,
                    page_entry_seq(self.table.computed_table@[self.page_index as int]).len() + 1
                        - self.entry_index,
        {
            if self.page_index > self.end_page {
                return None;
            }
            let advance: bool;
            let mut found: Option<MappingEntry> = None;
            match &self.table.computed_table[self.page_index] {
                None => {
                    proof {
                        assert(page_entry_seq(
                            self.table.computed_table@[self.page_index as int],
                        ) =~= Seq::<MappingEntry>::empty());
                    }
                    advance = true;
                },
                Some(Page::Single(e)) => {
                    proof {
                        assert(page_entry_seq(
                            self.table.computed_table@[self.page_index as int],
                        ) =~= seq![*e]);
                    }
                    if self.entry_index == 0 {
                        if e.low <= self.access_high && self.access_low <= e.high {
                            found = Some(*e);
                            advance = false;
                        } else {
                            advance = false;
                        }
                        if found.is_none() {
                            self.entry_index = 1;
                        }
                    } else {
                        advance = true;
                    }
                },
                Some(Page::Multi(es)) => {
                    if self.entry_index < es.len() {
                        let e = es[self.entry_index];
                        if e.low <= self.access_high && self.access_low <= e.high {
                            found = Some(e);
                        } else {
                            self.entry_index = self.entry_index + 1;
                        }
                        advance = false;
                    } else {
                        advance = true;
                    }
                },
            }
            if let Some(e) = found {
                proof {
                    assert(self.remaining() =~= seq![e] + iter_rest(
                        *self.table,
                        self.access_low as int,
                        self.access_high as int,
                        self.page_index as int,
                        self.entry_index as int + 1,
                        self.end_page as int,
                    ));
                    assert(self.remaining().drop_first() =~= iter_rest(
                        *self.table,
                        self.access_low as int,
                        self.access_high as int,
                        self.page_index as int,
                        self.entry_index as int + 1,
                        self.end_page as int,
                    ));
                }
                self.entry_index = self.entry_index + 1;
                return Some(Item { range_low: e.low, range_high: e.high, target: e.target });
            }
            if advance {
                self.page_index = self.page_index + 1;
                self.entry_index = 0;
            }
        }
    }
}

impl MemoryMappingTable {
    /// Starts a walk over every entry intersecting `[low, high]`.
    pub fn overlapping<'a>(&'a self, low: Address, high: Address) -> (r: OverlappingMappingsIter<
        'a,
    >)
        requires
            low <= high,
            high as int / (PAGE_SIZE as int) < self.computed_table@.len(),
        ensures
            r.wf(),
            r.spec_table() == *self,
            r.remaining() == iter_rest(
                *self,
                low as int,
                high as int,
                low as int / (PAGE_SIZE as int),
                0,
                high as int / (PAGE_SIZE as int),
            ),
    {
        let start_page: usize = low / PAGE_SIZE;
        let end_page: usize = high / PAGE_SIZE;
        OverlappingMappingsIter {
            table: self,
            access_low: low,
            access_high: high,
            page_index: start_page,
            end_page,
            entry_index: 0,
        }
    }
}

/// After one mapping call, dispatch is unchanged wherever it already
/// succeeded — earlier mappings keep precedence — and the new entry now
/// serves exactly the addresses of its range that nothing served before,
/// in the directions its target can serve.
pub proof fn lemma_resolve_after_mapping(
    pre: AddressSpace,
    post: AddressSpace,
    e: MappingEntry,
    addr: int,
    want_read: bool,
)
    requires
        AddressSpace::spec_mapped(pre, post, e),
        e.low <= e.high,
        e.high as int / (PAGE_SIZE as int) < pre.table.computed_table@.len(),
    ensures
        post.table.spec_resolve(addr, want_read) == (match pre.table.spec_resolve(
            addr,
            want_read,
        ) {
            Some(m) => Some(m),
            None => if 0 <= addr && addr / (PAGE_SIZE as int)
                < pre.table.computed_table@.len() && entry_contains(e, addr) && (if want_read {
                read_capable(e.target)
            } else {
                write_capable(e.target)
            }) {
                Some(e)
            } else {
                None
            },
        }),
{
    if 0 <= addr && addr / (PAGE_SIZE as int) < pre.table.computed_table@.len() {
        let p = addr / (PAGE_SIZE as int);
        vstd::arithmetic::div_mod::lemma_div_is_ordered(e.low as int, e.high as int, PAGE_SIZE as int);
        if e.low as int / (PAGE_SIZE as int) <= p <= e.high as int / (PAGE_SIZE as int) {
            lemma_first_match_push(
                page_entry_seq(pre.table.computed_table@[p]),
                e,
                addr,
                want_read,
            );
        } else {
            assert(post.table.computed_table@[p] == pre.table.computed_table@[p]);
            if entry_contains(e, addr) {
                vstd::arithmetic::div_mod::lemma_div_is_ordered(e.low as int, addr, PAGE_SIZE as int);
                vstd::arithmetic::div_mod::lemma_div_is_ordered(addr, e.high as int, PAGE_SIZE as int);
            }
        }
    }
}

/// Writing a byte to RAM and reading it back returns that byte, whenever
/// reads and writes at the address dispatch to the same RAM entry.
pub proof fn lemma_write_read_round_trip(
    pre: AddressSpace,
    post: AddressSpace,
    addr: int,
    v: u8,
    r: Result<(), MemoryOperationError>,
)
    requires
        pre.wf(),
        AddressSpace::spec_wrote8(pre, post, addr, v, r),
        pre.table.spec_resolve(addr, false) is Some,
        pre.table.spec_resolve(addr, false).unwrap().target is Ram,
        pre.table.spec_resolve(addr, true) == pre.table.spec_resolve(addr, false),
    ensures
        r == (Ok::<(), MemoryOperationError>(())),
        post.spec_read8(addr) == (Ok::<u8, MemoryOperationError>(v)),
{
    pre.lemma_resolved_entry_wf(addr, false);
}

/// A consistent cache never changes what an address resolves to: a hit on
/// the cached range yields exactly the entry an uncached walk would find,
/// so reads and writes through a cache return what the uncached ones do.
pub proof fn lemma_cache_transparent(
    space: AddressSpace,
    cache: AddressSpaceCache,
    addr: int,
)
    requires
        cache.consistent_with(space.table),
        cache.slot is Some,
        cache.slot.unwrap().low <= addr <= cache.slot.unwrap().high,
    ensures
        read_capable(cache.slot.unwrap().entry.target) ==> space.table.spec_resolve(addr, true)
            == Some(cache.slot.unwrap().entry),
        write_capable(cache.slot.unwrap().entry.target) ==> space.table.spec_resolve(addr, false)
            == Some(cache.slot.unwrap().entry),
{
}

} // verus!
