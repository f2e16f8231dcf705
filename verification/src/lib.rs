//! A fixed-region, byte-granularity allocator combining a bump region with a
//! bounded registry of released blocks that are reused on an exact size match.

use vstd::prelude::*;

pub mod laws;
pub mod registry;

verus! {

/// The only failure an allocation can report: the bump region cannot hold the
/// request and no released block matches it exactly.
#[derive(Clone, Copy, PartialEq, Eq, Structural, Debug)]
pub enum AllocError {
    NoMemory,
}

/// How many released blocks the free registry can remember at once. Blocks
/// released while the registry is full are leaked for good.
pub const REGISTRY_CAPACITY: usize = 2048;

/// A bump allocator over one contiguous extent, with a bounded free registry
/// of `(address, size)` records for exact-size reuse.
pub struct LabByteAllocator {
    heap_start: usize,
    heap_end: usize,
    next: usize,
    free_blocks: Vec<(usize, usize)>,
}

impl LabByteAllocator {
    /// First usable address of the managed extent.
    pub closed spec fn heap_start(&self) -> int {
        self.heap_start as int
    }

    /// Exclusive upper bound of the managed extent.
    pub closed spec fn heap_end(&self) -> int {
        self.heap_end as int
    }

    /// The bump cursor: boundary between bump-allocated space and space never
    /// yet handed out.
    pub closed spec fn cursor(&self) -> int {
        self.next as int
    }

    /// The free registry's records, in insertion order.
    pub closed spec fn registry(&self) -> Seq<(usize, usize)> {
        self.free_blocks@
    }

    /// The extent invariant: the cursor stays inside the extent and the
    /// registry stays within its capacity.
    pub open spec fn wf(&self) -> bool {
        &&& self.heap_start() <= self.cursor() <= self.heap_end()
        &&& self.registry().len() <= REGISTRY_CAPACITY
    }

    /// Bytes the extent spans in total.
    pub open spec fn total_spec(&self) -> int {
        self.heap_end() - self.heap_start()
    }

    /// Bytes consumed through the bump path. Space released to the registry
    /// still counts here, and registry-satisfied allocations add nothing.
    pub open spec fn used_spec(&self) -> int {
        self.cursor() - self.heap_start()
    }

    /// Bytes still available to the bump path; registry records add nothing.
    pub open spec fn available_spec(&self) -> int {
        self.heap_end() - self.cursor()
    }

    /// A successful allocation served from the free registry: the first
    /// record whose size equals the request exactly hands over its address
    /// and leaves the registry; the bump cursor and the extent do not move.
    pub open spec fn exact_fit_step(pre: Self, post: Self, size: usize, addr: usize) -> bool {
        match crate::registry::find_exact(pre.registry(), size) {
            Some(i) => {
                &&& addr == pre.registry()[i].0
                &&& post.registry() == pre.registry().remove(i)
                &&& post.heap_start() == pre.heap_start()
                &&& post.heap_end() == pre.heap_end()
                &&& post.cursor() == pre.cursor()
            },
            None => false,
        }
    }

    /// A successful allocation served from the bump region: no registry
    /// record matches, the padded request fits below the extent's end, the
    /// old cursor is handed out, and the cursor advances past the pad byte.
    pub open spec fn bump_step(pre: Self, post: Self, size: usize, addr: usize) -> bool {
        &&& crate::registry::find_exact(pre.registry(), size) is None
        &&& pre.cursor() + size + 1 <= pre.heap_end()
        &&& addr == pre.cursor()
        &&& post.cursor() == pre.cursor() + size + 1
        &&& post.heap_start() == pre.heap_start()
        &&& post.heap_end() == pre.heap_end()
        &&& post.registry() == pre.registry()
    }

    /// When an allocation is out of memory: no registry record matches the
    /// request and the padded request does not fit below the extent's end.
    pub open spec fn alloc_fails(pre: Self, size: usize) -> bool {
        &&& crate::registry::find_exact(pre.registry(), size) is None
        &&& pre.cursor() + size + 1 > pre.heap_end()
    }

    /// Everything `allocate` does, as a relation between the state before the
    /// call, the state after it, the requested size and the outcome. Exactly
    /// one of the three steps applies to any given state and request.
    pub open spec fn alloc_spec(pre: Self, post: Self, size: usize, r: Result<
        usize,
        AllocError,
    >) -> bool {
        match r {
            Ok(addr) => Self::exact_fit_step(pre, post, size, addr) || Self::bump_step(
                pre,
                post,
                size,
                addr,
            ),
            Err(e) => {
                &&& e == AllocError::NoMemory
                &&& Self::alloc_fails(pre, size)
                &&& post == pre
            },
        }
    }

    /// A release the registry had room for: the padded record is appended
    /// and nothing else changes.
    pub open spec fn release_recorded(pre: Self, post: Self, addr: usize, size: usize) -> bool {
        &&& post.registry() == pre.registry().push((addr, (size + 1) as usize))
        &&& post.heap_start() == pre.heap_start()
        &&& post.heap_end() == pre.heap_end()
        &&& post.cursor() == pre.cursor()
    }

    /// An allocator with an empty extent and an empty registry; unusable
    /// until `init` is called.
    pub fn new() -> (r: Self)
        ensures
            r.wf(),
            r.heap_start() == 0,
            r.heap_end() == 0,
            r.cursor() == 0,
            r.registry() =~= Seq::<(usize, usize)>::empty(),
    {
        Self {
            heap_start: 0,
            heap_end: 0,
            next: 0,
            free_blocks: Vec::new(),
        }
    }

    /// (Re)initializes the managed extent to `[start, start + size)`, resets
    /// the bump cursor to `start` and clears the free registry. Calling it
    /// again discards all outstanding allocation state.
    pub fn init(&mut self, start: usize, size: usize)
        requires
            start + size <= usize::MAX,
        ensures
            final(self).wf(),
            final(self).heap_start() == start,
            final(self).heap_end() == start + size,
            final(self).cursor() == start,
            final(self).registry() =~= Seq::<(usize, usize)>::empty(),
            final(self).total_spec() == size,
            final(self).used_spec() == 0,
            final(self).available_spec() == size,
    {
        self.heap_start = start;
        self.heap_end = start + size;
        self.next = start;
        self.free_blocks.clear();
    }

    /// Moves the extent's upper bound to `start + size`; the lower bound,
    /// the cursor and the registry stay put, and the call always succeeds.
    /// The new bound must not fall below the bump cursor: the extent is
    /// assumed to abut the old one at a higher address, and nothing here
    /// checks that the two are contiguous or disjoint.
    pub fn add_memory(&mut self, start: usize, size: usize) -> (r: Result<(), AllocError>)
        requires
            old(self).wf(),
            start + size <= usize::MAX,
            old(self).cursor() <= start + size,
        ensures
            final(self).wf(),
            r == Ok::<(), AllocError>(()),
            final(self).heap_start() == old(self).heap_start(),
            final(self).heap_end() == start + size,
            final(self).cursor() == old(self).cursor(),
            final(self).registry() == old(self).registry(),
    {
        self.heap_end = start + size;
        Ok(())
    }

    /// Requests a block able to hold `size` bytes: first a linear scan of
    /// the registry for a record whose size equals `size` exactly, then the
    /// bump region, whose cursor advances by the padded size `size + 1`.
    /// The request fails with `NoMemory` exactly when neither applies.
    /// `align` is accepted but not enforced: returned addresses are not
    /// rounded up for it.
    #[allow(unused_variables)]
    pub fn allocate(&mut self, size: usize, align: usize) -> (r: Result<usize, AllocError>)
        requires
            old(self).wf(),
            size < usize::MAX,
        ensures
            final(self).wf(),
            Self::alloc_spec(*old(self), *final(self), size, r),
    {
        let adjusted_size = size + 1;
        match crate::registry::scan_exact(&self.free_blocks, size) {
            Some(i) => {
                let found = self.free_blocks[i].0;
                self.free_blocks.remove(i);
                Ok(found)
            },
            None => {
                if adjusted_size > self.heap_end - self.next {
                    return Err(AllocError::NoMemory);
                }
                let found = self.next;
                self.next = self.next + adjusted_size;
                Ok(found)
            },
        }
    }

    /// Returns a block to the registry as the padded record
    /// `(addr, size + 1)`. A release that finds the registry full changes
    /// nothing: the block is dropped silently and its space is leaked for
    /// good. Nothing checks that the block was ever allocated, that it is
    /// not released twice, or that `size` matches the original request:
    /// that discipline is the caller's.
    pub fn dealloc(&mut self, addr: usize, size: usize)
        requires
            old(self).wf(),
            size < usize::MAX,
        ensures
            final(self).wf(),
            old(self).registry().len() < REGISTRY_CAPACITY ==> Self::release_recorded(
                *old(self),
                *final(self),
                addr,
                size,
            ),
            old(self).registry().len() >= REGISTRY_CAPACITY ==> *final(self) == *old(self),
    {
        let adjusted_size = size + 1;
        if self.free_blocks.len() >= REGISTRY_CAPACITY {
            return;
        }
        self.free_blocks.push((addr, adjusted_size));
    }

    /// Bytes the extent spans in total: its upper bound minus its lower.
    pub fn total_bytes(&self) -> (r: usize)
        requires
            self.wf(),
        ensures
            r == self.total_spec(),
    {
        self.heap_end - self.heap_start
    }

    /// Bytes consumed through the bump path: the cursor minus the extent's
    /// lower bound. Released blocks still count; registry reuse adds nothing.
    pub fn used_bytes(&self) -> (r: usize)
        requires
            self.wf(),
        ensures
            r == self.used_spec(),
    {
        self.next - self.heap_start
    }

    /// The bump cursor's current address: the next bump-path allocation,
    /// if it succeeds, begins here.
    pub fn bump_cursor(&self) -> (r: usize)
        ensures
            r == self.cursor(),
    {
        self.next
    }

    /// Bytes the bump path can still hand out: the extent's upper bound
    /// minus the cursor.
    pub fn available_bytes(&self) -> (r: usize)
        requires
            self.wf(),
        ensures
            r == self.available_spec(),
    {
        self.heap_end - self.next
    }
}

} // verus!
