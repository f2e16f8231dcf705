//! Laws of the allocator: properties that hold over whole sequences of
//! operations, proved from the operations' contracts alone.

use vstd::prelude::*;

use crate::registry::find_exact;
use crate::registry::lemma_find_exact_characterizes;
use crate::AllocError;
use crate::LabByteAllocator;

verus! {

/// The three byte queries always agree: the extent's total is exactly what
/// the bump path has consumed plus what it can still hand out, whatever
/// operations came before.
pub proof fn lemma_query_consistency(a: LabByteAllocator)
    requires
        a.wf(),
    ensures
        a.total_spec() == a.used_spec() + a.available_spec(),
{
}

/// Consecutive bump-path allocations return strictly increasing addresses:
/// the second block begins past the whole padded range of the first, so the
/// two ranges never overlap, and each padded range ends inside the extent.
pub proof fn lemma_bump_monotonic(
    s0: LabByteAllocator,
    s1: LabByteAllocator,
    s2: LabByteAllocator,
    size1: usize,
    size2: usize,
    a1: usize,
    a2: usize,
)
    requires
        s0.wf(),
        LabByteAllocator::bump_step(s0, s1, size1, a1),
        LabByteAllocator::bump_step(s1, s2, size2, a2),
    ensures
        a1 < a2,
        a1 + size1 < a2,
        s0.heap_start() <= a1,
        a1 + size1 + 1 <= s1.heap_end(),
        a2 + size2 + 1 <= s2.heap_end(),
{
}

/// Exact-fit reuse: after a release recorded as `(a, k + 1)` into a registry
/// holding no other record of that size, an allocation requesting `k + 1`
/// returns the released address `a` itself, puts the registry back as it
/// was, and does not move the bump cursor.
pub proof fn lemma_exact_fit_reuse(
    s1: LabByteAllocator,
    s2: LabByteAllocator,
    s3: LabByteAllocator,
    k: usize,
    a: usize,
    r: Result<usize, AllocError>,
)
    requires
        k + 1 < usize::MAX,
        LabByteAllocator::release_recorded(s1, s2, a, k),
        forall|j: int| 0 <= j < s1.registry().len() ==> s1.registry()[j].1 != k + 1,
        LabByteAllocator::alloc_spec(s2, s3, (k + 1) as usize, r),
    ensures
        r == Ok::<usize, AllocError>(a),
        s3.cursor() == s1.cursor(),
        s3.used_spec() == s1.used_spec(),
        s3.registry() =~= s1.registry(),
{
    let n = s1.registry().len() as int;
    let req = (k + 1) as usize;
    lemma_find_exact_characterizes(s2.registry(), req);
    assert(s2.registry()[n].1 == req);
    match find_exact(s2.registry(), req) {
        Some(i) => {
            assert(i == n) by {
                if i < n {
                    assert(s2.registry()[i] == s1.registry()[i]);
                }
            }
            assert(s3.registry() =~= s1.registry());
        },
        None => {
            assert(false);
        },
    }
}

/// Out-of-memory boundary: with nothing in the registry, a request whose
/// padded size exceeds the available bytes fails with `NoMemory` and leaves
/// the allocator, and so every query, exactly as it was.
pub proof fn lemma_oom_boundary(
    pre: LabByteAllocator,
    post: LabByteAllocator,
    size: usize,
    r: Result<usize, AllocError>,
)
    requires
        pre.registry().len() == 0,
        size + 1 > pre.available_spec(),
        LabByteAllocator::alloc_spec(pre, post, size, r),
    ensures
        r == Err::<usize, AllocError>(AllocError::NoMemory),
        post == pre,
        post.total_spec() == pre.total_spec(),
        post.used_spec() == pre.used_spec(),
        post.available_spec() == pre.available_spec(),
{
    lemma_find_exact_characterizes(pre.registry(), size);
}

/// A leaked block stays leaked: an address that sits in no registry record
/// and lies below the bump cursor is returned by no allocation, whichever
/// path the allocation takes.
pub proof fn lemma_leaked_block_stays_leaked(
    pre: LabByteAllocator,
    post: LabByteAllocator,
    size: usize,
    addr: usize,
    a: usize,
)
    requires
        LabByteAllocator::alloc_spec(pre, post, size, Ok(addr)),
        forall|j: int| 0 <= j < pre.registry().len() ==> pre.registry()[j].0 != a,
        a < pre.cursor(),
    ensures
        addr != a,
{
    lemma_find_exact_characterizes(pre.registry(), size);
}

} // verus!
