//! The free registry's exact-fit search: a spec-level description of the
//! first record whose size matches a request, and the executable scan that
//! implements it.

use vstd::prelude::*;

verus! {

/// The index of the first record in `blocks` whose recorded size equals
/// `size` exactly, or `None` when no record matches.
pub open spec fn find_exact(blocks: Seq<(usize, usize)>, size: usize) -> Option<int>
    decreases blocks.len(),
{
    if blocks.len() == 0 {
        None
    } else if blocks[0].1 == size {
        Some(0int)
    } else {
        match find_exact(blocks.drop_first(), size) {
            Some(i) => Some(i + 1),
            None => None,
        }
    }
}

/// `find_exact` returns the first matching index: a `Some(i)` points at a
/// record of the requested size with no match before it, and `None` means no
/// record matches at all.
pub proof fn lemma_find_exact_characterizes(blocks: Seq<(usize, usize)>, size: usize)
    ensures
        match find_exact(blocks, size) {
            Some(i) => {
                &&& 0 <= i < blocks.len()
                &&& blocks[i].1 == size
                &&& forall|j: int| 0 <= j < i ==> blocks[j].1 != size
            },
            None => forall|j: int| 0 <= j < blocks.len() ==> blocks[j].1 != size,
        },
    decreases blocks.len(),
{
    if blocks.len() == 0 {
    } else if blocks[0].1 == size {
    } else {
        lemma_find_exact_characterizes(blocks.drop_first(), size);
        match find_exact(blocks.drop_first(), size) {
            Some(i) => {
                assert(forall|j: int|
                    1 <= j < i + 1 ==> blocks[j].1 == blocks.drop_first()[j - 1].1);
            },
            None => {
                assert(forall|j: int|
                    1 <= j < blocks.len() ==> blocks[j].1 == blocks.drop_first()[j - 1].1);
            },
        }
    }
}

/// Linear scan for the first record whose size equals `size`, as
/// `find_exact` describes it.
pub fn scan_exact(blocks: &Vec<(usize, usize)>, size: usize) -> (r: Option<usize>)
    ensures
        match r {
            Some(i) => {
                &&& find_exact(blocks@, size) == Some(i as int)
                &&& i < blocks@.len()
                &&& blocks@[i as int].1 == size
            },
            None => find_exact(blocks@, size) is None,
        },
{
    let mut i: usize = 0;
    while i < blocks.len()
        invariant
            i <= blocks@.len(),
            forall|j: int| 0 <= j < i ==> blocks@[j].1 != size,
        decreases blocks@.len() - i,
    {
        if blocks[i].1 == size {
            proof {
                lemma_find_exact_characterizes(blocks@, size);
            }
            return Some(i);
        }
        i += 1;
    }
    proof {
        lemma_find_exact_characterizes(blocks@, size);
    }
    None
}

} // verus!
