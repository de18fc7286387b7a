//! The pool of identifiers that can still be drawn.
//!
//! A pool is a sequence without repetitions. Its order carries no meaning: an
//! identifier leaves the pool by having the last one moved into its place.

use std::collections::HashSet;
use vstd::prelude::*;

verus! {

broadcast use vstd::std_specs::hash::group_hash_axioms;

/// How many identifiers a fresh pool holds.
pub const POOL_SIZE: u32 = 10000;

/// The fresh pool: the identifiers 1 to [`POOL_SIZE`], in rising order.
pub open spec fn initial_pool() -> Seq<u32> {
    Seq::new(POOL_SIZE as nat, |i: int| (i + 1) as u32)
}

/// The pool after the identifier at `index` has left it: the last identifier
/// takes the vacated place and the pool is one shorter.
pub open spec fn pool_without(pool: Seq<u32>, index: int) -> Seq<u32>
    recommends
        0 <= index < pool.len(),
{
    pool.update(index, pool.last()).drop_last()
}

/// Taking one identifier out of a pool without repetitions leaves a pool
/// without repetitions that holds every other identifier, and not that one.
pub proof fn lemma_pool_without(pool: Seq<u32>, index: int)
    requires
        pool.no_duplicates(),
        0 <= index < pool.len(),
    ensures
        pool_without(pool, index).len() == pool.len() - 1,
        pool_without(pool, index).no_duplicates(),
        forall|id: u32|
            pool_without(pool, index).contains(id) <==> (pool.contains(id) && id != pool[index]),
{
    let rest = pool_without(pool, index);
    let last = pool.len() - 1;
    assert forall|id: u32| rest.contains(id) <==> (pool.contains(id) && id != pool[index]) by {
        if rest.contains(id) {
            let k = choose|k: int| 0 <= k < rest.len() && rest[k] == id;
            if k == index {
                assert(pool[last] == id);
            } else {
                assert(pool[k] == id);
            }
        }
        if pool.contains(id) && id != pool[index] {
            let k = choose|k: int| 0 <= k < pool.len() && pool[k] == id;
            if k == last {
                assert(rest[index] == id);
            } else {
                assert(rest[k] == id);
            }
        }
    }
}

/// The fresh pool has no repetitions and holds exactly the identifiers from 1
/// to [`POOL_SIZE`].
pub proof fn lemma_initial_pool()
    ensures
        initial_pool().len() == POOL_SIZE,
        initial_pool().no_duplicates(),
        forall|id: u32| initial_pool().contains(id) <==> 1 <= id <= POOL_SIZE,
{
    let pool = initial_pool();
    assert forall|id: u32| pool.contains(id) <==> 1 <= id <= POOL_SIZE by {
        if 1 <= id <= POOL_SIZE {
            assert(pool[id - 1] == id);
        }
    }
}

/// Builds the fresh pool.
pub fn new_pool() -> (pool: Vec<u32>)
    ensures
        pool@ == initial_pool(),
{
    let mut pool: Vec<u32> = Vec::new();
    let mut id: u32 = 1;
    while id <= POOL_SIZE
        invariant
            1 <= id <= POOL_SIZE + 1,
            pool@.len() == id - 1,
            forall|i: int| 0 <= i < pool@.len() ==> pool@[i] == i + 1,
        decreases POOL_SIZE + 1 - id,
    {
        pool.push(id);
        id += 1;
    }
    assert(pool@ =~= initial_pool());
    pool
}

/// Tells whether no identifier occurs twice in `ids`.
pub fn has_no_duplicates(ids: &Vec<u32>) -> (unique: bool)
    ensures
        unique == ids@.no_duplicates(),
{
    let mut seen: HashSet<u32> = HashSet::new();
    let mut i: usize = 0;
    while i < ids.len()
        invariant
            i <= ids.len(),
            forall|id: u32| seen@.contains(id) <==> exists|j: int| 0 <= j < i && ids@[j] == id,
            forall|a: int, b: int| 0 <= a < b < i ==> ids@[a] != ids@[b],
        decreases ids.len() - i,
    {
        let fresh = seen.insert(ids[i]);
        if !fresh {
            proof {
                let j = choose|j: int| 0 <= j < i && ids@[j] == ids@[i as int];
                assert(ids@[j] == ids@[i as int] && j != i);
            }
            return false;
        }
        i += 1;
    }
    true
}

} // verus!
