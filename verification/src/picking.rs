//! Picking in the scene viewport: what a click hit, front to back, and the
//! cycling that lets repeated clicks on one spot reach the entities behind
//! the front one. (Bounds tests and the depth sort are floating-point
//! geometry the host runs; it hands the sorted hits in.)

use vstd::prelude::*;

use crate::entity::EntityId;

verus! {

/// Result of a pick operation.
#[derive(Debug, Clone)]
pub struct PickResult {
    /// Entities hit by the pick, front to back.
    pub hits: Vec<EntityId>,
}

impl PickResult {
    /// The topmost (front) entity hit.
    pub fn topmost(&self) -> (top: Option<EntityId>)
        ensures
            top == (if self.hits@.len() > 0 {
                Some(self.hits@[0])
            } else {
                None
            }),
    {
        if self.hits.len() > 0 {
            Some(self.hits[0])
        } else {
            None
        }
    }

    /// Whether any entities were hit.
    pub fn is_empty(&self) -> (empty: bool)
        ensures
            empty == (self.hits@.len() == 0),
    {
        self.hits.len() == 0
    }

    /// Number of entities hit.
    pub fn len(&self) -> (n: usize)
        ensures
            n == self.hits@.len(),
    {
        self.hits.len()
    }
}

impl Default for PickResult {
    fn default() -> (r: Self)
        ensures
            r.hits@.len() == 0,
    {
        PickResult { hits: Vec::new() }
    }
}

/// `hits` turned so that position `k` comes first.
pub open spec fn rotated(hits: Seq<EntityId>, k: int) -> Seq<EntityId> {
    hits.skip(k) + hits.take(k)
}

/// Which of the entities under a repeatedly clicked spot comes first.
#[derive(Debug, Clone)]
pub struct PickCycle {
    cycle_index: usize,
}

impl PickCycle {
    /// The position the last pick put first.
    pub closed spec fn index(&self) -> nat {
        self.cycle_index as nat
    }

    /// A cycle at its start.
    pub fn new() -> (c: Self)
        ensures
            c.index() == 0,
    {
        PickCycle { cycle_index: 0 }
    }

    /// Order one pick's hits (front to back). A click on the spot of the
    /// last one (`same_position`) with more than one hit steps the cycle
    /// and puts the next entity behind first, wrapping round; any other
    /// click restarts the cycle and keeps the front-to-back order.
    pub fn pick(&mut self, hits: Vec<EntityId>, same_position: bool) -> (result: PickResult)
        ensures
            same_position && hits@.len() > 1 ==> {
                &&& final(self).index() == (old(self).index() + 1) % (hits@.len() as nat)
                &&& result.hits@ == rotated(hits@, final(self).index() as int)
            },
            !(same_position && hits@.len() > 1) ==> {
                &&& final(self).index() == 0
                &&& result.hits@ == hits@
            },
    {
        let n = hits.len();
        if same_position && n > 1 {
            self.cycle_index = ((self.cycle_index as u128 + 1) % (n as u128)) as usize;
            let k = self.cycle_index;
            let mut cycled: Vec<EntityId> = Vec::new();
            let mut i: usize = 0;
            while i < n
                invariant
                    n == hits@.len(),
                    k < n,
                    i <= n,
                    cycled@ =~= rotated(hits@, k as int).take(i as int),
                decreases n - i,
            {
                let src = if i < n - k { k + i } else { i - (n - k) };
                cycled.push(hits[src]);
                i = i + 1;
            }
            assert(rotated(hits@, k as int).take(n as int) =~= rotated(hits@, k as int));
            PickResult { hits: cycled }
        } else {
            self.cycle_index = 0;
            PickResult { hits }
        }
    }

    /// Restart the cycle (the selection changed).
    pub fn reset_cycle(&mut self)
        ensures
            final(self).index() == 0,
    {
        self.cycle_index = 0;
    }
}

impl Default for PickCycle {
    fn default() -> (c: Self)
        ensures
            c.index() == 0,
    {
        PickCycle::new()
    }
}

/// Cycling only reorders: a cycled pick holds exactly the entities hit, as
/// many times each.
pub proof fn lemma_rotation_keeps_hits(hits: Seq<EntityId>, k: int)
    requires
        0 <= k <= hits.len(),
    ensures
        rotated(hits, k).to_multiset() == hits.to_multiset(),
        rotated(hits, k).len() == hits.len(),
{
    assert(hits.take(k) + hits.skip(k) =~= hits);
    vstd::seq_lib::lemma_seq_union_to_multiset_commutative(hits.skip(k), hits.take(k));
}

/// The cycle position after `k` repeat clicks from position `i` on a
/// stack of `n` hits.
pub open spec fn cycle_after(i: nat, n: nat, k: nat) -> nat
    decreases k,
{
    if k == 0 {
        i
    } else {
        (cycle_after(i, n, (k - 1) as nat) + 1) % n
    }
}

/// Repeat clicks walk down the stack one entity at a time, wrapping round:
/// after `k` of them the position is `k` further on, and after as many
/// clicks as there are hits the stack is back where it started.
pub proof fn lemma_cycle_wraps_round(i: nat, n: nat, k: nat)
    requires
        i < n,
    ensures
        cycle_after(i, n, k) == ((i + k) as int) % (n as int),
        cycle_after(i, n, n) == i,
{
    lemma_cycle_after_mod(i, n, k);
    lemma_cycle_wraps_round_full(i, n);
}

/// After as many repeat clicks as there are hits, the stack is back where
/// it started.
proof fn lemma_cycle_wraps_round_full(i: nat, n: nat)
    requires
        i < n,
    ensures
        cycle_after(i, n, n) == i,
{
    lemma_cycle_after_mod(i, n, n);
    vstd::arithmetic::div_mod::lemma_mod_add_multiples_vanish(i as int, n as int);
    vstd::arithmetic::div_mod::lemma_small_mod(i, n);
}

/// `cycle_after` counts modulo the stack.
proof fn lemma_cycle_after_mod(i: nat, n: nat, k: nat)
    requires
        i < n,
    ensures
        cycle_after(i, n, k) == ((i + k) as int) % (n as int),
    decreases k,
{
    if k == 0 {
        vstd::arithmetic::div_mod::lemma_small_mod(i, n);
    } else {
        lemma_cycle_after_mod(i, n, (k - 1) as nat);
        vstd::arithmetic::div_mod::lemma_add_mod_noop(i + k - 1, 1, n as int);
        if n > 1 {
            vstd::arithmetic::div_mod::lemma_small_mod(1, n);
        }
    }
}

} // verus!
