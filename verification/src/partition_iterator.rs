//! Round-robin selection over a station's partition list, and the proof that
//! the selection is fair: over any whole number of rounds, every position of
//! the list is picked the same number of times.

use vstd::prelude::*;
use vstd::arithmetic::div_mod::{
    lemma_add_mod_noop, lemma_mod_add_multiples_vanish, lemma_mod_bound, lemma_mod_equivalence,
    lemma_mod_self_0, lemma_mod_twice, lemma_small_mod,
};

verus! {

/// Round-robin iterator over a station's partition list. Each call of `next`
/// advances the cursor one step and wraps around, in broker-declared order.
pub struct PartitionIterator {
    partitions: Vec<u32>,
    index: usize,
}

impl PartitionIterator {
    /// The partition list, in broker order.
    pub closed spec fn list(&self) -> Seq<u32> {
        self.partitions@
    }

    /// The list position the previous `next` handed out.
    pub closed spec fn cursor(&self) -> int {
        self.index as int
    }

    /// The cursor stays inside the list; it rests at zero while the list is
    /// empty.
    pub closed spec fn wf(&self) -> bool {
        if self.partitions@.len() == 0 {
            self.index == 0
        } else {
            (self.index as int) < self.partitions@.len()
        }
    }

    /// The partition position picked by the `k`-th call after the cursor
    /// stood at `cur`.
    pub open spec fn position_at(len: int, cur: int, k: int) -> int
        recommends
            len > 0,
    {
        (cur + 1 + k) % len
    }

    pub fn new(partitions: Vec<u32>) -> (it: Self)
        ensures
            it.list() == partitions@,
            it.cursor() == 0,
            it.wf(),
    {
        PartitionIterator { partitions, index: 0 }
    }

    /// Advances the cursor and returns the partition there; `None` on an
    /// empty list.
    pub fn next(&mut self) -> (r: Option<u32>)
        requires
            old(self).wf(),
        ensures
            final(self).wf(),
            final(self).list() == old(self).list(),
            old(self).list().len() == 0 ==> r is None && final(self).cursor() == old(self).cursor(),
            old(self).list().len() > 0 ==> {
                let len = old(self).list().len() as int;
                &&& final(self).cursor() == Self::position_at(len, old(self).cursor(), 0)
                &&& r == Some(old(self).list()[Self::position_at(len, old(self).cursor(), 0)])
            },
    {
        let len = self.partitions.len();
        if len == 0 {
            return None;
        }
        let ni = if self.index >= len - 1 {
            0
        } else {
            self.index + 1
        };
        proof {
            if self.index >= len - 1 {
                assert(self.index == len - 1);
                lemma_mod_self_0(len as int);
            } else {
                lemma_small_mod((self.index + 1) as nat, len as nat);
            }
        }
        self.index = ni;
        let chosen = self.partitions[ni];
        Some(chosen)
    }

    /// The partition list as a vector reference.
    pub fn get_partition_list(&self) -> (r: &Vec<u32>)
        ensures
            r@ == self.list(),
    {
        &self.partitions
    }

    /// How many partitions the list holds.
    pub fn len(&self) -> (r: usize)
        ensures
            r == self.list().len(),
    {
        self.partitions.len()
    }

    /// Whether the given partition stands in the list.
    pub fn contains_partition(&self, p: u32) -> (r: bool)
        ensures
            r == self.list().contains(p),
    {
        let mut i: usize = 0;
        while i < self.partitions.len()
            invariant
                i <= self.partitions@.len(),
                forall|j: int| 0 <= j < i ==> self.partitions@[j] != p,
            decreases self.partitions@.len() - i,
        {
            if self.partitions[i] == p {
                return true;
            }
            i = i + 1;
        }
        false
    }
}

/// How many of the first `n` calls after cursor `cur` pick list position `p`.
pub open spec fn round_robin_hits(len: int, cur: int, n: int, p: int) -> int
    decreases n,
{
    if n <= 0 {
        0
    } else {
        round_robin_hits(len, cur, n - 1, p) + if (cur + 1 + (n - 1)) % len == p {
            1int
        } else {
            0int
        }
    }
}

proof fn lemma_position_iff(len: int, cur: int, i: int, p: int)
    requires
        len > 0,
        0 <= p < len,
        0 <= i < len,
    ensures
        ((cur + 1 + i) % len == p) <==> (i == (p - cur - 1) % len),
{
    let i0 = (p - cur - 1) % len;
    lemma_mod_bound(p - cur - 1, len);
    assert((cur + 1 + i0) % len == p) by {
        lemma_mod_twice(p - cur - 1, len);
        lemma_add_mod_noop(cur + 1, i0, len);
        lemma_add_mod_noop(cur + 1, p - cur - 1, len);
        lemma_small_mod(p as nat, len as nat);
    };
    if (cur + 1 + i) % len == p {
        lemma_mod_equivalence(cur + 1 + i, cur + 1 + i0, len);
        assert(((cur + 1 + i) - (cur + 1 + i0)) % len == 0);
        assert((i - i0) % len == 0);
        if i - i0 >= 0 {
            lemma_small_mod((i - i0) as nat, len as nat);
        } else {
            lemma_mod_add_multiples_vanish(i - i0, len);
            lemma_small_mod((i - i0 + len) as nat, len as nat);
        }
        assert(i == i0);
    }
}

proof fn lemma_hits_below_cycle(len: int, cur: int, n: int, p: int)
    requires
        len > 0,
        0 <= p < len,
        0 <= n <= len,
    ensures
        round_robin_hits(len, cur, n, p) == if (p - cur - 1) % len < n {
            1int
        } else {
            0int
        },
    decreases n,
{
    let i0 = (p - cur - 1) % len;
    lemma_mod_bound(p - cur - 1, len);
    if n > 0 {
        lemma_hits_below_cycle(len, cur, n - 1, p);
        lemma_position_iff(len, cur, n - 1, p);
    }
}

proof fn lemma_hits_cycle_step(len: int, cur: int, n: int, p: int)
    requires
        len > 0,
        0 <= p < len,
        n >= 0,
    ensures
        round_robin_hits(len, cur, n + len, p) == round_robin_hits(len, cur, n, p) + 1,
    decreases n,
{
    if n == 0 {
        lemma_hits_below_cycle(len, cur, len, p);
    } else {
        lemma_hits_cycle_step(len, cur, n - 1, p);
        assert((cur + 1 + (n + len - 1)) % len == (cur + 1 + (n - 1)) % len) by {
            lemma_mod_add_multiples_vanish(cur + n, len);
        };
    }
}

/// Round-robin fairness: over `k` whole rounds of a list of `len` partitions,
/// every list position is picked exactly `k` times, from any starting cursor.
pub proof fn lemma_round_robin_fair(len: int, cur: int, k: int, p: int)
    requires
        len > 0,
        0 <= p < len,
        k >= 0,
    ensures
        round_robin_hits(len, cur, k * len, p) == k,
    decreases k,
{
    if k == 0 {
        assert(round_robin_hits(len, cur, 0, p) == 0);
    } else {
        lemma_round_robin_fair(len, cur, k - 1, p);
        assert((k - 1) * len + len == k * len) by (nonlinear_arith);
        assert((k - 1) * len >= 0) by (nonlinear_arith)
            requires
                k >= 1,
                len > 0,
        ;
        lemma_hits_cycle_step(len, cur, (k - 1) * len, p);
    }
}

} // verus!
