//! Bounded, sorted top-contributor rankings.
//!
//! A `TopKRanking` holds at most `capacity` entries, sorted descending by
//! cumulative amount, with ties kept in insertion order. It is used at
//! campaign scope with capacity 3 and at service scope with capacity 10.

use vstd::prelude::*;

use crate::effects::AccountId;

verus! {

/// One slot of a ranking: a contributor's cumulative gross amount, keyed by
/// the reward wallet it was last seen with.
#[derive(Clone, Copy, Debug, PartialEq, Eq, Structural)]
pub struct RankEntry {
    pub amount: u64,
    pub wallet: AccountId,
}

/// Entries are in descending order of amount; equal amounts may stand in any
/// order among themselves (insertion order, in fact).
pub open spec fn sorted_descending(s: Seq<RankEntry>) -> bool {
    forall|i: int, j: int| 0 <= i <= j < s.len() ==> s[i].amount >= s[j].amount
}

/// The amount a candidate must strictly exceed to enter a ranking of
/// capacity `cap`: the lowest ranked amount when full, zero when a slot is
/// still empty.
pub open spec fn rank_threshold(s: Seq<RankEntry>, cap: int) -> int {
    if s.len() < cap {
        0
    } else {
        s[cap - 1].amount as int
    }
}

/// Where an admitted candidate lands: the first position whose entry's
/// amount is strictly below the candidate's, so that existing entries with
/// an equal amount keep their precedence.
pub open spec fn insert_pos(s: Seq<RankEntry>, amount: u64) -> int
    decreases s.len(),
{
    if s.len() == 0 {
        0
    } else if s[0].amount < amount {
        0
    } else {
        1 + insert_pos(s.skip(1), amount)
    }
}

/// `insert_pos` is in bounds, every entry before it ranks at or above the
/// candidate, and the entry at it (if any) ranks strictly below.
pub proof fn lemma_insert_pos_properties(s: Seq<RankEntry>, amount: u64)
    ensures
        0 <= insert_pos(s, amount) <= s.len(),
        forall|j: int| 0 <= j < insert_pos(s, amount) ==> s[j].amount >= amount,
        insert_pos(s, amount) < s.len() ==> s[insert_pos(s, amount)].amount < amount,
    decreases s.len(),
{
    if s.len() == 0 {
    } else if s[0].amount < amount {
    } else {
        let rest = s.skip(1);
        lemma_insert_pos_properties(rest, amount);
        let p = insert_pos(s, amount);
        assert forall|j: int| 0 <= j < p implies s[j].amount >= amount by {
            if j > 0 {
                assert(rest[j - 1] == s[j]);
            }
        }
        if p < s.len() {
            assert(rest[p - 1] == s[p]);
        }
    }
}

/// The whole result of offering a candidate to a ranking: an admitted
/// candidate is inserted at its position and the ranking is cut back to its
/// capacity; a refused candidate leaves the ranking unchanged.
pub open spec fn offer_spec(s: Seq<RankEntry>, cap: int, amount: u64, wallet: AccountId) -> Seq<
    RankEntry,
> {
    if amount > rank_threshold(s, cap) {
        let grown = s.insert(insert_pos(s, amount), RankEntry { amount, wallet });
        if grown.len() > cap {
            grown.take(cap)
        } else {
            grown
        }
    } else {
        s
    }
}

/// No sequence of offers can unsort a ranking: a sorted ranking stays
/// sorted, and its length never passes the capacity.
pub proof fn lemma_offer_spec_sorted(s: Seq<RankEntry>, cap: int, amount: u64, wallet: AccountId)
    requires
        sorted_descending(s),
        s.len() <= cap,
    ensures
        sorted_descending(offer_spec(s, cap, amount, wallet)),
        offer_spec(s, cap, amount, wallet).len() <= cap,
{
    if amount > rank_threshold(s, cap) {
        let p = insert_pos(s, amount);
        let e = (RankEntry { amount, wallet });
        lemma_insert_pos_properties(s, amount);
        s.insert_ensures(p, e);
        let grown = s.insert(p, e);
        assert forall|i: int, j: int| 0 <= i <= j < grown.len() implies grown[i].amount
            >= grown[j].amount by {
            if i < p && j == p {
                assert(grown[i] == s[i]);
            } else if i == p && j > p {
                assert(grown[j] == s[j - 1]);
            } else if i < p && j > p {
                assert(grown[i] == s[i]);
                assert(grown[j] == s[j - 1]);
            } else if i < p && j < p {
                assert(grown[i] == s[i]);
                assert(grown[j] == s[j]);
            } else if i > p && j > p {
                assert(grown[i] == s[i - 1]);
                assert(grown[j] == s[j - 1]);
            }
        }
        if grown.len() > cap {
            assert forall|i: int, j: int|
                0 <= i <= j < grown.take(cap).len() implies grown.take(cap)[i].amount >= grown.take(
                cap,
            )[j].amount by {
                assert(grown.take(cap)[i] == grown[i]);
                assert(grown.take(cap)[j] == grown[j]);
            }
        }
    }
}

/// A bounded, sorted, fixed-capacity ranking of contributors.
#[derive(Debug)]
pub struct TopKRanking {
    /// The ranked entries, best first, at most `capacity` of them.
    pub entries: Vec<RankEntry>,
    /// How many entries the ranking can hold; fixed at construction.
    pub capacity: usize,
}

impl View for TopKRanking {
    type V = Seq<RankEntry>;

    open spec fn view(&self) -> Seq<RankEntry> {
        self.entries@
    }
}

impl TopKRanking {
    /// The ranking never outgrows its capacity and is always sorted
    /// descending by amount.
    pub open spec fn wf(self) -> bool {
        &&& self.capacity >= 1
        &&& self@.len() <= self.capacity
        &&& sorted_descending(self@)
    }

    /// An empty ranking of the given capacity.
    pub fn new(capacity: usize) -> (r: TopKRanking)
        requires
            capacity >= 1,
        ensures
            r.wf(),
            r.capacity == capacity,
            r@ =~= Seq::<RankEntry>::empty(),
    {
        TopKRanking { entries: Vec::new(), capacity }
    }

    /// Offers a candidate cumulative amount, keyed by its reward wallet, to
    /// the ranking. The candidate is admitted exactly when it strictly
    /// exceeds the lowest ranked amount (or a slot is still empty and the
    /// amount is positive); on admission it is inserted behind every entry
    /// that ranks at or above it and the lowest entry beyond the capacity is
    /// dropped. Never fails.
    pub fn offer(&mut self, amount: u64, wallet: AccountId) -> (changed: bool)
        requires
            old(self).wf(),
        ensures
            final(self).wf(),
            final(self).capacity == old(self).capacity,
            final(self)@ == offer_spec(old(self)@, old(self).capacity as int, amount, wallet),
            changed <==> amount > rank_threshold(old(self)@, old(self).capacity as int),
    {
        let ghost s = self@;
        let ghost cap: int = self.capacity as int;
        proof {
            lemma_offer_spec_sorted(s, cap, amount, wallet);
        }
        let threshold: u64 = if self.entries.len() >= self.capacity {
            self.entries[self.capacity - 1].amount
        } else {
            0
        };
        if amount <= threshold {
            return false;
        }
        let mut i: usize = 0;
        while i < self.entries.len() && self.entries[i].amount >= amount
            invariant
                self@ == s,
                self.capacity as int == cap,
                0 <= i <= self@.len(),
                forall|j: int| 0 <= j < i ==> self@[j].amount >= amount,
            decreases self@.len() - i,
        {
            i = i + 1;
        }
        proof {
            lemma_insert_pos_properties(s, amount);
            let p = insert_pos(s, amount);
            if p < i {
                assert(s[p].amount >= amount);
            }
            if i < p {
                assert(s[i as int].amount >= amount);
            }
            assert(i == p);
        }
        self.entries.insert(i, RankEntry { amount, wallet });
        if self.entries.len() > self.capacity {
            self.entries.pop();
            proof {
                let grown = s.insert(i as int, RankEntry { amount, wallet });
                assert(self@ =~= grown.take(cap));
            }
        }
        true
    }

    /// The ranked entry at a position, best first; `None` past the end.
    pub fn get(&self, position: usize) -> (r: Option<RankEntry>)
        ensures
            position < self@.len() ==> r == Some(self@[position as int]),
            position >= self@.len() ==> r is None,
    {
        if position < self.entries.len() {
            Some(self.entries[position])
        } else {
            None
        }
    }

    /// How many entries the ranking currently holds.
    pub fn len(&self) -> (n: usize)
        ensures
            n == self@.len(),
    {
        self.entries.len()
    }
}

} // verus!
