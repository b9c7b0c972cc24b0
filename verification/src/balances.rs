//! The ordered index of active campaign balances.
//!
//! One entry per unfinished campaign, sorted strictly by campaign identifier
//! so that lookup, insertion and removal can use binary search. The index is
//! bounded at a fixed maximum number of entries, and it is the ground truth
//! for proportional redistribution when a campaign is canceled.

use vstd::prelude::*;

use crate::amount_math::spec_share;
use crate::amount_math::redistribute_share;
use crate::errors::DonationError;

verus! {

/// The most campaigns that may be active at once.
pub const ACTIVE_CAMPAIGN_LIMIT: usize = 100;

/// One entry of the index: a campaign identifier and the settlement-currency
/// balance currently pooled in that campaign.
#[derive(Clone, Copy, Debug, PartialEq, Eq, Structural)]
pub struct BalanceEntry {
    pub id: u64,
    pub balance: u64,
}

/// Entries are sorted strictly ascending by campaign identifier, so
/// identifiers are unique.
pub open spec fn sorted_by_id(s: Seq<BalanceEntry>) -> bool {
    forall|i: int, j: int| 0 <= i < j < s.len() ==> s[i].id < s[j].id
}

/// Whether some entry carries the identifier.
pub open spec fn index_contains(s: Seq<BalanceEntry>, id: u64) -> bool {
    exists|i: int| 0 <= i < s.len() && s[i].id == id
}

/// The first position whose entry carries the identifier (the only one, in a
/// sorted index).
pub open spec fn find_pos(s: Seq<BalanceEntry>, id: u64) -> int
    decreases s.len(),
{
    if s.len() == 0 {
        0
    } else if s[0].id == id {
        0
    } else {
        1 + find_pos(s.skip(1), id)
    }
}

/// The balance stored for an identifier; meaningful only when the index
/// contains it.
pub open spec fn balance_of(s: Seq<BalanceEntry>, id: u64) -> u64 {
    s[find_pos(s, id)].balance
}

/// Where a fresh identifier would be inserted to keep the index sorted.
pub open spec fn id_insert_pos(s: Seq<BalanceEntry>, id: u64) -> int
    decreases s.len(),
{
    if s.len() == 0 {
        0
    } else if id < s[0].id {
        0
    } else {
        1 + id_insert_pos(s.skip(1), id)
    }
}

/// The sum of all pooled balances, as an unbounded integer.
pub open spec fn sum_balances(s: Seq<BalanceEntry>) -> int
    decreases s.len(),
{
    if s.len() == 0 {
        0
    } else {
        s[0].balance + sum_balances(s.skip(1))
    }
}

/// The index after a pool has been redistributed over it: every entry keeps
/// its identifier and gains `floor(pool * balance / total)`, where `total`
/// is the sum of the balances before redistribution.
pub open spec fn redistribute_spec(s: Seq<BalanceEntry>, pool: u64) -> Seq<BalanceEntry> {
    Seq::new(
        s.len(),
        |i: int|
            BalanceEntry {
                id: s[i].id,
                balance: (s[i].balance + spec_share(pool, s[i].balance, sum_balances(s))) as u64,
            },
    )
}

/// Appending an entry adds its balance to the sum.
pub proof fn lemma_sum_push(s: Seq<BalanceEntry>, e: BalanceEntry)
    ensures
        sum_balances(s.push(e)) == sum_balances(s) + e.balance,
    decreases s.len(),
{
    reveal_with_fuel(sum_balances, 2);
    if s.len() == 0 {
        assert(s.push(e)[0] == e);
        assert(s.push(e).skip(1) =~= Seq::<BalanceEntry>::empty());
        assert(sum_balances(Seq::<BalanceEntry>::empty()) == 0);
    } else {
        assert(s.push(e)[0] == s[0]);
        assert(s.push(e).skip(1) =~= s.skip(1).push(e));
        lemma_sum_push(s.skip(1), e);
    }
}

/// Extending a prefix by one entry adds that entry's balance to the
/// prefix sum.
pub proof fn lemma_sum_take_succ(s: Seq<BalanceEntry>, i: int)
    requires
        0 <= i < s.len(),
    ensures
        sum_balances(s.take(i + 1)) == sum_balances(s.take(i)) + s[i].balance,
{
    assert(s.take(i + 1) =~= s.take(i).push(s[i]));
    lemma_sum_push(s.take(i), s[i]);
}

/// Removing an entry takes its balance out of the sum.
pub proof fn lemma_sum_remove(s: Seq<BalanceEntry>, i: int)
    requires
        0 <= i < s.len(),
    ensures
        sum_balances(s.remove(i)) == sum_balances(s) - s[i].balance,
    decreases s.len(),
{
    if i == 0 {
        assert(s.remove(0) =~= s.skip(1));
    } else {
        assert(s.remove(i)[0] == s[0]);
        assert(s.remove(i).skip(1) =~= s.skip(1).remove(i - 1));
        lemma_sum_remove(s.skip(1), i - 1);
        assert(s.skip(1)[i - 1] == s[i]);
    }
}

/// The sum of balances is never negative.
pub proof fn lemma_sum_nonneg(s: Seq<BalanceEntry>)
    ensures
        sum_balances(s) >= 0,
    decreases s.len(),
{
    if s.len() > 0 {
        lemma_sum_nonneg(s.skip(1));
    }
}

/// No single balance exceeds the sum of all of them.
pub proof fn lemma_sum_element_bound(s: Seq<BalanceEntry>, i: int)
    requires
        0 <= i < s.len(),
    ensures
        s[i].balance <= sum_balances(s),
    decreases s.len(),
{
    lemma_sum_nonneg(s.skip(1));
    if i > 0 {
        lemma_sum_element_bound(s.skip(1), i - 1);
        assert(s.skip(1)[i - 1] == s[i]);
    }
}

/// The first position with the identifier is in bounds, carries it, and
/// nothing before it does.
pub proof fn lemma_find_pos(s: Seq<BalanceEntry>, id: u64)
    requires
        index_contains(s, id),
    ensures
        0 <= find_pos(s, id) < s.len(),
        s[find_pos(s, id)].id == id,
        forall|j: int| 0 <= j < find_pos(s, id) ==> s[j].id != id,
    decreases s.len(),
{
    let w = choose|i: int| 0 <= i < s.len() && s[i].id == id;
    if s[0].id != id {
        assert(s.skip(1)[w - 1] == s[w]);
        lemma_find_pos(s.skip(1), id);
        let p = find_pos(s, id);
        assert(s.skip(1)[p - 1] == s[p]);
        assert forall|j: int| 0 <= j < p implies s[j].id != id by {
            if j > 0 {
                assert(s.skip(1)[j - 1] == s[j]);
            }
        }
    }
}

/// The insertion position for a fresh identifier is in bounds, everything
/// before it has a smaller-or-equal identifier, and the entry at it (if any)
/// has a strictly greater one.
pub proof fn lemma_id_insert_pos(s: Seq<BalanceEntry>, id: u64)
    ensures
        0 <= id_insert_pos(s, id) <= s.len(),
        forall|j: int| 0 <= j < id_insert_pos(s, id) ==> s[j].id <= id,
        id_insert_pos(s, id) < s.len() ==> id < s[id_insert_pos(s, id)].id,
    decreases s.len(),
{
    if s.len() > 0 && !(id < s[0].id) {
        let rest = s.skip(1);
        lemma_id_insert_pos(rest, id);
        let p = id_insert_pos(s, id);
        assert forall|j: int| 0 <= j < p implies s[j].id <= id by {
            if j > 0 {
                assert(rest[j - 1] == s[j]);
            }
        }
        if p < s.len() {
            assert(rest[p - 1] == s[p]);
        }
    }
}

/// The ordered index of (campaign identifier, pooled balance) entries.
#[derive(Debug)]
pub struct ActiveBalanceIndex {
    /// The entries, sorted strictly ascending by identifier.
    pub entries: Vec<BalanceEntry>,
}

impl View for ActiveBalanceIndex {
    type V = Seq<BalanceEntry>;

    open spec fn view(&self) -> Seq<BalanceEntry> {
        self.entries@
    }
}

impl ActiveBalanceIndex {
    /// The index stays sorted strictly by identifier and within its bound.
    pub open spec fn wf(self) -> bool {
        &&& sorted_by_id(self@)
        &&& self@.len() <= ACTIVE_CAMPAIGN_LIMIT
    }

    /// An empty index.
    pub fn new() -> (r: ActiveBalanceIndex)
        ensures
            r.wf(),
            r@ =~= Seq::<BalanceEntry>::empty(),
    {
        ActiveBalanceIndex { entries: Vec::new() }
    }

    /// How many campaigns are currently active.
    pub fn len(&self) -> (n: usize)
        ensures
            n == self@.len(),
    {
        self.entries.len()
    }

    /// Ordered (binary) search for an identifier's position. Fails with
    /// `NotFound` exactly when the identifier is absent.
    pub fn find(&self, id: u64) -> (r: Result<usize, DonationError>)
        requires
            self.wf(),
        ensures
            r is Ok <==> index_contains(self@, id),
            r matches Ok(pos) ==> pos == find_pos(self@, id) && pos < self@.len()
                && self@[pos as int].id == id,
            r matches Err(e) ==> e == DonationError::NotFound,
    {
        let ghost s = self@;
        let mut lo: usize = 0;
        let mut hi: usize = self.entries.len();
        while lo < hi
            invariant
                self.wf(),
                self@ == s,
                0 <= lo <= hi <= s.len(),
                forall|j: int| 0 <= j < lo ==> s[j].id < id,
                forall|j: int| hi <= j < s.len() ==> id < s[j].id,
            decreases hi - lo,
        {
            let mid = lo + (hi - lo) / 2;
            if self.entries[mid].id < id {
                lo = mid + 1;
            } else if id < self.entries[mid].id {
                hi = mid;
            } else {
                proof {
                    assert(index_contains(s, id));
                    lemma_find_pos(s, id);
                    let p = find_pos(s, id);
                    if p < mid {
                        assert(s[p].id < s[mid as int].id);
                    }
                    if mid < p {
                        assert(s[mid as int].id != id);
                    }
                }
                return Ok(mid);
            }
        }
        proof {
            assert forall|j: int| 0 <= j < s.len() implies s[j].id != id by {
                if j < lo {
                } else {
                }
            }
        }
        Err(DonationError::NotFound)
    }

    /// Inserts a new identifier with its starting balance, keeping the index
    /// sorted. Fails with `CapacityExceeded` when the index is at its bound
    /// or the identifier is already present.
    pub fn insert(&mut self, id: u64, balance: u64) -> (r: Result<(), DonationError>)
        requires
            old(self).wf(),
        ensures
            final(self).wf(),
            r is Ok <==> (old(self)@.len() < ACTIVE_CAMPAIGN_LIMIT && !index_contains(
                old(self)@,
                id,
            )),
            r is Ok ==> final(self)@ == old(self)@.insert(
                id_insert_pos(old(self)@, id),
                (BalanceEntry { id, balance }),
            ),
            r is Err ==> final(self)@ == old(self)@,
            r matches Err(e) ==> e == DonationError::CapacityExceeded,
    {
        let ghost s = self@;
        if self.entries.len() >= ACTIVE_CAMPAIGN_LIMIT {
            return Err(DonationError::CapacityExceeded);
        }
        match self.find(id) {
            Ok(_) => Err(DonationError::CapacityExceeded),
            Err(_) => {
                let mut lo: usize = 0;
                let mut hi: usize = self.entries.len();
                while lo < hi
                    invariant
                        self.wf(),
                        self@ == s,
                        !index_contains(s, id),
                        0 <= lo <= hi <= s.len(),
                        forall|j: int| 0 <= j < lo ==> s[j].id < id,
                        forall|j: int| hi <= j < s.len() ==> id < s[j].id,
                    decreases hi - lo,
                {
                    let mid = lo + (hi - lo) / 2;
                    if self.entries[mid].id < id {
                        lo = mid + 1;
                    } else {
                        proof {
                            if s[mid as int].id == id {
                                assert(index_contains(s, id));
                            }
                        }
                        hi = mid;
                    }
                }
                proof {
                    lemma_id_insert_pos(s, id);
                    let p = id_insert_pos(s, id);
                    if p < lo {
                        assert(s[p].id < id);
                        assert(s[p].id <= id);
                    }
                    if lo < p {
                        assert(s[lo as int].id <= id);
                        assert(s[lo as int].id != id);
                        assert(id < s[lo as int].id);
                    }
                    assert(lo == p);
                }
                let e = (BalanceEntry { id, balance });
                self.entries.insert(lo, e);
                proof {
                    let p = lo as int;
                    let grown = s.insert(p, e);
                    s.insert_ensures(p, e);
                    assert forall|i: int, j: int| 0 <= i < j < grown.len() implies grown[i].id
                        < grown[j].id by {
                        if j < p {
                            assert(grown[i] == s[i]);
                            assert(grown[j] == s[j]);
                        } else if i < p && j == p {
                            assert(grown[i] == s[i]);
                        } else if i < p && j > p {
                            assert(grown[i] == s[i]);
                            assert(grown[j] == s[j - 1]);
                        } else if i == p && j > p {
                            assert(grown[j] == s[j - 1]);
                        } else {
                            assert(grown[i] == s[i - 1]);
                            assert(grown[j] == s[j - 1]);
                        }
                    }
                }
                Ok(())
            },
        }
    }

    /// Adds to the balance stored for an identifier. Fails with `NotFound`
    /// exactly when the identifier is absent.
    pub fn add_to_balance(&mut self, id: u64, delta: u64) -> (r: Result<(), DonationError>)
        requires
            old(self).wf(),
            index_contains(old(self)@, id) ==> balance_of(old(self)@, id) + delta <= u64::MAX,
        ensures
            final(self).wf(),
            r is Ok <==> index_contains(old(self)@, id),
            r is Ok ==> final(self)@ == old(self)@.update(
                find_pos(old(self)@, id),
                (BalanceEntry {
                    id,
                    balance: (balance_of(old(self)@, id) + delta) as u64,
                }),
            ),
            r is Err ==> final(self)@ == old(self)@,
            r matches Err(e) ==> e == DonationError::NotFound,
    {
        let ghost s = self@;
        match self.find(id) {
            Ok(pos) => {
                proof {
                    lemma_find_pos(s, id);
                }
                let b = self.entries[pos].balance;
                self.entries[pos] = BalanceEntry { id, balance: b + delta };
                proof {
                    assert forall|i: int, j: int| 0 <= i < j < self@.len() implies self@[i].id
                        < self@[j].id by {
                        assert(s[i].id < s[j].id);
                    }
                }
                Ok(())
            },
            Err(e) => Err(e),
        }
    }

    /// Removes an identifier's entry and returns the balance it held. Fails
    /// with `NotFound` exactly when the identifier is absent.
    pub fn remove(&mut self, id: u64) -> (r: Result<u64, DonationError>)
        requires
            old(self).wf(),
        ensures
            final(self).wf(),
            r is Ok <==> index_contains(old(self)@, id),
            r matches Ok(removed_balance) ==> removed_balance == balance_of(old(self)@, id)
                && final(self)@ == old(self)@.remove(find_pos(old(self)@, id)),
            r is Ok ==> !index_contains(final(self)@, id),
            r is Err ==> final(self)@ == old(self)@,
            r matches Err(e) ==> e == DonationError::NotFound,
    {
        let ghost s = self@;
        match self.find(id) {
            Ok(pos) => {
                proof {
                    lemma_find_pos(s, id);
                }
                let e = self.entries.remove(pos);
                proof {
                    let p = pos as int;
                    s.remove_ensures(p);
                    let shrunk = s.remove(p);
                    assert forall|i: int, j: int| 0 <= i < j < shrunk.len() implies shrunk[i].id
                        < shrunk[j].id by {
                        if j < p {
                            assert(shrunk[i] == s[i]);
                            assert(shrunk[j] == s[j]);
                        } else if i < p {
                            assert(shrunk[i] == s[i]);
                            assert(shrunk[j] == s[j + 1]);
                        } else {
                            assert(shrunk[i] == s[i + 1]);
                            assert(shrunk[j] == s[j + 1]);
                        }
                    }
                    assert forall|i: int| 0 <= i < shrunk.len() implies shrunk[i].id != id by {
                        if i < p {
                            assert(shrunk[i] == s[i]);
                            assert(s[i].id < s[p].id);
                        } else {
                            assert(shrunk[i] == s[i + 1]);
                            assert(s[p].id < s[i + 1].id);
                        }
                    }
                }
                Ok(e.balance)
            },
            Err(e) => Err(e),
        }
    }

    /// The sum of all pooled balances, computed in a wide integer type so it
    /// cannot overflow.
    pub fn total_balance(&self) -> (total: u128)
        ensures
            total == sum_balances(self@),
    {
        let ghost s = self@;
        let mut total: u128 = 0;
        let mut i: usize = 0;
        proof {
            assert(s.take(0) =~= Seq::<BalanceEntry>::empty());
        }
        while i < self.entries.len()
            invariant
                self@ == s,
                0 <= i <= s.len(),
                total == sum_balances(s.take(i as int)),
                total <= i * (u64::MAX as int),
            decreases s.len() - i,
        {
            proof {
                lemma_sum_take_succ(s, i as int);
                assert(i * (u64::MAX as int) + u64::MAX == (i + 1) * (u64::MAX as int))
                    by (nonlinear_arith);
                assert((i + 1) * (u64::MAX as int) <= 0x1_0000_0000_0000_0000u128 * (
                u64::MAX as int)) by (nonlinear_arith)
                    requires
                        i + 1 <= 0x1_0000_0000_0000_0000u128,
                ;
            }
            total = total + (self.entries[i].balance as u128);
            i = i + 1;
        }
        proof {
            assert(s.take(s.len() as int) =~= s);
        }
        total
    }

    /// Distributes a pool over all entries in proportion to their balances:
    /// each entry gains `floor(pool * balance / total)`. Truncating division
    /// means the sum of the distributed shares never exceeds the pool; the
    /// remainder is deliberately dropped. When the total is zero nothing is
    /// distributed.
    pub fn redistribute(&mut self, pool: u64)
        requires
            old(self).wf(),
            forall|i: int|
                0 <= i < old(self)@.len() ==> old(self)@[i].balance + spec_share(
                    pool,
                    old(self)@[i].balance,
                    sum_balances(old(self)@),
                ) <= u64::MAX,
        ensures
            final(self).wf(),
            final(self)@ == redistribute_spec(old(self)@, pool),
            sum_balances(final(self)@) <= sum_balances(old(self)@) + pool,
    {
        let ghost s = self@;
        let ghost t: int = sum_balances(s);
        let total = self.total_balance();
        if total == 0 {
            proof {
                assert(self@ =~= redistribute_spec(s, pool));
            }
            return ;
        }
        let mut i: usize = 0;
        proof {
            assert(s.take(0) =~= Seq::<BalanceEntry>::empty());
            assert(self@.take(0) =~= Seq::<BalanceEntry>::empty());
        }
        while i < self.entries.len()
            invariant
                t == sum_balances(s),
                0 < t <= u128::MAX,
                total == t,
                0 <= i <= s.len(),
                self@.len() == s.len(),
                sorted_by_id(s),
                s.len() <= ACTIVE_CAMPAIGN_LIMIT,
                forall|j: int| i <= j < s.len() ==> self@[j] == s[j],
                forall|j: int|
                    0 <= j < i ==> self@[j].id == s[j].id && self@[j].balance == s[j].balance
                        + spec_share(pool, s[j].balance, t),
                forall|j: int|
                    0 <= j < s.len() ==> s[j].balance + spec_share(pool, s[j].balance, t)
                        <= u64::MAX,
                (sum_balances(self@.take(i as int)) - sum_balances(s.take(i as int))) * t <= pool
                    * sum_balances(s.take(i as int)),
            decreases s.len() - i,
        {
            let ghost prev = self@;
            let ghost d_prev: int = sum_balances(prev.take(i as int)) - sum_balances(
                s.take(i as int),
            );
            let b = self.entries[i].balance;
            proof {
                lemma_sum_element_bound(s, i as int);
            }
            let share = redistribute_share(pool, b, total);
            self.entries[i] = BalanceEntry { id: self.entries[i].id, balance: b + share };
            proof {
                lemma_sum_take_succ(self@, i as int);
                assert(self@.take(i as int) =~= prev.take(i as int));
                lemma_sum_take_succ(s, i as int);
                assert((pool * b) / t * t <= pool * b) by (nonlinear_arith)
                    requires
                        0 < t,
                        0 <= pool,
                        0 <= b,
                ;
                let d_new: int = sum_balances(self@.take(i + 1)) - sum_balances(s.take(i + 1));
                assert(d_new == d_prev + spec_share(pool, b, t));
                assert((d_prev + spec_share(pool, b, t)) * t == d_prev * t + spec_share(
                    pool,
                    b,
                    t,
                ) * t) by (nonlinear_arith);
                assert(pool * sum_balances(s.take(i + 1)) == pool * sum_balances(s.take(i as int))
                    + pool * b) by (nonlinear_arith)
                    requires
                        sum_balances(s.take(i + 1)) == sum_balances(s.take(i as int)) + b,
                ;
            }
            i = i + 1;
        }
        proof {
            assert(s.take(s.len() as int) =~= s);
            assert(self@.take(s.len() as int) =~= self@);
            assert(self@ =~= redistribute_spec(s, pool));
            let d: int = sum_balances(self@) - sum_balances(s);
            assert(d * t <= pool * t) by (nonlinear_arith)
                requires
                    d * t <= pool * sum_balances(s),
                    t == sum_balances(s),
            ;
            assert(d <= pool) by (nonlinear_arith)
                requires
                    d * t <= pool * t,
                    0 < t,
            ;
            assert forall|i: int, j: int| 0 <= i < j < self@.len() implies self@[i].id
                < self@[j].id by {
                assert(s[i].id < s[j].id);
            }
        }
    }
}

} // verus!
