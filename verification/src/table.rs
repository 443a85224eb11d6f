//! A table from keys to amounts in which an absent key reads as zero.

use crate::account::Key;
use vstd::prelude::*;

verus! {

/// No key occurs twice in the listing.
pub open spec fn distinct_keys<K>(s: Seq<(K, u64)>) -> bool {
    forall|i: int, j: int| 0 <= i < j < s.len() ==> s[i].0 != s[j].0
}

/// The amount that the listing holds for `k`; zero where `k` does not occur.
pub open spec fn amount_at<K>(s: Seq<(K, u64)>, k: K) -> u64
    decreases s.len(),
{
    if s.len() == 0 {
        0
    } else if s.last().0 == k {
        s.last().1
    } else {
        amount_at(s.drop_last(), k)
    }
}

/// The sum of all amounts of the listing.
pub open spec fn sum_amounts<K>(s: Seq<(K, u64)>) -> int
    decreases s.len(),
{
    if s.len() == 0 {
        0
    } else {
        sum_amounts(s.drop_last()) + s.last().1
    }
}

/// A key that occurs nowhere has amount zero.
pub proof fn lemma_amount_absent<K>(s: Seq<(K, u64)>, k: K)
    requires
        forall|i: int| 0 <= i < s.len() ==> s[i].0 != k,
    ensures
        amount_at(s, k) == 0,
    decreases s.len(),
{
    if s.len() > 0 {
        lemma_amount_absent(s.drop_last(), k);
    }
}

/// In a listing without repeated keys, the amount of a key is the one of its
/// entry.
pub proof fn lemma_amount_present<K>(s: Seq<(K, u64)>, i: int)
    requires
        distinct_keys(s),
        0 <= i < s.len(),
    ensures
        amount_at(s, s[i].0) == s[i].1,
    decreases s.len(),
{
    if i < s.len() - 1 {
        lemma_amount_present(s.drop_last(), i);
    }
}

/// Replacing the amount of entry `i` changes the amount of its key and of no
/// other key.
pub proof fn lemma_amount_update<K>(s: Seq<(K, u64)>, i: int, v: u64, k: K)
    requires
        distinct_keys(s),
        0 <= i < s.len(),
    ensures
        distinct_keys(s.update(i, (s[i].0, v))),
        amount_at(s.update(i, (s[i].0, v)), k) == if k == s[i].0 {
            v
        } else {
            amount_at(s, k)
        },
{
    let t = s.update(i, (s[i].0, v));
    assert(forall|j: int| 0 <= j < s.len() ==> t[j].0 == s[j].0);
    if exists|j: int| 0 <= j < s.len() && s[j].0 == k {
        let j = choose|j: int| 0 <= j < s.len() && s[j].0 == k;
        lemma_amount_present(s, j);
        lemma_amount_present(t, j);
    } else {
        lemma_amount_absent(s, k);
        lemma_amount_absent(t, k);
    }
}

/// Appending an entry for a new key sets the amount of that key and of no
/// other key.
pub proof fn lemma_amount_push<K>(s: Seq<(K, u64)>, k0: K, v: u64, k: K)
    requires
        distinct_keys(s),
        forall|i: int| 0 <= i < s.len() ==> s[i].0 != k0,
    ensures
        distinct_keys(s.push((k0, v))),
        amount_at(s.push((k0, v)), k) == if k == k0 {
            v
        } else {
            amount_at(s, k)
        },
        sum_amounts(s.push((k0, v))) == sum_amounts(s) + v,
{
    assert(s.push((k0, v)).drop_last() =~= s);
}

/// Replacing an entry changes the sum by the difference of the two amounts.
pub proof fn lemma_sum_update<K>(s: Seq<(K, u64)>, i: int, e: (K, u64))
    requires
        0 <= i < s.len(),
    ensures
        sum_amounts(s.update(i, e)) == sum_amounts(s) - s[i].1 + e.1,
    decreases s.len(),
{
    let t = s.update(i, e);
    if i < s.len() - 1 {
        lemma_sum_update(s.drop_last(), i, e);
        assert(t.drop_last() =~= s.drop_last().update(i, e));
    } else {
        assert(t.drop_last() =~= s.drop_last());
    }
}

/// No amount exceeds the sum of all amounts.
pub proof fn lemma_amount_le_sum<K>(s: Seq<(K, u64)>, k: K)
    ensures
        amount_at(s, k) <= sum_amounts(s),
    decreases s.len(),
{
    if s.len() > 0 {
        lemma_amount_le_sum(s.drop_last(), k);
    }
}

/// In a listing without repeated keys, the amounts of two different keys
/// together do not exceed the sum of all amounts.
pub proof fn lemma_two_amounts_le_sum<K>(s: Seq<(K, u64)>, a: K, b: K)
    requires
        distinct_keys(s),
        a != b,
    ensures
        amount_at(s, a) + amount_at(s, b) <= sum_amounts(s),
    decreases s.len(),
{
    if s.len() > 0 {
        let r = s.drop_last();
        if s.last().0 == a {
            lemma_amount_le_sum(r, b);
        } else if s.last().0 == b {
            lemma_amount_le_sum(r, a);
        } else {
            lemma_two_amounts_le_sum(r, a, b);
        }
    }
}

/// The sum of the first `n` amounts does not exceed the sum of all of them.
pub proof fn lemma_sum_prefix<K>(s: Seq<(K, u64)>, n: int)
    requires
        0 <= n <= s.len(),
    ensures
        0 <= sum_amounts(s.take(n)) <= sum_amounts(s),
    decreases s.len(),
{
    if n == s.len() {
        assert(s.take(n) =~= s);
        if s.len() > 0 {
            lemma_sum_prefix(s.drop_last(), n - 1);
        }
    } else {
        lemma_sum_prefix(s.drop_last(), n);
        assert(s.drop_last().take(n) =~= s.take(n));
    }
}

/// Removing an entry lowers the sum by its amount.
pub proof fn lemma_sum_remove<K>(s: Seq<(K, u64)>, j: int)
    requires
        0 <= j < s.len(),
    ensures
        sum_amounts(s.remove(j)) == sum_amounts(s) - s[j].1,
    decreases s.len(),
{
    if j == s.len() - 1 {
        assert(s.remove(j) =~= s.drop_last());
    } else {
        lemma_sum_remove(s.drop_last(), j);
        assert(s.remove(j).drop_last() =~= s.drop_last().remove(j));
        assert(s.remove(j).last() == s.last());
    }
}

/// Removing an entry from a listing without repeated keys leaves no entry
/// for its key and changes the amount of no other key.
pub proof fn lemma_amount_remove<K>(s: Seq<(K, u64)>, j: int, k: K)
    requires
        distinct_keys(s),
        0 <= j < s.len(),
    ensures
        distinct_keys(s.remove(j)),
        amount_at(s.remove(j), k) == if k == s[j].0 {
            0
        } else {
            amount_at(s, k)
        },
{
    let u = s.remove(j);
    assert forall|i: int| 0 <= i < u.len() implies #[trigger] u[i] == s[if i < j {
        i
    } else {
        i + 1
    }] by {}
    if k != s[j].0 && exists|i: int| 0 <= i < s.len() && s[i].0 == k {
        let i = choose|i: int| 0 <= i < s.len() && s[i].0 == k;
        let at = if i < j {
            i
        } else {
            i - 1
        };
        assert(u[at] == s[i]);
        lemma_amount_present(s, i);
        lemma_amount_present(u, at);
    } else {
        if k != s[j].0 {
            lemma_amount_absent(s, k);
        }
        lemma_amount_absent(u, k);
    }
}

/// The sum of a listing without repeated keys depends only on the amount of
/// each key: two such listings that give every key the same amount have the
/// same sum, in whatever order they list the keys and whichever keys they
/// list with amount zero.
pub proof fn lemma_sum_by_amounts<K>(s: Seq<(K, u64)>, t: Seq<(K, u64)>)
    requires
        distinct_keys(s),
        distinct_keys(t),
        forall|k: K| amount_at(s, k) == amount_at(t, k),
    ensures
        sum_amounts(s) == sum_amounts(t),
    decreases s.len() + t.len(),
{
    if s.len() > 0 {
        let k = s.last().0;
        let r = s.drop_last();
        lemma_amount_absent(r, k);
        assert(amount_at(s, k) == s.last().1);
        assert forall|q: K| q != k implies amount_at(r, q) == amount_at(t, q) by {
            assert(amount_at(s, q) == amount_at(r, q));
        }
        if exists|j: int| 0 <= j < t.len() && t[j].0 == k {
            let j = choose|j: int| 0 <= j < t.len() && t[j].0 == k;
            lemma_amount_present(t, j);
            let u = t.remove(j);
            assert forall|q: K| amount_at(r, q) == amount_at(u, q) by {
                lemma_amount_remove(t, j, q);
            }
            lemma_amount_remove(t, j, k);
            lemma_sum_remove(t, j);
            lemma_sum_by_amounts(r, u);
        } else {
            lemma_amount_absent(t, k);
            lemma_sum_by_amounts(r, t);
        }
    } else if t.len() > 0 {
        let k = t.last().0;
        let r = t.drop_last();
        lemma_amount_absent(r, k);
        assert(amount_at(t, k) == t.last().1);
        assert(amount_at(s, k) == 0);
        assert forall|q: K| amount_at(s, q) == amount_at(r, q) by {
            if q != k {
                assert(amount_at(t, q) == amount_at(r, q));
            }
        }
        lemma_sum_by_amounts(s, r);
    }
}

/// A table from keys to amounts. A key that was never written reads as zero;
/// entries are never removed.
pub struct Table<K: Key> {
    entries: Vec<(K, u64)>,
}

impl<K: Key> Table<K> {
    /// The entries of the table, in the order in which their keys were first
    /// written.
    pub closed spec fn view(&self) -> Seq<(K, u64)> {
        self.entries@
    }

    /// No key has two entries.
    pub open spec fn wf(&self) -> bool {
        distinct_keys(self@)
    }

    /// The amount stored for `k`, zero if there is none.
    pub open spec fn amount(&self, k: K) -> u64 {
        amount_at(self@, k)
    }

    /// The sum of all stored amounts.
    pub open spec fn total(&self) -> int {
        sum_amounts(self@)
    }

    /// The empty table: every key reads as zero.
    pub fn new() -> (t: Self)
        ensures
            t@ == Seq::<(K, u64)>::empty(),
            t.wf(),
    {
        Table { entries: Vec::new() }
    }

    /// The index of the entry of `k`, if it has one.
    fn position(&self, k: &K) -> (r: Option<usize>)
        ensures
            match r {
                Some(i) => i < self@.len() && self@[i as int].0 == *k,
                None => forall|j: int| 0 <= j < self@.len() ==> self@[j].0 != *k,
            },
    {
        let mut i: usize = 0;
        while i < self.entries.len()
            invariant
                i <= self.entries.len(),
                forall|j: int| 0 <= j < i ==> self.entries@[j].0 != *k,
            decreases self.entries.len() - i,
        {
            if self.entries[i].0.same(k) {
                return Some(i);
            }
            i += 1;
        }
        None
    }

    /// Reads the amount of `k`: zero if it was never written.
    pub fn get(&self, k: &K) -> (v: u64)
        requires
            self.wf(),
        ensures
            v == self.amount(*k),
    {
        match self.position(k) {
            Some(i) => {
                proof {
                    lemma_amount_present(self@, i as int);
                }
                self.entries[i].1
            },
            None => {
                proof {
                    lemma_amount_absent(self@, *k);
                }
                0
            },
        }
    }

    /// Writes `v` as the amount of `k`, replacing what was stored for it. No
    /// other key is touched, and the sum of all amounts moves by the
    /// difference between the new and the old amount of `k`.
    pub fn insert(&mut self, k: K, v: u64)
        requires
            old(self).wf(),
        ensures
            final(self).wf(),
            forall|q: K| #[trigger]
                amount_at(final(self)@, q) == if q == k {
                    v
                } else {
                    amount_at(old(self)@, q)
                },
            final(self).total() == old(self).total() - old(self).amount(k) + v,
    {
        let ghost before = self@;
        match self.position(&k) {
            Some(i) => {
                proof {
                    lemma_amount_present(before, i as int);
                    lemma_sum_update(before, i as int, (k, v));
                    assert forall|q: K| #[trigger]
                        amount_at(before.update(i as int, (k, v)), q) == if q == k {
                            v
                        } else {
                            amount_at(before, q)
                        } by {
                        lemma_amount_update(before, i as int, v, q);
                    }
                    lemma_amount_update(before, i as int, v, k);
                }
                self.entries.set(i, (k, v));
            },
            None => {
                proof {
                    lemma_amount_absent(before, k);
                    assert forall|q: K| #[trigger]
                        amount_at(before.push((k, v)), q) == if q == k {
                            v
                        } else {
                            amount_at(before, q)
                        } by {
                        lemma_amount_push(before, k, v, q);
                    }
                    lemma_amount_push(before, k, v, k);
                }
                self.entries.push((k, v));
            },
        }
    }

    /// Tests the table's invariant: whether no key has two entries.
    pub fn keys_distinct(&self) -> (b: bool)
        ensures
            b == self.wf(),
    {
        let n = self.entries.len();
        let mut j: usize = 0;
        while j < n
            invariant
                j <= n,
                n == self.entries.len(),
                forall|a: int, b: int| 0 <= a < b < j ==> self@[a].0 != self@[b].0,
            decreases n - j,
        {
            let mut i: usize = 0;
            while i < j
                invariant
                    i <= j,
                    j < n,
                    n == self.entries.len(),
                    forall|a: int| 0 <= a < i ==> self@[a].0 != self@[j as int].0,
                decreases j - i,
            {
                if self.entries[i].0.same(&self.entries[j].0) {
                    assert(self@[i as int].0 == self@[j as int].0);
                    return false;
                }
                i += 1;
            }
            j += 1;
        }
        true
    }

    /// The sum of all stored amounts, or `None` where that sum is too large
    /// to be an amount.
    pub fn checked_total(&self) -> (r: Option<u64>)
        ensures
            match r {
                Some(t) => t == self.total(),
                None => self.total() > u64::MAX,
            },
    {
        let n = self.entries.len();
        let mut acc: u64 = 0;
        let mut i: usize = 0;
        while i < n
            invariant
                i <= n,
                n == self.entries.len(),
                acc == sum_amounts(self@.take(i as int)),
            decreases n - i,
        {
            proof {
                assert(self@.take(i + 1).drop_last() =~= self@.take(i as int));
                lemma_sum_prefix(self@, i + 1);
            }
            match acc.checked_add(self.entries[i].1) {
                Some(next) => {
                    acc = next;
                },
                None => {
                    return None;
                },
            }
            i += 1;
        }
        assert(self@.take(n as int) =~= self@);
        Some(acc)
    }
}

} // verus!
