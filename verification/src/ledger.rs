//! A map from (distribution id, account) pairs to balances, kept as a list of unique entries.
use vstd::prelude::*;
use crate::support::{account_eq, AccountId, Balance};

verus! {

/// The key of an entry: a distribution id and an account.
pub type BookKey = (u32, AccountId);

/// A map from `(id, account)` to a balance, stored as a list of entries with distinct keys.
pub struct AccountBook {
    entries: Vec<(u32, AccountId, Balance)>,
}

/// The key of an entry.
pub open spec fn entry_key(e: (u32, AccountId, Balance)) -> BookKey {
    (e.0, e.1)
}

/// Whether some entry of `s` has key `k`.
pub open spec fn holds_key(s: Seq<(u32, AccountId, Balance)>, k: BookKey) -> bool {
    exists|i: int| 0 <= i < s.len() && #[trigger] entry_key(s[i]) == k
}

/// The map that a list of entries with distinct keys stands for.
pub open spec fn entries_map(s: Seq<(u32, AccountId, Balance)>) -> Map<BookKey, Balance> {
    Map::new(
        |k: BookKey| holds_key(s, k),
        |k: BookKey| s[choose|i: int| 0 <= i < s.len() && #[trigger] entry_key(s[i]) == k].2,
    )
}

/// No two entries of `s` have the same key.
pub open spec fn keys_distinct(s: Seq<(u32, AccountId, Balance)>) -> bool {
    forall|i: int, j: int|
        0 <= i < s.len() && 0 <= j < s.len() && i != j ==> entry_key(#[trigger] s[i]) != entry_key(
            #[trigger] s[j],
        )
}

/// With distinct keys, the entry at `i` is what the map holds for its key.
proof fn lemma_entry_in_map(s: Seq<(u32, AccountId, Balance)>, i: int)
    requires
        keys_distinct(s),
        0 <= i < s.len(),
    ensures
        entries_map(s).contains_key(entry_key(s[i])),
        entries_map(s)[entry_key(s[i])] == s[i].2,
{
    let k = entry_key(s[i]);
    assert(holds_key(s, k));
    let j = choose|j: int| 0 <= j < s.len() && #[trigger] entry_key(s[j]) == k;
    assert(entry_key(s[j]) == k);
    assert(j == i);
}

impl View for AccountBook {
    type V = Map<BookKey, Balance>;

    closed spec fn view(&self) -> Map<BookKey, Balance> {
        entries_map(self.entries@)
    }
}

impl AccountBook {
    /// The book's entries have distinct keys, and it holds finitely many.
    pub closed spec fn wf(&self) -> bool {
        &&& keys_distinct(self.entries@)
        &&& entries_map(self.entries@).dom().finite()
    }

    /// A well-formed book holds balances for finitely many keys.
    pub proof fn lemma_wf_finite(&self)
        requires
            self.wf(),
        ensures
            self@.dom().finite(),
    {
    }

    /// An empty book.
    pub fn new() -> (r: Self)
        ensures
            r.wf(),
            r@ == Map::<BookKey, Balance>::empty(),
    {
        let r = AccountBook { entries: Vec::new() };
        assert(r@ =~= Map::<BookKey, Balance>::empty());
        assert(r@.dom() =~= Set::<BookKey>::empty());
        r
    }

    /// The position of the entry with key `(id, who)`, if any.
    fn find(&self, id: u32, who: &AccountId) -> (r: Option<usize>)
        requires
            self.wf(),
        ensures
            match r {
                Some(i) => i < self.entries@.len() && entry_key(self.entries@[i as int]) == (id, *who),
                None => !holds_key(self.entries@, (id, *who)),
            },
    {
        let mut i: usize = 0;
        while i < self.entries.len()
            invariant
                0 <= i <= self.entries@.len(),
                forall|j: int| 0 <= j < i ==> entry_key(#[trigger] self.entries@[j]) != (id, *who),
            decreases self.entries@.len() - i,
        {
            let e = &self.entries[i];
            if e.0 == id && account_eq(&e.1, who) {
                return Some(i);
            }
            i = i + 1;
        }
        None
    }

    /// The balance stored for `(id, who)`.
    pub fn get(&self, id: u32, who: &AccountId) -> (r: Option<Balance>)
        requires
            self.wf(),
        ensures
            r == if self@.contains_key((id, *who)) {
                Some(self@[(id, *who)])
            } else {
                None::<Balance>
            },
    {
        match self.find(id, who) {
            Some(i) => {
                proof {
                    lemma_entry_in_map(self.entries@, i as int);
                }
                Some(self.entries[i].2)
            },
            None => None,
        }
    }

    /// Stores `amount` for `(id, who)`, replacing what was there.
    pub fn insert(&mut self, id: u32, who: AccountId, amount: Balance)
        requires
            old(self).wf(),
        ensures
            final(self).wf(),
            final(self)@ == old(self)@.insert((id, who), amount),
    {
        let ghost pre = self.entries@;
        match self.find(id, &who) {
            Some(i) => {
                self.entries.set(i, (id, who, amount));
                proof {
                    let s = self.entries@;
                    assert(keys_distinct(s)) by {
                        assert forall|a: int, b: int|
                            0 <= a < s.len() && 0 <= b < s.len() && a != b implies entry_key(
                            #[trigger] s[a],
                        ) != entry_key(#[trigger] s[b]) by {
                            assert(entry_key(s[a]) == entry_key(pre[a]));
                            assert(entry_key(s[b]) == entry_key(pre[b]));
                        }
                    }
                    assert forall|k: BookKey| holds_key(s, k) == holds_key(pre, k) by {
                        if holds_key(s, k) {
                            let j = choose|j: int| 0 <= j < s.len() && #[trigger] entry_key(s[j]) == k;
                            assert(entry_key(pre[j]) == k);
                        }
                        if holds_key(pre, k) {
                            let j = choose|j: int| 0 <= j < pre.len() && #[trigger] entry_key(pre[j]) == k;
                            assert(entry_key(s[j]) == k);
                        }
                    }
                    assert forall|k: BookKey| #[trigger] holds_key(s, k) && k != (id, who) implies entries_map(s)[k] == entries_map(pre)[k] by {
                        let j = choose|j: int| 0 <= j < s.len() && #[trigger] entry_key(s[j]) == k;
                        lemma_entry_in_map(s, j);
                        lemma_entry_in_map(pre, j);
                    }
                    lemma_entry_in_map(s, i as int);
                    assert(entries_map(s) =~= entries_map(pre).insert((id, who), amount));
                }
            },
            None => {
                self.entries.push((id, who, amount));
                proof {
                    let s = self.entries@;
                    assert(keys_distinct(s)) by {
                        assert forall|a: int, b: int|
                            0 <= a < s.len() && 0 <= b < s.len() && a != b implies entry_key(
                            #[trigger] s[a],
                        ) != entry_key(#[trigger] s[b]) by {
                            if a < pre.len() && b < pre.len() {
                                assert(s[a] == pre[a] && s[b] == pre[b]);
                            } else if a < pre.len() {
                                assert(s[a] == pre[a]);
                            } else {
                                assert(s[b] == pre[b]);
                            }
                        }
                    }
                    assert forall|k: BookKey| holds_key(s, k) == (holds_key(pre, k) || k == (id, who)) by {
                        if holds_key(s, k) {
                            let j = choose|j: int| 0 <= j < s.len() && #[trigger] entry_key(s[j]) == k;
                            if j < pre.len() {
                                assert(entry_key(pre[j]) == k);
                            }
                        }
                        if holds_key(pre, k) {
                            let j = choose|j: int| 0 <= j < pre.len() && #[trigger] entry_key(pre[j]) == k;
                            assert(entry_key(s[j]) == k);
                        }
                        if k == (id, who) {
                            assert(entry_key(s[pre.len() as int]) == k);
                        }
                    }
                    assert forall|k: BookKey| #[trigger] holds_key(s, k) && k != (id, who) implies entries_map(s)[k] == entries_map(pre)[k] by {
                        let j = choose|j: int| 0 <= j < s.len() && #[trigger] entry_key(s[j]) == k;
                        assert(j < pre.len());
                        lemma_entry_in_map(s, j);
                        lemma_entry_in_map(pre, j);
                    }
                    lemma_entry_in_map(s, pre.len() as int);
                    assert(entries_map(s) =~= entries_map(pre).insert((id, who), amount));
                }
            },
        }
    }

    /// Removes and returns the balance stored for `(id, who)`.
    pub fn take(&mut self, id: u32, who: &AccountId) -> (r: Option<Balance>)
        requires
            old(self).wf(),
        ensures
            final(self).wf(),
            r == if old(self)@.contains_key((id, *who)) {
                Some(old(self)@[(id, *who)])
            } else {
                None::<Balance>
            },
            final(self)@ == old(self)@.remove((id, *who)),
    {
        let ghost pre = self.entries@;
        match self.find(id, who) {
            Some(i) => {
                proof {
                    lemma_entry_in_map(pre, i as int);
                }
                let e = self.entries.swap_remove(i);
                proof {
                    let s = self.entries@;
                    let last = pre.len() - 1;
                    // s is pre with position i replaced by the last entry, and the last dropped
                    assert(forall|j: int| 0 <= j < s.len() && j != i ==> s[j] == pre[j]);
                    assert(i < s.len() ==> s[i as int] == pre[last]);
                    assert(keys_distinct(s)) by {
                        assert forall|a: int, b: int|
                            0 <= a < s.len() && 0 <= b < s.len() && a != b implies entry_key(
                            #[trigger] s[a],
                        ) != entry_key(#[trigger] s[b]) by {
                            let pa = if a == i { last } else { a };
                            let pb = if b == i { last } else { b };
                            assert(s[a] == pre[pa]);
                            assert(s[b] == pre[pb]);
                        }
                    }
                    assert forall|k: BookKey| holds_key(s, k) == (holds_key(pre, k) && k != (id, *who)) by {
                        if holds_key(s, k) {
                            let j = choose|j: int| 0 <= j < s.len() && #[trigger] entry_key(s[j]) == k;
                            let pj = if j == i { last } else { j };
                            assert(s[j] == pre[pj]);
                            assert(entry_key(pre[pj]) == k);
                            assert(pj != i);
                        }
                        if holds_key(pre, k) && k != (id, *who) {
                            let j = choose|j: int| 0 <= j < pre.len() && #[trigger] entry_key(pre[j]) == k;
                            assert(j != i);
                            if j == last {
                                assert(entry_key(s[i as int]) == k);
                            } else {
                                assert(entry_key(s[j]) == k);
                            }
                        }
                    }
                    assert forall|k: BookKey| #[trigger] holds_key(s, k) implies entries_map(s)[k] == entries_map(pre)[k] by {
                        let j = choose|j: int| 0 <= j < s.len() && #[trigger] entry_key(s[j]) == k;
                        let pj = if j == i { last } else { j };
                        assert(s[j] == pre[pj]);
                        lemma_entry_in_map(s, j);
                        lemma_entry_in_map(pre, pj);
                    }
                    assert(entries_map(s) =~= entries_map(pre).remove((id, *who)));
                }
                Some(e.2)
            },
            None => {
                assert(self@ =~= self@.remove((id, *who)));
                None
            },
        }
    }
}

} // verus!
