use vstd::prelude::*;
use crate::account::Account;

verus! {

/// The per-account record of the block height of the most recent successful
/// claim. An absent entry (equivalently, a recorded height of zero) means
/// the account has never claimed. Entries are created lazily on the first
/// successful claim, overwritten on every later one, and never deleted.
pub struct Ledger {
    entries: Vec<(Account, u32)>,
}

/// The mapping denoted by a sequence of entries: a later entry for the same
/// account overwrites an earlier one.
spec fn map_of(s: Seq<(Account, u32)>) -> Map<Account, u32>
    decreases s.len(),
{
    if s.len() == 0 {
        Map::empty()
    } else {
        map_of(s.drop_last()).insert(s.last().0, s.last().1)
    }
}

/// The recorded height of `a` in the mapping `m`, with zero standing for
/// "never claimed".
pub open spec fn last_claim_of(m: Map<Account, u32>, a: Account) -> u32 {
    if m.contains_key(a) {
        m[a]
    } else {
        0
    }
}

proof fn lemma_map_of_contains(s: Seq<(Account, u32)>, a: Account)
    ensures
        map_of(s).contains_key(a) <==> exists|i: int| 0 <= i < s.len() && s[i].0 == a,
    decreases s.len(),
{
    if s.len() > 0 {
        lemma_map_of_contains(s.drop_last(), a);
        if s.last().0 == a {
            assert(s[s.len() - 1].0 == a);
        } else {
            if map_of(s).contains_key(a) {
                let i = choose|i: int| 0 <= i < s.drop_last().len() && s.drop_last()[i].0 == a;
                assert(s[i].0 == a);
            }
            if exists|i: int| 0 <= i < s.len() && s[i].0 == a {
                let i = choose|i: int| 0 <= i < s.len() && s[i].0 == a;
                assert(s.drop_last()[i].0 == a);
            }
        }
    }
}

proof fn lemma_map_of_last_occurrence(s: Seq<(Account, u32)>, i: int)
    requires
        0 <= i < s.len(),
        forall|j: int| i < j < s.len() ==> s[j].0 != s[i].0,
    ensures
        map_of(s).contains_key(s[i].0),
        map_of(s)[s[i].0] == s[i].1,
    decreases s.len(),
{
    if i < s.len() - 1 {
        assert(s.drop_last()[i] == s[i]);
        lemma_map_of_last_occurrence(s.drop_last(), i);
    }
}

proof fn lemma_map_of_update(s: Seq<(Account, u32)>, i: int, e: (Account, u32))
    requires
        0 <= i < s.len(),
        e.0 == s[i].0,
        forall|p: int, q: int| 0 <= p < q < s.len() ==> s[p].0 != s[q].0,
    ensures
        map_of(s.update(i, e)) == map_of(s).insert(e.0, e.1),
    decreases s.len(),
{
    let t = s.update(i, e);
    if i == s.len() - 1 {
        assert(t.drop_last() =~= s.drop_last());
        assert(map_of(t) == map_of(s.drop_last()).insert(e.0, e.1));
        assert(map_of(s.drop_last()).insert(s[i].0, s[i].1).insert(e.0, e.1) =~= map_of(
            s.drop_last(),
        ).insert(e.0, e.1));
    } else {
        assert(t.drop_last() =~= s.drop_last().update(i, e));
        assert(s.drop_last()[i] == s[i]);
        lemma_map_of_update(s.drop_last(), i, e);
        assert(t.last() == s.last());
        assert(map_of(t) == map_of(s.drop_last()).insert(e.0, e.1).insert(s.last().0, s.last().1));
        assert(s[i].0 != s.last().0);
        assert(map_of(s.drop_last()).insert(e.0, e.1).insert(s.last().0, s.last().1) =~= map_of(
            s.drop_last(),
        ).insert(s.last().0, s.last().1).insert(e.0, e.1));
    }
}

impl View for Ledger {
    type V = Map<Account, u32>;

    closed spec fn view(&self) -> Map<Account, u32> {
        map_of(self.entries@)
    }
}

impl Ledger {
    /// Each account appears in at most one entry.
    pub closed spec fn well_formed(&self) -> bool {
        forall|p: int, q: int|
            0 <= p < q < self.entries@.len() ==> self.entries@[p].0 != self.entries@[q].0
    }

    /// An empty ledger: no account has ever claimed.
    pub fn new() -> (l: Ledger)
        ensures
            l.well_formed(),
            l@ == Map::<Account, u32>::empty(),
    {
        Ledger { entries: Vec::new() }
    }

    /// Returns the recorded height for `account`, or zero if the account has
    /// never claimed. No side effects.
    pub fn get_last_claim(&self, account: &Account) -> (height: u32)
        requires
            self.well_formed(),
        ensures
            height == last_claim_of(self@, *account),
    {
        let n = self.entries.len();
        let mut i: usize = 0;
        while i < n
            invariant
                0 <= i <= n,
                n == self.entries@.len(),
                forall|j: int| 0 <= j < i ==> self.entries@[j].0 != *account,
                self.well_formed(),
            decreases n - i,
        {
            if self.entries[i].0 == *account {
                proof {
                    lemma_map_of_last_occurrence(self.entries@, i as int);
                }
                return self.entries[i].1;
            }
            i = i + 1;
        }
        proof {
            lemma_map_of_contains(self.entries@, *account);
        }
        0
    }

    /// Unconditionally overwrites the stored height for `account`; creates
    /// the entry if the account has never claimed.
    pub fn record_claim(&mut self, account: &Account, height: u32)
        requires
            old(self).well_formed(),
        ensures
            final(self).well_formed(),
            final(self)@ == old(self)@.insert(*account, height),
    {
        let n = self.entries.len();
        let mut i: usize = 0;
        while i < n
            invariant
                0 <= i <= n,
                n == self.entries@.len(),
                self.entries@ == old(self).entries@,
                self.well_formed(),
                forall|j: int| 0 <= j < i ==> self.entries@[j].0 != *account,
            decreases n - i,
        {
            if self.entries[i].0 == *account {
                proof {
                    lemma_map_of_update(self.entries@, i as int, (*account, height));
                }
                let ghost before = self.entries@;
                self.entries[i] = (*account, height);
                proof {
                    assert forall|p: int, q: int|
                        0 <= p < q < self.entries@.len() implies self.entries@[p].0
                        != self.entries@[q].0 by {
                        assert(self.entries@[p].0 == before[p].0);
                        assert(self.entries@[q].0 == before[q].0);
                    }
                }
                return;
            }
            i = i + 1;
        }
        proof {
            lemma_map_of_contains(self.entries@, *account);
        }
        self.entries.push((*account, height));
        proof {
            assert(self.entries@.drop_last() =~= old(self).entries@);
        }
    }
}

} // verus!
