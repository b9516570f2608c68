//! The ledger's state: the configuration singleton and the balance table,
//! with the accounting operations that credit and debit it.

use vstd::prelude::*;

verus! {

/// The configuration singleton: written once at initialization, immutable
/// thereafter.
pub struct State {
    /// The identity that performed initialization.
    pub owner: String,
    /// The identifier of the external asset this ledger is authorized to move.
    pub cw20_addr: String,
}

/// The withdrawable amount of `who` in `s` under first-match lookup, with an
/// absent entry reading as zero.
pub open spec fn lookup(s: Seq<(String, u128)>, who: Seq<char>) -> u128
    decreases s.len(),
{
    if s.len() == 0 {
        0u128
    } else if s[0].0@ == who {
        s[0].1
    } else {
        lookup(s.drop_first(), who)
    }
}

/// The sum of all withdrawable amounts in `s`.
pub open spec fn sum_of(s: Seq<(String, u128)>) -> int
    decreases s.len(),
{
    if s.len() == 0 {
        0
    } else {
        s[0].1 + sum_of(s.drop_first())
    }
}

/// Whether no recipient identity owns two entries of `s`.
pub open spec fn unique_keys(s: Seq<(String, u128)>) -> bool {
    forall|i: int, j: int|
        0 <= i < j < s.len() ==> #[trigger] s[i].0@ != #[trigger] s[j].0@
}

/// The whole ledger: the configuration singleton and one balance entry per
/// recipient identity ever credited.
pub struct Ledger {
    config: Option<State>,
    balances: Vec<(String, u128)>,
}

impl Ledger {
    /// The stored entries, the representation a host persists.
    pub closed spec fn entries_spec(self) -> Seq<(String, u128)> {
        self.balances@
    }

    /// Well-formedness: no recipient identity owns two entries.
    pub open spec fn wf(self) -> bool {
        unique_keys(self.entries_spec())
    }

    /// The configuration, if initialization has happened.
    pub closed spec fn cfg(self) -> Option<State> {
        self.config
    }

    /// Whether the configuration singleton exists.
    pub open spec fn initialized(self) -> bool {
        self.cfg() is Some
    }

    /// The administrator identity recorded at initialization.
    pub open spec fn owner_spec(self) -> Seq<char> {
        self.cfg()->Some_0.owner@
    }

    /// The approved asset identifier recorded at initialization.
    pub open spec fn cw20_addr_spec(self) -> Seq<char> {
        self.cfg()->Some_0.cw20_addr@
    }

    /// The withdrawable amount of `who`, zero when never credited.
    pub open spec fn balance_of(self, who: Seq<char>) -> u128 {
        lookup(self.entries_spec(), who)
    }

    /// Whether an entry for `who` is stored at all.
    pub open spec fn has_entry(self, who: Seq<char>) -> bool {
        exists|i: int|
            0 <= i < self.entries_spec().len() && #[trigger] self.entries_spec()[i].0@ == who
    }

    /// The total of all stored balances.
    pub open spec fn total(self) -> int {
        sum_of(self.entries_spec())
    }

    /// Rebuilds a ledger from the parts a host persisted, rejecting a
    /// balance table in which one identity owns two entries.
    pub fn from_parts(config: Option<State>, balances: Vec<(String, u128)>) -> (r: Option<
        Ledger,
    >)
        ensures
            r is Some <==> unique_keys(balances@),
            r matches Some(l) ==> l.wf() && l.cfg() == config && l.entries_spec() == balances@,
    {
        let n = balances.len();
        let mut i: usize = 0;
        while i < n
            invariant
                n == balances@.len(),
                i <= n,
                forall|a: int, b: int|
                    0 <= a < b < n && a < i ==> #[trigger] balances@[a].0@ != #[trigger] balances@[b].0@,
            decreases n - i,
        {
            let mut j: usize = i + 1;
            while j < n
                invariant
                    n == balances@.len(),
                    i < j <= n,
                    i < n,
                    forall|b: int| i < b < j ==> #[trigger] balances@[b].0@ != balances@[i as int].0@,
                decreases n - j,
            {
                if balances[i].0 == balances[j].0 {
                    assert(!unique_keys(balances@));
                    return None;
                }
                j += 1;
            }
            i += 1;
        }
        Some(Ledger { config, balances })
    }

    /// Hands out the stored entries, for a host that persists the ledger.
    pub fn entries(&self) -> (r: &Vec<(String, u128)>)
        ensures
            r@ == self.entries_spec(),
    {
        &self.balances
    }

    /// An empty ledger: uninitialized, every balance zero.
    pub fn new() -> (l: Ledger)
        ensures
            l.wf(),
            !l.initialized(),
            forall|k: Seq<char>| #[trigger] l.balance_of(k) == 0,
            l.total() == 0,
    {
        Ledger { config: None, balances: Vec::new() }
    }

    /// Records the configuration singleton, leaving every balance as it was.
    pub(crate) fn set_config(&mut self, s: State)
        ensures
            final(self).wf() == old(self).wf(),
            final(self).cfg() == Some(s),
            forall|k: Seq<char>| #[trigger] final(self).balance_of(k) == old(self).balance_of(k),
            final(self).total() == old(self).total(),
    {
        self.config = Some(s);
    }

    /// Hands out the configuration singleton, if it exists.
    pub fn get_config(&self) -> (r: Option<&State>)
        ensures
            match r {
                Some(s) => self.initialized() && Some(*s) == self.cfg(),
                None => !self.initialized(),
            },
    {
        self.config.as_ref()
    }

    /// The index of `who`'s entry, if one exists.
    fn find_index(&self, who: &String) -> (r: Option<usize>)
        ensures
            match r {
                Some(i) => {
                    &&& i < self.balances@.len()
                    &&& self.balances@[i as int].0@ == who@
                    &&& forall|j: int| 0 <= j < i ==> #[trigger] self.balances@[j].0@ != who@
                    &&& self.balance_of(who@) == self.balances@[i as int].1
                },
                None => {
                    &&& forall|j: int|
                        0 <= j < self.balances@.len() ==> #[trigger] self.balances@[j].0@ != who@
                    &&& self.balance_of(who@) == 0
                },
            },
    {
        let n = self.balances.len();
        let mut i: usize = 0;
        while i < n
            invariant
                n == self.balances@.len(),
                i <= n,
                forall|j: int| 0 <= j < i ==> #[trigger] self.balances@[j].0@ != who@,
            decreases n - i,
        {
            if self.balances[i].0 == *who {
                proof {
                    lemma_lookup_skip(self.balances@, who@, i as int);
                }
                return Some(i);
            }
            i += 1;
        }
        proof {
            lemma_lookup_skip(self.balances@, who@, n as int);
        }
        None
    }

    /// Reads the withdrawable amount of `who`, zero when never credited.
    pub fn get_balance(&self, who: &String) -> (r: u128)
        ensures
            r == self.balance_of(who@),
    {
        match self.find_index(who) {
            Some(i) => self.balances[i].1,
            None => 0,
        }
    }

    /// Adds `add` to the withdrawable amount of `who`, creating the entry at
    /// zero if absent; the caller has already ruled the sum representable.
    pub(crate) fn credit(&mut self, who: &String, add: u128)
        requires
            old(self).wf(),
            old(self).balance_of(who@) + add <= u128::MAX,
        ensures
            final(self).wf(),
            final(self).cfg() == old(self).cfg(),
            final(self).balance_of(who@) == old(self).balance_of(who@) + add,
            forall|k: Seq<char>|
                k != who@ ==> #[trigger] final(self).balance_of(k) == old(self).balance_of(k),
            final(self).total() == old(self).total() + add,
    {
        match self.find_index(who) {
            Some(i) => {
                let cur: u128 = self.balances[i].1;
                let ghost pre = self.balances@;
                self.balances[i].1 = cur + add;
                proof {
                    assert(self.balances@ == pre.update(
                        i as int,
                        (pre[i as int].0, (cur + add) as u128),
                    ));
                    lemma_update_amount(pre, i as int, (cur + add) as u128, who@);
                    lemma_sum_update(pre, i as int, (pre[i as int].0, (cur + add) as u128));
                }
            },
            None => {
                let ghost pre = self.balances@;
                self.balances.push((who.clone(), add));
                proof {
                    let x = self.balances@.last();
                    assert(self.balances@ == pre.push(x));
                    lemma_push_new(pre, x, who@);
                    lemma_sum_push(pre, x);
                }
            },
        }
    }

    /// Subtracts `amount` from the withdrawable amount of `who`; the caller
    /// has already established that the balance suffices.
    pub(crate) fn debit(&mut self, who: &String, amount: u128)
        requires
            old(self).wf(),
            amount <= old(self).balance_of(who@),
        ensures
            final(self).wf(),
            final(self).cfg() == old(self).cfg(),
            final(self).balance_of(who@) == old(self).balance_of(who@) - amount,
            forall|k: Seq<char>|
                k != who@ ==> #[trigger] final(self).balance_of(k) == old(self).balance_of(k),
            final(self).total() == old(self).total() - amount,
    {
        match self.find_index(who) {
            Some(i) => {
                let cur: u128 = self.balances[i].1;
                let ghost pre = self.balances@;
                self.balances[i].1 = cur - amount;
                proof {
                    assert(self.balances@ == pre.update(
                        i as int,
                        (pre[i as int].0, (cur - amount) as u128),
                    ));
                    lemma_update_amount(pre, i as int, (cur - amount) as u128, who@);
                    lemma_sum_update(pre, i as int, (pre[i as int].0, (cur - amount) as u128));
                }
            },
            None => {
                // The balance is zero, so only a zero debit reaches here.
            },
        }
    }
}

/// Default-on-read: an identity that owns no entry reads as a zero balance,
/// never as an error.
pub proof fn lemma_default_zero(l: Ledger, who: Seq<char>)
    requires
        !l.has_entry(who),
    ensures
        l.balance_of(who) == 0,
{
    let s = l.entries_spec();
    assert forall|j: int| 0 <= j < s.len() implies #[trigger] s[j].0@ != who by {
        if s[j].0@ == who {
            assert(l.has_entry(who));
        }
    }
    lemma_lookup_skip(s, who, s.len() as int);
    assert(s.skip(s.len() as int) =~= Seq::<(String, u128)>::empty());
    assert(lookup(Seq::<(String, u128)>::empty(), who) == 0);
}

/// If no entry before index `i` matches `who`, lookup may start at `i`.
proof fn lemma_lookup_skip(s: Seq<(String, u128)>, who: Seq<char>, i: int)
    requires
        0 <= i <= s.len(),
        forall|j: int| 0 <= j < i ==> #[trigger] s[j].0@ != who,
    ensures
        lookup(s, who) == lookup(s.skip(i), who),
    decreases i,
{
    if i == 0 {
        assert(s.skip(0) =~= s);
    } else {
        assert(s[0].0@ != who);
        lemma_lookup_skip(s.drop_first(), who, i - 1);
        assert(s.drop_first().skip(i - 1) =~= s.skip(i));
    }
}

/// Replacing the amount at the first entry of a key rewrites that key's
/// lookup and no other key's.
proof fn lemma_update_amount(s: Seq<(String, u128)>, i: int, v: u128, who: Seq<char>)
    requires
        0 <= i < s.len(),
        s[i].0@ == who,
        forall|j: int| 0 <= j < i ==> #[trigger] s[j].0@ != who,
    ensures
        lookup(s.update(i, (s[i].0, v)), who) == v,
        forall|k: Seq<char>| k != who ==> #[trigger] lookup(s.update(i, (s[i].0, v)), k) == lookup(s, k),
{
    let u = s.update(i, (s[i].0, v));
    assert forall|j: int| 0 <= j < i implies #[trigger] u[j].0@ != who by {
        assert(u[j] == s[j]);
    }
    lemma_lookup_skip(u, who, i);
    assert(u.skip(i)[0] == u[i]);
    assert(lookup(u.skip(i), who) == v);
    assert forall|k: Seq<char>| k != who implies #[trigger] lookup(u, k) == lookup(s, k) by {
        lemma_lookup_update_other(s, i, (s[i].0, v), k);
    }
}

/// Rewriting the entry at `i` without changing its key leaves the lookup of
/// every other key as it was.
proof fn lemma_lookup_update_other(s: Seq<(String, u128)>, i: int, x: (String, u128), k: Seq<char>)
    requires
        0 <= i < s.len(),
        x.0@ == s[i].0@,
        k != s[i].0@,
    ensures
        lookup(s.update(i, x), k) == lookup(s, k),
    decreases s.len(),
{
    let u = s.update(i, x);
    if i == 0 {
        assert(u[0].0@ != k);
        assert(s[0].0@ != k);
        assert(u.drop_first() =~= s.drop_first());
    } else {
        assert(u[0] == s[0]);
        if s[0].0@ == k {
        } else {
            assert(u.drop_first() =~= s.drop_first().update(i - 1, x));
            assert(s.drop_first()[i - 1] == s[i]);
            lemma_lookup_update_other(s.drop_first(), i - 1, x, k);
        }
    }
}

/// Appending an entry with a fresh key gives that key its amount and leaves
/// the lookup of every other key as it was.
proof fn lemma_push_new(s: Seq<(String, u128)>, x: (String, u128), who: Seq<char>)
    requires
        x.0@ == who,
        forall|j: int| 0 <= j < s.len() ==> #[trigger] s[j].0@ != who,
    ensures
        lookup(s.push(x), who) == x.1,
        forall|k: Seq<char>| k != who ==> #[trigger] lookup(s.push(x), k) == lookup(s, k),
{
    let u = s.push(x);
    assert forall|j: int| 0 <= j < s.len() implies #[trigger] u[j].0@ != who by {
        assert(u[j] == s[j]);
    }
    lemma_lookup_skip(u, who, s.len() as int);
    assert(u.skip(s.len() as int)[0] == x);
    assert forall|k: Seq<char>| k != who implies #[trigger] lookup(u, k) == lookup(s, k) by {
        lemma_lookup_push_other(s, x, k);
    }
}

/// Appending an entry leaves the lookup of every other key as it was.
proof fn lemma_lookup_push_other(s: Seq<(String, u128)>, x: (String, u128), k: Seq<char>)
    requires
        k != x.0@,
    ensures
        lookup(s.push(x), k) == lookup(s, k),
    decreases s.len(),
{
    let u = s.push(x);
    if s.len() == 0 {
        assert(u[0] == x);
        assert(u.drop_first() =~= Seq::<(String, u128)>::empty());
        assert(lookup(Seq::<(String, u128)>::empty(), k) == 0);
    } else {
        assert(u[0] == s[0]);
        if s[0].0@ == k {
        } else {
            assert(u.drop_first() =~= s.drop_first().push(x));
            lemma_lookup_push_other(s.drop_first(), x, k);
        }
    }
}

/// Replacing the entry at `i` moves the sum by the difference of amounts.
proof fn lemma_sum_update(s: Seq<(String, u128)>, i: int, x: (String, u128))
    requires
        0 <= i < s.len(),
    ensures
        sum_of(s.update(i, x)) == sum_of(s) - s[i].1 + x.1,
    decreases s.len(),
{
    let u = s.update(i, x);
    if i == 0 {
        assert(u[0] == x);
        assert(u.drop_first() =~= s.drop_first());
    } else {
        assert(u[0] == s[0]);
        assert(u.drop_first() =~= s.drop_first().update(i - 1, x));
        assert(s.drop_first()[i - 1] == s[i]);
        lemma_sum_update(s.drop_first(), i - 1, x);
    }
}

/// Appending an entry adds its amount to the sum.
proof fn lemma_sum_push(s: Seq<(String, u128)>, x: (String, u128))
    ensures
        sum_of(s.push(x)) == sum_of(s) + x.1,
    decreases s.len(),
{
    let u = s.push(x);
    if s.len() == 0 {
        assert(u[0] == x);
        assert(u.drop_first() =~= Seq::<(String, u128)>::empty());
        assert(sum_of(Seq::<(String, u128)>::empty()) == 0);
    } else {
        assert(u[0] == s[0]);
        assert(u.drop_first() =~= s.drop_first().push(x));
        lemma_sum_push(s.drop_first(), x);
    }
}

} // verus!
