//! Principals, authorization sets and the address-keyed table that the
//! components keep their per-account records in.

use vstd::prelude::*;

verus! {

/// A 256-bit identity of an account or of a contract.
#[derive(Clone, Copy, Debug, PartialEq, Eq, Structural, Hash)]
pub struct Address {
    /// `true` for a contract, `false` for an account.
    pub contract: bool,
    /// High half of the identifier.
    pub hi: u128,
    /// Low half of the identifier.
    pub lo: u128,
}

impl Address {
    /// The identity of an account.
    pub fn account(hi: u128, lo: u128) -> (r: Address)
        ensures
            r == (Address { contract: false, hi, lo }),
    {
        Address { contract: false, hi, lo }
    }

    /// The identity of a contract.
    pub fn contract(hi: u128, lo: u128) -> (r: Address)
        ensures
            r == (Address { contract: true, hi, lo }),
    {
        Address { contract: true, hi, lo }
    }
}

/// The principals that authorized the current invocation.
#[derive(Clone, Debug)]
pub struct Auth {
    pub signers: Vec<Address>,
}

impl Auth {
    /// Whether `who` authorized the invocation.
    pub open spec fn has(&self, who: Address) -> bool {
        self.signers@.contains(who)
    }

    /// An invocation that nobody authorized.
    pub fn none() -> (r: Auth)
        ensures
            forall|a: Address| !r.has(a),
    {
        Auth { signers: Vec::new() }
    }

    /// An invocation authorized by `who` alone.
    pub fn single(who: Address) -> (r: Auth)
        ensures
            forall|a: Address| r.has(a) <==> a == who,
    {
        let mut signers: Vec<Address> = Vec::new();
        signers.push(who);
        proof {
            assert(signers@[0] == who);
            assert forall|a: Address| signers@.contains(a) implies a == who by {
                let i = choose|i: int| 0 <= i < signers@.len() && signers@[i] == a;
                assert(i == 0);
            }
        }
        Auth { signers }
    }

    /// An invocation authorized by every principal in `signers`.
    pub fn of(signers: Vec<Address>) -> (r: Auth)
        ensures
            r.signers@ == signers@,
    {
        Auth { signers }
    }

    /// Tests whether `who` authorized the invocation.
    pub fn require_auth(&self, who: &Address) -> (r: bool)
        ensures
            r == self.has(*who),
    {
        let mut i: usize = 0;
        while i < self.signers.len()
            invariant
                i <= self.signers@.len(),
                forall|j: int| 0 <= j < i ==> self.signers@[j] != *who,
            decreases self.signers@.len() - i,
        {
            if self.signers[i] == *who {
                return true;
            }
            i += 1;
        }
        false
    }
}

/// A table from addresses to records, in insertion order.
#[derive(Debug)]
pub struct AddressMap<V> {
    entries: Vec<(Address, V)>,
}

impl<V> View for AddressMap<V> {
    type V = Map<Address, V>;

    open spec fn view(&self) -> Map<Address, V> {
        Map::new(
            |a: Address| self.keys().contains(a),
            |a: Address| self.values()[self.keys().index_of(a)],
        )
    }
}

impl<V> AddressMap<V> {
    /// The keys, in insertion order.
    pub closed spec fn keys(&self) -> Seq<Address> {
        self.entries@.map_values(|e: (Address, V)| e.0)
    }

    /// The records, each at the position of its key.
    pub closed spec fn values(&self) -> Seq<V> {
        self.entries@.map_values(|e: (Address, V)| e.1)
    }

    /// Every key has one record and occurs once.
    pub open spec fn wf(&self) -> bool {
        &&& self.keys().len() == self.values().len()
        &&& self.keys().no_duplicates()
    }

    #[verifier::type_invariant]
    spec fn well_formed(&self) -> bool {
        self.wf()
    }

    /// The record of `a`, or `absent` where there is none.
    pub open spec fn get_or(&self, a: Address, absent: V) -> V {
        if self@.contains_key(a) {
            self@[a]
        } else {
            absent
        }
    }

    /// In a well-formed table the record at position `i` is the record of the
    /// key at position `i`.
    pub proof fn lemma_position(&self, i: int)
        requires
            self.wf(),
            0 <= i < self.keys().len(),
        ensures
            self@.contains_key(self.keys()[i]),
            self@[self.keys()[i]] == self.values()[i],
            self.keys().index_of(self.keys()[i]) == i,
    {
        let a = self.keys()[i];
        assert(self.keys().contains(a));
        let j = self.keys().index_of(a);
        assert(0 <= j < self.keys().len() && self.keys()[j] == a);
    }

    /// Setting the record of `a` in `before` gives `after`, where `after` has
    /// the keys and records of `before` with the record of `a` replaced, or
    /// with `a` and its record added at the end.
    proof fn lemma_inserted(before: Self, after: Self, a: Address, v: V)
        requires
            before.wf(),
            before.keys().contains(a) ==> after.keys() == before.keys() && after.values()
                == before.values().update(before.keys().index_of(a), v),
            !before.keys().contains(a) ==> after.keys() == before.keys().push(a) && after.values()
                == before.values().push(v),
        ensures
            after.wf(),
            after@ == before@.insert(a, v),
    {
        let n = before.keys().len() as int;
        if before.keys().contains(a) {
            let i = before.keys().index_of(a);
            assert forall|k: Address| #[trigger] after@.contains_key(k) implies after@[k]
                == before@.insert(a, v)[k] by {
                let j = after.keys().index_of(k);
                assert(0 <= j < after.keys().len() && after.keys()[j] == k);
                if k == a {
                    assert(j == i);
                }
            }
            assert(after@ =~= before@.insert(a, v));
        } else {
            assert(after.keys()[n] == a);
            assert forall|x: int, y: int|
                0 <= x < after.keys().len() && 0 <= y < after.keys().len() && x
                    != y implies after.keys()[x] != after.keys()[y] by {
                if x < n && y < n {
                } else if x == n {
                    assert(before.keys()[y] == after.keys()[y]);
                } else {
                    assert(before.keys()[x] == after.keys()[x]);
                }
            }
            assert forall|k: Address| #[trigger]
                before@.insert(a, v).contains_key(k) implies after@.contains_key(k) && after@[k]
                == before@.insert(a, v)[k] by {
                if k == a {
                    after.lemma_position(n);
                } else {
                    let j = before.keys().index_of(k);
                    assert(0 <= j < n && before.keys()[j] == k);
                    assert(after.keys()[j] == k);
                    after.lemma_position(j);
                }
            }
            assert forall|k: Address| #[trigger]
                after@.contains_key(k) implies before@.insert(a, v).contains_key(k) by {
                let j = after.keys().index_of(k);
                assert(0 <= j < after.keys().len() && after.keys()[j] == k);
                if j < n {
                    assert(before.keys()[j] == k);
                }
            }
            assert(after@ =~= before@.insert(a, v));
        }
    }
}

impl<V: Copy> Clone for AddressMap<V> {
    fn clone(&self) -> (r: Self)
        ensures
            r.keys() == self.keys(),
            r.values() == self.values(),
            r@ == self@,
    {
        proof {
            use_type_invariant(self);
        }
        let mut entries: Vec<(Address, V)> = Vec::new();
        let mut i: usize = 0;
        while i < self.entries.len()
            invariant
                i <= self.entries@.len(),
                entries@ == self.entries@.take(i as int),
            decreases self.entries@.len() - i,
        {
            entries.push(self.entries[i]);
            i += 1;
        }
        proof {
            assert(entries@ =~= self.entries@);
        }
        AddressMap { entries }
    }
}

impl<V: Copy> AddressMap<V> {
    /// The empty table.
    pub fn new() -> (r: Self)
        ensures
            r.wf(),
            r@ == Map::<Address, V>::empty(),
            r.keys().len() == 0,
            r.values().len() == 0,
    {
        let r = AddressMap { entries: Vec::new() };
        assert(r@ =~= Map::<Address, V>::empty());
        r
    }

    /// Number of records.
    pub fn len(&self) -> (r: usize)
        ensures
            r == self.keys().len(),
            r == self.values().len(),
            self.wf(),
    {
        proof {
            use_type_invariant(self);
        }
        self.entries.len()
    }

    /// The key at position `i`.
    pub fn key_at(&self, i: usize) -> (r: Address)
        requires
            i < self.keys().len(),
        ensures
            r == self.keys()[i as int],
            self@.contains_key(r),
            self@[r] == self.values()[i as int],
    {
        proof {
            use_type_invariant(self);
            self.lemma_position(i as int);
        }
        self.entries[i].0
    }

    /// The record at position `i`.
    pub fn value_at(&self, i: usize) -> (r: V)
        requires
            i < self.values().len(),
        ensures
            r == self.values()[i as int],
    {
        self.entries[i].1
    }

    /// Position of `a` among the keys, if it has a record.
    pub fn position(&self, a: &Address) -> (r: Option<usize>)
        ensures
            self.wf(),
            match r {
                Some(i) => i < self.keys().len() && self.keys()[i as int] == *a
                    && self@.contains_key(*a) && self.keys().index_of(*a) == i
                    && self@[*a] == self.values()[i as int],
                None => !self@.contains_key(*a) && !self.keys().contains(*a),
            },
    {
        proof {
            use_type_invariant(self);
        }
        let mut i: usize = 0;
        while i < self.entries.len()
            invariant
                i <= self.keys().len(),
                self.keys().len() == self.entries@.len(),
                self.wf(),
                forall|j: int| 0 <= j < i ==> self.keys()[j] != *a,
            decreases self.keys().len() - i,
        {
            if self.entries[i].0 == *a {
                proof {
                    self.lemma_position(i as int);
                }
                return Some(i);
            }
            i += 1;
        }
        None
    }

    /// The record of `a`, if there is one.
    pub fn get(&self, a: &Address) -> (r: Option<V>)
        ensures
            self.wf(),
            r == (if self@.contains_key(*a) {
                Some(self@[*a])
            } else {
                None
            }),
    {
        match self.position(a) {
            Some(i) => Some(self.entries[i].1),
            None => None,
        }
    }

    /// Whether `a` has a record.
    pub fn contains_key(&self, a: &Address) -> (r: bool)
        ensures
            self.wf(),
            r == self@.contains_key(*a),
    {
        self.position(a).is_some()
    }

    /// Sets the record of `a` to `v`. An existing record is replaced in place;
    /// a new one goes to the end.
    pub fn insert(&mut self, a: Address, v: V)
        ensures
            old(self).wf(),
            final(self).wf(),
            final(self)@ == old(self)@.insert(a, v),
            old(self)@.contains_key(a) ==> final(self).keys() == old(self).keys()
                && final(self).values() == old(self).values().update(
                old(self).keys().index_of(a),
                v,
            ),
            !old(self)@.contains_key(a) ==> final(self).keys() == old(self).keys().push(a)
                && final(self).values() == old(self).values().push(v),
    {
        let ghost before = *self;
        let found = self.position(&a);
        let mut entries: Vec<(Address, V)> = Vec::new();
        std::mem::swap(&mut entries, &mut self.entries);
        match found {
            Some(i) => {
                entries.set(i, (a, v));
            },
            None => {
                entries.push((a, v));
            },
        }
        proof {
            let after = AddressMap { entries };
            if found is Some {
                assert(after.keys() =~= before.keys());
                assert(after.values() =~= before.values().update(found->Some_0 as int, v));
            } else {
                assert(after.keys() =~= before.keys().push(a));
                assert(after.values() =~= before.values().push(v));
            }
            Self::lemma_inserted(before, after, a, v);
        }
        self.entries = entries;
    }
}

} // verus!
