use vstd::prelude::*;

use crate::principal::Principal;

verus! {

/// Token amounts by principal; each principal appears at most once.
#[derive(Debug)]
pub struct AmountMap {
    keys: Vec<Principal>,
    values: Vec<u128>,
}

impl AmountMap {
    spec fn index_of_key(&self, k: Seq<u8>) -> int {
        choose|i: int| 0 <= i < self.keys@.len() && #[trigger] self.keys@[i]@ == k
    }

    /// The keys are distinct and each has a value.
    pub closed spec fn wf(&self) -> bool {
        &&& self.keys@.len() == self.values@.len()
        &&& forall|i: int, j: int|
            0 <= i < self.keys@.len() && 0 <= j < self.keys@.len() && i != j ==> #[trigger] self.keys@[i]@
                != #[trigger] self.keys@[j]@
    }

    /// An empty map.
    pub fn new() -> (r: AmountMap)
        ensures
            r.wf(),
            r@ == Map::<Seq<u8>, u128>::empty(),
    {
        let r = AmountMap { keys: Vec::new(), values: Vec::new() };
        assert(r@ =~= Map::<Seq<u8>, u128>::empty());
        r
    }

    /// The position of `k`, if it is a key.
    fn find(&self, k: &Principal) -> (r: Option<usize>)
        requires
            self.wf(),
        ensures
            match r {
                Some(i) => i < self.keys@.len() && self.keys@[i as int]@ == k@ && self@.contains_key(k@)
                    && self@[k@] == self.values@[i as int],
                None => !self@.contains_key(k@),
            },
    {
        let mut i: usize = 0;
        while i < self.keys.len()
            invariant
                self.wf(),
                i <= self.keys@.len(),
                forall|j: int| 0 <= j < i ==> #[trigger] self.keys@[j]@ != k@,
            decreases self.keys@.len() - i,
        {
            if self.keys[i].same(k) {
                assert(self.keys@[i as int]@ == k@);
                let ghost c = self.index_of_key(k@);
                assert(self.keys@[c]@ == k@);
                assert(c == i);
                return Some(i);
            }
            i = i + 1;
        }
        None
    }

    /// The amount held for `k`, if any.
    pub fn get(&self, k: &Principal) -> (r: Option<u128>)
        requires
            self.wf(),
        ensures
            r == (if self@.contains_key(k@) {
                Some(self@[k@])
            } else {
                None::<u128>
            }),
    {
        match self.find(k) {
            Some(i) => Some(self.values[i]),
            None => None,
        }
    }

    /// Whether `k` is a key.
    pub fn contains_key(&self, k: &Principal) -> (r: bool)
        requires
            self.wf(),
        ensures
            r == self@.contains_key(k@),
    {
        self.find(k).is_some()
    }

    /// Sets the amount held for `k`.
    pub fn insert(&mut self, k: Principal, v: u128)
        requires
            old(self).wf(),
        ensures
            final(self).wf(),
            final(self)@ == old(self)@.insert(k@, v),
    {
        match self.find(&k) {
            Some(i) => {
                self.values.set(i, v);
                assert forall|key: Seq<u8>| #[trigger] self@.contains_key(key) implies self@[key] == old(self)@.insert(
                    k@,
                    v,
                )[key] by {
                    let c: int = self.index_of_key(key);
                    if key == k@ {
                        assert(self.keys@[i as int]@ == key);
                    } else {
                        assert(c != i);
                        assert(old(self).keys@[c]@ == key);
                    }
                }
                assert(self@ =~= old(self)@.insert(k@, v));
            },
            None => {
                let ghost kv = k@;
                self.keys.push(k);
                self.values.push(v);
                let ghost n = old(self).keys@.len() as int;
                assert(self.keys@[n]@ == kv);
                assert forall|key: Seq<u8>| #[trigger] self@.contains_key(key) implies self@[key] == old(self)@.insert(
                    kv,
                    v,
                )[key] by {
                    let c: int = self.index_of_key(key);
                    if key == kv {
                        assert(c == n);
                    } else {
                        assert(c != n);
                        assert(old(self).keys@[c]@ == key);
                    }
                }
                assert forall|key: Seq<u8>| old(self)@.insert(kv, v).contains_key(key) implies #[trigger] self@.contains_key(
                    key,
                ) by {
                    if key != kv {
                        let c: int = old(self).index_of_key(key);
                        assert(self.keys@[c]@ == key);
                    }
                }
                assert(self@ =~= old(self)@.insert(kv, v));
            },
        }
    }

    /// A copy of the map.
    pub fn copy(&self) -> (r: AmountMap)
        requires
            self.wf(),
        ensures
            r.wf(),
            r@ == self@,
    {
        let mut keys: Vec<Principal> = Vec::new();
        let mut i: usize = 0;
        while i < self.keys.len()
            invariant
                i <= self.keys@.len(),
                keys@.len() == i,
                forall|j: int| 0 <= j < i ==> #[trigger] keys@[j]@ == self.keys@[j]@,
            decreases self.keys@.len() - i,
        {
            keys.push(self.keys[i].clone());
            i = i + 1;
        }
        let r = AmountMap { keys, values: self.values.clone() };
        assert(r.values@ =~= self.values@);
        assert forall|k: Seq<u8>| #[trigger] r@.contains_key(k) <==> self@.contains_key(k) by {
            if r@.contains_key(k) {
                let c: int = r.index_of_key(k);
                assert(self.keys@[c]@ == k);
            }
            if self@.contains_key(k) {
                let c: int = self.index_of_key(k);
                assert(r.keys@[c]@ == k);
            }
        }
        assert forall|k: Seq<u8>| #[trigger] r@.contains_key(k) implies r@[k] == self@[k] by {
            let c: int = r.index_of_key(k);
            let d: int = self.index_of_key(k);
            assert(self.keys@[c]@ == k);
        }
        assert(r@ =~= self@);
        r
    }
}

impl View for AmountMap {
    type V = Map<Seq<u8>, u128>;

    closed spec fn view(&self) -> Map<Seq<u8>, u128> {
        Map::new(
            |k: Seq<u8>| exists|i: int| 0 <= i < self.keys@.len() && #[trigger] self.keys@[i]@ == k,
            |k: Seq<u8>| self.values@[self.index_of_key(k)],
        )
    }
}

/// The amount a map holds for `k`, or 0 where it holds none.
pub open spec fn amount_or_zero(m: Map<Seq<u8>, u128>, k: Seq<u8>) -> u128 {
    if m.contains_key(k) {
        m[k]
    } else {
        0
    }
}

/// The token balance of each holder.
#[derive(Debug)]
pub struct Balances(pub AmountMap);

impl Balances {
    /// No holders.
    pub fn new() -> (r: Balances)
        ensures
            r.0.wf(),
            r.0@ == Map::<Seq<u8>, u128>::empty(),
    {
        Balances(AmountMap::new())
    }

    /// The balance of `who`: 0 for a principal that holds nothing.
    pub fn balance_of(&self, who: &Principal) -> (r: u128)
        requires
            self.0.wf(),
        ensures
            r == amount_or_zero(self.0@, who@),
    {
        match self.0.get(who) {
            Some(v) => v,
            None => 0,
        }
    }
}

/// For each owner, the amount that each spender may transfer on its behalf.
#[derive(Debug)]
pub struct Allowances {
    owners: Vec<Principal>,
    spenders: Vec<AmountMap>,
}

impl Allowances {
    spec fn index_of_owner(&self, k: Seq<u8>) -> int {
        choose|i: int| 0 <= i < self.owners@.len() && #[trigger] self.owners@[i]@ == k
    }

    /// The owners are distinct, each has a map of spenders, and each such
    /// map is well formed.
    pub closed spec fn wf(&self) -> bool {
        &&& self.owners@.len() == self.spenders@.len()
        &&& forall|i: int, j: int|
            0 <= i < self.owners@.len() && 0 <= j < self.owners@.len() && i != j ==> #[trigger] self.owners@[i]@
                != #[trigger] self.owners@[j]@
        &&& forall|i: int| 0 <= i < self.spenders@.len() ==> #[trigger] self.spenders@[i].wf()
    }

    /// No allowances.
    pub fn new() -> (r: Allowances)
        ensures
            r.wf(),
            r@ == Map::<Seq<u8>, Map<Seq<u8>, u128>>::empty(),
    {
        let r = Allowances { owners: Vec::new(), spenders: Vec::new() };
        assert(r@ =~= Map::<Seq<u8>, Map<Seq<u8>, u128>>::empty());
        r
    }

    fn find(&self, k: &Principal) -> (r: Option<usize>)
        requires
            self.wf(),
        ensures
            match r {
                Some(i) => i < self.owners@.len() && self.owners@[i as int]@ == k@ && self@.contains_key(k@)
                    && self@[k@] == self.spenders@[i as int]@,
                None => !self@.contains_key(k@),
            },
    {
        let mut i: usize = 0;
        while i < self.owners.len()
            invariant
                self.wf(),
                i <= self.owners@.len(),
                forall|j: int| 0 <= j < i ==> #[trigger] self.owners@[j]@ != k@,
            decreases self.owners@.len() - i,
        {
            if self.owners[i].same(k) {
                assert(self.owners@[i as int]@ == k@);
                let ghost c = self.index_of_owner(k@);
                assert(self.owners@[c]@ == k@);
                assert(c == i);
                return Some(i);
            }
            i = i + 1;
        }
        None
    }

    /// The spenders of `owner` with their allowances, if `owner` has any.
    pub fn get(&self, owner: &Principal) -> (r: Option<&AmountMap>)
        requires
            self.wf(),
        ensures
            match r {
                Some(m) => self@.contains_key(owner@) && m@ == self@[owner@] && m.wf(),
                None => !self@.contains_key(owner@),
            },
    {
        match self.find(owner) {
            Some(i) => Some(&self.spenders[i]),
            None => None,
        }
    }

    /// Sets the amount that `spender` may transfer on behalf of `owner`.
    pub fn set(&mut self, owner: Principal, spender: Principal, amount: u128)
        requires
            old(self).wf(),
        ensures
            final(self).wf(),
            final(self)@ == allowances_after_set(old(self)@, owner@, spender@, amount),
    {
        let ghost target = (if old(self)@.contains_key(owner@) {
            old(self)@[owner@]
        } else {
            Map::<Seq<u8>, u128>::empty()
        }).insert(spender@, amount);
        match self.find(&owner) {
            Some(i) => {
                let mut m = self.spenders[i].copy();
                m.insert(spender, amount);
                self.spenders.set(i, m);
                assert forall|key: Seq<u8>| #[trigger] self@.contains_key(key) implies self@[key] == old(self)@.insert(
                    owner@,
                    target,
                )[key] by {
                    let c: int = self.index_of_owner(key);
                    if key == owner@ {
                        assert(self.owners@[i as int]@ == key);
                    } else {
                        assert(c != i);
                        assert(old(self).owners@[c]@ == key);
                    }
                }
                assert(self@ =~= old(self)@.insert(owner@, target));
            },
            None => {
                let ghost kv = owner@;
                let mut m = AmountMap::new();
                m.insert(spender, amount);
                self.owners.push(owner);
                self.spenders.push(m);
                let ghost n = old(self).owners@.len() as int;
                assert(self.owners@[n]@ == kv);
                assert forall|key: Seq<u8>| #[trigger] self@.contains_key(key) implies self@[key] == old(self)@.insert(
                    kv,
                    target,
                )[key] by {
                    let c: int = self.index_of_owner(key);
                    if key == kv {
                        assert(c == n);
                    } else {
                        assert(c != n);
                        assert(old(self).owners@[c]@ == key);
                    }
                }
                assert forall|key: Seq<u8>| old(self)@.insert(kv, target).contains_key(key) implies #[trigger] self@.contains_key(
                    key,
                ) by {
                    if key != kv {
                        let c: int = old(self).index_of_owner(key);
                        assert(self.owners@[c]@ == key);
                    }
                }
                assert(self@ =~= old(self)@.insert(kv, target));
            },
        }
    }
}

impl View for Allowances {
    type V = Map<Seq<u8>, Map<Seq<u8>, u128>>;

    closed spec fn view(&self) -> Map<Seq<u8>, Map<Seq<u8>, u128>> {
        Map::new(
            |k: Seq<u8>| exists|i: int| 0 <= i < self.owners@.len() && #[trigger] self.owners@[i]@ == k,
            |k: Seq<u8>| self.spenders@[self.index_of_owner(k)]@,
        )
    }
}

/// The allowances after `spender` was allowed to transfer `amount` on behalf
/// of `owner`; the owner's other spenders keep theirs.
pub open spec fn allowances_after_set(
    a: Map<Seq<u8>, Map<Seq<u8>, u128>>,
    owner: Seq<u8>,
    spender: Seq<u8>,
    amount: u128,
) -> Map<Seq<u8>, Map<Seq<u8>, u128>> {
    let spenders = if a.contains_key(owner) {
        a[owner]
    } else {
        Map::<Seq<u8>, u128>::empty()
    };
    a.insert(owner, spenders.insert(spender, amount))
}

/// The amount that `spender` may transfer on behalf of `owner`: 0 where no
/// allowance was set.
pub open spec fn allowance_in(a: Map<Seq<u8>, Map<Seq<u8>, u128>>, owner: Seq<u8>, spender: Seq<u8>) -> u128 {
    if a.contains_key(owner) {
        amount_or_zero(a[owner], spender)
    } else {
        0
    }
}

} // verus!
