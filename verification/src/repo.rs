//! A verified key/value repository.
//!
//! The protocol's persistent state lives in small keyed stores (entitlements
//! per asset, option index per vault/asset pair, approvals per asset).  This
//! module provides one verified store over any key that stands for a
//! mathematical value: an association list whose abstract content is a
//! `Map` from those values to the stored records.

use vstd::prelude::*;

verus! {

/// A key usable in a [`Repo`]: it stands for a mathematical value, and two
/// keys can be compared by the values they stand for.
pub trait StoreKey: Sized {
    /// The mathematical value the key stands for.
    type Abs;

    /// The value this key stands for.
    spec fn abs(&self) -> Self::Abs;

    /// Decides whether two keys stand for the same value.
    fn key_eq(&self, other: &Self) -> (r: bool)
        ensures
            r == (self.abs() == other.abs()),
    ;
}

impl StoreKey for String {
    type Abs = Seq<char>;

    open spec fn abs(&self) -> Seq<char> {
        self@
    }

    fn key_eq(&self, other: &String) -> (r: bool) {
        *self == *other
    }
}

/// True if some key of `keys` stands for `a`.
spec fn contains_abs<K: StoreKey>(keys: Seq<K>, a: K::Abs) -> bool {
    exists|i: int| 0 <= i < keys.len() && #[trigger] keys[i].abs() == a
}

/// The position of the key standing for `a`; meaningful only when
/// `contains_abs(keys, a)` holds and the keys are duplicate-free.
spec fn abs_index<K: StoreKey>(keys: Seq<K>, a: K::Abs) -> int {
    choose|i: int| 0 <= i < keys.len() && #[trigger] keys[i].abs() == a
}

/// A keyed store of records, with `get`/`set`/`remove`/`contains` over a key.
pub struct Repo<K, V> {
    keys: Vec<K>,
    vals: Vec<V>,
}

impl<K: StoreKey, V> Repo<K, V> {
    /// The keys are duplicate-free and each one has a record.
    pub closed spec fn wf(&self) -> bool {
        &&& self.keys@.len() == self.vals@.len()
        &&& forall|i: int, j: int|
            0 <= i < self.keys@.len() && 0 <= j < self.keys@.len() && i != j
                ==> #[trigger] self.keys@[i].abs() != #[trigger] self.keys@[j].abs()
    }

    /// The abstract content: a map from key values to records.
    pub closed spec fn to_map(&self) -> Map<K::Abs, V> {
        Map::new(
            |a: K::Abs| contains_abs(self.keys@, a),
            |a: K::Abs| self.vals@[abs_index(self.keys@, a)],
        )
    }

    /// An empty store.
    pub fn new() -> (r: Self)
        ensures
            r.wf(),
            r.to_map() == Map::<K::Abs, V>::empty(),
    {
        let r = Repo { keys: Vec::new(), vals: Vec::new() };
        proof {
            assert(r.to_map() =~= Map::<K::Abs, V>::empty());
        }
        r
    }

    /// The position of the key standing for the same value as `k`, if any.
    fn find(&self, k: &K) -> (r: Option<usize>)
        requires
            self.wf(),
        ensures
            match r {
                Some(i) => i < self.keys@.len() && self.keys@[i as int].abs() == k.abs(),
                None => !contains_abs(self.keys@, k.abs()),
            },
    {
        let n = self.keys.len();
        for i in 0..n
            invariant
                n == self.keys@.len(),
                forall|j: int| 0 <= j < i ==> #[trigger] self.keys@[j].abs() != k.abs(),
        {
            if self.keys[i].key_eq(k) {
                return Some(i);
            }
        }
        None
    }

    /// Whether a record is stored under `k`.
    pub fn contains(&self, k: &K) -> (r: bool)
        requires
            self.wf(),
        ensures
            r == self.to_map().contains_key(k.abs()),
    {
        self.find(k).is_some()
    }

    /// The record stored under `k`, if any.
    pub fn get(&self, k: &K) -> (r: Option<&V>)
        requires
            self.wf(),
        ensures
            match r {
                Some(v) => self.to_map().contains_key(k.abs()) && *v == self.to_map()[k.abs()],
                None => !self.to_map().contains_key(k.abs()),
            },
    {
        match self.find(k) {
            Some(i) => {
                proof {
                    let a = k.abs();
                    assert(contains_abs(self.keys@, a));
                    let j = abs_index(self.keys@, a);
                    assert(0 <= j < self.keys@.len() && self.keys@[j].abs() == a);
                    assert(j == i as int);
                }
                Some(&self.vals[i])
            },
            None => None,
        }
    }

    /// Stores `v` under `k`, replacing any previous record.
    pub fn set(&mut self, k: K, v: V)
        requires
            old(self).wf(),
        ensures
            final(self).wf(),
            final(self).to_map() == old(self).to_map().insert(k.abs(), v),
    {
        let ghost a = k.abs();
        match self.find(&k) {
            Some(i) => {
                self.vals.remove(i);
                self.vals.insert(i, v);
                proof {
                    assert(self.vals@ =~= old(self).vals@.update(i as int, v));
                    assert forall|b: K::Abs| self.to_map().contains_key(b)
                        implies #[trigger] self.to_map()[b]
                            == old(self).to_map().insert(a, v)[b] by {
                        let j = abs_index(self.keys@, b);
                        assert(0 <= j < self.keys@.len() && self.keys@[j].abs() == b);
                        if b == a {
                            assert(j == i as int);
                        } else {
                            assert(j != i as int);
                            assert(old(self).to_map()[b] == old(self).vals@[j]);
                        }
                    }
                    assert(self.to_map() =~= old(self).to_map().insert(a, v));
                }
            },
            None => {
                self.keys.push(k);
                self.vals.push(v);
                proof {
                    let n = old(self).keys@.len() as int;
                    assert forall|i: int, j: int|
                        0 <= i < self.keys@.len() && 0 <= j < self.keys@.len() && i != j
                            implies #[trigger] self.keys@[i].abs()
                                != #[trigger] self.keys@[j].abs() by {
                        if i < n && j < n {
                            assert(old(self).keys@[i].abs() != old(self).keys@[j].abs());
                        } else if i == n {
                            assert(!contains_abs(old(self).keys@, a));
                            assert(old(self).keys@[j].abs() != a);
                        } else {
                            assert(!contains_abs(old(self).keys@, a));
                            assert(old(self).keys@[i].abs() != a);
                        }
                    }
                    assert forall|b: K::Abs| #[trigger] self.to_map().contains_key(b)
                        == old(self).to_map().insert(a, v).contains_key(b) by {
                        if contains_abs(self.keys@, b) {
                            let j = abs_index(self.keys@, b);
                            assert(0 <= j < self.keys@.len() && self.keys@[j].abs() == b);
                            if j < n {
                                assert(contains_abs(old(self).keys@, b));
                            }
                        }
                        if contains_abs(old(self).keys@, b) {
                            let j = abs_index(old(self).keys@, b);
                            assert(self.keys@[j].abs() == b);
                            assert(contains_abs(self.keys@, b));
                        }
                        if b == a {
                            assert(self.keys@[n].abs() == b);
                            assert(contains_abs(self.keys@, b));
                        }
                    }
                    assert forall|b: K::Abs| self.to_map().contains_key(b)
                        implies #[trigger] self.to_map()[b]
                            == old(self).to_map().insert(a, v)[b] by {
                        let j = abs_index(self.keys@, b);
                        assert(0 <= j < self.keys@.len() && self.keys@[j].abs() == b);
                        if b == a {
                            assert(j == n);
                        } else {
                            assert(j < n);
                            assert(contains_abs(old(self).keys@, b));
                            let j2 = abs_index(old(self).keys@, b);
                            assert(self.keys@[j2].abs() == b);
                            assert(j2 == j);
                            assert(old(self).to_map()[b] == old(self).vals@[j]);
                        }
                    }
                    assert(self.to_map() =~= old(self).to_map().insert(a, v));
                }
            },
        }
    }

    /// Removes the record stored under `k`, if any.
    pub fn remove(&mut self, k: &K)
        requires
            old(self).wf(),
        ensures
            final(self).wf(),
            final(self).to_map() == old(self).to_map().remove(k.abs()),
    {
        let ghost a = k.abs();
        match self.find(k) {
            Some(i) => {
                self.keys.remove(i);
                self.vals.remove(i);
                proof {
                    let n = old(self).keys@.len() as int;
                    let ii = i as int;
                    assert forall|p: int, q: int|
                        0 <= p < self.keys@.len() && 0 <= q < self.keys@.len() && p != q
                            implies #[trigger] self.keys@[p].abs()
                                != #[trigger] self.keys@[q].abs() by {
                        let p0 = if p < ii { p } else { p + 1 };
                        let q0 = if q < ii { q } else { q + 1 };
                        assert(self.keys@[p] == old(self).keys@[p0]);
                        assert(self.keys@[q] == old(self).keys@[q0]);
                        assert(old(self).keys@[p0].abs() != old(self).keys@[q0].abs());
                    }
                    assert forall|b: K::Abs| #[trigger] self.to_map().contains_key(b)
                        == old(self).to_map().remove(a).contains_key(b) by {
                        if contains_abs(self.keys@, b) {
                            let j = abs_index(self.keys@, b);
                            let j0 = if j < ii { j } else { j + 1 };
                            assert(self.keys@[j] == old(self).keys@[j0]);
                            assert(contains_abs(old(self).keys@, b));
                            if b == a {
                                assert(old(self).keys@[j0].abs() == old(self).keys@[ii].abs());
                                assert(j0 == ii);
                                assert(false);
                            }
                        }
                        if contains_abs(old(self).keys@, b) && b != a {
                            let j = abs_index(old(self).keys@, b);
                            assert(0 <= j < n && old(self).keys@[j].abs() == b);
                            assert(j != ii);
                            if j < ii {
                                assert(self.keys@[j].abs() == b);
                            } else {
                                assert(self.keys@[j - 1] == old(self).keys@[j]);
                                assert(self.keys@[j - 1].abs() == b);
                            }
                            assert(contains_abs(self.keys@, b));
                        }
                    }
                    assert forall|b: K::Abs| self.to_map().contains_key(b)
                        implies #[trigger] self.to_map()[b]
                            == old(self).to_map().remove(a)[b] by {
                        let j = abs_index(self.keys@, b);
                        assert(0 <= j < self.keys@.len() && self.keys@[j].abs() == b);
                        let j0 = if j < ii { j } else { j + 1 };
                        assert(self.keys@[j] == old(self).keys@[j0]);
                        assert(self.vals@[j] == old(self).vals@[j0]);
                        assert(contains_abs(old(self).keys@, b));
                        let j2 = abs_index(old(self).keys@, b);
                        assert(0 <= j2 < n && old(self).keys@[j2].abs() == b);
                        assert(j2 == j0);
                        assert(old(self).to_map()[b] == old(self).vals@[j0]);
                    }
                    assert(self.to_map() =~= old(self).to_map().remove(a));
                }
            },
            None => {
                proof {
                    assert(!self.to_map().contains_key(a));
                    assert(self.to_map() =~= old(self).to_map().remove(a));
                }
            },
        }
    }
}

} // verus!
