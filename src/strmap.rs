//! A map from strings to values that keeps its entries in the byte order of
//! their keys, as an ordered map over `String` does.
//!
//! vstd specifies `BTreeMap` only for key types whose `Ord` obeys its
//! comparison model, and gives `String` no such model, so a
//! `BTreeMap<String, _>` would come with no usable contract; this map states
//! its order (`keys_sorted`) and proves it.

use vstd::prelude::*;

verus! {

/// `a` sorts before `b`: at the first position where they differ, `a` has
/// the smaller character, or `a` is a proper prefix of `b`.
pub open spec fn str_lt(a: Seq<char>, b: Seq<char>) -> bool {
    exists|i: int| #[trigger] first_difference(a, b, i) && str_lt_at(a, b, i)
}

/// `a` and `b` agree before position `i`.
pub open spec fn first_difference(a: Seq<char>, b: Seq<char>, i: int) -> bool {
    0 <= i <= a.len() && i <= b.len() && a.subrange(0, i) == b.subrange(0, i)
}

/// At position `i`, `a` ends while `b` goes on, or `a` has the smaller character.
pub open spec fn str_lt_at(a: Seq<char>, b: Seq<char>, i: int) -> bool {
    (i == a.len() && i < b.len()) || (i < a.len() && i < b.len() && (a[i] as u32) < (b[i] as u32))
}

pub proof fn lemma_str_lt_irreflexive(a: Seq<char>)
    ensures
        !str_lt(a, a),
{
}

pub proof fn lemma_str_lt_transitive(a: Seq<char>, b: Seq<char>, c: Seq<char>)
    requires
        str_lt(a, b),
        str_lt(b, c),
    ensures
        str_lt(a, c),
{
    let i = choose|i: int| #[trigger] first_difference(a, b, i) && str_lt_at(a, b, i);
    let j = choose|j: int| #[trigger] first_difference(b, c, j) && str_lt_at(b, c, j);
    if i <= j {
        assert(b.subrange(0, i) =~= b.subrange(0, j).subrange(0, i));
        assert(c.subrange(0, i) =~= c.subrange(0, j).subrange(0, i));
        if i < j {
            assert(b[i] == b.subrange(0, j)[i]);
            assert(c[i] == c.subrange(0, j)[i]);
        }
        assert(first_difference(a, c, i));
        assert(str_lt_at(a, c, i));
    } else {
        assert(a.subrange(0, j) =~= a.subrange(0, i).subrange(0, j));
        assert(b.subrange(0, j) =~= b.subrange(0, i).subrange(0, j));
        assert(a[j] == a.subrange(0, i)[j]);
        assert(b[j] == b.subrange(0, i)[j]);
        assert(first_difference(a, c, j));
        assert(str_lt_at(a, c, j));
    }
}

/// The order of two strings.
#[derive(Debug, Clone, Copy, PartialEq, Eq, Structural)]
pub enum StrOrder {
    Less,
    Equal,
    Greater,
}

/// Compares two strings character by character.
pub fn compare_str(a: &str, b: &str) -> (r: StrOrder)
    ensures
        r == StrOrder::Less <==> str_lt(a@, b@),
        r == StrOrder::Greater <==> str_lt(b@, a@),
        r == StrOrder::Equal <==> a@ == b@,
{
    let la = a.unicode_len();
    let lb = b.unicode_len();
    let mut i: usize = 0;
    while i < la && i < lb && a.get_char(i) == b.get_char(i)
        invariant
            la == a@.len(),
            lb == b@.len(),
            i <= la,
            i <= lb,
            a@.subrange(0, i as int) =~= b@.subrange(0, i as int),
        decreases la - i,
    {
        assert(a@.subrange(0, i + 1) =~= a@.subrange(0, i as int).push(a@[i as int]));
        assert(b@.subrange(0, i + 1) =~= b@.subrange(0, i as int).push(b@[i as int]));
        i = i + 1;
    }
    assert(first_difference(a@, b@, i as int));
    assert(first_difference(b@, a@, i as int));
    // No other position can witness an order: before `i` the strings agree,
    // and past `i` they already differ at `i`.
    assert forall|j: int| #[trigger] first_difference(a@, b@, j) implies j == i || !str_lt_at(a@, b@, j) by {
        if j < i {
            assert(a@[j] == a@.subrange(0, i as int)[j]);
            assert(b@[j] == b@.subrange(0, i as int)[j]);
        } else if j > i {
            assert(a@[i as int] == a@.subrange(0, j)[i as int]);
            assert(b@[i as int] == b@.subrange(0, j)[i as int]);
        }
    }
    assert forall|j: int| #[trigger] first_difference(b@, a@, j) implies j == i || !str_lt_at(b@, a@, j) by {
        if j < i {
            assert(a@[j] == a@.subrange(0, i as int)[j]);
            assert(b@[j] == b@.subrange(0, i as int)[j]);
        } else if j > i {
            assert(a@[i as int] == a@.subrange(0, j)[i as int]);
            assert(b@[i as int] == b@.subrange(0, j)[i as int]);
        }
    }
    if i == la && i == lb {
        assert(a@ =~= a@.subrange(0, i as int));
        assert(b@ =~= b@.subrange(0, i as int));
        StrOrder::Equal
    } else if i == la {
        StrOrder::Less
    } else if i == lb {
        StrOrder::Greater
    } else {
        let x = a.get_char(i);
        let y = b.get_char(i);
        if (x as u32) < (y as u32) {
            StrOrder::Less
        } else {
            assert((x as u32) != (y as u32));
            StrOrder::Greater
        }
    }
}

/// The keys of `s` are strictly increasing.
pub open spec fn keys_sorted<V>(s: Seq<(String, V)>) -> bool {
    forall|i: int, j: int| 0 <= i < j < s.len() ==> str_lt(#[trigger] s[i].0@, #[trigger] s[j].0@)
}

/// Some entry of `s` has the key `k`.
pub open spec fn has_key<V>(s: Seq<(String, V)>, k: Seq<char>) -> bool {
    exists|i: int| 0 <= i < s.len() && #[trigger] s[i].0@ == k
}

/// The value stored under `k` in `s`, where some entry has that key.
pub open spec fn value_of<V>(s: Seq<(String, V)>, k: Seq<char>) -> V {
    s[choose|i: int| 0 <= i < s.len() && #[trigger] s[i].0@ == k].1
}

/// In sorted entries the entry with a given key is the only one.
pub proof fn lemma_value_of<V>(s: Seq<(String, V)>, i: int)
    requires
        keys_sorted(s),
        0 <= i < s.len(),
    ensures
        has_key(s, s[i].0@),
        value_of(s, s[i].0@) == s[i].1,
{
    let k = s[i].0@;
    assert(0 <= i < s.len() && s[i].0@ == k);
    let j = choose|j: int| 0 <= j < s.len() && #[trigger] s[j].0@ == k;
    if j < i {
        lemma_str_lt_irreflexive(k);
        assert(str_lt(s[j].0@, s[i].0@));
    } else if i < j {
        lemma_str_lt_irreflexive(k);
        assert(str_lt(s[i].0@, s[j].0@));
    }
}

/// Entries kept in the order of their keys, each key once.
pub struct StrMap<V> {
    entries: Vec<(String, V)>,
}

impl<V> View for StrMap<V> {
    type V = Seq<(String, V)>;

    closed spec fn view(&self) -> Seq<(String, V)> {
        self.entries@
    }
}

impl<V> StrMap<V> {
    #[verifier::type_invariant]
    closed spec fn sorted(&self) -> bool {
        keys_sorted(self.entries@)
    }

    /// The entries are in strictly increasing key order, so each key is
    /// held once.
    pub fn prove_sorted(&self)
        ensures
            keys_sorted(self@),
    {
        proof {
            use_type_invariant(self);
        }
    }

    pub fn new() -> (r: StrMap<V>)
        ensures
            r@ == Seq::<(String, V)>::empty(),
            keys_sorted(r@),
    {
        StrMap { entries: Vec::new() }
    }

    pub fn len(&self) -> (r: usize)
        ensures
            r == self@.len(),
    {
        self.entries.len()
    }

    /// The entry at position `i` in key order.
    pub fn entry(&self, i: usize) -> (r: &(String, V))
        requires
            i < self@.len(),
        ensures
            *r == self@[i as int],
    {
        &self.entries[i]
    }

    /// The position of the entry with key `k`, if there is one.
    fn position(&self, k: &str) -> (r: Option<usize>)
        ensures
            match r {
                Some(i) => i < self@.len() && self@[i as int].0@ == k@,
                None => !has_key(self@, k@),
            },
    {
        let mut i: usize = 0;
        while i < self.entries.len()
            invariant
                i <= self@.len(),
                self@ == self.entries@,
                forall|j: int| 0 <= j < i ==> self@[j].0@ != k@,
            decreases self.entries.len() - i,
        {
            if compare_str(self.entries[i].0.as_str(), k) == StrOrder::Equal {
                return Some(i);
            }
            i = i + 1;
        }
        None
    }

    /// The value stored under `k`.
    pub fn get(&self, k: &str) -> (r: Option<&V>)
        ensures
            match r {
                Some(v) => has_key(self@, k@) && *v == value_of(self@, k@),
                None => !has_key(self@, k@),
            },
    {
        proof {
            use_type_invariant(self);
        }
        match self.position(k) {
            Some(i) => {
                proof {
                    lemma_value_of(self@, i as int);
                }
                Some(&self.entries[i].1)
            },
            None => None,
        }
    }

    /// Stores `v` under `k`, replacing what was stored there.
    pub fn insert(&mut self, k: String, v: V)
        ensures
            keys_sorted(final(self)@),
            final(self)@.len() == old(self)@.len() + if has_key(old(self)@, k@) {
                0int
            } else {
                1int
            },
            has_key(final(self)@, k@),
            value_of(final(self)@, k@) == v,
            forall|k2: Seq<char>| k2 != k@ ==> (has_key(final(self)@, k2) == has_key(old(self)@, k2)),
            forall|k2: Seq<char>|
                k2 != k@ && has_key(old(self)@, k2) ==> value_of(final(self)@, k2) == value_of(
                    old(self)@,
                    k2,
                ),
    {
        proof {
            use_type_invariant(&*self);
        }
        let mut p: usize = 0;
        while p < self.entries.len() && compare_str(self.entries[p].0.as_str(), k.as_str())
            == StrOrder::Less
            invariant
                p <= self.entries@.len(),
                keys_sorted(self.entries@),
                forall|j: int| 0 <= j < p ==> str_lt(#[trigger] self.entries@[j].0@, k@),
            decreases self.entries.len() - p,
        {
            p = p + 1;
        }
        let order = if p < self.entries.len() {
            compare_str(self.entries[p].0.as_str(), k.as_str())
        } else {
            StrOrder::Greater
        };
        let ghost old_entries = self.entries@;
        let mut entries = Vec::new();
        std::mem::swap(&mut entries, &mut self.entries);
        if p < entries.len() && order == StrOrder::Equal {
            entries.set(p, (k, v));
            assert forall|i: int, j: int| 0 <= i < j < entries@.len() implies str_lt(
                #[trigger] entries@[i].0@,
                #[trigger] entries@[j].0@,
            ) by {
                assert(old_entries[i].0@ == entries@[i].0@);
                assert(old_entries[j].0@ == entries@[j].0@);
            }
        } else {
            entries.insert(p, (k, v));
            assert forall|i: int, j: int| 0 <= i < j < entries@.len() implies str_lt(
                #[trigger] entries@[i].0@,
                #[trigger] entries@[j].0@,
            ) by {
                if j == p {
                    assert(str_lt(old_entries[i].0@, k@));
                } else if i == p {
                    assert(str_lt(k@, old_entries[p as int].0@));
                    if j - 1 > p {
                        assert(str_lt(old_entries[p as int].0@, old_entries[j - 1].0@));
                        lemma_str_lt_transitive(k@, old_entries[p as int].0@, old_entries[j - 1].0@);
                    }
                } else if i > p {
                    assert(str_lt(old_entries[i - 1].0@, old_entries[j - 1].0@));
                } else if j > p {
                    assert(str_lt(old_entries[i].0@, old_entries[j - 1].0@));
                }
            }
        }
        self.entries = entries;
        proof {
            let s = self.entries@;
            let q = p as int;
            assert(s[q].0@ == k@);
            lemma_value_of(s, q);
            assert forall|k2: Seq<char>| k2 != k@ implies (has_key(s, k2) == has_key(old_entries, k2)) by {
                if has_key(old_entries, k2) {
                    let i = choose|i: int| 0 <= i < old_entries.len() && #[trigger] old_entries[i].0@ == k2;
                    if i < q {
                        assert(s[i].0@ == k2);
                    } else if s.len() == old_entries.len() {
                        assert(s[i].0@ == k2);
                    } else {
                        assert(s[i + 1].0@ == k2);
                    }
                }
                if has_key(s, k2) {
                    let i = choose|i: int| 0 <= i < s.len() && #[trigger] s[i].0@ == k2;
                    if i < q {
                        assert(old_entries[i].0@ == k2);
                    } else if s.len() == old_entries.len() {
                        assert(old_entries[i].0@ == k2);
                    } else {
                        assert(old_entries[i - 1].0@ == k2);
                    }
                }
            }
            assert forall|k2: Seq<char>|
                k2 != k@ && has_key(old_entries, k2) implies value_of(s, k2) == value_of(old_entries, k2) by {
                let i = choose|i: int| 0 <= i < old_entries.len() && #[trigger] old_entries[i].0@ == k2;
                lemma_value_of(old_entries, i);
                if i < q || s.len() == old_entries.len() {
                    lemma_value_of(s, i);
                } else {
                    lemma_value_of(s, i + 1);
                }
            }
        }
    }

    /// Removes the entry with key `k` and hands back its value.
    pub fn remove(&mut self, k: &str) -> (r: Option<V>)
        ensures
            keys_sorted(final(self)@),
            final(self)@.len() == old(self)@.len() - if has_key(old(self)@, k@) {
                1int
            } else {
                0int
            },
            match r {
                Some(v) => has_key(old(self)@, k@) && v == value_of(old(self)@, k@),
                None => !has_key(old(self)@, k@),
            },
            !has_key(final(self)@, k@),
            forall|k2: Seq<char>| k2 != k@ ==> (has_key(final(self)@, k2) == has_key(old(self)@, k2)),
            forall|k2: Seq<char>|
                k2 != k@ && has_key(old(self)@, k2) ==> value_of(final(self)@, k2) == value_of(
                    old(self)@,
                    k2,
                ),
    {
        proof {
            use_type_invariant(&*self);
        }
        match self.position(k) {
            None => None,
            Some(p) => {
                let ghost old_entries = self.entries@;
                proof {
                    lemma_value_of(old_entries, p as int);
                }
                let mut entries = Vec::new();
                std::mem::swap(&mut entries, &mut self.entries);
                let (_, v) = entries.remove(p);
                assert forall|i: int, j: int| 0 <= i < j < entries@.len() implies str_lt(
                    #[trigger] entries@[i].0@,
                    #[trigger] entries@[j].0@,
                ) by {
                    let oi = if i < p { i } else { i + 1 };
                    let oj = if j < p { j } else { j + 1 };
                    assert(entries@[i] == old_entries[oi]);
                    assert(entries@[j] == old_entries[oj]);
                }
                self.entries = entries;
                proof {
                    let s = self.entries@;
                    let q = p as int;
                    assert forall|i: int| 0 <= i < s.len() implies #[trigger] s[i].0@ != k@ by {
                        let oi = if i < q { i } else { i + 1 };
                        assert(s[i] == old_entries[oi]);
                        lemma_str_lt_irreflexive(k@);
                        if oi < q {
                            assert(str_lt(old_entries[oi].0@, old_entries[q].0@));
                        } else {
                            assert(str_lt(old_entries[q].0@, old_entries[oi].0@));
                        }
                    }
                    assert forall|k2: Seq<char>| k2 != k@ implies (has_key(s, k2) == has_key(old_entries, k2)) by {
                        if has_key(old_entries, k2) {
                            let i = choose|i: int| 0 <= i < old_entries.len() && #[trigger] old_entries[i].0@ == k2;
                            if i < q {
                                assert(s[i].0@ == k2);
                            } else {
                                assert(s[i - 1].0@ == k2);
                            }
                        }
                        if has_key(s, k2) {
                            let i = choose|i: int| 0 <= i < s.len() && #[trigger] s[i].0@ == k2;
                            if i < q {
                                assert(old_entries[i].0@ == k2);
                            } else {
                                assert(old_entries[i + 1].0@ == k2);
                            }
                        }
                    }
                    assert forall|k2: Seq<char>|
                        k2 != k@ && has_key(old_entries, k2) implies value_of(s, k2) == value_of(old_entries, k2) by {
                        let i = choose|i: int| 0 <= i < old_entries.len() && #[trigger] old_entries[i].0@ == k2;
                        lemma_value_of(old_entries, i);
                        if i < q {
                            lemma_value_of(s, i);
                        } else {
                            lemma_value_of(s, i - 1);
                        }
                    }
                }
                Some(v)
            },
        }
    }
}

} // verus!
