//! A small ordered map from quality names to image URLs, kept as a vector
//! of entries sorted by key with no key twice (what a `BTreeMap<String,
//! String>` offers, stated and proved here).

use vstd::prelude::*;

use crate::text::{chars_eq, chars_lt, chars_of, lemma_lt_irreflexive, lemma_lt_total, lemma_lt_transitive, seq_lt};

verus! {

/// The first value stored under `k` in a list of entries.
pub open spec fn lookup(e: Seq<(Seq<char>, Seq<char>)>, k: Seq<char>) -> Option<Seq<char>>
    decreases e.len(),
{
    if e.len() == 0 {
        None
    } else if e[0].0 == k {
        Some(e[0].1)
    } else {
        lookup(e.drop_first(), k)
    }
}

/// Keys strictly increasing, hence each key at most once.
pub open spec fn sorted_keys(e: Seq<(Seq<char>, Seq<char>)>) -> bool {
    forall|i: int, j: int| 0 <= i < j < e.len() ==> seq_lt(#[trigger] e[i].0, #[trigger] e[j].0)
}

/// The keys of a list of entries, in order.
pub open spec fn keys_of(e: Seq<(Seq<char>, Seq<char>)>) -> Seq<Seq<char>> {
    e.map_values(|p: (Seq<char>, Seq<char>)| p.0)
}

/// The views of a list of string pairs.
pub open spec fn pairs_view(v: Seq<(String, String)>) -> Seq<(Seq<char>, Seq<char>)> {
    v.map_values(|p: (String, String)| (p.0@, p.1@))
}

/// Ordered map from strings to strings.
pub struct SrcMap {
    entries: Vec<(String, String)>,
}

impl View for SrcMap {
    type V = Seq<(Seq<char>, Seq<char>)>;

    open spec fn view(&self) -> Seq<(Seq<char>, Seq<char>)> {
        self.entries_view()
    }
}

/// `lookup` finds the first entry with the key.
pub proof fn lemma_lookup_at(e: Seq<(Seq<char>, Seq<char>)>, i: int, k: Seq<char>)
    requires
        0 <= i < e.len(),
        e[i].0 == k,
        forall|j: int| 0 <= j < i ==> e[j].0 != k,
    ensures
        lookup(e, k) == Some(e[i].1),
    decreases i,
{
    if i > 0 {
        assert(e[0].0 != k);
        assert forall|j: int| 0 <= j < i - 1 implies e.drop_first()[j].0 != k by {
            assert(e.drop_first()[j] == e[j + 1]);
        }
        lemma_lookup_at(e.drop_first(), i - 1, k);
    }
}

/// `lookup` of an absent key is `None`.
pub proof fn lemma_lookup_none(e: Seq<(Seq<char>, Seq<char>)>, k: Seq<char>)
    requires
        forall|j: int| 0 <= j < e.len() ==> e[j].0 != k,
    ensures
        lookup(e, k) is None,
    decreases e.len(),
{
    if e.len() > 0 {
        assert(e[0].0 != k);
        assert forall|j: int| 0 <= j < e.len() - 1 implies e.drop_first()[j].0 != k by {
            assert(e.drop_first()[j] == e[j + 1]);
        }
        lemma_lookup_none(e.drop_first(), k);
    }
}

/// In sorted entries, the entry at index `i` is the one `lookup` finds.
pub proof fn lemma_lookup_sorted(e: Seq<(Seq<char>, Seq<char>)>, i: int)
    requires
        sorted_keys(e),
        0 <= i < e.len(),
    ensures
        lookup(e, e[i].0) == Some(e[i].1),
{
    assert forall|j: int| 0 <= j < i implies e[j].0 != e[i].0 by {
        assert(seq_lt(e[j].0, e[i].0));
        lemma_lt_irreflexive(e[i].0);
    }
    lemma_lookup_at(e, i, e[i].0);
}

/// A key has a value exactly when it is listed among the keys.
pub proof fn lemma_lookup_listed(e: Seq<(Seq<char>, Seq<char>)>, k: Seq<char>)
    requires
        sorted_keys(e),
    ensures
        lookup(e, k) is Some <==> keys_of(e).contains(k),
{
    if keys_of(e).contains(k) {
        let i = choose|i: int| 0 <= i < keys_of(e).len() && keys_of(e)[i] == k;
        lemma_lookup_sorted(e, i);
    } else {
        assert forall|j: int| 0 <= j < e.len() implies e[j].0 != k by {
            assert(keys_of(e)[j] == e[j].0);
        }
        lemma_lookup_none(e, k);
    }
}

impl SrcMap {
    /// The entries as pairs of character sequences.
    pub closed spec fn entries_view(&self) -> Seq<(Seq<char>, Seq<char>)> {
        pairs_view(self.entries@)
    }

    #[verifier::type_invariant]
    closed spec fn well_formed(&self) -> bool {
        sorted_keys(self.entries_view())
    }

    /// An empty map.
    pub fn new() -> (r: SrcMap)
        ensures
            r@ == Seq::<(Seq<char>, Seq<char>)>::empty(),
    {
        let r = SrcMap { entries: Vec::new() };
        assert(r@ =~= Seq::<(Seq<char>, Seq<char>)>::empty());
        r
    }

    /// Number of entries.
    pub fn len(&self) -> (r: usize)
        ensures
            r == self@.len(),
    {
        self.entries.len()
    }

    /// The key and value of entry `i`, in key order.
    pub fn entry(&self, i: usize) -> (r: (&String, &String))
        requires
            i < self@.len(),
        ensures
            r.0@ == self@[i as int].0,
            r.1@ == self@[i as int].1,
    {
        let e = &self.entries[i];
        (&e.0, &e.1)
    }

    /// The value stored under `key` (`BTreeMap::get`).
    pub fn get(&self, key: &str) -> (r: Option<&String>)
        ensures
            r matches Some(v) ==> lookup(self@, key@) == Some(v@),
            r is None ==> lookup(self@, key@) is None,
    {
        let k = chars_of(key);
        let mut i: usize = 0;
        assert(self@.skip(0) =~= self@);
        while i < self.entries.len()
            invariant
                i <= self@.len(),
                self@.len() == self.entries@.len(),
                k@ == key@,
                lookup(self@, key@) == lookup(self@.skip(i as int), key@),
            decreases self@.len() - i,
        {
            let kc = chars_of(self.entries[i].0.as_str());
            assert(self@.skip(i as int)[0] == self@[i as int]);
            if chars_eq(&kc, &k) {
                return Some(&self.entries[i].1);
            }
            assert(self@.skip(i as int).drop_first() =~= self@.skip(i as int + 1));
            i = i + 1;
        }
        None
    }

    /// Stores `value` under `key`, replacing any earlier value
    /// (`BTreeMap::insert`).
    pub fn insert(&mut self, key: String, value: String)
        ensures
            sorted_keys(final(self)@),
            forall|q: Seq<char>| #[trigger] lookup(final(self)@, q) == if q == key@ {
                Some(value@)
            } else {
                lookup(old(self)@, q)
            },
            forall|q: Seq<char>| #[trigger] keys_of(final(self)@).contains(q) <==> (q == key@ || keys_of(old(self)@).contains(q)),
    {
        proof {
            use_type_invariant(&*self);
        }
        let ghost old_e = self@;
        let kc = chars_of(key.as_str());
        let mut e: Vec<(String, String)> = Vec::new();
        std::mem::swap(&mut e, &mut self.entries);
        assert(pairs_view(e@) == old_e);
        let n = e.len();
        let mut p: usize = 0;
        loop
            invariant
                p <= n,
                n == e@.len(),
                pairs_view(e@) == old_e,
                sorted_keys(old_e),
                kc@ == key@,
                forall|j: int| 0 <= j < p ==> seq_lt(#[trigger] old_e[j].0, key@),
            ensures
                p <= n,
                forall|j: int| 0 <= j < p ==> seq_lt(#[trigger] old_e[j].0, key@),
                p < n ==> !seq_lt(old_e[p as int].0, key@),
            decreases n - p,
        {
            if p == n {
                break;
            }
            let c = chars_of(e[p].0.as_str());
            assert(old_e[p as int].0 == e@[p as int].0@);
            if !chars_lt(&c, &kc) {
                break;
            }
            p = p + 1;
        }
        let same = if p < n {
            let c = chars_of(e[p].0.as_str());
            assert(old_e[p as int].0 == e@[p as int].0@);
            chars_eq(&c, &kc)
        } else {
            false
        };
        let ghost pair = (key@, value@);
        if same {
            e.set(p, (key, value));
            let ghost new_e = pairs_view(e@);
            assert(new_e =~= old_e.update(p as int, pair));
            assert(sorted_keys(new_e)) by {
                assert forall|i: int, j: int| 0 <= i < j < new_e.len() implies seq_lt(#[trigger] new_e[i].0, #[trigger] new_e[j].0) by {
                    assert(new_e[i].0 == old_e[i].0);
                    assert(new_e[j].0 == old_e[j].0);
                }
            }
            proof {
                assert forall|q: Seq<char>| #[trigger] lookup(new_e, q) == if q == pair.0 {
                    Some(pair.1)
                } else {
                    lookup(old_e, q)
                } by {
                    if q == pair.0 {
                        lemma_lookup_sorted(new_e, p as int);
                    } else if exists|i: int| 0 <= i < old_e.len() && old_e[i].0 == q {
                        let i = choose|i: int| 0 <= i < old_e.len() && old_e[i].0 == q;
                        assert(new_e[i] == old_e[i]);
                        lemma_lookup_sorted(new_e, i);
                        lemma_lookup_sorted(old_e, i);
                    } else {
                        assert forall|i: int| 0 <= i < new_e.len() implies #[trigger] new_e[i].0 != q by {
                            if i != p {
                                assert(new_e[i] == old_e[i]);
                            }
                        }
                        lemma_lookup_none(new_e, q);
                        lemma_lookup_none(old_e, q);
                    }
                }
                assert forall|q: Seq<char>| #[trigger] keys_of(new_e).contains(q) <==> (q == pair.0 || keys_of(old_e).contains(q)) by {
                    lemma_lookup_listed(new_e, q);
                    lemma_lookup_listed(old_e, q);
                }
            }
        } else {
            e.insert(p, (key, value));
            let ghost new_e = pairs_view(e@);
            assert(new_e =~= old_e.insert(p as int, pair));
            proof {
                assert forall|j: int| p <= j < old_e.len() implies seq_lt(pair.0, #[trigger] old_e[j].0) by {
                    lemma_lt_total(old_e[p as int].0, pair.0);
                    if j > p {
                        lemma_lt_transitive(pair.0, old_e[p as int].0, old_e[j].0);
                    }
                }
            }
            assert(sorted_keys(new_e)) by {
                assert forall|i: int, j: int| 0 <= i < j < new_e.len() implies seq_lt(#[trigger] new_e[i].0, #[trigger] new_e[j].0) by {
                    if j < p {
                        assert(new_e[i] == old_e[i] && new_e[j] == old_e[j]);
                    } else if j == p {
                        assert(new_e[i] == old_e[i]);
                    } else if i < p {
                        assert(new_e[i] == old_e[i] && new_e[j] == old_e[j - 1]);
                        lemma_lt_transitive(old_e[i].0, pair.0, old_e[j - 1].0);
                    } else if i == p {
                        assert(new_e[j] == old_e[j - 1]);
                    } else {
                        assert(new_e[i] == old_e[i - 1] && new_e[j] == old_e[j - 1]);
                    }
                }
            }
            proof {
                assert forall|q: Seq<char>| #[trigger] lookup(new_e, q) == if q == pair.0 {
                    Some(pair.1)
                } else {
                    lookup(old_e, q)
                } by {
                    if q == pair.0 {
                        lemma_lookup_sorted(new_e, p as int);
                    } else if exists|i: int| 0 <= i < old_e.len() && old_e[i].0 == q {
                        let i = choose|i: int| 0 <= i < old_e.len() && old_e[i].0 == q;
                        lemma_lookup_sorted(old_e, i);
                        if i < p {
                            assert(new_e[i] == old_e[i]);
                            lemma_lookup_sorted(new_e, i);
                        } else {
                            assert(new_e[i + 1] == old_e[i]);
                            lemma_lookup_sorted(new_e, i + 1);
                        }
                    } else {
                        assert forall|i: int| 0 <= i < new_e.len() implies #[trigger] new_e[i].0 != q by {
                            if i < p {
                                assert(new_e[i] == old_e[i]);
                            } else if i > p {
                                assert(new_e[i] == old_e[i - 1]);
                            }
                        }
                        lemma_lookup_none(new_e, q);
                        lemma_lookup_none(old_e, q);
                    }
                }
                assert forall|q: Seq<char>| #[trigger] keys_of(new_e).contains(q) <==> (q == pair.0 || keys_of(old_e).contains(q)) by {
                    lemma_lookup_listed(new_e, q);
                    lemma_lookup_listed(old_e, q);
                }
            }
        }
        self.entries = e;
    }

    /// The keys in increasing order (`BTreeMap::keys`).
    pub fn keys(&self) -> (r: Vec<String>)
        ensures
            crate::text::views(r@) == keys_of(self@),
    {
        let mut r: Vec<String> = Vec::new();
        let mut i: usize = 0;
        while i < self.entries.len()
            invariant
                i <= self@.len(),
                self@.len() == self.entries@.len(),
                crate::text::views(r@) == keys_of(self@.subrange(0, i as int)),
            decreases self@.len() - i,
        {
            let ghost before = r@;
            let key = self.entries[i].0.clone();
            assert(self@[i as int].0 == key@);
            r.push(key);
            assert(crate::text::views(r@) =~= crate::text::views(before).push(key@));
            assert(keys_of(self@.subrange(0, i as int + 1)) =~= keys_of(self@.subrange(0, i as int)).push(self@[i as int].0));
            i = i + 1;
            assert(crate::text::views(r@) =~= keys_of(self@.subrange(0, i as int)));
        }
        assert(self@.subrange(0, i as int) =~= self@);
        r
    }
}

} // verus!
