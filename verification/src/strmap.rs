//! A map from string keys to values that keeps its entries in ascending key
//! order, with each key at most once: the ordered map that the configuration
//! and cache tables are made of.

use vstd::prelude::*;

use crate::text::chars_of;

verus! {

/// Lexicographic order on character sequences, character by character on
/// code points: the order of `str`'s `Ord` (UTF-8 preserves code point order).
pub open spec fn seq_lt(a: Seq<char>, b: Seq<char>) -> bool
    decreases a.len(),
{
    if a.len() == 0 {
        b.len() > 0
    } else if b.len() == 0 {
        false
    } else if a[0] != b[0] {
        (a[0] as u32) < (b[0] as u32)
    } else {
        seq_lt(a.drop_first(), b.drop_first())
    }
}

/// No sequence comes before itself.
pub proof fn lemma_seq_lt_irreflexive(a: Seq<char>)
    ensures
        !seq_lt(a, a),
    decreases a.len(),
{
    if a.len() > 0 {
        lemma_seq_lt_irreflexive(a.drop_first());
    }
}

/// The order is transitive.
pub proof fn lemma_seq_lt_transitive(a: Seq<char>, b: Seq<char>, c: Seq<char>)
    requires
        seq_lt(a, b),
        seq_lt(b, c),
    ensures
        seq_lt(a, c),
    decreases a.len(),
{
    if a.len() > 0 && b.len() > 0 && c.len() > 0 {
        if a[0] == b[0] && b[0] == c[0] {
            lemma_seq_lt_transitive(a.drop_first(), b.drop_first(), c.drop_first());
        }
    }
}

/// Distinct characters have distinct code points.
proof fn lemma_char_code_injective(x: char, y: char)
    ensures
        x != y ==> (x as u32) != (y as u32),
{
}

/// Two distinct sequences are ordered one way or the other.
pub proof fn lemma_seq_lt_total(a: Seq<char>, b: Seq<char>)
    ensures
        a == b || seq_lt(a, b) || seq_lt(b, a),
    decreases a.len(),
{
    if a.len() > 0 && b.len() > 0 {
        if a[0] == b[0] {
            lemma_seq_lt_total(a.drop_first(), b.drop_first());
            if a.drop_first() == b.drop_first() {
                assert(a =~= seq![a[0]] + a.drop_first());
                assert(b =~= seq![b[0]] + b.drop_first());
            }
        } else {
            lemma_char_code_injective(a[0], b[0]);
        }
    } else if a.len() == 0 && b.len() == 0 {
        assert(a =~= b);
    }
}

/// How two keys are ordered.
pub enum KeyOrder {
    Less,
    Equal,
    Greater,
}

/// Orders `a` against `b`.
pub fn key_order(a: &str, b: &str) -> (r: KeyOrder)
    ensures
        r is Less <==> seq_lt(a@, b@),
        r is Equal <==> a@ == b@,
        r is Greater <==> seq_lt(b@, a@),
{
    let va = chars_of(a);
    let vb = chars_of(b);
    let na = va.len();
    let nb = vb.len();
    let mut i: usize = 0;
    assert(a@.skip(0) =~= a@);
    assert(b@.skip(0) =~= b@);
    while i < na && i < nb && va[i] == vb[i]
        invariant
            i <= na,
            i <= nb,
            na == a@.len(),
            nb == b@.len(),
            va@ == a@,
            vb@ == b@,
            a@.take(i as int) == b@.take(i as int),
            seq_lt(a@, b@) == seq_lt(a@.skip(i as int), b@.skip(i as int)),
            seq_lt(b@, a@) == seq_lt(b@.skip(i as int), a@.skip(i as int)),
        decreases na - i,
    {
        assert(a@.skip(i as int).drop_first() =~= a@.skip(i + 1));
        assert(b@.skip(i as int).drop_first() =~= b@.skip(i + 1));
        assert(a@.take(i + 1) =~= a@.take(i as int).push(a@[i as int]));
        assert(b@.take(i + 1) =~= b@.take(i as int).push(b@[i as int]));
        i = i + 1;
    }
    proof {
        lemma_seq_lt_irreflexive(a@);
        lemma_seq_lt_total(a@, b@);
        if seq_lt(a@, b@) && seq_lt(b@, a@) {
            lemma_seq_lt_transitive(a@, b@, a@);
        }
    }
    if i == na {
        if i == nb {
            assert(a@ =~= a@.take(i as int));
            assert(b@ =~= b@.take(i as int));
            KeyOrder::Equal
        } else {
            assert(a@ != b@);
            KeyOrder::Less
        }
    } else if i == nb {
        assert(a@ != b@);
        KeyOrder::Greater
    } else if (va[i] as u32) < (vb[i] as u32) {
        assert(a@[i as int] != b@[i as int]);
        KeyOrder::Less
    } else {
        assert(a@[i as int] != b@[i as int]);
        KeyOrder::Greater
    }
}

/// The keys of `s` come in strictly ascending order (so none occurs twice).
pub open spec fn keys_sorted<T>(s: Seq<(Seq<char>, T)>) -> bool {
    forall|i: int, j: int| 0 <= i < j < s.len() ==> seq_lt(#[trigger] s[i].0, #[trigger] s[j].0)
}

/// The value stored under `k`: that of the first entry whose key is `k`.
pub open spec fn find<T>(s: Seq<(Seq<char>, T)>, k: Seq<char>) -> Option<T>
    decreases s.len(),
{
    if s.len() == 0 {
        None
    } else if s[0].0 == k {
        Some(s[0].1)
    } else {
        find(s.drop_first(), k)
    }
}

/// Whether some entry of `s` has the key `k`.
pub open spec fn has_key<T>(s: Seq<(Seq<char>, T)>, k: Seq<char>) -> bool {
    exists|i: int| 0 <= i < s.len() && #[trigger] s[i].0 == k
}

/// The entry at `j` is found when no earlier entry has its key.
pub proof fn lemma_find_at<T>(s: Seq<(Seq<char>, T)>, k: Seq<char>, j: int)
    requires
        0 <= j < s.len(),
        s[j].0 == k,
        forall|l: int| 0 <= l < j ==> #[trigger] s[l].0 != k,
    ensures
        find(s, k) == Some(s[j].1),
    decreases j,
{
    if j > 0 {
        assert forall|l: int| 0 <= l < j - 1 implies #[trigger] s.drop_first()[l].0 != k by {
            assert(s.drop_first()[l] == s[l + 1]);
        }
        lemma_find_at(s.drop_first(), k, j - 1);
    }
}

/// A key that no entry has is not found.
pub proof fn lemma_find_absent<T>(s: Seq<(Seq<char>, T)>, k: Seq<char>)
    requires
        forall|l: int| 0 <= l < s.len() ==> #[trigger] s[l].0 != k,
    ensures
        find(s, k) is None,
    decreases s.len(),
{
    if s.len() > 0 {
        assert forall|l: int| 0 <= l < s.len() - 1 implies #[trigger] s.drop_first()[l].0 != k by {
            assert(s.drop_first()[l] == s[l + 1]);
        }
        lemma_find_absent(s.drop_first(), k);
    }
}

/// A found value is stored in some entry under the key.
pub proof fn lemma_find_entry<T>(s: Seq<(Seq<char>, T)>, k: Seq<char>)
    requires
        find(s, k) is Some,
    ensures
        exists|i: int| 0 <= i < s.len() && #[trigger] s[i] == (k, find(s, k)->0),
    decreases s.len(),
{
    if s[0].0 != k {
        lemma_find_entry(s.drop_first(), k);
        let i = choose|i: int| 0 <= i < s.drop_first().len() && #[trigger] s.drop_first()[i] == (
            k,
            find(s.drop_first(), k)->0,
        );
        assert(s[i + 1] == s.drop_first()[i]);
    } else {
        assert(s[0] == (k, find(s, k)->0));
    }
}

/// `find` gives `None` exactly when no entry has the key.
pub proof fn lemma_find_none_iff<T>(s: Seq<(Seq<char>, T)>, k: Seq<char>)
    ensures
        find(s, k) is None <==> !has_key(s, k),
    decreases s.len(),
{
    if s.len() > 0 {
        lemma_find_none_iff(s.drop_first(), k);
        if has_key(s.drop_first(), k) {
            let i = choose|i: int| 0 <= i < s.drop_first().len() && #[trigger] s.drop_first()[i].0 == k;
            assert(s[i + 1].0 == k);
        }
        if has_key(s, k) && s[0].0 != k {
            let i = choose|i: int| 0 <= i < s.len() && #[trigger] s[i].0 == k;
            assert(s.drop_first()[i - 1].0 == k);
        }
    }
}

/// Inserting an entry under another key leaves every other lookup unchanged.
proof fn lemma_find_insert_other<T>(s: Seq<(Seq<char>, T)>, i: int, e: (Seq<char>, T), k: Seq<char>)
    requires
        0 <= i <= s.len(),
        e.0 != k,
    ensures
        find(s.insert(i, e), k) == find(s, k),
    decreases s.len(),
{
    if i > 0 {
        assert(s.insert(i, e)[0] == s[0]);
        assert(s.insert(i, e).drop_first() =~= s.drop_first().insert(i - 1, e));
        lemma_find_insert_other(s.drop_first(), i - 1, e, k);
    } else {
        assert(s.insert(0, e).drop_first() =~= s);
    }
}

/// Replacing the entry at `i` by one with the same key leaves lookups of
/// other keys unchanged.
proof fn lemma_find_update_other<T>(s: Seq<(Seq<char>, T)>, i: int, e: (Seq<char>, T), k: Seq<char>)
    requires
        0 <= i < s.len(),
        s[i].0 == e.0,
        e.0 != k,
    ensures
        find(s.update(i, e), k) == find(s, k),
    decreases s.len(),
{
    if i > 0 {
        assert(s.update(i, e).drop_first() =~= s.drop_first().update(i - 1, e));
        lemma_find_update_other(s.drop_first(), i - 1, e, k);
    } else {
        assert(s.update(0, e).drop_first() =~= s.drop_first());
    }
}

/// A string-keyed map whose entries stay in ascending key order, each key at
/// most once, as with `BTreeMap<String, T>`.
#[derive(Debug)]
pub struct StrMap<T> {
    entries: Vec<(String, T)>,
}

/// The entries of a vector of pairs, with keys taken by their characters.
pub open spec fn entry_views<T>(v: Seq<(String, T)>) -> Seq<(Seq<char>, T)> {
    v.map_values(|e: (String, T)| (e.0@, e.1))
}

impl<T> View for StrMap<T> {
    type V = Seq<(Seq<char>, T)>;

    closed spec fn view(&self) -> Seq<(Seq<char>, T)> {
        entry_views(self.entries@)
    }
}

impl<T> StrMap<T> {
    #[verifier::type_invariant]
    closed spec fn sorted(self) -> bool {
        keys_sorted(entry_views(self.entries@))
    }

    /// An empty map.
    pub fn new() -> (m: Self)
        ensures
            m@ == Seq::<(Seq<char>, T)>::empty(),
    {
        let m = StrMap { entries: Vec::new() };
        assert(m@ =~= Seq::<(Seq<char>, T)>::empty());
        m
    }

    /// The number of entries.
    pub fn len(&self) -> (n: usize)
        ensures
            n == self@.len(),
    {
        self.entries.len()
    }

    /// Whether the map has no entry.
    pub fn is_empty(&self) -> (b: bool)
        ensures
            b == (self@.len() == 0),
    {
        self.entries.len() == 0
    }

    /// The keys are in ascending order.
    pub fn keys_are_sorted(&self)
        ensures
            keys_sorted(self@),
    {
        proof {
            use_type_invariant(self);
        }
    }

    /// The entry at position `i` in key order.
    pub fn entry_at(&self, i: usize) -> (r: (&String, &T))
        requires
            i < self@.len(),
        ensures
            r.0@ == self@[i as int].0,
            *r.1 == self@[i as int].1,
    {
        let e = &self.entries[i];
        (&e.0, &e.1)
    }

    /// The position of the first entry whose key is not below `key`, and
    /// whether its key is `key`.
    fn locate(&self, key: &str) -> (r: (usize, bool))
        ensures
            r.0 <= self@.len(),
            forall|j: int| 0 <= j < r.0 ==> seq_lt(#[trigger] self@[j].0, key@),
            r.1 ==> r.0 < self@.len() && self@[r.0 as int].0 == key@,
            !r.1 ==> r.0 < self@.len() ==> seq_lt(key@, self@[r.0 as int].0),
    {
        let n = self.entries.len();
        let mut i: usize = 0;
        while i < n
            invariant
                i <= n,
                n == self@.len(),
                n == self.entries@.len(),
                forall|j: int| 0 <= j < i ==> seq_lt(#[trigger] self@[j].0, key@),
            decreases n - i,
        {
            let o = key_order(self.entries[i].0.as_str(), key);
            match o {
                KeyOrder::Less => {
                    i = i + 1;
                },
                KeyOrder::Equal => {
                    return (i, true);
                },
                KeyOrder::Greater => {
                    return (i, false);
                },
            }
        }
        (i, false)
    }

    /// The value stored under `key`, if any.
    pub fn get(&self, key: &str) -> (r: Option<&T>)
        ensures
            r matches Some(v) ==> find(self@, key@) == Some(*v),
            r is None ==> find(self@, key@) is None,
    {
        proof {
            use_type_invariant(self);
        }
        let (i, found) = self.locate(key);
        proof {
            if found {
                assert forall|l: int| 0 <= l < i implies #[trigger] self@[l].0 != key@ by {
                    lemma_seq_lt_irreflexive(key@);
                }
                lemma_find_at(self@, key@, i as int);
            } else {
                assert forall|l: int| 0 <= l < self@.len() implies #[trigger] self@[l].0 != key@ by {
                    lemma_seq_lt_irreflexive(key@);
                    if l > i {
                        assert(seq_lt(self@[i as int].0, self@[l].0));
                        lemma_seq_lt_transitive(key@, self@[i as int].0, self@[l].0);
                    }
                }
                lemma_find_absent(self@, key@);
            }
        }
        if found {
            Some(&self.entries[i].1)
        } else {
            None
        }
    }

    /// Stores `value` under `key`, replacing the value that was there.
    pub fn insert(&mut self, key: String, value: T)
        ensures
            keys_sorted(final(self)@),
            find(final(self)@, key@) == Some(value),
            forall|k: Seq<char>| k != key@ ==> #[trigger] find(final(self)@, k) == find(old(self)@, k),
            has_key(old(self)@, key@) ==> final(self)@.len() == old(self)@.len(),
            !has_key(old(self)@, key@) ==> final(self)@.len() == old(self)@.len() + 1,
    {
        proof {
            use_type_invariant(&*self);
        }
        let (i, found) = self.locate(key.as_str());
        let ghost s = self@;
        let ghost k = key@;
        let mut entries: Vec<(String, T)> = Vec::new();
        std::mem::swap(&mut entries, &mut self.entries);
        assert(entry_views(entries@) == s);
        proof {
            lemma_seq_lt_irreflexive(k);
            lemma_find_none_iff(s, k);
            assert forall|l: int| 0 <= l < i implies #[trigger] s[l].0 != k by {}
        }
        if found {
            entries.set(i, (key, value));
            proof {
                let e = (k, value);
                assert(entry_views(entries@) =~= s.update(i as int, e));
                assert forall|k2: Seq<char>| k2 != k implies #[trigger] find(
                    entry_views(entries@),
                    k2,
                ) == find(s, k2) by {
                    lemma_find_update_other(s, i as int, e, k2);
                }
                lemma_find_at(entry_views(entries@), k, i as int);
                assert(has_key(s, k));
            }
        } else {
            entries.insert(i, (key, value));
            proof {
                let e = (k, value);
                let t = s.insert(i as int, e);
                assert(entry_views(entries@) =~= t);
                assert forall|k2: Seq<char>| k2 != k implies #[trigger] find(t, k2) == find(s, k2) by {
                    lemma_find_insert_other(s, i as int, e, k2);
                }
                assert forall|l: int| 0 <= l < i implies #[trigger] t[l].0 != k by {
                    assert(t[l] == s[l]);
                }
                lemma_find_at(t, k, i as int);
                assert forall|a: int, b: int| 0 <= a < b < t.len() implies seq_lt(
                    #[trigger] t[a].0,
                    #[trigger] t[b].0,
                ) by {
                    if b < i {
                        assert(t[a] == s[a] && t[b] == s[b]);
                    } else if b == i {
                        assert(t[a] == s[a]);
                    } else if a == i {
                        assert(t[b] == s[b - 1]);
                        if b - 1 > i {
                            lemma_seq_lt_transitive(k, s[i as int].0, s[b - 1].0);
                        }
                    } else if a < i {
                        assert(t[a] == s[a] && t[b] == s[b - 1]);
                    } else {
                        assert(t[a] == s[a - 1] && t[b] == s[b - 1]);
                    }
                }
                assert forall|l: int| 0 <= l < s.len() implies #[trigger] s[l].0 != k by {
                    if l > i {
                        lemma_seq_lt_transitive(k, s[i as int].0, s[l].0);
                    }
                }
                assert(!has_key(s, k));
            }
        }
        self.entries = entries;
    }
}

} // verus!
