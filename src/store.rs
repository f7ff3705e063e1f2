//! The span store: the spans of resolved fields, keyed by their path.

use sentry::protocol::SpanId;
use vstd::prelude::*;

use crate::span::SpanRecord;

verus! {

/// Entries of a store as plain values: a path key and its span.
pub type Entries = Seq<(Seq<char>, SpanRecord)>;

/// No key stands twice.
pub open spec fn unique_keys(s: Entries) -> bool {
    forall|i: int, j: int| 0 <= i < j < s.len() ==> s[i].0 != s[j].0
}

pub open spec fn has_key(s: Entries, k: Seq<char>) -> bool {
    exists|i: int| 0 <= i < s.len() && s[i].0 == k
}

/// The position of a key that is present.
pub open spec fn index_of(s: Entries, k: Seq<char>) -> int {
    choose|i: int| 0 <= i < s.len() && s[i].0 == k
}

/// The span stored under a key, if any.
pub open spec fn lookup(s: Entries, k: Seq<char>) -> Option<SpanRecord> {
    if has_key(s, k) {
        Some(s[index_of(s, k)].1)
    } else {
        None
    }
}

/// The entries after storing `v` under `k`: a present key keeps its place and
/// takes the new span, a new key goes last.
pub open spec fn inserted(s: Entries, k: Seq<char>, v: SpanRecord) -> Entries {
    if has_key(s, k) {
        s.update(index_of(s, k), (k, v))
    } else {
        s.push((k, v))
    }
}

/// The entries after taking out the one under `k`, if any.
pub open spec fn removed(s: Entries, k: Seq<char>) -> Entries {
    if has_key(s, k) {
        s.remove(index_of(s, k))
    } else {
        s
    }
}

/// The spans of the entries, in their order.
pub open spec fn spans_of(s: Entries) -> Seq<SpanRecord> {
    s.map_values(|e: (Seq<char>, SpanRecord)| e.1)
}

/// A key that is present has its entry at the one position that holds it.
pub proof fn lemma_index_of(s: Entries, i: int)
    requires
        unique_keys(s),
        0 <= i < s.len(),
    ensures
        has_key(s, s[i].0),
        index_of(s, s[i].0) == i,
        lookup(s, s[i].0) == Some(s[i].1),
{
    assert(has_key(s, s[i].0));
}

/// After an insert, the inserted key gives the new span and every other key
/// gives what it gave before; keys stay unique.
pub proof fn lemma_insert(s: Entries, k: Seq<char>, v: SpanRecord, q: Seq<char>)
    requires
        unique_keys(s),
    ensures
        unique_keys(inserted(s, k, v)),
        lookup(inserted(s, k, v), q) == if q == k {
            Some(v)
        } else {
            lookup(s, q)
        },
        inserted(s, k, v).len() == s.len() + if has_key(s, k) {
            0int
        } else {
            1int
        },
{
    let t = inserted(s, k, v);
    if has_key(s, k) {
        let p = index_of(s, k);
        assert forall|i: int, j: int| 0 <= i < j < t.len() implies t[i].0 != t[j].0 by {
            assert(t[i].0 == s[i].0 && t[j].0 == s[j].0);
        }
    } else {
        assert forall|i: int, j: int| 0 <= i < j < t.len() implies t[i].0 != t[j].0 by {
            if j == s.len() {
                assert(s[i].0 == t[i].0);
            }
        }
    }
    if has_key(t, q) {
        let i = index_of(t, q);
        lemma_index_of(t, i);
        if q != k {
            assert(s[i].0 == q);
            lemma_index_of(s, i);
        }
    } else {
        if q == k {
            if has_key(s, k) {
                assert(t[index_of(s, k)].0 == k);
            } else {
                assert(t[s.len() as int].0 == k);
            }
        } else if has_key(s, q) {
            let i = index_of(s, q);
            assert(t[i].0 == q);
        }
    }
}

/// After a removal, the removed key is absent and every other key gives what
/// it gave before; keys stay unique.
pub proof fn lemma_remove(s: Entries, k: Seq<char>, q: Seq<char>)
    requires
        unique_keys(s),
    ensures
        unique_keys(removed(s, k)),
        lookup(removed(s, k), q) == if q == k {
            None
        } else {
            lookup(s, q)
        },
        removed(s, k).len() == s.len() - if has_key(s, k) {
            1int
        } else {
            0int
        },
{
    let t = removed(s, k);
    if has_key(s, k) {
        let p = index_of(s, k);
        assert forall|i: int, j: int| 0 <= i < j < t.len() implies t[i].0 != t[j].0 by {
            let si = if i < p { i } else { i + 1 };
            let sj = if j < p { j } else { j + 1 };
            assert(t[i] == s[si] && t[j] == s[sj]);
        }
        if has_key(t, q) {
            let i = index_of(t, q);
            let si = if i < p { i } else { i + 1 };
            assert(t[i] == s[si]);
            lemma_index_of(s, si);
            lemma_index_of(t, i);
        } else if q != k && has_key(s, q) {
            let i = index_of(s, q);
            let ti = if i < p { i } else { i - 1 };
            assert(t[ti] == s[i]);
        }
    }
}

/// The entries after storing each `vs[i]` under `ks[i]`, in turn.
pub open spec fn insert_all(s: Entries, ks: Seq<Seq<char>>, vs: Seq<SpanRecord>) -> Entries
    decreases ks.len(),
{
    if ks.len() == 0 || vs.len() == 0 {
        s
    } else {
        insert_all(inserted(s, ks[0], vs[0]), ks.drop_first(), vs.drop_first())
    }
}

/// Storing spans under distinct new keys, in any order, loses none of them:
/// each key gives its span, every other key gives what it gave before, and
/// the store grows by the number of keys.
pub proof fn lemma_insert_all(s: Entries, ks: Seq<Seq<char>>, vs: Seq<SpanRecord>)
    requires
        unique_keys(s),
        ks.len() == vs.len(),
        ks.no_duplicates(),
        forall|i: int| 0 <= i < ks.len() ==> !has_key(s, #[trigger] ks[i]),
    ensures
        unique_keys(insert_all(s, ks, vs)),
        insert_all(s, ks, vs).len() == s.len() + ks.len(),
        forall|i: int| 0 <= i < ks.len() ==> lookup(insert_all(s, ks, vs), #[trigger] ks[i]) == Some(vs[i]),
        forall|q: Seq<char>| !ks.contains(q) ==> lookup(insert_all(s, ks, vs), q) == lookup(s, q),
    decreases ks.len(),
{
    if ks.len() > 0 {
        let t = inserted(s, ks[0], vs[0]);
        lemma_insert(s, ks[0], vs[0], ks[0]);
        let rk = ks.drop_first();
        let rv = vs.drop_first();
        assert forall|i: int| 0 <= i < rk.len() implies !has_key(t, #[trigger] rk[i]) by {
            assert(rk[i] == ks[i + 1]);
            lemma_insert(s, ks[0], vs[0], rk[i]);
        }
        lemma_insert_all(t, rk, rv);
        let r = insert_all(s, ks, vs);
        assert forall|i: int| 0 <= i < ks.len() implies lookup(r, #[trigger] ks[i]) == Some(vs[i]) by {
            if i > 0 {
                assert(rk[i - 1] == ks[i]);
            } else {
                assert forall|j: int| 0 <= j < rk.len() implies rk[j] != ks[0] by {
                    assert(rk[j] == ks[j + 1]);
                }
                assert(!rk.contains(ks[0]));
            }
        }
        assert forall|q: Seq<char>| !ks.contains(q) implies lookup(r, q) == lookup(s, q) by {
            if rk.contains(q) {
                let j = choose|j: int| 0 <= j < rk.len() && rk[j] == q;
                assert(ks[j + 1] == q);
            }
            assert(q != ks[0]);
            lemma_insert(s, ks[0], vs[0], q);
        }
    }
}

/// Two fields stored under distinct keys, as sibling fields resolved side by
/// side are, are both kept whichever is stored first, and the store ends the
/// same either way.
pub proof fn lemma_siblings_kept(
    s: Entries,
    k1: Seq<char>,
    v1: SpanRecord,
    k2: Seq<char>,
    v2: SpanRecord,
    q: Seq<char>,
)
    requires
        unique_keys(s),
        k1 != k2,
    ensures
        lookup(inserted(inserted(s, k1, v1), k2, v2), k1) == Some(v1),
        lookup(inserted(inserted(s, k1, v1), k2, v2), k2) == Some(v2),
        lookup(inserted(inserted(s, k1, v1), k2, v2), q) == lookup(
            inserted(inserted(s, k2, v2), k1, v1),
            q,
        ),
        inserted(inserted(s, k1, v1), k2, v2).len() == inserted(inserted(s, k2, v2), k1, v1).len(),
{
    let a = inserted(s, k1, v1);
    let b = inserted(s, k2, v2);
    lemma_insert(s, k1, v1, k1);
    lemma_insert(s, k1, v1, k2);
    lemma_insert(s, k1, v1, q);
    lemma_insert(s, k2, v2, k1);
    lemma_insert(s, k2, v2, k2);
    lemma_insert(s, k2, v2, q);
    lemma_insert(a, k2, v2, k1);
    lemma_insert(a, k2, v2, k2);
    lemma_insert(a, k2, v2, q);
    lemma_insert(b, k1, v1, q);
    lemma_insert(b, k1, v1, k1);
    // whether a key is present follows from its lookup
    assert(has_key(a, k2) == has_key(s, k2));
    assert(has_key(b, k1) == has_key(s, k1));
}

/// The spans of the fields resolved so far, each under its path key.
pub struct SpanStore {
    entries: Vec<(String, SpanRecord)>,
}

impl View for SpanStore {
    type V = Entries;

    closed spec fn view(&self) -> Entries {
        self.entries@.map_values(|e: (String, SpanRecord)| (e.0@, e.1))
    }
}

impl SpanStore {
    pub open spec fn wf(&self) -> bool {
        unique_keys(self@)
    }

    pub fn new() -> (r: SpanStore)
        ensures
            r@ == Seq::<(Seq<char>, SpanRecord)>::empty(),
            r.wf(),
    {
        let r = SpanStore { entries: Vec::new() };
        assert(r@ =~= Seq::<(Seq<char>, SpanRecord)>::empty());
        r
    }

    pub fn len(&self) -> (r: usize)
        ensures
            r == self@.len(),
    {
        self.entries.len()
    }

    fn position(&self, key: &String) -> (r: Option<usize>)
        requires
            self.wf(),
        ensures
            r is None ==> !has_key(self@, key@),
            r is Some ==> r->0 < self@.len() && self@[r->0 as int].0 == key@ && index_of(
                self@,
                key@,
            ) == r->0,
    {
        let mut i: usize = 0;
        while i < self.entries.len()
            invariant
                self.wf(),
                i <= self@.len(),
                self@.len() == self.entries@.len(),
                forall|j: int| 0 <= j < i ==> self@[j].0 != key@,
            decreases self.entries.len() - i,
        {
            if self.entries[i].0 == *key {
                proof {
                    lemma_index_of(self@, i as int);
                }
                return Some(i);
            }
            i = i + 1;
        }
        None
    }

    /// The identifier of the span stored under `key`, if any.
    pub fn span_id_of(&self, key: &String) -> (r: Option<SpanId>)
        requires
            self.wf(),
        ensures
            r == match lookup(self@, key@) {
                Some(s) => Some(s.span_id),
                None => None::<SpanId>,
            },
    {
        match self.position(key) {
            Some(i) => Some(self.entries[i].1.span_id),
            None => None,
        }
    }

    /// Stores `span` under `key`; a span already there is replaced.
    pub fn insert(&mut self, key: String, span: SpanRecord)
        requires
            old(self).wf(),
        ensures
            final(self).wf(),
            final(self)@ == inserted(old(self)@, key@, span),
    {
        proof {
            lemma_insert(self@, key@, span, key@);
        }
        let k = Ghost(key@);
        match self.position(&key) {
            Some(i) => {
                self.entries.set(i, (key, span));
            },
            None => {
                self.entries.push((key, span));
            },
        }
        assert(self@ =~= inserted(old(self)@, k@, span));
    }

    /// Takes out the span stored under `key`, if any.
    pub fn remove(&mut self, key: &String) -> (r: Option<SpanRecord>)
        requires
            old(self).wf(),
        ensures
            final(self).wf(),
            r == lookup(old(self)@, key@),
            final(self)@ == removed(old(self)@, key@),
    {
        proof {
            lemma_remove(self@, key@, key@);
        }
        match self.position(key) {
            Some(i) => {
                proof {
                    lemma_index_of(self@, i as int);
                }
                let e = self.entries.remove(i);
                assert(self@ =~= removed(old(self)@, key@));
                Some(e.1)
            },
            None => None,
        }
    }

    /// Takes out every span, in the order of the entries; the store is left
    /// empty.
    pub fn drain(&mut self) -> (r: Vec<SpanRecord>)
        ensures
            final(self).wf(),
            final(self)@.len() == 0,
            r@ == spans_of(old(self)@),
    {
        let mut entries: Vec<(String, SpanRecord)> = Vec::new();
        std::mem::swap(&mut entries, &mut self.entries);
        let ghost all = spans_of(old(self)@);
        let mut out: Vec<SpanRecord> = Vec::new();
        while entries.len() > 0
            invariant
                out@ + entries@.map_values(|e: (String, SpanRecord)| e.1) == all,
            decreases entries.len(),
        {
            let e = entries.remove(0);
            out.push(e.1);
            assert(out@ + entries@.map_values(|e: (String, SpanRecord)| e.1) =~= all);
        }
        assert(out@ =~= all);
        out
    }
}

} // verus!
