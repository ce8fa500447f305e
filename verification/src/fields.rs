//! The `fields` object of a record: an insertion-ordered map from attribute
//! name to [`FieldValue`] with unique keys and last-write-wins overwrite.

use vstd::prelude::*;

use crate::strutil::str_eq;
use crate::value::FieldValue;
use crate::value::ValueView;

verus! {

/// Is `k` one of the keys of the (viewed) map `m`?
pub open spec fn spec_contains_key(m: Seq<(Seq<char>, ValueView)>, k: Seq<char>) -> bool {
    exists|i: int| 0 <= i < m.len() && m[i].0 == k
}

/// No key occurs twice.
pub open spec fn spec_keys_unique(m: Seq<(Seq<char>, ValueView)>) -> bool {
    forall|i: int, j: int| 0 <= i < j < m.len() ==> m[i].0 != m[j].0
}

/// Insertion with last-write-wins: an existing key keeps its position and
/// gets the new value; a fresh key is appended, preserving emission order.
pub open spec fn spec_insert(
    m: Seq<(Seq<char>, ValueView)>,
    k: Seq<char>,
    v: ValueView,
) -> Seq<(Seq<char>, ValueView)> {
    if spec_contains_key(m, k) {
        let i = choose|i: int| 0 <= i < m.len() && m[i].0 == k;
        m.update(i, (k, v))
    } else {
        m.push((k, v))
    }
}

/// The value stored under key `k`, if any.
pub open spec fn spec_get(m: Seq<(Seq<char>, ValueView)>, k: Seq<char>) -> Option<ValueView> {
    if spec_contains_key(m, k) {
        let i = choose|i: int| 0 <= i < m.len() && m[i].0 == k;
        Some(m[i].1)
    } else {
        None
    }
}

/// Inserting preserves key uniqueness.
pub proof fn lemma_insert_keeps_unique(m: Seq<(Seq<char>, ValueView)>, k: Seq<char>, v: ValueView)
    requires
        spec_keys_unique(m),
    ensures
        spec_keys_unique(spec_insert(m, k, v)),
{
    if spec_contains_key(m, k) {
        let i = choose|i: int| 0 <= i < m.len() && m[i].0 == k;
        let m2 = m.update(i, (k, v));
        assert forall|p: int, q: int| 0 <= p < q < m2.len() implies m2[p].0 != m2[q].0 by {
            if p != i && q != i {
                assert(m2[p].0 == m[p].0 && m2[q].0 == m[q].0);
            }
        }
    }
}

/// After an insert, the inserted key maps to the inserted value.
pub proof fn lemma_insert_get(m: Seq<(Seq<char>, ValueView)>, k: Seq<char>, v: ValueView)
    requires
        spec_keys_unique(m),
    ensures
        spec_get(spec_insert(m, k, v), k) == Some(v),
{
    let m2 = spec_insert(m, k, v);
    if spec_contains_key(m, k) {
        let i = choose|i: int| 0 <= i < m.len() && m[i].0 == k;
        assert(m2[i].0 == k);
        let j = choose|j: int| 0 <= j < m2.len() && m2[j].0 == k;
        if j != i {
            assert(m2[j].0 == m[j].0);
            assert(m[i].0 == m[j].0);
        }
    } else {
        assert(m2[m.len() as int].0 == k);
        let j = choose|j: int| 0 <= j < m2.len() && m2[j].0 == k;
        if j != m.len() {
            assert(m[j].0 == k);
        }
    }
}

/// An insert leaves every other key's binding unchanged.
pub proof fn lemma_insert_frame(
    m: Seq<(Seq<char>, ValueView)>,
    k: Seq<char>,
    v: ValueView,
    other: Seq<char>,
)
    requires
        spec_keys_unique(m),
        other != k,
    ensures
        spec_get(spec_insert(m, k, v), other) == spec_get(m, other),
{
    let m2 = spec_insert(m, k, v);
    if spec_contains_key(m, k) {
        let i = choose|i: int| 0 <= i < m.len() && m[i].0 == k;
        assert(forall|j: int| 0 <= j < m.len() && j != i ==> m2[j] == m[j]);
        if spec_contains_key(m, other) {
            let p = choose|p: int| 0 <= p < m.len() && m[p].0 == other;
            assert(m2[p].0 == other);
            let q = choose|q: int| 0 <= q < m2.len() && m2[q].0 == other;
            if q != p {
                if q == i {
                    assert(m2[q].0 == k);
                } else {
                    assert(m[q].0 == other && m[p].0 == other);
                }
            }
        } else {
            if spec_contains_key(m2, other) {
                let q = choose|q: int| 0 <= q < m2.len() && m2[q].0 == other;
                if q == i {
                    assert(m2[q].0 == k);
                } else {
                    assert(m[q].0 == other);
                }
            }
        }
    } else {
        let n = m.len() as int;
        if spec_contains_key(m, other) {
            let p = choose|p: int| 0 <= p < m.len() && m[p].0 == other;
            assert(m2[p].0 == other);
            let q = choose|q: int| 0 <= q < m2.len() && m2[q].0 == other;
            if q != p {
                if q == n {
                    assert(m2[q].0 == k);
                } else {
                    assert(m[q].0 == other && m[p].0 == other);
                }
            }
        } else {
            if spec_contains_key(m2, other) {
                let q = choose|q: int| 0 <= q < m2.len() && m2[q].0 == other;
                if q == n {
                    assert(m2[q].0 == k);
                } else {
                    assert(m[q].0 == other);
                }
            }
        }
    }
}

/// Insertion-ordered map from attribute name to value.
#[derive(Debug, Clone, PartialEq, Eq)]
pub struct FieldMap {
    entries: Vec<(String, FieldValue)>,
}

impl View for FieldMap {
    type V = Seq<(Seq<char>, ValueView)>;

    closed spec fn view(&self) -> Seq<(Seq<char>, ValueView)> {
        self.entries.deep_view()
    }
}

impl DeepView for FieldValue {
    type V = ValueView;

    open spec fn deep_view(&self) -> ValueView {
        self.view()
    }
}

impl FieldMap {
    /// All keys distinct.
    pub open spec fn wf(&self) -> bool {
        spec_keys_unique(self@)
    }

    /// The empty map.
    pub fn new() -> (r: FieldMap)
        ensures
            r@ == Seq::<(Seq<char>, ValueView)>::empty(),
            r.wf(),
    {
        let r = FieldMap { entries: Vec::new() };
        proof {
            assert(r@ =~= Seq::<(Seq<char>, ValueView)>::empty());
        }
        r
    }

    /// Number of entries.
    pub fn len(&self) -> (n: usize)
        ensures
            n == self@.len(),
    {
        self.entries.len()
    }

    /// The key at position `i`, in insertion order.
    pub fn key_at(&self, i: usize) -> (k: &String)
        requires
            i < self@.len(),
        ensures
            k@ == self@[i as int].0,
    {
        &self.entries[i].0
    }

    /// The value at position `i`, in insertion order.
    pub fn value_at(&self, i: usize) -> (v: &FieldValue)
        requires
            i < self@.len(),
        ensures
            v@ == self@[i as int].1,
    {
        &self.entries[i].1
    }

    /// Inserts `value` under `key`: an existing key keeps its position and
    /// takes the new value, a fresh key is appended.
    pub fn insert(&mut self, key: String, value: FieldValue)
        requires
            old(self).wf(),
        ensures
            final(self).wf(),
            final(self)@ == spec_insert(old(self)@, key@, value@),
    {
        proof {
            lemma_insert_keeps_unique(old(self)@, key@, value@);
        }
        let n = self.entries.len();
        let mut i: usize = 0;
        while i < n
            invariant
                n == self.entries.len(),
                i <= n,
                *self == *old(self),
                old(self).wf(),
                forall|j: int| 0 <= j < i ==> self@[j].0 != key@,
            decreases n - i,
        {
            if str_eq(self.entries[i].0.as_str(), key.as_str()) {
                proof {
                    let m = old(self)@;
                    assert(m[i as int].0 == key@);
                    let c = choose|c: int| 0 <= c < m.len() && m[c].0 == key@;
                    if c != i {
                        assert(m[c].0 == m[i as int].0);
                    }
                }
                self.entries[i] = (key, value);
                proof {
                    assert(self@ =~= old(self)@.update(i as int, (key@, value@)));
                }
                return;
            }
            i += 1;
        }
        assert(!spec_contains_key(old(self)@, key@));
        self.entries.push((key, value));
        proof {
            assert(self@ =~= old(self)@.push((key@, value@)));
        }
    }

    /// Looks a key up by linear scan.
    pub fn get(&self, key: &str) -> (r: Option<&FieldValue>)
        requires
            self.wf(),
        ensures
            r.deep_view() == spec_get(self@, key@),
    {
        let n = self.entries.len();
        let mut i: usize = 0;
        while i < n
            invariant
                self.wf(),
                n == self.entries.len(),
                i <= n,
                forall|j: int| 0 <= j < i ==> self@[j].0 != key@,
            decreases n - i,
        {
            if str_eq(self.entries[i].0.as_str(), key) {
                proof {
                    let m = self@;
                    assert(m[i as int].0 == key@);
                    let c = choose|c: int| 0 <= c < m.len() && m[c].0 == key@;
                    if c != i {
                        assert(m[c].0 == m[i as int].0);
                    }
                }
                return Some(&self.entries[i].1);
            }
            i += 1;
        }
        assert(!spec_contains_key(self@, key@));
        None
    }
}

} // verus!
