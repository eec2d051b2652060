//! Dynamic key/value records: the metrics, event metadata and state updates
//! that travel with every notification.

use vstd::prelude::*;

verus! {

/// A JSON-like value as the library reads it.
///
/// `Json` carries any other JSON value (a non-integral number, an array or an
/// object) in its serialized text form; the library stores and forwards it
/// without reading it.
pub enum Val {
    Null,
    Bool(bool),
    Int(i128),
    Text(String),
    Json(String),
}

/// The mathematical model of a [`Val`].
pub enum ValView {
    Null,
    Bool(bool),
    Int(int),
    Text(Seq<char>),
    Json(Seq<char>),
}

impl View for Val {
    type V = ValView;

    open spec fn view(&self) -> ValView {
        match self {
            Val::Null => ValView::Null,
            Val::Bool(b) => ValView::Bool(*b),
            Val::Int(i) => ValView::Int(*i as int),
            Val::Text(s) => ValView::Text(s@),
            Val::Json(s) => ValView::Json(s@),
        }
    }
}

impl Val {
    /// A copy of this value.
    pub fn duplicate(&self) -> (r: Val)
        ensures
            r@ == self@,
    {
        match self {
            Val::Null => Val::Null,
            Val::Bool(b) => Val::Bool(*b),
            Val::Int(i) => Val::Int(*i),
            Val::Text(s) => Val::Text(s.clone()),
            Val::Json(s) => Val::Json(s.clone()),
        }
    }

    /// A text value holding a copy of `s`.
    pub fn text(s: &str) -> (r: Val)
        ensures
            r@ == ValView::Text(s@),
    {
        Val::Text(String::from_str(s))
    }
}

/// A finite map from text keys to [`Val`]s, kept as a list of entries whose
/// keys are pairwise distinct.
pub struct Fields {
    entries: Vec<(String, Val)>,
}

pub open spec fn keys_distinct(s: Seq<(String, Val)>) -> bool {
    forall|i: int, j: int| 0 <= i < j < s.len() ==> s[i].0@ != s[j].0@
}

pub open spec fn has_key_at(s: Seq<(String, Val)>, k: Seq<char>) -> bool {
    exists|i: int| 0 <= i < s.len() && s[i].0@ == k
}

pub open spec fn key_index(s: Seq<(String, Val)>, k: Seq<char>) -> int {
    choose|i: int| 0 <= i < s.len() && s[i].0@ == k
}

/// The map that a list of entries with distinct keys stands for.
pub open spec fn entries_map(s: Seq<(String, Val)>) -> Map<Seq<char>, ValView> {
    Map::new(|k: Seq<char>| has_key_at(s, k), |k: Seq<char>| s[key_index(s, k)].1@)
}

/// In a list with distinct keys, the entry found for a key is the one at `i`.
proof fn lemma_key_index_unique(s: Seq<(String, Val)>, i: int)
    requires
        keys_distinct(s),
        0 <= i < s.len(),
    ensures
        has_key_at(s, s[i].0@),
        key_index(s, s[i].0@) == i,
        entries_map(s).dom().contains(s[i].0@),
        entries_map(s)[s[i].0@] == s[i].1@,
{
    assert(has_key_at(s, s[i].0@));
    let j = key_index(s, s[i].0@);
    if j != i {
        if j < i {
            assert(s[j].0@ != s[i].0@);
        } else {
            assert(s[i].0@ != s[j].0@);
        }
    }
}

/// Appending an entry with a new key adds that key to the map.
proof fn lemma_push_new(s: Seq<(String, Val)>, e: (String, Val))
    requires
        keys_distinct(s),
        !has_key_at(s, e.0@),
    ensures
        keys_distinct(s.push(e)),
        entries_map(s.push(e)) =~= entries_map(s).insert(e.0@, e.1@),
{
    let t = s.push(e);
    assert forall|i: int, j: int| 0 <= i < j < t.len() implies t[i].0@ != t[j].0@ by {
        if j == s.len() {
            if t[i].0@ == e.0@ {
                assert(s[i].0@ == e.0@);
            }
        } else {
            assert(s[i].0@ != s[j].0@);
        }
    }
    let m = entries_map(s).insert(e.0@, e.1@);
    assert forall|k: Seq<char>| #[trigger] entries_map(t).dom().contains(k) <==> m.dom().contains(k) by {
        if has_key_at(t, k) {
            let i = key_index(t, k);
            if i < s.len() {
                assert(s[i].0@ == k);
                assert(has_key_at(s, k));
            }
        }
        if has_key_at(s, k) {
            let i = key_index(s, k);
            assert(t[i].0@ == k);
        }
        if k == e.0@ {
            assert(t[s.len() as int].0@ == k);
        }
    }
    assert forall|k: Seq<char>| #[trigger] entries_map(t).dom().contains(k) implies entries_map(t)[k]
        == m[k] by {
        if k == e.0@ {
            lemma_key_index_unique(t, s.len() as int);
        } else {
            let i = key_index(s, k);
            lemma_key_index_unique(s, i);
            assert(t[i] == s[i]);
            lemma_key_index_unique(t, i);
        }
    }
}

/// Replacing the entry at `i` by one with the same key updates that key.
proof fn lemma_update_at(s: Seq<(String, Val)>, i: int, e: (String, Val))
    requires
        keys_distinct(s),
        0 <= i < s.len(),
        s[i].0@ == e.0@,
    ensures
        keys_distinct(s.update(i, e)),
        entries_map(s.update(i, e)) =~= entries_map(s).insert(e.0@, e.1@),
{
    let t = s.update(i, e);
    assert forall|a: int, b: int| 0 <= a < b < t.len() implies t[a].0@ != t[b].0@ by {
        assert(s[a].0@ != s[b].0@);
    }
    let m = entries_map(s).insert(e.0@, e.1@);
    assert forall|k: Seq<char>| #[trigger] entries_map(t).dom().contains(k) <==> m.dom().contains(k) by {
        if has_key_at(t, k) {
            let j = key_index(t, k);
            assert(s[j].0@ == k);
        }
        if has_key_at(s, k) {
            let j = key_index(s, k);
            assert(t[j].0@ == k);
        }
        if k == e.0@ {
            assert(t[i].0@ == k);
        }
    }
    assert forall|k: Seq<char>| #[trigger] entries_map(t).dom().contains(k) implies entries_map(t)[k]
        == m[k] by {
        let j = key_index(t, k);
        lemma_key_index_unique(t, j);
        if j != i {
            assert(t[j] == s[j]);
            lemma_key_index_unique(s, j);
        }
    }
}

/// Removing the entry at `i` (moving the last entry into its place) removes
/// that key.
proof fn lemma_swap_remove(s: Seq<(String, Val)>, i: int)
    requires
        keys_distinct(s),
        0 <= i < s.len(),
    ensures
        keys_distinct(s.update(i, s.last()).drop_last()),
        entries_map(s.update(i, s.last()).drop_last()) =~= entries_map(s).remove(s[i].0@),
{
    let t = s.update(i, s.last()).drop_last();
    let n = s.len() - 1;
    assert forall|a: int, b: int| 0 <= a < b < t.len() implies t[a].0@ != t[b].0@ by {
        if a == i {
            assert(s[b].0@ != s[n].0@);
        } else if b == i {
            assert(s[a].0@ != s[n].0@);
        } else {
            assert(s[a].0@ != s[b].0@);
        }
    }
    let m = entries_map(s).remove(s[i].0@);
    assert forall|k: Seq<char>| #[trigger] entries_map(t).dom().contains(k) <==> m.dom().contains(k) by {
        if has_key_at(t, k) {
            let j = key_index(t, k);
            if j == i {
                assert(s[n].0@ == k);
                assert(s[i].0@ != s[n].0@);
            } else {
                assert(s[j].0@ == k);
                assert(s[i].0@ != s[j].0@ || i == j);
            }
        }
        if has_key_at(s, k) && k != s[i].0@ {
            let j = key_index(s, k);
            if j == n {
                assert(t[i].0@ == k);
            } else {
                assert(t[j].0@ == k);
            }
        }
    }
    assert forall|k: Seq<char>| #[trigger] entries_map(t).dom().contains(k) implies entries_map(t)[k]
        == m[k] by {
        let j = key_index(t, k);
        lemma_key_index_unique(t, j);
        if j == i {
            lemma_key_index_unique(s, n);
        } else {
            lemma_key_index_unique(s, j);
        }
    }
}

impl View for Fields {
    type V = Map<Seq<char>, ValView>;

    closed spec fn view(&self) -> Map<Seq<char>, ValView> {
        entries_map(self.entries@)
    }
}

impl Fields {
    #[verifier::type_invariant]
    closed spec fn wf(self) -> bool {
        keys_distinct(self.entries@)
    }

    /// An empty record.
    pub fn new() -> (r: Fields)
        ensures
            r@ == Map::<Seq<char>, ValView>::empty(),
    {
        let r = Fields { entries: Vec::new() };
        assert(r@ =~= Map::<Seq<char>, ValView>::empty());
        r
    }

    fn find(&self, key: &str) -> (r: Option<usize>)
        ensures
            match r {
                Some(i) => i < self.entries@.len() && self.entries@[i as int].0@ == key@,
                None => !has_key_at(self.entries@, key@),
            },
    {
        let n = self.entries.len();
        let mut i: usize = 0;
        while i < n
            invariant
                n == self.entries@.len(),
                i <= n,
                forall|j: int| 0 <= j < i ==> self.entries@[j].0@ != key@,
            decreases n - i,
        {
            if crate::text::str_eq(self.entries[i].0.as_str(), key) {
                return Some(i);
            }
            i = i + 1;
        }
        None
    }

    /// Whether `key` is present.
    pub fn contains_key(&self, key: &str) -> (r: bool)
        ensures
            r == self@.dom().contains(key@),
    {
        self.find(key).is_some()
    }

    /// The value held under `key`, if any.
    pub fn get(&self, key: &str) -> (r: Option<&Val>)
        ensures
            match r {
                Some(v) => self@.dom().contains(key@) && v@ == self@[key@],
                None => !self@.dom().contains(key@),
            },
    {
        proof {
            use_type_invariant(self);
        }
        match self.find(key) {
            Some(i) => {
                proof {
                    lemma_key_index_unique(self.entries@, i as int);
                }
                Some(&self.entries[i].1)
            },
            None => None,
        }
    }

    /// Sets `key` to `val`, replacing any earlier value.
    pub fn insert(&mut self, key: String, val: Val)
        ensures
            final(self)@ == old(self)@.insert(key@, val@),
    {
        proof {
            use_type_invariant(&*self);
        }
        let found = self.find(key.as_str());
        let mut v: Vec<(String, Val)> = Vec::new();
        std::mem::swap(&mut v, &mut self.entries);
        let ghost s = v@;
        match found {
            Some(i) => {
                proof {
                    lemma_update_at(s, i as int, (key, val));
                }
                v.set(i, (key, val));
            },
            None => {
                proof {
                    lemma_push_new(s, (key, val));
                }
                v.push((key, val));
            },
        }
        self.entries = v;
    }

    /// Removes `key`, handing back the value it held.
    pub fn remove(&mut self, key: &str) -> (r: Option<Val>)
        ensures
            final(self)@ == old(self)@.remove(key@),
            match r {
                Some(v) => old(self)@.dom().contains(key@) && v@ == old(self)@[key@],
                None => !old(self)@.dom().contains(key@),
            },
    {
        proof {
            use_type_invariant(&*self);
        }
        match self.find(key) {
            None => {
                assert(old(self)@.remove(key@) =~= old(self)@);
                None
            },
            Some(i) => {
                let mut v: Vec<(String, Val)> = Vec::new();
                std::mem::swap(&mut v, &mut self.entries);
                let ghost s = v@;
                proof {
                    lemma_key_index_unique(s, i as int);
                    lemma_swap_remove(s, i as int);
                }
                let e = v.swap_remove(i);
                assert(v@ =~= s.update(i as int, s.last()).drop_last());
                self.entries = v;
                Some(e.1)
            },
        }
    }

    /// Removes every entry.
    pub fn clear(&mut self)
        ensures
            final(self)@ == Map::<Seq<char>, ValView>::empty(),
    {
        self.entries = Vec::new();
        assert(self@ =~= Map::<Seq<char>, ValView>::empty());
    }

    /// Whether the record holds no entry.
    pub fn is_empty(&self) -> (r: bool)
        ensures
            r == (self@ == Map::<Seq<char>, ValView>::empty()),
    {
        if self.entries.len() == 0 {
            assert(self@ =~= Map::<Seq<char>, ValView>::empty());
            true
        } else {
            proof {
                use_type_invariant(self);
                lemma_key_index_unique(self.entries@, 0);
                assert(self@.dom().contains(self.entries@[0].0@));
            }
            false
        }
    }

    /// The entries, each key once, in no particular order.
    pub fn to_vec(&self) -> (r: Vec<(String, Val)>)
        ensures
            keys_distinct(r@),
            entries_map(r@) == self@,
    {
        proof {
            use_type_invariant(self);
        }
        let n = self.entries.len();
        let mut out: Vec<(String, Val)> = Vec::new();
        let mut i: usize = 0;
        while i < n
            invariant
                n == self.entries@.len(),
                i <= n,
                out@.len() == i,
                forall|j: int| 0 <= j < i ==> #[trigger] out@[j].0@ == self.entries@[j].0@ && out@[j].1@
                    == self.entries@[j].1@,
            decreases n - i,
        {
            let e = &self.entries[i];
            out.push((e.0.clone(), e.1.duplicate()));
            i = i + 1;
        }
        proof {
            lemma_same_views(out@, self.entries@);
        }
        out
    }

    /// A copy of this record.
    pub fn duplicate(&self) -> (r: Fields)
        ensures
            r@ == self@,
    {
        let v = self.to_vec();
        Fields { entries: v }
    }

    /// Sets every key of `other` to its value there, in turn.
    pub fn extend_from(&mut self, other: &Fields)
        ensures
            final(self)@ == old(self)@.union_prefer_right(other@),
    {
        let v = other.to_vec();
        let n = v.len();
        let mut i: usize = 0;
        while i < n
            invariant
                n == v@.len(),
                i <= n,
                keys_distinct(v@),
                entries_map(v@) == other@,
                self@ == old(self)@.union_prefer_right(entries_map(v@.take(i as int))),
            decreases n - i,
        {
            let e = &v[i];
            let ghost before = self@;
            self.insert(e.0.clone(), e.1.duplicate());
            proof {
                lemma_take_push_map(v@, i as int);
                assert(self@ =~= old(self)@.union_prefer_right(entries_map(v@.take(i + 1))));
            }
            i = i + 1;
        }
        assert(v@.take(n as int) =~= v@);
    }
}

/// Two entry lists that agree entry by entry on views stand for the same map.
proof fn lemma_same_views(a: Seq<(String, Val)>, b: Seq<(String, Val)>)
    requires
        a.len() == b.len(),
        forall|j: int| 0 <= j < a.len() ==> #[trigger] a[j].0@ == b[j].0@ && a[j].1@ == b[j].1@,
        keys_distinct(b),
    ensures
        keys_distinct(a),
        entries_map(a) == entries_map(b),
{
    assert forall|i: int, j: int| 0 <= i < j < a.len() implies a[i].0@ != a[j].0@ by {
        assert(a[i].0@ == b[i].0@);
        assert(a[j].0@ == b[j].0@);
    }
    assert forall|k: Seq<char>| #[trigger] entries_map(a).dom().contains(k) <==> entries_map(
        b,
    ).dom().contains(k) by {
        if has_key_at(a, k) {
            let i = key_index(a, k);
            assert(a[i].0@ == b[i].0@);
        }
        if has_key_at(b, k) {
            let i = key_index(b, k);
            assert(a[i].0@ == b[i].0@);
        }
    }
    assert forall|k: Seq<char>| #[trigger] entries_map(a).dom().contains(k) implies entries_map(a)[k]
        == entries_map(b)[k] by {
        let i = key_index(a, k);
        lemma_key_index_unique(a, i);
        assert(a[i].0@ == b[i].0@);
        lemma_key_index_unique(b, i);
    }
    assert(entries_map(a) =~= entries_map(b));
}

/// The map of a one-longer prefix adds the next entry.
proof fn lemma_take_push_map(s: Seq<(String, Val)>, i: int)
    requires
        keys_distinct(s),
        0 <= i < s.len(),
    ensures
        entries_map(s.take(i + 1)) == entries_map(s.take(i)).insert(s[i].0@, s[i].1@),
{
    let p = s.take(i);
    assert(s.take(i + 1) =~= p.push(s[i]));
    assert(keys_distinct(p));
    if has_key_at(p, s[i].0@) {
        let j = key_index(p, s[i].0@);
        assert(s[j].0@ != s[i].0@);
    }
    lemma_push_new(p, s[i]);
}

} // verus!
