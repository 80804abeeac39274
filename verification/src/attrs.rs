//! The attribute bag: an insertion-ordered map from attribute names to
//! typed values, filled from the host tracing stream and consumed by
//! the record projections.

use vstd::prelude::*;

use crate::strutil::str_eq;

verus! {

/// A typed attribute value. Debug-formatted attributes arrive as
/// strings.
#[derive(Debug, PartialEq, Eq)]
pub enum AttrValue {
    Bool(bool),
    I64(i64),
    U64(u64),
    Str(String),
}

impl AttrValue {
    /// A structurally equal copy.
    pub fn duplicate(&self) -> (r: Self)
        ensures
            r == *self,
    {
        match self {
            AttrValue::Bool(b) => AttrValue::Bool(*b),
            AttrValue::I64(x) => AttrValue::I64(*x),
            AttrValue::U64(x) => AttrValue::U64(*x),
            AttrValue::Str(s) => AttrValue::Str(s.clone()),
        }
    }
}

/// First value stored under key `k`, if any.
pub open spec fn bag_lookup(s: Seq<(String, AttrValue)>, k: Seq<char>) -> Option<AttrValue>
    decreases s.len(),
{
    if s.len() == 0 {
        None
    } else if s[0].0@ == k {
        Some(s[0].1)
    } else {
        bag_lookup(s.drop_first(), k)
    }
}

/// The bag with the first entry under key `k` removed.
pub open spec fn bag_remove(s: Seq<(String, AttrValue)>, k: Seq<char>) -> Seq<(String, AttrValue)>
    decreases s.len(),
{
    if s.len() == 0 {
        s
    } else if s[0].0@ == k {
        s.drop_first()
    } else {
        seq![s[0]] + bag_remove(s.drop_first(), k)
    }
}

/// The bag with key `k` bound to `v`: an existing entry is replaced in
/// place, a new key is appended.
pub open spec fn bag_set(s: Seq<(String, AttrValue)>, k: String, v: AttrValue) -> Seq<
    (String, AttrValue),
>
    decreases s.len(),
{
    if s.len() == 0 {
        seq![(k, v)]
    } else if s[0].0@ == k@ {
        seq![(k, v)] + s.drop_first()
    } else {
        seq![s[0]] + bag_set(s.drop_first(), k, v)
    }
}

/// The bag after applying every update of `u`, in order.
pub open spec fn bag_merge(s: Seq<(String, AttrValue)>, u: Seq<(String, AttrValue)>) -> Seq<
    (String, AttrValue),
>
    decreases u.len(),
{
    if u.len() == 0 {
        s
    } else {
        bag_merge(bag_set(s, u[0].0, u[0].1), u.drop_first())
    }
}

/// The string stored under `k`, if the value there is a string.
pub open spec fn bag_str(s: Seq<(String, AttrValue)>, k: Seq<char>) -> Option<Seq<char>> {
    match bag_lookup(s, k) {
        Some(AttrValue::Str(x)) => Some(x@),
        _ => None,
    }
}

/// The signed integer stored under `k`; an unsigned value counts when
/// it fits.
pub open spec fn bag_i64(s: Seq<(String, AttrValue)>, k: Seq<char>) -> Option<i64> {
    match bag_lookup(s, k) {
        Some(AttrValue::I64(x)) => Some(x),
        Some(AttrValue::U64(x)) => if x <= i64::MAX as u64 {
            Some(x as i64)
        } else {
            None
        },
        _ => None,
    }
}

/// All keys are distinct.
pub open spec fn bag_wf(s: Seq<(String, AttrValue)>) -> bool {
    forall|i: int, j: int| 0 <= i < j < s.len() ==> s[i].0@ != s[j].0@
}

/// A hit at `i` after misses before `i` is what the lookup finds.
proof fn lemma_bag_lookup_at(s: Seq<(String, AttrValue)>, k: Seq<char>, i: int)
    requires
        0 <= i < s.len(),
        forall|j: int| 0 <= j < i ==> s[j].0@ != k,
        s[i].0@ == k,
    ensures
        bag_lookup(s, k) == Some(s[i].1),
    decreases i,
{
    if i > 0 {
        lemma_bag_lookup_at(s.drop_first(), k, i - 1);
    }
}

/// With no hit anywhere the lookup finds nothing.
proof fn lemma_bag_lookup_none(s: Seq<(String, AttrValue)>, k: Seq<char>)
    requires
        forall|j: int| 0 <= j < s.len() ==> s[j].0@ != k,
    ensures
        bag_lookup(s, k) is None,
    decreases s.len(),
{
    if s.len() > 0 {
        lemma_bag_lookup_none(s.drop_first(), k);
    }
}

/// A hit at `i` after misses before `i`: removal removes exactly entry `i`.
proof fn lemma_bag_remove_at(s: Seq<(String, AttrValue)>, k: Seq<char>, i: int)
    requires
        0 <= i < s.len(),
        forall|j: int| 0 <= j < i ==> s[j].0@ != k,
        s[i].0@ == k,
    ensures
        bag_remove(s, k) =~= s.remove(i),
    decreases i,
{
    if i == 0 {
        assert(bag_remove(s, k) =~= s.remove(0));
    } else {
        lemma_bag_remove_at(s.drop_first(), k, i - 1);
        assert(s.remove(i) =~= seq![s[0]] + s.drop_first().remove(i - 1));
    }
}

/// With no hit anywhere removal changes nothing.
proof fn lemma_bag_remove_none(s: Seq<(String, AttrValue)>, k: Seq<char>)
    requires
        forall|j: int| 0 <= j < s.len() ==> s[j].0@ != k,
    ensures
        bag_remove(s, k) =~= s,
    decreases s.len(),
{
    if s.len() > 0 {
        lemma_bag_remove_none(s.drop_first(), k);
        assert(bag_remove(s, k) =~= seq![s[0]] + s.drop_first());
        assert(seq![s[0]] + s.drop_first() =~= s);
    }
}

/// A hit at `i` after misses before `i`: setting updates entry `i`.
proof fn lemma_bag_set_at(s: Seq<(String, AttrValue)>, k: String, v: AttrValue, i: int)
    requires
        0 <= i < s.len(),
        forall|j: int| 0 <= j < i ==> s[j].0@ != k@,
        s[i].0@ == k@,
    ensures
        bag_set(s, k, v) =~= s.update(i, (k, v)),
    decreases i,
{
    if i == 0 {
        assert(bag_set(s, k, v) =~= s.update(0, (k, v)));
    } else {
        lemma_bag_set_at(s.drop_first(), k, v, i - 1);
        assert(s.update(i, (k, v)) =~= seq![s[0]] + s.drop_first().update(i - 1, (k, v)));
    }
}

/// With no hit anywhere setting appends.
proof fn lemma_bag_set_none(s: Seq<(String, AttrValue)>, k: String, v: AttrValue)
    requires
        forall|j: int| 0 <= j < s.len() ==> s[j].0@ != k@,
    ensures
        bag_set(s, k, v) =~= s.push((k, v)),
    decreases s.len(),
{
    if s.len() > 0 {
        lemma_bag_set_none(s.drop_first(), k, v);
        assert(bag_set(s, k, v) =~= seq![s[0]] + s.drop_first().push((k, v)));
        assert(seq![s[0]] + s.drop_first().push((k, v)) =~= s.push((k, v)));
    }
}

/// Entries with their keys taken down to character sequences.
pub open spec fn bag_entries_v(s: Seq<(String, AttrValue)>) -> Seq<(Seq<char>, AttrValue)> {
    s.map_values(|p: (String, AttrValue)| (p.0@, p.1))
}

/// [`bag_set`] at the level of key views.
pub open spec fn bag_set_v(s: Seq<(Seq<char>, AttrValue)>, k: Seq<char>, v: AttrValue) -> Seq<
    (Seq<char>, AttrValue),
>
    decreases s.len(),
{
    if s.len() == 0 {
        seq![(k, v)]
    } else if s[0].0 == k {
        seq![(k, v)] + s.drop_first()
    } else {
        seq![s[0]] + bag_set_v(s.drop_first(), k, v)
    }
}

/// Setting a key commutes with taking key views.
pub proof fn lemma_bag_set_v(s: Seq<(String, AttrValue)>, k: String, v: AttrValue)
    ensures
        bag_entries_v(bag_set(s, k, v)) =~= bag_set_v(bag_entries_v(s), k@, v),
    decreases s.len(),
{
    if s.len() == 0 {
    } else if s[0].0@ == k@ {
        assert(bag_entries_v(bag_set(s, k, v)) =~= seq![(k@, v)] + bag_entries_v(s.drop_first()));
        assert(bag_entries_v(s).drop_first() =~= bag_entries_v(s.drop_first()));
    } else {
        lemma_bag_set_v(s.drop_first(), k, v);
        assert(bag_entries_v(s).drop_first() =~= bag_entries_v(s.drop_first()));
        assert(bag_entries_v(bag_set(s, k, v)) =~= seq![(s[0].0@, s[0].1)] + bag_entries_v(
            bag_set(s.drop_first(), k, v),
        ));
    }
}

/// Removing one key leaves every other key's value in place.
pub broadcast proof fn lemma_bag_remove_other(s: Seq<(String, AttrValue)>, k1: Seq<char>, k2: Seq<char>)
    requires
        k1 != k2,
    ensures
        #[trigger] bag_lookup(bag_remove(s, k1), k2) == bag_lookup(s, k2),
    decreases s.len(),
{
    if s.len() > 0 {
        if s[0].0@ == k1 {
        } else {
            lemma_bag_remove_other(s.drop_first(), k1, k2);
            let rest = bag_remove(s.drop_first(), k1);
            assert((seq![s[0]] + rest).drop_first() =~= rest);
            assert((seq![s[0]] + rest)[0] == s[0]);
        }
    }
}

/// An insertion-ordered map from attribute names to typed values.
/// All reads and writes are by key; keys stay distinct.
#[derive(Debug)]
pub struct AttrBag {
    entries: Vec<(String, AttrValue)>,
}

impl View for AttrBag {
    type V = Seq<(String, AttrValue)>;

    closed spec fn view(&self) -> Seq<(String, AttrValue)> {
        self.entries@
    }
}

impl AttrBag {
    /// Whether the keys of this bag are distinct.
    pub open spec fn wf(&self) -> bool {
        bag_wf(self@)
    }

    /// An empty bag.
    pub fn new() -> (r: Self)
        ensures
            r@ =~= Seq::<(String, AttrValue)>::empty(),
            r.wf(),
    {
        AttrBag { entries: Vec::new() }
    }

    /// Number of entries.
    pub fn len(&self) -> (n: usize)
        ensures
            n == self@.len(),
    {
        self.entries.len()
    }

    /// Whether the bag holds no entry.
    pub fn is_empty(&self) -> (r: bool)
        ensures
            r == (self@.len() == 0),
    {
        self.entries.len() == 0
    }

    /// The entry at position `i`, in insertion order.
    pub fn entry_at(&self, i: usize) -> (r: &(String, AttrValue))
        requires
            i < self@.len(),
        ensures
            *r == self@[i as int],
    {
        &self.entries[i]
    }

    /// Index of the entry under `k`, if any; misses are everywhere else.
    fn find(&self, k: &str) -> (r: Option<usize>)
        ensures
            match r {
                Some(i) => i < self@.len() && self@[i as int].0@ == k@ && forall|j: int|
                    0 <= j < i ==> self@[j].0@ != k@,
                None => forall|j: int| 0 <= j < self@.len() ==> self@[j].0@ != k@,
            },
    {
        let n = self.entries.len();
        let mut i: usize = 0;
        while i < n
            invariant
                i <= n,
                n == self@.len(),
                forall|j: int| 0 <= j < i ==> self@[j].0@ != k@,
            decreases n - i,
        {
            let hit = str_eq(self.entries[i].0.as_str(), k);
            if hit {
                return Some(i);
            }
            i = i + 1;
        }
        None
    }

    /// Bind `k` to `v`, replacing in place or appending.
    pub fn insert(&mut self, k: String, v: AttrValue)
        requires
            old(self).wf(),
        ensures
            final(self)@ =~= bag_set(old(self)@, k, v),
            final(self).wf(),
    {
        match self.find(k.as_str()) {
            Some(i) => {
                proof {
                    lemma_bag_set_at(self@, k, v, i as int);
                }
                self.entries.remove(i);
                self.entries.insert(i, (k, v));
                proof {
                    assert(self@ =~= old(self)@.update(i as int, (k, v)));
                }
            },
            None => {
                proof {
                    lemma_bag_set_none(self@, k, v);
                }
                self.entries.push((k, v));
            },
        }
    }

    /// Borrow the value under `k`.
    pub fn get(&self, k: &str) -> (r: Option<&AttrValue>)
        ensures
            match r {
                Some(v) => bag_lookup(self@, k@) == Some(*v),
                None => bag_lookup(self@, k@) is None,
            },
    {
        match self.find(k) {
            Some(i) => {
                proof {
                    lemma_bag_lookup_at(self@, k@, i as int);
                }
                Some(&self.entries[i].1)
            },
            None => {
                proof {
                    lemma_bag_lookup_none(self@, k@);
                }
                None
            },
        }
    }

    /// Remove and return the value under `k`.
    pub fn remove(&mut self, k: &str) -> (r: Option<AttrValue>)
        requires
            old(self).wf(),
        ensures
            final(self)@ =~= bag_remove(old(self)@, k@),
            r == bag_lookup(old(self)@, k@),
            final(self).wf(),
    {
        match self.find(k) {
            Some(i) => {
                proof {
                    lemma_bag_lookup_at(self@, k@, i as int);
                    lemma_bag_remove_at(self@, k@, i as int);
                }
                let pair = self.entries.remove(i);
                Some(pair.1)
            },
            None => {
                proof {
                    lemma_bag_lookup_none(self@, k@);
                    lemma_bag_remove_none(self@, k@);
                }
                None
            },
        }
    }

    /// Remove the entry under `k`; return its value when it is a
    /// string, fall back to nothing when it is absent or not a string.
    pub fn remove_str(&mut self, k: &str) -> (r: Option<String>)
        requires
            old(self).wf(),
        ensures
            final(self)@ =~= bag_remove(old(self)@, k@),
            final(self).wf(),
            match r {
                Some(x) => bag_str(old(self)@, k@) == Some(x@),
                None => bag_str(old(self)@, k@) is None,
            },
    {
        match self.remove(k) {
            Some(AttrValue::Str(x)) => Some(x),
            _ => None,
        }
    }

    /// Remove the entry under `k`; return its value when it is an
    /// integer that fits `i64`, fall back to nothing otherwise.
    pub fn remove_i64(&mut self, k: &str) -> (r: Option<i64>)
        requires
            old(self).wf(),
        ensures
            final(self)@ =~= bag_remove(old(self)@, k@),
            final(self).wf(),
            r == bag_i64(old(self)@, k@),
    {
        match self.remove(k) {
            Some(AttrValue::I64(x)) => Some(x),
            Some(AttrValue::U64(x)) => if x <= i64::MAX as u64 {
                Some(x as i64)
            } else {
                None
            },
            _ => None,
        }
    }

    /// The string under `k`, copied, without consuming the entry.
    pub fn get_str(&self, k: &str) -> (r: Option<String>)
        ensures
            match r {
                Some(x) => bag_str(self@, k@) == Some(x@),
                None => bag_str(self@, k@) is None,
            },
    {
        match self.get(k) {
            Some(AttrValue::Str(x)) => Some(x.clone()),
            _ => None,
        }
    }

    /// Apply every entry of `updates`, in order.
    pub fn merge(&mut self, updates: AttrBag)
        requires
            old(self).wf(),
        ensures
            final(self)@ =~= bag_merge(old(self)@, updates@),
            final(self).wf(),
    {
        let ghost u0 = updates@;
        let mut rest = updates;
        while rest.entries.len() > 0
            invariant
                self.wf(),
                bag_merge(old(self)@, u0) == bag_merge(self@, rest@),
            decreases rest.entries.len(),
        {
            let ghost pre_self = self@;
            let ghost pre_rest = rest@;
            let pair = rest.entries.remove(0);
            proof {
                assert(pair == pre_rest[0]);
                assert(rest@ =~= pre_rest.drop_first());
            }
            self.insert(pair.0, pair.1);
            proof {
                assert(self@ =~= bag_set(pre_self, pre_rest[0].0, pre_rest[0].1));
            }
        }
    }

    /// Hand the entries out, in insertion order.
    pub fn into_entries(self) -> (r: Vec<(String, AttrValue)>)
        ensures
            r@ == self@,
    {
        self.entries
    }

    /// A structurally equal copy.
    pub fn duplicate(&self) -> (r: Self)
        ensures
            r@ =~= self@,
    {
        let n = self.entries.len();
        let mut out: Vec<(String, AttrValue)> = Vec::new();
        let mut i: usize = 0;
        while i < n
            invariant
                i <= n,
                n == self@.len(),
                out@.len() == i,
                forall|j: int| 0 <= j < i ==> out@[j] == self@[j],
            decreases n - i,
        {
            let pair = &self.entries[i];
            out.push((pair.0.clone(), pair.1.duplicate()));
            i = i + 1;
        }
        AttrBag { entries: out }
    }
}

} // verus!
