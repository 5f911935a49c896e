//! A small table keyed by text, in the order in which its keys were first put in.

use vstd::prelude::*;
use vstd::string::*;
use crate::text::same;

verus! {

/// A table keyed by text. Its model is a map.
pub struct Keyed<V> {
    pub entries: Vec<(String, V)>,
}

/// `k` is a key of the table.
pub open spec fn has_key<V>(e: Seq<(String, V)>, k: Seq<char>) -> bool {
    exists|i: int| 0 <= i < e.len() && (#[trigger] e[i]).0@ == k
}

/// Where `k` is in the table.
pub open spec fn index_of<V>(e: Seq<(String, V)>, k: Seq<char>) -> int {
    choose|i: int| 0 <= i < e.len() && (#[trigger] e[i]).0@ == k
}

/// No key occurs twice.
pub open spec fn distinct_keys<V>(e: Seq<(String, V)>) -> bool {
    forall|i: int, j: int| 0 <= i < j < e.len() ==> (#[trigger] e[i]).0@ != (#[trigger] e[j]).0@
}

/// What the entries map each key to.
pub open spec fn as_map<V>(e: Seq<(String, V)>) -> Map<Seq<char>, V> {
    Map::new(|k: Seq<char>| has_key(e, k), |k: Seq<char>| e[index_of(e, k)].1)
}

impl<V> View for Keyed<V> {
    type V = Map<Seq<char>, V>;

    open spec fn view(&self) -> Map<Seq<char>, V> {
        as_map(self.entries@)
    }
}

/// The entry at `i` is what the map has under its key.
pub proof fn entry_is_mapped<V>(e: Seq<(String, V)>, i: int)
    requires
        distinct_keys(e),
        0 <= i < e.len(),
    ensures
        as_map(e).contains_key(e[i].0@),
        as_map(e)[e[i].0@] == e[i].1,
{
    let j = index_of(e, e[i].0@);
    assert(0 <= j < e.len() && e[j].0@ == e[i].0@);
    if i < j {
        assert(e[i].0@ != e[j].0@);
    } else if j < i {
        assert(e[j].0@ != e[i].0@);
    }
}

/// A table of one entry more maps one key more.
proof fn push_inserts<V>(e: Seq<(String, V)>, x: (String, V))
    requires
        distinct_keys(e),
        !has_key(e, x.0@),
    ensures
        distinct_keys(e.push(x)),
        as_map(e.push(x)) == as_map(e).insert(x.0@, x.1),
{
    let p = e.push(x);
    assert(distinct_keys(p)) by {
        assert forall|i: int, j: int| 0 <= i < j < p.len() implies (#[trigger] p[i]).0@ != (
        #[trigger] p[j]).0@ by {
            if j == e.len() {
                assert(e[i].0@ != x.0@);
            } else {
                assert(e[i].0@ != e[j].0@);
            }
        }
    }
    assert forall|k: Seq<char>| has_key(p, k) == (has_key(e, k) || k == x.0@) by {
        if has_key(e, k) {
            let i = index_of(e, k);
            assert(p[i].0@ == k);
        }
        if k == x.0@ {
            assert(p[e.len() as int].0@ == k);
        }
        if has_key(p, k) && k != x.0@ {
            let i = index_of(p, k);
            assert(e[i].0@ == k);
        }
    }
    assert(as_map(p) =~= as_map(e).insert(x.0@, x.1)) by {
        assert forall|k: Seq<char>| has_key(p, k) implies as_map(p)[k] == as_map(e).insert(
            x.0@,
            x.1,
        )[k] by {
            if k == x.0@ {
                entry_is_mapped(p, e.len() as int);
            } else {
                let i = index_of(e, k);
                assert(e[i].0@ == k && p[i] == e[i]);
                entry_is_mapped(p, i);
                entry_is_mapped(e, i);
            }
        }
    }
}

/// A table with an entry replaced under its key maps that key to the new value.
proof fn update_replaces<V>(e: Seq<(String, V)>, i: int, x: (String, V))
    requires
        distinct_keys(e),
        0 <= i < e.len(),
        e[i].0@ == x.0@,
    ensures
        distinct_keys(e.update(i, x)),
        as_map(e.update(i, x)) == as_map(e).insert(x.0@, x.1),
{
    let p = e.update(i, x);
    assert(forall|j: int| 0 <= j < e.len() ==> (#[trigger] p[j]).0@ == e[j].0@);
    assert(distinct_keys(p)) by {
        assert forall|a: int, b: int| 0 <= a < b < p.len() implies (#[trigger] p[a]).0@ != (
        #[trigger] p[b]).0@ by {
            assert(e[a].0@ != e[b].0@);
        }
    }
    assert forall|k: Seq<char>| has_key(p, k) == has_key(e, k) by {
        if has_key(e, k) {
            assert(p[index_of(e, k)].0@ == k);
        }
        if has_key(p, k) {
            assert(e[index_of(p, k)].0@ == k);
        }
    }
    assert(has_key(e, x.0@));
    assert(as_map(p) =~= as_map(e).insert(x.0@, x.1)) by {
        assert forall|k: Seq<char>| has_key(p, k) implies as_map(p)[k] == as_map(e).insert(
            x.0@,
            x.1,
        )[k] by {
            if k == x.0@ {
                entry_is_mapped(p, i);
            } else {
                let j = index_of(e, k);
                assert(e[j].0@ == k && j != i && p[j] == e[j]);
                entry_is_mapped(p, j);
                entry_is_mapped(e, j);
            }
        }
    }
}

/// A table without an entry maps one key less.
proof fn remove_removes<V>(e: Seq<(String, V)>, i: int)
    requires
        distinct_keys(e),
        0 <= i < e.len(),
    ensures
        distinct_keys(e.remove(i)),
        as_map(e.remove(i)) == as_map(e).remove(e[i].0@),
{
    let p = e.remove(i);
    let gone = e[i].0@;
    assert(distinct_keys(p)) by {
        assert forall|a: int, b: int| 0 <= a < b < p.len() implies (#[trigger] p[a]).0@ != (
        #[trigger] p[b]).0@ by {
            let (x, y) = (
                if a < i {
                    a
                } else {
                    a + 1
                },
                if b < i {
                    b
                } else {
                    b + 1
                },
            );
            assert(p[a] == e[x] && p[b] == e[y]);
            assert(e[x].0@ != e[y].0@);
        }
    }
    assert forall|k: Seq<char>| has_key(p, k) == (has_key(e, k) && k != gone) by {
        if has_key(e, k) && k != gone {
            let j = index_of(e, k);
            assert(e[j].0@ == k);
            let x = if j < i {
                j
            } else {
                j - 1
            };
            assert(p[x] == e[j]);
        }
        if has_key(p, k) {
            let a = index_of(p, k);
            let x = if a < i {
                a
            } else {
                a + 1
            };
            assert(p[a] == e[x] && e[x].0@ == k && x != i);
            if x < i {
                assert(e[x].0@ != e[i].0@);
            } else {
                assert(e[i].0@ != e[x].0@);
            }
        }
    }
    assert(as_map(p) =~= as_map(e).remove(gone)) by {
        assert forall|k: Seq<char>| has_key(p, k) implies as_map(p)[k] == as_map(e)[k] by {
            let a = index_of(p, k);
            let x = if a < i {
                a
            } else {
                a + 1
            };
            assert(p[a] == e[x] && p[a].0@ == k);
            entry_is_mapped(p, a);
            entry_is_mapped(e, x);
        }
    }
}

/// A table has as many keys as entries.
proof fn as_many_keys_as_entries<V>(e: Seq<(String, V)>)
    requires
        distinct_keys(e),
    ensures
        as_map(e).dom().finite(),
        as_map(e).dom().len() == e.len(),
    decreases e.len(),
{
    if e.len() == 0 {
        assert(as_map(e).dom() =~= Set::empty());
    } else {
        let r = e.drop_last();
        let x = e.last();
        assert(distinct_keys(r)) by {
            assert forall|i: int, j: int| 0 <= i < j < r.len() implies (#[trigger] r[i]).0@ != (
            #[trigger] r[j]).0@ by {
                assert(e[i].0@ != e[j].0@);
            }
        }
        assert(!has_key(r, x.0@)) by {
            if has_key(r, x.0@) {
                let i = index_of(r, x.0@);
                assert(r[i] == e[i] && e[i].0@ != e[e.len() - 1].0@);
            }
        }
        as_many_keys_as_entries(r);
        push_inserts(r, x);
        assert(r.push(x) =~= e);
        assert(as_map(e).dom() =~= as_map(r).dom().insert(x.0@));
    }
}

impl<V> Keyed<V> {
    /// No key occurs twice.
    pub open spec fn wf(self) -> bool {
        distinct_keys(self.entries@)
    }

    /// A table without entries.
    pub fn new() -> (r: Keyed<V>)
        ensures
            r.wf(),
            r@ == Map::<Seq<char>, V>::empty(),
            r.entries@.len() == 0,
    {
        let r = Keyed { entries: Vec::new() };
        proof {
            assert(r@ =~= Map::<Seq<char>, V>::empty());
        }
        r
    }

    /// How many keys there are.
    pub fn len(&self) -> (n: usize)
        requires
            self.wf(),
        ensures
            n == self@.dom().len(),
            n == self.entries@.len(),
            self@.dom().finite(),
    {
        proof {
            as_many_keys_as_entries(self.entries@);
        }
        self.entries.len()
    }

    fn find(&self, k: &str) -> (r: Option<usize>)
        ensures
            r is None <==> !has_key(self.entries@, k@),
            r matches Some(i) ==> i < self.entries@.len() && self.entries@[i as int].0@ == k@,
    {
        let mut i: usize = 0;
        while i < self.entries.len()
            invariant
                i <= self.entries@.len(),
                forall|j: int| 0 <= j < i ==> (#[trigger] self.entries@[j]).0@ != k@,
            decreases self.entries.len() - i,
        {
            if same(self.entries[i].0.as_str(), k) {
                proof {
                    assert(self.entries@[i as int].0@ == k@);
                }
                return Some(i);
            }
            i += 1;
        }
        None
    }

    /// Whether `k` is a key.
    pub fn contains(&self, k: &str) -> (r: bool)
        ensures
            r == self@.contains_key(k@),
    {
        self.find(k).is_some()
    }

    /// What there is under `k`.
    pub fn get(&self, k: &str) -> (r: Option<&V>)
        requires
            self.wf(),
        ensures
            r is Some <==> self@.contains_key(k@),
            r matches Some(v) ==> *v == self@[k@],
    {
        match self.find(k) {
            Some(i) => {
                proof {
                    entry_is_mapped(self.entries@, i as int);
                }
                Some(&self.entries[i].1)
            },
            None => None,
        }
    }

    /// Put `v` under `k`, in place of what was there.
    pub fn insert(&mut self, k: &str, v: V)
        requires
            old(self).wf(),
        ensures
            final(self).wf(),
            final(self)@ == old(self)@.insert(k@, v),
    {
        let ghost e = self.entries@;
        match self.find(k) {
            Some(i) => {
                let x = (k.to_owned(), v);
                proof {
                    update_replaces(e, i as int, x);
                }
                self.entries.set(i, x);
            },
            None => {
                let x = (k.to_owned(), v);
                proof {
                    push_inserts(e, x);
                }
                self.entries.push(x);
            },
        }
    }

    /// Take out what there is under `k`.
    pub fn remove(&mut self, k: &str) -> (r: Option<V>)
        requires
            old(self).wf(),
        ensures
            final(self).wf(),
            final(self)@ == old(self)@.remove(k@),
            r is Some <==> old(self)@.contains_key(k@),
            r matches Some(v) ==> v == old(self)@[k@],
    {
        let ghost e = self.entries@;
        match self.find(k) {
            Some(i) => {
                proof {
                    entry_is_mapped(e, i as int);
                    remove_removes(e, i as int);
                }
                let (_, v) = self.entries.remove(i);
                Some(v)
            },
            None => {
                proof {
                    assert(as_map(e) =~= as_map(e).remove(k@));
                }
                None
            },
        }
    }

    /// The key of the entry at `i`.
    pub fn key_at(&self, i: usize) -> (r: &str)
        requires
            self.wf(),
            i < self.entries@.len(),
        ensures
            r@ == self.entries@[i as int].0@,
            self@.contains_key(r@),
            self@[r@] == self.entries@[i as int].1,
    {
        proof {
            entry_is_mapped(self.entries@, i as int);
        }
        self.entries[i].0.as_str()
    }
}

/// The entries that are due at `now` or later.
pub open spec fn not_past(m: Map<Seq<char>, u64>, now: u64) -> Map<Seq<char>, u64> {
    Map::new(|k: Seq<char>| m.contains_key(k) && now <= m[k], |k: Seq<char>| m[k])
}

/// `k` is one of the texts.
pub open spec fn listed(v: Seq<String>, k: Seq<char>) -> bool {
    exists|i: int| 0 <= i < v.len() && (#[trigger] v[i])@ == k
}

/// A list of one text more.
pub proof fn listed_push(v: Seq<String>, x: String)
    ensures
        forall|k: Seq<char>| #[trigger] listed(v.push(x), k) == (listed(v, k) || k == x@),
{
    let w = v.push(x);
    assert forall|k: Seq<char>| #[trigger] listed(w, k) == (listed(v, k) || k == x@) by {
        if listed(v, k) {
            let j = choose|j: int| 0 <= j < v.len() && (#[trigger] v[j])@ == k;
            assert(w[j]@ == k);
        }
        if k == x@ {
            assert(w[v.len() as int]@ == k);
        }
        if listed(w, k) && k != x@ {
            let j = choose|j: int| 0 <= j < w.len() && (#[trigger] w[j])@ == k;
            assert(v[j]@ == k);
        }
    }
}

/// `now` holds what `was` holds, and `k` where `added`.
pub open spec fn gained(was: Seq<String>, now: Seq<String>, added: bool, k: Seq<char>) -> bool {
    forall|p: Seq<char>| #[trigger] listed(now, p) == (listed(was, p) || (added && p == k))
}

/// Whether `k` is one of the texts.
pub fn lists(v: &Vec<String>, k: &str) -> (r: bool)
    ensures
        r == listed(v@, k@),
{
    let mut i: usize = 0;
    while i < v.len()
        invariant
            i <= v@.len(),
            forall|j: int| 0 <= j < i ==> (#[trigger] v@[j])@ != k@,
        decreases v.len() - i,
    {
        if same(v[i].as_str(), k) {
            return true;
        }
        i += 1;
    }
    false
}

impl Keyed<u64> {
    /// Take out the entries whose time is past, and tell their keys.
    pub fn expire(&mut self, now: u64) -> (gone: Vec<String>)
        requires
            old(self).wf(),
        ensures
            final(self).wf(),
            final(self)@ == not_past(old(self)@, now),
            forall|k: Seq<char>| #[trigger]
                listed(gone@, k) <==> old(self)@.contains_key(k) && now > old(self)@[k],
    {
        let mut keep: Keyed<u64> = Keyed::new();
        let mut gone: Vec<String> = Vec::new();
        let n: usize = self.entries.len();
        let mut i: usize = 0;
        let ghost e = self.entries@;
        while i < n
            invariant
                i <= n,
                n == e.len(),
                e == self.entries@,
                distinct_keys(e),
                keep.wf(),
                forall|k: Seq<char>| #[trigger]
                    keep@.contains_key(k) ==> as_map(e).contains_key(k) && now <= as_map(e)[k]
                        && keep@[k] == as_map(e)[k],
                forall|j: int|
                    0 <= j < i && now <= (#[trigger] e[j]).1 ==> keep@.contains_key(e[j].0@),
                forall|k: Seq<char>| #[trigger]
                    listed(gone@, k) ==> as_map(e).contains_key(k) && now > as_map(e)[k],
                forall|j: int| 0 <= j < i && now > (#[trigger] e[j]).1 ==> listed(gone@, e[j].0@),
            decreases n - i,
        {
            proof {
                entry_is_mapped(e, i as int);
            }
            let at: u64 = self.entries[i].1;
            let k = self.entries[i].0.clone();
            if now > at {
                let ghost before = gone@;
                gone.push(k);
                proof {
                    listed_push(before, k);
                    assert forall|j: int| 0 <= j < i && now > (#[trigger] e[j]).1 implies listed(
                        gone@,
                        e[j].0@,
                    ) by {
                        assert(listed(before, e[j].0@));
                    }
                }
            } else {
                keep.insert(k.as_str(), at);
            }
            i += 1;
        }
        proof {
            assert forall|k: Seq<char>| as_map(e).contains_key(k) implies (now <= as_map(e)[k]
                ==> keep@.contains_key(k)) && (now > as_map(e)[k] ==> listed(gone@, k)) by {
                let j = index_of(e, k);
                assert(0 <= j < e.len() && e[j].0@ == k);
                entry_is_mapped(e, j);
            }
            assert(keep@ =~= not_past(as_map(e), now));
        }
        *self = keep;
        gone
    }
}

} // verus!
