//! A small id-keyed table backed by a vector of entries, with the abstract
//! value of a map from id to the most recently inserted value. The reflector
//! uses it for the constant, type and pointer tables of its first pass.

use vstd::prelude::*;

verus! {

/// The map an entry sequence denotes: later entries shadow earlier ones.
pub open spec fn entries_as_map<V>(s: Seq<(u32, V)>) -> Map<u32, V>
    decreases s.len(),
{
    if s.len() == 0 {
        Map::empty()
    } else {
        entries_as_map(s.drop_last()).insert(s.last().0, s.last().1)
    }
}

/// If the last occurrence of key `k` in `s` sits at index `i`, the denoted
/// map holds `k` with that entry's value.
proof fn lemma_entries_last_match<V>(s: Seq<(u32, V)>, i: int, k: u32)
    requires
        0 <= i < s.len(),
        s[i].0 == k,
        forall|j: int| i < j < s.len() ==> s[j].0 != k,
    ensures
        entries_as_map(s).contains_key(k),
        entries_as_map(s)[k] == s[i].1,
    decreases s.len(),
{
    if i == s.len() - 1 {
    } else {
        lemma_entries_last_match(s.drop_last(), i, k);
    }
}

/// A key that occurs in no entry is absent from the denoted map.
proof fn lemma_entries_no_match<V>(s: Seq<(u32, V)>, k: u32)
    requires
        forall|j: int| 0 <= j < s.len() ==> s[j].0 != k,
    ensures
        !entries_as_map(s).contains_key(k),
    decreases s.len(),
{
    if s.len() > 0 {
        lemma_entries_no_match(s.drop_last(), k);
    }
}

/// An id-keyed table whose abstract value is a `Map<u32, V>`.
pub struct IdMap<V> {
    entries: Vec<(u32, V)>,
}

impl<V> View for IdMap<V> {
    type V = Map<u32, V>;

    closed spec fn view(&self) -> Map<u32, V> {
        entries_as_map(self.entries@)
    }
}

impl<V> IdMap<V> {
    /// An empty table.
    pub fn new() -> (r: Self)
        ensures
            r@ == Map::<u32, V>::empty(),
    {
        let r = IdMap { entries: Vec::new() };
        proof {
            assert(r.entries@.len() == 0);
        }
        r
    }

    /// Binds `k` to `v`, shadowing any earlier binding.
    pub fn insert(&mut self, k: u32, v: V)
        ensures
            final(self)@ == old(self)@.insert(k, v),
    {
        let ghost before = self.entries@;
        self.entries.push((k, v));
        proof {
            assert(self.entries@.drop_last() =~= before);
        }
    }

    /// Looks `k` up, returning the most recently inserted value for it.
    pub fn get(&self, k: u32) -> (r: Option<&V>)
        ensures
            r is Some <==> self@.contains_key(k),
            r matches Some(v) ==> self@[k] == *v,
    {
        let mut i: usize = self.entries.len();
        while i > 0
            invariant
                i <= self.entries@.len(),
                forall|j: int| i <= j < self.entries@.len() ==> self.entries@[j].0 != k,
            decreases i,
        {
            i = i - 1;
            if self.entries[i].0 == k {
                proof {
                    lemma_entries_last_match(self.entries@, i as int, k);
                }
                return Some(&self.entries[i].1);
            }
        }
        proof {
            lemma_entries_no_match(self.entries@, k);
        }
        None
    }

    /// Whether `k` is bound.
    pub fn contains_key(&self, k: u32) -> (r: bool)
        ensures
            r == self@.contains_key(k),
    {
        self.get(k).is_some()
    }
}

/// The index of the first entry with key `k`, or -1 when there is none.
pub open spec fn spec_index_of<V>(s: Seq<(u32, V)>, k: u32) -> int
    decreases s.len(),
{
    if s.len() == 0 {
        -1
    } else if s[0].0 == k {
        0
    } else {
        let r = spec_index_of(s.drop_first(), k);
        if r < 0 {
            -1
        } else {
            r + 1
        }
    }
}

/// Whether some entry has key `k`.
pub open spec fn spec_contains_key<V>(s: Seq<(u32, V)>, k: u32) -> bool {
    spec_index_of(s, k) >= 0
}

/// What the first index of `k` means, entry by entry.
pub proof fn lemma_index_of_props<V>(s: Seq<(u32, V)>, k: u32)
    ensures
        spec_index_of(s, k) >= 0 ==> spec_index_of(s, k) < s.len() && s[spec_index_of(s, k)].0
            == k && (forall|j: int| 0 <= j < spec_index_of(s, k) ==> s[j].0 != k),
        spec_index_of(s, k) < 0 ==> (forall|j: int| 0 <= j < s.len() ==> s[j].0 != k),
    decreases s.len(),
{
    if s.len() > 0 && s[0].0 != k {
        lemma_index_of_props(s.drop_first(), k);
        let d = s.drop_first();
        assert(forall|j: int| 0 <= j < d.len() ==> d[j] == s[j + 1]);
        let r = spec_index_of(d, k);
        if r >= 0 {
            assert(spec_index_of(s, k) == r + 1);
            assert(s[r + 1].0 == k);
            assert forall|j: int| 0 <= j < r + 1 implies s[j].0 != k by {
                if j > 0 {
                    assert(d[j - 1].0 != k);
                }
            }
        } else {
            assert forall|j: int| 0 <= j < s.len() implies s[j].0 != k by {
                if j > 0 {
                    assert(d[j - 1].0 != k);
                }
            }
        }
    }
}

/// A scan that finds `k` first at index `i` agrees with `spec_index_of`.
pub proof fn lemma_index_of_found<V>(s: Seq<(u32, V)>, i: int, k: u32)
    requires
        0 <= i < s.len(),
        s[i].0 == k,
        forall|j: int| 0 <= j < i ==> s[j].0 != k,
    ensures
        spec_index_of(s, k) == i,
    decreases i,
{
    if i > 0 {
        lemma_index_of_found(s.drop_first(), i - 1, k);
    }
}

/// A scan that never finds `k` agrees with `spec_index_of`.
pub proof fn lemma_index_of_absent<V>(s: Seq<(u32, V)>, k: u32)
    requires
        forall|j: int| 0 <= j < s.len() ==> s[j].0 != k,
    ensures
        spec_index_of(s, k) == -1,
    decreases s.len(),
{
    if s.len() > 0 {
        lemma_index_of_absent(s.drop_first(), k);
    }
}

/// Replaces the value of the first entry with key `k`, or appends a new
/// entry when the key is absent.
pub open spec fn spec_put<V>(s: Seq<(u32, V)>, k: u32, v: V) -> Seq<(u32, V)> {
    if spec_contains_key(s, k) {
        s.update(spec_index_of(s, k), (k, v))
    } else {
        s.push((k, v))
    }
}

} // verus!
