//! A map from glyph keys to per-glyph data that keeps the entries whose key
//! names no known glyph.
use vstd::prelude::*;
use itertools::Itertools;
use crate::glyph::{key_of_name, Glyph, GlyphKey, GlyphOrUnknown};
use crate::text::{lex_lt, seq_items};

verus! {

/// The characters of each name in `v`.
pub open spec fn name_views(v: Seq<String>) -> Seq<Seq<char>> {
    v.map_values(|s: String| s@)
}

/// `v` is in strictly ascending lexicographic order, so no name comes twice.
pub open spec fn strictly_ascending(v: Seq<Seq<char>>) -> bool {
    forall|i: int, j: int| 0 <= i < j < v.len() ==> lex_lt(#[trigger] v[i], #[trigger] v[j])
}

/// Relies on itertools' `unique` then `sorted`: each distinct name once, in
/// ascending order of `String`, which is lexicographic in code points.
#[verifier::external_body]
pub(crate) fn sorted_unique(names: Vec<String>) -> (r: Vec<String>)
    ensures
        strictly_ascending(name_views(r@)),
        seq_items(name_views(r@)) == seq_items(name_views(names@)),
{
    names.into_iter().unique().sorted().collect()
}

/// No two entries of `s` have the same key.
pub open spec fn unique_keys<T>(s: Seq<(GlyphOrUnknown, T)>) -> bool {
    forall|i: int, j: int| 0 <= i < j < s.len() ==> (#[trigger] s[i]).0@ != (#[trigger] s[j]).0@
}

/// Some entry of `s` has the key `k`.
pub open spec fn has_key<T>(s: Seq<(GlyphOrUnknown, T)>, k: GlyphKey) -> bool {
    exists|i: int| 0 <= i < s.len() && (#[trigger] s[i]).0@ == k
}

/// The map that the entries `s` make.
pub open spec fn entries_map<T>(s: Seq<(GlyphOrUnknown, T)>) -> Map<GlyphKey, T> {
    Map::new(
        |k: GlyphKey| has_key(s, k),
        |k: GlyphKey| s[choose|i: int| 0 <= i < s.len() && (#[trigger] s[i]).0@ == k].1,
    )
}

/// With unique keys, each entry is what the map holds for its key.
pub proof fn lemma_entry_in_map<T>(s: Seq<(GlyphOrUnknown, T)>, i: int)
    requires
        unique_keys(s),
        0 <= i < s.len(),
    ensures
        entries_map(s).contains_key(s[i].0@),
        entries_map(s)[s[i].0@] == s[i].1,
{
    let k = s[i].0@;
    assert(has_key(s, k));
    let j = choose|j: int| 0 <= j < s.len() && (#[trigger] s[j]).0@ == k;
    if j != i {
        if j < i {
            assert(s[j].0@ != s[i].0@);
        } else {
            assert(s[i].0@ != s[j].0@);
        }
    }
}

/// The position of the entry of `entries` with key `key`, if any.
fn find_key<T>(entries: &Vec<(GlyphOrUnknown, T)>, key: &GlyphOrUnknown) -> (r: Option<usize>)
    ensures
        r matches Some(i) ==> i < entries@.len() && entries@[i as int].0@ == key@,
        r is None ==> !has_key(entries@, key@),
{
    let mut i: usize = 0;
    while i < entries.len()
        invariant
            i <= entries@.len(),
            forall|j: int| 0 <= j < i ==> (#[trigger] entries@[j]).0@ != key@,
        decreases entries@.len() - i,
    {
        if entries[i].0 == *key {
            return Some(i);
        }
        i = i + 1;
    }
    None
}

/// `primary` merged over `fallback`: every key of either, with the value of
/// `primary` where it has the key.
pub open spec fn merge_maps<T>(primary: Map<GlyphKey, T>, fallback: Map<GlyphKey, T>) -> Map<
    GlyphKey,
    T,
> {
    fallback.union_prefer_right(primary)
}

/// In a merge, a key that the primary map has keeps the primary's value
/// whatever the fallback holds; a key that only the fallback has takes the
/// fallback's value; and the merged keys, unknown names among them, are those
/// of either map.
pub proof fn lemma_merge_precedence<T>(
    primary: Map<GlyphKey, T>,
    fallback: Map<GlyphKey, T>,
    k: GlyphKey,
)
    ensures
        merge_maps(primary, fallback).contains_key(k) <==> (primary.contains_key(k)
            || fallback.contains_key(k)),
        primary.contains_key(k) ==> merge_maps(primary, fallback)[k] == primary[k],
        !primary.contains_key(k) && fallback.contains_key(k) ==> merge_maps(primary, fallback)[k]
            == fallback[k],
{
}

/// The map that a document's `(glyph name, data)` pairs give, each name
/// resolved to its key, a later pair replacing an earlier one of the same key.
pub open spec fn named_map<T>(s: Seq<(String, T)>) -> Map<GlyphKey, T>
    decreases s.len(),
{
    if s.len() == 0 {
        Map::empty()
    } else {
        named_map(s.drop_last()).insert(key_of_name(s.last().0@), s.last().1)
    }
}

/// Why a glyph's data could not be had: the map holds none for it.
#[derive(Clone, Copy, Debug, PartialEq, Eq, Structural)]
pub struct MissingGlyphData {
    /// The glyph asked for.
    pub glyph: Glyph,
}

/// A map from glyphs to some data `T`, one entry per key; a key whose name is
/// no known glyph is kept as that name.
#[derive(Debug)]
pub struct GlyphData<T> {
    entries: Vec<(GlyphOrUnknown, T)>,
}

impl<T> View for GlyphData<T> {
    type V = Map<GlyphKey, T>;

    closed spec fn view(&self) -> Map<GlyphKey, T> {
        entries_map(self.entries@)
    }
}

impl<T: Copy> GlyphData<T> {
    /// Returns a copy of the data for `glyph`, if present.
    pub fn try_get(&self, glyph: Glyph) -> (r: Option<T>)
        ensures
            r == if self@.contains_key(GlyphKey::Known(glyph)) {
                Some(self@[GlyphKey::Known(glyph)])
            } else {
                None
            },
    {
        proof {
            use_type_invariant(self);
        }
        let key = GlyphOrUnknown::known(glyph);
        match self.find(&key) {
            Some(i) => {
                proof {
                    lemma_entry_in_map(self.entries@, i as int);
                }
                Some(self.entries[i].1)
            },
            None => None,
        }
    }

    /// Returns a copy of the data for `glyph`, or an error naming the glyph
    /// if the map has none.
    pub fn require(&self, glyph: Glyph) -> (r: Result<T, MissingGlyphData>)
        ensures
            r == if self@.contains_key(GlyphKey::Known(glyph)) {
                Ok::<T, MissingGlyphData>(self@[GlyphKey::Known(glyph)])
            } else {
                Err(MissingGlyphData { glyph })
            },
    {
        match self.try_get(glyph) {
            Some(v) => Ok(v),
            None => Err(MissingGlyphData { glyph }),
        }
    }

    /// Returns a copy of the data for `glyph`, which must be present.
    pub fn get(&self, glyph: Glyph) -> (r: T)
        requires
            self@.contains_key(GlyphKey::Known(glyph)),
        ensures
            r == self@[GlyphKey::Known(glyph)],
    {
        self.require(glyph).unwrap()
    }
}

impl<T> Default for GlyphData<T> {
    /// A map with no entries.
    fn default() -> (r: GlyphData<T>)
        ensures
            r@ == Map::<GlyphKey, T>::empty(),
    {
        GlyphData::new()
    }
}

impl<T> GlyphData<T> {
    #[verifier::type_invariant]
    closed spec fn keys_unique(self) -> bool {
        unique_keys(self.entries@)
    }

    /// A map with no entries.
    pub fn new() -> (r: GlyphData<T>)
        ensures
            r@ == Map::<GlyphKey, T>::empty(),
    {
        let r = GlyphData { entries: Vec::new() };
        assert(r@ =~= Map::<GlyphKey, T>::empty());
        r
    }

    /// The map of a document's `(glyph name, data)` pairs: each name is
    /// resolved against the known glyphs, and a name that is none is kept.
    pub fn from_names(entries: Vec<(String, T)>) -> (r: GlyphData<T>)
        ensures
            r@ == named_map(entries@),
    {
        let ghost all = entries@;
        let mut rest = entries;
        let mut r: GlyphData<T> = GlyphData::new();
        let ghost k: int = 0;
        assert(all.subrange(0, 0) =~= Seq::<(String, T)>::empty());
        while rest.len() > 0
            invariant
                0 <= k <= all.len(),
                rest@ == all.subrange(k, all.len() as int),
                r@ == named_map(all.subrange(0, k)),
            decreases rest@.len(),
        {
            let (name, value) = rest.remove(0);
            r.insert(GlyphOrUnknown::from_name(name), value);
            proof {
                k = k + 1;
                assert(all.subrange(0, k).drop_last() =~= all.subrange(0, k - 1));
            }
        }
        assert(all.subrange(0, all.len() as int) =~= all);
        r
    }

    /// The position of the entry with key `key`, if any.
    fn find(&self, key: &GlyphOrUnknown) -> (r: Option<usize>)
        ensures
            r matches Some(i) ==> i < self.entries@.len() && self.entries@[i as int].0@ == key@,
            r is None ==> !self@.contains_key(key@),
    {
        find_key(&self.entries, key)
    }

    /// Sets the data of `key` to `value`, replacing what it had.
    pub fn insert(&mut self, key: GlyphOrUnknown, value: T)
        ensures
            final(self)@ == old(self)@.insert(key@, value),
    {
        proof {
            use_type_invariant(&*self);
        }
        let mut entries: Vec<(GlyphOrUnknown, T)> = Vec::new();
        std::mem::swap(&mut entries, &mut self.entries);
        let ghost before = entries@;
        let ghost k = key@;
        match find_key(&entries, &key) {
            Some(i) => {
                entries.set(i, (key, value));
                proof {
                    let after = entries@;
                    assert(unique_keys(after)) by {
                        assert forall|a: int, b: int| 0 <= a < b < after.len() implies (
                        #[trigger] after[a]).0@ != (#[trigger] after[b]).0@ by {
                            assert(before[a].0@ != before[b].0@);
                        }
                    }
                    assert forall|q: GlyphKey| #[trigger] has_key(after, q) == has_key(before, q) by {
                        if has_key(before, q) {
                            let j = choose|j: int| 0 <= j < before.len() && (#[trigger] before[j]).0@ == q;
                            assert(after[j].0@ == q);
                        }
                        if has_key(after, q) {
                            let j = choose|j: int| 0 <= j < after.len() && (#[trigger] after[j]).0@ == q;
                            assert(before[j].0@ == q);
                        }
                    }
                    assert forall|q: GlyphKey| has_key(after, q) implies entries_map(after)[q] == old(self)@.insert(k, value)[q] by {
                        let j = choose|j: int| 0 <= j < after.len() && (#[trigger] after[j]).0@ == q;
                        lemma_entry_in_map(after, j);
                        lemma_entry_in_map(before, j);
                    }
                    assert(entries_map(after) =~= old(self)@.insert(k, value));
                }
            },
            None => {
                entries.push((key, value));
                proof {
                    let after = entries@;
                    assert(unique_keys(after)) by {
                        assert forall|a: int, b: int| 0 <= a < b < after.len() implies (
                        #[trigger] after[a]).0@ != (#[trigger] after[b]).0@ by {
                            if b == before.len() {
                                assert(!has_key(before, k));
                                assert(before[a].0@ != k);
                            } else {
                                assert(before[a].0@ != before[b].0@);
                            }
                        }
                    }
                    assert forall|q: GlyphKey| #[trigger] has_key(after, q) == (has_key(before, q) || q == k) by {
                        if has_key(before, q) {
                            let j = choose|j: int| 0 <= j < before.len() && (#[trigger] before[j]).0@ == q;
                            assert(after[j].0@ == q);
                        }
                        if q == k {
                            assert(after[before.len() as int].0@ == q);
                        }
                        if has_key(after, q) && q != k {
                            let j = choose|j: int| 0 <= j < after.len() && (#[trigger] after[j]).0@ == q;
                            assert(before[j].0@ == q);
                        }
                    }
                    assert forall|q: GlyphKey| has_key(after, q) implies entries_map(after)[q] == old(self)@.insert(k, value)[q] by {
                        let j = choose|j: int| 0 <= j < after.len() && (#[trigger] after[j]).0@ == q;
                        lemma_entry_in_map(after, j);
                        if j < before.len() {
                            lemma_entry_in_map(before, j);
                        }
                    }
                    assert(entries_map(after) =~= old(self)@.insert(k, value));
                }
            },
        }
        self.entries = entries;
    }

    /// Whether the map holds data for `glyph`.
    pub fn contains(&self, glyph: Glyph) -> (r: bool)
        ensures
            r == self@.contains_key(GlyphKey::Known(glyph)),
    {
        proof {
            use_type_invariant(self);
        }
        let key = GlyphOrUnknown::known(glyph);
        match self.find(&key) {
            Some(i) => {
                proof {
                    lemma_entry_in_map(self.entries@, i as int);
                }
                true
            },
            None => false,
        }
    }

    /// Merges `self` over `defaults`: every key of either map, with the data
    /// of `self` where it has the key and that of `defaults` elsewhere.
    pub fn with_defaults(self, defaults: GlyphData<T>) -> (r: GlyphData<T>)
        ensures
            r@ == merge_maps(self@, defaults@),
    {
        proof {
            use_type_invariant(&self);
            use_type_invariant(&defaults);
        }
        let GlyphData { entries: mut merged } = self;
        let GlyphData { entries: mut rest } = defaults;
        let ghost primary = merged@;
        let ghost fallback = rest@;
        while rest.len() > 0
            invariant
                unique_keys(merged@),
                unique_keys(fallback),
                rest@.len() <= fallback.len(),
                rest@ == fallback.subrange(0, rest@.len() as int),
                forall|q: GlyphKey|
                    #[trigger] has_key(merged@, q) <==> (has_key(primary, q) || exists|j: int|
                        rest@.len() <= j < fallback.len() && (#[trigger] fallback[j]).0@ == q),
                forall|q: GlyphKey|
                    has_key(primary, q) ==> #[trigger] entries_map(merged@)[q] == entries_map(
                        primary,
                    )[q],
                forall|j: int|
                    rest@.len() <= j < fallback.len() && !has_key(primary, (#[trigger] fallback[j]).0@)
                        ==> entries_map(merged@)[fallback[j].0@] == fallback[j].1,
            decreases rest@.len(),
        {
            let ghost before = merged@;
            let n = rest.len();
            let ghost whole = rest@;
            let entry = rest.pop().unwrap();
            let ghost q0 = entry.0@;
            assert(whole[n - 1] == fallback[n - 1]);
            assert(entry == fallback[n - 1]);
            assert(rest@ =~= fallback.subrange(0, rest@.len() as int));
            match find_key(&merged, &entry.0) {
                Some(i) => {
                    proof {
                        assert(has_key(before, q0));
                    }
                },
                None => {
                    merged.push(entry);
                    proof {
                        let after = merged@;
                        assert(unique_keys(after)) by {
                            assert forall|a: int, b: int| 0 <= a < b < after.len() implies (
                            #[trigger] after[a]).0@ != (#[trigger] after[b]).0@ by {
                                if b == before.len() {
                                    assert(before[a].0@ != q0);
                                } else {
                                    assert(before[a].0@ != before[b].0@);
                                }
                            }
                        }
                        assert forall|q: GlyphKey| #[trigger] has_key(after, q) == (has_key(before, q) || q == q0) by {
                            if has_key(before, q) {
                                let j = choose|j: int| 0 <= j < before.len() && (#[trigger] before[j]).0@ == q;
                                assert(after[j].0@ == q);
                            }
                            if q == q0 {
                                assert(after[before.len() as int].0@ == q);
                            }
                            if has_key(after, q) && q != q0 {
                                let j = choose|j: int| 0 <= j < after.len() && (#[trigger] after[j]).0@ == q;
                                assert(before[j].0@ == q);
                            }
                        }
                        assert forall|q: GlyphKey| has_key(before, q) implies #[trigger] entries_map(after)[q] == entries_map(before)[q] by {
                            let j = choose|j: int| 0 <= j < before.len() && (#[trigger] before[j]).0@ == q;
                            lemma_entry_in_map(after, j);
                            lemma_entry_in_map(before, j);
                        }
                        lemma_entry_in_map(after, before.len() as int);
                    }
                },
            }
            proof {
                assert forall|j: int|
                    rest@.len() <= j < fallback.len() && !has_key(primary, (#[trigger] fallback[j]).0@)
                        implies entries_map(merged@)[fallback[j].0@] == fallback[j].1 by {
                    if j > rest@.len() {
                        assert(has_key(before, fallback[j].0@));
                    }
                }
                assert forall|q: GlyphKey|
                    #[trigger] has_key(merged@, q) <==> (has_key(primary, q) || exists|j: int|
                        rest@.len() <= j < fallback.len() && (#[trigger] fallback[j]).0@ == q) by {
                    if q == q0 {
                        assert(fallback[rest@.len() as int].0@ == q);
                    }
                }
            }
        }
        let r = GlyphData { entries: merged };
        proof {
            let want = merge_maps(entries_map(primary), entries_map(fallback));
            assert forall|q: GlyphKey| #[trigger] r@.contains_key(q) == want.contains_key(q) by {
                if has_key(fallback, q) {
                    let j = choose|j: int| 0 <= j < fallback.len() && (#[trigger] fallback[j]).0@ == q;
                    assert(has_key(merged@, q));
                }
            }
            assert forall|q: GlyphKey| r@.contains_key(q) implies #[trigger] r@[q] == want[q] by {
                if !has_key(primary, q) {
                    let j = choose|j: int| 0 <= j < fallback.len() && (#[trigger] fallback[j]).0@ == q;
                    lemma_entry_in_map(fallback, j);
                }
            }
            assert(r@ =~= want);
        }
        r
    }

    /// Returns all the keys whose name was not recognized, in entry order.
    pub(crate) fn unknown_names(&self) -> (r: Vec<String>)
        ensures
            forall|s: Seq<char>|
                #![trigger name_views(r@).contains(s)]
                name_views(r@).contains(s) <==> self@.contains_key(GlyphKey::Unknown(s)),
    {
        let mut r: Vec<String> = Vec::new();
        let mut i: usize = 0;
        while i < self.entries.len()
            invariant
                i <= self.entries@.len(),
                forall|s: Seq<char>|
                    #![trigger name_views(r@).contains(s)]
                    name_views(r@).contains(s) <==> exists|j: int|
                        0 <= j < i && (#[trigger] self.entries@[j]).0@ == GlyphKey::Unknown(s),
            decreases self.entries@.len() - i,
        {
            let ghost before = r@;
            match &self.entries[i].0 {
                GlyphOrUnknown::Unknown(name) => {
                    r.push(name.clone());
                    proof {
                        assert(name_views(r@) =~= name_views(before).push(name@));
                        assert forall|s: Seq<char>|
                            #![trigger name_views(r@).contains(s)]
                            name_views(r@).contains(s) <== exists|j: int|
                                0 <= j < i + 1 && (#[trigger] self.entries@[j]).0@ == GlyphKey::Unknown(s) by {
                            if exists|j: int| 0 <= j < i + 1 && (#[trigger] self.entries@[j]).0@ == GlyphKey::Unknown(s) {
                                let j = choose|j: int| 0 <= j < i + 1 && (#[trigger] self.entries@[j]).0@ == GlyphKey::Unknown(s);
                                if j == i {
                                    assert(name_views(r@)[before.len() as int] == s);
                                } else {
                                    assert(name_views(before).contains(s));
                                    let m = choose|m: int| 0 <= m < name_views(before).len() && name_views(before)[m] == s;
                                    assert(name_views(r@)[m] == s);
                                }
                            }
                        }
                        assert forall|s: Seq<char>|
                            #![trigger name_views(r@).contains(s)]
                            name_views(r@).contains(s) ==> exists|j: int|
                                0 <= j < i + 1 && (#[trigger] self.entries@[j]).0@ == GlyphKey::Unknown(s) by {
                            if name_views(r@).contains(s) {
                                let m = choose|m: int| 0 <= m < name_views(r@).len() && name_views(r@)[m] == s;
                                if m == before.len() {
                                    assert(self.entries@[i as int].0@ == GlyphKey::Unknown(s));
                                } else {
                                    assert(name_views(before)[m] == s);
                                    assert(name_views(before).contains(s));
                                }
                            }
                        }
                    }
                },
                GlyphOrUnknown::Glyph(_) => {
                    proof {
                        assert forall|s: Seq<char>|
                            #![trigger name_views(r@).contains(s)]
                            name_views(r@).contains(s) <==> exists|j: int|
                                0 <= j < i + 1 && (#[trigger] self.entries@[j]).0@ == GlyphKey::Unknown(s) by {
                            if exists|j: int| 0 <= j < i + 1 && (#[trigger] self.entries@[j]).0@ == GlyphKey::Unknown(s) {
                                let j = choose|j: int| 0 <= j < i + 1 && (#[trigger] self.entries@[j]).0@ == GlyphKey::Unknown(s);
                                assert(j != i);
                            }
                        }
                    }
                },
            }
            i = i + 1;
        }
        r
    }

    /// Returns the names of all the keys that were not recognized as a known
    /// glyph, each once, in ascending order.
    pub fn unknown_glyphs(&self) -> (r: Vec<String>)
        ensures
            strictly_ascending(name_views(r@)),
            forall|s: Seq<char>|
                #![trigger name_views(r@).contains(s)]
                name_views(r@).contains(s) <==> self@.contains_key(GlyphKey::Unknown(s)),
    {
        let names = self.unknown_names();
        let r = sorted_unique(names);
        proof {
            assert forall|s: Seq<char>|
                #![trigger name_views(r@).contains(s)]
                name_views(r@).contains(s) <==> self@.contains_key(GlyphKey::Unknown(s)) by {
                assert(seq_items(name_views(r@)).contains(s) == seq_items(name_views(names@)).contains(s));
                assert(name_views(names@).contains(s) <==> self@.contains_key(GlyphKey::Unknown(s)));
            }
        }
        r
    }
}

} // verus!
