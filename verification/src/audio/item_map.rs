//! A map from keys to recordings that keeps its entries in key order.

use vstd::prelude::*;

use crate::audio::order::{
    key_precedes, lemma_key_asymmetric, lemma_key_total, lemma_key_transitive, rank, Rank,
};
use crate::audio::{AudioItem, AudioItemView};

verus! {

/// A key with the recording filed under it, as plain text.
pub type EntryView = (Seq<char>, AudioItemView);

/// The keys of `s` strictly increase.
pub open spec fn increasing(s: Seq<EntryView>) -> bool {
    forall|i: int, j: int| 0 <= i < j < s.len() ==> key_precedes((#[trigger] s[i]).0, (#[trigger] s[j]).0)
}

/// Some entry of `s` is filed under `key`.
pub open spec fn has_key(s: Seq<EntryView>, key: Seq<char>) -> bool {
    exists|i: int| 0 <= i < s.len() && (#[trigger] s[i]).0 == key
}

/// The map that holds the entries of `s`, filed one after the other: of two
/// entries with one key the later one stays.
pub open spec fn as_map(s: Seq<EntryView>) -> Map<Seq<char>, AudioItemView>
    decreases s.len(),
{
    if s.len() == 0 {
        Map::empty()
    } else {
        as_map(s.drop_last()).insert(s.last().0, s.last().1)
    }
}

/// `s` lists the entries of `m` in key order.
pub open spec fn is_listing(s: Seq<EntryView>, m: Map<Seq<char>, AudioItemView>) -> bool {
    increasing(s) && as_map(s) == m
}

/// The entries of `m` in key order.
pub open spec fn listing_of(m: Map<Seq<char>, AudioItemView>) -> Seq<EntryView> {
    choose|s: Seq<EntryView>| is_listing(s, m)
}

/// The recordings of `m` in the order of their keys.
pub open spec fn items_of(m: Map<Seq<char>, AudioItemView>) -> Seq<AudioItemView> {
    listing_of(m).map_values(|entry: EntryView| entry.1)
}

/// The keys of `as_map(s)` are the keys of the entries of `s`.
pub proof fn lemma_as_map_keys(s: Seq<EntryView>, key: Seq<char>)
    ensures
        as_map(s).contains_key(key) <==> has_key(s, key),
    decreases s.len(),
{
    if s.len() > 0 {
        let front = s.drop_last();
        lemma_as_map_keys(front, key);
        if has_key(s, key) {
            let i = choose|i: int| 0 <= i < s.len() && (#[trigger] s[i]).0 == key;
            if i < s.len() - 1 {
                assert(front[i].0 == key);
            }
        }
        if has_key(front, key) {
            let i = choose|i: int| 0 <= i < front.len() && (#[trigger] front[i]).0 == key;
            assert(s[i].0 == key);
        }
        if s.last().0 == key {
            assert(s[s.len() - 1].0 == key);
        }
    }
}

/// A map built from finitely many entries has finitely many keys.
pub proof fn lemma_as_map_finite(s: Seq<EntryView>)
    ensures
        as_map(s).dom().finite(),
    decreases s.len(),
{
    if s.len() > 0 {
        lemma_as_map_finite(s.drop_last());
    }
}

/// Where keys increase, each entry is what the map holds under its key.
pub proof fn lemma_as_map_entry(s: Seq<EntryView>, i: int)
    requires
        increasing(s),
        0 <= i < s.len(),
    ensures
        as_map(s).contains_key(s[i].0),
        as_map(s)[s[i].0] == s[i].1,
    decreases s.len(),
{
    let front = s.drop_last();
    if i < s.len() - 1 {
        assert(increasing(front)) by {
            assert forall|a: int, b: int| 0 <= a < b < front.len() implies key_precedes(
                (#[trigger] front[a]).0,
                (#[trigger] front[b]).0,
            ) by {
                assert(front[a] == s[a] && front[b] == s[b]);
            }
        }
        lemma_as_map_entry(front, i);
        assert(front[i] == s[i]);
        lemma_key_asymmetric(s[i].0, s[s.len() - 1].0);
    }
}

/// Two listings of one map are the same sequence.
pub proof fn lemma_listing_unique(s: Seq<EntryView>, t: Seq<EntryView>)
    requires
        increasing(s),
        increasing(t),
        as_map(s) == as_map(t),
    ensures
        s == t,
    decreases s.len(),
{
    if s.len() == 0 {
        if t.len() > 0 {
            lemma_as_map_entry(t, 0);
        }
        assert(s =~= t);
    } else if t.len() == 0 {
        lemma_as_map_entry(s, 0);
    } else {
        let sl = s.len() - 1;
        let tl = t.len() - 1;
        lemma_as_map_entry(s, sl);
        lemma_as_map_entry(t, tl);
        lemma_as_map_keys(t, s[sl].0);
        lemma_as_map_keys(s, t[tl].0);
        let i = choose|i: int| 0 <= i < t.len() && (#[trigger] t[i]).0 == s[sl].0;
        let j = choose|j: int| 0 <= j < s.len() && (#[trigger] s[j]).0 == t[tl].0;
        if i < tl {
            // the last key of `s` lies before the last key of `t`, which lies in `s`
            if j < sl {
                lemma_key_transitive(s[sl].0, t[tl].0, s[sl].0);
                lemma_key_asymmetric(s[sl].0, s[sl].0);
            }
            lemma_key_asymmetric(t[i].0, t[tl].0);
        }
        assert(s[sl].0 == t[tl].0);
        assert(s[sl] == t[tl]);
        lemma_drop_last(s);
        lemma_drop_last(t);
        lemma_listing_unique(s.drop_last(), t.drop_last());
        assert(s =~= s.drop_last().push(s[sl]));
        assert(t =~= t.drop_last().push(t[tl]));
    }
}

/// A listing of `m` is the listing of `m`.
pub proof fn lemma_listing_of(s: Seq<EntryView>, m: Map<Seq<char>, AudioItemView>)
    requires
        is_listing(s, m),
    ensures
        listing_of(m) == s,
{
    lemma_listing_unique(s, listing_of(m));
}

/// Without its last entry an increasing sequence still increases, and its map
/// is the map of the whole without the last key.
pub proof fn lemma_drop_last(s: Seq<EntryView>)
    requires
        increasing(s),
        s.len() > 0,
    ensures
        increasing(s.drop_last()),
        as_map(s.drop_last()) == as_map(s).remove(s.last().0),
{
    let front = s.drop_last();
    assert forall|a: int, b: int| 0 <= a < b < front.len() implies key_precedes(
        (#[trigger] front[a]).0,
        (#[trigger] front[b]).0,
    ) by {
        assert(front[a] == s[a] && front[b] == s[b]);
    }
    lemma_as_map_keys(front, s.last().0);
    if has_key(front, s.last().0) {
        let i = choose|i: int| 0 <= i < front.len() && (#[trigger] front[i]).0 == s.last().0;
        assert(front[i] == s[i]);
        lemma_key_asymmetric(s[i].0, s[s.len() - 1].0);
    }
    assert(as_map(front) =~= as_map(s).remove(s.last().0));
}

/// Putting an entry where its key belongs files it in the map.
pub proof fn lemma_insert_at(s: Seq<EntryView>, at: int, entry: EntryView)
    requires
        increasing(s),
        0 <= at <= s.len(),
        forall|i: int| 0 <= i < at ==> key_precedes((#[trigger] s[i]).0, entry.0),
        forall|i: int| at <= i < s.len() ==> key_precedes(entry.0, (#[trigger] s[i]).0),
    ensures
        increasing(s.insert(at, entry)),
        as_map(s.insert(at, entry)) == as_map(s).insert(entry.0, entry.1),
{
    let t = s.insert(at, entry);
    assert forall|a: int, b: int| 0 <= a < b < t.len() implies key_precedes(
        (#[trigger] t[a]).0,
        (#[trigger] t[b]).0,
    ) by {
        if b < at {
            assert(t[a] == s[a] && t[b] == s[b]);
        } else if b == at {
            assert(t[a] == s[a]);
        } else if a < at {
            assert(t[a] == s[a] && t[b] == s[b - 1]);
            lemma_key_transitive(s[a].0, entry.0, s[b - 1].0);
        } else if a == at {
            assert(t[b] == s[b - 1]);
        } else {
            assert(t[a] == s[a - 1] && t[b] == s[b - 1]);
        }
    }
    let expected = as_map(s).insert(entry.0, entry.1);
    assert forall|key: Seq<char>| as_map(t).contains_key(key) <==> expected.contains_key(key) by {
        lemma_as_map_keys(t, key);
        lemma_as_map_keys(s, key);
        if has_key(t, key) {
            let i = choose|i: int| 0 <= i < t.len() && (#[trigger] t[i]).0 == key;
            if i < at {
                assert(s[i].0 == key);
            } else if i > at {
                assert(s[i - 1].0 == key);
            }
        }
        if has_key(s, key) {
            let i = choose|i: int| 0 <= i < s.len() && (#[trigger] s[i]).0 == key;
            if i < at {
                assert(t[i].0 == key);
            } else {
                assert(t[i + 1].0 == key);
            }
        }
        if key == entry.0 {
            assert(t[at].0 == key);
        }
    }
    assert forall|key: Seq<char>| as_map(t).contains_key(key) implies as_map(t)[key]
        == expected[key] by {
        lemma_as_map_keys(t, key);
        let i = choose|i: int| 0 <= i < t.len() && (#[trigger] t[i]).0 == key;
        lemma_as_map_entry(t, i);
        if i < at {
            lemma_as_map_entry(s, i);
            lemma_key_asymmetric(s[i].0, entry.0);
        } else if i > at {
            lemma_as_map_entry(s, i - 1);
            lemma_key_asymmetric(entry.0, s[i - 1].0);
        }
    }
    assert(as_map(t) =~= expected);
}

/// Replacing the recording of an entry replaces it in the map.
pub proof fn lemma_replace_at(s: Seq<EntryView>, at: int, item: AudioItemView)
    requires
        increasing(s),
        0 <= at < s.len(),
    ensures
        increasing(s.update(at, (s[at].0, item))),
        as_map(s.update(at, (s[at].0, item))) == as_map(s).insert(s[at].0, item),
{
    let t = s.update(at, (s[at].0, item));
    assert forall|a: int, b: int| 0 <= a < b < t.len() implies key_precedes(
        (#[trigger] t[a]).0,
        (#[trigger] t[b]).0,
    ) by {
        assert(t[a].0 == s[a].0 && t[b].0 == s[b].0);
    }
    let expected = as_map(s).insert(s[at].0, item);
    assert forall|key: Seq<char>| as_map(t).contains_key(key) <==> expected.contains_key(key) by {
        lemma_as_map_keys(t, key);
        lemma_as_map_keys(s, key);
        if has_key(t, key) {
            let i = choose|i: int| 0 <= i < t.len() && (#[trigger] t[i]).0 == key;
            assert(s[i].0 == key);
        }
        if has_key(s, key) {
            let i = choose|i: int| 0 <= i < s.len() && (#[trigger] s[i]).0 == key;
            assert(t[i].0 == key);
        }
    }
    assert forall|key: Seq<char>| as_map(t).contains_key(key) implies as_map(t)[key]
        == expected[key] by {
        lemma_as_map_keys(t, key);
        let i = choose|i: int| 0 <= i < t.len() && (#[trigger] t[i]).0 == key;
        lemma_as_map_entry(t, i);
        if i != at {
            lemma_as_map_entry(s, i);
            if i < at {
                lemma_key_asymmetric(s[i].0, s[at].0);
            } else {
                lemma_key_asymmetric(s[at].0, s[i].0);
            }
        }
    }
    assert(as_map(t) =~= expected);
}

/// Taking an entry out takes its key out of the map.
pub proof fn lemma_remove_at(s: Seq<EntryView>, at: int)
    requires
        increasing(s),
        0 <= at < s.len(),
    ensures
        increasing(s.remove(at)),
        as_map(s.remove(at)) == as_map(s).remove(s[at].0),
{
    let t = s.remove(at);
    assert forall|a: int, b: int| 0 <= a < b < t.len() implies key_precedes(
        (#[trigger] t[a]).0,
        (#[trigger] t[b]).0,
    ) by {
        let a0 = if a < at { a } else { a + 1 };
        let b0 = if b < at { b } else { b + 1 };
        assert(t[a] == s[a0] && t[b] == s[b0]);
    }
    let expected = as_map(s).remove(s[at].0);
    assert forall|key: Seq<char>| as_map(t).contains_key(key) <==> expected.contains_key(key) by {
        lemma_as_map_keys(t, key);
        lemma_as_map_keys(s, key);
        if has_key(t, key) {
            let i = choose|i: int| 0 <= i < t.len() && (#[trigger] t[i]).0 == key;
            let i0 = if i < at { i } else { i + 1 };
            assert(s[i0].0 == key);
            if i0 < at {
                lemma_key_asymmetric(s[i0].0, s[at].0);
            } else {
                lemma_key_asymmetric(s[at].0, s[i0].0);
            }
        }
        if has_key(s, key) && key != s[at].0 {
            let i = choose|i: int| 0 <= i < s.len() && (#[trigger] s[i]).0 == key;
            if i < at {
                assert(t[i].0 == key);
            } else {
                assert(t[i - 1].0 == key);
            }
        }
    }
    assert forall|key: Seq<char>| as_map(t).contains_key(key) implies as_map(t)[key]
        == expected[key] by {
        lemma_as_map_keys(t, key);
        let i = choose|i: int| 0 <= i < t.len() && (#[trigger] t[i]).0 == key;
        lemma_as_map_entry(t, i);
        let i0 = if i < at { i } else { i + 1 };
        assert(t[i] == s[i0]);
        lemma_as_map_entry(s, i0);
    }
    assert(as_map(t) =~= expected);
}

/// The index at which an entry for `key` belongs in `s`: behind the last
/// entry whose key precedes it.
pub open spec fn place_of(s: Seq<EntryView>, key: Seq<char>) -> int
    decreases s.len(),
{
    if s.len() == 0 {
        0
    } else if key_precedes(s.last().0, key) {
        s.len() as int
    } else {
        place_of(s.drop_last(), key)
    }
}

/// A key that is not in an increasing sequence has its place there: all
/// before it precede it, and it precedes all from there on.
pub proof fn lemma_place_of(s: Seq<EntryView>, key: Seq<char>)
    requires
        increasing(s),
        !has_key(s, key),
    ensures
        0 <= place_of(s, key) <= s.len(),
        forall|i: int| 0 <= i < place_of(s, key) ==> key_precedes((#[trigger] s[i]).0, key),
        forall|i: int| place_of(s, key) <= i < s.len() ==> key_precedes(key, (#[trigger] s[i]).0),
    decreases s.len(),
{
    if s.len() > 0 {
        let last = s.len() - 1;
        if key_precedes(s.last().0, key) {
            assert forall|i: int| 0 <= i < s.len() implies key_precedes((#[trigger] s[i]).0, key) by {
                if i < last {
                    lemma_key_transitive(s[i].0, s[last].0, key);
                }
            }
        } else {
            let front = s.drop_last();
            lemma_drop_last(s);
            if has_key(front, key) {
                let i = choose|i: int| 0 <= i < front.len() && (#[trigger] front[i]).0 == key;
                assert(s[i].0 == key);
            }
            lemma_place_of(front, key);
            assert(s[last].0 != key);
            lemma_key_total(s[last].0, key);
            assert forall|i: int| place_of(s, key) <= i < s.len() implies key_precedes(
                key,
                (#[trigger] s[i]).0,
            ) by {
                if i < last {
                    assert(front[i] == s[i]);
                }
            }
            assert forall|i: int| 0 <= i < place_of(s, key) implies key_precedes(
                (#[trigger] s[i]).0,
                key,
            ) by {
                assert(front[i] == s[i]);
            }
        }
    }
}

/// Every map with finitely many keys has its listing.
pub proof fn lemma_listing_exists(m: Map<Seq<char>, AudioItemView>)
    requires
        m.dom().finite(),
    ensures
        is_listing(listing_of(m), m),
    decreases m.dom().len(),
{
    if m.dom().len() == 0 {
        assert(m =~= Map::empty());
        assert(is_listing(Seq::<EntryView>::empty(), m));
    } else {
        let key = m.dom().choose();
        let rest = m.remove(key);
        lemma_listing_exists(rest);
        let s = listing_of(rest);
        lemma_as_map_keys(s, key);
        lemma_place_of(s, key);
        let at = place_of(s, key);
        lemma_insert_at(s, at, (key, m[key]));
        assert(rest.insert(key, m[key]) =~= m);
        assert(is_listing(s.insert(at, (key, m[key])), m));
    }
}

/// What a stored entry holds, as plain text.
pub open spec fn entry_view(entry: (String, AudioItem)) -> EntryView {
    (entry.0@, entry.1@)
}

/// What stored entries hold, as plain text.
pub open spec fn entries_view(entries: Seq<(String, AudioItem)>) -> Seq<EntryView> {
    entries.map_values(|entry: (String, AudioItem)| entry_view(entry))
}

/// A map from keys to recordings. Its entries lie in key order, one for each
/// key.
pub struct ItemMap {
    entries: Vec<(String, AudioItem)>,
}

impl View for ItemMap {
    type V = Map<Seq<char>, AudioItemView>;

    closed spec fn view(&self) -> Map<Seq<char>, AudioItemView> {
        as_map(entries_view(self.entries@))
    }
}

impl ItemMap {
    #[verifier::type_invariant]
    spec fn ordered(&self) -> bool {
        increasing(entries_view(self.entries@))
    }

    /// A map without entries.
    pub fn new() -> (map: Self)
        ensures
            map@ == Map::<Seq<char>, AudioItemView>::empty(),
    {
        let map = ItemMap { entries: Vec::new() };
        assert(entries_view(map.entries@) =~= Seq::empty());
        map
    }

    /// The number of entries.
    pub fn len(&self) -> (n: usize)
        ensures
            n == self@.len(),
            self@.dom().finite(),
    {
        proof {
            use_type_invariant(self);
            lemma_listing_len(entries_view(self.entries@));
        }
        self.entries.len()
    }

    /// The place of `key` among the entries: the index of its entry, or the
    /// index at which an entry for it belongs.
    fn locate(&self, key: &str) -> (place: (usize, bool))
        ensures
            place.0 <= self.entries@.len(),
            forall|i: int|
                0 <= i < place.0 ==> key_precedes(
                    (#[trigger] entries_view(self.entries@)[i]).0,
                    key@,
                ),
            place.1 ==> place.0 < self.entries@.len() && entries_view(self.entries@)[place.0 as int].0
                == key@,
            !place.1 ==> forall|i: int|
                place.0 <= i < self.entries@.len() ==> key_precedes(
                    key@,
                    (#[trigger] entries_view(self.entries@)[i]).0,
                ),
            place.1 == self@.contains_key(key@),
    {
        proof {
            use_type_invariant(self);
        }
        let ghost s = entries_view(self.entries@);
        let mut i: usize = 0;
        let mut found = false;
        while i < self.entries.len()
            invariant_except_break
                !found,
            invariant
                s == entries_view(self.entries@),
                increasing(s),
                i <= self.entries@.len(),
                forall|j: int| 0 <= j < i ==> key_precedes((#[trigger] s[j]).0, key@),
            ensures
                found ==> i < self.entries@.len() && s[i as int].0 == key@,
                !found ==> forall|j: int|
                    i <= j < self.entries@.len() ==> key_precedes(key@, (#[trigger] s[j]).0),
            decreases self.entries@.len() - i,
        {
            match rank(self.entries[i].0.as_str(), key) {
                Rank::Before => {
                    i += 1;
                },
                Rank::Same => {
                    found = true;
                    break ;
                },
                Rank::After => {
                    proof {
                        assert forall|j: int| i <= j < self.entries@.len() implies key_precedes(
                            key@,
                            (#[trigger] s[j]).0,
                        ) by {
                            if j > i {
                                lemma_key_transitive(key@, s[i as int].0, s[j].0);
                            }
                        }
                    }
                    break ;
                },
            }
        }
        proof {
            lemma_as_map_keys(s, key@);
            if found {
                assert(has_key(s, key@));
            } else if has_key(s, key@) {
                let j = choose|j: int| 0 <= j < s.len() && (#[trigger] s[j]).0 == key@;
                if j < i {
                    lemma_key_asymmetric(s[j].0, key@);
                } else {
                    lemma_key_asymmetric(key@, s[j].0);
                }
            }
        }
        (i, found)
    }

    /// The recording filed under `key`, if there is one.
    pub fn get(&self, key: &str) -> (found: Option<&AudioItem>)
        ensures
            found is Some <==> self@.contains_key(key@),
            found matches Some(item) ==> item@ == self@[key@],
    {
        proof {
            use_type_invariant(self);
        }
        let (i, found) = self.locate(key);
        if found {
            proof {
                lemma_as_map_entry(entries_view(self.entries@), i as int);
            }
            Some(&self.entries[i].1)
        } else {
            None
        }
    }

    /// Files `item` under `key`, in place of what was filed there.
    pub fn insert(&mut self, key: String, item: AudioItem)
        ensures
            final(self)@ == old(self)@.insert(key@, item@),
    {
        proof {
            use_type_invariant(&*self);
        }
        let ghost s = entries_view(self.entries@);
        let (i, found) = self.locate(key.as_str());
        let mut entries = self.take_entries();
        if found {
            proof {
                lemma_replace_at(s, i as int, item@);
            }
            entries.set(i, (key, item));
            assert(entries_view(entries@) =~= s.update(i as int, (s[i as int].0, item@)));
        } else {
            proof {
                lemma_insert_at(s, i as int, (key@, item@));
            }
            entries.insert(i, (key, item));
            assert(entries_view(entries@) =~= s.insert(i as int, (key@, item@)));
        }
        self.entries = entries;
    }

    /// Takes out what is filed under `key`.
    pub fn remove(&mut self, key: &str)
        ensures
            final(self)@ == old(self)@.remove(key@),
    {
        proof {
            use_type_invariant(&*self);
        }
        let ghost s = entries_view(self.entries@);
        let (i, found) = self.locate(key);
        if found {
            let mut entries = self.take_entries();
            proof {
                lemma_remove_at(s, i as int);
            }
            entries.remove(i);
            assert(entries_view(entries@) =~= s.remove(i as int));
            self.entries = entries;
        } else {
            assert(self@.remove(key@) =~= self@);
        }
    }

    /// Moves the entries out, leaving none behind.
    fn take_entries(&mut self) -> (entries: Vec<(String, AudioItem)>)
        ensures
            entries@ == old(self).entries@,
            final(self).entries@.len() == 0,
    {
        let mut entries: Vec<(String, AudioItem)> = Vec::new();
        assert(entries_view(entries@) =~= Seq::empty());
        std::mem::swap(&mut entries, &mut self.entries);
        entries
    }

    /// The entries in key order.
    pub fn entries(&self) -> (listing: Vec<(String, AudioItem)>)
        ensures
            entries_view(listing@) == listing_of(self@),
            is_listing(listing_of(self@), self@),
    {
        proof {
            use_type_invariant(self);
            lemma_listing_of(entries_view(self.entries@), self@);
        }
        let mut listing: Vec<(String, AudioItem)> = Vec::new();
        let mut i: usize = 0;
        while i < self.entries.len()
            invariant
                i <= self.entries@.len(),
                listing@.len() == i,
                forall|j: int|
                    0 <= j < i ==> entry_view(#[trigger] listing@[j]) == entry_view(
                        self.entries@[j],
                    ),
            decreases self.entries@.len() - i,
        {
            let key = self.entries[i].0.clone();
            let item = self.entries[i].1.clone();
            listing.push((key, item));
            i += 1;
        }
        assert(entries_view(listing@) =~= entries_view(self.entries@));
        listing
    }

    /// The recordings in the order of their keys.
    pub fn values(&self) -> (items: Vec<AudioItem>)
        ensures
            items@.map_values(|item: AudioItem| item@) == items_of(self@),
            is_listing(listing_of(self@), self@),
    {
        proof {
            use_type_invariant(self);
            lemma_listing_of(entries_view(self.entries@), self@);
        }
        let mut items: Vec<AudioItem> = Vec::new();
        let mut i: usize = 0;
        while i < self.entries.len()
            invariant
                i <= self.entries@.len(),
                items@.len() == i,
                forall|j: int| 0 <= j < i ==> (#[trigger] items@[j])@ == self.entries@[j].1@,
            decreases self.entries@.len() - i,
        {
            items.push(self.entries[i].1.clone());
            i += 1;
        }
        assert(items@.map_values(|item: AudioItem| item@) =~= items_of(self@));
        items
    }
}

/// An increasing sequence is as long as its map has keys.
pub proof fn lemma_listing_len(s: Seq<EntryView>)
    requires
        increasing(s),
    ensures
        as_map(s).dom().finite(),
        as_map(s).len() == s.len(),
    decreases s.len(),
{
    lemma_as_map_finite(s);
    if s.len() > 0 {
        lemma_drop_last(s);
        lemma_listing_len(s.drop_last());
        lemma_as_map_entry(s, s.len() - 1);
    }
}

} // verus!
