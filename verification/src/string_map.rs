//! A map from text to text, kept as a list of entries in which no key occurs
//! twice. Its view is the mathematical map that the entries spell out.

use vstd::prelude::*;
use crate::text::same_text;

verus! {

/// No key occurs twice among `entries`.
pub open spec fn distinct_keys(entries: Seq<(String, String)>) -> bool {
    forall|i: int, j: int|
        0 <= i < j < entries.len() ==> (#[trigger] entries[i]).0@ != (#[trigger] entries[j]).0@
}

/// `key` is the key of the entry at `i`.
pub open spec fn key_at(entries: Seq<(String, String)>, key: Seq<char>, i: int) -> bool {
    0 <= i < entries.len() && entries[i].0@ == key
}

/// The map that `entries` spell out: each key with the value beside it.
pub open spec fn entries_map(entries: Seq<(String, String)>) -> Map<Seq<char>, Seq<char>> {
    Map::new(
        |key: Seq<char>| exists|i: int| key_at(entries, key, i),
        |key: Seq<char>| entries[choose|i: int| key_at(entries, key, i)].1@,
    )
}

/// With distinct keys, the entry at `i` is the one the map holds for its key.
pub proof fn entry_is_mapped(entries: Seq<(String, String)>, i: int)
    requires
        distinct_keys(entries),
        0 <= i < entries.len(),
    ensures
        entries_map(entries).contains_key(entries[i].0@),
        entries_map(entries)[entries[i].0@] == entries[i].1@,
{
    let key = entries[i].0@;
    assert(key_at(entries, key, i));
    let k = choose|k: int| key_at(entries, key, k);
    assert(key_at(entries, key, k));
    if k < i {
        assert(entries[k].0@ != entries[i].0@);
    }
    if i < k {
        assert(entries[i].0@ != entries[k].0@);
    }
}

/// Taking one more entry with a new key extends the map by that entry.
pub proof fn entries_map_step(entries: Seq<(String, String)>, i: int)
    requires
        distinct_keys(entries),
        0 <= i < entries.len(),
    ensures
        !entries_map(entries.take(i)).contains_key(entries[i].0@),
        entries_map(entries.take(i + 1)) == entries_map(entries.take(i)).insert(
            entries[i].0@,
            entries[i].1@,
        ),
        distinct_keys(entries.take(i)),
        distinct_keys(entries.take(i + 1)),
{
    let before = entries.take(i);
    let after = entries.take(i + 1);
    let key = entries[i].0@;
    if entries_map(before).contains_key(key) {
        let a = choose|a: int| key_at(before, key, a);
        assert(entries[a].0@ != entries[i].0@);
    }
    assert forall|a: int, b: int| 0 <= a < b < after.len() implies (#[trigger] after[a]).0@ != (
    #[trigger] after[b]).0@ by {
        assert(entries[a].0@ != entries[b].0@);
    }
    assert forall|a: int, b: int| 0 <= a < b < before.len() implies (#[trigger] before[a]).0@ != (
    #[trigger] before[b]).0@ by {
        assert(entries[a].0@ != entries[b].0@);
    }
    let target = entries_map(before).insert(key, entries[i].1@);
    assert forall|k: Seq<char>| entries_map(after).contains_key(k) <==> #[trigger]
        target.contains_key(k) by {
        if entries_map(after).contains_key(k) {
            let a = choose|a: int| key_at(after, k, a);
            if a < i {
                assert(key_at(before, k, a));
            }
        }
        if entries_map(before).contains_key(k) {
            let a = choose|a: int| key_at(before, k, a);
            assert(key_at(after, k, a));
        }
        if k == key {
            assert(key_at(after, k, i));
        }
    }
    assert forall|k: Seq<char>| #[trigger] entries_map(after).contains_key(k) implies entries_map(
        after,
    )[k] == target[k] by {
        let a = choose|a: int| key_at(after, k, a);
        entry_is_mapped(after, a);
        if a < i {
            entry_is_mapped(before, a);
        }
    }
    assert(entries_map(after) =~= target);
}

/// A listing that holds each key once spells out a map with as many keys as
/// it has entries.
pub proof fn entries_map_len(entries: Seq<(String, String)>)
    requires
        distinct_keys(entries),
    ensures
        entries_map(entries).dom().finite(),
        entries_map(entries).dom().len() == entries.len(),
    decreases entries.len(),
{
    if entries.len() == 0 {
        assert(entries_map(entries).dom() =~= Set::<Seq<char>>::empty());
    } else {
        let i = entries.len() - 1;
        entries_map_step(entries, i);
        assert(entries.take(i + 1) =~= entries);
        entries_map_len(entries.take(i));
        assert(entries_map(entries).dom() =~= entries_map(entries.take(i)).dom().insert(
            entries[i].0@,
        ));
    }
}

/// Two listings with the same keys and values, text for text, spell out the
/// same map, and the second holds each key once as the first does.
pub proof fn same_entries(a: Seq<(String, String)>, b: Seq<(String, String)>)
    requires
        distinct_keys(a),
        a.len() == b.len(),
        forall|i: int| 0 <= i < a.len() ==> (#[trigger] a[i]).0@ == b[i].0@ && a[i].1@ == b[i].1@,
    ensures
        distinct_keys(b),
        entries_map(a) == entries_map(b),
{
    assert forall|i: int, j: int| 0 <= i < j < b.len() implies (#[trigger] b[i]).0@ != (
    #[trigger] b[j]).0@ by {
        assert(a[i].0@ != a[j].0@);
    }
    assert forall|k: Seq<char>| entries_map(a).contains_key(k) <==> #[trigger] entries_map(
        b,
    ).contains_key(k) by {
        if entries_map(a).contains_key(k) {
            let i = choose|i: int| key_at(a, k, i);
            assert(a[i].0@ == b[i].0@);
            assert(key_at(b, k, i));
        }
        if entries_map(b).contains_key(k) {
            let i = choose|i: int| key_at(b, k, i);
            assert(a[i].0@ == b[i].0@);
            assert(key_at(a, k, i));
        }
    }
    assert forall|k: Seq<char>| #[trigger] entries_map(a).contains_key(k) implies entries_map(a)[k]
        == entries_map(b)[k] by {
        let i = choose|i: int| key_at(a, k, i);
        assert(a[i].0@ == b[i].0@);
        entry_is_mapped(a, i);
        entry_is_mapped(b, i);
    }
    assert(entries_map(a) =~= entries_map(b));
}

/// A map from text to text.
#[derive(Debug)]
pub struct StringMap {
    entries: Vec<(String, String)>,
}

impl View for StringMap {
    type V = Map<Seq<char>, Seq<char>>;

    closed spec fn view(&self) -> Map<Seq<char>, Seq<char>> {
        entries_map(self.entries@)
    }
}

impl Clone for StringMap {
    /// A map with the same entries.
    fn clone(&self) -> (r: Self)
        ensures
            r@ == self@,
    {
        proof {
            use_type_invariant(self);
        }
        let mut entries: Vec<(String, String)> = Vec::new();
        let mut i: usize = 0;
        while i < self.entries.len()
            invariant
                i <= self.entries.len(),
                entries@.len() == i,
                forall|j: int|
                    0 <= j < i ==> (#[trigger] entries@[j]).0@ == self.entries@[j].0@
                        && entries@[j].1@ == self.entries@[j].1@,
            decreases self.entries.len() - i,
        {
            entries.push((self.entries[i].0.clone(), self.entries[i].1.clone()));
            i += 1;
        }
        proof {
            assert forall|j: int| 0 <= j < self.entries@.len() implies (
            #[trigger] self.entries@[j]).0@ == entries@[j].0@ && self.entries@[j].1@
                == entries@[j].1@ by {
                assert(entries@[j].0@ == self.entries@[j].0@);
            }
            same_entries(self.entries@, entries@);
        }
        StringMap { entries }
    }
}

impl StringMap {
    #[verifier::type_invariant]
    pub closed spec fn well_formed(&self) -> bool {
        distinct_keys(self.entries@)
    }

    /// The entries behind the map, in the order in which their keys came.
    pub closed spec fn listing(&self) -> Seq<(String, String)> {
        self.entries@
    }

    /// The listing holds each key once, and the view is the map it spells out.
    pub proof fn listing_is_view(&self)
        requires
            self.well_formed(),
        ensures
            distinct_keys(self.listing()),
            self@ == entries_map(self.listing()),
    {
    }

    /// The empty map.
    pub fn new() -> (r: StringMap)
        ensures
            r@ == Map::<Seq<char>, Seq<char>>::empty(),
            r.listing().len() == 0,
    {
        let r = StringMap { entries: Vec::new() };
        assert(r@ =~= Map::<Seq<char>, Seq<char>>::empty());
        r
    }

    /// Where `key` stands among the entries.
    fn position(&self, key: &str) -> (r: Option<usize>)
        ensures
            match r {
                Some(i) => key_at(self.entries@, key@, i as int),
                None => forall|i: int| !key_at(self.entries@, key@, i),
            },
    {
        let mut i: usize = 0;
        while i < self.entries.len()
            invariant
                i <= self.entries.len(),
                forall|j: int| 0 <= j < i ==> !key_at(self.entries@, key@, j),
            decreases self.entries.len() - i,
        {
            if same_text(self.entries[i].0.as_str(), key) {
                return Some(i);
            }
            i += 1;
        }
        None
    }

    /// The entry at `i` of the listing is an entry of the map.
    pub proof fn listing_holds(&self, i: int)
        requires
            self.well_formed(),
            0 <= i < self.listing().len(),
        ensures
            self@.contains_key(self.listing()[i].0@),
            self@[self.listing()[i].0@] == self.listing()[i].1@,
    {
        entry_is_mapped(self.entries@, i);
    }

    /// Where `key` stands in the listing.
    pub fn index_of(&self, key: &str) -> (r: Option<usize>)
        ensures
            match r {
                Some(i) => i < self.listing().len() && self.listing()[i as int].0@ == key@
                    && self@.contains_key(key@),
                None => !self@.contains_key(key@),
            },
    {
        let r = self.position(key);
        proof {
            match r {
                Some(i) => {
                    assert(key_at(self.entries@, key@, i as int));
                },
                None => {},
            }
        }
        r
    }

    /// Whether the map holds `key`.
    pub fn contains_key(&self, key: &str) -> (r: bool)
        ensures
            r == self@.contains_key(key@),
    {
        match self.position(key) {
            Some(i) => {
                assert(key_at(self.entries@, key@, i as int));
                true
            },
            None => false,
        }
    }

    /// The value that the map holds for `key`.
    pub fn get(&self, key: &str) -> (r: Option<&String>)
        ensures
            match r {
                Some(value) => self@.contains_key(key@) && value@ == self@[key@],
                None => !self@.contains_key(key@),
            },
    {
        proof {
            use_type_invariant(self);
        }
        match self.position(key) {
            Some(i) => {
                proof {
                    entry_is_mapped(self.entries@, i as int);
                }
                Some(&self.entries[i].1)
            },
            None => None,
        }
    }

    /// Sets the value of `key`, replacing the one it had.
    pub fn insert(&mut self, key: String, value: String)
        ensures
            final(self)@ == old(self)@.insert(key@, value@),
    {
        proof {
            use_type_invariant(&*self);
        }
        let ghost before = self.entries@;
        let found = self.position(key.as_str());
        let mut entries: Vec<(String, String)> = Vec::new();
        std::mem::swap(&mut self.entries, &mut entries);
        match found {
            Some(i) => {
                entries.set(i, (key, value));
                let ghost after = entries@;
                assert(distinct_keys(after)) by {
                    assert forall|a: int, b: int| 0 <= a < b < after.len() implies (
                    #[trigger] after[a]).0@ != (#[trigger] after[b]).0@ by {
                        assert(before[a].0@ != before[b].0@);
                    }
                }
                assert(entries_map(after) =~= entries_map(before).insert(key@, value@)) by {
                    assert forall|k: Seq<char>|
                        entries_map(after).contains_key(k) <==> #[trigger] entries_map(
                            before,
                        ).insert(key@, value@).contains_key(k) by {
                        if entries_map(after).contains_key(k) {
                            let a = choose|a: int| key_at(after, k, a);
                            assert(key_at(before, k, a));
                        }
                        if entries_map(before).contains_key(k) {
                            let a = choose|a: int| key_at(before, k, a);
                            assert(key_at(after, k, a));
                        }
                        if k == key@ {
                            assert(key_at(after, k, i as int));
                        }
                    }
                    assert forall|k: Seq<char>| #[trigger]
                        entries_map(after).contains_key(k) implies entries_map(after)[k]
                        == entries_map(before).insert(key@, value@)[k] by {
                        let a = choose|a: int| key_at(after, k, a);
                        entry_is_mapped(after, a);
                        if a != i {
                            entry_is_mapped(before, a);
                        }
                    }
                }
            },
            None => {
                entries.push((key, value));
                let ghost after = entries@;
                assert(distinct_keys(after)) by {
                    assert forall|a: int, b: int| 0 <= a < b < after.len() implies (
                    #[trigger] after[a]).0@ != (#[trigger] after[b]).0@ by {
                        if b < before.len() {
                            assert(before[a].0@ != before[b].0@);
                        } else {
                            assert(!key_at(before, key@, a));
                        }
                    }
                }
                assert(entries_map(after) =~= entries_map(before).insert(key@, value@)) by {
                    assert forall|k: Seq<char>|
                        entries_map(after).contains_key(k) <==> #[trigger] entries_map(
                            before,
                        ).insert(key@, value@).contains_key(k) by {
                        if entries_map(after).contains_key(k) {
                            let a = choose|a: int| key_at(after, k, a);
                            if a < before.len() {
                                assert(key_at(before, k, a));
                            }
                        }
                        if entries_map(before).contains_key(k) {
                            let a = choose|a: int| key_at(before, k, a);
                            assert(key_at(after, k, a));
                        }
                        if k == key@ {
                            assert(key_at(after, k, before.len() as int));
                        }
                    }
                    assert forall|k: Seq<char>| #[trigger]
                        entries_map(after).contains_key(k) implies entries_map(after)[k]
                        == entries_map(before).insert(key@, value@)[k] by {
                        let a = choose|a: int| key_at(after, k, a);
                        entry_is_mapped(after, a);
                        if a < before.len() {
                            entry_is_mapped(before, a);
                        }
                    }
                }
            },
        }
        self.entries = entries;
    }

    /// The number of entries, which is the number of keys.
    pub fn len(&self) -> (r: usize)
        ensures
            r == self.listing().len(),
            self@.dom().finite(),
            r == self@.len(),
    {
        proof {
            use_type_invariant(self);
            entries_map_len(self.entries@);
        }
        self.entries.len()
    }

    /// The entry at `index`, as a key and its value.
    pub fn entry(&self, index: usize) -> (r: (&String, &String))
        requires
            index < self.listing().len(),
        ensures
            r.0@ == self.listing()[index as int].0@,
            r.1@ == self.listing()[index as int].1@,
            self@.contains_key(r.0@),
            self@[r.0@] == r.1@,
    {
        proof {
            use_type_invariant(self);
            entry_is_mapped(self.entries@, index as int);
        }
        (&self.entries[index].0, &self.entries[index].1)
    }
}

} // verus!
