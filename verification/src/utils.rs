//! Metadata: `key:value` flags, JSON objects of strings, and the merge that
//! lets the command line win over the configuration.

use vstd::prelude::*;
use crate::string_map::{distinct_keys, entries_map, entries_map_step, StringMap};
use crate::text::{chars_of, find_char, first_index};

verus! {

/// An entry `key:value` split at its first colon; `None` without a colon.
pub open spec fn split_pair(entry: Seq<char>) -> Option<(Seq<char>, Seq<char>)> {
    match first_index(entry, ':') {
        Some(i) => Some((entry.take(i), entry.skip(i + 1))),
        None => None,
    }
}

/// The map that a list of `key:value` entries gives: entries without a colon
/// are dropped, and of two entries with one key the later one stays.
pub open spec fn pairs_map(entries: Seq<String>) -> Map<Seq<char>, Seq<char>>
    decreases entries.len(),
{
    if entries.len() == 0 {
        Map::empty()
    } else {
        let rest = pairs_map(entries.drop_last());
        match split_pair(entries.last()@) {
            Some((key, value)) => rest.insert(key, value),
            None => rest,
        }
    }
}

/// The key of a flag `key:value`; empty without a colon.
pub open spec fn flag_key(entry: Seq<char>) -> Seq<char> {
    match split_pair(entry) {
        Some(pair) => pair.0,
        None => Seq::empty(),
    }
}

/// The value of a flag `key:value`; empty without a colon.
pub open spec fn flag_value(entry: Seq<char>) -> Seq<char> {
    match split_pair(entry) {
        Some(pair) => pair.1,
        None => Seq::empty(),
    }
}

/// The flag at `i` has a colon, and so a key and a value.
pub open spec fn is_pair(entries: Seq<String>, i: int) -> bool {
    0 <= i < entries.len() && split_pair(entries[i]@) is Some
}

/// A flag with a colon puts its key into the metadata, with its value unless
/// a later flag has the same key; and the metadata holds no key but those of
/// the flags with a colon.
pub proof fn pairs_map_holds(entries: Seq<String>)
    ensures
        forall|i: int| #[trigger]
            is_pair(entries, i) ==> pairs_map(entries).contains_key(flag_key(entries[i]@)),
        forall|i: int| #[trigger]
            is_pair(entries, i) && (forall|j: int|
                i < j && #[trigger] is_pair(entries, j) ==> flag_key(entries[j]@) != flag_key(
                    entries[i]@,
                )) ==> pairs_map(entries)[flag_key(entries[i]@)] == flag_value(entries[i]@),
        forall|key: Seq<char>| #[trigger]
            pairs_map(entries).contains_key(key) ==> exists|i: int| #[trigger]
                is_pair(entries, i) && flag_key(entries[i]@) == key,
    decreases entries.len(),
{
    if entries.len() > 0 {
        let rest = entries.drop_last();
        let n = entries.len() - 1;
        pairs_map_holds(rest);
        assert forall|i: int| #[trigger] is_pair(entries, i) implies pairs_map(
            entries,
        ).contains_key(flag_key(entries[i]@)) by {
            if i < n {
                assert(is_pair(rest, i));
            }
        }
        assert forall|i: int| #[trigger]
            is_pair(entries, i) && (forall|j: int|
                i < j && #[trigger] is_pair(entries, j) ==> flag_key(entries[j]@) != flag_key(
                    entries[i]@,
                )) implies pairs_map(entries)[flag_key(entries[i]@)] == flag_value(
            entries[i]@,
        ) by {
            if i < n {
                assert(is_pair(rest, i));
                assert forall|j: int| i < j && #[trigger] is_pair(rest, j) implies flag_key(
                    rest[j]@,
                ) != flag_key(rest[i]@) by {
                    assert(is_pair(entries, j));
                }
                if split_pair(entries[n]@) is Some {
                    assert(is_pair(entries, n));
                }
            }
        }
        assert forall|key: Seq<char>| #[trigger]
            pairs_map(entries).contains_key(key) implies exists|i: int| #[trigger]
            is_pair(entries, i) && flag_key(entries[i]@) == key by {
            if pairs_map(rest).contains_key(key) {
                let i = choose|i: int| #[trigger] is_pair(rest, i) && flag_key(rest[i]@) == key;
                assert(is_pair(entries, i));
            } else {
                assert(is_pair(entries, n));
            }
        }
    }
}

/// Command-line metadata over configuration metadata: every key of both, and
/// for a key of both the command line's value.
pub open spec fn merged(
    command_line: Map<Seq<char>, Seq<char>>,
    config: Map<Seq<char>, Seq<char>>,
) -> Map<Seq<char>, Seq<char>> {
    config.union_prefer_right(command_line)
}

/// The merged metadata holds every key of both sources; a key of the command
/// line keeps the command line's value, and any other key the
/// configuration's.
pub proof fn merge_prefers_command_line(
    command_line: Map<Seq<char>, Seq<char>>,
    config: Map<Seq<char>, Seq<char>>,
)
    ensures
        merged(command_line, config).dom() == command_line.dom().union(config.dom()),
        forall|key: Seq<char>|
            command_line.contains_key(key) ==> #[trigger] merged(command_line, config)[key]
                == command_line[key],
        forall|key: Seq<char>|
            config.contains_key(key) && !command_line.contains_key(key) ==> #[trigger] merged(
                command_line,
                config,
            )[key] == config[key],
{
    assert(merged(command_line, config).dom() =~= command_line.dom().union(config.dom()));
}

/// Splits `entry` at its first colon into a key and a value.
pub fn split_key_value(entry: &str) -> (r: Option<(String, String)>)
    ensures
        match r {
            Some(pair) => split_pair(entry@) == Some((pair.0@, pair.1@)),
            None => split_pair(entry@) is None,
        },
{
    let chars = chars_of(entry);
    match find_char(&chars, ':') {
        Some(i) => {
            assert(crate::text::is_first(chars@, ':', i as int));
            assert(i < chars.len());
            let key = entry.substring_char(0, i).to_owned();
            let value = entry.substring_char(i + 1, chars.len()).to_owned();
            assert(key@ =~= entry@.take(i as int));
            assert(value@ =~= entry@.skip(i + 1));
            Some((key, value))
        },
        None => None,
    }
}

/// Reads metadata flags of the form `key:value`. Each flag is split at its
/// first colon; a flag without a colon is dropped; of two flags with one key
/// the later one stays.
pub fn parse_metadata(meta: &Vec<String>) -> (r: StringMap)
    ensures
        r@ == pairs_map(meta@),
{
    let mut r = StringMap::new();
    let mut i: usize = 0;
    assert(meta@.take(0) =~= Seq::<String>::empty());
    while i < meta.len()
        invariant
            i <= meta.len(),
            r@ == pairs_map(meta@.take(i as int)),
        decreases meta.len() - i,
    {
        assert(meta@.take(i + 1).drop_last() =~= meta@.take(i as int));
        assert(meta@.take(i + 1).last() == meta@[i as int]);
        match split_key_value(meta[i].as_str()) {
            Some(pair) => {
                r.insert(pair.0, pair.1);
            },
            None => {},
        }
        i += 1;
    }
    assert(meta@.take(meta@.len() as int) =~= meta@);
    r
}

/// Merges metadata: starts from the command line's entries and adds each
/// entry of the configuration whose key the command line does not hold.
pub fn merge(command_line: StringMap, config: &StringMap) -> (r: StringMap)
    ensures
        r@ == merged(command_line@, config@),
{
    let mut r = command_line;
    let ghost first = r@;
    let n: usize = config.len();
    let mut i: usize = 0;
    proof {
        use_type_invariant(config);
        config.listing_is_view();
        assert(config.listing().take(0) =~= Seq::<(String, String)>::empty());
        assert(entries_map(config.listing().take(0)) =~= Map::<Seq<char>, Seq<char>>::empty());
        assert(r@ =~= merged(first, entries_map(config.listing().take(0))));
    }
    while i < n
        invariant
            i <= n,
            n == config.listing().len(),
            distinct_keys(config.listing()),
            r@ == merged(first, entries_map(config.listing().take(i as int))),
        decreases n - i,
    {
        let entry = config.entry(i);
        proof {
            entries_map_step(config.listing(), i as int);
        }
        let ghost before = r@;
        if !r.contains_key(entry.0.as_str()) {
            r.insert(entry.0.clone(), entry.1.clone());
        }
        assert(r@ =~= merged(first, entries_map(config.listing().take(i + 1))));
        i += 1;
    }
    proof {
        assert(config.listing().take(n as int) =~= config.listing());
    }
    r
}

/// The object of strings that `serde_json` reads from `text`; `None` where
/// `text` is no such object.
pub uninterp spec fn json_strings(text: Seq<char>) -> Option<Map<Seq<char>, Seq<char>>>;

/// The map that `entries` make when they are put into it in order: of two
/// entries with one key the later one stays.
pub open spec fn listed_map(entries: Seq<(String, String)>) -> Map<Seq<char>, Seq<char>>
    decreases entries.len(),
{
    if entries.len() == 0 {
        Map::empty()
    } else {
        listed_map(entries.drop_last()).insert(entries.last().0@, entries.last().1@)
    }
}

/// Calls `serde_json::from_str` for a `HashMap<String, String>`. The result
/// is `None` where the crate rejects `text`, and else the entries of the map
/// it read, in no particular order.
#[verifier::external_body]
fn read_json_strings(text: &str) -> (r: Option<Vec<(String, String)>>)
    ensures
        r is Some <==> json_strings(text@) is Some,
        r matches Some(entries) ==> json_strings(text@) == Some(listed_map(entries@)),
{
    let map = serde_json::from_str::<std::collections::HashMap<String, String>>(text).ok()?;
    Some(map.into_iter().collect())
}

/// The map that `entries` make when they are put into it in order.
pub fn collect_entries(entries: &Vec<(String, String)>) -> (r: StringMap)
    ensures
        r@ == listed_map(entries@),
{
    let mut r = StringMap::new();
    let mut i: usize = 0;
    assert(entries@.take(0) =~= Seq::<(String, String)>::empty());
    while i < entries.len()
        invariant
            i <= entries.len(),
            r@ == listed_map(entries@.take(i as int)),
        decreases entries.len() - i,
    {
        assert(entries@.take(i + 1).drop_last() =~= entries@.take(i as int));
        assert(entries@.take(i + 1).last() == entries@[i as int]);
        r.insert(entries[i].0.clone(), entries[i].1.clone());
        i += 1;
    }
    assert(entries@.take(entries@.len() as int) =~= entries@);
    r
}

/// Each object by its view.
pub open spec fn object_views(objects: Seq<Option<StringMap>>) -> Seq<
    Option<Map<Seq<char>, Seq<char>>>,
> {
    objects.map_values(
        |object: Option<StringMap>|
            match object {
                Some(map) => Some(map@),
                None => None,
            },
    )
}

/// The objects laid over each other in order: a later object's value wins,
/// and what is no object is passed over.
pub open spec fn overlaid(objects: Seq<Option<Map<Seq<char>, Seq<char>>>>) -> Map<
    Seq<char>,
    Seq<char>,
>
    decreases objects.len(),
{
    if objects.len() == 0 {
        Map::empty()
    } else {
        let rest = overlaid(objects.drop_last());
        match objects.last() {
            Some(map) => rest.union_prefer_right(map),
            None => rest,
        }
    }
}

/// What `serde_json` reads from each of `meta` as an object of strings.
pub open spec fn json_objects(meta: Seq<String>) -> Seq<Option<Map<Seq<char>, Seq<char>>>> {
    meta.map_values(|text: String| json_strings(text@))
}

/// Lays `objects` over each other in order: a later object's value wins, and
/// what is no object is passed over.
pub fn overlay(objects: &Vec<Option<StringMap>>) -> (r: StringMap)
    ensures
        r@ == overlaid(object_views(objects@)),
{
    let mut r = StringMap::new();
    let mut i: usize = 0;
    let ghost views = object_views(objects@);
    assert(views.take(0) =~= Seq::<Option<Map<Seq<char>, Seq<char>>>>::empty());
    while i < objects.len()
        invariant
            i <= objects.len(),
            views == object_views(objects@),
            r@ == overlaid(views.take(i as int)),
        decreases objects.len() - i,
    {
        assert(views.take(i + 1).drop_last() =~= views.take(i as int));
        assert(views.take(i + 1).last() == views[i as int]);
        match &objects[i] {
            Some(map) => {
                r = merge(map.clone(), &r);
            },
            None => {},
        }
        i += 1;
    }
    assert(views.take(views.len() as int) =~= views);
    r
}

/// Reads metadata flags that each hold a JSON object of strings. A flag that
/// holds no such object is dropped; of two flags with one key the later one
/// stays.
pub fn parse_metadata_json(meta: &Vec<String>) -> (r: StringMap)
    ensures
        r@ == overlaid(json_objects(meta@)),
{
    let mut objects: Vec<Option<StringMap>> = Vec::new();
    let mut i: usize = 0;
    while i < meta.len()
        invariant
            i <= meta.len(),
            objects@.len() == i,
            forall|j: int|
                0 <= j < i ==> (#[trigger] object_views(objects@)[j]) == json_strings(meta@[j]@),
        decreases meta.len() - i,
    {
        let object = match read_json_strings(meta[i].as_str()) {
            Some(entries) => Some(collect_entries(&entries)),
            None => None,
        };
        assert(crate::utils::object_views(seq![object])[0] == json_strings(meta@[i as int]@));
        let ghost before = objects@;
        objects.push(object);
        assert forall|j: int| 0 <= j < i + 1 implies (#[trigger] object_views(objects@)[j])
            == json_strings(meta@[j]@) by {
            if j < i {
                assert(object_views(before)[j] == json_strings(meta@[j]@));
                assert(objects@[j] == before[j]);
            }
        }
        i += 1;
    }
    assert(object_views(objects@) =~= json_objects(meta@));
    overlay(&objects)
}

} // verus!
