//! A map from strings to strings, such as a set of headers or of query parameters.
use crate::canonical::{distinct_keys, lemma_member_at, same_json};
use crate::json::{build_value, json_of, member, member_keys, members_of, Json, Parts};
use crate::order::{lemma_sorted_texts, sorted_texts, text_order};
use serde_json::{Map as JsonMap, Value};
use vstd::prelude::*;

verus! {

/// A map from strings to strings. The order in which the keys came is of no
/// account.
#[derive(Debug)]
pub struct StringMap {
    entries: Vec<(String, String)>,
}

/// The keys of the entries, in their order.
spec fn entry_keys(entries: Seq<(String, String)>) -> Seq<Seq<char>> {
    entries.map_values(|e: (String, String)| e.0@)
}

/// The map that the entries make up.
spec fn entry_map(entries: Seq<(String, String)>) -> Map<Seq<char>, Seq<char>> {
    Map::new(
        |key: Seq<char>| entry_keys(entries).contains(key),
        |key: Seq<char>| entries[entry_keys(entries).index_of(key)].1@,
    )
}

impl View for StringMap {
    type V = Map<Seq<char>, Seq<char>>;

    closed spec fn view(&self) -> Map<Seq<char>, Seq<char>> {
        entry_map(self.entries@)
    }
}

impl Clone for StringMap {
    fn clone(&self) -> (copy: StringMap)
        ensures
            copy@ == self@,
    {
        proof {
            use_type_invariant(self);
        }
        let mut entries: Vec<(String, String)> = Vec::new();
        let mut at: usize = 0;
        while at < self.entries.len()
            invariant
                at <= self.entries@.len(),
                entries@ == self.entries@.take(at as int),
            decreases self.entries@.len() - at,
        {
            let entry = &self.entries[at];
            entries.push((entry.0.clone(), entry.1.clone()));
            proof {
                assert(entries@ =~= self.entries@.take(at + 1));
            }
            at = at + 1;
        }
        proof {
            assert(entries@ =~= self.entries@);
        }
        StringMap { entries }
    }
}

/// The keys of a map in ascending order.
pub open spec fn ordered_keys(map: Map<Seq<char>, Seq<char>>) -> Seq<Seq<char>> {
    map.dom().to_sorted_seq(text_order())
}

/// The members of the JSON object with the map's keys and, as strings, its values.
pub open spec fn text_members(map: Map<Seq<char>, Seq<char>>) -> Seq<(Seq<char>, Json)> {
    ordered_keys(map).map_values(|key: Seq<char>| (key, Json::Text(map[key])))
}

/// A finite set is listed without repetitions.
proof fn lemma_to_seq(set: Set<Seq<char>>)
    requires
        set.finite(),
    ensures
        set.to_seq().no_duplicates(),
        forall|t: Seq<char>| #[trigger] set.to_seq().contains(t) <==> set.contains(t),
    decreases set.len(),
{
    if set.len() == 0 {
        assert(set =~= Set::<Seq<char>>::empty());
    } else {
        let x = set.choose();
        let rest = set.remove(x);
        lemma_to_seq(rest);
        let tail = rest.to_seq();
        let all = Seq::<Seq<char>>::empty().push(x) + tail;
        assert(!tail.contains(x));
        assert forall|i: int, j: int|
            0 <= i < all.len() && 0 <= j < all.len() && i != j implies all[i] != all[j] by {
            if i == 0 {
                assert(tail.contains(tail[j - 1]));
            } else if j == 0 {
                assert(tail.contains(tail[i - 1]));
            }
        }
        assert forall|t: Seq<char>| #[trigger] all.contains(t) <==> set.contains(t) by {
            if set.contains(t) {
                if t == x {
                    assert(all[0] == x);
                } else {
                    assert(tail.contains(t));
                    let i = tail.index_of(t);
                    assert(all[i + 1] == t);
                }
            }
            if all.contains(t) {
                let i = all.index_of(t);
                if i > 0 {
                    assert(tail.contains(tail[i - 1]));
                }
            }
        }
    }
}

/// The ordered keys of a finite map are its keys, each once.
pub proof fn lemma_ordered_keys(map: Map<Seq<char>, Seq<char>>)
    requires
        map.dom().finite(),
    ensures
        ordered_keys(map).no_duplicates(),
        forall|key: Seq<char>| #[trigger] ordered_keys(map).contains(key) <==> map.contains_key(key),
        member_keys(text_members(map)) == ordered_keys(map),
{
    lemma_to_seq(map.dom());
    lemma_sorted_texts(map.dom().to_seq());
    assert(ordered_keys(map) == sorted_texts(map.dom().to_seq()));
    assert(member_keys(text_members(map)) =~= ordered_keys(map));
    assert forall|key: Seq<char>| #[trigger]
        ordered_keys(map).contains(key) <==> map.contains_key(key) by {
        assert(sorted_texts(map.dom().to_seq()).contains(key) <==> map.dom().to_seq().contains(key));
    }
}

/// Under its key an ordered member has the map's value.
pub proof fn lemma_text_member(map: Map<Seq<char>, Seq<char>>, key: Seq<char>)
    requires
        map.dom().finite(),
        map.contains_key(key),
    ensures
        member_keys(text_members(map)).contains(key),
        member(text_members(map), key) == Json::Text(map[key]),
{
    lemma_ordered_keys(map);
    let keys = ordered_keys(map);
    assert(keys.contains(key));
    let i = keys.index_of(key);
    assert(keys[i] == key);
    lemma_member_at(text_members(map), i);
}

/// The map that comes of setting the entries in an empty one, from the first on,
/// as `StringMap::new` and one `StringMap::insert` for each do.
pub open spec fn filled(entries: Seq<(Seq<char>, Seq<char>)>) -> Map<Seq<char>, Seq<char>>
    decreases entries.len(),
{
    if entries.len() == 0 {
        Map::empty()
    } else {
        filled(entries.drop_last()).insert(entries.last().0, entries.last().1)
    }
}

/// Whether no two of the entries have the same key.
pub open spec fn set_once(entries: Seq<(Seq<char>, Seq<char>)>) -> bool {
    forall|i: int, j: int|
        0 <= i < j < entries.len() ==> (#[trigger] entries[i]).0 != (#[trigger] entries[j]).0
}

/// A map filled with entries that have different keys holds these and no others.
proof fn lemma_filled(entries: Seq<(Seq<char>, Seq<char>)>, key: Seq<char>, value: Seq<char>)
    requires
        set_once(entries),
    ensures
        filled(entries).contains_key(key) && filled(entries)[key] == value <==> entries.contains(
            (key, value),
        ),
    decreases entries.len(),
{
    if entries.len() > 0 {
        let rest = entries.drop_last();
        lemma_filled(rest, key, value);
        assert(entries =~= rest.push(entries.last()));
        if rest.contains((key, value)) {
            let i = rest.index_of((key, value));
            assert(entries[i] == (key, value));
            assert(entries[i].0 != entries[entries.len() - 1].0);
        }
        if entries.contains((key, value)) {
            let i = entries.index_of((key, value));
            assert(entries[i] == (key, value));
            assert(i < rest.len() ==> rest[i] == (key, value));
        }
        if entries.last() == (key, value) {
            assert(entries[entries.len() - 1] == (key, value));
        }
    }
}

/// Entries with different keys fill a map alike in whatever order they are set.
pub proof fn law_order_of_setting_is_of_no_account(
    a: Seq<(Seq<char>, Seq<char>)>,
    b: Seq<(Seq<char>, Seq<char>)>,
)
    requires
        set_once(a),
        set_once(b),
        forall|entry: (Seq<char>, Seq<char>)| #[trigger] a.contains(entry) <==> b.contains(entry),
    ensures
        filled(a) == filled(b),
{
    let (m, n) = (filled(a), filled(b));
    assert forall|key: Seq<char>| #[trigger] m.contains_key(key) <==> n.contains_key(key) by {
        lemma_filled(a, key, m[key]);
        lemma_filled(b, key, m[key]);
        lemma_filled(a, key, n[key]);
        lemma_filled(b, key, n[key]);
    }
    assert forall|key: Seq<char>| m.contains_key(key) implies m[key] == n[key] by {
        lemma_filled(a, key, m[key]);
        lemma_filled(b, key, m[key]);
    }
    assert(m =~= n);
}

impl StringMap {
    /// No key occurs twice.
    #[verifier::type_invariant]
    spec fn keys_are_distinct(self) -> bool {
        entry_keys(self.entries@).no_duplicates()
    }

    /// A map without keys.
    pub fn new() -> (map: StringMap)
        ensures
            map@ == Map::<Seq<char>, Seq<char>>::empty(),
    {
        let map = StringMap { entries: Vec::new() };
        proof {
            assert(map@ =~= Map::<Seq<char>, Seq<char>>::empty());
        }
        map
    }

    /// Gives the key the value, in place of the one that it may have had.
    pub fn insert(&mut self, key: String, value: String)
        ensures
            final(self)@ == old(self)@.insert(key@, value@),
    {
        proof {
            use_type_invariant(&*self);
        }
        let mut entries: Vec<(String, String)> = Vec::new();
        std::mem::swap(&mut entries, &mut self.entries);
        let ghost before = entries@;
        let mut at: usize = 0;
        while at < entries.len() && entries[at].0 != key
            invariant
                at <= entries@.len(),
                entries@ == before,
                forall|i: int| 0 <= i < at ==> (#[trigger] before[i]).0@ != key@,
            decreases entries@.len() - at,
        {
            at = at + 1;
        }
        if at < entries.len() {
            entries.set(at, (key, value));
        } else {
            entries.push((key, value));
        }
        proof {
            let keys = entry_keys(before);
            let after = entry_keys(entries@);
            assert forall|i: int| 0 <= i < at implies keys[i] != key@ by {
                assert(before[i].0@ != key@);
            }
            if at < before.len() {
                assert(keys[at as int] == key@);
                assert(after =~= keys);
            } else {
                assert(after =~= keys.push(key@));
                assert(!keys.contains(key@));
            }
            assert(entry_map(entries@) =~= entry_map(before).insert(key@, value@)) by {
                assert forall|k: Seq<char>| #[trigger]
                    after.contains(k) <==> (k == key@ || keys.contains(k)) by {
                    assert(after[at as int] == key@);
                    if keys.contains(k) {
                        let i = keys.index_of(k);
                        assert(after[i] == k);
                    }
                    if after.contains(k) {
                        let i = after.index_of(k);
                        assert(after[i] == k);
                        assert(i < keys.len() ==> keys[i] == k);
                    }
                }
                assert forall|k: Seq<char>| after.contains(k) implies entry_map(entries@)[k]
                    == entry_map(before).insert(key@, value@)[k] by {
                    let i = after.index_of(k);
                    assert(after[i] == k);
                    if k == key@ {
                        assert(after[at as int] == k);
                        assert(i == at);
                    } else {
                        assert(keys[i] == k);
                        let j = keys.index_of(k);
                        assert(keys[j] == k);
                        assert(i == j);
                        assert(entries@[i] == before[i]);
                    }
                }
            }
        }
        self.entries = entries;
    }

    /// The value of a key, if it has one.
    pub fn get(&self, key: &str) -> (value: Option<&String>)
        ensures
            value is Some <==> self@.contains_key(key@),
            value matches Some(v) ==> v@ == self@[key@],
    {
        proof {
            use_type_invariant(self);
        }
        let ghost keys = entry_keys(self.entries@);
        let wanted: String = key.to_owned();
        let mut at: usize = 0;
        while at < self.entries.len()
            invariant
                at <= self.entries@.len(),
                wanted@ == key@,
                keys == entry_keys(self.entries@),
                keys.no_duplicates(),
                forall|i: int| 0 <= i < at ==> #[trigger] keys[i] != key@,
            decreases self.entries@.len() - at,
        {
            proof {
                assert(keys[at as int] == self.entries@[at as int].0@);
            }
            if self.entries[at].0 == wanted {
                proof {
                    let found = keys.index_of(key@);
                    assert(keys.contains(key@));
                    assert(keys[found] == key@);
                    assert(found == at);
                }
                return Some(&self.entries[at].1);
            }
            at = at + 1;
        }
        proof {
            if keys.contains(key@) {
                let found = keys.index_of(key@);
                assert(keys[found] == key@);
            }
        }
        None
    }

    /// The JSON object with the map's keys and, as strings, its values.
    pub fn to_value(&self) -> (value: Value)
        ensures
            self@.dom().finite(),
            same_json(json_of(value), Json::Object(text_members(self@))),
            distinct_keys(json_of(value)),
            json_of(value) is Object,
            forall|key: Seq<char>| #[trigger]
                member_keys(json_of(value)->Object_0).contains(key) <==> self@.contains_key(key),
            forall|key: Seq<char>|
                self@.contains_key(key) ==> #[trigger] member(json_of(value)->Object_0, key)
                    == Json::Text(self@[key]),
    {
        proof {
            use_type_invariant(&*self);
        }
        let ghost keys = entry_keys(self.entries@);
        let mut map: JsonMap<String, Value> = JsonMap::new();
        let mut at: usize = 0;
        while at < self.entries.len()
            invariant
                at <= self.entries@.len(),
                keys == entry_keys(self.entries@),
                keys.no_duplicates(),
                members_of(map).len() == at,
                forall|i: int|
                    0 <= i < at ==> #[trigger] members_of(map)[i] == (
                        self.entries@[i].0@,
                        Json::Text(self.entries@[i].1@),
                    ),
            decreases self.entries@.len() - at,
        {
            proof {
                let present = member_keys(members_of(map));
                assert forall|i: int| 0 <= i < at implies present[i] == keys[i] by {
                    assert(members_of(map)[i].0 == self.entries@[i].0@);
                }
                assert(!present.contains(keys[at as int]));
            }
            let entry = &self.entries[at];
            map.insert(entry.0.clone(), build_value(Parts::Text(entry.1.clone())));
            at = at + 1;
        }
        proof {
            let members = members_of(map);
            assert(member_keys(members) =~= keys);
            assert(self@.dom() =~= keys.to_set());
            vstd::seq_lib::seq_to_set_is_finite(keys);
            lemma_ordered_keys(self@);
            assert forall|key: Seq<char>| #[trigger]
                member_keys(members).contains(key) <==> member_keys(text_members(self@)).contains(
                    key,
                ) by {
                assert(ordered_keys(self@).contains(key) <==> self@.contains_key(key));
            }
            assert forall|i: int| 0 <= i < members.len() implies same_json(
                (#[trigger] members[i]).1,
                member(text_members(self@), members[i].0),
            ) by {
                let key = members[i].0;
                assert(keys[i] == key);
                assert(keys.contains(key));
                let j = keys.index_of(key);
                assert(keys[j] == key);
                assert(i == j);
                lemma_text_member(self@, key);
            }
            assert forall|key: Seq<char>| self@.contains_key(key) implies #[trigger] member(
                members,
                key,
            ) == Json::Text(self@[key]) by {
                let i = keys.index_of(key);
                assert(keys[i] == key);
                assert(members[i] == (self.entries@[i].0@, Json::Text(self.entries@[i].1@)));
                lemma_member_at(members, i);
            }
            assert(distinct_keys(Json::Object(members))) by {
                assert forall|i: int| 0 <= i < members.len() implies distinct_keys(
                    (#[trigger] members[i]).1,
                ) by {
                    assert(members[i].1 == Json::Text(self.entries@[i].1@));
                }
            }
        }
        build_value(Parts::Object(map))
    }
}

} // verus!
