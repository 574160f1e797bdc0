//! The canonical form of a JSON value: every object's members in ascending
//! order of their keys.
use crate::json::{
    build_value, json_of, jsons_of, keys_of_map, look_up, member, member_keys, members_of,
    open_value, Json, Opened, Parts,
};
use crate::order::{
    lemma_sorted_texts, lemma_text_order_total, sort_strings, sorted_texts, text_le, text_order,
    texts_of,
};
use serde_json::{Map as JsonMap, Value};
use vstd::prelude::*;
use vstd::relations::sorted_by;

verus! {

/// The members in ascending order of their keys.
pub open spec fn ordered_members(members: Seq<(Seq<char>, Json)>) -> Seq<(Seq<char>, Json)> {
    sorted_texts(member_keys(members)).map_values(|key: Seq<char>| (key, member(members, key)))
}

/// The canonical form of a JSON value: the members of every object in it, at
/// any depth, come in ascending order of their keys.
pub open spec fn canonical(json: Json) -> Json
    decreases json,
{
    match json {
        Json::Array(items) => Json::Array(canonical_items(items)),
        Json::Object(members) => Json::Object(ordered_members(canonical_members(members))),
        other => other,
    }
}

/// Every item in canonical form.
pub open spec fn canonical_items(items: Seq<Json>) -> Seq<Json>
    decreases items,
{
    Seq::new(
        items.len(),
        |i: int|
            if 0 <= i < items.len() {
                canonical(items[i])
            } else {
                Json::Null
            },
    )
}

/// The members in the same order, every value in canonical form.
pub open spec fn canonical_members(members: Seq<(Seq<char>, Json)>) -> Seq<(Seq<char>, Json)>
    decreases members,
{
    Seq::new(
        members.len(),
        |i: int|
            if 0 <= i < members.len() {
                (members[i].0, canonical(members[i].1))
            } else {
                (seq![], Json::Null)
            },
    )
}

/// A key that occurs once is found where it stands.
pub proof fn lemma_member_at(members: Seq<(Seq<char>, Json)>, i: int)
    requires
        member_keys(members).no_duplicates(),
        0 <= i < members.len(),
    ensures
        member_keys(members).contains(members[i].0),
        member_keys(members).index_of(members[i].0) == i,
        member(members, members[i].0) == members[i].1,
{
    let keys = member_keys(members);
    assert(keys[i] == members[i].0);
    assert(keys.contains(keys[i]));
    let j = keys.index_of(keys[i]);
    assert(0 <= j < keys.len() && keys[j] == keys[i]);
}

/// Bringing the values into canonical form keeps the keys, and each key its value.
proof fn lemma_canonical_member(members: Seq<(Seq<char>, Json)>, key: Seq<char>)
    requires
        member_keys(members).contains(key),
    ensures
        member_keys(canonical_members(members)) == member_keys(members),
        member(canonical_members(members), key) == canonical(member(members, key)),
        decreases_to!(members => member(members, key)),
{
    let keys = member_keys(members);
    assert(member_keys(canonical_members(members)) =~= keys);
    let i = keys.index_of(key);
    assert(0 <= i < keys.len() && keys[i] == key);
    assert(decreases_to!(members => members[i]));
    assert(decreases_to!(members[i] => members[i].1));
}

/// Brings a JSON value into canonical form. No object in the value has a key
/// twice; the form is in order and otherwise the same as the value.
pub fn canonical_json(value: Value) -> (form: Value)
    ensures
        json_of(form) == canonical(json_of(value)),
        distinct_keys(json_of(value)),
        in_order(json_of(form)),
        same_json(json_of(value), json_of(form)),
    decreases json_of(value),
{
    let ghost json = json_of(value);
    match open_value(value) {
        Opened::Object(map) => {
            let ghost members = members_of(map);
            let ghost wanted = ordered_members(canonical_members(members));
            let mut keys: Vec<String> = keys_of_map(&map);
            sort_strings(&mut keys);
            proof {
                lemma_sorted_texts(member_keys(members));
                assert(member_keys(canonical_members(members)) =~= member_keys(members));
            }
            let mut sorted: JsonMap<String, Value> = JsonMap::new();
            let mut next: usize = 0;
            while next < keys.len()
                invariant
                    next <= keys@.len(),
                    json == json_of(value),
                    json == Json::Object(members),
                    members == members_of(map),
                    wanted == ordered_members(canonical_members(members)),
                    member_keys(canonical_members(members)) == member_keys(members),
                    texts_of(keys@) == sorted_texts(member_keys(members)),
                    texts_of(keys@).no_duplicates(),
                    wanted.len() == keys@.len(),
                    forall|t: Seq<char>| #[trigger]
                        texts_of(keys@).contains(t) <==> member_keys(members).contains(t),
                    members_of(sorted) == wanted.take(next as int),
                    forall|j: int|
                        0 <= j < next ==> distinct_keys(
                            member(members, #[trigger] texts_of(keys@)[j]),
                        ),
                    decreases_to!(json => members),
                decreases keys@.len() - next,
            {
                let key = keys[next].clone();
                proof {
                    assert(texts_of(keys@)[next as int] == key@);
                    assert(texts_of(keys@).contains(key@));
                    lemma_canonical_member(members, key@);
                    assert(!member_keys(wanted.take(next as int)).contains(key@)) by {
                        if member_keys(wanted.take(next as int)).contains(key@) {
                            let j = member_keys(wanted.take(next as int)).index_of(key@);
                            assert(member_keys(wanted.take(next as int))[j] == texts_of(keys@)[j]);
                        }
                    }
                    assert(wanted[next as int] == (key@, canonical(member(members, key@))));
                }
                if let Some(v) = look_up(&map, key.as_str()) {
                    let form = canonical_json(v.clone());
                    sorted.insert(key, form);
                }
                proof {
                    assert(wanted.take(next as int).push(wanted[next as int]) =~= wanted.take(
                        next + 1,
                    ));
                }
                next = next + 1;
            }
            proof {
                assert(wanted.take(next as int) =~= wanted);
                assert forall|i: int| 0 <= i < members.len() implies distinct_keys(
                    (#[trigger] members[i]).1,
                ) by {
                    lemma_member_at(members, i);
                    assert(texts_of(keys@).contains(members[i].0));
                    let j = texts_of(keys@).index_of(members[i].0);
                    assert(texts_of(keys@)[j] == members[i].0);
                }
                law_canonical_form_is_in_order(json);
                law_canonical_form_keeps_the_value(json);
            }
            build_value(Parts::Object(sorted))
        },
        Opened::Array(items) => {
            let ghost wanted = canonical_items(jsons_of(items@));
            let mut forms: Vec<Value> = Vec::new();
            let mut next: usize = 0;
            while next < items.len()
                invariant
                    next <= items@.len(),
                    json == json_of(value),
                    json == Json::Array(jsons_of(items@)),
                    wanted == canonical_items(jsons_of(items@)),
                    jsons_of(forms@) == wanted.take(next as int),
                    forall|i: int| 0 <= i < next ==> distinct_keys(#[trigger] jsons_of(items@)[i]),
                    decreases_to!(json => jsons_of(items@)),
                decreases items@.len() - next,
            {
                proof {
                    assert(jsons_of(items@)[next as int] == json_of(items@[next as int]));
                    assert(decreases_to!(jsons_of(items@) => jsons_of(items@)[next as int]));
                }
                let form = canonical_json(items[next].clone());
                let ghost before = forms@;
                forms.push(form);
                proof {
                    assert(jsons_of(forms@) =~= jsons_of(before).push(json_of(form)));
                    assert(jsons_of(forms@) =~= wanted.take(next + 1));
                }
                next = next + 1;
            }
            proof {
                assert(wanted.take(next as int) =~= wanted);
                law_canonical_form_is_in_order(json);
                law_canonical_form_keeps_the_value(json);
            }
            build_value(Parts::Array(forms))
        },
        Opened::Scalar(scalar) => scalar,
    }
}

/// No object in the value, at any depth, has a key twice.
pub open spec fn distinct_keys(json: Json) -> bool
    decreases json,
{
    match json {
        Json::Array(items) => forall|i: int|
            0 <= i < items.len() ==> distinct_keys(#[trigger] items[i]),
        Json::Object(members) => {
            &&& member_keys(members).no_duplicates()
            &&& forall|i: int|
                0 <= i < members.len() ==> distinct_keys((#[trigger] members[i]).1)
        },
        _ => true,
    }
}

/// The members of every object in the value, at any depth, come in ascending
/// order of their keys.
pub open spec fn in_order(json: Json) -> bool
    decreases json,
{
    match json {
        Json::Array(items) => forall|i: int| 0 <= i < items.len() ==> in_order(#[trigger] items[i]),
        Json::Object(members) => {
            &&& sorted_by(member_keys(members), text_order())
            &&& forall|i: int| 0 <= i < members.len() ==> in_order((#[trigger] members[i]).1)
        },
        _ => true,
    }
}

/// The two values are the same but for the order of the members in their objects.
pub open spec fn same_json(a: Json, b: Json) -> bool
    decreases a,
{
    match (a, b) {
        (Json::Array(xs), Json::Array(ys)) => {
            &&& xs.len() == ys.len()
            &&& forall|i: int| 0 <= i < xs.len() ==> same_json(#[trigger] xs[i], ys[i])
        },
        (Json::Object(ms), Json::Object(ns)) => {
            &&& forall|key: Seq<char>| #[trigger]
                member_keys(ms).contains(key) <==> member_keys(ns).contains(key)
            &&& forall|i: int|
                0 <= i < ms.len() ==> same_json((#[trigger] ms[i]).1, member(ns, ms[i].0))
        },
        _ => a == b,
    }
}

/// What ordering the members does to keys and values.
proof fn lemma_ordered_members(members: Seq<(Seq<char>, Json)>)
    requires
        member_keys(members).no_duplicates(),
    ensures
        member_keys(ordered_members(members)) == sorted_texts(member_keys(members)),
        member_keys(ordered_members(members)).no_duplicates(),
        ordered_members(members).len() == members.len(),
        sorted_by(member_keys(ordered_members(members)), text_order()),
        forall|key: Seq<char>| #[trigger]
            member_keys(ordered_members(members)).contains(key) <==> member_keys(members).contains(
                key,
            ),
        forall|key: Seq<char>|
            member_keys(members).contains(key) ==> #[trigger] member(ordered_members(members), key)
                == member(members, key),
{
    let ordered = ordered_members(members);
    lemma_sorted_texts(member_keys(members));
    assert(member_keys(ordered) =~= sorted_texts(member_keys(members)));
    assert forall|key: Seq<char>| member_keys(members).contains(key) implies #[trigger] member(
        ordered,
        key,
    ) == member(members, key) by {
        let keys = member_keys(ordered);
        assert(keys.contains(key));
        let i = keys.index_of(key);
        assert(0 <= i < keys.len() && keys[i] == key);
        lemma_member_at(ordered, i);
    }
}

/// Two lists without repetitions that hold the same texts are sorted to the same list.
proof fn lemma_sorted_texts_of_same_set(a: Seq<Seq<char>>, b: Seq<Seq<char>>)
    requires
        a.no_duplicates(),
        b.no_duplicates(),
        forall|t: Seq<char>| #[trigger] a.contains(t) <==> b.contains(t),
    ensures
        sorted_texts(a) == sorted_texts(b),
{
    broadcast use vstd::seq_lib::group_to_multiset_ensures;

    lemma_sorted_texts(a);
    lemma_sorted_texts(b);
    lemma_text_order_total();
    a.lemma_multiset_has_no_duplicates();
    b.lemma_multiset_has_no_duplicates();
    assert forall|t: Seq<char>| a.to_multiset().count(t) == b.to_multiset().count(t) by {
        assert(a.contains(t) <==> a.to_multiset().count(t) > 0);
        assert(b.contains(t) <==> b.to_multiset().count(t) > 0);
        assert(a.to_multiset().contains(t) <==> a.contains(t));
        assert(b.to_multiset().contains(t) <==> b.contains(t));
    }
    assert(a.to_multiset() =~= b.to_multiset());
    vstd::seq_lib::lemma_sorted_unique(sorted_texts(a), sorted_texts(b), text_order());
}

/// The canonical form has the members of every object in ascending order of
/// their keys, and no key twice.
pub proof fn law_canonical_form_is_in_order(json: Json)
    requires
        distinct_keys(json),
    ensures
        in_order(canonical(json)),
        distinct_keys(canonical(json)),
    decreases json,
{
    match json {
        Json::Array(items) => {
            let forms = canonical_items(items);
            assert forall|i: int| 0 <= i < forms.len() implies in_order(#[trigger] forms[i])
                && distinct_keys(forms[i]) by {
                law_canonical_form_is_in_order(items[i]);
            }
        },
        Json::Object(members) => {
            let forms = canonical_members(members);
            assert(member_keys(forms) =~= member_keys(members));
            lemma_ordered_members(forms);
            let ordered = ordered_members(forms);
            assert forall|i: int| 0 <= i < ordered.len() implies in_order((#[trigger] ordered[i]).1)
                && distinct_keys(ordered[i].1) by {
                let key = ordered[i].0;
                lemma_member_at(ordered, i);
                lemma_canonical_member(members, key);
                let j = member_keys(members).index_of(key);
                assert(member_keys(members)[j] == key);
                assert(distinct_keys(members[j].1));
                law_canonical_form_is_in_order(members[j].1);
            }
        },
        _ => {},
    }
}

/// A value that is in order is its own canonical form.
pub proof fn law_ordered_value_is_canonical(json: Json)
    requires
        distinct_keys(json),
        in_order(json),
    ensures
        canonical(json) == json,
    decreases json,
{
    match json {
        Json::Array(items) => {
            assert forall|i: int| 0 <= i < items.len() implies canonical(#[trigger] items[i])
                == items[i] by {
                law_ordered_value_is_canonical(items[i]);
            }
            assert(canonical_items(items) =~= items);
        },
        Json::Object(members) => {
            assert forall|i: int| 0 <= i < members.len() implies canonical(
                (#[trigger] members[i]).1,
            ) == members[i].1 by {
                law_ordered_value_is_canonical(members[i].1);
            }
            assert(canonical_members(members) =~= members);
            let keys = member_keys(members);
            lemma_sorted_texts(keys);
            lemma_text_order_total();
            vstd::seq_lib::lemma_sorted_unique(sorted_texts(keys), keys, text_order());
            let ordered = ordered_members(members);
            assert forall|i: int| 0 <= i < members.len() implies ordered[i]
                == #[trigger] members[i] by {
                lemma_member_at(members, i);
                assert(keys[i] == members[i].0);
            }
            assert(ordered =~= members);
        },
        _ => {},
    }
}

/// Bringing a value into canonical form a second time changes nothing.
pub proof fn law_canonical_is_idempotent(json: Json)
    requires
        distinct_keys(json),
    ensures
        canonical(canonical(json)) == canonical(json),
{
    law_canonical_form_is_in_order(json);
    law_ordered_value_is_canonical(canonical(json));
}

/// Two values have the same canonical form exactly when they are the same but
/// for the order of the members in their objects.
pub proof fn law_canonical_form_ignores_member_order(a: Json, b: Json)
    requires
        distinct_keys(a),
        distinct_keys(b),
    ensures
        canonical(a) == canonical(b) <==> same_json(a, b),
    decreases a,
{
    match (a, b) {
        (Json::Array(xs), Json::Array(ys)) => {
            if xs.len() == ys.len() {
                assert forall|i: int| 0 <= i < xs.len() implies (canonical(#[trigger] xs[i])
                    == canonical(ys[i]) <==> same_json(xs[i], ys[i])) by {
                    law_canonical_form_ignores_member_order(xs[i], ys[i]);
                }
                if canonical(a) == canonical(b) {
                    assert forall|i: int| 0 <= i < xs.len() implies same_json(
                        #[trigger] xs[i],
                        ys[i],
                    ) by {
                        assert(canonical_items(xs)[i] == canonical_items(ys)[i]);
                    }
                }
                if same_json(a, b) {
                    assert(canonical_items(xs) =~= canonical_items(ys));
                }
            } else {
                assert(canonical_items(xs).len() != canonical_items(ys).len());
            }
        },
        (Json::Object(ms), Json::Object(ns)) => {
            lemma_same_members(ms, ns);
            assert forall|i: int|
                0 <= i < ms.len() && member_keys(ns).contains((#[trigger] ms[i]).0) implies (
            canonical(ms[i].1) == canonical(member(ns, ms[i].0)) <==> same_json(
                ms[i].1,
                member(ns, ms[i].0),
            )) by {
                let j = member_keys(ns).index_of(ms[i].0);
                assert(member_keys(ns)[j] == ms[i].0);
                assert(distinct_keys(ns[j].1));
                law_canonical_form_ignores_member_order(ms[i].1, ns[j].1);
            }
            if same_json(a, b) {
                assert forall|i: int| 0 <= i < ms.len() implies canonical((#[trigger] ms[i]).1)
                    == canonical(member(ns, ms[i].0)) by {
                    assert(member_keys(ms)[i] == ms[i].0);
                    assert(member_keys(ms).contains(ms[i].0));
                }
            }
            if canonical(a) == canonical(b) {
                assert forall|i: int| 0 <= i < ms.len() implies same_json(
                    (#[trigger] ms[i]).1,
                    member(ns, ms[i].0),
                ) by {
                    assert(member_keys(ms)[i] == ms[i].0);
                    assert(member_keys(ms).contains(ms[i].0));
                }
            }
        },
        _ => {},
    }
}

/// The canonical forms of two objects agree exactly when the objects have the
/// same keys and the values under each key have the same canonical form.
proof fn lemma_same_members(ms: Seq<(Seq<char>, Json)>, ns: Seq<(Seq<char>, Json)>)
    requires
        member_keys(ms).no_duplicates(),
        member_keys(ns).no_duplicates(),
    ensures
        ordered_members(canonical_members(ms)) == ordered_members(canonical_members(ns)) <==> {
            &&& forall|key: Seq<char>| #[trigger]
                member_keys(ms).contains(key) <==> member_keys(ns).contains(key)
            &&& forall|i: int|
                0 <= i < ms.len() ==> canonical((#[trigger] ms[i]).1) == canonical(
                    member(ns, ms[i].0),
                )
        },
{
    let ms_forms = canonical_members(ms);
    let ns_forms = canonical_members(ns);
    assert(member_keys(ms_forms) =~= member_keys(ms));
    assert(member_keys(ns_forms) =~= member_keys(ns));
    lemma_ordered_members(ms_forms);
    lemma_ordered_members(ns_forms);
    let x = ordered_members(ms_forms);
    let y = ordered_members(ns_forms);
    if x == y {
        assert forall|key: Seq<char>| #[trigger]
            member_keys(ms).contains(key) <==> member_keys(ns).contains(key) by {
            assert(member_keys(x).contains(key) <==> member_keys(ms_forms).contains(key));
            assert(member_keys(y).contains(key) <==> member_keys(ns_forms).contains(key));
        }
        assert forall|i: int| 0 <= i < ms.len() implies canonical((#[trigger] ms[i]).1)
            == canonical(member(ns, ms[i].0)) by {
            let key = ms[i].0;
            lemma_member_at(ms, i);
            lemma_canonical_member(ms, key);
            lemma_canonical_member(ns, key);
            assert(member(x, key) == member(ms_forms, key));
            assert(member(y, key) == member(ns_forms, key));
        }
    }
    if (forall|key: Seq<char>| #[trigger]
        member_keys(ms).contains(key) <==> member_keys(ns).contains(key)) && (forall|i: int|
        0 <= i < ms.len() ==> canonical((#[trigger] ms[i]).1) == canonical(member(ns, ms[i].0))) {
        lemma_sorted_texts_of_same_set(member_keys(ms), member_keys(ns));
        assert forall|i: int| 0 <= i < x.len() implies x[i] == #[trigger] y[i] by {
            let key = x[i].0;
            lemma_member_at(x, i);
            lemma_member_at(y, i);
            assert(member_keys(x)[i] == member_keys(y)[i]);
            assert(member_keys(ms).contains(key));
            lemma_canonical_member(ms, key);
            lemma_canonical_member(ns, key);
            let j = member_keys(ms).index_of(key);
            assert(member_keys(ms)[j] == key);
            assert(canonical(ms[j].1) == canonical(member(ns, ms[j].0)));
        }
        assert(x =~= y);
    }
}

/// The canonical form of a value that is neither an array nor an object is the
/// value; that of an array holds the canonical forms of its items, in their order.
pub proof fn law_canonical_form_of_scalars_and_arrays(json: Json)
    ensures
        !(json is Array) && !(json is Object) ==> canonical(json) == json,
        json matches Json::Array(items) ==> {
            &&& canonical(json) is Array
            &&& canonical(json)->Array_0.len() == items.len()
            &&& forall|i: int|
                0 <= i < items.len() ==> #[trigger] canonical(json)->Array_0[i] == canonical(
                    items[i],
                )
        },
{
}

/// The canonical form of an object without repeated keys has a member for each of
/// the object's, with the same key and the canonical form of its value, and no
/// others. They come in ascending order of their keys.
pub proof fn law_canonical_form_of_objects(members: Seq<(Seq<char>, Json)>)
    requires
        forall|i: int, j: int|
            0 <= i < j < members.len() ==> (#[trigger] members[i]).0 != (#[trigger] members[j]).0,
    ensures
        ({
            let form = canonical(Json::Object(members));
            let ordered = form->Object_0;
            &&& form is Object
            &&& ordered.len() == members.len()
            &&& forall|i: int|
                0 <= i < members.len() ==> ordered.contains(
                    ((#[trigger] members[i]).0, canonical(members[i].1)),
                )
            &&& forall|j: int|
                0 <= j < ordered.len() ==> member_keys(members).contains((#[trigger] ordered[j]).0)
            &&& forall|i: int, j: int|
                0 <= i < j < ordered.len() ==> text_le(
                    (#[trigger] ordered[i]).0,
                    (#[trigger] ordered[j]).0,
                ) && ordered[i].0 != ordered[j].0
        }),
{
    let keys = member_keys(members);
    assert forall|i: int, j: int|
        0 <= i < keys.len() && 0 <= j < keys.len() && i != j implies keys[i] != keys[j] by {
        assert(keys[i] == members[i].0 && keys[j] == members[j].0);
    }
    let forms = canonical_members(members);
    assert(member_keys(forms) =~= keys);
    lemma_ordered_members(forms);
    let ordered = ordered_members(forms);
    assert(canonical(Json::Object(members)) == Json::Object(ordered));
    assert forall|i: int| 0 <= i < members.len() implies ordered.contains(
        ((#[trigger] members[i]).0, canonical(members[i].1)),
    ) by {
        lemma_member_at(members, i);
        let key = members[i].0;
        lemma_canonical_member(members, key);
        assert(member_keys(ordered).contains(key));
        let j = member_keys(ordered).index_of(key);
        assert(member_keys(ordered)[j] == key);
        lemma_member_at(ordered, j);
        assert(ordered[j] == (key, canonical(members[i].1)));
    }
    assert forall|j: int| 0 <= j < ordered.len() implies keys.contains(
        (#[trigger] ordered[j]).0,
    ) by {
        lemma_member_at(ordered, j);
    }
    let leq = text_order();
    assert forall|i: int, j: int| 0 <= i < j < ordered.len() implies text_le(
        (#[trigger] ordered[i]).0,
        (#[trigger] ordered[j]).0,
    ) && ordered[i].0 != ordered[j].0 by {
        let found = member_keys(ordered);
        assert(found[i] == ordered[i].0 && found[j] == ordered[j].0);
        assert(leq(found[i], found[j]));
    }
}

/// No object has a key twice: no two members of an object have the same key, and
/// what holds of the value holds of the values in it.
pub proof fn law_distinct_keys_at_every_depth(json: Json)
    ensures
        !(json is Array) && !(json is Object) ==> distinct_keys(json),
        json matches Json::Array(items) ==> (distinct_keys(json) <==> forall|i: int|
            0 <= i < items.len() ==> distinct_keys(#[trigger] items[i])),
        json matches Json::Object(members) ==> (distinct_keys(json) <==> (forall|i: int, j: int|
            0 <= i < j < members.len() ==> (#[trigger] members[i]).0 != (#[trigger] members[j]).0)
            && forall|i: int| 0 <= i < members.len() ==> distinct_keys((#[trigger] members[i]).1)),
{
    if let Json::Object(members) = json {
        let keys = member_keys(members);
        assert forall|i: int| 0 <= i < members.len() implies #[trigger] keys[i]
            == members[i].0 by {}
        if keys.no_duplicates() {
            assert forall|i: int, j: int| 0 <= i < j < members.len() implies (
            #[trigger] members[i]).0 != (#[trigger] members[j]).0 by {
                assert(keys[i] != keys[j]);
            }
        }
        if forall|i: int, j: int|
            0 <= i < j < members.len() ==> (#[trigger] members[i]).0 != (#[trigger] members[j]).0 {
            assert forall|i: int, j: int|
                0 <= i < keys.len() && 0 <= j < keys.len() && i != j implies keys[i] != keys[j] by {
                assert(members[i].0 == keys[i] && members[j].0 == keys[j]);
            }
        }
    }
}

/// Being in order is a matter of the keys at every depth: of two members of an
/// object the later one's key does not come first.
pub proof fn law_order_at_every_depth(json: Json)
    ensures
        !(json is Array) && !(json is Object) ==> in_order(json),
        json matches Json::Array(items) ==> (in_order(json) <==> forall|i: int|
            0 <= i < items.len() ==> in_order(#[trigger] items[i])),
        json matches Json::Object(members) ==> (in_order(json) <==> (forall|i: int, j: int|
            0 <= i < j < members.len() ==> text_le(
                (#[trigger] members[i]).0,
                (#[trigger] members[j]).0,
            )) && forall|i: int| 0 <= i < members.len() ==> in_order((#[trigger] members[i]).1)),
{
    if let Json::Object(members) = json {
        let keys = member_keys(members);
        let leq = text_order();
        assert forall|i: int| 0 <= i < members.len() implies #[trigger] keys[i]
            == members[i].0 by {}
        if sorted_by(keys, text_order()) {
            assert forall|i: int, j: int| 0 <= i < j < members.len() implies text_le(
                (#[trigger] members[i]).0,
                (#[trigger] members[j]).0,
            ) by {
                assert(leq(keys[i], keys[j]));
            }
        }
        if forall|i: int, j: int|
            0 <= i < j < members.len() ==> text_le(
                (#[trigger] members[i]).0,
                (#[trigger] members[j]).0,
            ) {
            assert forall|i: int, j: int| 0 <= i < j < keys.len() implies #[trigger] leq(
                keys[i],
                keys[j],
            ) by {
                assert(text_le(members[i].0, members[j].0));
            }
        }
    }
}

/// Two arrays are the same but for the order of members exactly if they are so
/// item by item; two values that are neither both arrays nor both objects only if
/// they are equal.
pub proof fn law_sameness_of_scalars_and_arrays(a: Json, b: Json)
    ensures
        !(a is Array && b is Array) && !(a is Object && b is Object) ==> (same_json(a, b) <==> a
            == b),
        a is Array && b is Array ==> (same_json(a, b) <==> a->Array_0.len() == b->Array_0.len()
            && forall|i: int|
            0 <= i < a->Array_0.len() ==> same_json(#[trigger] a->Array_0[i], b->Array_0[i])),
{
}

/// Two objects without repeated keys that are the same but for order have the same
/// keys, and the values of any two members with the same key are the same but for
/// order; and the other way round.
pub proof fn law_sameness_of_objects(ms: Seq<(Seq<char>, Json)>, ns: Seq<(Seq<char>, Json)>)
    requires
        forall|i: int, j: int|
            0 <= i < j < ms.len() ==> (#[trigger] ms[i]).0 != (#[trigger] ms[j]).0,
        forall|i: int, j: int|
            0 <= i < j < ns.len() ==> (#[trigger] ns[i]).0 != (#[trigger] ns[j]).0,
    ensures
        same_json(Json::Object(ms), Json::Object(ns)) <==> (forall|key: Seq<char>| #[trigger]
            member_keys(ms).contains(key) <==> member_keys(ns).contains(key)) && (forall|
            i: int,
            j: int,
        |
            0 <= i < ms.len() && 0 <= j < ns.len() && (#[trigger] ms[i]).0 == (#[trigger] ns[j]).0
                ==> same_json(ms[i].1, ns[j].1)),
{
    let (xs, ys) = (member_keys(ms), member_keys(ns));
    assert forall|i: int, j: int|
        0 <= i < ys.len() && 0 <= j < ys.len() && i != j implies ys[i] != ys[j] by {
        assert(ys[i] == ns[i].0 && ys[j] == ns[j].0);
    }
    if same_json(Json::Object(ms), Json::Object(ns)) {
        assert forall|i: int, j: int|
            0 <= i < ms.len() && 0 <= j < ns.len() && (#[trigger] ms[i]).0 == (
            #[trigger] ns[j]).0 implies same_json(ms[i].1, ns[j].1) by {
            lemma_member_at(ns, j);
            assert(same_json(ms[i].1, member(ns, ms[i].0)));
        }
    }
    if (forall|key: Seq<char>| #[trigger] xs.contains(key) <==> ys.contains(key)) && (forall|
        i: int,
        j: int,
    |
        0 <= i < ms.len() && 0 <= j < ns.len() && (#[trigger] ms[i]).0 == (#[trigger] ns[j]).0
            ==> same_json(ms[i].1, ns[j].1)) {
        assert forall|i: int| 0 <= i < ms.len() implies same_json(
            (#[trigger] ms[i]).1,
            member(ns, ms[i].0),
        ) by {
            assert(xs[i] == ms[i].0);
            assert(xs.contains(ms[i].0));
            let j = ys.index_of(ms[i].0);
            assert(ys[j] == ms[i].0 && ns[j].0 == ms[i].0);
            lemma_member_at(ns, j);
        }
    }
}

/// The canonical form holds what the value holds: only the order of members differs.
pub proof fn law_canonical_form_keeps_the_value(json: Json)
    requires
        distinct_keys(json),
    ensures
        same_json(json, canonical(json)),
{
    law_canonical_form_is_in_order(json);
    law_canonical_is_idempotent(json);
    law_canonical_form_ignores_member_order(json, canonical(json));
}

} // verus!
