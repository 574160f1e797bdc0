//! The order of texts, character by character, and sorting by it.
use vstd::prelude::*;
use vstd::relations::{sorted_by, total_ordering};

verus! {

/// `a` does not come after `b` when both are compared character by character,
/// a proper prefix coming before the longer text.
pub open spec fn text_le(a: Seq<char>, b: Seq<char>) -> bool
    decreases a.len(),
{
    if a.len() == 0 {
        true
    } else if b.len() == 0 {
        false
    } else if a[0] == b[0] {
        text_le(a.drop_first(), b.drop_first())
    } else {
        (a[0] as int) < (b[0] as int)
    }
}

/// `text_le` as a relation.
pub open spec fn text_order() -> spec_fn(Seq<char>, Seq<char>) -> bool {
    |a: Seq<char>, b: Seq<char>| text_le(a, b)
}

/// The texts that a list of strings holds.
pub open spec fn texts_of(strings: Seq<String>) -> Seq<Seq<char>> {
    strings.map_values(|s: String| s@)
}

/// The same texts in ascending order.
pub open spec fn sorted_texts(texts: Seq<Seq<char>>) -> Seq<Seq<char>> {
    texts.sort_by(text_order())
}

proof fn lemma_text_le_reflexive(a: Seq<char>)
    ensures
        text_le(a, a),
    decreases a.len(),
{
    if a.len() > 0 {
        lemma_text_le_reflexive(a.drop_first());
    }
}

proof fn lemma_text_le_antisymmetric(a: Seq<char>, b: Seq<char>)
    requires
        text_le(a, b),
        text_le(b, a),
    ensures
        a == b,
    decreases a.len(),
{
    if a.len() > 0 && b.len() > 0 {
        lemma_text_le_antisymmetric(a.drop_first(), b.drop_first());
        assert(a =~= seq![a[0]] + a.drop_first());
        assert(b =~= seq![b[0]] + b.drop_first());
    } else {
        assert(a =~= b);
    }
}

proof fn lemma_text_le_transitive(a: Seq<char>, b: Seq<char>, c: Seq<char>)
    requires
        text_le(a, b),
        text_le(b, c),
    ensures
        text_le(a, c),
    decreases a.len(),
{
    if a.len() > 0 && b.len() > 0 && c.len() > 0 && a[0] == b[0] && b[0] == c[0] {
        lemma_text_le_transitive(a.drop_first(), b.drop_first(), c.drop_first());
    }
}

proof fn lemma_text_le_total(a: Seq<char>, b: Seq<char>)
    ensures
        text_le(a, b) || text_le(b, a),
    decreases a.len(),
{
    if a.len() > 0 && b.len() > 0 {
        lemma_text_le_total(a.drop_first(), b.drop_first());
    }
}

/// Texts are totally ordered.
pub proof fn lemma_text_order_total()
    ensures
        total_ordering(text_order()),
{
    let leq = text_order();
    assert forall|x: Seq<char>| #[trigger] leq(x, x) by {
        lemma_text_le_reflexive(x);
    }
    assert forall|x: Seq<char>, y: Seq<char>| #[trigger] leq(x, y) && #[trigger] leq(y, x) implies x
        == y by {
        lemma_text_le_antisymmetric(x, y);
    }
    assert forall|x: Seq<char>, y: Seq<char>, z: Seq<char>| #[trigger]
        leq(x, y) && #[trigger] leq(y, z) implies leq(x, z) by {
        lemma_text_le_transitive(x, y, z);
    }
    assert forall|x: Seq<char>, y: Seq<char>| #[trigger] leq(x, y) || #[trigger] leq(y, x) by {
        lemma_text_le_total(x, y);
    }
}

/// The order is that of a dictionary: of two different texts the one comes first
/// that is a beginning of the other or that has, after a common beginning, the
/// character with the smaller code point.
pub proof fn law_text_le_is_dictionary_order(a: Seq<char>, b: Seq<char>)
    ensures
        text_le(a, b) <==> a == b || exists|k: int|
            0 <= k < b.len() && k <= a.len() && #[trigger] a.take(k) == b.take(k) && (k == a.len()
                || (a[k] as int) < (b[k] as int)),
    decreases a.len(),
{
    if a.len() == 0 {
        if b.len() > 0 {
            assert(a.take(0) =~= b.take(0));
        } else {
            assert(a =~= b);
        }
    } else if b.len() > 0 {
        let (x, y) = (a.drop_first(), b.drop_first());
        law_text_le_is_dictionary_order(x, y);
        assert(a =~= seq![a[0]] + x);
        assert(b =~= seq![b[0]] + y);
        if a[0] != b[0] {
            assert(a.take(0) =~= b.take(0));
        }
        if text_le(a, b) && a != b && a[0] == b[0] {
            let k = choose|k: int|
                0 <= k < y.len() && k <= x.len() && #[trigger] x.take(k) == y.take(k) && (k
                    == x.len() || (x[k] as int) < (y[k] as int));
            assert(a.take(k + 1) =~= seq![a[0]] + x.take(k));
            assert(b.take(k + 1) =~= seq![b[0]] + y.take(k));
        }
        if exists|k: int|
            0 <= k < b.len() && k <= a.len() && #[trigger] a.take(k) == b.take(k) && (k == a.len()
                || (a[k] as int) < (b[k] as int)) {
            let k = choose|k: int|
                0 <= k < b.len() && k <= a.len() && #[trigger] a.take(k) == b.take(k) && (k
                    == a.len() || (a[k] as int) < (b[k] as int));
            if k > 0 {
                assert(a.take(k)[0] == b.take(k)[0]);
                assert(x.take(k - 1) =~= a.take(k).drop_first());
                assert(y.take(k - 1) =~= b.take(k).drop_first());
            }
        }
    }
}

/// The texts of a list are those of its strings, one for one.
pub proof fn law_texts_of_a_list(strings: Seq<String>)
    ensures
        texts_of(strings).len() == strings.len(),
        forall|i: int| 0 <= i < strings.len() ==> #[trigger] texts_of(strings)[i] == strings[i]@,
{
}

/// Sorting keeps every text and puts them in ascending order.
pub proof fn lemma_sorted_texts(texts: Seq<Seq<char>>)
    ensures
        sorted_texts(texts).to_multiset() == texts.to_multiset(),
        sorted_texts(texts).len() == texts.len(),
        sorted_by(sorted_texts(texts), text_order()),
        forall|t: Seq<char>| #[trigger] sorted_texts(texts).contains(t) <==> texts.contains(t),
        texts.no_duplicates() ==> sorted_texts(texts).no_duplicates(),
{
    broadcast use vstd::seq_lib::group_to_multiset_ensures;

    lemma_text_order_total();
    texts.lemma_sort_by_ensures(text_order());
    let sorted = sorted_texts(texts);
    assert(sorted.to_multiset() == texts.to_multiset());
    assert(sorted.to_multiset().len() == sorted.len() && texts.to_multiset().len() == texts.len());
    assert forall|t: Seq<char>| #[trigger] sorted.contains(t) <==> texts.contains(t) by {
        assert(sorted.contains(t) <==> sorted.to_multiset().count(t) > 0);
        assert(texts.contains(t) <==> texts.to_multiset().count(t) > 0);
    }
    if texts.no_duplicates() {
        texts.lemma_multiset_has_no_duplicates();
        assert forall|t: Seq<char>| sorted.to_multiset().contains(t) implies
            sorted.to_multiset().count(t) == 1 by {
            assert(texts.to_multiset().contains(t));
        }
        sorted.lemma_multiset_has_no_duplicates_conv();
    }
}

/// Calls `sort` of `[String]` from the standard library: the strings end up in
/// ascending order, none is added and none is lost. Strings are ordered by
/// their bytes, which is the order of their characters' code points.
#[verifier::external_body]
fn sort_in_place(strings: &mut Vec<String>)
    ensures
        sorted_by(texts_of(final(strings)@), text_order()),
        texts_of(final(strings)@).to_multiset() == texts_of(old(strings)@).to_multiset(),
{
    strings.sort();
}

/// Sorts a list of strings in ascending order.
pub fn sort_strings(strings: &mut Vec<String>)
    ensures
        texts_of(final(strings)@) == sorted_texts(texts_of(old(strings)@)),
        final(strings)@.map_values(|s: String| s@).to_multiset() == old(strings)@.map_values(
            |s: String| s@,
        ).to_multiset(),
        forall|i: int, j: int|
            0 <= i < j < final(strings)@.len() ==> text_le(
                (#[trigger] final(strings)@[i])@,
                (#[trigger] final(strings)@[j])@,
            ),
{
    let ghost before = texts_of(strings@);
    sort_in_place(strings);
    proof {
        lemma_text_order_total();
        lemma_sorted_texts(before);
        vstd::seq_lib::lemma_sorted_unique(texts_of(strings@), sorted_texts(before), text_order());
        let after = texts_of(strings@);
        let leq = text_order();
        assert forall|i: int, j: int| 0 <= i < j < strings@.len() implies text_le(
            (#[trigger] strings@[i])@,
            (#[trigger] strings@[j])@,
        ) by {
            assert(after[i] == strings@[i]@ && after[j] == strings@[j]@);
            assert(leq(after[i], after[j]));
        }
    }
}

} // verus!
