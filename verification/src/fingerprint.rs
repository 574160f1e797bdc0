//! A stable identifier for a provider's configuration, used to scope the cache
//! of its models.
use crate::canonical::{canonical, canonical_json, law_canonical_form_ignores_member_order};
use crate::json::{build_value, json_of, json_text, write_out, Json, Parts};
use crate::provider::{
    law_canonical_config_is_faithful, lemma_config_json, ModelProviderInfo, ProviderConfig,
};
use crate::string_map::{filled, law_order_of_setting_is_of_no_account, set_once};
use serde_json::Value;
use std::collections::hash_map::DefaultHasher;
use std::hash::{Hash, Hasher};
use vstd::arithmetic::power::pow;
use vstd::prelude::*;
use vstd::std_specs::hash::DefaultHasherAdditionalSpecFns;

verus! {

/// The writes that hashing a text makes to a hasher.
pub uninterp spec fn hash_writes(text: Seq<char>) -> Seq<Seq<u8>>;

/// Calls `Hash::hash` of `str` from the standard library with a `DefaultHasher`:
/// it adds to the hasher's writes, and what it adds depends on the text alone.
#[verifier::external_body]
fn feed(text: &str, hasher: &mut DefaultHasher)
    ensures
        final(hasher)@ == old(hasher)@ + hash_writes(text@),
{
    text.hash(hasher);
}

/// What a fresh `DefaultHasher` makes of a text.
pub open spec fn text_hash(text: Seq<char>) -> u64 {
    DefaultHasher::spec_finish(hash_writes(text))
}

/// Hashes a text with a fresh `DefaultHasher`.
pub fn hash_text(text: &str) -> (hash: u64)
    ensures
        hash == text_hash(text@),
        hash == DefaultHasher::spec_finish(hash_writes(text@)),
{
    let mut hasher: DefaultHasher = DefaultHasher::new();
    feed(text, &mut hasher);
    proof {
        assert(hasher@ =~= hash_writes(text@));
    }
    hasher.finish()
}

/// The lower-case hexadecimal digit with the given value.
pub open spec fn hex_digit(value: nat) -> char {
    if value < 10 {
        (('0' as int) + value) as char
    } else {
        (('a' as int) + (value - 10)) as char
    }
}

/// The lowest `width` hexadecimal digits of a number, with leading zeros.
pub open spec fn hex_digits(number: nat, width: nat) -> Seq<char>
    decreases width,
{
    if width == 0 {
        Seq::empty()
    } else {
        hex_digits(number / 16, (width - 1) as nat).push(hex_digit(number % 16))
    }
}

/// The text of one hexadecimal digit.
fn digit_text(value: u64) -> (text: &'static str)
    requires
        value < 16,
    ensures
        text@ == seq![hex_digit(value as nat)],
{
    proof {
        reveal_strlit("0");
        reveal_strlit("1");
        reveal_strlit("2");
        reveal_strlit("3");
        reveal_strlit("4");
        reveal_strlit("5");
        reveal_strlit("6");
        reveal_strlit("7");
        reveal_strlit("8");
        reveal_strlit("9");
        reveal_strlit("a");
        reveal_strlit("b");
        reveal_strlit("c");
        reveal_strlit("d");
        reveal_strlit("e");
        reveal_strlit("f");
    }
    match value {
        0 => "0",
        1 => "1",
        2 => "2",
        3 => "3",
        4 => "4",
        5 => "5",
        6 => "6",
        7 => "7",
        8 => "8",
        9 => "9",
        10 => "a",
        11 => "b",
        12 => "c",
        13 => "d",
        14 => "e",
        _ => "f",
    }
}

/// Appends the lowest `width` hexadecimal digits of a number.
fn append_hex(text: &mut String, number: u64, width: u32)
    ensures
        final(text)@ == old(text)@ + hex_digits(number as nat, width as nat),
    decreases width,
{
    let ghost before = text@;
    if width > 0 {
        append_hex(text, number / 16, width - 1);
        text.append(digit_text(number % 16));
    }
    proof {
        assert(text@ =~= before + hex_digits(number as nat, width as nat));
    }
}

/// The fingerprint with the given name and hash: the name, a colon, and the
/// hash as 16 hexadecimal digits.
pub open spec fn fingerprint_text(name: Seq<char>, hash: u64) -> Seq<char> {
    name + seq![':'] + hex_digits(hash as nat, 16)
}

/// A hexadecimal digit of a number is told by its place: the one with `k` digits
/// behind it is what is left of the number's quotient by the `k`-th power of 16.
proof fn lemma_hex_digit_at(number: nat, width: nat, i: int)
    requires
        0 <= i < width,
    ensures
        hex_digits(number, width).len() == width,
        hex_digits(number, width)[i] == hex_digit(
            ((number as int / pow(16, (width - 1 - i) as nat)) % 16) as nat,
        ),
    decreases width,
{
    let rest = (width - 1) as nat;
    lemma_hex_width(number, width);
    lemma_hex_width(number / 16, rest);
    if i < rest {
        lemma_hex_digit_at(number / 16, rest, i);
        let k = (width - 2 - i) as nat;
        reveal(pow);
        vstd::arithmetic::power::lemma_pow_positive(16, k);
        vstd::arithmetic::div_mod::lemma_div_denominator(number as int, 16, pow(16, k));
        assert(pow(16, (width - 1 - i) as nat) == 16 * pow(16, k));
    } else {
        reveal(pow);
        assert(pow(16, 0) == 1);
    }
}

/// A fingerprint is the name as it is, a colon, and 16 characters, the hexadecimal
/// digits of the hash from the highest to the lowest, in lower case.
pub proof fn law_shape_of_a_fingerprint(name: Seq<char>, hash: u64)
    ensures
        fingerprint_text(name, hash).len() == name.len() + 17,
        fingerprint_text(name, hash).take(name.len() as int) == name,
        fingerprint_text(name, hash)[name.len() as int] == ':',
        forall|j: int|
            name.len() < j < name.len() + 17 ==> {
                let digit = (hash as int / pow(16, (name.len() + 16 - j) as nat)) % 16;
                #[trigger] fingerprint_text(name, hash)[j] == if digit < 10 {
                    ('0' as int + digit) as char
                } else {
                    ('a' as int + digit - 10) as char
                }
            },
{
    let text = fingerprint_text(name, hash);
    lemma_hex_width(hash as nat, 16);
    assert(text.take(name.len() as int) =~= name);
    assert forall|j: int| name.len() < j < name.len() + 17 implies {
        let digit = (hash as int / pow(16, (name.len() + 16 - j) as nat)) % 16;
        #[trigger] text[j] == if digit < 10 {
            ('0' as int + digit) as char
        } else {
            ('a' as int + digit - 10) as char
        }
    } by {
        lemma_hex_digit_at(hash as nat, 16, j - name.len() - 1);
    }
}

/// Writes the fingerprint with the given name and hash.
pub fn format_fingerprint(name: &str, hash: u64) -> (fingerprint: String)
    ensures
        fingerprint@ == fingerprint_text(name@, hash),
        fingerprint@.len() == name@.len() + 17,
        fingerprint@.take(name@.len() as int) == name@,
        fingerprint@[name@.len() as int] == ':',
        forall|j: int|
            name@.len() < j < name@.len() + 17 ==> {
                let digit = (hash as int / pow(16, (name@.len() + 16 - j) as nat)) % 16;
                #[trigger] fingerprint@[j] == if digit < 10 {
                    ('0' as int + digit) as char
                } else {
                    ('a' as int + digit - 10) as char
                }
            },
{
    proof {
        law_shape_of_a_fingerprint(name@, hash);
        reveal_strlit(":");
        assert(":"@ =~= seq![':']);
    }
    let mut fingerprint: String = name.to_owned();
    fingerprint.append(":");
    append_hex(&mut fingerprint, hash, 16);
    fingerprint
}

/// The text that stands for a configuration when it is hashed: its canonical
/// JSON form, written out, or null where it has none.
pub open spec fn hashed_text(config: ProviderConfig) -> Seq<char> {
    json_text(canonical(config.json_or_null()))
}

/// The fingerprint of a configuration.
pub open spec fn config_fingerprint(config: ProviderConfig) -> Seq<char> {
    fingerprint_text(config.name, text_hash(hashed_text(config)))
}

/// Whether the text of a JSON value stands for it alone: some `serde_json::Value`
/// holds the JSON value, and every other one with the same text holds it too.
pub open spec fn has_own_text(json: Json) -> bool {
    &&& exists|form: Value| #[trigger] json_of(form) == json
    &&& forall|other: Value|
        json_text(#[trigger] json_of(other)) == json_text(json) ==> json_of(other) == json
}

/// Whether the text that is hashed for a configuration stands for its canonical
/// JSON form, or for null where it has none, and nothing else.
pub open spec fn told_apart(config: ProviderConfig) -> bool {
    has_own_text(canonical(config.json_or_null()))
}

/// The JSON value that a configuration counts as, given what came of turning it
/// into JSON: null if that failed.
pub open spec fn json_or_null<E>(config: Result<Value, E>) -> Json {
    match config {
        Ok(value) => json_of(value),
        Err(_) => Json::Null,
    }
}

/// The fingerprint of a configuration with the given name, given what came of
/// turning it into JSON. A configuration for which that failed counts as null
/// and keeps its name.
pub fn fingerprint_of_value<E>(name: &str, config: Result<Value, E>) -> (fingerprint: String)
    ensures
        fingerprint@ == fingerprint_text(
            name@,
            text_hash(json_text(canonical(json_or_null(config)))),
        ),
        has_own_text(canonical(json_or_null(config))),
        config matches Ok(value) ==> fingerprint@ == fingerprint_text(
            name@,
            DefaultHasher::spec_finish(hash_writes(json_text(canonical(json_of(value))))),
        ),
        config is Err ==> fingerprint@ == fingerprint_text(
            name@,
            DefaultHasher::spec_finish(hash_writes(json_text(Json::Null))),
        ),
{
    let value: Value = match config {
        Ok(value) => value,
        Err(_) => build_value(Parts::Null),
    };
    let form = canonical_json(value);
    let serialized = match write_out(&form) {
        Ok(text) => text,
        Err(_) => String::new(),
    };
    format_fingerprint(name, hash_text(serialized.as_str()))
}

/// Stable identifier for a provider's configuration. The display name alone
/// would not do, since providers may share it. The hash of the canonical JSON
/// form tells configurations apart that differ in any field; the name in front
/// keeps cache files self-documenting. A configuration without a JSON form counts
/// as null.
pub fn provider_config_fingerprint(provider_info: &ModelProviderInfo) -> (fingerprint: String)
    ensures
        fingerprint@ == config_fingerprint(provider_info@),
        provider_info@.finite(),
        told_apart(provider_info@),
        (provider_info.auth matches Some(auth) ==> auth.cwd is Text) ==> fingerprint@
            == fingerprint_text(
            provider_info.name@,
            DefaultHasher::spec_finish(hash_writes(json_text(canonical(provider_info@.json())))),
        ),
        (provider_info.auth matches Some(auth) && auth.cwd is Bytes) ==> fingerprint@
            == fingerprint_text(
            provider_info.name@,
            DefaultHasher::spec_finish(hash_writes(json_text(Json::Null))),
        ),
{
    let config = provider_info.to_value();
    proof {
        lemma_config_json(provider_info@);
        if config is Ok {
            law_canonical_form_ignores_member_order(
                json_of(config->Ok_0),
                provider_info@.json(),
            );
        }
    }
    fingerprint_of_value(provider_info.name.as_str(), config)
}

/// How many numbers `width` hexadecimal digits can tell apart.
spec fn hex_span(width: nat) -> nat
    decreases width,
{
    if width == 0 {
        1
    } else {
        16 * hex_span((width - 1) as nat)
    }
}

/// Digits with different values are different characters.
proof fn lemma_hex_digit(a: nat, b: nat)
    requires
        a < 16,
        b < 16,
        hex_digit(a) == hex_digit(b),
    ensures
        a == b,
{
}

/// `width` hexadecimal digits tell numbers below the span apart.
proof fn lemma_hex_digits(a: nat, b: nat, width: nat)
    requires
        a < hex_span(width),
        b < hex_span(width),
        hex_digits(a, width) == hex_digits(b, width),
    ensures
        a == b,
    decreases width,
{
    if width > 0 {
        let rest = (width - 1) as nat;
        let (x, y) = (hex_digits(a, width), hex_digits(b, width));
        assert(x.last() == hex_digit(a % 16) && y.last() == hex_digit(b % 16));
        assert(x.drop_last() =~= hex_digits(a / 16, rest));
        assert(y.drop_last() =~= hex_digits(b / 16, rest));
        lemma_hex_digit(a % 16, b % 16);
        lemma_hex_digits(a / 16, b / 16, rest);
    }
}

/// The digits are as many as asked for.
proof fn lemma_hex_width(number: nat, width: nat)
    ensures
        hex_digits(number, width).len() == width,
    decreases width,
{
    if width > 0 {
        lemma_hex_width(number / 16, (width - 1) as nat);
    }
}

/// A fingerprint tells the name and the hash that it was made of.
pub proof fn law_fingerprint_tells_name_and_hash(
    name_a: Seq<char>,
    hash_a: u64,
    name_b: Seq<char>,
    hash_b: u64,
)
    ensures
        fingerprint_text(name_a, hash_a) == fingerprint_text(name_b, hash_b) <==> name_a == name_b
            && hash_a == hash_b,
{
    let a = fingerprint_text(name_a, hash_a);
    let b = fingerprint_text(name_b, hash_b);
    lemma_hex_width(hash_a as nat, 16);
    lemma_hex_width(hash_b as nat, 16);
    if a == b {
        assert(a.len() == name_a.len() + 17 && b.len() == name_b.len() + 17);
        assert(a.take(name_a.len() as int) =~= name_a);
        assert(b.take(name_b.len() as int) =~= name_b);
        assert(a.skip((name_a.len() + 1) as int) =~= hex_digits(hash_a as nat, 16));
        assert(b.skip((name_b.len() + 1) as int) =~= hex_digits(hash_b as nat, 16));
        reveal_with_fuel(hex_span, 17);
        assert(hex_span(16) == 0x1_0000_0000_0000_0000);
        lemma_hex_digits(hash_a as nat, hash_b as nat, 16);
    }
}

/// The order in which headers or parameters were set is of no account: where no
/// key was set twice, the same entries in another order give the same fingerprint.
pub proof fn law_order_of_entries_is_of_no_account(
    config: ProviderConfig,
    a: Seq<(Seq<char>, Seq<char>)>,
    b: Seq<(Seq<char>, Seq<char>)>,
)
    requires
        set_once(a),
        set_once(b),
        forall|entry: (Seq<char>, Seq<char>)| #[trigger] a.contains(entry) <==> b.contains(entry),
    ensures
        config_fingerprint(ProviderConfig { query_params: Some(filled(a)), ..config })
            == config_fingerprint(ProviderConfig { query_params: Some(filled(b)), ..config }),
        config_fingerprint(ProviderConfig { http_headers: Some(filled(a)), ..config })
            == config_fingerprint(ProviderConfig { http_headers: Some(filled(b)), ..config }),
        config_fingerprint(ProviderConfig { env_http_headers: Some(filled(a)), ..config })
            == config_fingerprint(ProviderConfig { env_http_headers: Some(filled(b)), ..config }),
{
    law_order_of_setting_is_of_no_account(a, b);
}

/// The text that is hashed tells configurations apart in every field; only those
/// without a JSON form share theirs. Every configuration that has been given a
/// fingerprint is finite and told apart.
pub proof fn law_hashed_text_tells_configs_apart(a: ProviderConfig, b: ProviderConfig)
    requires
        a.finite(),
        b.finite(),
        told_apart(a),
        told_apart(b),
    ensures
        hashed_text(a) == hashed_text(b) <==> a == b || (!a.has_json() && !b.has_json()),
{
    if a.has_json() && b.has_json() {
        law_canonical_config_is_faithful(a, b);
    }
}

/// A text has the hash that a fresh `DefaultHasher` gives once the writes of that
/// text, and nothing else, have gone into it. Texts with the same writes have the
/// same hash.
pub proof fn law_hash_is_that_of_the_writes(a: Seq<char>, b: Seq<char>)
    ensures
        text_hash(a) == DefaultHasher::spec_finish(hash_writes(a)),
        hash_writes(a) == hash_writes(b) ==> text_hash(a) == text_hash(b),
{
}

/// What is hashed for a configuration is the text of its canonical JSON form, or
/// that of null where its command has a path that is no text; the fingerprint is
/// the name with that hash.
pub proof fn law_fingerprint_of_a_config(config: ProviderConfig)
    ensures
        (config.auth matches Some(auth) ==> auth.cwd is Text) ==> hashed_text(config) == json_text(
            canonical(config.json()),
        ),
        (config.auth matches Some(auth) && auth.cwd is Bytes) ==> hashed_text(config) == json_text(
            Json::Null,
        ),
        config_fingerprint(config) == fingerprint_text(
            config.name,
            DefaultHasher::spec_finish(hash_writes(hashed_text(config))),
        ),
{
}

/// Two configurations that differ in any field are hashed by different texts, where
/// neither has a command whose path is no text; in particular where neither has a
/// command. So they share a fingerprint only if they share the name and the
/// standard hasher collides on these two texts.
pub proof fn law_shared_fingerprint_means_a_collision(a: ModelProviderInfo, b: ModelProviderInfo)
    requires
        a@.finite(),
        b@.finite(),
        told_apart(a@),
        told_apart(b@),
        a.auth matches Some(auth) ==> auth.cwd is Text,
        b.auth matches Some(auth) ==> auth.cwd is Text,
        a@ != b@,
    ensures
        hashed_text(a@) != hashed_text(b@),
        config_fingerprint(a@) == config_fingerprint(b@) <==> a.name@ == b.name@
            && DefaultHasher::spec_finish(hash_writes(hashed_text(a@)))
            == DefaultHasher::spec_finish(hash_writes(hashed_text(b@))),
{
    law_hashed_text_tells_configs_apart(a@, b@);
    law_shared_fingerprint(a@, b@);
}

/// Two configurations share a fingerprint exactly when they have the same name
/// and the texts that are hashed for them have the same hash.
pub proof fn law_shared_fingerprint(a: ProviderConfig, b: ProviderConfig)
    ensures
        config_fingerprint(a) == config_fingerprint(b) <==> a.name == b.name && text_hash(
            hashed_text(a),
        ) == text_hash(hashed_text(b)),
{
    law_fingerprint_tells_name_and_hash(
        a.name,
        text_hash(hashed_text(a)),
        b.name,
        text_hash(hashed_text(b)),
    );
}

} // verus!
