//! The configuration of a model provider, and its JSON form.
use crate::canonical::{
    canonical, distinct_keys, law_canonical_form_ignores_member_order, lemma_member_at, same_json,
};
use crate::json::{
    build_value, json_of, jsons_of, member, member_keys, members_of, Json, Parts,
};
use crate::order::texts_of;
use crate::string_map::{
    lemma_ordered_keys, lemma_text_member, ordered_keys, text_members, StringMap,
};
use serde_json::{Map as JsonMap, Value};
use vstd::prelude::*;

verus! {

/// The protocol that a provider speaks.
#[derive(Debug, Clone, Copy, PartialEq, Eq, Structural)]
pub enum WireApi {
    /// The Responses API.
    Responses,
}

/// A number of milliseconds other than zero.
#[derive(Debug, Clone, Copy)]
pub struct NonZeroMillis {
    millis: u64,
}

/// The path of a directory.
#[derive(Debug)]
pub enum DirPath {
    /// A path that is a text.
    Text(String),
    /// The bytes of a path that is no text.
    Bytes(Vec<u8>),
}

/// A path that is no text has no JSON form.
#[derive(Debug, PartialEq, Eq, Structural)]
pub struct PathIsNoText;

/// A command that prints the provider's bearer token.
#[derive(Debug)]
pub struct ModelProviderAuthInfo {
    pub command: String,
    pub args: Vec<String>,
    /// How long the command may run.
    pub timeout_ms: NonZeroMillis,
    /// How long a token is used before the command is run again.
    pub refresh_interval_ms: u64,
    /// The absolute path of the directory that the command runs in.
    pub cwd: DirPath,
}

/// Where the credentials for signing requests to AWS come from.
#[derive(Debug)]
pub struct ModelProviderAwsAuthInfo {
    pub profile: Option<String>,
    pub region: Option<String>,
}

/// The configuration of a model provider.
#[derive(Debug)]
pub struct ModelProviderInfo {
    /// Friendly display name. Several providers may share it.
    pub name: String,
    /// Base URL of the provider's API.
    pub base_url: Option<String>,
    /// Environment variable that holds the API key.
    pub env_key: Option<String>,
    /// How to obtain a value for `env_key`.
    pub env_key_instructions: Option<String>,
    /// Bearer token to send as it is.
    pub experimental_bearer_token: Option<String>,
    /// Command that prints the bearer token.
    pub auth: Option<ModelProviderAuthInfo>,
    /// Credentials for AWS.
    pub aws: Option<ModelProviderAwsAuthInfo>,
    pub wire_api: WireApi,
    /// Parameters to append to the URL.
    pub query_params: Option<StringMap>,
    /// Headers and their values.
    pub http_headers: Option<StringMap>,
    /// Headers and the environment variables that hold their values.
    pub env_http_headers: Option<StringMap>,
    pub request_max_retries: Option<u64>,
    pub stream_max_retries: Option<u64>,
    pub stream_idle_timeout_ms: Option<u64>,
    pub websocket_connect_timeout_ms: Option<u64>,
    /// Whether the provider takes OpenAI's own credentials.
    pub requires_openai_auth: bool,
    pub supports_websockets: bool,
}

/// What a `DirPath` holds.
pub enum PathContent {
    Text(Seq<char>),
    Bytes(Seq<u8>),
}

/// What a `ModelProviderAuthInfo` holds.
pub struct AuthCommand {
    pub command: Seq<char>,
    pub args: Seq<Seq<char>>,
    pub timeout_ms: u64,
    pub refresh_interval_ms: u64,
    pub cwd: PathContent,
}

/// What a `ModelProviderAwsAuthInfo` holds.
pub struct AwsCredentials {
    pub profile: Option<Seq<char>>,
    pub region: Option<Seq<char>>,
}

/// What a `ModelProviderInfo` holds.
pub struct ProviderConfig {
    pub name: Seq<char>,
    pub base_url: Option<Seq<char>>,
    pub env_key: Option<Seq<char>>,
    pub env_key_instructions: Option<Seq<char>>,
    pub experimental_bearer_token: Option<Seq<char>>,
    pub auth: Option<AuthCommand>,
    pub aws: Option<AwsCredentials>,
    pub wire_api: WireApi,
    pub query_params: Option<Map<Seq<char>, Seq<char>>>,
    pub http_headers: Option<Map<Seq<char>, Seq<char>>>,
    pub env_http_headers: Option<Map<Seq<char>, Seq<char>>>,
    pub request_max_retries: Option<u64>,
    pub stream_max_retries: Option<u64>,
    pub stream_idle_timeout_ms: Option<u64>,
    pub websocket_connect_timeout_ms: Option<u64>,
    pub requires_openai_auth: bool,
    pub supports_websockets: bool,
}

/// The text of an optional string.
pub open spec fn opt_text(string: Option<String>) -> Option<Seq<char>> {
    match string {
        Some(s) => Some(s@),
        None => None,
    }
}

/// The content of an optional map.
pub open spec fn opt_map(map: Option<StringMap>) -> Option<Map<Seq<char>, Seq<char>>> {
    match map {
        Some(m) => Some(m@),
        None => None,
    }
}

impl View for NonZeroMillis {
    type V = u64;

    closed spec fn view(&self) -> u64 {
        self.millis
    }
}

impl NonZeroMillis {
    /// The number is not zero.
    #[verifier::type_invariant]
    spec fn is_not_zero(self) -> bool {
        self.millis != 0
    }

    /// The given number of milliseconds, unless it is zero.
    pub fn new(millis: u64) -> (made: Option<NonZeroMillis>)
        ensures
            made is Some <==> millis != 0,
            made matches Some(m) ==> m@ == millis,
    {
        if millis != 0 {
            Some(NonZeroMillis { millis })
        } else {
            None
        }
    }

    /// The number of milliseconds.
    pub fn get(self) -> (millis: u64)
        ensures
            millis == self@,
            millis != 0,
    {
        proof {
            use_type_invariant(&self);
        }
        self.millis
    }
}

impl View for DirPath {
    type V = PathContent;

    open spec fn view(&self) -> PathContent {
        match self {
            DirPath::Text(text) => PathContent::Text(text@),
            DirPath::Bytes(bytes) => PathContent::Bytes(bytes@),
        }
    }
}

impl View for ModelProviderAuthInfo {
    type V = AuthCommand;

    open spec fn view(&self) -> AuthCommand {
        AuthCommand {
            command: self.command@,
            args: texts_of(self.args@),
            timeout_ms: self.timeout_ms@,
            refresh_interval_ms: self.refresh_interval_ms,
            cwd: self.cwd@,
        }
    }
}

impl View for ModelProviderAwsAuthInfo {
    type V = AwsCredentials;

    open spec fn view(&self) -> AwsCredentials {
        AwsCredentials { profile: opt_text(self.profile), region: opt_text(self.region) }
    }
}

impl View for ModelProviderInfo {
    type V = ProviderConfig;

    open spec fn view(&self) -> ProviderConfig {
        ProviderConfig {
            name: self.name@,
            base_url: opt_text(self.base_url),
            env_key: opt_text(self.env_key),
            env_key_instructions: opt_text(self.env_key_instructions),
            experimental_bearer_token: opt_text(self.experimental_bearer_token),
            auth: match self.auth {
                Some(auth) => Some(auth@),
                None => None,
            },
            aws: match self.aws {
                Some(aws) => Some(aws@),
                None => None,
            },
            wire_api: self.wire_api,
            query_params: opt_map(self.query_params),
            http_headers: opt_map(self.http_headers),
            env_http_headers: opt_map(self.env_http_headers),
            request_max_retries: self.request_max_retries,
            stream_max_retries: self.stream_max_retries,
            stream_idle_timeout_ms: self.stream_idle_timeout_ms,
            websocket_connect_timeout_ms: self.websocket_connect_timeout_ms,
            requires_openai_auth: self.requires_openai_auth,
            supports_websockets: self.supports_websockets,
        }
    }
}

/// An optional text as JSON: a string, or null.
pub open spec fn text_json(text: Option<Seq<char>>) -> Json {
    match text {
        Some(t) => Json::Text(t),
        None => Json::Null,
    }
}

/// An optional number as JSON: a number, or null.
pub open spec fn number_json(number: Option<u64>) -> Json {
    match number {
        Some(n) => Json::Integer(n as int),
        None => Json::Null,
    }
}

/// An optional map as JSON: an object, or null.
pub open spec fn map_json(map: Option<Map<Seq<char>, Seq<char>>>) -> Json {
    match map {
        Some(m) => Json::Object(text_members(m)),
        None => Json::Null,
    }
}

/// The JSON object with the given keys and, in the same order, values.
pub open spec fn object_json(keys: Seq<Seq<char>>, values: Seq<Json>) -> Json {
    Json::Object(Seq::new(keys.len(), |i: int| (keys[i], values[i])))
}

impl WireApi {
    /// The name of the protocol.
    pub open spec fn text(self) -> Seq<char> {
        match self {
            WireApi::Responses => "responses"@,
        }
    }

    /// The name of the protocol.
    pub fn name(self) -> (name: String)
        ensures
            name@ == self.text(),
            self is Responses ==> name@ == "responses"@,
    {
        match self {
            WireApi::Responses => "responses".to_owned(),
        }
    }
}

impl AuthCommand {
    /// The names of the fields.
    pub open spec fn names() -> Seq<Seq<char>> {
        seq!["command"@, "args"@, "timeout_ms"@, "refresh_interval_ms"@, "cwd"@]
    }

    /// The value of each field as JSON, in the order of `names`.
    pub open spec fn fields(self) -> Seq<Json> {
        seq![
            Json::Text(self.command),
            Json::Array(self.args.map_values(|arg: Seq<char>| Json::Text(arg))),
            Json::Integer(self.timeout_ms as int),
            Json::Integer(self.refresh_interval_ms as int),
            match self.cwd {
                PathContent::Text(text) => Json::Text(text),
                PathContent::Bytes(_) => Json::Null,
            },
        ]
    }

    /// Whether there is a JSON form: there is none for a path that is no text.
    pub open spec fn has_json(self) -> bool {
        self.cwd is Text
    }

    /// The JSON object with a member for each field.
    pub open spec fn json(self) -> Json {
        object_json(AuthCommand::names(), self.fields())
    }
}

impl AwsCredentials {
    /// The names of the fields.
    pub open spec fn names() -> Seq<Seq<char>> {
        seq!["profile"@, "region"@]
    }

    /// The value of each field as JSON, in the order of `names`.
    pub open spec fn fields(self) -> Seq<Json> {
        seq![text_json(self.profile), text_json(self.region)]
    }

    /// The JSON object with a member for each field.
    pub open spec fn json(self) -> Json {
        object_json(AwsCredentials::names(), self.fields())
    }
}

impl ProviderConfig {
    /// The maps are finite, as those of a `ModelProviderInfo` are.
    pub open spec fn finite(self) -> bool {
        &&& self.query_params matches Some(m) ==> m.dom().finite()
        &&& self.http_headers matches Some(m) ==> m.dom().finite()
        &&& self.env_http_headers matches Some(m) ==> m.dom().finite()
    }

    /// The names of the fields.
    pub open spec fn names() -> Seq<Seq<char>> {
        seq![
            "name"@,
            "base_url"@,
            "env_key"@,
            "env_key_instructions"@,
            "experimental_bearer_token"@,
            "auth"@,
            "aws"@,
            "wire_api"@,
            "query_params"@,
            "http_headers"@,
            "env_http_headers"@,
            "request_max_retries"@,
            "stream_max_retries"@,
            "stream_idle_timeout_ms"@,
            "websocket_connect_timeout_ms"@,
            "requires_openai_auth"@,
            "supports_websockets"@,
        ]
    }

    /// The value of each field as JSON, in the order of `names`.
    pub open spec fn fields(self) -> Seq<Json> {
        seq![
            Json::Text(self.name),
            text_json(self.base_url),
            text_json(self.env_key),
            text_json(self.env_key_instructions),
            text_json(self.experimental_bearer_token),
            match self.auth {
                Some(auth) => auth.json(),
                None => Json::Null,
            },
            match self.aws {
                Some(aws) => aws.json(),
                None => Json::Null,
            },
            Json::Text(self.wire_api.text()),
            map_json(self.query_params),
            map_json(self.http_headers),
            map_json(self.env_http_headers),
            number_json(self.request_max_retries),
            number_json(self.stream_max_retries),
            number_json(self.stream_idle_timeout_ms),
            number_json(self.websocket_connect_timeout_ms),
            Json::Bool(self.requires_openai_auth),
            Json::Bool(self.supports_websockets),
        ]
    }

    /// Whether there is a JSON form: there is one unless the command has none.
    pub open spec fn has_json(self) -> bool {
        self.auth matches Some(auth) ==> auth.has_json()
    }

    /// The JSON object with a member for each field.
    pub open spec fn json(self) -> Json {
        object_json(ProviderConfig::names(), self.fields())
    }

    /// The JSON value that the configuration counts as: its JSON form, or null
    /// where it has none.
    pub open spec fn json_or_null(self) -> Json {
        if self.has_json() {
            self.json()
        } else {
            Json::Null
        }
    }
}

/// The names of the fields of a command are distinct.
proof fn lemma_auth_names()
    ensures
        AuthCommand::names().no_duplicates(),
{
    reveal_strlit("command");
    reveal_strlit("args");
    reveal_strlit("timeout_ms");
    reveal_strlit("refresh_interval_ms");
    reveal_strlit("cwd");
    let lengths = seq![7nat, 4, 10, 19, 3];
    assert(AuthCommand::names().map_values(|name: Seq<char>| name.len()) =~= lengths);
    assert(lengths.no_duplicates());
    assert forall|i: int, j: int|
        0 <= i < 5 && 0 <= j < 5 && i != j implies AuthCommand::names()[i]
        != AuthCommand::names()[j] by {
        assert(AuthCommand::names()[i].len() == lengths[i]);
        assert(AuthCommand::names()[j].len() == lengths[j]);
    }
}

/// The names of the fields of the AWS credentials are distinct.
proof fn lemma_aws_names()
    ensures
        AwsCredentials::names().no_duplicates(),
{
    reveal_strlit("profile");
    reveal_strlit("region");
    assert("profile"@.len() != "region"@.len());
}

/// The names of the fields of a provider's configuration are distinct.
proof fn lemma_config_names()
    ensures
        ProviderConfig::names().no_duplicates(),
{
    reveal_strlit("name");
    reveal_strlit("base_url");
    reveal_strlit("env_key");
    reveal_strlit("env_key_instructions");
    reveal_strlit("experimental_bearer_token");
    reveal_strlit("auth");
    reveal_strlit("aws");
    reveal_strlit("wire_api");
    reveal_strlit("query_params");
    reveal_strlit("http_headers");
    reveal_strlit("env_http_headers");
    reveal_strlit("request_max_retries");
    reveal_strlit("stream_max_retries");
    reveal_strlit("stream_idle_timeout_ms");
    reveal_strlit("websocket_connect_timeout_ms");
    reveal_strlit("requires_openai_auth");
    reveal_strlit("supports_websockets");
    // No two names agree in both their length and their first character.
    let marks = seq![
        (4nat, 'n'),
        (8, 'b'),
        (7, 'e'),
        (20, 'e'),
        (25, 'e'),
        (4, 'a'),
        (3, 'a'),
        (8, 'w'),
        (12, 'q'),
        (12, 'h'),
        (16, 'e'),
        (19, 'r'),
        (18, 's'),
        (22, 's'),
        (28, 'w'),
        (20, 'r'),
        (19, 's'),
    ];
    let names = ProviderConfig::names();
    assert(names.map_values(|name: Seq<char>| (name.len(), name[0])) =~= marks);
    assert(marks.no_duplicates());
    assert forall|i: int, j: int|
        0 <= i < names.len() && 0 <= j < names.len() && i != j implies names[i] != names[j] by {
        assert((names[i].len(), names[i][0]) == marks[i]);
        assert((names[j].len(), names[j][0]) == marks[j]);
    }
}

/// Builds the object with the given members.
fn object_value(members: Vec<(&str, Value)>) -> (value: Value)
    requires
        members@.map_values(|m: (&str, Value)| m.0@).no_duplicates(),
    ensures
        json_of(value) == Json::Object(
            members@.map_values(|m: (&str, Value)| (m.0@, json_of(m.1))),
        ),
{
    let ghost keys = members@.map_values(|m: (&str, Value)| m.0@);
    let ghost wanted = members@.map_values(|m: (&str, Value)| (m.0@, json_of(m.1)));
    let mut map: JsonMap<String, Value> = JsonMap::new();
    for member in it: members
        invariant
            it.seq() == members@,
            keys == members@.map_values(|m: (&str, Value)| m.0@),
            keys.no_duplicates(),
            wanted == members@.map_values(|m: (&str, Value)| (m.0@, json_of(m.1))),
            members_of(map) == wanted.take(it.index() as int),
    {
        let (key, value) = member;
        proof {
            let at = it.index() as int;
            let present = member_keys(members_of(map));
            assert(present =~= keys.take(at));
            assert(keys[at] == key@);
            assert(!present.contains(key@));
            assert(wanted.take(at).push(wanted[at]) =~= wanted.take(at + 1));
        }
        map.insert(key.to_owned(), value);
    }
    proof {
        assert(wanted.take(wanted.len() as int) =~= wanted);
    }
    build_value(Parts::Object(map))
}

/// A string as JSON.
fn text_value(text: &String) -> (value: Value)
    ensures
        json_of(value) == Json::Text(text@),
{
    build_value(Parts::Text(text.clone()))
}

/// An optional string as JSON.
fn optional_text_value(text: &Option<String>) -> (value: Value)
    ensures
        json_of(value) == text_json(opt_text(*text)),
{
    match text {
        Some(t) => text_value(t),
        None => build_value(Parts::Null),
    }
}

/// A number as JSON.
fn number_value(number: u64) -> (value: Value)
    ensures
        json_of(value) == Json::Integer(number as int),
{
    build_value(Parts::Number(number))
}

/// An optional number as JSON.
fn optional_number_value(number: &Option<u64>) -> (value: Value)
    ensures
        json_of(value) == number_json(*number),
{
    match number {
        Some(n) => number_value(*n),
        None => build_value(Parts::Null),
    }
}

/// A list of strings as JSON.
fn texts_value(texts: &Vec<String>) -> (value: Value)
    ensures
        json_of(value) == Json::Array(
            texts_of(texts@).map_values(|text: Seq<char>| Json::Text(text)),
        ),
{
    let ghost wanted = texts_of(texts@).map_values(|text: Seq<char>| Json::Text(text));
    let mut items: Vec<Value> = Vec::new();
    let mut at: usize = 0;
    while at < texts.len()
        invariant
            at <= texts@.len(),
            wanted == texts_of(texts@).map_values(|text: Seq<char>| Json::Text(text)),
            jsons_of(items@) == wanted.take(at as int),
        decreases texts@.len() - at,
    {
        let ghost before = items@;
        items.push(text_value(&texts[at]));
        proof {
            assert(jsons_of(items@) =~= jsons_of(before).push(wanted[at as int]));
            assert(wanted.take(at as int).push(wanted[at as int]) =~= wanted.take(at + 1));
        }
        at = at + 1;
    }
    proof {
        assert(wanted.take(at as int) =~= wanted);
    }
    build_value(Parts::Array(items))
}

/// An optional map as JSON.
fn optional_map_value(map: &Option<StringMap>) -> (value: Value)
    ensures
        opt_map(*map) matches Some(m) ==> m.dom().finite(),
        same_json(json_of(value), map_json(opt_map(*map))),
        distinct_keys(json_of(value)),
{
    match map {
        Some(m) => m.to_value(),
        None => build_value(Parts::Null),
    }
}

impl ModelProviderAuthInfo {
    /// The JSON object with a member for each field, unless the path is no text.
    pub fn to_value(&self) -> (value: Result<Value, PathIsNoText>)
        ensures
            value is Ok <==> self@.has_json(),
            value is Ok <==> self.cwd is Text,
            value matches Ok(v) ==> json_of(v) == self@.json(),
    {
        proof {
            lemma_auth_names();
        }
        let cwd = match &self.cwd {
            DirPath::Text(text) => text_value(text),
            DirPath::Bytes(_) => return Err(PathIsNoText),
        };
        let members: Vec<(&str, Value)> = vec![
            ("command", text_value(&self.command)),
            ("args", texts_value(&self.args)),
            ("timeout_ms", number_value(self.timeout_ms.get())),
            ("refresh_interval_ms", number_value(self.refresh_interval_ms)),
            ("cwd", cwd),
        ];
        proof {
            assert(members@.map_values(|m: (&str, Value)| m.0@) =~= AuthCommand::names());
            assert(members@.map_values(|m: (&str, Value)| (m.0@, json_of(m.1)))
                =~= self@.json()->Object_0);
        }
        Ok(object_value(members))
    }
}

impl ModelProviderAwsAuthInfo {
    /// The JSON object with a member for each field.
    pub fn to_value(&self) -> (value: Value)
        ensures
            json_of(value) == self@.json(),
    {
        proof {
            lemma_aws_names();
        }
        let members: Vec<(&str, Value)> = vec![
            ("profile", optional_text_value(&self.profile)),
            ("region", optional_text_value(&self.region)),
        ];
        proof {
            assert(members@.map_values(|m: (&str, Value)| m.0@) =~= AwsCredentials::names());
            assert(members@.map_values(|m: (&str, Value)| (m.0@, json_of(m.1)))
                =~= self@.json()->Object_0);
        }
        object_value(members)
    }
}

/// An object with distinct keys has no key twice at any depth if its values have none.
proof fn lemma_distinct_object(keys: Seq<Seq<char>>, values: Seq<Json>)
    requires
        keys.no_duplicates(),
        keys.len() == values.len(),
        forall|i: int| 0 <= i < values.len() ==> distinct_keys(#[trigger] values[i]),
    ensures
        distinct_keys(object_json(keys, values)),
{
    let members = object_json(keys, values)->Object_0;
    assert(member_keys(members) =~= keys);
    assert forall|i: int| 0 <= i < members.len() implies distinct_keys((#[trigger] members[i]).1) by {
        assert(members[i].1 == values[i]);
    }
}

/// No object in the JSON form of a command has a key twice.
proof fn lemma_auth_json(auth: AuthCommand)
    ensures
        distinct_keys(auth.json()),
{
    lemma_auth_names();
    let args = auth.args.map_values(|arg: Seq<char>| Json::Text(arg));
    assert forall|i: int| 0 <= i < args.len() implies distinct_keys(#[trigger] args[i]) by {
        assert(args[i] == Json::Text(auth.args[i]));
    }
    assert(distinct_keys(Json::Array(args)));
    lemma_distinct_object(AuthCommand::names(), auth.fields());
}

/// No object in the JSON form of the AWS credentials has a key twice.
proof fn lemma_aws_json(aws: AwsCredentials)
    ensures
        distinct_keys(aws.json()),
{
    lemma_aws_names();
    lemma_distinct_object(AwsCredentials::names(), aws.fields());
}

/// No object in the JSON form of a map has a key twice.
proof fn lemma_map_json(map: Option<Map<Seq<char>, Seq<char>>>)
    requires
        map matches Some(m) ==> m.dom().finite(),
    ensures
        distinct_keys(map_json(map)),
{
    if let Some(m) = map {
        lemma_ordered_keys(m);
        let members = text_members(m);
        assert forall|i: int| 0 <= i < members.len() implies distinct_keys(
            (#[trigger] members[i]).1,
        ) by {
            assert(members[i].1 is Text);
        }
    }
}

/// No object in the JSON form of a configuration has a key twice.
pub proof fn lemma_config_json(config: ProviderConfig)
    requires
        config.finite(),
    ensures
        distinct_keys(config.json()),
{
    lemma_config_names();
    if let Some(auth) = config.auth {
        lemma_auth_json(auth);
    }
    if let Some(aws) = config.aws {
        lemma_aws_json(aws);
    }
    lemma_map_json(config.query_params);
    lemma_map_json(config.http_headers);
    lemma_map_json(config.env_http_headers);
    lemma_distinct_object(ProviderConfig::names(), config.fields());
}

impl ModelProviderInfo {
    /// The configuration as JSON, an object with a member for each field, unless
    /// the command's path is no text. The order of members is left open.
    pub fn to_value(&self) -> (value: Result<Value, PathIsNoText>)
        ensures
            self@.finite(),
            self.query_params matches Some(m) ==> m@.dom().finite(),
            self.http_headers matches Some(m) ==> m@.dom().finite(),
            self.env_http_headers matches Some(m) ==> m@.dom().finite(),
            value is Ok <==> self@.has_json(),
            value is Ok <==> (self.auth matches Some(auth) ==> auth.cwd is Text),
            value matches Ok(v) ==> same_json(json_of(v), self@.json()) && distinct_keys(
                json_of(v),
            ),
    {
        proof {
            lemma_config_names();
        }
        let query_params = optional_map_value(&self.query_params);
        let http_headers = optional_map_value(&self.http_headers);
        let env_http_headers = optional_map_value(&self.env_http_headers);
        let auth = match &self.auth {
            Some(auth) => match auth.to_value() {
                Ok(value) => value,
                Err(e) => return Err(e),
            },
            None => build_value(Parts::Null),
        };
        let aws = match &self.aws {
            Some(aws) => aws.to_value(),
            None => build_value(Parts::Null),
        };
        let members: Vec<(&str, Value)> = vec![
            ("name", text_value(&self.name)),
            ("base_url", optional_text_value(&self.base_url)),
            ("env_key", optional_text_value(&self.env_key)),
            ("env_key_instructions", optional_text_value(&self.env_key_instructions)),
            ("experimental_bearer_token", optional_text_value(&self.experimental_bearer_token)),
            ("auth", auth),
            ("aws", aws),
            ("wire_api", build_value(Parts::Text(self.wire_api.name()))),
            ("query_params", query_params),
            ("http_headers", http_headers),
            ("env_http_headers", env_http_headers),
            ("request_max_retries", optional_number_value(&self.request_max_retries)),
            ("stream_max_retries", optional_number_value(&self.stream_max_retries)),
            ("stream_idle_timeout_ms", optional_number_value(&self.stream_idle_timeout_ms)),
            (
                "websocket_connect_timeout_ms",
                optional_number_value(&self.websocket_connect_timeout_ms),
            ),
            ("requires_openai_auth", build_value(Parts::Bool(self.requires_openai_auth))),
            ("supports_websockets", build_value(Parts::Bool(self.supports_websockets))),
        ];
        let ghost made = members@.map_values(|m: (&str, Value)| (m.0@, json_of(m.1)));
        proof {
            assert(members@.map_values(|m: (&str, Value)| m.0@) =~= ProviderConfig::names());
            assert(member_keys(made) =~= ProviderConfig::names());
            let wanted = self@.json()->Object_0;
            assert(member_keys(wanted) =~= ProviderConfig::names());
            lemma_config_json(self@);
            if let Some(auth) = self@.auth {
                lemma_auth_json(auth);
                law_canonical_form_ignores_member_order(auth.json(), auth.json());
            }
            if let Some(aws) = self@.aws {
                lemma_aws_json(aws);
                law_canonical_form_ignores_member_order(aws.json(), aws.json());
            }
            assert forall|i: int| 0 <= i < made.len() implies same_json(
                (#[trigger] made[i]).1,
                member(wanted, made[i].0),
            ) && distinct_keys(made[i].1) by {
                lemma_member_at(wanted, i);
                assert(wanted[i] == (ProviderConfig::names()[i], self@.fields()[i]));
                assert(member_keys(made)[i] == made[i].0);
                assert(same_json(made[i].1, self@.fields()[i]));
            }
        }
        Ok(object_value(members))
    }

    /// Whether a command prints the provider's bearer token.
    pub fn has_command_auth(&self) -> (has: bool)
        ensures
            has == (self@.auth is Some),
            has == (self.auth is Some),
    {
        self.auth.is_some()
    }
}

impl Default for WireApi {
    fn default() -> (api: WireApi)
        ensures
            api == WireApi::Responses,
    {
        WireApi::Responses
    }
}

impl ProviderConfig {
    /// A configuration with an empty name and nothing set.
    pub open spec fn unset() -> ProviderConfig {
        ProviderConfig {
            name: Seq::empty(),
            base_url: None,
            env_key: None,
            env_key_instructions: None,
            experimental_bearer_token: None,
            auth: None,
            aws: None,
            wire_api: WireApi::Responses,
            query_params: None,
            http_headers: None,
            env_http_headers: None,
            request_max_retries: None,
            stream_max_retries: None,
            stream_idle_timeout_ms: None,
            websocket_connect_timeout_ms: None,
            requires_openai_auth: false,
            supports_websockets: false,
        }
    }
}

impl Default for ModelProviderInfo {
    fn default() -> (info: ModelProviderInfo)
        ensures
            info@ == ProviderConfig::unset(),
            info.name@.len() == 0,
            info.base_url is None,
            info.env_key is None,
            info.env_key_instructions is None,
            info.experimental_bearer_token is None,
            info.auth is None,
            info.aws is None,
            info.wire_api is Responses,
            info.query_params is None,
            info.http_headers is None,
            info.env_http_headers is None,
            info.request_max_retries is None,
            info.stream_max_retries is None,
            info.stream_idle_timeout_ms is None,
            info.websocket_connect_timeout_ms is None,
            !info.requires_openai_auth,
            !info.supports_websockets,
    {
        ModelProviderInfo {
            name: String::new(),
            base_url: None,
            env_key: None,
            env_key_instructions: None,
            experimental_bearer_token: None,
            auth: None,
            aws: None,
            wire_api: WireApi::default(),
            query_params: None,
            http_headers: None,
            env_http_headers: None,
            request_max_retries: None,
            stream_max_retries: None,
            stream_idle_timeout_ms: None,
            websocket_connect_timeout_ms: None,
            requires_openai_auth: false,
            supports_websockets: false,
        }
    }
}

impl Clone for DirPath {
    fn clone(&self) -> (copy: DirPath)
        ensures
            copy@ == self@,
    {
        match self {
            DirPath::Text(text) => DirPath::Text(text.clone()),
            DirPath::Bytes(bytes) => {
                let copied = bytes.clone();
                proof {
                    assert(copied@ =~= bytes@);
                }
                DirPath::Bytes(copied)
            },
        }
    }
}

impl Clone for ModelProviderAuthInfo {
    fn clone(&self) -> (copy: ModelProviderAuthInfo)
        ensures
            copy@ == self@,
    {
        let args = self.args.clone();
        proof {
            assert(texts_of(args@) =~= texts_of(self.args@));
        }
        ModelProviderAuthInfo {
            command: self.command.clone(),
            args,
            timeout_ms: self.timeout_ms,
            refresh_interval_ms: self.refresh_interval_ms,
            cwd: self.cwd.clone(),
        }
    }
}

impl Clone for ModelProviderAwsAuthInfo {
    fn clone(&self) -> (copy: ModelProviderAwsAuthInfo)
        ensures
            copy@ == self@,
    {
        ModelProviderAwsAuthInfo { profile: self.profile.clone(), region: self.region.clone() }
    }
}

impl Clone for ModelProviderInfo {
    fn clone(&self) -> (copy: ModelProviderInfo)
        ensures
            copy@ == self@,
    {
        ModelProviderInfo {
            name: self.name.clone(),
            base_url: self.base_url.clone(),
            env_key: self.env_key.clone(),
            env_key_instructions: self.env_key_instructions.clone(),
            experimental_bearer_token: self.experimental_bearer_token.clone(),
            auth: self.auth.clone(),
            aws: self.aws.clone(),
            wire_api: self.wire_api,
            query_params: self.query_params.clone(),
            http_headers: self.http_headers.clone(),
            env_http_headers: self.env_http_headers.clone(),
            request_max_retries: self.request_max_retries,
            stream_max_retries: self.stream_max_retries,
            stream_idle_timeout_ms: self.stream_idle_timeout_ms,
            websocket_connect_timeout_ms: self.websocket_connect_timeout_ms,
            requires_openai_auth: self.requires_openai_auth,
            supports_websockets: self.supports_websockets,
        }
    }
}

/// Objects with the same keys are the same but for order only if their values are.
proof fn lemma_same_object(keys: Seq<Seq<char>>, xs: Seq<Json>, ys: Seq<Json>)
    requires
        keys.no_duplicates(),
        keys.len() == xs.len() == ys.len(),
        same_json(object_json(keys, xs), object_json(keys, ys)),
    ensures
        forall|i: int| 0 <= i < keys.len() ==> same_json(#[trigger] xs[i], ys[i]),
{
    let ms = object_json(keys, xs)->Object_0;
    let ns = object_json(keys, ys)->Object_0;
    assert(member_keys(ns) =~= keys);
    assert forall|i: int| 0 <= i < keys.len() implies same_json(#[trigger] xs[i], ys[i]) by {
        lemma_member_at(ns, i);
        assert(ms[i].1 == xs[i] && ns[i].1 == ys[i] && ms[i].0 == ns[i].0);
    }
}

/// Commands with the same JSON form are the same.
proof fn lemma_auth_json_is_faithful(a: AuthCommand, b: AuthCommand)
    requires
        a.has_json(),
        b.has_json(),
        same_json(a.json(), b.json()),
    ensures
        a == b,
{
    lemma_auth_names();
    lemma_same_object(AuthCommand::names(), a.fields(), b.fields());
    let (xs, ys) = (a.fields(), b.fields());
    assert(same_json(xs[0], ys[0]));
    assert(same_json(xs[1], ys[1]));
    assert(same_json(xs[2], ys[2]));
    assert(same_json(xs[3], ys[3]));
    assert(same_json(xs[4], ys[4]));
    let a_args = xs[1]->Array_0;
    let b_args = ys[1]->Array_0;
    assert forall|i: int| 0 <= i < a.args.len() implies a.args[i] == b.args[i] by {
        assert(same_json(a_args[i], b_args[i]));
        assert(a_args[i] == Json::Text(a.args[i]) && b_args[i] == Json::Text(b.args[i]));
    }
    assert(a.args =~= b.args);
}

/// AWS credentials with the same JSON form are the same.
proof fn lemma_aws_json_is_faithful(a: AwsCredentials, b: AwsCredentials)
    requires
        same_json(a.json(), b.json()),
    ensures
        a == b,
{
    lemma_aws_names();
    lemma_same_object(AwsCredentials::names(), a.fields(), b.fields());
    let (xs, ys) = (a.fields(), b.fields());
    assert(same_json(xs[0], ys[0]));
    assert(same_json(xs[1], ys[1]));
}

/// Optional maps with the same JSON form are the same.
proof fn lemma_map_json_is_faithful(
    a: Option<Map<Seq<char>, Seq<char>>>,
    b: Option<Map<Seq<char>, Seq<char>>>,
)
    requires
        a matches Some(m) ==> m.dom().finite(),
        b matches Some(m) ==> m.dom().finite(),
        same_json(map_json(a), map_json(b)),
    ensures
        a == b,
{
    if let (Some(m), Some(n)) = (a, b) {
        lemma_ordered_keys(m);
        lemma_ordered_keys(n);
        let ms = text_members(m);
        let ns = text_members(n);
        assert forall|key: Seq<char>| #[trigger] m.contains_key(key) <==> n.contains_key(key) by {
            assert(ordered_keys(m).contains(key) <==> m.contains_key(key));
            assert(ordered_keys(n).contains(key) <==> n.contains_key(key));
            assert(member_keys(ms).contains(key) <==> member_keys(ns).contains(key));
        }
        assert forall|key: Seq<char>| m.contains_key(key) implies m[key] == n[key] by {
            lemma_text_member(m, key);
            lemma_text_member(n, key);
            let i = member_keys(ms).index_of(key);
            assert(member_keys(ms)[i] == key);
            assert(ms[i].0 == key && ms[i].1 == Json::Text(m[key]));
            assert(same_json(ms[i].1, member(ns, ms[i].0)));
        }
        assert(m =~= n);
    }
}

/// Two configurations that have a JSON form have the same canonical one exactly
/// when they are the same in every field.
pub proof fn law_canonical_config_is_faithful(a: ProviderConfig, b: ProviderConfig)
    requires
        a.finite(),
        b.finite(),
        a.has_json(),
        b.has_json(),
    ensures
        canonical(a.json()) == canonical(b.json()) <==> a == b,
{
    if canonical(a.json()) == canonical(b.json()) {
        lemma_config_json(a);
        lemma_config_json(b);
        law_canonical_form_ignores_member_order(a.json(), b.json());
        lemma_config_names();
        lemma_same_object(ProviderConfig::names(), a.fields(), b.fields());
        let (xs, ys) = (a.fields(), b.fields());
        assert(same_json(xs[0], ys[0]));
        assert(same_json(xs[1], ys[1]));
        assert(same_json(xs[2], ys[2]));
        assert(same_json(xs[3], ys[3]));
        assert(same_json(xs[4], ys[4]));
        assert(same_json(xs[5], ys[5]));
        assert(same_json(xs[6], ys[6]));
        assert(same_json(xs[8], ys[8]));
        assert(same_json(xs[9], ys[9]));
        assert(same_json(xs[10], ys[10]));
        assert(same_json(xs[11], ys[11]));
        assert(same_json(xs[12], ys[12]));
        assert(same_json(xs[13], ys[13]));
        assert(same_json(xs[14], ys[14]));
        assert(same_json(xs[15], ys[15]));
        assert(same_json(xs[16], ys[16]));
        if let (Some(x), Some(y)) = (a.auth, b.auth) {
            lemma_auth_json_is_faithful(x, y);
        }
        if let (Some(x), Some(y)) = (a.aws, b.aws) {
            lemma_aws_json_is_faithful(x, y);
        }
        lemma_map_json_is_faithful(a.query_params, b.query_params);
        lemma_map_json_is_faithful(a.http_headers, b.http_headers);
        lemma_map_json_is_faithful(a.env_http_headers, b.env_http_headers);
    }
}

/// The view of a configuration tells every field as it is.
pub proof fn law_view_tells_every_field(info: ModelProviderInfo)
    ensures
        info@.name == info.name@,
        info.base_url matches Some(x) ==> info@.base_url == Some(x@),
        info.base_url is None ==> info@.base_url is None,
        info.env_key matches Some(x) ==> info@.env_key == Some(x@),
        info.env_key is None ==> info@.env_key is None,
        info.env_key_instructions matches Some(x) ==> info@.env_key_instructions == Some(x@),
        info.env_key_instructions is None ==> info@.env_key_instructions is None,
        info.experimental_bearer_token matches Some(x) ==> info@.experimental_bearer_token == Some(x@),
        info.experimental_bearer_token is None ==> info@.experimental_bearer_token is None,
        info.query_params matches Some(x) ==> info@.query_params == Some(x@),
        info.query_params is None ==> info@.query_params is None,
        info.http_headers matches Some(x) ==> info@.http_headers == Some(x@),
        info.http_headers is None ==> info@.http_headers is None,
        info.env_http_headers matches Some(x) ==> info@.env_http_headers == Some(x@),
        info.env_http_headers is None ==> info@.env_http_headers is None,
        info.auth matches Some(x) ==> info@.auth == Some(x@),
        info.auth is None ==> info@.auth is None,
        info.aws matches Some(x) ==> info@.aws == Some(x@),
        info.aws is None ==> info@.aws is None,
        info@.wire_api == info.wire_api,
        info@.request_max_retries == info.request_max_retries,
        info@.stream_max_retries == info.stream_max_retries,
        info@.stream_idle_timeout_ms == info.stream_idle_timeout_ms,
        info@.websocket_connect_timeout_ms == info.websocket_connect_timeout_ms,
        info@.requires_openai_auth == info.requires_openai_auth,
        info@.supports_websockets == info.supports_websockets,
{
}

/// The view of a command tells every field as it is, a path as a text or as bytes.
pub proof fn law_view_tells_every_part_of_a_command(auth: ModelProviderAuthInfo)
    ensures
        auth@.command == auth.command@,
        auth@.args.len() == auth.args@.len(),
        forall|i: int| 0 <= i < auth.args@.len() ==> #[trigger] auth@.args[i] == auth.args@[i]@,
        auth@.timeout_ms == auth.timeout_ms@,
        auth@.refresh_interval_ms == auth.refresh_interval_ms,
        auth.cwd matches DirPath::Text(text) ==> auth@.cwd == PathContent::Text(text@),
        auth.cwd matches DirPath::Bytes(bytes) ==> auth@.cwd == PathContent::Bytes(bytes@),
{
}

/// The view of the AWS credentials tells both fields as they are.
pub proof fn law_view_tells_every_part_of_aws_credentials(aws: ModelProviderAwsAuthInfo)
    ensures
        aws.profile matches Some(x) ==> aws@.profile == Some(x@),
        aws.profile is None ==> aws@.profile is None,
        aws.region matches Some(x) ==> aws@.region == Some(x@),
        aws.region is None ==> aws@.region is None,
{
}

/// A member of an object with distinct keys is found by its key.
proof fn lemma_object_member(keys: Seq<Seq<char>>, values: Seq<Json>, i: int)
    requires
        keys.no_duplicates(),
        keys.len() == values.len(),
        0 <= i < keys.len(),
    ensures
        object_json(keys, values) is Object,
        object_json(keys, values)->Object_0.len() == keys.len(),
        member_keys(object_json(keys, values)->Object_0).contains(keys[i]),
        member(object_json(keys, values)->Object_0, keys[i]) == values[i],
{
    let members = object_json(keys, values)->Object_0;
    assert(member_keys(members) =~= keys);
    lemma_member_at(members, i);
}

/// The JSON form of the AWS credentials has two members: for each field a string
/// under its name, or null where it is not set.
pub proof fn law_aws_credentials_as_json(aws: AwsCredentials)
    ensures
        ({
            let members = aws.json()->Object_0;
            &&& aws.json() is Object
            &&& members.len() == 2
            &&& member_keys(members).contains("profile"@)
            &&& member_keys(members).contains("region"@)
            &&& aws.profile matches Some(t) ==> member(members, "profile"@) == Json::Text(t)
            &&& aws.profile is None ==> member(members, "profile"@) is Null
            &&& aws.region matches Some(t) ==> member(members, "region"@) == Json::Text(t)
            &&& aws.region is None ==> member(members, "region"@) is Null
        }),
{
    lemma_aws_names();
    lemma_object_member(AwsCredentials::names(), aws.fields(), 0);
    lemma_object_member(AwsCredentials::names(), aws.fields(), 1);
}

/// The JSON form of a command whose path is a text has five members: a string for
/// the command and the path, the arguments as strings in their order, and a number
/// for each time. A command has a JSON form exactly if its path is a text.
pub proof fn law_command_as_json(auth: AuthCommand)
    ensures
        auth.has_json() <==> auth.cwd is Text,
        ({
            let members = auth.json()->Object_0;
            let args = member(members, "args"@);
            &&& auth.json() is Object
            &&& members.len() == 5
            &&& member_keys(members).contains("command"@)
            &&& member_keys(members).contains("args"@)
            &&& member_keys(members).contains("timeout_ms"@)
            &&& member_keys(members).contains("refresh_interval_ms"@)
            &&& member_keys(members).contains("cwd"@)
            &&& member(members, "command"@) == Json::Text(auth.command)
            &&& args is Array
            &&& args->Array_0.len() == auth.args.len()
            &&& forall|i: int|
                0 <= i < auth.args.len() ==> #[trigger] args->Array_0[i] == Json::Text(auth.args[i])
            &&& member(members, "timeout_ms"@) == Json::Integer(auth.timeout_ms as int)
            &&& member(members, "refresh_interval_ms"@) == Json::Integer(
                auth.refresh_interval_ms as int,
            )
            &&& auth.cwd matches PathContent::Text(t) ==> member(members, "cwd"@) == Json::Text(t)
        }),
{
    lemma_auth_names();
    lemma_object_member(AuthCommand::names(), auth.fields(), 0);
    lemma_object_member(AuthCommand::names(), auth.fields(), 1);
    lemma_object_member(AuthCommand::names(), auth.fields(), 2);
    lemma_object_member(AuthCommand::names(), auth.fields(), 3);
    lemma_object_member(AuthCommand::names(), auth.fields(), 4);
}

/// A finite map as JSON is an object with the map's keys and, as strings, its
/// values; no map is null.
pub proof fn law_map_as_json(map: Map<Seq<char>, Seq<char>>)
    requires
        map.dom().finite(),
    ensures
        map_json(None) is Null,
        map_json(Some(map)) is Object,
        forall|key: Seq<char>| #[trigger]
            member_keys(map_json(Some(map))->Object_0).contains(key) <==> map.contains_key(key),
        forall|key: Seq<char>|
            map.contains_key(key) ==> #[trigger] member(map_json(Some(map))->Object_0, key)
                == Json::Text(map[key]),
{
    lemma_ordered_keys(map);
    assert forall|key: Seq<char>| #[trigger]
        member_keys(text_members(map)).contains(key) <==> map.contains_key(key) by {
        assert(ordered_keys(map).contains(key) <==> map.contains_key(key));
    }
    assert forall|key: Seq<char>| map.contains_key(key) implies #[trigger] member(
        text_members(map),
        key,
    ) == Json::Text(map[key]) by {
        lemma_text_member(map, key);
    }
}

/// The JSON form of a configuration has a member for each field, under the field's
/// name: a string, a number, a truth value or the field's own JSON form, and null
/// where an optional field is not set.
pub proof fn law_config_as_json(config: ProviderConfig)
    ensures
        ({
            let members = config.json()->Object_0;
            &&& config.json() is Object
            &&& members.len() == 17
            &&& member_keys(members).contains("name"@)
            &&& member_keys(members).contains("base_url"@)
            &&& member_keys(members).contains("env_key"@)
            &&& member_keys(members).contains("env_key_instructions"@)
            &&& member_keys(members).contains("experimental_bearer_token"@)
            &&& member_keys(members).contains("auth"@)
            &&& member_keys(members).contains("aws"@)
            &&& member_keys(members).contains("wire_api"@)
            &&& member_keys(members).contains("query_params"@)
            &&& member_keys(members).contains("http_headers"@)
            &&& member_keys(members).contains("env_http_headers"@)
            &&& member_keys(members).contains("request_max_retries"@)
            &&& member_keys(members).contains("stream_max_retries"@)
            &&& member_keys(members).contains("stream_idle_timeout_ms"@)
            &&& member_keys(members).contains("websocket_connect_timeout_ms"@)
            &&& member_keys(members).contains("requires_openai_auth"@)
            &&& member_keys(members).contains("supports_websockets"@)
            &&& member(members, "name"@) == Json::Text(config.name)
            &&& config.base_url matches Some(x) ==> member(members, "base_url"@) == Json::Text(x)
            &&& config.base_url is None ==> member(members, "base_url"@) is Null
            &&& config.env_key matches Some(x) ==> member(members, "env_key"@) == Json::Text(x)
            &&& config.env_key is None ==> member(members, "env_key"@) is Null
            &&& config.env_key_instructions matches Some(x)
                ==> member(members, "env_key_instructions"@) == Json::Text(x)
            &&& config.env_key_instructions is None
                ==> member(members, "env_key_instructions"@) is Null
            &&& config.experimental_bearer_token matches Some(x)
                ==> member(members, "experimental_bearer_token"@) == Json::Text(x)
            &&& config.experimental_bearer_token is None
                ==> member(members, "experimental_bearer_token"@) is Null
            &&& config.auth matches Some(x) ==> member(members, "auth"@) == x.json()
            &&& config.auth is None ==> member(members, "auth"@) is Null
            &&& config.aws matches Some(x) ==> member(members, "aws"@) == x.json()
            &&& config.aws is None ==> member(members, "aws"@) is Null
            &&& config.wire_api is Responses ==> member(members, "wire_api"@) == Json::Text(
                "responses"@,
            )
            &&& config.query_params matches Some(x)
                ==> member(members, "query_params"@) == map_json(Some(x))
            &&& config.query_params is None ==> member(members, "query_params"@) is Null
            &&& config.http_headers matches Some(x)
                ==> member(members, "http_headers"@) == map_json(Some(x))
            &&& config.http_headers is None ==> member(members, "http_headers"@) is Null
            &&& config.env_http_headers matches Some(x)
                ==> member(members, "env_http_headers"@) == map_json(Some(x))
            &&& config.env_http_headers is None ==> member(members, "env_http_headers"@) is Null
            &&& config.request_max_retries matches Some(x)
                ==> member(members, "request_max_retries"@) == Json::Integer(x as int)
            &&& config.request_max_retries is None
                ==> member(members, "request_max_retries"@) is Null
            &&& config.stream_max_retries matches Some(x)
                ==> member(members, "stream_max_retries"@) == Json::Integer(x as int)
            &&& config.stream_max_retries is None ==> member(members, "stream_max_retries"@) is Null
            &&& config.stream_idle_timeout_ms matches Some(x)
                ==> member(members, "stream_idle_timeout_ms"@) == Json::Integer(x as int)
            &&& config.stream_idle_timeout_ms is None
                ==> member(members, "stream_idle_timeout_ms"@) is Null
            &&& config.websocket_connect_timeout_ms matches Some(x)
                ==> member(members, "websocket_connect_timeout_ms"@) == Json::Integer(x as int)
            &&& config.websocket_connect_timeout_ms is None
                ==> member(members, "websocket_connect_timeout_ms"@) is Null
            &&& member(members, "requires_openai_auth"@) == Json::Bool(config.requires_openai_auth)
            &&& member(members, "supports_websockets"@) == Json::Bool(config.supports_websockets)
        }),
{
    lemma_config_names();
    let (names, fields) = (ProviderConfig::names(), config.fields());
    lemma_object_member(names, fields, 0);
    lemma_object_member(names, fields, 1);
    lemma_object_member(names, fields, 2);
    lemma_object_member(names, fields, 3);
    lemma_object_member(names, fields, 4);
    lemma_object_member(names, fields, 5);
    lemma_object_member(names, fields, 6);
    lemma_object_member(names, fields, 7);
    lemma_object_member(names, fields, 8);
    lemma_object_member(names, fields, 9);
    lemma_object_member(names, fields, 10);
    lemma_object_member(names, fields, 11);
    lemma_object_member(names, fields, 12);
    lemma_object_member(names, fields, 13);
    lemma_object_member(names, fields, 14);
    lemma_object_member(names, fields, 15);
    lemma_object_member(names, fields, 16);
}

/// A configuration has a JSON form whenever it has no command or the command's
/// path is a text, whatever its other fields hold, and in no other case. It counts
/// as its JSON form where it has one, and as null where it has none.
pub proof fn law_only_a_path_can_lack_a_json_form(config: ProviderConfig)
    ensures
        config.has_json() <==> (config.auth matches Some(auth) ==> auth.cwd is Text),
        (config.auth matches Some(auth) ==> auth.cwd is Text) ==> config.json_or_null()
            == config.json(),
        (config.auth matches Some(auth) && auth.cwd is Bytes) ==> config.json_or_null() is Null,
{
}

/// Two configurations have the same canonical JSON form exactly when they are the
/// same in every field, where neither has a command whose path is no text.
pub proof fn law_every_field_counts(a: ProviderConfig, b: ProviderConfig)
    requires
        a.query_params matches Some(m) ==> m.dom().finite(),
        a.http_headers matches Some(m) ==> m.dom().finite(),
        a.env_http_headers matches Some(m) ==> m.dom().finite(),
        b.query_params matches Some(m) ==> m.dom().finite(),
        b.http_headers matches Some(m) ==> m.dom().finite(),
        b.env_http_headers matches Some(m) ==> m.dom().finite(),
        a.auth matches Some(auth) ==> auth.cwd is Text,
        b.auth matches Some(auth) ==> auth.cwd is Text,
    ensures
        canonical(a.json_or_null()) == canonical(b.json_or_null()) <==> a == b,
{
    law_canonical_config_is_faithful(a, b);
}

} // verus!
