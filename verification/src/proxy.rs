//! The two ends of a request: what it asks for, and what the client gets back.

use crate::error::{ApiError, ApiErrorModel};
use crate::text;
use vstd::prelude::*;

verus! {

// ---------------------------------------------------------------------------
// Endpoints
// ---------------------------------------------------------------------------

/// What a client can ask the gateway for.
#[derive(Debug)]
pub enum Endpoint {
    ChatCompletions,
    Embeddings,
    AudioSpeech,
    /// Any other path under `/v1/`.
    Other(String),
}

impl Endpoint {
    /// The path below the base address of a provider.
    pub open spec fn upstream(self) -> Seq<char> {
        match self {
            Endpoint::ChatCompletions => "/chat/completions"@,
            Endpoint::Embeddings => "/embeddings"@,
            Endpoint::AudioSpeech => "/audio/speech"@,
            Endpoint::Other(path) => "/"@ + path@,
        }
    }

    /// The path below the base address of a provider.
    pub fn upstream_path(&self) -> (r: String)
        ensures
            r@ == self.upstream(),
    {
        match self {
            Endpoint::ChatCompletions => "/chat/completions".to_string(),
            Endpoint::Embeddings => "/embeddings".to_string(),
            Endpoint::AudioSpeech => "/audio/speech".to_string(),
            Endpoint::Other(path) => {
                let mut out = "/".to_string();
                out.append(path.as_str());
                out
            },
        }
    }
}

/// The content type to send upstream: the client's, or JSON where it named none.
pub open spec fn content_type_or_json(named: Option<Seq<char>>) -> Seq<char> {
    match named {
        Some(value) => value,
        None => "application/json"@,
    }
}

// ---------------------------------------------------------------------------
// The model that a request asks for
// ---------------------------------------------------------------------------

/// A member of a JSON object: its name, and its value where that is a string.
#[derive(Debug)]
pub struct JsonMember {
    pub name: String,
    pub text: Option<String>,
}

impl View for JsonMember {
    type V = (Seq<char>, Option<Seq<char>>);

    open spec fn view(&self) -> (Seq<char>, Option<Seq<char>>) {
        (self.name@, text::text_of(self.text))
    }
}

/// The mathematical values of a list of members.
pub open spec fn member_models(members: Seq<JsonMember>) -> Seq<(Seq<char>, Option<Seq<char>>)> {
    Seq::new(members.len(), |i: int| members[i]@)
}

/// The members of the JSON object that `serde_json::from_slice` reads from
/// `body`; nothing where it reads no object.
pub uninterp spec fn json_members(body: Seq<u8>) -> Option<Seq<(Seq<char>, Option<Seq<char>>)>>;

/// Calls `serde_json::from_slice`. The result holds the members of the object
/// that was read, in the order of serde_json's map, each with its value where
/// that is a string; nothing where the bytes are no JSON, or no object.
#[verifier::external_body]
fn read_members(body: &[u8]) -> (r: Option<Vec<JsonMember>>)
    ensures
        json_members(body@) == match r {
            Some(members) => Some(member_models(members@)),
            None => None,
        },
{
    match serde_json::from_slice::<serde_json::Value>(body) {
        Ok(serde_json::Value::Object(object)) => Some(
            object.into_iter().map(
                |(name, value)| match value {
                    serde_json::Value::String(text) => JsonMember { name, text: Some(text) },
                    _ => JsonMember { name, text: None },
                },
            ).collect(),
        ),
        _ => None,
    }
}

/// The string under `model`, where the first member of that name is one.
pub open spec fn model_among(members: Seq<(Seq<char>, Option<Seq<char>>)>) -> Option<Seq<char>>
    decreases members.len(),
{
    if members.len() == 0 {
        None
    } else if members[0].0 == "model"@ {
        members[0].1
    } else {
        model_among(members.skip(1))
    }
}

/// The model that a request with the given body asks for.
pub open spec fn requested_model(body: Seq<u8>) -> Option<Seq<char>> {
    if body.len() == 0 {
        None
    } else {
        match json_members(body) {
            Some(members) => model_among(members),
            None => None,
        }
    }
}

/// The string under `model`, if there is one.
pub fn model_of(members: &Vec<JsonMember>) -> (r: Option<String>)
    ensures
        text::text_of(r) == model_among(member_models(members@)),
{
    let mut i: usize = 0;
    let ghost models = member_models(members@);
    assert(models.skip(0) =~= models);
    while i < members.len()
        invariant
            models == member_models(members@),
            i <= members.len(),
            model_among(models) == model_among(models.skip(i as int)),
        decreases members.len() - i,
    {
        assert(models.skip(i as int)[0] == members@[i as int]@);
        if text::same_text(members[i].name.as_str(), "model") {
            return text::clone_text(&members[i].text);
        }
        assert(models.skip(i as int).skip(1) =~= models.skip(i + 1));
        i = i + 1;
    }
    None
}

/// The model that a request with the given body asks for, if it names one.
pub fn extract_model(body: &[u8]) -> (r: Option<String>)
    ensures
        text::text_of(r) == requested_model(body@),
{
    if body.len() == 0 {
        return None;
    }
    match read_members(body) {
        Some(members) => model_of(&members),
        None => None,
    }
}

// ---------------------------------------------------------------------------
// Passing a response on
// ---------------------------------------------------------------------------

/// Whether a number can be an HTTP status.
pub open spec fn valid_status(status: u16) -> bool {
    100 <= status <= 999
}

/// The status to answer with: the given one if it can be one, else the fallback.
pub open spec fn status_or(status: u16, fallback: u16) -> u16 {
    if valid_status(status) {
        status
    } else {
        fallback
    }
}

/// The status to pass on to the client.
pub fn forwarded_status(status: u16) -> (r: u16)
    ensures
        r == status_or(status, 200),
        valid_status(r),
{
    if 100 <= status && status <= 999 {
        status
    } else {
        200
    }
}

/// Whether a header of the upstream response is passed on.
pub open spec fn forwarded(name: Seq<char>) -> bool {
    ||| name == "content-type"@
    ||| name == "content-length"@
    ||| name == "transfer-encoding"@
    ||| name == "cache-control"@
    ||| name == "x-request-id"@
    ||| name == "openai-organization"@
    ||| name == "openai-processing-ms"@
    ||| name == "openai-version"@
}

/// Whether a header of the upstream response is passed on.
pub fn is_forwarded(name: &str) -> (r: bool)
    ensures
        r == forwarded(name@),
{
    text::same_text(name, "content-type") || text::same_text(name, "content-length")
        || text::same_text(name, "transfer-encoding") || text::same_text(name, "cache-control")
        || text::same_text(name, "x-request-id") || text::same_text(name, "openai-organization")
        || text::same_text(name, "openai-processing-ms") || text::same_text(name, "openai-version")
}

/// A header: its name and the bytes of its value.
#[derive(Debug)]
pub struct Header {
    pub name: String,
    pub value: Vec<u8>,
}

/// The value of the last header of the given name.
pub open spec fn last_value(headers: Seq<Header>, name: Seq<char>) -> Option<Seq<u8>>
    decreases headers.len(),
{
    if headers.len() == 0 {
        None
    } else if headers.last().name@ == name {
        Some(headers.last().value@)
    } else {
        last_value(headers.drop_last(), name)
    }
}

/// No name occurs twice.
pub open spec fn headers_differ(headers: Seq<Header>) -> bool {
    forall|i: int, j: int|
        0 <= i < j < headers.len() ==> (#[trigger] headers[i]).name@ != (#[trigger] headers[j]).name@
}

proof fn lemma_last_value_at(headers: Seq<Header>, i: int)
    requires
        headers_differ(headers),
        0 <= i < headers.len(),
    ensures
        last_value(headers, headers[i].name@) == Some(headers[i].value@),
    decreases headers.len(),
{
    if i < headers.len() - 1 {
        assert(headers[i].name@ != headers[headers.len() - 1].name@);
        assert forall|a: int, b: int| 0 <= a < b < headers.drop_last().len() implies (
        #[trigger] headers.drop_last()[a]).name@ != (#[trigger] headers.drop_last()[b]).name@ by {
            assert(headers[a].name@ != headers[b].name@);
        }
        lemma_last_value_at(headers.drop_last(), i);
    }
}

proof fn lemma_last_value_none(headers: Seq<Header>, name: Seq<char>)
    requires
        forall|i: int| 0 <= i < headers.len() ==> (#[trigger] headers[i]).name@ != name,
    ensures
        last_value(headers, name) is None,
    decreases headers.len(),
{
    if headers.len() > 0 {
        assert(headers[headers.len() - 1].name@ != name);
        assert forall|i: int| 0 <= i < headers.drop_last().len() implies (
        #[trigger] headers.drop_last()[i]).name@ != name by {
            assert(headers[i].name@ != name);
        }
        lemma_last_value_none(headers.drop_last(), name);
    }
}

proof fn lemma_last_value_is_at(headers: Seq<Header>, name: Seq<char>) -> (i: int)
    requires
        last_value(headers, name) is Some,
    ensures
        0 <= i < headers.len(),
        headers[i].name@ == name,
    decreases headers.len(),
{
    if headers.last().name@ == name {
        headers.len() - 1
    } else {
        lemma_last_value_is_at(headers.drop_last(), name)
    }
}

/// Replacing the value of one header, or adding one of a new name, changes
/// what is found under that name and nothing else.
proof fn lemma_header_put(before: Seq<Header>, after: Seq<Header>, at: int, header: Header)
    requires
        headers_differ(before),
        0 <= at <= before.len(),
        at < before.len() ==> before[at].name@ == header.name@ && after == before.update(at, header),
        at == before.len() ==> after == before.push(header) && (forall|i: int|
            0 <= i < before.len() ==> (#[trigger] before[i]).name@ != header.name@),
    ensures
        headers_differ(after),
        forall|name: Seq<char>| #[trigger]
            last_value(after, name) == if name == header.name@ {
                Some(header.value@)
            } else {
                last_value(before, name)
            },
{
    assert forall|i: int, j: int| 0 <= i < j < after.len() implies (#[trigger] after[i]).name@ != (
    #[trigger] after[j]).name@ by {
        if j < before.len() {
            assert(before[i].name@ != before[j].name@);
        }
    }
    lemma_last_value_at(after, at);
    assert forall|name: Seq<char>| name != header.name@ implies #[trigger] last_value(after, name)
        == last_value(before, name) by {
        if last_value(before, name) is Some {
            let i = lemma_last_value_is_at(before, name);
            lemma_last_value_at(before, i);
            assert(after[i] == before[i]);
            lemma_last_value_at(after, i);
        } else {
            assert forall|i: int| 0 <= i < after.len() implies (#[trigger] after[i]).name@ != name by {
                if i != at {
                    assert(after[i] == before[i]);
                    lemma_last_value_at(before, i);
                }
            }
            lemma_last_value_none(after, name);
        }
    }
}

fn clone_bytes(bytes: &Vec<u8>) -> (r: Vec<u8>)
    ensures
        r@ == bytes@,
{
    let mut out: Vec<u8> = Vec::new();
    for i in 0..bytes.len()
        invariant
            out@ == bytes@.take(i as int),
    {
        out.push(bytes[i]);
    }
    assert(bytes@.take(bytes@.len() as int) =~= bytes@);
    out
}

/// The headers to pass on to the client. Where the upstream response has
/// several of one name, the last one counts.
pub fn forwarded_headers(headers: &Vec<Header>) -> (r: Vec<Header>)
    ensures
        headers_differ(r@),
        forall|name: Seq<char>| #[trigger]
            last_value(r@, name) == if forwarded(name) {
                last_value(headers@, name)
            } else {
                None
            },
{
    let mut out: Vec<Header> = Vec::new();
    let mut i: usize = 0;
    assert(headers@.take(0) =~= Seq::empty());
    while i < headers.len()
        invariant
            i <= headers.len(),
            headers_differ(out@),
            forall|name: Seq<char>| #[trigger]
                last_value(out@, name) == if forwarded(name) {
                    last_value(headers@.take(i as int), name)
                } else {
                    None
                },
        decreases headers.len() - i,
    {
        proof {
            assert(headers@.take(i + 1).drop_last() =~= headers@.take(i as int));
            assert(headers@.take(i + 1).last() == headers@[i as int]);
        }
        if is_forwarded(headers[i].name.as_str()) {
            let header = Header {
                name: headers[i].name.clone(),
                value: clone_bytes(&headers[i].value),
            };
            let ghost before = out@;
            let mut at: usize = 0;
            while at < out.len() && !text::same_text(out[at].name.as_str(), header.name.as_str())
                invariant
                    at <= out.len(),
                    forall|j: int| 0 <= j < at ==> (#[trigger] out@[j]).name@ != header.name@,
                decreases out.len() - at,
            {
                at = at + 1;
            }
            let ghost put = header;
            if at < out.len() {
                out.set(at, header);
            } else {
                out.push(header);
            }
            proof {
                lemma_header_put(before, out@, at as int, put);
            }
        }
        i = i + 1;
    }
    assert(headers@.take(headers@.len() as int) =~= headers@);
    out
}

// ---------------------------------------------------------------------------
// Answering with an error
// ---------------------------------------------------------------------------

/// The value of a member of an error report.
#[derive(Debug, PartialEq, Eq)]
pub enum FieldValue {
    Text(String),
    Number(u64),
    Null,
}

/// What the value of a member is, as a mathematical value.
pub enum FieldModel {
    Text(Seq<char>),
    Number(int),
    Null,
}

impl View for FieldValue {
    type V = FieldModel;

    open spec fn view(&self) -> FieldModel {
        match *self {
            FieldValue::Text(t) => FieldModel::Text(t@),
            FieldValue::Number(n) => FieldModel::Number(n as int),
            FieldValue::Null => FieldModel::Null,
        }
    }
}

/// A member of an error report.
#[derive(Debug, PartialEq, Eq)]
pub struct Field {
    pub name: &'static str,
    pub value: FieldValue,
}

/// The answer to a request that no provider could fulfill: a status, and the
/// members of the JSON object under `error`.
#[derive(Debug)]
pub struct ErrorReply {
    pub status: u16,
    pub fields: Vec<Field>,
}

/// What an answer is, as a mathematical value.
pub struct ReplyModel {
    pub status: u16,
    pub fields: Seq<(Seq<char>, FieldModel)>,
}

impl View for ErrorReply {
    type V = ReplyModel;

    open spec fn view(&self) -> ReplyModel {
        ReplyModel {
            status: self.status,
            fields: Seq::new(
                self.fields@.len(),
                |i: int| (self.fields@[i].name@, self.fields@[i].value@),
            ),
        }
    }
}

/// What is reported of an error.
pub open spec fn report_on(e: ApiErrorModel) -> Seq<(Seq<char>, FieldModel)> {
    match e {
        ApiErrorModel::Auth { provider, status, body } => seq![
            ("type"@, FieldModel::Text("auth_error"@)),
            ("provider"@, FieldModel::Text(provider)),
            ("status"@, FieldModel::Number(status as int)),
            ("detail"@, FieldModel::Text(body)),
        ],
        ApiErrorModel::RateLimited { provider, retry_after_secs } => seq![
            ("type"@, FieldModel::Text("rate_limited"@)),
            ("provider"@, FieldModel::Text(provider)),
            (
                "retry_after_secs"@,
                match retry_after_secs {
                    Some(secs) => FieldModel::Number(secs as int),
                    None => FieldModel::Null,
                },
            ),
        ],
        ApiErrorModel::Timeout { provider, secs } => seq![
            ("type"@, FieldModel::Text("timeout"@)),
            ("provider"@, FieldModel::Text(provider)),
            ("timeout_secs"@, FieldModel::Number(secs as int)),
        ],
        ApiErrorModel::ServerError { provider, status, body } => seq![
            ("type"@, FieldModel::Text("server_error"@)),
            ("provider"@, FieldModel::Text(provider)),
            ("status"@, FieldModel::Number(status as int)),
            ("detail"@, FieldModel::Text(body)),
        ],
        ApiErrorModel::NetworkError { provider, msg } => seq![
            ("type"@, FieldModel::Text("network_error"@)),
            ("provider"@, FieldModel::Text(provider)),
            ("detail"@, FieldModel::Text(msg)),
        ],
        ApiErrorModel::EmptyResponse { provider } => seq![
            ("type"@, FieldModel::Text("empty_response"@)),
            ("provider"@, FieldModel::Text(provider)),
        ],
        ApiErrorModel::AllProvidersExhausted => seq![
            ("type"@, FieldModel::Text("all_providers_exhausted"@)),
            ("message"@, FieldModel::Text("no provider could fulfill this request"@)),
        ],
    }
}

/// The status of an answer to a request that no provider could fulfill.
pub const EXHAUSTED_STATUS: u16 = 503;

/// The answer to a request that no provider could fulfill, given the last error.
pub open spec fn reply_for(e: ApiErrorModel) -> ReplyModel {
    ReplyModel { status: EXHAUSTED_STATUS, fields: report_on(e) }
}

fn text_field(name: &'static str, value: &str) -> (r: Field)
    ensures
        r.name@ == name@,
        r.value@ == FieldModel::Text(value@),
{
    Field { name, value: FieldValue::Text(value.to_string()) }
}

fn number_field(name: &'static str, value: u64) -> (r: Field)
    ensures
        r.name@ == name@,
        r.value@ == FieldModel::Number(value as int),
{
    Field { name, value: FieldValue::Number(value) }
}

/// The answer to a request that no provider could fulfill, given the last error.
pub fn error_reply(e: &ApiError) -> (r: ErrorReply)
    ensures
        r@ == reply_for(e@),
{
    let fields: Vec<Field> = match e {
        ApiError::Auth { provider, status, body } => vec![
            text_field("type", "auth_error"),
            text_field("provider", provider.as_str()),
            number_field("status", *status as u64),
            text_field("detail", body.as_str()),
        ],
        ApiError::RateLimited { provider, retry_after_secs } => vec![
            text_field("type", "rate_limited"),
            text_field("provider", provider.as_str()),
            match retry_after_secs {
                Some(secs) => number_field("retry_after_secs", *secs),
                None => Field { name: "retry_after_secs", value: FieldValue::Null },
            },
        ],
        ApiError::Timeout { provider, secs } => vec![
            text_field("type", "timeout"),
            text_field("provider", provider.as_str()),
            number_field("timeout_secs", *secs),
        ],
        ApiError::ServerError { provider, status, body } => vec![
            text_field("type", "server_error"),
            text_field("provider", provider.as_str()),
            number_field("status", *status as u64),
            text_field("detail", body.as_str()),
        ],
        ApiError::NetworkError { provider, msg } => vec![
            text_field("type", "network_error"),
            text_field("provider", provider.as_str()),
            text_field("detail", msg.as_str()),
        ],
        ApiError::EmptyResponse { provider } => vec![
            text_field("type", "empty_response"),
            text_field("provider", provider.as_str()),
        ],
        ApiError::AllProvidersExhausted => vec![
            text_field("type", "all_providers_exhausted"),
            text_field("message", "no provider could fulfill this request"),
        ],
    };
    let r = ErrorReply { status: EXHAUSTED_STATUS, fields };
    assert(r@.fields =~= report_on(e@));
    r
}

// ---------------------------------------------------------------------------
// Laws
// ---------------------------------------------------------------------------

/// Whatever the last error was, the client learns that no provider could
/// fulfill the request: the status is 503.
pub proof fn exhaustion_is_answered_alike(e: ApiErrorModel)
    ensures
        reply_for(e).status == 503,
{
}

/// The answer names the class of the error first, and then the provider where
/// there is one.
pub proof fn answers_name_the_provider(e: ApiErrorModel)
    ensures
        reply_for(e).fields[0].0 == "type"@,
        !(e is AllProvidersExhausted) ==> reply_for(e).fields[1].0 == "provider"@,
{
}

/// Where each endpoint is found below the base address of a provider.
pub proof fn paths_of_the_endpoints(endpoint: Endpoint)
    ensures
        endpoint is ChatCompletions ==> endpoint.upstream() == "/chat/completions"@,
        endpoint is Embeddings ==> endpoint.upstream() == "/embeddings"@,
        endpoint is AudioSpeech ==> endpoint.upstream() == "/audio/speech"@,
        endpoint matches Endpoint::Other(path) ==> endpoint.upstream() == "/"@ + path@,
{
}

/// The content type is the one that the client named; JSON stands in for none.
pub proof fn content_type_is_kept(named: Seq<char>)
    ensures
        content_type_or_json(Some(named)) == named,
        content_type_or_json(None) == "application/json"@,
{
}

/// The model is found wherever it stands: the text of the first member named
/// `model` is the model asked for.
pub proof fn model_is_found_anywhere(members: Seq<(Seq<char>, Option<Seq<char>>)>, i: int)
    requires
        0 <= i < members.len(),
        members[i].0 == "model"@,
        forall|j: int| 0 <= j < i ==> (#[trigger] members[j]).0 != "model"@,
    ensures
        model_among(members) == members[i].1,
    decreases i,
{
    if i > 0 {
        assert(members[0].0 != "model"@);
        assert forall|j: int| 0 <= j < i - 1 implies (#[trigger] members.skip(1)[j]).0
            != "model"@ by {
            assert(members[j + 1].0 != "model"@);
        }
        model_is_found_anywhere(members.skip(1), i - 1);
    }
}

/// Without a member named `model`, no model is asked for.
pub proof fn no_member_no_model(members: Seq<(Seq<char>, Option<Seq<char>>)>)
    requires
        forall|j: int| 0 <= j < members.len() ==> (#[trigger] members[j]).0 != "model"@,
    ensures
        model_among(members) is None,
    decreases members.len(),
{
    if members.len() > 0 {
        assert(members[0].0 != "model"@);
        assert forall|j: int| 0 <= j < members.len() - 1 implies (#[trigger] members.skip(1)[j]).0
            != "model"@ by {
            assert(members[j + 1].0 != "model"@);
        }
        no_member_no_model(members.skip(1));
    }
}

/// The model of a body is the one among the members of its JSON object, where
/// it is one: the first member named `model` decides, wherever it stands. A
/// body that is empty or holds no object asks for none.
pub proof fn model_of_a_body(
    body: Seq<u8>,
    members: Seq<(Seq<char>, Option<Seq<char>>)>,
    i: int,
)
    ensures
        body.len() == 0 ==> requested_model(body) is None,
        json_members(body) is None ==> requested_model(body) is None,
        (body.len() > 0 && json_members(body) == Some(members) && 0 <= i < members.len()
            && members[i].0 == "model"@ && (forall|j: int|
            0 <= j < i ==> (#[trigger] members[j]).0 != "model"@)) ==> requested_model(body)
            == members[i].1,
        (json_members(body) == Some(members) && (forall|j: int|
            0 <= j < members.len() ==> (#[trigger] members[j]).0 != "model"@)) ==> requested_model(
            body,
        ) is None,
{
    if 0 <= i < members.len() && members[i].0 == "model"@ && (forall|j: int|
        0 <= j < i ==> (#[trigger] members[j]).0 != "model"@) {
        model_is_found_anywhere(members, i);
    }
    if forall|j: int| 0 <= j < members.len() ==> (#[trigger] members[j]).0 != "model"@ {
        no_member_no_model(members);
    }
}

/// A status from 100 to 999 is passed on as it is, and no other is.
pub proof fn statuses_are_passed_on(status: u16, fallback: u16)
    ensures
        100 <= status <= 999 ==> status_or(status, fallback) == status,
        status < 100 || status > 999 ==> status_or(status, fallback) == fallback,
        valid_status(status) <==> 100 <= status <= 999,
{
}

/// The headers that are passed on.
pub proof fn headers_that_are_passed_on(name: Seq<char>)
    ensures
        forwarded(name) <==> seq![
            "content-type"@,
            "content-length"@,
            "transfer-encoding"@,
            "cache-control"@,
            "x-request-id"@,
            "openai-organization"@,
            "openai-processing-ms"@,
            "openai-version"@,
        ].contains(name),
{
    let list = seq![
        "content-type"@,
        "content-length"@,
        "transfer-encoding"@,
        "cache-control"@,
        "x-request-id"@,
        "openai-organization"@,
        "openai-processing-ms"@,
        "openai-version"@,
    ];
    assert(list.len() == 8);
    assert(list[0] == "content-type"@ && list[1] == "content-length"@ && list[2]
        == "transfer-encoding"@ && list[3] == "cache-control"@);
    assert(list[4] == "x-request-id"@ && list[5] == "openai-organization"@ && list[6]
        == "openai-processing-ms"@ && list[7] == "openai-version"@);
}

/// The value of a header is that of the last one of its name.
pub proof fn last_header_counts(headers: Seq<Header>, i: int)
    requires
        0 <= i < headers.len(),
        forall|j: int| i < j < headers.len() ==> (#[trigger] headers[j]).name@ != headers[i].name@,
    ensures
        last_value(headers, headers[i].name@) == Some(headers[i].value@),
    decreases headers.len(),
{
    if i < headers.len() - 1 {
        assert(headers[headers.len() - 1].name@ != headers[i].name@);
        last_header_counts(headers.drop_last(), i);
    }
}

/// A header that is not there has no value.
pub proof fn missing_header_has_no_value(headers: Seq<Header>, name: Seq<char>)
    requires
        forall|j: int| 0 <= j < headers.len() ==> (#[trigger] headers[j]).name@ != name,
    ensures
        last_value(headers, name) is None,
{
    lemma_last_value_none(headers, name);
}

/// What the client is told of the last error: its class, the provider where
/// there is one, and what the error holds, under status 503.
pub proof fn reports_in_full(
    provider: Seq<char>,
    status: u16,
    wait: u64,
    secs: u64,
    text: Seq<char>,
)
    ensures
        reply_for(ApiErrorModel::Auth { provider, status, body: text }) == (ReplyModel {
            status: 503,
            fields: seq![
                ("type"@, FieldModel::Text("auth_error"@)),
                ("provider"@, FieldModel::Text(provider)),
                ("status"@, FieldModel::Number(status as int)),
                ("detail"@, FieldModel::Text(text)),
            ],
        }),
        reply_for(ApiErrorModel::RateLimited { provider, retry_after_secs: Some(wait) }) == (
        ReplyModel {
            status: 503,
            fields: seq![
                ("type"@, FieldModel::Text("rate_limited"@)),
                ("provider"@, FieldModel::Text(provider)),
                ("retry_after_secs"@, FieldModel::Number(wait as int)),
            ],
        }),
        reply_for(ApiErrorModel::RateLimited { provider, retry_after_secs: None }) == (ReplyModel {
            status: 503,
            fields: seq![
                ("type"@, FieldModel::Text("rate_limited"@)),
                ("provider"@, FieldModel::Text(provider)),
                ("retry_after_secs"@, FieldModel::Null),
            ],
        }),
        reply_for(ApiErrorModel::Timeout { provider, secs }) == (ReplyModel {
            status: 503,
            fields: seq![
                ("type"@, FieldModel::Text("timeout"@)),
                ("provider"@, FieldModel::Text(provider)),
                ("timeout_secs"@, FieldModel::Number(secs as int)),
            ],
        }),
        reply_for(ApiErrorModel::ServerError { provider, status, body: text }) == (ReplyModel {
            status: 503,
            fields: seq![
                ("type"@, FieldModel::Text("server_error"@)),
                ("provider"@, FieldModel::Text(provider)),
                ("status"@, FieldModel::Number(status as int)),
                ("detail"@, FieldModel::Text(text)),
            ],
        }),
        reply_for(ApiErrorModel::NetworkError { provider, msg: text }) == (ReplyModel {
            status: 503,
            fields: seq![
                ("type"@, FieldModel::Text("network_error"@)),
                ("provider"@, FieldModel::Text(provider)),
                ("detail"@, FieldModel::Text(text)),
            ],
        }),
        reply_for(ApiErrorModel::EmptyResponse { provider }) == (ReplyModel {
            status: 503,
            fields: seq![
                ("type"@, FieldModel::Text("empty_response"@)),
                ("provider"@, FieldModel::Text(provider)),
            ],
        }),
        reply_for(ApiErrorModel::AllProvidersExhausted) == (ReplyModel {
            status: 503,
            fields: seq![
                ("type"@, FieldModel::Text("all_providers_exhausted"@)),
                ("message"@, FieldModel::Text("no provider could fulfill this request"@)),
            ],
        }),
{
    assert(report_on(ApiErrorModel::RateLimited { provider, retry_after_secs: Some(wait) })
        =~= seq![
        ("type"@, FieldModel::Text("rate_limited"@)),
        ("provider"@, FieldModel::Text(provider)),
        ("retry_after_secs"@, FieldModel::Number(wait as int)),
    ]);
    assert(report_on(ApiErrorModel::RateLimited { provider, retry_after_secs: None }) =~= seq![
        ("type"@, FieldModel::Text("rate_limited"@)),
        ("provider"@, FieldModel::Text(provider)),
        ("retry_after_secs"@, FieldModel::Null),
    ]);
}

/// An answer holds what its model says, and so does a member of a JSON object.
pub proof fn models_of_answers(r: ErrorReply, v: FieldValue, m: JsonMember, ms: Seq<JsonMember>)
    ensures
        r@.status == r.status,
        r@.fields.len() == r.fields@.len(),
        forall|i: int|
            0 <= i < r.fields@.len() ==> (#[trigger] r@.fields[i]).0 == r.fields@[i].name@
                && r@.fields[i].1 == r.fields@[i].value@,
        v matches FieldValue::Text(t) ==> v@ == FieldModel::Text(t@),
        v matches FieldValue::Number(n) ==> v@ == FieldModel::Number(n as int),
        v is Null ==> v@ is Null,
        m@.0 == m.name@,
        m.text matches Some(t) ==> m@.1 == Some(t@),
        m.text is None ==> m@.1 is None,
        member_models(ms).len() == ms.len(),
        forall|i: int| 0 <= i < ms.len() ==> #[trigger] member_models(ms)[i] == ms[i]@,
{
}

} // verus!
