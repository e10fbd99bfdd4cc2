//! Calls to services outside the backend: chat completion at a model
//! provider, web search, and the placeholder image.
//!
//! The backend never touches the network. For each call it builds the
//! request to send and, once the caller has the answer, reads the reply out
//! of it.

use crate::error::{ApiError, ApiErrorView};
use crate::json::{element_of, items_of, member_of, text_of, views_of, Json, JsonView, Member};
use crate::model_config::{ModelConfig, Provider};
use base64::Engine;
use vstd::prelude::*;
use vstd::string::StringExecFns;
use vstd::utf8::encode_utf8;

verus! {

/// The HTTP methods that the backend uses.
#[derive(Debug, Clone, Copy, PartialEq, Eq, Structural)]
pub enum Method {
    Get,
    Post,
}

/// One header line of a request.
#[derive(Debug, PartialEq)]
pub struct Header {
    pub name: String,
    pub value: String,
}

impl View for Header {
    type V = (Seq<char>, Seq<char>);

    open spec fn view(&self) -> (Seq<char>, Seq<char>) {
        (self.name@, self.value@)
    }
}

/// A request for the caller to send upstream.
#[derive(Debug, PartialEq)]
pub struct HttpRequest {
    pub method: Method,
    pub url: String,
    /// A token to send as `Authorization: Bearer`.
    pub bearer_token: Option<String>,
    pub headers: Vec<Header>,
    /// A document to send as the JSON body.
    pub body: Option<Json>,
}

/// The mathematical value of an [`HttpRequest`].
pub struct HttpRequestView {
    pub method: Method,
    pub url: Seq<char>,
    pub bearer_token: Option<Seq<char>>,
    pub headers: Seq<(Seq<char>, Seq<char>)>,
    pub body: Option<JsonView>,
}

impl View for HttpRequest {
    type V = HttpRequestView;

    open spec fn view(&self) -> HttpRequestView {
        HttpRequestView {
            method: self.method,
            url: self.url@,
            bearer_token: match self.bearer_token {
                Some(token) => Some(token@),
                None => None,
            },
            headers: Seq::new(self.headers@.len(), |i: int| self.headers@[i]@),
            body: match self.body {
                Some(doc) => Some(doc@),
                None => None,
            },
        }
    }
}

/// Where OpenAI takes chat completions.
pub const OPENAI_URL: &'static str = "https://api.openai.com/v1/chat/completions";

/// Where Anthropic takes messages.
pub const ANTHROPIC_URL: &'static str = "https://api.anthropic.com/v1/messages";

/// The API version that the backend speaks with Anthropic.
pub const ANTHROPIC_VERSION: &'static str = "2023-06-01";

/// The reply length asked of Anthropic, in tokens.
pub const ANTHROPIC_MAX_TOKENS: i128 = 1024;

/// The text of the failure reported when an answer holds no reply.
pub const INVALID_RESPONSE: &'static str = "invalid response";

/// The single turn of a chat request: the prompt, said by the user.
pub open spec fn user_turn(prompt: Seq<char>) -> JsonView {
    JsonView::Object(
        seq![("role"@, JsonView::Text("user"@)), ("content"@, JsonView::Text(prompt))],
    )
}

/// The body of a chat request to OpenAI.
pub open spec fn openai_body(prompt: Seq<char>, model: JsonView) -> JsonView {
    JsonView::Object(
        seq![("model"@, model), ("messages"@, JsonView::Array(seq![user_turn(prompt)]))],
    )
}

/// The body of a chat request to Anthropic.
pub open spec fn anthropic_body(prompt: Seq<char>, model: JsonView) -> JsonView {
    JsonView::Object(
        seq![
            ("model"@, model),
            ("max_tokens"@, JsonView::Integer(ANTHROPIC_MAX_TOKENS as int)),
            ("messages"@, JsonView::Array(seq![user_turn(prompt)])),
        ],
    )
}

/// Whether chat completion reaches a provider.
pub open spec fn serves_chat(provider: Provider) -> bool {
    provider == Provider::OpenAI || provider == Provider::Anthropic
}

/// The request that asks `provider` to complete `prompt`, or `None` where
/// chat completion does not reach that provider. `model` is the model's
/// record as a JSON document.
pub open spec fn chat_request(
    api_key: Seq<char>,
    prompt: Seq<char>,
    provider: Provider,
    model: JsonView,
) -> Option<HttpRequestView> {
    match provider {
        Provider::OpenAI => Some(
            HttpRequestView {
                method: Method::Post,
                url: OPENAI_URL@,
                bearer_token: Some(api_key),
                headers: Seq::empty(),
                body: Some(openai_body(prompt, model)),
            },
        ),
        Provider::Anthropic => Some(
            HttpRequestView {
                method: Method::Post,
                url: ANTHROPIC_URL@,
                bearer_token: None,
                headers: seq![("x-api-key"@, api_key), ("anthropic-version"@, ANTHROPIC_VERSION@)],
                body: Some(anthropic_body(prompt, model)),
            },
        ),
        _ => None,
    }
}

/// The reply text in an answer from OpenAI: the string at
/// `choices[0].message.content`.
pub open spec fn openai_reply(answer: JsonView) -> Option<Seq<char>> {
    text_of(
        member_of(
            member_of(element_of(answer.member("choices"@), 0), "message"@),
            "content"@,
        ),
    )
}

/// The reply text in an answer from Anthropic: the string at
/// `content[0].text`.
pub open spec fn anthropic_reply(answer: JsonView) -> Option<Seq<char>> {
    text_of(member_of(element_of(answer.member("content"@), 0), "text"@))
}

/// The reply text in an answer from a provider, by the shape in which
/// that provider answers; none for a provider that chat completion does not
/// reach.
pub open spec fn reply_in(provider: Provider, answer: JsonView) -> Option<Seq<char>> {
    match provider {
        Provider::OpenAI => openai_reply(answer),
        Provider::Anthropic => anthropic_reply(answer),
        _ => None,
    }
}

/// What chat completion returns for the outcome of the upstream call. The
/// outcome is the answer as a JSON document, or the text of the failure
/// where the call failed or its answer was no JSON.
pub open spec fn chat_reply(provider: Provider, outcome: Result<JsonView, Seq<char>>) -> Result<
    Seq<char>,
    ApiErrorView,
> {
    if !serves_chat(provider) {
        Err(ApiErrorView::UnsupportedProvider)
    } else {
        match outcome {
            Err(failure) => Err(ApiErrorView::UpstreamError(failure)),
            Ok(answer) => match reply_in(provider, answer) {
                Some(text) => Ok(text),
                None => Err(ApiErrorView::UpstreamError(INVALID_RESPONSE@)),
            },
        }
    }
}

/// The value of the outcome of an upstream call.
pub open spec fn outcome_view(outcome: Result<Json, String>) -> Result<JsonView, Seq<char>> {
    match outcome {
        Ok(answer) => Ok(answer@),
        Err(failure) => Err(failure@),
    }
}

/// The value of what a call returns to its caller.
pub open spec fn reply_view(reply: Result<String, ApiError>) -> Result<Seq<char>, ApiErrorView> {
    match reply {
        Ok(text) => Ok(text@),
        Err(error) => Err(error@),
    }
}

/// Builds the one-turn message list of a chat request.
fn user_messages(prompt: String) -> (messages: Json)
    ensures
        messages@ == JsonView::Array(seq![user_turn(prompt@)]),
{
    let mut turn: Vec<Member> = Vec::new();
    turn.push(Member { key: String::from_str("role"), value: Json::Text(String::from_str("user")) });
    turn.push(Member { key: String::from_str("content"), value: Json::Text(prompt) });
    let mut turns: Vec<Json> = Vec::new();
    proof {
        Json::object_view(turn);
        assert(Json::Object(turn)@->Object_0 =~= user_turn(prompt@)->Object_0);
    }
    turns.push(Json::Object(turn));
    proof {
        Json::array_view(turns);
        assert(views_of(turns@) =~= seq![user_turn(prompt@)]);
    }
    Json::Array(turns)
}

/// Prepares a chat completion: the request to send to the model's provider.
///
/// OpenAI gets the key as a bearer token, Anthropic in its `x-api-key`
/// header together with the API version. Any other provider is refused with
/// `UnsupportedProvider`, and no request comes into being. `record` is the
/// model's record as a JSON document; it becomes the `model` member of the
/// body as it stands.
pub fn chat_completion(api_key: String, prompt: String, model: ModelConfig, record: Json) -> (prepared:
    Result<HttpRequest, ApiError>)
    ensures
        prepared is Ok <==> serves_chat(model@.provider),
        match prepared {
            Ok(request) => chat_request(api_key@, prompt@, model@.provider, record@) == Some(
                request@,
            ),
            Err(error) => error@ == ApiErrorView::UnsupportedProvider && chat_request(
                api_key@,
                prompt@,
                model@.provider,
                record@,
            ) is None,
        },
{
    match model.provider {
        Provider::OpenAI => {
            let mut body: Vec<Member> = Vec::new();
            body.push(Member { key: String::from_str("model"), value: record });
            body.push(Member { key: String::from_str("messages"), value: user_messages(prompt) });
            proof {
                Json::object_view(body);
                assert(Json::Object(body)@->Object_0 =~= openai_body(prompt@, record@)->Object_0);
            }
            let request = HttpRequest {
                method: Method::Post,
                url: String::from_str(OPENAI_URL),
                bearer_token: Some(api_key),
                headers: Vec::new(),
                body: Some(Json::Object(body)),
            };
            assert(request@.headers =~= Seq::empty());
            Ok(request)
        },
        Provider::Anthropic => {
            let mut headers: Vec<Header> = Vec::new();
            headers.push(Header { name: String::from_str("x-api-key"), value: api_key });
            headers.push(
                Header {
                    name: String::from_str("anthropic-version"),
                    value: String::from_str(ANTHROPIC_VERSION),
                },
            );
            let mut body: Vec<Member> = Vec::new();
            body.push(Member { key: String::from_str("model"), value: record });
            body.push(
                Member {
                    key: String::from_str("max_tokens"),
                    value: Json::Integer(ANTHROPIC_MAX_TOKENS),
                },
            );
            body.push(Member { key: String::from_str("messages"), value: user_messages(prompt) });
            proof {
                Json::object_view(body);
                assert(Json::Object(body)@->Object_0 =~= anthropic_body(
                    prompt@,
                    record@,
                )->Object_0);
            }
            let request = HttpRequest {
                method: Method::Post,
                url: String::from_str(ANTHROPIC_URL),
                bearer_token: None,
                headers,
                body: Some(Json::Object(body)),
            };
            assert(request@.headers =~= seq![
                ("x-api-key"@, api_key@),
                ("anthropic-version"@, ANTHROPIC_VERSION@),
            ]);
            Ok(request)
        },
        _ => Err(ApiError::UnsupportedProvider),
    }
}

/// Reads the reply text out of an answer from OpenAI.
fn read_openai_reply(answer: &Json) -> (reply: Option<String>)
    ensures
        match reply {
            Some(text) => openai_reply(answer@) == Some(text@),
            None => openai_reply(answer@) is None,
        },
{
    let choices = match answer.get("choices") {
        Some(choices) => choices,
        None => return None,
    };
    let first = match choices.at(0) {
        Some(first) => first,
        None => return None,
    };
    let message = match first.get("message") {
        Some(message) => message,
        None => return None,
    };
    let content = match message.get("content") {
        Some(content) => content,
        None => return None,
    };
    match content.as_str() {
        Some(text) => Some(String::from_str(text)),
        None => None,
    }
}

/// Reads the reply text out of an answer from Anthropic.
fn read_anthropic_reply(answer: &Json) -> (reply: Option<String>)
    ensures
        match reply {
            Some(text) => anthropic_reply(answer@) == Some(text@),
            None => anthropic_reply(answer@) is None,
        },
{
    let content = match answer.get("content") {
        Some(content) => content,
        None => return None,
    };
    let first = match content.at(0) {
        Some(first) => first,
        None => return None,
    };
    let text = match first.get("text") {
        Some(text) => text,
        None => return None,
    };
    match text.as_str() {
        Some(text) => Some(String::from_str(text)),
        None => None,
    }
}

/// Finishes a chat completion with the outcome of the upstream call.
///
/// `outcome` is the provider's answer as a JSON document, or the text of
/// the failure where the call failed or the answer was no JSON. The failure
/// is passed on word for word as `UpstreamError`; an answer without the
/// reply string in its place gives `UpstreamError("invalid response")`.
pub fn chat_completion_reply(provider: Provider, outcome: Result<Json, String>) -> (reply: Result<
    String,
    ApiError,
>)
    ensures
        reply_view(reply) == chat_reply(provider, outcome_view(outcome)),
{
    match provider {
        Provider::OpenAI => match outcome {
            Ok(answer) => match read_openai_reply(&answer) {
                Some(text) => Ok(text),
                None => Err(ApiError::UpstreamError(String::from_str(INVALID_RESPONSE))),
            },
            Err(failure) => Err(ApiError::UpstreamError(failure)),
        },
        Provider::Anthropic => match outcome {
            Ok(answer) => match read_anthropic_reply(&answer) {
                Some(text) => Ok(text),
                None => Err(ApiError::UpstreamError(String::from_str(INVALID_RESPONSE))),
            },
            Err(failure) => Err(ApiError::UpstreamError(failure)),
        },
        _ => Err(ApiError::UnsupportedProvider),
    }
}

/// Whether percent-encoding leaves a byte as it is: the byte of an ASCII
/// letter or digit or of one of the four marks `-`, `.`, `_`, `~`.
pub open spec fn is_unreserved(byte: u8) -> bool {
    let c = byte as char;
    ||| '0' <= c <= '9'
    ||| 'A' <= c <= 'Z'
    ||| 'a' <= c <= 'z'
    ||| c == '-'
    ||| c == '.'
    ||| c == '_'
    ||| c == '~'
}

/// The upper-case hexadecimal digit for a value below sixteen.
pub open spec fn hex_digit(value: u8) -> char {
    if value < 10 {
        ('0' as u8 + value) as u8 as char
    } else {
        ('A' as u8 + value - 10) as u8 as char
    }
}

/// The percent-encoding of one byte: the byte itself where it is
/// unreserved, else `%` and its two hexadecimal digits.
pub open spec fn percent_encoded_byte(byte: u8) -> Seq<char> {
    if is_unreserved(byte) {
        seq![byte as char]
    } else {
        seq!['%', hex_digit(byte / 16), hex_digit(byte % 16)]
    }
}

/// The percent-encoding of a run of bytes, byte by byte.
pub open spec fn percent_encoded(bytes: Seq<u8>) -> Seq<char>
    decreases bytes.len(),
{
    if bytes.len() == 0 {
        Seq::empty()
    } else {
        percent_encoded(bytes.drop_last()) + percent_encoded_byte(bytes.last())
    }
}

/// `urlencoding::encode`, made into an owned string. Claims what the
/// crate documents: over the UTF-8 bytes of `text`, every byte but ASCII
/// letters, digits and `-`, `.`, `_`, `~` is replaced by `%` and its two
/// upper-case hexadecimal digits, and the others stand as they are.
#[verifier::external_body]
fn percent_encode(text: &str) -> (encoded: String)
    ensures
        encoded@ == percent_encoded(encode_utf8(text@)),
{
    urlencoding::encode(text).into_owned()
}

/// The search service's address up to the query.
pub const SEARCH_URL_HEAD: &'static str = "https://api.duckduckgo.com/?q=";

/// The search service's address after the query.
pub const SEARCH_URL_TAIL: &'static str = "&format=json&no_redirect=1&no_html=1";

/// What stands between two snippets of a search summary.
pub const SNIPPET_SEPARATOR: &'static str = "\n";

/// How many related topics a search summary looks at.
pub const SEARCH_TOPICS: usize = 3;

/// The request that searches the web for `query`.
pub open spec fn search_request(query: Seq<char>) -> HttpRequestView {
    HttpRequestView {
        method: Method::Get,
        url: SEARCH_URL_HEAD@ + percent_encoded(encode_utf8(query)) + SEARCH_URL_TAIL@,
        bearer_token: None,
        headers: Seq::empty(),
        body: None,
    }
}

/// The snippets of a list of topics, in order: the `Text` member of each
/// topic that has one and has a string there.
pub open spec fn snippets(topics: Seq<JsonView>) -> Seq<Seq<char>>
    decreases topics.len(),
{
    if topics.len() == 0 {
        Seq::empty()
    } else {
        let before = snippets(topics.drop_last());
        match text_of(topics.last().member("Text"@)) {
            Some(text) => before.push(text),
            None => before,
        }
    }
}

/// The lines joined into one text, with `separator` between each two.
pub open spec fn joined(lines: Seq<Seq<char>>, separator: Seq<char>) -> Seq<char>
    decreases lines.len(),
{
    if lines.len() == 0 {
        Seq::empty()
    } else if lines.len() == 1 {
        lines[0]
    } else {
        joined(lines.drop_last(), separator) + separator + lines.last()
    }
}

/// The leading topics that a search summary looks at.
pub open spec fn leading_topics(topics: Seq<JsonView>) -> Seq<JsonView> {
    if topics.len() <= SEARCH_TOPICS {
        topics
    } else {
        topics.take(SEARCH_TOPICS as int)
    }
}

/// The summary of a search answer: the snippets of the leading entries of
/// its `RelatedTopics` array, one per line. Empty where the answer has no
/// such array.
pub open spec fn search_summary(answer: JsonView) -> Seq<char> {
    match items_of(answer.member("RelatedTopics"@)) {
        Some(topics) => joined(snippets(leading_topics(topics)), SNIPPET_SEPARATOR@),
        None => Seq::empty(),
    }
}

/// What web search returns for the outcome of the upstream call.
pub open spec fn search_reply(outcome: Result<JsonView, Seq<char>>) -> Result<
    Seq<char>,
    ApiErrorView,
> {
    match outcome {
        Ok(answer) => Ok(search_summary(answer)),
        Err(failure) => Err(ApiErrorView::UpstreamError(failure)),
    }
}

/// Prepares a web search: the request to send to the search service, with
/// the query percent-encoded into the address.
pub fn web_search(query: String) -> (request: HttpRequest)
    ensures
        request@ == search_request(query@),
{
    let encoded = percent_encode(query.as_str());
    let url = String::from_str(SEARCH_URL_HEAD).concat(encoded.as_str()).concat(SEARCH_URL_TAIL);
    let request = HttpRequest {
        method: Method::Get,
        url,
        bearer_token: None,
        headers: Vec::new(),
        body: None,
    };
    assert(request@.headers =~= Seq::empty());
    request
}

/// Sums up a search answer: the snippets of its first three related
/// topics, one per line.
pub fn summarize_search(answer: &Json) -> (summary: String)
    ensures
        summary@ == search_summary(answer@),
{
    let topics = match answer.get("RelatedTopics") {
        Some(related) => match related.as_array() {
            Some(topics) => topics,
            None => return String::new(),
        },
        None => return String::new(),
    };
    let limit = if topics.len() <= SEARCH_TOPICS {
        topics.len()
    } else {
        SEARCH_TOPICS
    };
    let ghost leading = leading_topics(views_of(topics@));
    let mut summary = String::new();
    let mut found: usize = 0;
    let mut i: usize = 0;
    while i < limit
        invariant
            i <= limit <= topics.len(),
            leading.len() == limit,
            forall|j: int| 0 <= j < limit ==> leading[j] == topics@[j]@,
            found == snippets(leading.take(i as int)).len(),
            found <= i,
            summary@ == joined(snippets(leading.take(i as int)), SNIPPET_SEPARATOR@),
        decreases limit - i,
    {
        let ghost before = leading.take(i as int);
        let ghost now = leading.take(i + 1);
        assert(now.drop_last() =~= before);
        assert(now.last() == topics@[i as int]@);
        let snippet = match topics[i].get("Text") {
            Some(text) => text.as_str(),
            None => None,
        };
        match snippet {
            Some(text) => {
                assert(snippets(now) == snippets(before).push(text@));
                assert(snippets(now).drop_last() =~= snippets(before));
                if found > 0 {
                    summary.append(SNIPPET_SEPARATOR);
                }
                summary.append(text);
                found += 1;
            },
            None => {
                assert(snippets(now) == snippets(before));
            },
        }
        i += 1;
    }
    assert(leading.take(limit as int) =~= leading);
    summary
}

/// Finishes a web search with the outcome of the upstream call.
///
/// `outcome` is the service's answer as a JSON document, or the text of the
/// failure where the call failed or the answer was no JSON; the failure is
/// passed on word for word as `UpstreamError`.
pub fn web_search_reply(outcome: Result<Json, String>) -> (reply: Result<String, ApiError>)
    ensures
        reply_view(reply) == search_reply(outcome_view(outcome)),
{
    match outcome {
        Ok(answer) => Ok(summarize_search(&answer)),
        Err(failure) => Err(ApiError::UpstreamError(failure)),
    }
}

/// The placeholder picture up to the prompt.
pub const SVG_HEAD: &'static str =
    "<svg xmlns='http://www.w3.org/2000/svg' width='256' height='256'><rect width='100%' height='100%' fill='blue'/><text x='50%' y='50%' dominant-baseline='middle' text-anchor='middle' font-size='20' fill='white'>";

/// The placeholder picture after the prompt.
pub const SVG_TAIL: &'static str = "</text></svg>";

/// What a data URI of an SVG picture in base64 begins with.
pub const DATA_URI_HEAD: &'static str = "data:image/svg+xml;base64,";

/// The base64 text of a run of bytes in the standard alphabet with padding,
/// as `base64::engine::general_purpose::STANDARD` encodes it.
pub uninterp spec fn base64_standard(bytes: Seq<u8>) -> Seq<char>;

/// `Engine::encode` of `base64::engine::general_purpose::STANDARD` on the
/// UTF-8 bytes of `text`. The result is a function of those bytes alone.
/// The call panics only where the encoded length overflows `usize`, which
/// no text in memory reaches.
#[verifier::external_body]
fn encode_base64(text: &str) -> (encoded: String)
    ensures
        encoded@ == base64_standard(encode_utf8(text@)),
{
    base64::engine::general_purpose::STANDARD.encode(text)
}

/// The placeholder picture for a prompt: a blue square with the prompt
/// written across it, as SVG markup.
pub open spec fn placeholder_markup(prompt: Seq<char>) -> Seq<char> {
    SVG_HEAD@ + prompt + SVG_TAIL@
}

/// Draws the placeholder picture for a prompt, as SVG markup.
pub fn placeholder_svg(prompt: &str) -> (markup: String)
    ensures
        markup@ == placeholder_markup(prompt@),
{
    String::from_str(SVG_HEAD).concat(prompt).concat(SVG_TAIL)
}

/// Wraps base64 text of an SVG picture into a data URI.
pub fn data_uri(encoded: &str) -> (uri: String)
    ensures
        uri@ == DATA_URI_HEAD@ + encoded@,
{
    String::from_str(DATA_URI_HEAD).concat(encoded)
}

/// Makes the picture for a prompt: the placeholder picture as a data URI.
pub fn generate_image(prompt: String) -> (uri: String)
    ensures
        uri@ == DATA_URI_HEAD@ + base64_standard(encode_utf8(placeholder_markup(prompt@))),
{
    let markup = placeholder_svg(prompt.as_str());
    let encoded = encode_base64(markup.as_str());
    data_uri(encoded.as_str())
}

/// A list of topics has at most one snippet for each topic.
pub proof fn lemma_snippets_are_few(topics: Seq<JsonView>)
    ensures
        snippets(topics).len() <= topics.len(),
    decreases topics.len(),
{
    if topics.len() > 0 {
        lemma_snippets_are_few(topics.drop_last());
    }
}

/// A search summary is made of at most three snippets, and is empty where
/// the answer has no related topics or none of the leading ones has a
/// snippet.
pub proof fn law_summary_takes_up_to_three_snippets(answer: JsonView)
    ensures
        match items_of(answer.member("RelatedTopics"@)) {
            Some(topics) => {
                &&& snippets(leading_topics(topics)).len() <= SEARCH_TOPICS
                &&& snippets(leading_topics(topics)).len() == 0 ==> search_summary(answer)
                    == Seq::<char>::empty()
            },
            None => search_summary(answer) == Seq::<char>::empty(),
        },
{
    match items_of(answer.member("RelatedTopics"@)) {
        Some(topics) => {
            lemma_snippets_are_few(leading_topics(topics));
        },
        None => {},
    }
}

} // verus!
