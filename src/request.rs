//! Turning an endpoint into a ready request: verb, URL and API-key header.
use vstd::prelude::*;

use crate::endpoint::{BinanceRequest, CommonEndpoint, Endpoint, TradeEndpoint, UserEndpoint};
use crate::error::BinanceError;
use crate::query::{field_text, lemma_query_text_push, query_text, stamped_text, FieldView};
use crate::text::decimal_of;
use crate::signing::{create_signature, signature_of};

verus! {

#[verifier::external_type_specification]
#[verifier::external_body]
pub struct ExParseError(url::ParseError);

/// The HTTP verbs that the exchange's REST API is called with.
#[derive(Debug, Clone, Copy, PartialEq, Eq, Structural)]
pub enum HttpMethod {
    Get,
    Post,
    Delete,
}

/// `c` is the lowercase ASCII letter `lower`, or its uppercase form.
pub open spec fn same_letter(c: char, lower: char) -> bool {
    c == lower || (c as u32) + 32 == (lower as u32)
}

/// `token` spells the lowercase word `word`, ignoring ASCII case.
pub open spec fn spells(token: Seq<char>, word: Seq<char>) -> bool {
    &&& token.len() == word.len()
    &&& forall|i: int| 0 <= i < token.len() ==> same_letter(token[i], word[i])
}

/// The verb that a token names, if it names one.
pub open spec fn method_of(token: Seq<char>) -> Option<HttpMethod> {
    if spells(token, seq!['g', 'e', 't']) {
        Some(HttpMethod::Get)
    } else if spells(token, seq!['p', 'o', 's', 't']) {
        Some(HttpMethod::Post)
    } else if spells(token, seq!['d', 'e', 'l', 'e', 't', 'e']) {
        Some(HttpMethod::Delete)
    } else {
        None
    }
}

fn spells_word(token: &str, word: &str) -> (r: bool)
    requires
        forall|i: int| 0 <= i < word@.len() ==> 'a' <= #[trigger] word@[i] <= 'z',
    ensures
        r == spells(token@, word@),
{
    let n = token.unicode_len();
    if n != word.unicode_len() {
        return false;
    }
    let mut i: usize = 0;
    while i < n
        invariant
            n == token@.len(),
            n == word@.len(),
            i <= n,
            forall|j: int| 0 <= j < i ==> same_letter(token@[j], word@[j]),
        decreases n - i,
    {
        let c = token.get_char(i);
        let w = word.get_char(i);
        if !(c == w || (c as u32 as u64) + 32 == (w as u32 as u64)) {
            return false;
        }
        i += 1;
    }
    true
}

/// Reads a verb token, ignoring ASCII case.
pub fn parse_method(token: &str) -> (r: Result<HttpMethod, BinanceError>)
    ensures
        match method_of(token@) {
            Some(m) => r == Ok::<HttpMethod, BinanceError>(m),
            None => r == Err::<HttpMethod, BinanceError>(BinanceError::UnsupportedMethod),
        },
{
    proof { lemma_verb_words(); }
    if spells_word(token, "get") {
        Ok(HttpMethod::Get)
    } else if spells_word(token, "post") {
        Ok(HttpMethod::Post)
    } else if spells_word(token, "delete") {
        Ok(HttpMethod::Delete)
    } else {
        Err(BinanceError::UnsupportedMethod)
    }
}

/// The URL that `reference` resolves to against the URL `base`, when `base`
/// parses and the resolution succeeds.
pub uninterp spec fn joined_url_of(base: Seq<char>, reference: Seq<char>) -> Option<Seq<char>>;

/// Relies on url's `Url::parse` and `Url::join`: parse `base`, resolve
/// `reference` against it by URL-reference resolution, serialize the result.
#[verifier::external_body]
fn join_url(base: &str, reference: &str) -> (r: Result<String, url::ParseError>)
    ensures
        r is Ok <==> joined_url_of(base@, reference@) is Some,
        r is Ok ==> joined_url_of(base@, reference@) == Some(r.unwrap()@),
{
    let joined = url::Url::parse(base)?.join(reference)?;
    Ok(joined.to_string())
}

/// `url?query`.
pub open spec fn url_with_query(url: Seq<char>, query: Seq<char>) -> Seq<char> {
    url + seq!['?'] + query
}

/// Attaches `query` unchanged to a joined URL: `url?query`.
pub fn attach_query(url: String, query: &str) -> (r: String)
    ensures
        r@ == url_with_query(url@, query@),
{
    let mut u = url;
    proof { reveal_strlit("?"); }
    u.append("?");
    u.append(query);
    u
}

/// Joins `path` onto `base` and attaches `query` unchanged.
pub fn build_url(base: &str, path: &str, query: &str) -> (r: Result<String, BinanceError>)
    ensures
        match joined_url_of(base@, path@) {
            Some(u) => r is Ok && r.unwrap()@ == url_with_query(u, query@),
            None => r == Err::<String, BinanceError>(BinanceError::UrlConstruction),
        },
{
    match join_url(base, path) {
        Ok(url) => Ok(attach_query(url, query)),
        Err(_) => Err(BinanceError::UrlConstruction),
    }
}

/// A request ready to be sent: its verb, its full URL and, for a signed
/// request, the API key that travels in the `X-MBX-APIKEY` header.
#[derive(Debug)]
pub struct PreparedRequest {
    pub method: HttpMethod,
    pub url: String,
    pub api_key: Option<String>,
}

/// What a prepared request holds, as plain values.
pub type PreparedView = (HttpMethod, Seq<char>, Option<Seq<char>>);

pub open spec fn option_text(o: Option<String>) -> Option<Seq<char>> {
    match o {
        Some(s) => Some(s@),
        None => None,
    }
}

impl View for PreparedRequest {
    type V = PreparedView;

    open spec fn view(&self) -> PreparedView {
        (self.method, self.url@, option_text(self.api_key))
    }
}

/// The view of an attempt to prepare a request.
pub open spec fn outcome_view(r: Result<PreparedRequest, BinanceError>) -> Result<PreparedView, BinanceError> {
    match r {
        Ok(p) => Ok(p@),
        Err(e) => Err(e),
    }
}

/// A request with a known verb: it is ready when the path joins onto the origin.
pub open spec fn sent(
    method: HttpMethod,
    origin: Seq<char>,
    path: Seq<char>,
    query: Seq<char>,
    api_key: Option<Seq<char>>,
) -> Result<PreparedView, BinanceError> {
    match joined_url_of(origin, path) {
        None => Err(BinanceError::UrlConstruction),
        Some(u) => Ok((method, url_with_query(u, query), api_key)),
    }
}

/// What preparing a request gives: the verb is checked first, then the URL
/// is formed; nothing is sent either way.
pub open spec fn prepared(
    method: Seq<char>,
    origin: Seq<char>,
    path: Seq<char>,
    query: Seq<char>,
    api_key: Option<Seq<char>>,
) -> Result<PreparedView, BinanceError> {
    match method_of(method) {
        None => Err(BinanceError::UnsupportedMethod),
        Some(m) => sent(m, origin, path, query, api_key),
    }
}

/// The lowercase verb words, character by character.
pub(crate) proof fn lemma_verb_words()
    ensures
        "get"@ == seq!['g', 'e', 't'],
        "post"@ == seq!['p', 'o', 's', 't'],
        "delete"@ == seq!['d', 'e', 'l', 'e', 't', 'e'],
{
    reveal_strlit("get");
    reveal_strlit("post");
    reveal_strlit("delete");
    assert("get"@ =~= seq!['g', 'e', 't']);
    assert("post"@ =~= seq!['p', 'o', 's', 't']);
    assert("delete"@ =~= seq!['d', 'e', 'l', 'e', 't', 'e']);
}

/// The verb tokens that the clients use name the verbs that they spell.
pub(crate) proof fn lemma_verb_tokens()
    ensures
        method_of("get"@) == Some(HttpMethod::Get),
        method_of("post"@) == Some(HttpMethod::Post),
        method_of("delete"@) == Some(HttpMethod::Delete),
{
    lemma_verb_words();
    assert(!spells("post"@, seq!['g', 'e', 't']));
    assert(!spells("delete"@, seq!['g', 'e', 't']));
    assert(!spells("delete"@, seq!['p', 'o', 's', 't']));
}

/// Prepares a request from its parts.
pub fn prepare(method: &str, origin: &str, path: &str, query: &str, api_key: Option<String>) -> (r: Result<PreparedRequest, BinanceError>)
    ensures
        outcome_view(r) == prepared(method@, origin@, path@, query@, option_text(api_key)),
{
    let m = match parse_method(method) {
        Ok(m) => m,
        Err(e) => return Err(e),
    };
    match build_url(origin, path, query) {
        Ok(url) => Ok(PreparedRequest { method: m, url, api_key }),
        Err(e) => Err(e),
    }
}

/// A stamped query followed by `&signature=<hex>`, where the signature is
/// computed over the stamped query, timestamp included.
pub open spec fn signed_text(stamped: Seq<char>, secret: Seq<char>) -> Seq<char> {
    stamped + seq!['&'] + field_text(("signature"@, signature_of(secret, stamped)))
}

/// Appends `&signature=<signature>` to a query string.
pub fn append_signature(query: String, signature: &str) -> (r: String)
    ensures
        r@ == query@ + seq!['&'] + field_text(("signature"@, signature@)),
{
    let mut q = query;
    proof {
        reveal_strlit("&signature=");
        reveal_strlit("signature");
        assert("&signature="@ =~= seq!['&'] + "signature"@ + seq!['=']);
    }
    q.append("&signature=");
    q.append(signature);
    proof {
        assert(q@ =~= query@ + seq!['&'] + field_text(("signature"@, signature@)));
    }
    q
}

/// Prepares a public request: the endpoint's query as it is, no timestamp,
/// no signature and no API key.
pub fn request<T: Endpoint>(method: &str, model: &BinanceRequest<T>) -> (r: Result<PreparedRequest, BinanceError>)
    ensures
        outcome_view(r) == prepared(
            method@,
            model.base_url.spec_origin(),
            model.endpoint_url.spec_path(),
            query_text(model.endpoint_url.spec_fields()),
            None,
        ),
{
    let origin = model.base_url();
    let path = model.path();
    let query = model.query();
    prepare(method, origin.as_str(), path.as_str(), query.as_str(), None)
}

/// Signs an already stamped query with `secret_key` and prepares the request
/// that sends it with the API key.
pub fn sign_and_prepare(
    method: &str,
    secret_key: &str,
    api_key: &str,
    origin: &str,
    path: &str,
    stamped: String,
) -> (r: Result<PreparedRequest, BinanceError>)
    ensures
        outcome_view(r) == prepared(
            method@,
            origin@,
            path@,
            signed_text(stamped@, secret_key@),
            Some(api_key@),
        ),
{
    let m = match parse_method(method) {
        Ok(m) => m,
        Err(e) => return Err(e),
    };
    let signature = match create_signature(secret_key, stamped.as_str()) {
        Ok(s) => s,
        Err(e) => return Err(e),
    };
    let query = append_signature(stamped, signature.as_str());
    match build_url(origin, path, query.as_str()) {
        Ok(url) => Ok(PreparedRequest { method: m, url, api_key: Some(String::from_str(api_key)) }),
        Err(e) => Err(e),
    }
}

/// Prepares a signed request: the endpoint's query, then `&timestamp=<ms>`,
/// then `&signature=<hex>` over both; the API key goes with it.
pub fn request_with_signature<T: Endpoint>(
    method: &str,
    secret_key: &str,
    api_key: &str,
    model: &BinanceRequest<T>,
    timestamp_ms: u64,
) -> (r: Result<PreparedRequest, BinanceError>)
    ensures
        outcome_view(r) == prepared(
            method@,
            model.base_url.spec_origin(),
            model.endpoint_url.spec_path(),
            signed_text(
                stamped_text(query_text(model.endpoint_url.spec_fields()), timestamp_ms as nat),
                secret_key@,
            ),
            Some(api_key@),
        ),
{
    let stamped = model.query_with_timestamp(timestamp_ms);
    let origin = model.base_url();
    let path = model.path();
    sign_and_prepare(method, secret_key, api_key, origin.as_str(), path.as_str(), stamped)
}

/// No field of the list is named `timestamp` or `signature`.
pub open spec fn has_no_auth_fields(fields: Seq<FieldView>) -> bool {
    forall|i: int| 0 <= i < fields.len() ==> fields[i].0 != "timestamp"@ && fields[i].0 != "signature"@
}

proof fn lemma_field_names_differ_from_auth()
    ensures
        "timestamp"@.len() == 9,
        "signature"@.len() == 9,
        "symbol"@.len() == 6,
        "interval"@.len() == 8,
        "limit"@.len() == 5,
        "leverage"@.len() == 8,
        "side"@.len() == 4,
        "type"@.len() == 4,
        "time_in_force"@.len() == 13,
        "quantity"@.len() == 8,
        "price"@.len() == 5,
        "stop_price"@.len() == 10,
        "callback_rate"@.len() == 13,
{
    reveal_strlit("timestamp");
    reveal_strlit("signature");
    reveal_strlit("symbol");
    reveal_strlit("interval");
    reveal_strlit("limit");
    reveal_strlit("leverage");
    reveal_strlit("side");
    reveal_strlit("type");
    reveal_strlit("time_in_force");
    reveal_strlit("quantity");
    reveal_strlit("price");
    reveal_strlit("stop_price");
    reveal_strlit("callback_rate");
}

/// No market-data endpoint has a field named `timestamp` or `signature`.
pub proof fn lemma_common_fields_unauthenticated(e: CommonEndpoint)
    ensures
        has_no_auth_fields(e.spec_fields()),
{
    lemma_field_names_differ_from_auth();
}

/// No account endpoint has a field named `timestamp` or `signature` of its own.
pub proof fn lemma_user_fields_unauthenticated(e: UserEndpoint)
    ensures
        has_no_auth_fields(e.spec_fields()),
{
    lemma_field_names_differ_from_auth();
}

/// No trading endpoint has a field named `timestamp` or `signature` of its own.
pub proof fn lemma_trade_fields_unauthenticated(e: TradeEndpoint)
    ensures
        has_no_auth_fields(e.spec_fields()),
{
    lemma_field_names_differ_from_auth();
}

/// The fields that a signed request carries for an endpoint with fields:
/// the endpoint's own, then `timestamp`, then `signature` over the text of
/// everything before it.
pub open spec fn signed_fields(fields: Seq<FieldView>, secret: Seq<char>, timestamp_ms: nat) -> Seq<FieldView> {
    let stamped = fields.push(("timestamp"@, decimal_of(timestamp_ms)));
    stamped.push(("signature"@, signature_of(secret, query_text(stamped))))
}

/// The query of a signed request is the endpoint's query, then one
/// `timestamp` parameter, then one `signature` parameter, last, whose value
/// signs the text before it: the timestamp included, the signature itself not.
/// For an endpoint with fields, that text is the query of the field list
/// above, in which `timestamp` and `signature` each occur exactly once.
pub proof fn lemma_signed_query(fields: Seq<FieldView>, secret: Seq<char>, timestamp_ms: nat)
    requires
        has_no_auth_fields(fields),
    ensures
        ({
            let stamped = stamped_text(query_text(fields), timestamp_ms);
            &&& stamped == query_text(fields) + seq!['&'] + field_text(("timestamp"@, decimal_of(timestamp_ms)))
            &&& signed_text(stamped, secret) == stamped + seq!['&']
                + field_text(("signature"@, signature_of(secret, stamped)))
        }),
        fields.len() > 0 ==> ({
            let signed = signed_fields(fields, secret, timestamp_ms);
            let n = fields.len() as int;
            &&& query_text(signed) == signed_text(stamped_text(query_text(fields), timestamp_ms), secret)
            &&& signed.len() == n + 2
            &&& signed.take(n) == fields
            &&& signed[n] == ("timestamp"@, decimal_of(timestamp_ms))
            &&& signed[n + 1] == ("signature"@, signature_of(secret, query_text(signed.take(n + 1))))
            &&& forall|i: int| 0 <= i < signed.len() ==> (signed[i].0 == "timestamp"@ <==> i == n)
            &&& forall|i: int| 0 <= i < signed.len() ==> (signed[i].0 == "signature"@ <==> i == n + 1)
        }),
{
    reveal_strlit("timestamp");
    reveal_strlit("signature");
    assert("timestamp"@[0] != "signature"@[0]);
    if fields.len() > 0 {
        let ts = ("timestamp"@, decimal_of(timestamp_ms));
        let stamped = fields.push(ts);
        let signed = signed_fields(fields, secret, timestamp_ms);
        let n = fields.len() as int;
        lemma_query_text_push(fields, ts);
        assert(query_text(stamped) =~= stamped_text(query_text(fields), timestamp_ms));
        lemma_query_text_push(stamped, signed[n + 1]);
        assert(signed == stamped.push(signed[n + 1]));
        assert(signed.take(n) =~= fields);
        assert(signed.take(n + 1) =~= stamped);
    }
}

} // verus!
