//! Obtaining the WebSocket endpoint: the connection-open request's
//! credential header, the reading of its answer, and the endpoint's host.
use vstd::prelude::*;

use crate::json::{find, get_opt_str, lookup, opt_str_at, opt_view, Json};
use crate::RunError;

verus! {

/// The `Authorization` header value for a bearer credential.
pub open spec fn bearer_of(token: Seq<char>) -> Seq<char> {
    "Bearer "@ + token
}

/// Builds the `Authorization` header value `Bearer <token>`.
pub fn authorization_value(token: &str) -> (r: String)
    ensures
        r@ == bearer_of(token@),
{
    let mut value = String::from_str("Bearer ");
    value.append(token);
    value
}

/// The connection-open answer: a success flag, the endpoint URL and the
/// platform's error string, each as received.
#[derive(Debug, Clone)]
pub struct OpenResponse {
    pub ok: bool,
    pub url: Option<String>,
    pub error: Option<String>,
}

/// The answer's `ok` member, which must be a boolean.
pub open spec fn ok_flag(j: Json) -> Option<bool> {
    match j {
        Json::Object(m) => match lookup(m@, "ok"@) {
            Some(Json::Bool(b)) => Some(b),
            _ => None,
        },
        _ => None,
    }
}

/// Whether a parsed answer has the shape `{ok: bool, url?: string, error?: string}`.
pub open spec fn open_response_ok(j: Json) -> bool {
    &&& ok_flag(j) is Some
    &&& opt_str_at(j->Object_0@, "url"@) is Some
    &&& opt_str_at(j->Object_0@, "error"@) is Some
}

/// Reads a parsed connection-open answer.
pub fn decode_open_response(j: &Json) -> (r: Option<OpenResponse>)
    ensures
        r is Some <==> open_response_ok(*j),
        r matches Some(resp) ==> {
            &&& ok_flag(*j) == Some(resp.ok)
            &&& opt_str_at(j->Object_0@, "url"@) == Some(opt_view(resp.url))
            &&& opt_str_at(j->Object_0@, "error"@) == Some(opt_view(resp.error))
        },
{
    let m = match j {
        Json::Object(m) => m,
        _ => return None,
    };
    let ok = match find(m, "ok") {
        Some(Json::Bool(b)) => *b,
        _ => return None,
    };
    let url = match get_opt_str(m, "url") {
        Some(u) => u,
        None => return None,
    };
    let error = match get_opt_str(m, "error") {
        Some(e) => e,
        None => return None,
    };
    Some(OpenResponse { ok, url, error })
}

/// What a connection-open answer means.
#[derive(Debug, Clone)]
pub enum Opened {
    /// A fresh single-use endpoint URL.
    Endpoint(String),
    /// The platform refused, with its error string if it gave one.
    Rejected(Option<String>),
    /// The platform reported success but sent no URL: a broken protocol
    /// invariant, not an outcome to recover from.
    MissingUrl,
}

/// The meaning of a connection-open answer.
pub open spec fn opened_of(resp: OpenResponse) -> Opened {
    if !resp.ok {
        Opened::Rejected(resp.error)
    } else {
        match resp.url {
            Some(u) => Opened::Endpoint(u),
            None => Opened::MissingUrl,
        }
    }
}

/// Reads a connection-open answer: a refusal carries the platform's error
/// string; a success must carry a URL.
pub fn interpret_open_response(resp: OpenResponse) -> (r: Opened)
    ensures
        r == opened_of(resp),
{
    if !resp.ok {
        Opened::Rejected(resp.error)
    } else {
        match resp.url {
            Some(u) => Opened::Endpoint(u),
            None => Opened::MissingUrl,
        }
    }
}

/// What the URL parser makes of a text: `None` where it does not parse as an
/// absolute URL, else the URL's domain name, if its host is one.
pub uninterp spec fn url_domain_of(s: Seq<char>) -> Option<Option<Seq<char>>>;

/// Relies on `url::Url::parse` and `Url::domain` on the parsed URL: whether
/// the text parses, and the domain, depend on the text alone.
#[verifier::external_body]
fn parse_domain(s: &str) -> (r: Result<Option<String>, url::ParseError>)
    ensures
        r is Ok <==> url_domain_of(s@) is Some,
        r matches Ok(d) ==> (d is Some <==> url_domain_of(s@) matches Some(Some(_))),
        r matches Ok(Some(d)) ==> url_domain_of(s@) == Some(Some(d@)),
{
    url::Url::parse(s).map(|u| u.domain().map(|d| d.to_string()))
}

/// The host to connect to, from what the URL parser made of the endpoint.
pub fn domain_from_parsed(parsed: Result<Option<String>, url::ParseError>) -> (r: Result<
    String,
    RunError,
>)
    ensures
        parsed matches Ok(Some(d)) ==> r matches Ok(h) && h == d,
        parsed matches Ok(None) ==> r matches Err(RunError::MissingDomain),
        parsed matches Err(e) ==> r matches Err(RunError::UrlParseError(f)) && f == e,
{
    match parsed {
        Ok(Some(d)) => Ok(d),
        Ok(None) => Err(RunError::MissingDomain),
        Err(e) => Err(RunError::UrlParseError(e)),
    }
}

/// The domain name of the endpoint URL, to open the TCP and TLS connection to.
pub fn endpoint_domain(url: &str) -> (r: Result<String, RunError>)
    ensures
        r is Ok <==> url_domain_of(url@) matches Some(Some(_)),
        r matches Ok(h) ==> url_domain_of(url@) == Some(Some(h@)),
        r matches Err(RunError::UrlParseError(_)) <==> url_domain_of(url@) is None,
        r matches Err(RunError::MissingDomain) <==> url_domain_of(url@) == Some(
            None::<Seq<char>>,
        ),
        r is Ok || r matches Err(RunError::UrlParseError(_)) || r matches Err(
            RunError::MissingDomain,
        ),
{
    domain_from_parsed(parse_domain(url))
}

} // verus!
