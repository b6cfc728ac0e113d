//! Calls into `url`, `base64`, `serde_json` and std that the link parsers
//! make. Each result is tied to the call's arguments through a name for
//! what the outside function computes.
use crate::json::{JsonLeaf, JsonTop, JsonTopV};
use base64::Engine;
use vstd::prelude::*;

verus! {

/// Whether `url::Url::parse` accepts `link`.
pub uninterp spec fn url_parses(link: Seq<char>) -> bool;

/// `Url::username` of the URL that `Url::parse` makes of `link`.
pub uninterp spec fn url_username(link: Seq<char>) -> Seq<char>;

/// `Url::host_str` of the URL that `Url::parse` makes of `link`.
pub uninterp spec fn url_host_str(link: Seq<char>) -> Option<Seq<char>>;

/// `Url::port` of the URL that `Url::parse` makes of `link`.
pub uninterp spec fn url_port(link: Seq<char>) -> Option<u16>;

/// `Url::query` of the URL that `Url::parse` makes of `link`.
pub uninterp spec fn url_query(link: Seq<char>) -> Option<Seq<char>>;

/// `Url::fragment` of the URL that `Url::parse` makes of `link`.
pub uninterp spec fn url_fragment(link: Seq<char>) -> Option<Seq<char>>;

/// The decoded name/value pairs, in order, that `form_urlencoded::parse`
/// yields for the UTF-8 bytes of `input`.
pub uninterp spec fn form_urlencoded_pairs(input: Seq<char>) -> Seq<(Seq<char>, Seq<char>)>;

/// What `base64::engine::general_purpose::URL_SAFE_NO_PAD.decode` gives
/// for the UTF-8 bytes of `input`, `None` for an error.
pub uninterp spec fn base64_url_safe_no_pad(input: Seq<char>) -> Option<Seq<u8>>;

/// What `base64::engine::general_purpose::STANDARD.decode` gives for the
/// UTF-8 bytes of `input`, `None` for an error.
pub uninterp spec fn base64_standard(input: Seq<char>) -> Option<Seq<u8>>;

/// The top-level value that `serde_json::from_slice::<serde_json::Value>`
/// reads from `bytes`, reduced as `JsonTop` describes; `None` for an error.
pub uninterp spec fn json_document(bytes: Seq<u8>) -> Option<JsonTopV>;

/// The parts of a URL that the link parsers read.
pub struct UrlParts {
    pub username: String,
    pub host: Option<String>,
    pub port: Option<u16>,
    pub query: Option<String>,
    pub fragment: Option<String>,
}

/// The parts of a URL as text.
pub struct UrlPartsV {
    pub username: Seq<char>,
    pub host: Option<Seq<char>>,
    pub port: Option<u16>,
    pub query: Option<Seq<char>>,
    pub fragment: Option<Seq<char>>,
}

impl View for UrlParts {
    type V = UrlPartsV;

    open spec fn view(&self) -> UrlPartsV {
        UrlPartsV {
            username: self.username@,
            host: opt_view(self.host),
            port: self.port,
            query: opt_view(self.query),
            fragment: opt_view(self.fragment),
        }
    }
}

/// The parts that the accessors of `url::Url` read from the URL that
/// `Url::parse` makes of `link`.
pub open spec fn url_parts(link: Seq<char>) -> UrlPartsV {
    UrlPartsV {
        username: url_username(link),
        host: url_host_str(link),
        port: url_port(link),
        query: url_query(link),
        fragment: url_fragment(link),
    }
}

pub open spec fn opt_view(o: Option<String>) -> Option<Seq<char>> {
    match o {
        Some(s) => Some(s@),
        None => None,
    }
}

pub open spec fn pair_views(v: Seq<(String, String)>) -> Seq<(Seq<char>, Seq<char>)> {
    v.map_values(|p: (String, String)| (p.0@, p.1@))
}

pub open spec fn bytes_view(o: Option<Vec<u8>>) -> Option<Seq<u8>> {
    match o {
        Some(v) => Some(v@),
        None => None,
    }
}

/// Calls `url::Url::parse` and reads `username`, `host_str`, `port`,
/// `query` and `fragment` of the result. The contract claims only that
/// each part is what the named accessor gives for `link`, and that the
/// result is `None` exactly when `Url::parse` returns an error.
#[verifier::external_body]
pub fn parse_url(link: &str) -> (r: Option<UrlParts>)
    ensures
        r is Some <==> url_parses(link@),
        r matches Some(p) ==> {
            &&& p.username@ == url_username(link@)
            &&& opt_view(p.host) == url_host_str(link@)
            &&& p.port == url_port(link@)
            &&& opt_view(p.query) == url_query(link@)
            &&& opt_view(p.fragment) == url_fragment(link@)
        },
{
    let url = url::Url::parse(link).ok()?;
    Some(UrlParts {
        username: url.username().to_string(),
        host: url.host_str().map(|h| h.to_string()),
        port: url.port(),
        query: url.query().map(|q| q.to_string()),
        fragment: url.fragment().map(|f| f.to_string()),
    })
}

/// Calls `url::form_urlencoded::parse` on the bytes of `input` and owns
/// each decoded pair; the contract claims that the pairs are the named ones.
#[verifier::external_body]
pub fn form_pairs(input: &str) -> (r: Vec<(String, String)>)
    ensures
        pair_views(r@) == form_urlencoded_pairs(input@),
{
    url::form_urlencoded::parse(input.as_bytes()).into_owned().collect()
}

/// Calls `URL_SAFE_NO_PAD.decode` of the `base64` crate; the contract
/// claims that the bytes are the named result and `None` is its error.
#[verifier::external_body]
pub fn decode_url_safe_no_pad(input: &str) -> (r: Option<Vec<u8>>)
    ensures
        bytes_view(r) == base64_url_safe_no_pad(input@),
{
    base64::engine::general_purpose::URL_SAFE_NO_PAD.decode(input).ok()
}

/// Calls `STANDARD.decode` of the `base64` crate; the contract claims that
/// the bytes are the named result and `None` is its error.
#[verifier::external_body]
pub fn decode_standard(input: &str) -> (r: Option<Vec<u8>>)
    ensures
        bytes_view(r) == base64_standard(input@),
{
    base64::engine::general_purpose::STANDARD.decode(input).ok()
}

/// Calls std's `String::from_utf8`, which std documents as succeeding
/// exactly on valid UTF-8 and then holding the characters it encodes.
#[verifier::external_body]
pub fn utf8_string(bytes: &[u8]) -> (r: Option<String>)
    ensures
        r is Some <==> vstd::utf8::valid_utf8(bytes@),
        r matches Some(s) ==> s@ == vstd::utf8::decode_utf8(bytes@),
{
    String::from_utf8(bytes.to_vec()).ok()
}

pub open spec fn top_view(o: Option<JsonTop>) -> Option<JsonTopV> {
    match o {
        Some(t) => Some(t@),
        None => None,
    }
}

/// Calls `serde_json::from_slice::<serde_json::Value>` and converts the
/// top-level value and each of its members variant by variant (a number
/// through `Number::as_u64`); the contract claims only that the result is
/// the named one.
#[verifier::external_body]
pub fn parse_json(bytes: &[u8]) -> (r: Option<JsonTop>)
    ensures
        top_view(r) == json_document(bytes@),
{
    let leaf = |v: serde_json::Value| match v {
        serde_json::Value::Null => JsonLeaf::Null,
        serde_json::Value::String(s) => JsonLeaf::Str(s),
        serde_json::Value::Number(n) => JsonLeaf::Number(n.as_u64()),
        _ => JsonLeaf::Other,
    };
    Some(match serde_json::from_slice::<serde_json::Value>(bytes).ok()? {
        serde_json::Value::Object(m) => JsonTop::Object(m.into_iter().map(|(k, v)| (k, leaf(v))).collect()),
        serde_json::Value::Array(a) => JsonTop::Array(a.into_iter().map(leaf).collect()),
        _ => JsonTop::Other,
    })
}

} // verus!
