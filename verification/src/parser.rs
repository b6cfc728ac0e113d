//! Parsing of proxy links (`vless://`, `vmess://`, `trojan://`, `ss://`)
//! and of subscription feeds, one link per line.
use crate::adapters::{
    base64_standard, base64_url_safe_no_pad, bytes_view, decode_standard, decode_url_safe_no_pad,
    form_pairs, form_urlencoded_pairs, json_document, opt_view, pair_views, parse_json, parse_url,
    url_parses, url_parts, utf8_string, UrlParts, UrlPartsV,
};
use crate::json::{JsonLeaf, JsonLeafV, JsonTop, JsonTopV};
use crate::models::{
    link_views, opt_chars, pairs_to_map, ParamMap, ProxyLink, ProxyLinkV, SsData, SsV, TrojanData,
    TrojanV, VlessData, VlessV, VmessData, VmessV,
};
use crate::text::{
    chars_of, concat, copy_range, find_char, find_first, lemma_find_first, flatten, has_prefix, lemma_trim_strip_cr,
    lines, lines_from, split_lines, starts_with, string_of, strip_cr, strip_prefix_all,
    strip_prefix_repeated, trim, trim_chars, views_of,
};
use vstd::prelude::*;

verus! {

/// Why a link was not accepted.
#[derive(Clone, Copy, Debug, PartialEq, Eq, Structural)]
pub enum LinkError {
    UnsupportedProtocol,
    InvalidUrl,
    NoHost,
    NoPort,
    InvalidBase64,
    InvalidUtf8,
    /// Shadowsocks credentials without the `:` between method and password.
    MissingSeparator,
    InvalidJson,
}

/// The text of an error whose words are the parser's own: "Unsupported
/// protocol", "No host" and "No port". The other errors pass on a failure
/// of the URL, base64, UTF-8 or JSON decoder, whose own message is not
/// kept, or are shadowsocks credentials without a separator; they have no
/// text here.
pub open spec fn link_error_text(e: LinkError) -> Option<Seq<char>> {
    match e {
        LinkError::UnsupportedProtocol => Some("Unsupported protocol"@),
        LinkError::NoHost => Some("No host"@),
        LinkError::NoPort => Some("No port"@),
        _ => None,
    }
}

impl LinkError {
    /// The text of this error, where the parser words it itself.
    pub fn message(&self) -> (r: Option<String>)
        ensures
            opt_view(r) == link_error_text(*self),
    {
        match self {
            LinkError::UnsupportedProtocol => Some(String::from_str("Unsupported protocol")),
            LinkError::NoHost => Some(String::from_str("No host")),
            LinkError::NoPort => Some(String::from_str("No port")),
            _ => None,
        }
    }
}

// ---------------------------------------------------------------------
// Base64 as the links carry it
// ---------------------------------------------------------------------

/// `s` without any `\r` or `\n`.
pub open spec fn drop_crlf(s: Seq<char>) -> Seq<char>
    decreases s.len(),
{
    if s.len() == 0 {
        s
    } else if s.last() == '\r' || s.last() == '\n' {
        drop_crlf(s.drop_last())
    } else {
        drop_crlf(s.drop_last()).push(s.last())
    }
}

/// The text that decoding starts from: trimmed, line breaks removed.
pub open spec fn b64_clean(input: Seq<char>) -> Seq<char> {
    drop_crlf(trim(input))
}

/// `c` followed by `=` until its UTF-8 length is a multiple of four.
pub open spec fn b64_padded(c: Seq<char>) -> Seq<char> {
    let n = vstd::utf8::encode_utf8(c).len();
    c + Seq::new(((4 - n % 4) % 4) as nat, |i: int| '=')
}

/// The bytes that a base64 field of a link stands for: decoded without
/// padding in the URL-safe alphabet, or else with padding in the standard
/// alphabet, or else in the standard alphabet once padding is added.
pub open spec fn decode_b64_spec(input: Seq<char>) -> Option<Seq<u8>> {
    let c = b64_clean(input);
    if base64_url_safe_no_pad(c) is Some {
        base64_url_safe_no_pad(c)
    } else if base64_standard(c) is Some {
        base64_standard(c)
    } else {
        base64_standard(b64_padded(c))
    }
}

fn drop_crlf_chars(s: &[char]) -> (r: Vec<char>)
    ensures
        r@ == drop_crlf(s@),
{
    let mut out: Vec<char> = Vec::new();
    let mut i: usize = 0;
    while i < s.len()
        invariant
            0 <= i <= s@.len(),
            out@ == drop_crlf(s@.subrange(0, i as int)),
        decreases s@.len() - i,
    {
        assert(s@.subrange(0, i + 1).drop_last() =~= s@.subrange(0, i as int));
        if s[i] != '\r' && s[i] != '\n' {
            out.push(s[i]);
        }
        i += 1;
    }
    assert(s@.subrange(0, s@.len() as int) =~= s@);
    out
}

/// Decodes a base64 field of a link as `decode_b64_spec` states.
pub fn decode_b64(input: &str) -> (r: Option<Vec<u8>>)
    ensures
        bytes_view(r) == decode_b64_spec(input@),
{
    let cleaned = drop_crlf_chars(&trim_chars(&chars_of(input)));
    let text = string_of(&cleaned);
    if let Some(data) = decode_url_safe_no_pad(text.as_str()) {
        return Some(data);
    }
    if let Some(data) = decode_standard(text.as_str()) {
        return Some(data);
    }
    let n = text.as_str().as_bytes().len();
    let pad = (4 - n % 4) % 4;
    let mut padded = cleaned;
    let ghost c = padded@;
    let mut k: usize = 0;
    while k < pad
        invariant
            k <= pad,
            padded@ == c + Seq::new(k as nat, |i: int| '='),
        decreases pad - k,
    {
        padded.push('=');
        k += 1;
        assert(padded@ =~= c + Seq::new(k as nat, |i: int| '='));
    }
    assert(padded@ =~= b64_padded(c));
    decode_standard(string_of(&padded).as_str())
}

// ---------------------------------------------------------------------
// Decimal port numbers
// ---------------------------------------------------------------------

pub open spec fn is_digit(c: char) -> bool {
    '0' <= c && c <= '9'
}

pub open spec fn digits_value(d: Seq<char>) -> nat
    decreases d.len(),
{
    if d.len() == 0 {
        0
    } else {
        (digits_value(d.drop_last()) * 10 + (d.last() as int - 48)) as nat
    }
}

pub open spec fn all_digits(d: Seq<char>) -> bool {
    forall|i: int| 0 <= i < d.len() ==> is_digit(#[trigger] d[i])
}

/// `s` without one leading `+`.
pub open spec fn unsigned_part(s: Seq<char>) -> Seq<char> {
    if s.len() > 0 && s[0] == '+' {
        s.drop_first()
    } else {
        s
    }
}

/// What `str::parse::<u16>` accepts: an optional `+`, then one or more
/// ASCII digits whose value fits in a `u16`.
pub open spec fn parse_u16_spec(s: Seq<char>) -> Option<u16> {
    let d = unsigned_part(s);
    if d.len() > 0 && all_digits(d) && digits_value(d) <= 65535 {
        Some(digits_value(d) as u16)
    } else {
        None
    }
}

/// Parses a decimal `u16` as `str::parse::<u16>` does.
pub fn parse_u16(s: &[char]) -> (r: Option<u16>)
    ensures
        r == parse_u16_spec(s@),
{
    let start: usize = if s.len() > 0 && s[0] == '+' {
        1
    } else {
        0
    };
    let ghost d = unsigned_part(s@);
    assert(d =~= s@.subrange(start as int, s@.len() as int));
    if start == s.len() {
        assert(d.len() == 0);
        return None;
    }
    let mut acc: u32 = 0;
    let mut i = start;
    while i < s.len()
        invariant
            start <= i <= s@.len(),
            start < s@.len(),
            d == s@.subrange(start as int, s@.len() as int),
            d == unsigned_part(s@),
            forall|k: int| 0 <= k < i - start ==> is_digit(#[trigger] d[k]),
            acc as nat == if digits_value(d.subrange(0, i - start)) < 65536 {
                digits_value(d.subrange(0, i - start))
            } else {
                65536
            },
        decreases s@.len() - i,
    {
        let c = s[i];
        if !('0' <= c && c <= '9') {
            assert(!is_digit(d[i - start]));
            assert(!(forall|k: int| 0 <= k < d.len() ==> is_digit(#[trigger] d[k])));
            return None;
        }
        let ghost pre = d.subrange(0, i - start);
        assert(d.subrange(0, i + 1 - start).drop_last() =~= pre);
        let dv = (c as u32) - 48;
        let next = acc * 10 + dv;
        acc = if next < 65536 {
            next
        } else {
            65536
        };
        i += 1;
    }
    assert(d.subrange(0, d.len() as int) =~= d);
    if acc < 65536 {
        Some(acc as u16)
    } else {
        None
    }
}

// ---------------------------------------------------------------------
// URL-shaped links: vless, trojan, shadowsocks
// ---------------------------------------------------------------------

pub open spec fn or_empty(o: Option<Seq<char>>) -> Seq<char> {
    match o {
        Some(s) => s,
        None => ""@,
    }
}

pub open spec fn port_or_443(o: Option<u16>) -> u16 {
    match o {
        Some(p) => p,
        None => 443,
    }
}

pub open spec fn pair_keys(ps: Seq<(Seq<char>, Seq<char>)>) -> Seq<Seq<char>> {
    ps.map_values(|p: (Seq<char>, Seq<char>)| p.0)
}

/// The parameters of a query string, the last value of a name kept.
pub open spec fn query_params(query: Option<Seq<char>>) -> Map<Seq<char>, Seq<char>> {
    pairs_to_map(form_urlencoded_pairs(or_empty(query)))
}

/// The vless server of a parsed URL: the user name is the id, the port
/// defaults to 443, the remark is the fragment's names joined.
pub open spec fn vless_of_url(p: UrlPartsV) -> Result<VlessV, LinkError> {
    match p.host {
        None => Err(LinkError::NoHost),
        Some(h) => Ok(
            VlessV {
                uuid: p.username,
                address: h,
                port: port_or_443(p.port),
                params: query_params(p.query),
                remark: flatten(pair_keys(form_urlencoded_pairs(or_empty(p.fragment)))),
            },
        ),
    }
}

pub open spec fn vless_spec(link: Seq<char>) -> Result<VlessV, LinkError> {
    if !url_parses(link) {
        Err(LinkError::InvalidUrl)
    } else {
        vless_of_url(url_parts(link))
    }
}

/// The trojan server of a parsed URL: the user name is the password, the
/// port defaults to 443, the remark is the fragment as it stands.
pub open spec fn trojan_of_url(p: UrlPartsV) -> Result<TrojanV, LinkError> {
    match p.host {
        None => Err(LinkError::NoHost),
        Some(h) => Ok(
            TrojanV {
                password: p.username,
                address: h,
                port: port_or_443(p.port),
                params: query_params(p.query),
                remark: or_empty(p.fragment),
            },
        ),
    }
}

pub open spec fn trojan_spec(link: Seq<char>) -> Result<TrojanV, LinkError> {
    if !url_parses(link) {
        Err(LinkError::InvalidUrl)
    } else {
        trojan_of_url(url_parts(link))
    }
}

/// The user info of a shadowsocks link as text: as it stands when it holds
/// a `:`, else base64-decoded and read as UTF-8.
pub open spec fn ss_credentials(user_info: Seq<char>) -> Result<Seq<char>, LinkError> {
    if find_first(user_info, ':') is Some {
        Ok(user_info)
    } else {
        match decode_b64_spec(user_info) {
            None => Err(LinkError::InvalidBase64),
            Some(b) => if vstd::utf8::valid_utf8(b) {
                Ok(vstd::utf8::decode_utf8(b))
            } else {
                Err(LinkError::InvalidUtf8)
            },
        }
    }
}

/// The shadowsocks server of a parsed URL: host and port required, the
/// credentials split at their first `:` into method and password.
pub open spec fn ss_of_url(p: UrlPartsV) -> Result<SsV, LinkError> {
    if p.host is None {
        Err(LinkError::NoHost)
    } else if p.port is None {
        Err(LinkError::NoPort)
    } else {
        match ss_credentials(p.username) {
            Err(e) => Err(e),
            Ok(c) => match find_first(c, ':') {
                None => Err(LinkError::MissingSeparator),
                Some(i) => Ok(
                    SsV {
                        method: c.subrange(0, i),
                        password: c.subrange(i + 1, c.len() as int),
                        address: p.host->0,
                        port: p.port->0,
                        remark: or_empty(p.fragment),
                    },
                ),
            },
        }
    }
}

pub open spec fn ss_spec(link: Seq<char>) -> Result<SsV, LinkError> {
    if !url_parses(link) {
        Err(LinkError::InvalidUrl)
    } else {
        ss_of_url(url_parts(link))
    }
}

fn string_or_empty(o: &Option<String>) -> (r: &str)
    ensures
        r@ == or_empty(opt_view(*o)),
{
    match o {
        Some(s) => s.as_str(),
        None => "",
    }
}

fn params_of(url: &UrlParts) -> (r: ParamMap)
    ensures
        r@ == query_params(url@.query),
{
    let pairs = form_pairs(string_or_empty(&url.query));
    ParamMap { pairs }
}

fn vless_remark(fragment: &str) -> (r: String)
    ensures
        r@ == flatten(pair_keys(form_urlencoded_pairs(fragment@))),
{
    let pairs = form_pairs(fragment);
    let ghost ps = pair_views(pairs@);
    let mut out: Vec<char> = Vec::new();
    let mut i: usize = 0;
    while i < pairs.len()
        invariant
            0 <= i <= pairs@.len(),
            ps == pair_views(pairs@),
            out@ == flatten(pair_keys(ps).subrange(0, i as int)),
        decreases pairs@.len() - i,
    {
        assert(pair_keys(ps).subrange(0, i + 1).drop_last() =~= pair_keys(ps).subrange(
            0,
            i as int,
        ));
        out = concat(&out, &chars_of(pairs[i].0.as_str()));
        i += 1;
    }
    assert(pair_keys(ps).subrange(0, pairs@.len() as int) =~= pair_keys(ps));
    string_of(&out)
}

/// The vless server that a parsed URL describes.
pub fn vless_from_url(url: UrlParts) -> (r: Result<VlessData, LinkError>)
    ensures
        match r {
            Ok(d) => vless_of_url(url@) == Ok::<VlessV, LinkError>(d@),
            Err(e) => vless_of_url(url@) == Err::<VlessV, LinkError>(e),
        },
{
    let params = params_of(&url);
    let remark = vless_remark(string_or_empty(&url.fragment));
    let port = match url.port {
        Some(p) => p,
        None => 443,
    };
    let address = match url.host {
        Some(h) => h,
        None => return Err(LinkError::NoHost),
    };
    Ok(VlessData { uuid: url.username, address, port, params, remark })
}

fn parse_vless(link: &str) -> (r: Result<VlessData, LinkError>)
    ensures
        match r {
            Ok(d) => vless_spec(link@) == Ok::<VlessV, LinkError>(d@),
            Err(e) => vless_spec(link@) == Err::<VlessV, LinkError>(e),
        },
{
    match parse_url(link) {
        Some(u) => {
            assert(u@ == url_parts(link@));
            vless_from_url(u)
        },
        None => Err(LinkError::InvalidUrl),
    }
}

/// The trojan server that a parsed URL describes.
pub fn trojan_from_url(url: UrlParts) -> (r: Result<TrojanData, LinkError>)
    ensures
        match r {
            Ok(d) => trojan_of_url(url@) == Ok::<TrojanV, LinkError>(d@),
            Err(e) => trojan_of_url(url@) == Err::<TrojanV, LinkError>(e),
        },
{
    let params = params_of(&url);
    let remark = String::from_str(string_or_empty(&url.fragment));
    let port = match url.port {
        Some(p) => p,
        None => 443,
    };
    let address = match url.host {
        Some(h) => h,
        None => return Err(LinkError::NoHost),
    };
    Ok(TrojanData { password: url.username, address, port, params, remark })
}

fn parse_trojan(link: &str) -> (r: Result<TrojanData, LinkError>)
    ensures
        match r {
            Ok(d) => trojan_spec(link@) == Ok::<TrojanV, LinkError>(d@),
            Err(e) => trojan_spec(link@) == Err::<TrojanV, LinkError>(e),
        },
{
    match parse_url(link) {
        Some(u) => {
            assert(u@ == url_parts(link@));
            trojan_from_url(u)
        },
        None => Err(LinkError::InvalidUrl),
    }
}

/// The credentials of a shadowsocks link as text, as `ss_credentials` states.
fn ss_credential_text(user_info: &str) -> (r: Result<Vec<char>, LinkError>)
    ensures
        match r {
            Ok(c) => ss_credentials(user_info@) == Ok::<Seq<char>, LinkError>(c@),
            Err(e) => ss_credentials(user_info@) == Err::<Seq<char>, LinkError>(e),
        },
{
    let ui = chars_of(user_info);
    if find_char(&ui, ':').is_some() {
        return Ok(ui);
    }
    let bytes = match decode_b64(user_info) {
        Some(b) => b,
        None => return Err(LinkError::InvalidBase64),
    };
    match utf8_string(bytes.as_slice()) {
        Some(s) => Ok(chars_of(s.as_str())),
        None => Err(LinkError::InvalidUtf8),
    }
}

/// The shadowsocks server that a parsed URL describes.
pub fn ss_from_url(url: UrlParts) -> (r: Result<SsData, LinkError>)
    ensures
        match r {
            Ok(d) => ss_of_url(url@) == Ok::<SsV, LinkError>(d@),
            Err(e) => ss_of_url(url@) == Err::<SsV, LinkError>(e),
        },
{
    let address = match url.host {
        Some(h) => h,
        None => return Err(LinkError::NoHost),
    };
    let port = match url.port {
        Some(p) => p,
        None => return Err(LinkError::NoPort),
    };
    let remark = String::from_str(string_or_empty(&url.fragment));
    let cred = match ss_credential_text(url.username.as_str()) {
        Ok(c) => c,
        Err(e) => return Err(e),
    };
    let i = match find_char(&cred, ':') {
        Some(i) => i,
        None => return Err(LinkError::MissingSeparator),
    };
    let n = cred.len();
    let method = string_of(&copy_range(&cred, 0, i));
    let password = string_of(&copy_range(&cred, i + 1, n));
    Ok(SsData { method, password, address, port, remark })
}

fn parse_ss(link: &str) -> (r: Result<SsData, LinkError>)
    ensures
        match r {
            Ok(d) => ss_spec(link@) == Ok::<SsV, LinkError>(d@),
            Err(e) => ss_spec(link@) == Err::<SsV, LinkError>(e),
        },
{
    match parse_url(link) {
        Some(u) => {
            assert(u@ == url_parts(link@));
            ss_from_url(u)
        },
        None => Err(LinkError::InvalidUrl),
    }
}

// ---------------------------------------------------------------------
// vmess: base64-encoded JSON
// ---------------------------------------------------------------------

/// The names of the fields of a vmess document, in the order that an
/// array form lists them.
pub open spec fn vmess_field_names() -> Seq<Seq<char>> {
    seq!["ps"@, "add"@, "port"@, "id"@, "scy"@, "net"@, "path"@, "host"@, "tls"@, "sni"@]
}

/// The value of the first member named `k`.
pub open spec fn lookup(ms: Seq<(Seq<char>, JsonLeafV)>, k: Seq<char>) -> Option<JsonLeafV>
    decreases ms.len(),
{
    if ms.len() == 0 {
        None
    } else if ms[0].0 == k {
        Some(ms[0].1)
    } else {
        lookup(ms.drop_first(), k)
    }
}

/// An optional string field: absent or null is `None`, a string is
/// `Some`; anything else does not fit (outer `None`).
pub open spec fn opt_str(l: Option<JsonLeafV>) -> Option<Option<Seq<char>>> {
    match l {
        None => Some(None),
        Some(JsonLeafV::Null) => Some(None),
        Some(JsonLeafV::Str(s)) => Some(Some(s)),
        _ => None,
    }
}

/// A required string field.
pub open spec fn req_str(l: Option<JsonLeafV>) -> Option<Seq<char>> {
    match l {
        Some(JsonLeafV::Str(s)) => Some(s),
        _ => None,
    }
}

/// The port of a vmess document: a number taken modulo 2^16, a string in
/// decimal, and 443 where neither gives one.
pub open spec fn port_value(l: JsonLeafV) -> u16 {
    match l {
        JsonLeafV::Number(Some(n)) => (n % 65536) as u16,
        JsonLeafV::Str(s) => match parse_u16_spec(s) {
            Some(p) => p,
            None => 443,
        },
        _ => 443,
    }
}

pub open spec fn unwrap_or(o: Option<Seq<char>>, d: Seq<char>) -> Seq<char> {
    match o {
        Some(s) => s,
        None => d,
    }
}

/// A vmess server from the ten fields of its document, in the order of
/// `vmess_field_names`; `None` where one does not have the type it needs.
pub open spec fn vmess_from_fields(f: Seq<Option<JsonLeafV>>) -> Option<VmessV> {
    if opt_str(f[0]) is Some && req_str(f[1]) is Some && f[2] is Some && req_str(f[3]) is Some
        && (forall|i: int| 4 <= i < 10 ==> opt_str(#[trigger] f[i]) is Some) {
        Some(
            VmessV {
                remark: unwrap_or(opt_str(f[0])->0, ""@),
                address: req_str(f[1])->0,
                port: port_value(f[2]->0),
                uuid: req_str(f[3])->0,
                security: unwrap_or(opt_str(f[4])->0, ""@),
                network: unwrap_or(opt_str(f[5])->0, "tcp"@),
                path: opt_str(f[6])->0,
                host: opt_str(f[7])->0,
                tls: opt_str(f[8])->0,
                sni: opt_str(f[9])->0,
            },
        )
    } else {
        None
    }
}

/// A vmess server from a JSON document: an object with the fields by name
/// (others ignored), or an array of exactly the ten fields in order.
pub open spec fn vmess_document(top: JsonTopV) -> Option<VmessV> {
    match top {
        JsonTopV::Object(ms) => vmess_from_fields(
            vmess_field_names().map_values(|k: Seq<char>| lookup(ms, k)),
        ),
        JsonTopV::Array(es) => if es.len() == 10 {
            vmess_from_fields(es.map_values(|e: JsonLeafV| Some(e)))
        } else {
            None
        },
        JsonTopV::Other => None,
    }
}

pub open spec fn vmess_spec(link: Seq<char>) -> Result<VmessV, LinkError> {
    match decode_b64_spec(strip_prefix_all(link, "vmess://"@)) {
        None => Err(LinkError::InvalidBase64),
        Some(bytes) => match json_document(bytes) {
            None => Err(LinkError::InvalidJson),
            Some(top) => match vmess_document(top) {
                None => Err(LinkError::InvalidJson),
                Some(v) => Ok(v),
            },
        },
    }
}

fn lookup_member<'a>(ms: &'a Vec<(String, JsonLeaf)>, key: &str) -> (r: Option<&'a JsonLeaf>)
    ensures
        match r {
            Some(l) => lookup(ms@.map_values(|e: (String, JsonLeaf)| (e.0@, e.1@)), key@)
                == Some(l@),
            None => lookup(ms@.map_values(|e: (String, JsonLeaf)| (e.0@, e.1@)), key@) is None,
        },
{
    let ghost all = ms@.map_values(|e: (String, JsonLeaf)| (e.0@, e.1@));
    let k = String::from_str(key);
    let mut i: usize = 0;
    assert(all.subrange(0, all.len() as int) =~= all);
    while i < ms.len()
        invariant
            0 <= i <= ms@.len(),
            all == ms@.map_values(|e: (String, JsonLeaf)| (e.0@, e.1@)),
            k@ == key@,
            lookup(all, k@) == lookup(all.subrange(i as int, all.len() as int), k@),
        decreases ms@.len() - i,
    {
        assert(all.subrange(i as int, all.len() as int).drop_first() =~= all.subrange(
            i + 1,
            all.len() as int,
        ));
        if ms[i].0 == k {
            return Some(&ms[i].1);
        }
        i += 1;
    }
    None
}

pub open spec fn leaf_ref_view(l: Option<&JsonLeaf>) -> Option<JsonLeafV> {
    match l {
        Some(x) => Some(x@),
        None => None,
    }
}

fn opt_string(l: Option<&JsonLeaf>) -> (r: Option<Option<String>>)
    ensures
        match r {
            Some(o) => opt_str(leaf_ref_view(l)) == Some(opt_chars(o)),
            None => opt_str(leaf_ref_view(l)) is None,
        },
{
    match l {
        None => Some(None),
        Some(JsonLeaf::Null) => Some(None),
        Some(JsonLeaf::Str(s)) => Some(Some(s.clone())),
        _ => None,
    }
}

fn req_string(l: Option<&JsonLeaf>) -> (r: Option<String>)
    ensures
        opt_chars(r) == req_str(leaf_ref_view(l)),
{
    match l {
        Some(JsonLeaf::Str(s)) => Some(s.clone()),
        _ => None,
    }
}

fn port_of(l: &JsonLeaf) -> (r: u16)
    ensures
        r == port_value(l@),
{
    match l {
        JsonLeaf::Number(Some(n)) => (*n % 65536) as u16,
        JsonLeaf::Str(s) => match parse_u16(&chars_of(s.as_str())) {
            Some(p) => p,
            None => 443,
        },
        _ => 443,
    }
}

fn string_or(o: Option<String>, d: &str) -> (r: String)
    ensures
        r@ == unwrap_or(opt_chars(o), d@),
{
    match o {
        Some(s) => s,
        None => String::from_str(d),
    }
}

/// A vmess server from the ten fields of its document.
fn vmess_from(f: &Vec<Option<&JsonLeaf>>) -> (r: Option<VmessData>)
    requires
        f@.len() == 10,
    ensures
        match r {
            Some(d) => vmess_from_fields(f@.map_values(|l: Option<&JsonLeaf>| leaf_ref_view(l)))
                == Some(d@),
            None => vmess_from_fields(
                f@.map_values(|l: Option<&JsonLeaf>| leaf_ref_view(l)),
            ) is None,
        },
{
    let ghost fv = f@.map_values(|l: Option<&JsonLeaf>| leaf_ref_view(l));
    assert(forall|i: int| 0 <= i < 10 ==> fv[i] == leaf_ref_view(#[trigger] f@[i]));
    let ps = opt_string(f[0]);
    let add = req_string(f[1]);
    let id = req_string(f[3]);
    let scy = opt_string(f[4]);
    let net = opt_string(f[5]);
    let path = opt_string(f[6]);
    let host = opt_string(f[7]);
    let tls = opt_string(f[8]);
    let sni = opt_string(f[9]);
    match (ps, add, f[2], id) {
        (Some(ps), Some(add), Some(port), Some(id)) => match (scy, net, path) {
            (Some(scy), Some(net), Some(path)) => match (host, tls, sni) {
                (Some(host), Some(tls), Some(sni)) => {
                    let d = VmessData {
                        remark: string_or(ps, ""),
                        address: add,
                        port: port_of(port),
                        uuid: id,
                        security: string_or(scy, ""),
                        network: string_or(net, "tcp"),
                        path,
                        host,
                        tls,
                        sni,
                    };
                    assert(forall|i: int| 4 <= i < 10 ==> opt_str(#[trigger] fv[i]) is Some);
                    Some(d)
                },
                _ => None,
            },
            _ => None,
        },
        _ => None,
    }
}

/// The vmess server that a parsed JSON document describes, given as an
/// object of named fields or as an array of the ten fields in order.
pub fn vmess_from_json(top: &JsonTop) -> (r: Option<VmessData>)
    ensures
        match r {
            Some(d) => vmess_document(top@) == Some(d@),
            None => vmess_document(top@) is None,
        },
{
    match top {
        JsonTop::Object(ms) => {
            let names = vec!["ps", "add", "port", "id", "scy", "net", "path", "host", "tls", "sni"];
            let mut f: Vec<Option<&JsonLeaf>> = Vec::new();
            let ghost all = ms@.map_values(|e: (String, JsonLeaf)| (e.0@, e.1@));
            let mut i: usize = 0;
            while i < 10
                invariant
                    0 <= i <= 10,
                    names@.len() == 10,
                    forall|j: int| 0 <= j < 10 ==> (#[trigger] names@[j])@ == vmess_field_names()[j],
                    all == ms@.map_values(|e: (String, JsonLeaf)| (e.0@, e.1@)),
                    f@.len() == i,
                    forall|j: int|
                        0 <= j < i ==> leaf_ref_view(#[trigger] f@[j]) == lookup(
                            all,
                            vmess_field_names()[j],
                        ),
                decreases 10 - i,
            {
                f.push(lookup_member(ms, names[i]));
                i += 1;
            }
            assert(f@.map_values(|l: Option<&JsonLeaf>| leaf_ref_view(l)) =~= vmess_field_names().map_values(
                |k: Seq<char>| lookup(all, k),
            ));
            vmess_from(&f)
        },
        JsonTop::Array(es) => {
            if es.len() != 10 {
                return None;
            }
            let mut f: Vec<Option<&JsonLeaf>> = Vec::new();
            let mut i: usize = 0;
            while i < 10
                invariant
                    0 <= i <= 10,
                    es@.len() == 10,
                    f@.len() == i,
                    forall|j: int| 0 <= j < i ==> leaf_ref_view(#[trigger] f@[j]) == Some(es@[j]@),
                decreases 10 - i,
            {
                f.push(Some(&es[i]));
                i += 1;
            }
            assert(f@.map_values(|l: Option<&JsonLeaf>| leaf_ref_view(l)) =~= es@.map_values(
                |e: JsonLeaf| e@,
            ).map_values(|e: JsonLeafV| Some(e)));
            vmess_from(&f)
        },
        JsonTop::Other => None,
    }
}

fn parse_vmess(link: &str) -> (r: Result<VmessData, LinkError>)
    ensures
        match r {
            Ok(d) => vmess_spec(link@) == Ok::<VmessV, LinkError>(d@),
            Err(e) => vmess_spec(link@) == Err::<VmessV, LinkError>(e),
        },
{
    let body = string_of(&strip_prefix_repeated(&chars_of(link), &chars_of("vmess://")));
    let bytes = match decode_b64(body.as_str()) {
        Some(b) => b,
        None => return Err(LinkError::InvalidBase64),
    };
    let top = match parse_json(bytes.as_slice()) {
        Some(t) => t,
        None => return Err(LinkError::InvalidJson),
    };
    match vmess_from_json(&top) {
        Some(d) => Ok(d),
        None => Err(LinkError::InvalidJson),
    }
}

// ---------------------------------------------------------------------
// Links and feeds
// ---------------------------------------------------------------------

/// The link kind that `link` is parsed as, by its scheme prefix, and the
/// server it describes; `Err(UnsupportedProtocol)` for any other prefix.
pub open spec fn link_spec(link: Seq<char>) -> Result<ProxyLinkV, LinkError> {
    if has_prefix(link, "vless://"@) {
        match vless_spec(link) {
            Ok(v) => Ok(ProxyLinkV::Vless(v)),
            Err(e) => Err(e),
        }
    } else if has_prefix(link, "vmess://"@) {
        match vmess_spec(link) {
            Ok(v) => Ok(ProxyLinkV::Vmess(v)),
            Err(e) => Err(e),
        }
    } else if has_prefix(link, "trojan://"@) {
        match trojan_spec(link) {
            Ok(v) => Ok(ProxyLinkV::Trojan(v)),
            Err(e) => Err(e),
        }
    } else if has_prefix(link, "ss://"@) {
        match ss_spec(link) {
            Ok(v) => Ok(ProxyLinkV::Shadowsocks(v)),
            Err(e) => Err(e),
        }
    } else {
        Err(LinkError::UnsupportedProtocol)
    }
}

/// The server that `link` describes, if it is a supported link that parses.
pub open spec fn parse_link_spec(link: Seq<char>) -> Option<ProxyLinkV> {
    match link_spec(link) {
        Ok(v) => Some(v),
        Err(_) => None,
    }
}

/// Parses `link` by its scheme, stating the reason of a failure.
pub fn parse_link_detailed(link: &str) -> (r: Result<ProxyLink, LinkError>)
    ensures
        match r {
            Ok(l) => link_spec(link@) == Ok::<ProxyLinkV, LinkError>(l@),
            Err(e) => link_spec(link@) == Err::<ProxyLinkV, LinkError>(e),
        },
{
    let cs = chars_of(link);
    if starts_with(&cs, &chars_of("vless://")) {
        match parse_vless(link) {
            Ok(d) => Ok(ProxyLink::Vless(d)),
            Err(e) => Err(e),
        }
    } else if starts_with(&cs, &chars_of("vmess://")) {
        match parse_vmess(link) {
            Ok(d) => Ok(ProxyLink::Vmess(d)),
            Err(e) => Err(e),
        }
    } else if starts_with(&cs, &chars_of("trojan://")) {
        match parse_trojan(link) {
            Ok(d) => Ok(ProxyLink::Trojan(d)),
            Err(e) => Err(e),
        }
    } else if starts_with(&cs, &chars_of("ss://")) {
        match parse_ss(link) {
            Ok(d) => Ok(ProxyLink::Shadowsocks(d)),
            Err(e) => Err(e),
        }
    } else {
        Err(LinkError::UnsupportedProtocol)
    }
}

/// Parses one link; `None` for an unsupported scheme or a link of a
/// supported scheme that does not parse.
pub fn parse_link(link: &str) -> (r: Option<ProxyLink>)
    ensures
        match r {
            Some(l) => parse_link_spec(link@) == Some(l@),
            None => parse_link_spec(link@) is None,
        },
{
    match parse_link_detailed(link) {
        Ok(l) => Some(l),
        Err(_) => None,
    }
}

/// The links that parse among `ls`, each trimmed first, in order.
pub open spec fn parse_lines(ls: Seq<Seq<char>>) -> Seq<ProxyLinkV>
    decreases ls.len(),
{
    if ls.len() == 0 {
        seq![]
    } else {
        let prev = parse_lines(ls.drop_last());
        match parse_link_spec(trim(ls.last())) {
            Some(l) => prev.push(l),
            None => prev,
        }
    }
}

/// The links of a feed: each line trimmed and parsed, the ones that parse kept.
pub open spec fn feed_spec(content: Seq<char>) -> Seq<ProxyLinkV> {
    parse_lines(lines(content))
}

/// Parses a subscription feed: one link per line, surrounding whitespace
/// ignored, lines that are no supported link skipped.
pub fn parse_subscription_feed(content: &str) -> (r: Vec<ProxyLink>)
    ensures
        link_views(r@) == feed_spec(content@),
{
    let ls = split_lines(&chars_of(content));
    let ghost lv = views_of(ls@);
    let mut out: Vec<ProxyLink> = Vec::new();
    let mut i: usize = 0;
    while i < ls.len()
        invariant
            0 <= i <= ls@.len(),
            lv == views_of(ls@),
            lv == lines(content@),
            link_views(out@) == parse_lines(lv.subrange(0, i as int)),
        decreases ls@.len() - i,
    {
        assert(lv.subrange(0, i + 1).drop_last() =~= lv.subrange(0, i as int));
        let line = string_of(&trim_chars(&ls[i]));
        let ghost prev = out@;
        if let Some(l) = parse_link(line.as_str()) {
            out.push(l);
            assert(link_views(out@) =~= link_views(prev).push(l@));
        }
        i += 1;
    }
    assert(lv.subrange(0, lv.len() as int) =~= lv);
    out
}

proof fn lemma_parse_lines_concat(x: Seq<Seq<char>>, y: Seq<Seq<char>>)
    ensures
        parse_lines(x + y) == parse_lines(x) + parse_lines(y),
    decreases y.len(),
{
    if y.len() == 0 {
        assert(x + y =~= x);
        assert(parse_lines(x) + parse_lines(y) =~= parse_lines(x));
    } else {
        let yp = y.drop_last();
        lemma_parse_lines_concat(x, yp);
        assert((x + y).drop_last() =~= x + yp);
        assert((x + y).last() == y.last());
        match parse_link_spec(trim(y.last())) {
            Some(l) => {
                assert((parse_lines(x) + parse_lines(yp)).push(l) =~= parse_lines(x) + parse_lines(
                    yp,
                ).push(l));
            },
            None => {},
        }
    }
}

/// A blank line holds no link.
proof fn lemma_blank_line_no_link()
    ensures
        parse_link_spec(trim(Seq::<char>::empty())) is None,
{
    reveal_strlit("vless://");
    reveal_strlit("vmess://");
    reveal_strlit("trojan://");
    reveal_strlit("ss://");
    assert(trim(Seq::<char>::empty()) =~= Seq::<char>::empty());
}

/// A line closed by a line break holds the link that it holds unclosed.
proof fn lemma_closed_line(cur: Seq<char>)
    ensures
        parse_lines(seq![strip_cr(cur)]) == parse_lines(lines_from(Seq::<char>::empty(), cur)),
{
    lemma_trim_strip_cr(cur);
    lemma_blank_line_no_link();
    assert(seq![strip_cr(cur)].drop_last() =~= Seq::<Seq<char>>::empty());
    if cur.len() > 0 {
        assert(seq![cur].drop_last() =~= Seq::<Seq<char>>::empty());
    } else {
        assert(strip_cr(cur) =~= Seq::<char>::empty());
    }
}

proof fn lemma_feed_join_from(a: Seq<char>, b: Seq<char>, cur: Seq<char>)
    ensures
        parse_lines(lines_from(a + seq!['\n'] + b, cur)) == parse_lines(lines_from(a, cur))
            + parse_lines(lines(b)),
    decreases a.len(),
{
    let s = a + seq!['\n'] + b;
    if a.len() == 0 {
        assert(s[0] == '\n');
        assert(s.drop_first() =~= b);
        assert(lines_from(s, cur) == seq![strip_cr(cur)] + lines(b));
        lemma_parse_lines_concat(seq![strip_cr(cur)], lines(b));
        lemma_closed_line(cur);
    } else {
        let ap = a.drop_first();
        assert(s[0] == a[0]);
        assert(s.drop_first() =~= ap + seq!['\n'] + b);
        if a[0] == '\n' {
            lemma_feed_join_from(ap, b, Seq::<char>::empty());
            let head = seq![strip_cr(cur)];
            lemma_parse_lines_concat(head, lines_from(ap + seq!['\n'] + b, Seq::<char>::empty()));
            lemma_parse_lines_concat(head, lines_from(ap, Seq::<char>::empty()));
            assert(parse_lines(head) + (parse_lines(lines_from(ap, Seq::<char>::empty()))
                + parse_lines(lines(b))) =~= parse_lines(head) + parse_lines(
                lines_from(ap, Seq::<char>::empty()),
            ) + parse_lines(lines(b)));
        } else {
            lemma_feed_join_from(ap, b, cur.push(a[0]));
        }
    }
}

/// Two feeds joined by a line break hold the links of the first, then
/// those of the second, in order.
pub proof fn law_feed_join(a: Seq<char>, b: Seq<char>)
    ensures
        feed_spec(a + seq!['\n'] + b) == feed_spec(a) + feed_spec(b),
{
    lemma_feed_join_from(a, b, Seq::<char>::empty());
}

/// The text of a subscription body: served either as plain text or as
/// base64 of it. A body that decodes (as `decode_b64_spec` reads base64) to
/// valid UTF-8 stands for that text; any other body is the text itself.
pub open spec fn feed_body_text(body: Seq<char>) -> Seq<char> {
    match decode_b64_spec(body) {
        Some(b) => if vstd::utf8::valid_utf8(b) {
            vstd::utf8::decode_utf8(b)
        } else {
            body
        },
        None => body,
    }
}

/// The text of a subscription body, decoded where it is base64 of UTF-8 text.
pub fn feed_text(body: &str) -> (r: String)
    ensures
        r@ == feed_body_text(body@),
{
    match decode_b64(body) {
        Some(bytes) => match utf8_string(bytes.as_slice()) {
            Some(text) => text,
            None => String::from_str(body),
        },
        None => String::from_str(body),
    }
}

/// The links of a subscription body, plain text or base64 of it.
pub fn parse_subscription_body(body: &str) -> (r: Vec<ProxyLink>)
    ensures
        link_views(r@) == feed_spec(feed_body_text(body@)),
{
    let text = feed_text(body);
    parse_subscription_feed(text.as_str())
}

/// The kind of link that parsing gives is the one its scheme names, and a
/// link with none of the four schemes is refused as unsupported.
pub proof fn law_scheme_decides_kind(link: Seq<char>)
    ensures
        parse_link_spec(link) matches Some(v) ==> match v {
            ProxyLinkV::Vless(_) => has_prefix(link, "vless://"@),
            ProxyLinkV::Vmess(_) => has_prefix(link, "vmess://"@),
            ProxyLinkV::Trojan(_) => has_prefix(link, "trojan://"@),
            ProxyLinkV::Shadowsocks(_) => has_prefix(link, "ss://"@),
        },
        !has_prefix(link, "vless://"@) && !has_prefix(link, "vmess://"@) && !has_prefix(
            link,
            "trojan://"@,
        ) && !has_prefix(link, "ss://"@) ==> link_spec(link) == Err::<ProxyLinkV, LinkError>(
            LinkError::UnsupportedProtocol,
        ),
{
}

/// A field of a vmess document read as optional text: its string, or
/// nothing where it is absent or null.
proof fn lemma_opt_field(l: Option<JsonLeafV>)
    ensures
        l matches Some(JsonLeafV::Str(s)) ==> opt_str(l) == Some(Some(s)),
        (l is None || l == Some(JsonLeafV::Null)) ==> opt_str(l) == Some(None::<Seq<char>>),
{
}

/// What a vmess document given as an object says of its server: address,
/// id, cipher, transport, remark, TLS and SNI are the members of those
/// names (`add`, `id`, `scy`, `net`, `ps`, `tls`, `sni`, `path`, `host`),
/// with an empty cipher and remark and the transport `tcp` where the member
/// is absent or null; and a document whose `add` and `id` are strings,
/// whose `port` is there and whose other members are strings, null or
/// absent gives a server.
pub proof fn law_vmess_object_fields(ms: Seq<(Seq<char>, JsonLeafV)>)
    ensures
        vmess_document(JsonTopV::Object(ms)) matches Some(v) ==> {
            &&& lookup(ms, "add"@) == Some(JsonLeafV::Str(v.address))
            &&& lookup(ms, "id"@) == Some(JsonLeafV::Str(v.uuid))
            &&& (lookup(ms, "scy"@) matches Some(JsonLeafV::Str(s)) ==> v.security == s)
            &&& (lookup(ms, "scy"@) is None || lookup(ms, "scy"@) == Some(JsonLeafV::Null)
                ==> v.security == ""@)
            &&& (lookup(ms, "net"@) matches Some(JsonLeafV::Str(s)) ==> v.network == s)
            &&& (lookup(ms, "net"@) is None || lookup(ms, "net"@) == Some(JsonLeafV::Null)
                ==> v.network == "tcp"@)
            &&& (lookup(ms, "ps"@) matches Some(JsonLeafV::Str(s)) ==> v.remark == s)
            &&& (lookup(ms, "ps"@) is None || lookup(ms, "ps"@) == Some(JsonLeafV::Null)
                ==> v.remark == ""@)
            &&& (lookup(ms, "path"@) matches Some(JsonLeafV::Str(s)) ==> v.path == Some(s))
            &&& (lookup(ms, "host"@) matches Some(JsonLeafV::Str(s)) ==> v.host == Some(s))
            &&& (lookup(ms, "tls"@) matches Some(JsonLeafV::Str(s)) ==> v.tls == Some(s))
            &&& (lookup(ms, "sni"@) matches Some(JsonLeafV::Str(s)) ==> v.sni == Some(s))
            &&& (lookup(ms, "tls"@) is None ==> v.tls is None)
            &&& (lookup(ms, "sni"@) is None ==> v.sni is None)
        },
        lookup(ms, "add"@) matches Some(JsonLeafV::Str(_)) && lookup(ms, "id"@) matches Some(
            JsonLeafV::Str(_),
        ) && lookup(ms, "port"@) is Some && opt_str(lookup(ms, "ps"@)) is Some && opt_str(
            lookup(ms, "scy"@),
        ) is Some && opt_str(lookup(ms, "net"@)) is Some && opt_str(lookup(ms, "path"@)) is Some
            && opt_str(lookup(ms, "host"@)) is Some && opt_str(lookup(ms, "tls"@)) is Some
            && opt_str(lookup(ms, "sni"@)) is Some ==> vmess_document(JsonTopV::Object(ms)) is Some,
{
    let f = vmess_field_names().map_values(|k: Seq<char>| lookup(ms, k));
    assert(f.len() == 10);
    assert(f[0] == lookup(ms, "ps"@));
    assert(f[1] == lookup(ms, "add"@));
    assert(f[2] == lookup(ms, "port"@));
    assert(f[3] == lookup(ms, "id"@));
    assert(f[4] == lookup(ms, "scy"@));
    assert(f[5] == lookup(ms, "net"@));
    assert(f[6] == lookup(ms, "path"@));
    assert(f[7] == lookup(ms, "host"@));
    assert(f[8] == lookup(ms, "tls"@));
    assert(f[9] == lookup(ms, "sni"@));
    lemma_opt_field(f[0]);
    lemma_opt_field(f[4]);
    lemma_opt_field(f[5]);
    lemma_opt_field(f[6]);
    lemma_opt_field(f[7]);
    lemma_opt_field(f[8]);
    lemma_opt_field(f[9]);
}

/// What a vmess document given as an array of ten fields says of its
/// server: the fields in the order `ps`, `add`, `port`, `id`, `scy`,
/// `net`, `path`, `host`, `tls`, `sni`.
pub proof fn law_vmess_array_fields(es: Seq<JsonLeafV>)
    ensures
        vmess_document(JsonTopV::Array(es)) matches Some(v) ==> {
            &&& es.len() == 10
            &&& es[1] == JsonLeafV::Str(v.address)
            &&& es[3] == JsonLeafV::Str(v.uuid)
            &&& (es[4] matches JsonLeafV::Str(s) ==> v.security == s)
            &&& (es[4] == JsonLeafV::Null ==> v.security == ""@)
            &&& (es[5] matches JsonLeafV::Str(s) ==> v.network == s)
            &&& (es[5] == JsonLeafV::Null ==> v.network == "tcp"@)
            &&& (es[0] matches JsonLeafV::Str(s) ==> v.remark == s)
            &&& (es[8] matches JsonLeafV::Str(s) ==> v.tls == Some(s))
            &&& (es[9] matches JsonLeafV::Str(s) ==> v.sni == Some(s))
        },
        es.len() != 10 ==> vmess_document(JsonTopV::Array(es)) is None,
{
    if es.len() == 10 {
        let f = es.map_values(|e: JsonLeafV| Some(e));
        assert(forall|i: int| 0 <= i < 10 ==> #[trigger] f[i] == Some(es[i]));
        lemma_opt_field(f[0]);
        lemma_opt_field(f[4]);
        lemma_opt_field(f[5]);
        lemma_opt_field(f[8]);
        lemma_opt_field(f[9]);
    }
}

/// The lines of a text with no line break: the text itself, unless it is empty.
proof fn lemma_lines_one(s: Seq<char>, cur: Seq<char>)
    requires
        !s.contains('\n'),
    ensures
        lines_from(s, cur) == if cur.len() + s.len() == 0 {
            Seq::<Seq<char>>::empty()
        } else {
            seq![cur + s]
        },
    decreases s.len(),
{
    if s.len() == 0 {
        assert(cur + s =~= cur);
    } else {
        assert(s[0] != '\n') by {
            if s[0] == '\n' {
                assert(s.contains('\n'));
            }
        }
        assert(!s.drop_first().contains('\n')) by {
            if s.drop_first().contains('\n') {
                let k = choose|k: int| 0 <= k < s.drop_first().len() && s.drop_first()[k] == '\n';
                assert(s[k + 1] == '\n');
            }
        }
        lemma_lines_one(s.drop_first(), cur.push(s[0]));
        assert(cur.push(s[0]) + s.drop_first() =~= cur + s);
    }
}

/// A feed of one line holds exactly the link that the trimmed line parses
/// to, whatever its scheme, and nothing where it parses to none.
pub proof fn law_single_line_feed(line: Seq<char>)
    requires
        !line.contains('\n'),
    ensures
        feed_spec(line) == match parse_link_spec(trim(line)) {
            Some(l) => seq![l],
            None => Seq::<ProxyLinkV>::empty(),
        },
{
    lemma_lines_one(line, Seq::<char>::empty());
    assert(Seq::<char>::empty() + line =~= line);
    lemma_blank_line_no_link();
    if line.len() == 0 {
        assert(line =~= Seq::<char>::empty());
    } else {
        assert(seq![line].drop_last() =~= Seq::<Seq<char>>::empty());
        assert(seq![line].last() == line);
        assert(lines(line) == seq![line]);
        assert(parse_lines(Seq::<Seq<char>>::empty()) == Seq::<ProxyLinkV>::empty());
        match parse_link_spec(trim(line)) {
            Some(l) => {
                assert(Seq::<ProxyLinkV>::empty().push(l) =~= seq![l]);
            },
            None => {},
        }
    }
}

/// What a parsed URL gives for each kind of link: the server is its host,
/// refused as `NoHost` where it has none; the user name is the vless id and
/// the trojan password; the port defaults to 443 for vless and trojan and
/// is required for shadowsocks; the trojan and shadowsocks remark is the
/// fragment as it stands.
pub proof fn law_url_servers(p: UrlPartsV)
    ensures
        p.host is None ==> vless_of_url(p) == Err::<VlessV, LinkError>(LinkError::NoHost),
        p.host is None ==> trojan_of_url(p) == Err::<TrojanV, LinkError>(LinkError::NoHost),
        p.host is None ==> ss_of_url(p) == Err::<SsV, LinkError>(LinkError::NoHost),
        p.host is Some && p.port is None ==> ss_of_url(p) == Err::<SsV, LinkError>(
            LinkError::NoPort,
        ),
        p.host is Some ==> vless_of_url(p) is Ok && trojan_of_url(p) is Ok,
        vless_of_url(p) matches Ok(v) ==> {
            &&& v.uuid == p.username
            &&& p.host == Some(v.address)
            &&& (p.port matches Some(n) ==> v.port == n)
            &&& (p.port is None ==> v.port == 443)
        },
        trojan_of_url(p) matches Ok(t) ==> {
            &&& t.password == p.username
            &&& p.host == Some(t.address)
            &&& (p.port matches Some(n) ==> t.port == n)
            &&& (p.port is None ==> t.port == 443)
            &&& (p.fragment matches Some(f) ==> t.remark == f)
            &&& (p.fragment is None ==> t.remark == ""@)
        },
        ss_of_url(p) matches Ok(v) ==> {
            &&& p.host == Some(v.address)
            &&& p.port == Some(v.port)
            &&& (p.fragment matches Some(f) ==> v.remark == f)
            &&& !v.method.contains(':')
        },
{
    if ss_of_url(p) is Ok {
        let c = ss_credentials(p.username)->Ok_0;
        lemma_find_first(c, ':');
        let v = ss_of_url(p)->Ok_0;
        let i = find_first(c, ':')->0;
        assert(v.method =~= c.subrange(0, i));
        assert(!v.method.contains(':')) by {
            if v.method.contains(':') {
                let k = choose|k: int| 0 <= k < v.method.len() && v.method[k] == ':';
                assert(c[k] == ':');
            }
        }
    }
}

/// Shadowsocks credentials given in the clear, `method:password`, are split
/// at their first `:`: the method and password joined by `:` give them back.
pub proof fn law_ss_clear_credentials(p: UrlPartsV)
    requires
        p.username.contains(':'),
    ensures
        ss_of_url(p) matches Ok(v) ==> v.method + ":"@ + v.password == p.username,
        p.host is Some && p.port is Some ==> ss_of_url(p) is Ok,
{
    lemma_find_first(p.username, ':');
    let k = choose|k: int| 0 <= k < p.username.len() && p.username[k] == ':';
    assert(find_first(p.username, ':') is Some);
    if ss_of_url(p) is Ok {
        let v = ss_of_url(p)->Ok_0;
        let c = p.username;
        let i = find_first(c, ':')->0;
        reveal_strlit(":");
        assert(v.method + ":"@ + v.password =~= c);
    }
}

} // verus!
