//! Decisions of the user interface that do not depend on drawing: text
//! truncation, the protocol badge of a link, and the country badge.
use crate::text::{chars_of, copy_range, has_prefix, starts_with, string_of, trim, trim_chars};
use vstd::prelude::*;

verus! {

/// `s` cut to at most `max_chars` characters, the last of them an ellipsis
/// where something was cut.
pub open spec fn truncate_spec(s: Seq<char>, max_chars: nat) -> Seq<char> {
    if s.len() <= max_chars {
        s
    } else {
        s.subrange(0, if max_chars == 0 { 0 } else { max_chars - 1 }).push('…')
    }
}

/// Shortens `s` to at most `max_chars` characters, ending in `…` where it
/// was cut.
pub fn truncate(s: &str, max_chars: usize) -> (r: String)
    ensures
        r@ == truncate_spec(s@, max_chars as nat),
{
    let cs = chars_of(s);
    if cs.len() <= max_chars {
        string_of(&cs)
    } else {
        let mut out = copy_range(&cs, 0, max_chars.saturating_sub(1));
        out.push('…');
        string_of(&out)
    }
}

/// The protocol badge of a custom link.
#[derive(Clone, Copy, Debug, PartialEq, Eq, Structural)]
pub enum ProtocolTag {
    Vless,
    Vmess,
    Trojan,
    Ss,
    Unknown,
}

pub open spec fn protocol_tag_spec(raw: Seq<char>) -> ProtocolTag {
    if has_prefix(raw, "vless://"@) {
        ProtocolTag::Vless
    } else if has_prefix(raw, "vmess://"@) {
        ProtocolTag::Vmess
    } else if has_prefix(raw, "trojan://"@) {
        ProtocolTag::Trojan
    } else if has_prefix(raw, "ss://"@) {
        ProtocolTag::Ss
    } else {
        ProtocolTag::Unknown
    }
}

/// The protocol of a link, by its scheme prefix.
pub fn protocol_tag(raw: &str) -> (r: ProtocolTag)
    ensures
        r == protocol_tag_spec(raw@),
{
    let cs = chars_of(raw);
    if starts_with(&cs, &chars_of("vless://")) {
        ProtocolTag::Vless
    } else if starts_with(&cs, &chars_of("vmess://")) {
        ProtocolTag::Vmess
    } else if starts_with(&cs, &chars_of("trojan://")) {
        ProtocolTag::Trojan
    } else if starts_with(&cs, &chars_of("ss://")) {
        ProtocolTag::Ss
    } else {
        ProtocolTag::Unknown
    }
}

impl ProtocolTag {
    pub open spec fn label_spec(self) -> Seq<char> {
        match self {
            ProtocolTag::Vless => "VLESS"@,
            ProtocolTag::Vmess => "VMESS"@,
            ProtocolTag::Trojan => "TROJAN"@,
            ProtocolTag::Ss => "SS"@,
            ProtocolTag::Unknown => "?"@,
        }
    }

    /// The text of the badge.
    pub fn label(&self) -> (r: &'static str)
        ensures
            r@ == self.label_spec(),
    {
        match self {
            ProtocolTag::Vless => "VLESS",
            ProtocolTag::Vmess => "VMESS",
            ProtocolTag::Trojan => "TROJAN",
            ProtocolTag::Ss => "SS",
            ProtocolTag::Unknown => "?",
        }
    }
}

/// The 32-bit FNV-1a hash of `bs`.
pub open spec fn fnv1a(bs: Seq<u8>) -> u32
    decreases bs.len(),
{
    if bs.len() == 0 {
        2166136261u32
    } else {
        (fnv1a(bs.drop_last()) ^ (bs.last() as u32)).wrapping_mul(16777619u32)
    }
}

/// The hue, in degrees, of the badge of a country code: fixed for the code,
/// so that badges differ by country and stay the same between runs.
pub fn country_hue(code: &str) -> (r: u32)
    ensures
        r == fnv1a(vstd::utf8::encode_utf8(code@)) % 360,
        r < 360,
{
    let bs = code.as_bytes();
    let mut hash: u32 = 2166136261;
    let mut i: usize = 0;
    while i < bs.len()
        invariant
            0 <= i <= bs@.len(),
            bs@ == vstd::utf8::encode_utf8(code@),
            hash == fnv1a(bs@.subrange(0, i as int)),
        decreases bs@.len() - i,
    {
        assert(bs@.subrange(0, i + 1).drop_last() =~= bs@.subrange(0, i as int));
        hash ^= bs[i] as u32;
        hash = hash.wrapping_mul(16777619);
        i += 1;
    }
    assert(bs@.subrange(0, bs@.len() as int) =~= bs@);
    hash % 360
}

/// Whether a country badge has no code to show: blank, or the dash that
/// stands for an unknown country.
pub open spec fn unknown_country_spec(code: Seq<char>) -> bool {
    trim(code).len() == 0 || code == "—"@
}

/// Whether a country badge has no code to show.
pub fn is_unknown_country(code: &str) -> (r: bool)
    ensures
        r == unknown_country_spec(code@),
{
    let cs = chars_of(code);
    if trim_chars(&cs).len() == 0 {
        return true;
    }
    let dash = chars_of("—");
    if cs.len() != dash.len() {
        return false;
    }
    let same = starts_with(&cs, &dash);
    proof {
        if same {
            assert(cs@.subrange(0, dash@.len() as int) =~= cs@);
        }
        if cs@ == dash@ {
            assert(cs@.subrange(0, dash@.len() as int) =~= dash@);
        }
    }
    same
}

/// A truncated text has at most `max_chars` characters (given room for
/// the ellipsis), and a text that fits is left as it is.
pub proof fn law_truncate_fits(s: Seq<char>, max_chars: nat)
    requires
        max_chars >= 1,
    ensures
        truncate_spec(s, max_chars).len() <= max_chars,
        s.len() <= max_chars ==> truncate_spec(s, max_chars) == s,
{
}

} // verus!
