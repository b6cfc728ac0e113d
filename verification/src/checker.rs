//! The country of a working proxy, read from a Cloudflare trace response.
use crate::text::{
    chars_of, concat, copy_range, decimal, decimal_digits, find_char, find_first, lines,
    split_lines, starts_with, string_of, views_of,
};
use vstd::prelude::*;

verus! {

pub open spec fn is_ascii_alpha(c: char) -> bool {
    ('a' <= c && c <= 'z') || ('A' <= c && c <= 'Z')
}

pub open spec fn ascii_upper(c: char) -> char {
    if 'a' <= c && c <= 'z' {
        ((c as u32) - 32) as char
    } else {
        c
    }
}

/// A two-letter country code, upper-cased, when `code` is two bytes that
/// are both ASCII letters.
pub open spec fn country_code_spec(code: Seq<char>) -> Option<Seq<char>> {
    if vstd::utf8::encode_utf8(code).len() == 2 && code.len() == 2 && is_ascii_alpha(code[0])
        && is_ascii_alpha(code[1]) {
        Some(seq![ascii_upper(code[0]), ascii_upper(code[1])])
    } else {
        None
    }
}

fn upper_char(c: char) -> (r: char)
    ensures
        r == ascii_upper(c),
{
    if 'a' <= c && c <= 'z' {
        ((c as u8) - 32) as char
    } else {
        c
    }
}

fn ascii_alpha(c: char) -> (r: bool)
    ensures
        r == is_ascii_alpha(c),
{
    ('a' <= c && c <= 'z') || ('A' <= c && c <= 'Z')
}

/// The upper-case two-letter country code, if `country_code` looks like an
/// ISO code: two bytes, both ASCII letters.
pub fn extract_country_code(country_code: &str) -> (r: Option<String>)
    ensures
        match r {
            Some(s) => country_code_spec(country_code@) == Some(s@),
            None => country_code_spec(country_code@) is None,
        },
{
    let bytes = country_code.as_bytes().len();
    let cs = chars_of(country_code);
    if bytes != 2 || cs.len() != 2 {
        return None;
    }
    if !(ascii_alpha(cs[0]) && ascii_alpha(cs[1])) {
        return None;
    }
    let mut out: Vec<char> = Vec::new();
    out.push(upper_char(cs[0]));
    out.push(upper_char(cs[1]));
    assert(out@ =~= seq![ascii_upper(cs@[0]), ascii_upper(cs@[1])]);
    Some(string_of(&out))
}

/// The value of the last `key=value` line whose key is `loc`; a line is
/// split at its first `=`.
pub open spec fn trace_loc(ls: Seq<Seq<char>>) -> Option<Seq<char>>
    decreases ls.len(),
{
    if ls.len() == 0 {
        None
    } else {
        let l = ls.last();
        match find_first(l, '=') {
            Some(i) => if l.subrange(0, i) == "loc"@ {
                Some(l.subrange(i + 1, l.len() as int))
            } else {
                trace_loc(ls.drop_last())
            },
            None => trace_loc(ls.drop_last()),
        }
    }
}

/// The country that a trace response names: the code of its `loc` line,
/// with `XX` standing in where there is none.
pub open spec fn trace_country_spec(text: Seq<char>) -> Option<Seq<char>> {
    country_code_spec(
        match trace_loc(lines(text)) {
            Some(v) => v,
            None => "XX"@,
        },
    )
}

fn same_chars(a: &[char], b: &[char]) -> (r: bool)
    ensures
        r == (a@ == b@),
{
    if a.len() != b.len() {
        return false;
    }
    let r = starts_with(a, b);
    assert(r ==> a@.subrange(0, b@.len() as int) =~= a@);
    proof {
        if a@ == b@ {
            assert(a@.subrange(0, b@.len() as int) =~= b@);
        }
    }
    r
}

/// The country code that a Cloudflare trace response (`key=value` lines)
/// reports in its `loc` line.
pub fn country_from_trace(text: &str) -> (r: Option<String>)
    ensures
        match r {
            Some(s) => trace_country_spec(text@) == Some(s@),
            None => trace_country_spec(text@) is None,
        },
{
    let ls = split_lines(&chars_of(text));
    let ghost lv = views_of(ls@);
    let key = chars_of("loc");
    let mut i = ls.len();
    assert(lv.subrange(0, lv.len() as int) =~= lv);
    while i > 0
        invariant
            i <= ls@.len(),
            lv == views_of(ls@),
            lv == lines(text@),
            key@ == "loc"@,
            trace_loc(lv) == trace_loc(lv.subrange(0, i as int)),
        decreases i,
    {
        let ghost pre = lv.subrange(0, i as int);
        assert(pre.drop_last() =~= lv.subrange(0, i - 1));
        assert(pre.last() == ls@[i - 1]@);
        let line = &ls[i - 1];
        match find_char(line, '=') {
            Some(k) => {
                let name = copy_range(line, 0, k);
                if same_chars(&name, &key) {
                    let n = line.len();
                    let value = copy_range(line, k + 1, n);
                    return extract_country_code(string_of(&value).as_str());
                }
            },
            None => {},
        }
        i -= 1;
    }
    extract_country_code("XX")
}

/// The id of the candidate at `index` in a search: `cfg_` and its
/// position counted from one.
pub fn candidate_id(index: usize) -> (r: String)
    ensures
        r@ == "cfg_"@ + decimal(index as nat + 1),
{
    string_of(&concat(&chars_of("cfg_"), &decimal_digits(index as u128 + 1)))
}

/// A country code is two upper-case ASCII letters.
pub proof fn law_country_code_upper(code: Seq<char>)
    ensures
        country_code_spec(code) matches Some(c) ==> c.len() == 2 && forall|i: int|
            0 <= i < 2 ==> 'A' <= #[trigger] c[i] && c[i] <= 'Z',
{
    if country_code_spec(code) is Some {
        let c = country_code_spec(code)->0;
        assert forall|i: int| 0 <= i < 2 implies 'A' <= #[trigger] c[i] && c[i] <= 'Z' by {
            let x = code[i];
            assert(c[i] == ascii_upper(x));
            if 'a' <= x && x <= 'z' {
                assert(((x as u32) - 32) as char == ascii_upper(x));
                assert('A' <= (((x as u32) - 32) as char));
            }
        }
    }
}

} // verus!
