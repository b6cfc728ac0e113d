//! Gathering the links of all enabled sources into one list without
//! duplicate servers, once the subscriptions' feeds have been fetched.
use crate::models::{
    link_views, CustomLinkV, ProxyLink, ProxyLinkV, SourcesConfig, SourcesV, SubscriptionV,
};
use crate::parser::{feed_body_text, feed_spec, parse_link, parse_link_spec, parse_subscription_body};
use crate::sources::{remove_custom_link_spec, remove_subscription_spec};
use crate::text::{chars_of, concat, string_of, string_views, trim, trim_chars};
use vstd::prelude::*;

verus! {

/// The links gathered from all sources, and one message per source that
/// could not be used.
pub struct FetchAllResult {
    pub links: Vec<ProxyLink>,
    pub errors: Vec<String>,
}

pub open spec fn keys_of(s: Seq<ProxyLinkV>) -> Seq<Seq<char>> {
    s.map_values(|l: ProxyLinkV| l.dedup_key())
}

/// `d` with `l` added unless a link with the same key is there already.
pub open spec fn dedup_push(d: Seq<ProxyLinkV>, l: ProxyLinkV) -> Seq<ProxyLinkV> {
    if keys_of(d).contains(l.dedup_key()) {
        d
    } else {
        d.push(l)
    }
}

/// The first link of each key, in order.
pub open spec fn dedup(s: Seq<ProxyLinkV>) -> Seq<ProxyLinkV>
    decreases s.len(),
{
    if s.len() == 0 {
        seq![]
    } else {
        dedup_push(dedup(s.drop_last()), s.last())
    }
}

pub open spec fn result_text(r: Result<String, String>) -> Result<Seq<char>, Seq<char>> {
    match r {
        Ok(s) => Ok(s@),
        Err(e) => Err(e@),
    }
}

/// The links of the feeds fetched for the enabled subscriptions, in order;
/// a feed served as base64 is decoded first.
pub open spec fn feed_links(subs: Seq<SubscriptionV>, fetched: Seq<Result<Seq<char>, Seq<char>>>) -> Seq<ProxyLinkV>
    decreases subs.len(),
{
    if subs.len() == 0 || fetched.len() == 0 {
        seq![]
    } else {
        let prev = feed_links(subs.drop_last(), fetched.drop_last());
        match fetched.last() {
            Ok(text) => if subs.last().enabled {
                prev + feed_spec(feed_body_text(text))
            } else {
                prev
            },
            Err(_) => prev,
        }
    }
}

pub open spec fn feed_error_message(name: Seq<char>, e: Seq<char>) -> Seq<char> {
    "«"@ + name + "»: "@ + e
}

/// One message per enabled subscription whose feed could not be fetched.
pub open spec fn feed_errors(subs: Seq<SubscriptionV>, fetched: Seq<Result<Seq<char>, Seq<char>>>) -> Seq<Seq<char>>
    decreases subs.len(),
{
    if subs.len() == 0 || fetched.len() == 0 {
        seq![]
    } else {
        let prev = feed_errors(subs.drop_last(), fetched.drop_last());
        match fetched.last() {
            Err(e) => if subs.last().enabled {
                prev.push(feed_error_message(subs.last().name, e))
            } else {
                prev
            },
            Ok(_) => prev,
        }
    }
}

/// The enabled custom links that parse, in order.
pub open spec fn custom_links_parsed(cs: Seq<CustomLinkV>) -> Seq<ProxyLinkV>
    decreases cs.len(),
{
    if cs.len() == 0 {
        seq![]
    } else {
        let prev = custom_links_parsed(cs.drop_last());
        if cs.last().enabled && parse_link_spec(trim(cs.last().raw)) is Some {
            prev.push(parse_link_spec(trim(cs.last().raw))->0)
        } else {
            prev
        }
    }
}

pub open spec fn custom_error_message(label: Seq<char>) -> Seq<char> {
    "Не удалось разобрать ссылку: "@ + label
}

/// One message per enabled custom link that does not parse.
pub open spec fn custom_errors(cs: Seq<CustomLinkV>) -> Seq<Seq<char>>
    decreases cs.len(),
{
    if cs.len() == 0 {
        seq![]
    } else {
        let prev = custom_errors(cs.drop_last());
        if cs.last().enabled && parse_link_spec(trim(cs.last().raw)) is None {
            prev.push(custom_error_message(cs.last().label))
        } else {
            prev
        }
    }
}

pub open spec fn fetched_view(f: Seq<Result<String, String>>) -> Seq<Result<Seq<char>, Seq<char>>> {
    f.map_values(|r: Result<String, String>| result_text(r))
}

/// The links and messages that gathering from `c` gives, where `fetched[i]`
/// is what fetching the feed of subscription `i` gave.
pub open spec fn collect_spec(c: SourcesV, fetched: Seq<Result<Seq<char>, Seq<char>>>) -> (Seq<ProxyLinkV>, Seq<Seq<char>>) {
    (
        dedup(feed_links(c.subscriptions, fetched) + custom_links_parsed(c.custom_links)),
        feed_errors(c.subscriptions, fetched) + custom_errors(c.custom_links),
    )
}

/// The elements of `v`, last first.
fn reversed<T>(v: Vec<T>) -> (r: Vec<T>)
    ensures
        r@.len() == v@.len(),
        forall|q: int| 0 <= q < v@.len() ==> #[trigger] r@[q] == v@[v@.len() - 1 - q],
{
    let ghost orig = v@;
    let mut v = v;
    let mut r: Vec<T> = Vec::new();
    while v.len() > 0
        invariant
            v@.len() + r@.len() == orig.len(),
            v@ == orig.subrange(0, v@.len() as int),
            forall|q: int| 0 <= q < r@.len() ==> #[trigger] r@[q] == orig[orig.len() - 1 - q],
        decreases v@.len(),
    {
        let x = v.pop().unwrap();
        r.push(x);
    }
    r
}

/// Adds `l` to `links` unless a link with its key is there already.
fn push_unique(links: &mut Vec<ProxyLink>, seen: &mut Vec<String>, l: ProxyLink)
    requires
        string_views(old(seen)@) == keys_of(link_views(old(links)@)),
    ensures
        link_views(final(links)@) == dedup_push(link_views(old(links)@), l@),
        string_views(final(seen)@) == keys_of(link_views(final(links)@)),
{
    let key = l.dedup_key();
    let n = seen.len();
    let mut i: usize = 0;
    while i < n
        invariant
            0 <= i <= n,
            n == seen@.len(),
            string_views(seen@) == keys_of(link_views(links@)),
            key@ == l@.dedup_key(),
            forall|k: int| 0 <= k < i ==> (#[trigger] seen@[k])@ != key@,
        decreases n - i,
    {
        if seen[i] == key {
            assert(keys_of(link_views(links@))[i as int] == key@);
            return;
        }
        i += 1;
    }
    assert(!keys_of(link_views(links@)).contains(key@)) by {
        if keys_of(link_views(links@)).contains(key@) {
            let k = choose|k: int|
                0 <= k < keys_of(link_views(links@)).len() && keys_of(link_views(links@))[k]
                    == key@;
            assert(string_views(seen@)[k] == seen@[k]@);
        }
    }
    let ghost old_links = links@;
    let ghost old_seen = seen@;
    seen.push(key);
    links.push(l);
    assert(link_views(links@) =~= link_views(old_links).push(l@));
    assert(string_views(seen@) =~= string_views(old_seen).push(l@.dedup_key()));
    assert(keys_of(link_views(links@)) =~= keys_of(link_views(old_links)).push(l@.dedup_key()));
}

/// Gathers the links of all enabled subscriptions and custom links, keeping
/// the first link of each server; `fetched[i]` is the feed that
/// subscription `i` gave, or the message of the error fetching it.
pub fn collect_links(sources: &SourcesConfig, fetched: Vec<Result<String, String>>) -> (r: FetchAllResult)
    requires
        fetched@.len() == sources@.subscriptions.len(),
    ensures
        (link_views(r.links@), string_views(r.errors@)) == collect_spec(sources@, fetched_view(fetched@)),
{
    let ghost fv = fetched_view(fetched@);
    let ghost subs = sources@.subscriptions;
    let mut links: Vec<ProxyLink> = Vec::new();
    let mut seen: Vec<String> = Vec::new();
    let mut errors: Vec<String> = Vec::new();
    let ghost mut all: Seq<ProxyLinkV> = seq![];
    let n = sources.subscriptions.len();
    let mut i: usize = 0;
    while i < n
        invariant
            0 <= i <= n,
            n == subs.len(),
            subs == sources@.subscriptions,
            fv == fetched_view(fetched@),
            fv.len() == n,
            all == feed_links(subs.subrange(0, i as int), fv.subrange(0, i as int)),
            link_views(links@) == dedup(all),
            string_views(seen@) == keys_of(link_views(links@)),
            string_views(errors@) == feed_errors(subs.subrange(0, i as int), fv.subrange(0, i as int)),
        decreases n - i,
    {
        assert(subs.subrange(0, i + 1).drop_last() =~= subs.subrange(0, i as int));
        assert(fv.subrange(0, i + 1).drop_last() =~= fv.subrange(0, i as int));
        let sub = &sources.subscriptions[i];
        assert(subs[i as int] == sub@);
        match &fetched[i] {
            Ok(text) => {
                if sub.enabled {
                    assert(fv[i as int] == result_text(fetched@[i as int]));
                    let feed = parse_subscription_body(text.as_str());
                    let ghost prev = all;
                    let ghost orig = feed@;
                    let ghost fl = link_views(orig);
                    let m = feed.len();
                    let mut rev = reversed(feed);
                    let mut j: usize = 0;
                    while j < m
                        invariant
                            0 <= j <= m,
                            m == orig.len(),
                            fl == link_views(orig),
                            rev@.len() == m - j,
                            forall|q: int| 0 <= q < m - j ==> #[trigger] rev@[q] == orig[m - 1 - q],
                            all == prev + fl.subrange(0, j as int),
                            link_views(links@) == dedup(all),
                            string_views(seen@) == keys_of(link_views(links@)),
                        decreases m - j,
                    {
                        let l = rev.pop().unwrap();
                        assert(l == orig[j as int]);
                        proof {
                            let nall = all.push(l@);
                            assert(nall.drop_last() =~= all);
                            assert(prev + fl.subrange(0, j + 1) =~= nall);
                            all = nall;
                        }
                        push_unique(&mut links, &mut seen, l);
                        j += 1;
                    }
                    assert(fl.subrange(0, m as int) =~= fl);
                    assert(all =~= feed_links(subs.subrange(0, i + 1), fv.subrange(0, i + 1)));
                }
            },
            Err(e) => {
                if sub.enabled {
                    let msg = concat(&chars_of("«"), &chars_of(sub.name.as_str()));
                    let msg = concat(&msg, &chars_of("»: "));
                    let msg = concat(&msg, &chars_of(e.as_str()));
                    let ghost old_errors = errors@;
                    errors.push(string_of(&msg));
                    assert(string_views(errors@) =~= string_views(old_errors).push(msg@));
                }
            },
        }
        i += 1;
    }
    assert(subs.subrange(0, n as int) =~= subs);
    assert(fv.subrange(0, n as int) =~= fv);
    let ghost sub_links = all;
    let ghost sub_errors = errors@;
    let ghost cs = sources@.custom_links;
    let m = sources.custom_links.len();
    let mut k: usize = 0;
    while k < m
        invariant
            0 <= k <= m,
            m == cs.len(),
            cs == sources@.custom_links,
            all == sub_links + custom_links_parsed(cs.subrange(0, k as int)),
            link_views(links@) == dedup(all),
            string_views(seen@) == keys_of(link_views(links@)),
            string_views(errors@) == string_views(sub_errors) + custom_errors(
                cs.subrange(0, k as int),
            ),
        decreases m - k,
    {
        assert(cs.subrange(0, k + 1).drop_last() =~= cs.subrange(0, k as int));
        let custom = &sources.custom_links[k];
        assert(cs[k as int] == custom@);
        if custom.enabled {
            let raw = string_of(&trim_chars(&chars_of(custom.raw.as_str())));
            match parse_link(raw.as_str()) {
                Some(l) => {
                    proof {
                        let nall = all.push(l@);
                        assert(nall.drop_last() =~= all);
                        assert(sub_links + custom_links_parsed(cs.subrange(0, k + 1)) =~= nall);
                        all = nall;
                    }
                    push_unique(&mut links, &mut seen, l);
                },
                None => {
                    let msg = concat(
                        &chars_of("Не удалось разобрать ссылку: "),
                        &chars_of(custom.label.as_str()),
                    );
                    let ghost old_errors = errors@;
                    errors.push(string_of(&msg));
                    assert(string_views(errors@) =~= string_views(old_errors).push(msg@));
                },
            }
        }
        k += 1;
    }
    assert(cs.subrange(0, m as int) =~= cs);
    FetchAllResult { links, errors }
}

/// No two gathered links are the same server: their keys differ.
pub proof fn law_dedup_keys_distinct(s: Seq<ProxyLinkV>)
    ensures
        forall|i: int, j: int|
            0 <= i < j < dedup(s).len() ==> (#[trigger] dedup(s)[i]).dedup_key() != (
            #[trigger] dedup(s)[j]).dedup_key(),
    decreases s.len(),
{
    if s.len() > 0 {
        law_dedup_keys_distinct(s.drop_last());
        let d = dedup(s.drop_last());
        let l = s.last();
        if !keys_of(d).contains(l.dedup_key()) {
            assert forall|i: int| 0 <= i < d.len() implies (#[trigger] d[i]).dedup_key()
                != l.dedup_key() by {
                if d[i].dedup_key() == l.dedup_key() {
                    assert(keys_of(d)[i] == l.dedup_key());
                }
            }
        }
    }
}

/// Every server among the candidates is kept: each candidate's key is the
/// key of a gathered link.
pub proof fn law_dedup_keeps_every_server(s: Seq<ProxyLinkV>)
    ensures
        forall|i: int| 0 <= i < s.len() ==> keys_of(dedup(s)).contains(#[trigger] s[i].dedup_key()),
    decreases s.len(),
{
    if s.len() > 0 {
        law_dedup_keeps_every_server(s.drop_last());
        let d = dedup(s.drop_last());
        let l = s.last();
        assert forall|i: int| 0 <= i < s.len() implies keys_of(dedup(s)).contains(
            #[trigger] s[i].dedup_key(),
        ) by {
            if i < s.len() - 1 {
                assert(s[i] == s.drop_last()[i]);
                let k = choose|k: int| 0 <= k < keys_of(d).len() && keys_of(d)[k] == s[i].dedup_key();
                if !keys_of(d).contains(l.dedup_key()) {
                    assert(keys_of(dedup(s))[k] == keys_of(d)[k]);
                }
            } else {
                if !keys_of(d).contains(l.dedup_key()) {
                    assert(keys_of(dedup(s))[d.len() as int] == l.dedup_key());
                }
            }
        }
    }
}

/// Every gathered link is one of the candidates.
pub proof fn law_dedup_only_candidates(s: Seq<ProxyLinkV>)
    ensures
        forall|i: int| 0 <= i < dedup(s).len() ==> s.contains(#[trigger] dedup(s)[i]),
    decreases s.len(),
{
    if s.len() > 0 {
        law_dedup_only_candidates(s.drop_last());
        let d = dedup(s.drop_last());
        assert forall|i: int| 0 <= i < dedup(s).len() implies s.contains(#[trigger] dedup(s)[i]) by {
            if i < d.len() {
                assert(dedup(s)[i] == d[i]);
                let k = choose|k: int| 0 <= k < s.drop_last().len() && s.drop_last()[k] == d[i];
                assert(s[k] == d[i]);
            } else {
                assert(s[s.len() - 1] == dedup(s)[i]);
            }
        }
    }
}

proof fn lemma_custom_remove_disabled(cs: Seq<CustomLinkV>, j: int)
    requires
        0 <= j < cs.len(),
        !cs[j].enabled,
    ensures
        custom_links_parsed(cs.remove(j)) == custom_links_parsed(cs),
        custom_errors(cs.remove(j)) == custom_errors(cs),
    decreases cs.len(),
{
    if j == cs.len() - 1 {
        assert(cs.remove(j) =~= cs.drop_last());
    } else {
        lemma_custom_remove_disabled(cs.drop_last(), j);
        assert(cs.remove(j).drop_last() =~= cs.drop_last().remove(j));
        assert(cs.remove(j).last() == cs.last());
    }
}

proof fn lemma_subs_remove_disabled(
    subs: Seq<SubscriptionV>,
    f: Seq<Result<Seq<char>, Seq<char>>>,
    j: int,
)
    requires
        subs.len() == f.len(),
        0 <= j < subs.len(),
        !subs[j].enabled,
    ensures
        feed_links(subs.remove(j), f.remove(j)) == feed_links(subs, f),
        feed_errors(subs.remove(j), f.remove(j)) == feed_errors(subs, f),
    decreases subs.len(),
{
    if j == subs.len() - 1 {
        assert(subs.remove(j) =~= subs.drop_last());
        assert(f.remove(j) =~= f.drop_last());
    } else {
        lemma_subs_remove_disabled(subs.drop_last(), f.drop_last(), j);
        assert(subs.remove(j).drop_last() =~= subs.drop_last().remove(j));
        assert(f.remove(j).drop_last() =~= f.drop_last().remove(j));
        assert(subs.remove(j).last() == subs.last());
        assert(f.remove(j).last() == f.last());
    }
}

/// A custom link that is switched off makes no difference to what is
/// gathered: dropping it gives the same links and the same messages.
pub proof fn law_disabled_custom_link_ignored(
    c: SourcesV,
    fetched: Seq<Result<Seq<char>, Seq<char>>>,
    j: int,
)
    requires
        0 <= j < c.custom_links.len(),
        !c.custom_links[j].enabled,
    ensures
        collect_spec(remove_custom_link_spec(c, j), fetched) == collect_spec(c, fetched),
{
    lemma_custom_remove_disabled(c.custom_links, j);
}

/// A subscription that is switched off makes no difference to what is
/// gathered, whatever its fetch gave: dropping it and its feed gives the
/// same links and the same messages.
pub proof fn law_disabled_subscription_ignored(
    c: SourcesV,
    fetched: Seq<Result<Seq<char>, Seq<char>>>,
    j: int,
)
    requires
        fetched.len() == c.subscriptions.len(),
        0 <= j < c.subscriptions.len(),
        !c.subscriptions[j].enabled,
    ensures
        collect_spec(remove_subscription_spec(c, j), fetched.remove(j)) == collect_spec(c, fetched),
{
    lemma_subs_remove_disabled(c.subscriptions, fetched, j);
}

/// Sources with nothing switched on gather no link and no message.
pub proof fn law_nothing_enabled_gathers_nothing(
    c: SourcesV,
    fetched: Seq<Result<Seq<char>, Seq<char>>>,
)
    requires
        fetched.len() == c.subscriptions.len(),
        forall|i: int| 0 <= i < c.subscriptions.len() ==> !(#[trigger] c.subscriptions[i]).enabled,
        forall|i: int| 0 <= i < c.custom_links.len() ==> !(#[trigger] c.custom_links[i]).enabled,
    ensures
        collect_spec(c, fetched).0.len() == 0,
        collect_spec(c, fetched).1.len() == 0,
{
    lemma_nothing_enabled_subs(c.subscriptions, fetched);
    lemma_nothing_enabled_customs(c.custom_links);
    assert(feed_links(c.subscriptions, fetched) + custom_links_parsed(c.custom_links)
        =~= Seq::<ProxyLinkV>::empty());
}

proof fn lemma_nothing_enabled_subs(subs: Seq<SubscriptionV>, f: Seq<Result<Seq<char>, Seq<char>>>)
    requires
        forall|i: int| 0 <= i < subs.len() ==> !(#[trigger] subs[i]).enabled,
    ensures
        feed_links(subs, f).len() == 0,
        feed_errors(subs, f).len() == 0,
    decreases subs.len(),
{
    if subs.len() > 0 && f.len() > 0 {
        assert(!subs[subs.len() - 1].enabled);
        assert forall|i: int| 0 <= i < subs.drop_last().len() implies !(
        #[trigger] subs.drop_last()[i]).enabled by {
            assert(subs.drop_last()[i] == subs[i]);
        }
        lemma_nothing_enabled_subs(subs.drop_last(), f.drop_last());
    }
}

proof fn lemma_nothing_enabled_customs(cs: Seq<CustomLinkV>)
    requires
        forall|i: int| 0 <= i < cs.len() ==> !(#[trigger] cs[i]).enabled,
    ensures
        custom_links_parsed(cs).len() == 0,
        custom_errors(cs).len() == 0,
    decreases cs.len(),
{
    if cs.len() > 0 {
        assert(!cs[cs.len() - 1].enabled);
        assert forall|i: int| 0 <= i < cs.drop_last().len() implies !(
        #[trigger] cs.drop_last()[i]).enabled by {
            assert(cs.drop_last()[i] == cs[i]);
        }
        lemma_nothing_enabled_customs(cs.drop_last());
    }
}

proof fn lemma_enabled_custom_in(cs: Seq<CustomLinkV>, j: int)
    requires
        0 <= j < cs.len(),
        cs[j].enabled,
    ensures
        parse_link_spec(trim(cs[j].raw)) matches Some(l) ==> custom_links_parsed(cs).contains(l),
        parse_link_spec(trim(cs[j].raw)) is None ==> custom_errors(cs).contains(
            custom_error_message(cs[j].label),
        ),
    decreases cs.len(),
{
    let prev_l = custom_links_parsed(cs.drop_last());
    let prev_e = custom_errors(cs.drop_last());
    if j < cs.len() - 1 {
        assert(cs.drop_last()[j] == cs[j]);
        lemma_enabled_custom_in(cs.drop_last(), j);
        if parse_link_spec(trim(cs[j].raw)) is Some {
            let l = parse_link_spec(trim(cs[j].raw))->0;
            let k = choose|k: int| 0 <= k < prev_l.len() && prev_l[k] == l;
            assert(custom_links_parsed(cs)[k] == l);
        } else {
            let m = custom_error_message(cs[j].label);
            let k = choose|k: int| 0 <= k < prev_e.len() && prev_e[k] == m;
            assert(custom_errors(cs)[k] == m);
        }
    } else {
        if parse_link_spec(trim(cs[j].raw)) is Some {
            assert(custom_links_parsed(cs)[prev_l.len() as int] == parse_link_spec(
                trim(cs[j].raw),
            )->0);
        } else {
            assert(custom_errors(cs)[prev_e.len() as int] == custom_error_message(cs[j].label));
        }
    }
}

proof fn lemma_enabled_feed_in(
    subs: Seq<SubscriptionV>,
    f: Seq<Result<Seq<char>, Seq<char>>>,
    i: int,
)
    requires
        subs.len() == f.len(),
        0 <= i < subs.len(),
        subs[i].enabled,
    ensures
        f[i] matches Ok(t) ==> forall|x: ProxyLinkV|
            feed_spec(feed_body_text(t)).contains(x) ==> #[trigger] feed_links(subs, f).contains(x),
        f[i] matches Err(e) ==> feed_errors(subs, f).contains(feed_error_message(subs[i].name, e)),
    decreases subs.len(),
{
    let n = subs.len() - 1;
    let prev_l = feed_links(subs.drop_last(), f.drop_last());
    let prev_e = feed_errors(subs.drop_last(), f.drop_last());
    if i < n {
        assert(subs.drop_last()[i] == subs[i]);
        assert(f.drop_last()[i] == f[i]);
        lemma_enabled_feed_in(subs.drop_last(), f.drop_last(), i);
        match f[i] {
            Ok(t) => {
                assert forall|x: ProxyLinkV|
                    feed_spec(feed_body_text(t)).contains(x) implies #[trigger] feed_links(
                    subs,
                    f,
                ).contains(x) by {
                    assert(prev_l.contains(x));
                    let k = choose|k: int| 0 <= k < prev_l.len() && prev_l[k] == x;
                    assert(feed_links(subs, f)[k] == x);
                }
            },
            Err(e) => {
                let m = feed_error_message(subs[i].name, e);
                let k = choose|k: int| 0 <= k < prev_e.len() && prev_e[k] == m;
                assert(feed_errors(subs, f)[k] == m);
            },
        }
    } else {
        assert(f.last() == f[i]);
        assert(subs.last() == subs[i]);
        match f[i] {
            Ok(t) => {
                assert forall|x: ProxyLinkV|
                    feed_spec(feed_body_text(t)).contains(x) implies #[trigger] feed_links(
                    subs,
                    f,
                ).contains(x) by {
                    let fs = feed_spec(feed_body_text(t));
                    let k = choose|k: int| 0 <= k < fs.len() && fs[k] == x;
                    assert(feed_links(subs, f)[prev_l.len() + k] == x);
                }
            },
            Err(e) => {
                assert(feed_errors(subs, f)[prev_e.len() as int] == feed_error_message(
                    subs[i].name,
                    e,
                ));
            },
        }
    }
}

proof fn lemma_gathered_key(s: Seq<ProxyLinkV>, x: ProxyLinkV)
    requires
        s.contains(x),
    ensures
        keys_of(dedup(s)).contains(x.dedup_key()),
{
    law_dedup_keeps_every_server(s);
    let k = choose|k: int| 0 <= k < s.len() && s[k] == x;
    assert(keys_of(dedup(s)).contains(s[k].dedup_key()));
}

/// Every switched-on source is used: each link of the feed of a
/// subscription that is on, and the link of each custom link that is on,
/// is gathered (as the first link of its server); each such subscription
/// whose fetch failed, and each such custom link that does not parse, has
/// its message.
pub proof fn law_enabled_sources_used(c: SourcesV, fetched: Seq<Result<Seq<char>, Seq<char>>>)
    requires
        fetched.len() == c.subscriptions.len(),
    ensures
        forall|i: int, t: Seq<char>, x: ProxyLinkV|
            #![trigger c.subscriptions[i], feed_spec(feed_body_text(t)).contains(x)]
            0 <= i < c.subscriptions.len() && c.subscriptions[i].enabled && fetched[i] == Ok::<
                Seq<char>,
                Seq<char>,
            >(t) && feed_spec(feed_body_text(t)).contains(x) ==> keys_of(
                collect_spec(c, fetched).0,
            ).contains(x.dedup_key()),
        forall|i: int|
            0 <= i < c.subscriptions.len() && (#[trigger] c.subscriptions[i]).enabled && (
            fetched[i] matches Err(e)) ==> collect_spec(c, fetched).1.contains(
                feed_error_message(c.subscriptions[i].name, fetched[i]->Err_0),
            ),
        forall|j: int|
            0 <= j < c.custom_links.len() && (#[trigger] c.custom_links[j]).enabled && (
            parse_link_spec(trim(c.custom_links[j].raw)) matches Some(l)) ==> keys_of(
                collect_spec(c, fetched).0,
            ).contains(parse_link_spec(trim(c.custom_links[j].raw))->0.dedup_key()),
        forall|j: int|
            0 <= j < c.custom_links.len() && (#[trigger] c.custom_links[j]).enabled
                && parse_link_spec(trim(c.custom_links[j].raw)) is None ==> collect_spec(
                c,
                fetched,
            ).1.contains(custom_error_message(c.custom_links[j].label)),
{
    let a = feed_links(c.subscriptions, fetched);
    let b = custom_links_parsed(c.custom_links);
    let ea = feed_errors(c.subscriptions, fetched);
    let eb = custom_errors(c.custom_links);
    assert forall|i: int, t: Seq<char>, x: ProxyLinkV|
        #![trigger c.subscriptions[i], feed_spec(feed_body_text(t)).contains(x)]
        0 <= i < c.subscriptions.len() && c.subscriptions[i].enabled && fetched[i] == Ok::<
            Seq<char>,
            Seq<char>,
        >(t) && feed_spec(feed_body_text(t)).contains(x) implies keys_of(
        collect_spec(c, fetched).0,
    ).contains(x.dedup_key()) by {
        lemma_enabled_feed_in(c.subscriptions, fetched, i);
        assert(a.contains(x));
        let k = choose|k: int| 0 <= k < a.len() && a[k] == x;
        assert((a + b)[k] == x);
        lemma_gathered_key(a + b, x);
    }
    assert forall|i: int|
        0 <= i < c.subscriptions.len() && (#[trigger] c.subscriptions[i]).enabled && (
        fetched[i] matches Err(e)) implies collect_spec(c, fetched).1.contains(
        feed_error_message(c.subscriptions[i].name, fetched[i]->Err_0),
    ) by {
        lemma_enabled_feed_in(c.subscriptions, fetched, i);
        let m = feed_error_message(c.subscriptions[i].name, fetched[i]->Err_0);
        let k = choose|k: int| 0 <= k < ea.len() && ea[k] == m;
        assert((ea + eb)[k] == m);
    }
    assert forall|j: int|
        0 <= j < c.custom_links.len() && (#[trigger] c.custom_links[j]).enabled && (
        parse_link_spec(trim(c.custom_links[j].raw)) matches Some(l)) implies keys_of(
        collect_spec(c, fetched).0,
    ).contains(parse_link_spec(trim(c.custom_links[j].raw))->0.dedup_key()) by {
        lemma_enabled_custom_in(c.custom_links, j);
        let x = parse_link_spec(trim(c.custom_links[j].raw))->0;
        let k = choose|k: int| 0 <= k < b.len() && b[k] == x;
        assert((a + b)[a.len() + k] == x);
        lemma_gathered_key(a + b, x);
    }
    assert forall|j: int|
        0 <= j < c.custom_links.len() && (#[trigger] c.custom_links[j]).enabled
            && parse_link_spec(trim(c.custom_links[j].raw)) is None implies collect_spec(
        c,
        fetched,
    ).1.contains(custom_error_message(c.custom_links[j].label)) by {
        lemma_enabled_custom_in(c.custom_links, j);
        let m = custom_error_message(c.custom_links[j].label);
        let k = choose|k: int| 0 <= k < eb.len() && eb[k] == m;
        assert((ea + eb)[ea.len() + k] == m);
    }
}

/// For each server the first of its links is the one kept: a link whose
/// key no earlier link has is among the gathered ones.
pub proof fn law_dedup_keeps_first(s: Seq<ProxyLinkV>)
    ensures
        forall|i: int|
            0 <= i < s.len() && (forall|m: int| 0 <= m < i ==> s[m].dedup_key() != s[i].dedup_key())
                ==> dedup(s).contains(#[trigger] s[i]),
    decreases s.len(),
{
    if s.len() > 0 {
        let sp = s.drop_last();
        let d = dedup(sp);
        let l = s.last();
        law_dedup_keeps_first(sp);
        law_dedup_only_candidates(sp);
        assert forall|i: int|
            0 <= i < s.len() && (forall|m: int| 0 <= m < i ==> s[m].dedup_key() != s[i].dedup_key())
                implies dedup(s).contains(#[trigger] s[i]) by {
            if i < s.len() - 1 {
                assert(sp[i] == s[i]);
                assert forall|m: int| 0 <= m < i implies sp[m].dedup_key() != sp[i].dedup_key() by {
                    assert(sp[m] == s[m]);
                }
                assert(d.contains(sp[i]));
                let k = choose|k: int| 0 <= k < d.len() && d[k] == sp[i];
                assert(dedup(s)[k] == s[i]);
            } else {
                assert(!keys_of(d).contains(l.dedup_key())) by {
                    if keys_of(d).contains(l.dedup_key()) {
                        let k = choose|k: int| 0 <= k < keys_of(d).len() && keys_of(d)[k]
                            == l.dedup_key();
                        assert(sp.contains(d[k]));
                        let m = choose|m: int| 0 <= m < sp.len() && sp[m] == d[k];
                        assert(s[m] == sp[m]);
                        assert(s[m].dedup_key() != s[i].dedup_key());
                    }
                }
                assert(dedup(s)[d.len() as int] == l);
            }
        }
    }
}

} // verus!
