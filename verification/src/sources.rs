//! Editing the user's sources of links: subscriptions and links added by hand.
use crate::models::{CustomLink, CustomLinkV, ProxyLinkV, SourcesConfig, SourcesV, Subscription, SubscriptionV};
use crate::parser::{parse_link, parse_link_spec};
use crate::text::{
    chars_of, concat, decimal, decimal_digits, law_trim_idempotent, string_of, trim, trim_chars,
};
use vstd::prelude::*;

verus! {

/// Some subscription of `c` has the URL `url`.
pub open spec fn has_url(c: SourcesV, url: Seq<char>) -> bool {
    exists|i: int| 0 <= i < c.subscriptions.len() && (#[trigger] c.subscriptions[i]).url == url
}

/// Some custom link of `c` is `raw`.
pub open spec fn has_raw(c: SourcesV, raw: Seq<char>) -> bool {
    exists|i: int| 0 <= i < c.custom_links.len() && (#[trigger] c.custom_links[i]).raw == raw
}

/// No two subscriptions share a URL.
pub open spec fn urls_distinct(c: SourcesV) -> bool {
    forall|i: int, j: int|
        0 <= i < j < c.subscriptions.len() ==> (#[trigger] c.subscriptions[i]).url
            != (#[trigger] c.subscriptions[j]).url
}

/// No two custom links are the same text.
pub open spec fn raws_distinct(c: SourcesV) -> bool {
    forall|i: int, j: int|
        0 <= i < j < c.custom_links.len() ==> (#[trigger] c.custom_links[i]).raw
            != (#[trigger] c.custom_links[j]).raw
}

/// The name a subscription gets: the one given, trimmed, or else
/// "Подписка #n" with `n` its position counted from one.
pub open spec fn subscription_name(c: SourcesV, name: Seq<char>) -> Seq<char> {
    if trim(name).len() == 0 {
        "Подписка #"@ + decimal((c.subscriptions.len() + 1) as nat)
    } else {
        trim(name)
    }
}

/// The sources after adding the subscription `url` named `name`: nothing
/// changes for an empty URL or one already there.
pub open spec fn add_subscription_spec(c: SourcesV, name: Seq<char>, url: Seq<char>) -> SourcesV {
    let u = trim(url);
    if u.len() == 0 || has_url(c, u) {
        c
    } else {
        SourcesV {
            subscriptions: c.subscriptions.push(
                SubscriptionV { name: subscription_name(c, name), url: u, enabled: true },
            ),
            custom_links: c.custom_links,
        }
    }
}

pub open spec fn remove_subscription_spec(c: SourcesV, index: int) -> SourcesV {
    if 0 <= index < c.subscriptions.len() {
        SourcesV { subscriptions: c.subscriptions.remove(index), custom_links: c.custom_links }
    } else {
        c
    }
}

pub open spec fn toggle_subscription_spec(c: SourcesV, index: int) -> SourcesV {
    if 0 <= index < c.subscriptions.len() {
        let s = c.subscriptions[index];
        SourcesV {
            subscriptions: c.subscriptions.update(
                index,
                SubscriptionV { name: s.name, url: s.url, enabled: !s.enabled },
            ),
            custom_links: c.custom_links,
        }
    } else {
        c
    }
}

pub open spec fn remove_custom_link_spec(c: SourcesV, index: int) -> SourcesV {
    if 0 <= index < c.custom_links.len() {
        SourcesV { subscriptions: c.subscriptions, custom_links: c.custom_links.remove(index) }
    } else {
        c
    }
}

pub open spec fn toggle_custom_link_spec(c: SourcesV, index: int) -> SourcesV {
    if 0 <= index < c.custom_links.len() {
        let l = c.custom_links[index];
        SourcesV {
            subscriptions: c.subscriptions,
            custom_links: c.custom_links.update(
                index,
                CustomLinkV { raw: l.raw, enabled: !l.enabled, label: l.label },
            ),
        }
    } else {
        c
    }
}

/// The label a custom link gets: its remark, or its key where it has none.
pub open spec fn link_label(l: ProxyLinkV) -> Seq<char> {
    if l.remark().len() == 0 {
        l.dedup_key()
    } else {
        l.remark()
    }
}

pub open spec fn empty_link_message() -> Seq<char> {
    "Пустая ссылка"@
}

pub open spec fn unparsed_link_message() -> Seq<char> {
    "Не удалось разобрать ссылку. Поддерживаются vless://, vmess://, trojan://, ss://"@
}

pub open spec fn duplicate_link_message() -> Seq<char> {
    "Такая ссылка уже добавлена"@
}

/// What adding the custom link `raw` answers, and the sources after it.
pub open spec fn add_custom_link_spec(c: SourcesV, raw: Seq<char>) -> (SourcesV, Result<(), Seq<char>>) {
    let r = trim(raw);
    if r.len() == 0 {
        (c, Err(empty_link_message()))
    } else if parse_link_spec(r) is None {
        (c, Err(unparsed_link_message()))
    } else if has_raw(c, r) {
        (c, Err(duplicate_link_message()))
    } else {
        (
            SourcesV {
                subscriptions: c.subscriptions,
                custom_links: c.custom_links.push(
                    CustomLinkV { raw: r, enabled: true, label: link_label(parse_link_spec(r)->0) },
                ),
            },
            Ok(()),
        )
    }
}

pub open spec fn result_view(r: Result<(), String>) -> Result<(), Seq<char>> {
    match r {
        Ok(()) => Ok(()),
        Err(s) => Err(s@),
    }
}

/// Adds a subscription by URL. A name left blank is made up from the
/// subscription's position; an empty URL, or one already there, changes nothing.
pub fn add_subscription(cfg: &mut SourcesConfig, name: String, url: String)
    ensures
        final(cfg)@ == add_subscription_spec(old(cfg)@, name@, url@),
        urls_distinct(old(cfg)@) ==> urls_distinct(final(cfg)@),
{
    let u = string_of(&trim_chars(&chars_of(url.as_str())));
    if u.as_str().is_empty() {
        return;
    }
    let n = cfg.subscriptions.len();
    let mut i: usize = 0;
    while i < n
        invariant
            n == cfg.subscriptions@.len(),
            0 <= i <= n,
            cfg@ == old(cfg)@,
            u@ == trim(url@),
            forall|k: int| 0 <= k < i ==> (#[trigger] cfg@.subscriptions[k]).url != u@,
        decreases n - i,
    {
        if cfg.subscriptions[i].url == u {
            assert(cfg@.subscriptions[i as int].url == u@);
            return;
        }
        i += 1;
    }
    let trimmed = string_of(&trim_chars(&chars_of(name.as_str())));
    let given = if trimmed.as_str().is_empty() {
        let label = concat(&chars_of("Подписка #"), &decimal_digits(n as u128 + 1));
        string_of(&label)
    } else {
        trimmed
    };
    let ghost before = cfg@;
    cfg.subscriptions.push(Subscription { name: given, url: u, enabled: true });
    assert(cfg@.subscriptions =~= before.subscriptions.push(
        SubscriptionV { name: subscription_name(before, name@), url: trim(url@), enabled: true },
    ));
}

/// Removes the subscription at `index`, if there is one.
pub fn remove_subscription(cfg: &mut SourcesConfig, index: usize)
    ensures
        final(cfg)@ == remove_subscription_spec(old(cfg)@, index as int),
{
    if index < cfg.subscriptions.len() {
        let ghost before = cfg@;
        cfg.subscriptions.remove(index);
        assert(cfg@.subscriptions =~= before.subscriptions.remove(index as int));
    }
}

/// Switches the subscription at `index` on or off, if there is one.
pub fn toggle_subscription(cfg: &mut SourcesConfig, index: usize)
    ensures
        final(cfg)@ == toggle_subscription_spec(old(cfg)@, index as int),
{
    if index < cfg.subscriptions.len() {
        let ghost before = cfg@;
        let s = cfg.subscriptions.remove(index);
        let t = Subscription { name: s.name, url: s.url, enabled: !s.enabled };
        cfg.subscriptions.insert(index, t);
        assert(cfg@.subscriptions =~= toggle_subscription_spec(before, index as int).subscriptions);
    }
}

/// Adds a link to one server typed in by the user. Refused, with the
/// reason, when it is empty, when no supported parser accepts it, or when
/// it is already there.
pub fn add_custom_link(cfg: &mut SourcesConfig, raw: String) -> (r: Result<(), String>)
    ensures
        (final(cfg)@, result_view(r)) == add_custom_link_spec(old(cfg)@, raw@),
        raws_distinct(old(cfg)@) ==> raws_distinct(final(cfg)@),
{
    let text = string_of(&trim_chars(&chars_of(raw.as_str())));
    if text.as_str().is_empty() {
        return Err(String::from_str("Пустая ссылка"));
    }
    let link = match parse_link(text.as_str()) {
        Some(l) => l,
        None => {
            return Err(
                String::from_str(
                    "Не удалось разобрать ссылку. Поддерживаются vless://, vmess://, trojan://, ss://",
                ),
            )
        },
    };
    let n = cfg.custom_links.len();
    let mut i: usize = 0;
    while i < n
        invariant
            n == cfg.custom_links@.len(),
            0 <= i <= n,
            cfg@ == old(cfg)@,
            text@ == trim(raw@),
            text@.len() > 0,
            parse_link_spec(text@) is Some,
            forall|k: int| 0 <= k < i ==> (#[trigger] cfg@.custom_links[k]).raw != text@,
        decreases n - i,
    {
        if cfg.custom_links[i].raw == text {
            assert(cfg@.custom_links[i as int].raw == text@);
            return Err(String::from_str("Такая ссылка уже добавлена"));
        }
        i += 1;
    }
    let remark = link.remark();
    let label = if remark.is_empty() {
        link.dedup_key()
    } else {
        String::from_str(remark)
    };
    let ghost before = cfg@;
    let ghost lv = link@;
    cfg.custom_links.push(CustomLink { raw: text, enabled: true, label });
    assert(cfg@.custom_links =~= before.custom_links.push(
        CustomLinkV { raw: trim(raw@), enabled: true, label: link_label(lv) },
    ));
    Ok(())
}

/// Removes the custom link at `index`, if there is one.
pub fn remove_custom_link(cfg: &mut SourcesConfig, index: usize)
    ensures
        final(cfg)@ == remove_custom_link_spec(old(cfg)@, index as int),
{
    if index < cfg.custom_links.len() {
        let ghost before = cfg@;
        cfg.custom_links.remove(index);
        assert(cfg@.custom_links =~= before.custom_links.remove(index as int));
    }
}

/// Switches the custom link at `index` on or off, if there is one.
pub fn toggle_custom_link(cfg: &mut SourcesConfig, index: usize)
    ensures
        final(cfg)@ == toggle_custom_link_spec(old(cfg)@, index as int),
{
    if index < cfg.custom_links.len() {
        let ghost before = cfg@;
        let l = cfg.custom_links.remove(index);
        let t = CustomLink { raw: l.raw, enabled: !l.enabled, label: l.label };
        cfg.custom_links.insert(index, t);
        assert(cfg@.custom_links =~= toggle_custom_link_spec(before, index as int).custom_links);
    }
}

// ---------------------------------------------------------------------
// Laws
// ---------------------------------------------------------------------

/// Switching a subscription twice leaves the sources as they were.
pub proof fn law_toggle_subscription_twice(c: SourcesV, index: int)
    ensures
        toggle_subscription_spec(toggle_subscription_spec(c, index), index) == c,
{
    let once = toggle_subscription_spec(c, index);
    let twice = toggle_subscription_spec(once, index);
    if 0 <= index < c.subscriptions.len() {
        assert(twice.subscriptions =~= c.subscriptions);
    }
}

/// Switching a custom link twice leaves the sources as they were.
pub proof fn law_toggle_custom_link_twice(c: SourcesV, index: int)
    ensures
        toggle_custom_link_spec(toggle_custom_link_spec(c, index), index) == c,
{
    let once = toggle_custom_link_spec(c, index);
    let twice = toggle_custom_link_spec(once, index);
    if 0 <= index < c.custom_links.len() {
        assert(twice.custom_links =~= c.custom_links);
    }
}

/// Adding a subscription URL a second time changes nothing, whatever the name.
pub proof fn law_add_subscription_idempotent(
    c: SourcesV,
    name: Seq<char>,
    other_name: Seq<char>,
    url: Seq<char>,
)
    ensures
        add_subscription_spec(add_subscription_spec(c, name, url), other_name, url)
            == add_subscription_spec(c, name, url),
{
    let once = add_subscription_spec(c, name, url);
    let u = trim(url);
    if u.len() != 0 && !has_url(c, u) {
        let last = once.subscriptions.len() - 1;
        assert(once.subscriptions[last].url == u);
        assert(has_url(once, u));
    }
}

/// Removing the subscription just added gives back the sources before it.
pub proof fn law_add_then_remove_subscription(c: SourcesV, name: Seq<char>, url: Seq<char>)
    requires
        trim(url).len() != 0,
        !has_url(c, trim(url)),
    ensures
        remove_subscription_spec(
            add_subscription_spec(c, name, url),
            c.subscriptions.len() as int,
        ) == c,
{
    let once = add_subscription_spec(c, name, url);
    assert(once.subscriptions.remove(c.subscriptions.len() as int) =~= c.subscriptions);
}

/// Once a custom link is accepted, adding it again is refused as a
/// duplicate and changes nothing.
pub proof fn law_add_custom_link_twice(c: SourcesV, raw: Seq<char>)
    requires
        add_custom_link_spec(c, raw).1 is Ok,
    ensures
        add_custom_link_spec(add_custom_link_spec(c, raw).0, raw) == (
            add_custom_link_spec(c, raw).0,
            Err::<(), Seq<char>>(duplicate_link_message()),
        ),
{
    let once = add_custom_link_spec(c, raw).0;
    let last = once.custom_links.len() - 1;
    assert(once.custom_links[last].raw == trim(raw));
    assert(has_raw(once, trim(raw)));
}

/// Every subscription URL is non-empty and trimmed, and no two are the same.
pub open spec fn subscriptions_tidy(c: SourcesV) -> bool {
    &&& urls_distinct(c)
    &&& forall|i: int|
        0 <= i < c.subscriptions.len() ==> (#[trigger] c.subscriptions[i]).url.len() > 0 && trim(
            c.subscriptions[i].url,
        ) == c.subscriptions[i].url
}

/// Every custom link is non-empty, trimmed and a link that parses, and no
/// two are the same text.
pub open spec fn custom_links_tidy(c: SourcesV) -> bool {
    &&& raws_distinct(c)
    &&& forall|i: int|
        0 <= i < c.custom_links.len() ==> {
            let r = (#[trigger] c.custom_links[i]).raw;
            &&& r.len() > 0
            &&& trim(r) == r
            &&& parse_link_spec(r) is Some
        }
}

/// Adding a subscription keeps the list tidy and the subscriptions already
/// there as they were, in order; at most one is added, at the end.
pub proof fn law_add_subscription_keeps_list(c: SourcesV, name: Seq<char>, url: Seq<char>)
    requires
        subscriptions_tidy(c),
    ensures
        subscriptions_tidy(add_subscription_spec(c, name, url)),
        c.subscriptions.len() <= add_subscription_spec(c, name, url).subscriptions.len()
            <= c.subscriptions.len() + 1,
        add_subscription_spec(c, name, url).subscriptions.subrange(0, c.subscriptions.len() as int)
            == c.subscriptions,
        add_subscription_spec(c, name, url).custom_links == c.custom_links,
{
    let n = add_subscription_spec(c, name, url);
    let u = trim(url);
    law_trim_idempotent(url);
    let k = c.subscriptions.len() as int;
    assert(n.subscriptions.subrange(0, k) =~= c.subscriptions);
    if u.len() != 0 && !has_url(c, u) {
        assert forall|i: int, j: int| 0 <= i < j < n.subscriptions.len() implies (
        #[trigger] n.subscriptions[i]).url != (#[trigger] n.subscriptions[j]).url by {
            if j == k {
                assert(n.subscriptions[i] == c.subscriptions[i]);
                if c.subscriptions[i].url == u {
                    assert(has_url(c, u));
                }
            } else {
                assert(n.subscriptions[i] == c.subscriptions[i]);
                assert(n.subscriptions[j] == c.subscriptions[j]);
            }
        }
        assert forall|i: int| 0 <= i < n.subscriptions.len() implies (
        #[trigger] n.subscriptions[i]).url.len() > 0 && trim(n.subscriptions[i].url)
            == n.subscriptions[i].url by {
            if i < k {
                assert(n.subscriptions[i] == c.subscriptions[i]);
            }
        }
    }
}

/// Adding a custom link keeps the list tidy and the links already there as
/// they were, in order; at most one is added, at the end.
pub proof fn law_add_custom_link_keeps_list(c: SourcesV, raw: Seq<char>)
    requires
        custom_links_tidy(c),
    ensures
        custom_links_tidy(add_custom_link_spec(c, raw).0),
        c.custom_links.len() <= add_custom_link_spec(c, raw).0.custom_links.len()
            <= c.custom_links.len() + 1,
        add_custom_link_spec(c, raw).0.custom_links.subrange(0, c.custom_links.len() as int)
            == c.custom_links,
        add_custom_link_spec(c, raw).0.subscriptions == c.subscriptions,
{
    let n = add_custom_link_spec(c, raw).0;
    let r = trim(raw);
    law_trim_idempotent(raw);
    let k = c.custom_links.len() as int;
    assert(n.custom_links.subrange(0, k) =~= c.custom_links);
    if add_custom_link_spec(c, raw).1 is Ok {
        assert forall|i: int, j: int| 0 <= i < j < n.custom_links.len() implies (
        #[trigger] n.custom_links[i]).raw != (#[trigger] n.custom_links[j]).raw by {
            if j == k {
                assert(n.custom_links[i] == c.custom_links[i]);
                if c.custom_links[i].raw == r {
                    assert(has_raw(c, r));
                }
            } else {
                assert(n.custom_links[i] == c.custom_links[i]);
                assert(n.custom_links[j] == c.custom_links[j]);
            }
        }
        assert forall|i: int| 0 <= i < n.custom_links.len() implies {
            let x = (#[trigger] n.custom_links[i]).raw;
            &&& x.len() > 0
            &&& trim(x) == x
            &&& parse_link_spec(x) is Some
        } by {
            if i < k {
                assert(n.custom_links[i] == c.custom_links[i]);
            }
        }
    }
}

/// Removing the custom link just added gives back the sources before it.
pub proof fn law_add_then_remove_custom_link(c: SourcesV, raw: Seq<char>)
    requires
        add_custom_link_spec(c, raw).1 is Ok,
    ensures
        remove_custom_link_spec(add_custom_link_spec(c, raw).0, c.custom_links.len() as int) == c,
{
    let once = add_custom_link_spec(c, raw).0;
    assert(once.custom_links.remove(c.custom_links.len() as int) =~= c.custom_links);
}

} // verus!
