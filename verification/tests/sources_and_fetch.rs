use base64::Engine;
use onlyprox::fetcher::collect_links;
use onlyprox::models::{CustomLink, SourcesConfig, Subscription};
use onlyprox::sources::{
    add_custom_link, add_subscription, remove_custom_link, remove_subscription,
    toggle_custom_link, toggle_subscription,
};

fn sources() -> SourcesConfig {
    SourcesConfig::new()
}

#[test]
fn subscription_gets_generated_name_and_trimmed_url() {
    let mut cfg = sources();
    add_subscription(&mut cfg, "  ".to_string(), " https://a.example/feed ".to_string());
    add_subscription(&mut cfg, " Mine ".to_string(), "https://b.example/feed".to_string());
    add_subscription(&mut cfg, String::new(), "https://c.example".to_string());
    assert_eq!(cfg.subscriptions.len(), 3);
    assert_eq!(cfg.subscriptions[0].name, "Подписка #1");
    assert_eq!(cfg.subscriptions[0].url, "https://a.example/feed");
    assert!(cfg.subscriptions[0].enabled);
    assert_eq!(cfg.subscriptions[1].name, "Mine");
    assert_eq!(cfg.subscriptions[2].name, "Подписка #3");
}

#[test]
fn subscription_duplicates_and_empty_urls_ignored() {
    let mut cfg = sources();
    add_subscription(&mut cfg, "A".to_string(), "https://a.example".to_string());
    add_subscription(&mut cfg, "B".to_string(), "  https://a.example\t".to_string());
    add_subscription(&mut cfg, "C".to_string(), "   ".to_string());
    assert_eq!(cfg.subscriptions.len(), 1);
    assert_eq!(cfg.subscriptions[0].name, "A");
}

#[test]
fn subscription_toggle_and_remove() {
    let mut cfg = sources();
    add_subscription(&mut cfg, "A".to_string(), "u1".to_string());
    add_subscription(&mut cfg, "B".to_string(), "u2".to_string());
    toggle_subscription(&mut cfg, 1);
    assert!(!cfg.subscriptions[1].enabled);
    toggle_subscription(&mut cfg, 1);
    assert!(cfg.subscriptions[1].enabled);
    toggle_subscription(&mut cfg, 7);
    remove_subscription(&mut cfg, 9);
    assert_eq!(cfg.subscriptions.len(), 2);
    remove_subscription(&mut cfg, 0);
    assert_eq!(cfg.subscriptions.len(), 1);
    assert_eq!(cfg.subscriptions[0].name, "B");
}

#[test]
fn custom_link_errors_and_labels() {
    let mut cfg = sources();
    assert_eq!(add_custom_link(&mut cfg, "   ".to_string()), Err("Пустая ссылка".to_string()));
    assert_eq!(
        add_custom_link(&mut cfg, "http://x".to_string()),
        Err("Не удалось разобрать ссылку. Поддерживаются vless://, vmess://, trojan://, ss://".to_string())
    );
    assert_eq!(add_custom_link(&mut cfg, " trojan://pw@h.com:8443#Named ".to_string()), Ok(()));
    assert_eq!(cfg.custom_links[0].raw, "trojan://pw@h.com:8443#Named");
    assert_eq!(cfg.custom_links[0].label, "Named");
    assert_eq!(
        add_custom_link(&mut cfg, "trojan://pw@h.com:8443#Named".to_string()),
        Err("Такая ссылка уже добавлена".to_string())
    );
    assert_eq!(add_custom_link(&mut cfg, "vless://id-7@10.0.0.1:443".to_string()), Ok(()));
    assert_eq!(cfg.custom_links[1].label, "vless://id-7@10.0.0.1:443");
    assert_eq!(cfg.custom_links.len(), 2);
    toggle_custom_link(&mut cfg, 0);
    assert!(!cfg.custom_links[0].enabled);
    remove_custom_link(&mut cfg, 0);
    assert_eq!(cfg.custom_links.len(), 1);
    assert_eq!(
        add_custom_link(&mut cfg, "ss://YWJj@host:1".to_string()),
        Err("Не удалось разобрать ссылку. Поддерживаются vless://, vmess://, trojan://, ss://".to_string())
    );
    assert_eq!(cfg.custom_links.len(), 1);
}

#[test]
fn collect_deduplicates_and_reports_errors() {
    let mut cfg = sources();
    cfg.subscriptions.push(Subscription { name: "S1".to_string(), url: "u1".to_string(), enabled: true });
    cfg.subscriptions.push(Subscription { name: "S2".to_string(), url: "u2".to_string(), enabled: true });
    cfg.subscriptions.push(Subscription { name: "S3".to_string(), url: "u3".to_string(), enabled: false });
    cfg.custom_links.push(CustomLink { raw: "trojan://p@h.com:1#again".to_string(), enabled: true, label: "x".to_string() });
    cfg.custom_links.push(CustomLink { raw: "junk".to_string(), enabled: true, label: "Мой".to_string() });
    cfg.custom_links.push(CustomLink { raw: "junk2".to_string(), enabled: false, label: "off".to_string() });
    let fetched = vec![
        Ok("trojan://p@h.com:1#first\nvless://id@v.com:2#v\nvless://id@v.com:2#dup".to_string()),
        Err("timeout".to_string()),
        Ok("vless://other@w.com:3#never".to_string()),
    ];
    let r = collect_links(&cfg, fetched);
    let remarks: Vec<&str> = r.links.iter().map(|l| l.remark()).collect();
    assert_eq!(remarks, vec!["first", "v"]);
    assert_eq!(r.errors, vec!["«S2»: timeout".to_string(), "Не удалось разобрать ссылку: Мой".to_string()]);
    let again = collect_links(&cfg, vec![Ok(String::new()), Ok(String::new()), Ok(String::new())]);
    assert_eq!(again.links.len(), 1);
    assert_eq!(again.links[0].dedup_key(), "trojan://p@h.com:1");
}

#[test]
fn base64_subscription_feed_yields_its_links() {
    let mut cfg = sources();
    cfg.subscriptions.push(Subscription { name: "B".to_string(), url: "u".to_string(), enabled: true });
    let body = base64::engine::general_purpose::STANDARD.encode("vless://id@v.com:2#v");
    let r = collect_links(&cfg, vec![Ok(body)]);
    assert!(r.errors.is_empty());
    assert_eq!(r.links.len(), 1);
    assert_eq!(r.links[0].remark(), "v");
}

#[test]
fn unrecognised_custom_link_leaves_sources_unchanged() {
    let mut cfg = sources();
    assert_eq!(
        add_custom_link(&mut cfg, "ss://YWJj@host:1".to_string()),
        Err("Не удалось разобрать ссылку. Поддерживаются vless://, vmess://, trojan://, ss://".to_string())
    );
    assert!(cfg.custom_links.is_empty());
    assert!(cfg.subscriptions.is_empty());
}

#[test]
fn lists_stay_tidy_after_additions() {
    let mut cfg = sources();
    add_subscription(&mut cfg, "A".to_string(), " https://a.example ".to_string());
    add_subscription(&mut cfg, "B".to_string(), "https://a.example".to_string());
    add_subscription(&mut cfg, "C".to_string(), "https://c.example".to_string());
    let urls: Vec<&str> = cfg.subscriptions.iter().map(|s| s.url.as_str()).collect();
    assert_eq!(urls, vec!["https://a.example", "https://c.example"]);
    assert_eq!(add_custom_link(&mut cfg, " vless://id@v.com:2#v ".to_string()), Ok(()));
    assert!(add_custom_link(&mut cfg, "vless://id@v.com:2#v".to_string()).is_err());
    assert_eq!(cfg.custom_links.len(), 1);
    assert_eq!(cfg.custom_links[0].raw, "vless://id@v.com:2#v");
}
