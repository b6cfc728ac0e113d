use onlyprox::backend::{
    configs_loaded, first_error, handle_command, limit_links, no_links_message, ping_text,
    row_marks, search_links, vpn_started, Command, WorkerAction, WorkerCore,
};
use onlyprox::config::XrayConfig;
use onlyprox::parse::{build_xray_config, parse_link as parse_config};
use onlyprox::builder::{build_outbound_from_link, Outbound};
use onlyprox::checker::{candidate_id, country_from_trace, extract_country_code};
use onlyprox::desktop::{desktop_entry, desktop_file_path, icon_path};
use onlyprox::models::SourcesConfig;
use onlyprox::parser::parse_link;
use onlyprox::ui::{country_hue, is_unknown_country, protocol_tag, truncate, ProtocolTag};

#[test]
fn vless_reality_outbound() {
    let link = parse_link("vless://id@h.com:443?security=reality&pbk=KEY&sid=ab&type=grpc&serviceName=svc&flow=xtls-rprx-vision").unwrap();
    match build_outbound_from_link(&link) {
        Outbound::Vless { tag, address, port, id, encryption, flow, level, stream, mux_enabled, mux_concurrency } => {
            assert_eq!((address.as_str(), port, id.as_str(), flow.as_str()), ("h.com", 443, "id", "xtls-rprx-vision"));
            assert_eq!((tag.as_str(), encryption.as_str(), level), ("proxy", "none", 0));
            assert_eq!((mux_enabled, mux_concurrency), (false, -1));
            assert_eq!(stream.network, "grpc");
            assert_eq!(stream.security, "reality");
            let r = stream.reality.unwrap();
            assert_eq!((r.server_name.as_str(), r.fingerprint.as_str(), r.public_key.as_str(), r.short_id.as_str(), r.spider_x.as_str()), ("", "chrome", "KEY", "ab", ""));
            assert!(!r.show);
            assert!(stream.tls.is_none());
            assert!(stream.ws.is_none());
            assert_eq!(stream.grpc_service_name, Some("svc".to_string()));
        }
        _ => panic!("expected vless"),
    }
}

#[test]
fn vless_tls_ws_outbound_defaults() {
    let link = parse_link("vless://id@h.com?security=tls&allowInsecure=true&type=ws").unwrap();
    match build_outbound_from_link(&link) {
        Outbound::Vless { stream, flow, .. } => {
            assert_eq!(flow, "");
            let t = stream.tls.unwrap();
            assert_eq!(t.fingerprint, Some("chrome".to_string()));
            assert_eq!(t.allow_insecure, Some(true));
            let ws = stream.ws.unwrap();
            assert_eq!((ws.path.as_str(), ws.host.as_str()), ("/", ""));
        }
        _ => panic!("expected vless"),
    }
    let plain = parse_link("vless://id@h.com").unwrap();
    match build_outbound_from_link(&plain) {
        Outbound::Vless { stream, .. } => {
            assert_eq!((stream.network.as_str(), stream.security.as_str()), ("tcp", "none"));
            assert!(stream.reality.is_none() && stream.tls.is_none());
        }
        _ => panic!("expected vless"),
    }
}

#[test]
fn trojan_and_shadowsocks_outbounds() {
    let link = parse_link("trojan://pw@t.com:8443").unwrap();
    match build_outbound_from_link(&link) {
        Outbound::Trojan { tag, address, port, password, network, security, server_name } => {
            assert_eq!((address.as_str(), port, password.as_str(), network.as_str(), server_name.as_str()), ("t.com", 8443, "pw", "tcp", ""));
            assert_eq!((tag.as_str(), security.as_str()), ("proxy", "tls"));
        }
        _ => panic!("expected trojan"),
    }
    let ss = parse_link("ss://YWVzLTI1Ni1nY206c2VjcmV0@1.2.3.4:8388").unwrap();
    match build_outbound_from_link(&ss) {
        Outbound::Shadowsocks { tag, method, password, port, uot, .. } => {
            assert_eq!((method.as_str(), password.as_str(), port), ("aes-256-gcm", "secret", 8388));
            assert_eq!((tag.as_str(), uot), ("proxy", true));
        }
        _ => panic!("expected shadowsocks"),
    }
}

#[test]
fn country_codes() {
    assert_eq!(extract_country_code("de"), Some("DE".to_string()));
    assert_eq!(extract_country_code("Nl"), Some("NL".to_string()));
    assert_eq!(extract_country_code("deu"), None);
    assert_eq!(extract_country_code("d1"), None);
    assert_eq!(extract_country_code("é"), None);
    assert_eq!(country_from_trace("fl=1\nloc=nl\nip=1.2.3.4\n"), Some("NL".to_string()));
    assert_eq!(country_from_trace("loc=us\nloc=fr"), Some("FR".to_string()));
    assert_eq!(country_from_trace("ip=1.2.3.4"), Some("XX".to_string()));
    assert_eq!(country_from_trace("loc=T1"), None);
    assert_eq!(candidate_id(0), "cfg_1");
    assert_eq!(candidate_id(41), "cfg_42");
}

#[test]
fn ui_helpers() {
    assert_eq!(truncate("hello", 3), "he…");
    assert_eq!(truncate("hi", 5), "hi");
    assert_eq!(truncate("abc", 0), "…");
    assert_eq!(truncate("Привет мир", 7), "Привет…");
    assert_eq!(protocol_tag("vless://x"), ProtocolTag::Vless);
    assert_eq!(protocol_tag("ss://x").label(), "SS");
    assert_eq!(protocol_tag("foo").label(), "?");
    assert_eq!(country_hue("DE"), 218);
    assert_eq!(country_hue(""), 61);
    assert!(is_unknown_country("  "));
    assert!(is_unknown_country("—"));
    assert!(!is_unknown_country("DE"));
}

#[test]
fn worker_decisions() {
    let mut core = WorkerCore {
        n_configs: 0,
        selected_index: None,
        connected_index: None,
        is_connected: false,
        sources: SourcesConfig::new(),
    };
    assert!(matches!(handle_command(&mut core, Command::ToggleVpn), WorkerAction::Publish));
    configs_loaded(&mut core, 3);
    assert_eq!(core.selected_index, Some(0));
    assert!(matches!(handle_command(&mut core, Command::SelectConfig(5)), WorkerAction::Publish));
    assert_eq!(core.selected_index, Some(0));
    handle_command(&mut core, Command::SelectConfig(2));
    assert_eq!(core.selected_index, Some(2));
    assert!(matches!(handle_command(&mut core, Command::ToggleVpn), WorkerAction::Connect(2)));
    vpn_started(&mut core, 2);
    assert_eq!(row_marks(&core, 2), (true, true));
    assert_eq!(row_marks(&core, 1), (false, false));
    assert!(matches!(handle_command(&mut core, Command::ToggleVpn), WorkerAction::StopVpn));
    assert!(!core.is_connected);
    assert_eq!(core.connected_index, None);
    match handle_command(&mut core, Command::AddCustomLink("bad".to_string())) {
        WorkerAction::ReportAndSave(Some(m)) => assert!(m.starts_with("Не удалось")),
        other => panic!("unexpected {:?}", other),
    }
    assert!(matches!(
        handle_command(&mut core, Command::AddSubscription { name: String::new(), url: "u".to_string() }),
        WorkerAction::SaveSources
    ));
    assert_eq!(core.sources.subscriptions.len(), 1);
    assert!(matches!(handle_command(&mut core, Command::StartSearch), WorkerAction::RunSearch { is_retest: false }));
    configs_loaded(&mut core, 0);
    assert_eq!(core.selected_index, None);
    assert!(matches!(handle_command(&mut core, Command::Shutdown), WorkerAction::Shutdown));
    assert_eq!(ping_text(42), "42 ms");
    assert!(no_links_message().starts_with("Не найдено"));
    let mut links = Vec::new();
    for i in 0..200 {
        links.push(parse_link(&format!("trojan://p@h{}.com", i)).unwrap());
    }
    limit_links(&mut links);
    assert_eq!(links.len(), 150);
}

#[test]
fn desktop_files() {
    assert_eq!(desktop_file_path("/home/u"), "/home/u/.local/share/applications/onlyprox.desktop");
    assert_eq!(icon_path("/h"), "/h/.local/share/icons/hicolor/256x256/apps/onlyprox.png");
    let e = desktop_entry("/opt/app");
    assert!(e.starts_with("[Desktop Entry]\nType=Application\n"));
    assert!(e.contains("\nExec=/opt/app\nIcon=onlyprox\n"));
    assert!(e.ends_with("StartupWMClass=onlyprox\n"));
}

#[test]
fn xray_config_document() {
    let proxy = parse_config("trojan://pw@t.com:8443#T").unwrap();
    let c: XrayConfig = build_xray_config(&proxy);
    assert_eq!(c.log_level, "warning");
    assert_eq!(c.inbounds.len(), 1);
    let i = &c.inbounds[0];
    assert_eq!((i.tag.as_str(), i.listen.as_str(), i.port, i.protocol.as_str()), ("socks", "127.0.0.1", 10808, "mixed"));
    assert!(i.sniffing_enabled && i.udp && !i.route_only && !i.allow_transparent);
    assert_eq!(i.dest_override, vec!["http".to_string(), "tls".to_string()]);
    assert_eq!(i.auth, "noauth");
    assert_eq!(c.dns.hosts, vec![("dns.google".to_string(), vec!["8.8.8.8".to_string()])]);
    assert_eq!(c.dns.servers, vec!["1.1.1.1", "8.8.8.8", "https://dns.google/dns-query"]);
    let others: Vec<(&str, &str)> = c.others.iter().map(|o| (o.tag.as_str(), o.protocol.as_str())).collect();
    assert_eq!(others, vec![("direct", "freedom"), ("block", "blackhole")]);
    assert_eq!(c.domain_strategy, "AsIs");
    assert_eq!(c.rules.len(), 1);
    assert_eq!((c.rules[0].rule_type.as_str(), c.rules[0].port.as_str(), c.rules[0].outbound_tag.as_str()), ("field", "0-65535", "proxy"));
    match &c.proxy {
        Outbound::Trojan { address, port, .. } => assert_eq!((address.as_str(), *port), ("t.com", 8443)),
        _ => panic!("expected trojan"),
    }
    let other = XrayConfig::new_with_proxy(build_outbound_from_link(&parse_link("vless://id@h.com").unwrap()), 10818);
    assert_eq!(other.inbounds[0].port, 10818);
}

#[test]
fn search_link_selection() {
    let mut links = Vec::new();
    for i in 0..160 {
        links.push(parse_link(&format!("trojan://p@h{}.com", i)).unwrap());
    }
    let fresh = search_links(links.clone(), false).unwrap();
    assert_eq!(fresh.len(), 150);
    assert_eq!(fresh[149].dedup_key(), links[149].dedup_key());
    assert_eq!(search_links(links.clone(), true).unwrap().len(), 160);
    assert!(search_links(Vec::new(), false).is_none());
    assert!(search_links(Vec::new(), true).is_none());
    assert_eq!(first_error(&vec!["a".to_string(), "b".to_string()]), Some("a".to_string()));
    assert_eq!(first_error(&Vec::new()), None);
}
