use base64::Engine;
use onlyprox::models::ProxyLink;
use onlyprox::parse::{parse_link as parse_config, ProxyConfig};
use onlyprox::adapters::UrlParts;
use onlyprox::json::{JsonLeaf, JsonTop};
use onlyprox::text::trim_chars;
use onlyprox::parser::{
    decode_b64, feed_text, parse_link, ss_from_url, trojan_from_url, vless_from_url, vmess_from_json, parse_link_detailed, parse_subscription_body,
    parse_subscription_feed, parse_u16, LinkError,
};

fn vmess_link(json: &str) -> String {
    format!("vmess://{}", base64::engine::general_purpose::STANDARD.encode(json))
}

fn chars(s: &str) -> Vec<char> {
    s.chars().collect()
}

#[test]
fn vless_link_with_params_and_remark() {
    let link = "vless://uuid-1@example.com:8443?type=ws&security=tls&sni=ex.org&path=%2Fws#My%20Server";
    match parse_link(link) {
        Some(ProxyLink::Vless(d)) => {
            assert_eq!(d.uuid, "uuid-1");
            assert_eq!(d.address, "example.com");
            assert_eq!(d.port, 8443);
            assert_eq!(d.remark, "My Server");
            assert_eq!(d.params.get("type"), Some("ws".to_string()));
            assert_eq!(d.params.get("path"), Some("/ws".to_string()));
            assert_eq!(d.params.get("flow"), None);
        }
        other => panic!("unexpected {:?}", other),
    }
}

#[test]
fn vless_default_port_and_remark_keys_joined() {
    match parse_link("vless://id@host.net?security=reality#a=b&c") {
        Some(ProxyLink::Vless(d)) => {
            assert_eq!(d.port, 443);
            assert_eq!(d.remark, "ac");
        }
        other => panic!("unexpected {:?}", other),
    }
}

#[test]
fn repeated_query_parameter_last_wins() {
    match parse_link("vless://id@host.net?type=tcp&type=grpc") {
        Some(ProxyLink::Vless(d)) => assert_eq!(d.params.get("type"), Some("grpc".to_string())),
        other => panic!("unexpected {:?}", other),
    }
}

#[test]
fn vmess_object_document() {
    let link = vmess_link(
        r#"{"ps":"Test","add":"1.2.3.4","port":"10086","id":"abc","net":"ws","path":"/p","tls":"tls","sni":"s.example"}"#,
    );
    match parse_link(&link) {
        Some(ProxyLink::Vmess(d)) => {
            assert_eq!(d.remark, "Test");
            assert_eq!(d.address, "1.2.3.4");
            assert_eq!(d.port, 10086);
            assert_eq!(d.uuid, "abc");
            assert_eq!(d.security, "");
            assert_eq!(d.network, "ws");
            assert_eq!(d.path, Some("/p".to_string()));
            assert_eq!(d.host, None);
            assert_eq!(d.tls, Some("tls".to_string()));
            assert_eq!(d.sni, Some("s.example".to_string()));
        }
        other => panic!("unexpected {:?}", other),
    }
}

#[test]
fn vmess_port_forms() {
    let port_of = |p: &str| match parse_link(&vmess_link(&format!(
        r#"{{"add":"h","port":{},"id":"i"}}"#,
        p
    ))) {
        Some(ProxyLink::Vmess(d)) => (d.port, d.network, d.remark),
        other => panic!("unexpected {:?}", other),
    };
    assert_eq!(port_of("443").0, 443);
    assert_eq!(port_of("70000").0, 4464);
    assert_eq!(port_of(r#""+80""#).0, 80);
    assert_eq!(port_of(r#""x""#).0, 443);
    assert_eq!(port_of("-1").0, 443);
    assert_eq!(port_of("1.5").0, 443);
    assert_eq!(port_of("null").0, 443);
    assert_eq!(port_of("true").1, "tcp");
    assert_eq!(port_of("true").2, "");
}

#[test]
fn vmess_array_document_and_type_errors() {
    let arr = vmess_link(r#"["n","h.org",8080,"id-9",null,null,null,null,null,null]"#);
    match parse_link(&arr) {
        Some(ProxyLink::Vmess(d)) => {
            assert_eq!(d.remark, "n");
            assert_eq!(d.address, "h.org");
            assert_eq!(d.port, 8080);
            assert_eq!(d.network, "tcp");
        }
        other => panic!("unexpected {:?}", other),
    }
    assert!(parse_link(&vmess_link(r#"["n","h.org",8080]"#)).is_none());
    assert!(parse_link(&vmess_link(r#"{"port":1,"id":"i"}"#)).is_none());
    assert!(parse_link(&vmess_link(r#"{"add":"h","port":1,"id":"i","net":5}"#)).is_none());
    assert_eq!(
        parse_link_detailed(&vmess_link(r#"{"add":"h","id":"i"}"#)).err(),
        Some(LinkError::InvalidJson)
    );
    assert_eq!(parse_link_detailed("vmess://!!!").err(), Some(LinkError::InvalidBase64));
}

#[test]
fn trojan_link() {
    match parse_link("trojan://pass@host.com?sni=s.com&type=grpc#Remark%21") {
        Some(ProxyLink::Trojan(d)) => {
            assert_eq!(d.password, "pass");
            assert_eq!(d.address, "host.com");
            assert_eq!(d.port, 443);
            assert_eq!(d.remark, "Remark%21");
            assert_eq!(d.params.get("sni"), Some("s.com".to_string()));
        }
        other => panic!("unexpected {:?}", other),
    }
}

#[test]
fn shadowsocks_links() {
    match parse_link("ss://YWVzLTI1Ni1nY206c2VjcmV0@1.2.3.4:8388#R") {
        Some(ProxyLink::Shadowsocks(d)) => {
            assert_eq!(d.method, "aes-256-gcm");
            assert_eq!(d.password, "secret");
            assert_eq!(d.address, "1.2.3.4");
            assert_eq!(d.port, 8388);
            assert_eq!(d.remark, "R");
        }
        other => panic!("unexpected {:?}", other),
    }
    assert_eq!(
        parse_link_detailed("ss://YWVzLTI1Ni1nY206c2VjcmV0@1.2.3.4#R").err(),
        Some(LinkError::NoPort)
    );
    assert_eq!(parse_link_detailed("ss://_w@h.io:1").err(), Some(LinkError::InvalidUtf8));
    assert_eq!(parse_link_detailed("ss://%%%@h.io:1").err(), Some(LinkError::InvalidBase64));
}

#[test]
fn shadowsocks_credentials_without_separator_refused() {
    // "abc" and "nocolon" in base64: no method:password separator
    assert_eq!(parse_link_detailed("ss://YWJj@host:1").err(), Some(LinkError::MissingSeparator));
    assert!(parse_link("ss://YWJj@host:1").is_none());
    let link = "ss://bm9jb2xvbg@1.2.3.4:8388";
    assert_eq!(parse_link_detailed(link).err(), Some(LinkError::MissingSeparator));
    assert!(parse_link("ss://YWVzLTI1Ni1nY206c2VjcmV0@1.2.3.4:8388").is_some());
    assert!(parse_subscription_feed(link).is_empty());
    assert_eq!(parse_config("ss://YWJj@host:1").err(), Some(LinkError::MissingSeparator));
}

#[test]
fn unsupported_and_broken_links() {
    assert!(parse_link("http://example.com").is_none());
    assert_eq!(parse_link_detailed("hysteria://x").err(), Some(LinkError::UnsupportedProtocol));
    assert_eq!(parse_link_detailed("vless://x@[::1").err(), Some(LinkError::InvalidUrl));
    assert!(parse_link("nothing").is_none());
}

#[test]
fn feed_keeps_parsable_trimmed_lines() {
    let feed = "  vless://a@h1.com:1#one  \r\n\ngarbage\ntrojan://p@h2.com:2#two\r\nss://broken";
    let links = parse_subscription_feed(feed);
    assert_eq!(links.len(), 2);
    assert_eq!(links[0].remark(), "one");
    assert_eq!(links[1].remark(), "two");
    assert!(parse_subscription_feed("").is_empty());
}

#[test]
fn feeds_joined_by_a_line_break() {
    let a = "vless://a@h1.com:1#one\r";
    let b = "trojan://p@h2.com:2#two\nss://YWVzOnB3@h3.io:3#three";
    let joined = format!("{}\n{}", a, b);
    let whole: Vec<String> = parse_subscription_feed(&joined).iter().map(|l| l.remark().to_string()).collect();
    let mut parts: Vec<String> = parse_subscription_feed(a).iter().map(|l| l.remark().to_string()).collect();
    parts.extend(parse_subscription_feed(b).iter().map(|l| l.remark().to_string()));
    assert_eq!(whole, parts);
    assert_eq!(whole, vec!["one", "two", "three"]);
    assert_eq!(parse_subscription_feed(&format!("{}\n", a)).len(), 1);
}

#[test]
fn base64_feed_body_is_decoded() {
    let text = "vless://id@v.com:2#v\ntrojan://p@h.com:1#t";
    let body = base64::engine::general_purpose::STANDARD.encode(text);
    assert_eq!(feed_text(&body), text);
    let links = parse_subscription_body(&body);
    assert_eq!(links.len(), 2);
    assert_eq!(links[0].remark(), "v");
    assert_eq!(links[1].remark(), "t");
    assert!(parse_subscription_feed(&body).is_empty());
    assert_eq!(feed_text(text), text);
    assert_eq!(parse_subscription_body(text).len(), 2);
}

#[test]
fn base64_fields() {
    assert_eq!(decode_b64("aGVsbG8"), Some(b"hello".to_vec()));
    assert_eq!(decode_b64("aGVsbG8="), Some(b"hello".to_vec()));
    assert_eq!(decode_b64(" aGVs\r\nbG8= "), Some(b"hello".to_vec()));
    assert_eq!(decode_b64("_-8"), Some(vec![0xff, 0xef]));
    assert_eq!(decode_b64("a"), None);
}

#[test]
fn u16_decimal() {
    assert_eq!(parse_u16(&chars("8080")), Some(8080));
    assert_eq!(parse_u16(&chars("+7")), Some(7));
    assert_eq!(parse_u16(&chars("0065535")), Some(65535));
    assert_eq!(parse_u16(&chars("65536")), None);
    assert_eq!(parse_u16(&chars("+")), None);
    assert_eq!(parse_u16(&chars("")), None);
    assert_eq!(parse_u16(&chars("-1")), None);
    assert_eq!(parse_u16(&chars(" 1")), None);
}

#[test]
fn config_parser_agrees() {
    match parse_config("trojan://pass@host.com:99#T") {
        Ok(ProxyConfig::Trojan(c)) => {
            assert_eq!(c.port, 99);
            assert_eq!(c.remark, "T");
        }
        other => panic!("unexpected {:?}", other),
    }
    let c = parse_config("vless://id@host.net#Name").unwrap();
    assert_eq!(c.remark(), "Name");
    assert_eq!(parse_config("ftp://x").err(), Some(LinkError::UnsupportedProtocol));
    assert_eq!(parse_config("ss://YWVzOnB3@h.io").err(), Some(LinkError::NoPort));
}

#[test]
fn trimming_twice_trims_once() {
    let once = trim_chars(&chars(" \t vless://x \r\n"));
    assert_eq!(once.iter().collect::<String>(), "vless://x");
    assert_eq!(trim_chars(&once), once);
    assert!(trim_chars(&chars(" \u{3000} ")).is_empty());
}

#[test]
fn error_texts() {
    let e = parse_config("http://example.com").err().unwrap();
    assert_eq!(e, LinkError::UnsupportedProtocol);
    assert_eq!(e.message(), Some("Unsupported protocol".to_string()));
    assert_eq!(parse_config("ss://YWVzOnB3@h.io").err().unwrap().message(), Some("No port".to_string()));
    assert_eq!(LinkError::NoHost.message(), Some("No host".to_string()));
    assert_eq!(LinkError::InvalidJson.message(), None);
    assert_eq!(LinkError::MissingSeparator.message(), None);
}

fn url(username: &str, host: Option<&str>, port: Option<u16>, query: Option<&str>, fragment: Option<&str>) -> UrlParts {
    UrlParts {
        username: username.to_string(),
        host: host.map(|h| h.to_string()),
        port,
        query: query.map(|q| q.to_string()),
        fragment: fragment.map(|f| f.to_string()),
    }
}

#[test]
fn servers_from_parsed_urls() {
    let v = vless_from_url(url("id", Some("h.com"), None, Some("type=ws"), Some("a%20b&c"))).unwrap();
    assert_eq!((v.uuid.as_str(), v.address.as_str(), v.port, v.remark.as_str()), ("id", "h.com", 443, "a bc"));
    assert_eq!(vless_from_url(url("id", None, Some(1), None, None)).err(), Some(LinkError::NoHost));
    let t = trojan_from_url(url("pw", Some("t.com"), Some(8443), None, Some("a%20b"))).unwrap();
    assert_eq!((t.password.as_str(), t.port, t.remark.as_str()), ("pw", 8443, "a%20b"));
    let s = ss_from_url(url("YWVzOnB3OmV4dHJh", Some("s.io"), Some(9), None, None)).unwrap();
    assert_eq!((s.method.as_str(), s.password.as_str(), s.port), ("aes", "pw:extra", 9));
    assert_eq!(ss_from_url(url("m:p", Some("s.io"), None, None, None)).err(), Some(LinkError::NoPort));
    assert_eq!(ss_from_url(url("YWJj", Some("s.io"), Some(9), None, None)).err(), Some(LinkError::MissingSeparator));
}

#[test]
fn vmess_from_parsed_json() {
    let top = JsonTop::Object(vec![
        ("add".to_string(), JsonLeaf::Str("v.com".to_string())),
        ("port".to_string(), JsonLeaf::Str("8080".to_string())),
        ("id".to_string(), JsonLeaf::Str("uid".to_string())),
        ("ps".to_string(), JsonLeaf::Null),
    ]);
    let d = vmess_from_json(&top).unwrap();
    assert_eq!((d.address.as_str(), d.port, d.uuid.as_str(), d.network.as_str(), d.remark.as_str()), ("v.com", 8080, "uid", "tcp", ""));
    let no_id = JsonTop::Object(vec![("add".to_string(), JsonLeaf::Str("v.com".to_string()))]);
    assert!(vmess_from_json(&no_id).is_none());
    assert!(vmess_from_json(&JsonTop::Other).is_none());
}
