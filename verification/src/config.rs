//! The whole Xray configuration that runs one proxy: a local mixed
//! (SOCKS/HTTP) inbound, the proxy outbound with a direct and a blocking
//! one beside it, DNS servers, and a rule that routes every port through
//! the proxy.
use crate::builder::{Outbound, OutboundV};
use crate::text::string_views;
use vstd::prelude::*;

verus! {

/// DNS settings: static hosts and the servers to ask.
pub struct DnsConfig {
    pub hosts: Vec<(String, Vec<String>)>,
    pub servers: Vec<String>,
}

/// The local inbound that applications connect to.
pub struct Inbound {
    pub tag: String,
    pub listen: String,
    pub port: u16,
    pub protocol: String,
    pub sniffing_enabled: bool,
    pub dest_override: Vec<String>,
    pub route_only: bool,
    pub auth: String,
    pub udp: bool,
    pub allow_transparent: bool,
}

/// An outbound that needs no settings, known by its tag and protocol.
pub struct PlainOutbound {
    pub tag: String,
    pub protocol: String,
}

/// A routing rule: traffic of `rule_type` on `port` goes to `outbound_tag`.
pub struct RoutingRule {
    pub rule_type: String,
    pub port: String,
    pub outbound_tag: String,
}

/// A whole Xray configuration.
pub struct XrayConfig {
    pub log_level: String,
    pub dns: DnsConfig,
    pub inbounds: Vec<Inbound>,
    pub proxy: Outbound,
    pub others: Vec<PlainOutbound>,
    pub domain_strategy: String,
    pub rules: Vec<RoutingRule>,
}

pub struct InboundV {
    pub tag: Seq<char>,
    pub listen: Seq<char>,
    pub port: u16,
    pub protocol: Seq<char>,
    pub sniffing_enabled: bool,
    pub dest_override: Seq<Seq<char>>,
    pub route_only: bool,
    pub auth: Seq<char>,
    pub udp: bool,
    pub allow_transparent: bool,
}

pub struct XrayConfigV {
    pub log_level: Seq<char>,
    pub dns_hosts: Seq<(Seq<char>, Seq<Seq<char>>)>,
    pub dns_servers: Seq<Seq<char>>,
    pub inbounds: Seq<InboundV>,
    pub proxy: OutboundV,
    /// Tag and protocol of each outbound after the proxy.
    pub others: Seq<(Seq<char>, Seq<char>)>,
    pub domain_strategy: Seq<char>,
    /// Type, port and outbound tag of each rule.
    pub rules: Seq<(Seq<char>, Seq<char>, Seq<char>)>,
}

impl View for Inbound {
    type V = InboundV;

    open spec fn view(&self) -> InboundV {
        InboundV {
            tag: self.tag@,
            listen: self.listen@,
            port: self.port,
            protocol: self.protocol@,
            sniffing_enabled: self.sniffing_enabled,
            dest_override: string_views(self.dest_override@),
            route_only: self.route_only,
            auth: self.auth@,
            udp: self.udp,
            allow_transparent: self.allow_transparent,
        }
    }
}

impl View for XrayConfig {
    type V = XrayConfigV;

    open spec fn view(&self) -> XrayConfigV {
        XrayConfigV {
            log_level: self.log_level@,
            dns_hosts: self.dns.hosts@.map_values(
                |h: (String, Vec<String>)| (h.0@, string_views(h.1@)),
            ),
            dns_servers: string_views(self.dns.servers@),
            inbounds: self.inbounds@.map_values(|i: Inbound| i@),
            proxy: self.proxy@,
            others: self.others@.map_values(|o: PlainOutbound| (o.tag@, o.protocol@)),
            domain_strategy: self.domain_strategy@,
            rules: self.rules@.map_values(
                |r: RoutingRule| (r.rule_type@, r.port@, r.outbound_tag@),
            ),
        }
    }
}

/// The configuration that runs `proxy` behind a mixed inbound on
/// 127.0.0.1:`socks_port`: warnings logged, `dns.google` pinned to 8.8.8.8,
/// 1.1.1.1, 8.8.8.8 and Google's DNS over HTTPS asked, `direct` (freedom)
/// and `block` (blackhole) beside the proxy, and ports 0-65535 routed to
/// `proxy`.
pub open spec fn xray_config_spec(proxy: OutboundV, socks_port: u16) -> XrayConfigV {
    XrayConfigV {
        log_level: "warning"@,
        dns_hosts: seq![("dns.google"@, seq!["8.8.8.8"@])],
        dns_servers: seq!["1.1.1.1"@, "8.8.8.8"@, "https://dns.google/dns-query"@],
        inbounds: seq![
            InboundV {
                tag: "socks"@,
                listen: "127.0.0.1"@,
                port: socks_port,
                protocol: "mixed"@,
                sniffing_enabled: true,
                dest_override: seq!["http"@, "tls"@],
                route_only: false,
                auth: "noauth"@,
                udp: true,
                allow_transparent: false,
            },
        ],
        proxy,
        others: seq![("direct"@, "freedom"@), ("block"@, "blackhole"@)],
        domain_strategy: "AsIs"@,
        rules: seq![("field"@, "0-65535"@, "proxy"@)],
    }
}

fn text(s: &str) -> (r: String)
    ensures
        r@ == s@,
{
    String::from_str(s)
}

fn texts2(a: &str, b: &str) -> (r: Vec<String>)
    ensures
        string_views(r@) == seq![a@, b@],
{
    let mut v: Vec<String> = Vec::new();
    v.push(text(a));
    v.push(text(b));
    assert(string_views(v@) =~= seq![a@, b@]);
    v
}

impl XrayConfig {
    /// The configuration that runs `outbound_proxy` with its inbound on
    /// 127.0.0.1:`socks_port`.
    pub fn new_with_proxy(outbound_proxy: Outbound, socks_port: u16) -> (r: XrayConfig)
        ensures
            r@ == xray_config_spec(outbound_proxy@, socks_port),
    {
        let mut host_ips: Vec<String> = Vec::new();
        host_ips.push(text("8.8.8.8"));
        assert(string_views(host_ips@) =~= seq!["8.8.8.8"@]);
        let mut hosts: Vec<(String, Vec<String>)> = Vec::new();
        hosts.push((text("dns.google"), host_ips));
        let mut servers = texts2("1.1.1.1", "8.8.8.8");
        let ghost two = string_views(servers@);
        servers.push(text("https://dns.google/dns-query"));
        assert(string_views(servers@) =~= two.push("https://dns.google/dns-query"@));
        let inbound = Inbound {
            tag: text("socks"),
            listen: text("127.0.0.1"),
            port: socks_port,
            protocol: text("mixed"),
            sniffing_enabled: true,
            dest_override: texts2("http", "tls"),
            route_only: false,
            auth: text("noauth"),
            udp: true,
            allow_transparent: false,
        };
        let mut inbounds: Vec<Inbound> = Vec::new();
        inbounds.push(inbound);
        let mut others: Vec<PlainOutbound> = Vec::new();
        others.push(PlainOutbound { tag: text("direct"), protocol: text("freedom") });
        others.push(PlainOutbound { tag: text("block"), protocol: text("blackhole") });
        let mut rules: Vec<RoutingRule> = Vec::new();
        rules.push(
            RoutingRule { rule_type: text("field"), port: text("0-65535"), outbound_tag: text("proxy") },
        );
        let r = XrayConfig {
            log_level: text("warning"),
            dns: DnsConfig { hosts, servers },
            inbounds,
            proxy: outbound_proxy,
            others,
            domain_strategy: text("AsIs"),
            rules,
        };
        assert(r@.dns_hosts =~= seq![("dns.google"@, seq!["8.8.8.8"@])]);
        assert(r@.inbounds =~= xray_config_spec(r.proxy@, socks_port).inbounds);
        assert(r@.others =~= seq![("direct"@, "freedom"@), ("block"@, "blackhole"@)]);
        assert(r@.rules =~= seq![("field"@, "0-65535"@, "proxy"@)]);
        assert(r@.dns_servers =~= seq!["1.1.1.1"@, "8.8.8.8"@, "https://dns.google/dns-query"@]);
        assert(r@.proxy == outbound_proxy@);
        r
    }
}

} // verus!
