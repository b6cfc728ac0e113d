//! The data that a proxy link carries, the user's sources of links, and
//! their mathematical views.
use crate::text::{chars_of, concat, decimal, decimal_digits, string_of};
use vstd::prelude::*;

verus! {

/// The map that collecting `pairs` into a `HashMap` gives: a later pair
/// with the same key replaces an earlier one.
pub open spec fn pairs_to_map(s: Seq<(Seq<char>, Seq<char>)>) -> Map<Seq<char>, Seq<char>>
    decreases s.len(),
{
    if s.len() == 0 {
        Map::empty()
    } else {
        pairs_to_map(s.drop_last()).insert(s.last().0, s.last().1)
    }
}

/// Query parameters of a link: name/value pairs in the order they came,
/// read as a map in which the last pair with a name wins.
#[derive(Clone, Debug)]
pub struct ParamMap {
    pub pairs: Vec<(String, String)>,
}

impl View for ParamMap {
    type V = Map<Seq<char>, Seq<char>>;

    open spec fn view(&self) -> Map<Seq<char>, Seq<char>> {
        pairs_to_map(self.pairs@.map_values(|p: (String, String)| (p.0@, p.1@)))
    }
}

proof fn lemma_pairs_to_map_last(s: Seq<(Seq<char>, Seq<char>)>, k: Seq<char>, i: int)
    requires
        0 <= i < s.len(),
        s[i].0 == k,
        forall|j: int| i < j < s.len() ==> #[trigger] s[j].0 != k,
    ensures
        pairs_to_map(s).contains_key(k),
        pairs_to_map(s)[k] == s[i].1,
    decreases s.len(),
{
    if i < s.len() - 1 {
        lemma_pairs_to_map_last(s.drop_last(), k, i);
    }
}

proof fn lemma_pairs_to_map_absent(s: Seq<(Seq<char>, Seq<char>)>, k: Seq<char>)
    requires
        forall|j: int| 0 <= j < s.len() ==> #[trigger] s[j].0 != k,
    ensures
        !pairs_to_map(s).contains_key(k),
    decreases s.len(),
{
    if s.len() > 0 {
        lemma_pairs_to_map_absent(s.drop_last(), k);
    }
}

impl ParamMap {
    pub fn new() -> (r: ParamMap)
        ensures
            r@ == Map::<Seq<char>, Seq<char>>::empty(),
    {
        ParamMap { pairs: Vec::new() }
    }

    /// The value of `key`: that of the last pair with that name.
    pub fn get(&self, key: &str) -> (r: Option<String>)
        ensures
            match r {
                Some(v) => self@.contains_key(key@) && self@[key@] == v@,
                None => !self@.contains_key(key@),
            },
    {
        let ghost s = self.pairs@.map_values(|p: (String, String)| (p.0@, p.1@));
        let k = String::from_str(key);
        let mut i = self.pairs.len();
        while i > 0
            invariant
                i <= self.pairs@.len(),
                s == self.pairs@.map_values(|p: (String, String)| (p.0@, p.1@)),
                k@ == key@,
                forall|j: int| i <= j < s.len() ==> #[trigger] s[j].0 != k@,
            decreases i,
        {
            i -= 1;
            if self.pairs[i].0 == k {
                proof {
                    lemma_pairs_to_map_last(s, k@, i as int);
                }
                return Some(self.pairs[i].1.clone());
            }
        }
        proof {
            lemma_pairs_to_map_absent(s, k@);
        }
        None
    }

    /// The value of `key`, or `default` where it has none.
    pub fn get_or(&self, key: &str, default: &str) -> (r: String)
        ensures
            r@ == get_or(self@, key@, default@),
    {
        match self.get(key) {
            Some(v) => v,
            None => String::from_str(default),
        }
    }
}

/// The value of `k` in `m`, or `d` where it has none.
pub open spec fn get_or(m: Map<Seq<char>, Seq<char>>, k: Seq<char>, d: Seq<char>) -> Seq<char> {
    if m.contains_key(k) {
        m[k]
    } else {
        d
    }
}

#[derive(Clone, Debug)]
pub struct VlessData {
    pub uuid: String,
    pub address: String,
    pub port: u16,
    pub params: ParamMap,
    pub remark: String,
}

#[derive(Clone, Debug)]
pub struct VmessData {
    pub remark: String,
    pub address: String,
    pub port: u16,
    pub uuid: String,
    pub security: String,
    pub network: String,
    pub path: Option<String>,
    pub host: Option<String>,
    pub tls: Option<String>,
    pub sni: Option<String>,
}

#[derive(Clone, Debug)]
pub struct TrojanData {
    pub password: String,
    pub address: String,
    pub port: u16,
    pub params: ParamMap,
    pub remark: String,
}

#[derive(Clone, Debug)]
pub struct SsData {
    pub method: String,
    pub password: String,
    pub address: String,
    pub port: u16,
    pub remark: String,
}

/// A proxy server as one of the supported link kinds describes it.
#[derive(Clone, Debug)]
pub enum ProxyLink {
    Vless(VlessData),
    Vmess(VmessData),
    Trojan(TrojanData),
    Shadowsocks(SsData),
}

pub struct VlessV {
    pub uuid: Seq<char>,
    pub address: Seq<char>,
    pub port: u16,
    pub params: Map<Seq<char>, Seq<char>>,
    pub remark: Seq<char>,
}

pub struct VmessV {
    pub remark: Seq<char>,
    pub address: Seq<char>,
    pub port: u16,
    pub uuid: Seq<char>,
    pub security: Seq<char>,
    pub network: Seq<char>,
    pub path: Option<Seq<char>>,
    pub host: Option<Seq<char>>,
    pub tls: Option<Seq<char>>,
    pub sni: Option<Seq<char>>,
}

pub struct TrojanV {
    pub password: Seq<char>,
    pub address: Seq<char>,
    pub port: u16,
    pub params: Map<Seq<char>, Seq<char>>,
    pub remark: Seq<char>,
}

pub struct SsV {
    pub method: Seq<char>,
    pub password: Seq<char>,
    pub address: Seq<char>,
    pub port: u16,
    pub remark: Seq<char>,
}

pub enum ProxyLinkV {
    Vless(VlessV),
    Vmess(VmessV),
    Trojan(TrojanV),
    Shadowsocks(SsV),
}

pub open spec fn opt_chars(o: Option<String>) -> Option<Seq<char>> {
    match o {
        Some(s) => Some(s@),
        None => None,
    }
}

impl View for VlessData {
    type V = VlessV;

    open spec fn view(&self) -> VlessV {
        VlessV {
            uuid: self.uuid@,
            address: self.address@,
            port: self.port,
            params: self.params@,
            remark: self.remark@,
        }
    }
}

impl View for VmessData {
    type V = VmessV;

    open spec fn view(&self) -> VmessV {
        VmessV {
            remark: self.remark@,
            address: self.address@,
            port: self.port,
            uuid: self.uuid@,
            security: self.security@,
            network: self.network@,
            path: opt_chars(self.path),
            host: opt_chars(self.host),
            tls: opt_chars(self.tls),
            sni: opt_chars(self.sni),
        }
    }
}

impl View for TrojanData {
    type V = TrojanV;

    open spec fn view(&self) -> TrojanV {
        TrojanV {
            password: self.password@,
            address: self.address@,
            port: self.port,
            params: self.params@,
            remark: self.remark@,
        }
    }
}

impl View for SsData {
    type V = SsV;

    open spec fn view(&self) -> SsV {
        SsV {
            method: self.method@,
            password: self.password@,
            address: self.address@,
            port: self.port,
            remark: self.remark@,
        }
    }
}

impl View for ProxyLink {
    type V = ProxyLinkV;

    open spec fn view(&self) -> ProxyLinkV {
        match self {
            ProxyLink::Vless(d) => ProxyLinkV::Vless(d@),
            ProxyLink::Vmess(d) => ProxyLinkV::Vmess(d@),
            ProxyLink::Trojan(d) => ProxyLinkV::Trojan(d@),
            ProxyLink::Shadowsocks(d) => ProxyLinkV::Shadowsocks(d@),
        }
    }
}

pub open spec fn link_views(v: Seq<ProxyLink>) -> Seq<ProxyLinkV> {
    v.map_values(|l: ProxyLink| l@)
}

impl ProxyLinkV {
    pub open spec fn remark(self) -> Seq<char> {
        match self {
            ProxyLinkV::Vless(d) => d.remark,
            ProxyLinkV::Vmess(d) => d.remark,
            ProxyLinkV::Trojan(d) => d.remark,
            ProxyLinkV::Shadowsocks(d) => d.remark,
        }
    }

    /// The scheme name of the link kind.
    pub open spec fn protocol(self) -> Seq<char> {
        match self {
            ProxyLinkV::Vless(_) => "vless"@,
            ProxyLinkV::Vmess(_) => "vmess"@,
            ProxyLinkV::Trojan(_) => "trojan"@,
            ProxyLinkV::Shadowsocks(_) => "ss"@,
        }
    }

    /// The client's credential on the server: the user id, or the password.
    pub open spec fn ident(self) -> Seq<char> {
        match self {
            ProxyLinkV::Vless(d) => d.uuid,
            ProxyLinkV::Vmess(d) => d.uuid,
            ProxyLinkV::Trojan(d) => d.password,
            ProxyLinkV::Shadowsocks(d) => d.password,
        }
    }

    pub open spec fn address(self) -> Seq<char> {
        match self {
            ProxyLinkV::Vless(d) => d.address,
            ProxyLinkV::Vmess(d) => d.address,
            ProxyLinkV::Trojan(d) => d.address,
            ProxyLinkV::Shadowsocks(d) => d.address,
        }
    }

    pub open spec fn port(self) -> u16 {
        match self {
            ProxyLinkV::Vless(d) => d.port,
            ProxyLinkV::Vmess(d) => d.port,
            ProxyLinkV::Trojan(d) => d.port,
            ProxyLinkV::Shadowsocks(d) => d.port,
        }
    }

    /// The key by which two links count as the same server:
    /// `protocol://ident@address:port`.
    pub open spec fn dedup_key(self) -> Seq<char> {
        self.protocol() + "://"@ + self.ident() + "@"@ + self.address() + ":"@ + decimal(
            self.port() as nat,
        )
    }
}

impl ProxyLink {
    /// The human-readable name that the link carries.
    pub fn remark(&self) -> (r: &str)
        ensures
            r@ == self@.remark(),
    {
        match self {
            ProxyLink::Vless(d) => d.remark.as_str(),
            ProxyLink::Vmess(d) => d.remark.as_str(),
            ProxyLink::Trojan(d) => d.remark.as_str(),
            ProxyLink::Shadowsocks(d) => d.remark.as_str(),
        }
    }

    /// The key by which two links count as the same server: protocol,
    /// credential, address and port.
    pub fn dedup_key(&self) -> (r: String)
        ensures
            r@ == self@.dedup_key(),
    {
        let (proto, ident, address, port) = match self {
            ProxyLink::Vless(d) => ("vless", d.uuid.as_str(), d.address.as_str(), d.port),
            ProxyLink::Vmess(d) => ("vmess", d.uuid.as_str(), d.address.as_str(), d.port),
            ProxyLink::Trojan(d) => ("trojan", d.password.as_str(), d.address.as_str(), d.port),
            ProxyLink::Shadowsocks(d) => ("ss", d.password.as_str(), d.address.as_str(), d.port),
        };
        let k = concat(&chars_of(proto), &chars_of("://"));
        let k = concat(&k, &chars_of(ident));
        let k = concat(&k, &chars_of("@"));
        let k = concat(&k, &chars_of(address));
        let k = concat(&k, &chars_of(":"));
        let k = concat(&k, &decimal_digits(port as u128));
        string_of(&k)
    }
}

/// A subscription: a URL that serves a feed of links.
#[derive(Clone, Debug)]
pub struct Subscription {
    pub name: String,
    pub url: String,
    pub enabled: bool,
}

/// A link to one server, added by hand.
#[derive(Clone, Debug)]
pub struct CustomLink {
    pub raw: String,
    pub enabled: bool,
    pub label: String,
}

/// Where links come from: subscriptions and links added by hand.
#[derive(Clone, Debug)]
pub struct SourcesConfig {
    pub subscriptions: Vec<Subscription>,
    pub custom_links: Vec<CustomLink>,
}

pub struct SubscriptionV {
    pub name: Seq<char>,
    pub url: Seq<char>,
    pub enabled: bool,
}

pub struct CustomLinkV {
    pub raw: Seq<char>,
    pub enabled: bool,
    pub label: Seq<char>,
}

pub struct SourcesV {
    pub subscriptions: Seq<SubscriptionV>,
    pub custom_links: Seq<CustomLinkV>,
}

impl View for Subscription {
    type V = SubscriptionV;

    open spec fn view(&self) -> SubscriptionV {
        SubscriptionV { name: self.name@, url: self.url@, enabled: self.enabled }
    }
}

impl View for CustomLink {
    type V = CustomLinkV;

    open spec fn view(&self) -> CustomLinkV {
        CustomLinkV { raw: self.raw@, enabled: self.enabled, label: self.label@ }
    }
}

impl View for SourcesConfig {
    type V = SourcesV;

    open spec fn view(&self) -> SourcesV {
        SourcesV {
            subscriptions: self.subscriptions@.map_values(|s: Subscription| s@),
            custom_links: self.custom_links@.map_values(|c: CustomLink| c@),
        }
    }
}

impl SourcesConfig {
    /// No subscriptions and no links.
    pub fn new() -> (r: SourcesConfig)
        ensures
            r@.subscriptions.len() == 0,
            r@.custom_links.len() == 0,
    {
        SourcesConfig { subscriptions: Vec::new(), custom_links: Vec::new() }
    }
}

/// What an IP information service reports of an address.
#[derive(Clone, Debug)]
pub struct CheckIpInfo {
    pub ip: String,
    pub city: Option<String>,
    pub region: Option<String>,
    pub country: Option<String>,
    pub loc: Option<String>,
    pub org: Option<String>,
    pub postal: Option<String>,
    pub timezone: Option<String>,
}

} // verus!
