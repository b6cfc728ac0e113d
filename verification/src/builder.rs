//! The Xray outbound for a proxy link: the choices of transport, security
//! and their settings that a link's parameters make, with their defaults.
use crate::models::{
    get_or, opt_chars, ParamMap, ProxyLink, ProxyLinkV, SsData, SsV, TrojanData, TrojanV, VlessData, VlessV,
    VmessData, VmessV,
};
use vstd::prelude::*;

verus! {

/// REALITY settings of a vless stream.
pub struct RealitySettings {
    pub server_name: String,
    pub fingerprint: String,
    pub public_key: String,
    pub short_id: String,
    pub spider_x: String,
    pub show: bool,
}

/// TLS settings of a stream; vmess gives only the server name.
pub struct TlsSettings {
    pub server_name: String,
    pub fingerprint: Option<String>,
    pub allow_insecure: Option<bool>,
}

/// WebSocket settings of a stream.
pub struct WsSettings {
    pub path: String,
    pub host: String,
}

/// The `streamSettings` of an outbound.
pub struct StreamSettings {
    pub network: String,
    pub security: String,
    pub reality: Option<RealitySettings>,
    pub tls: Option<TlsSettings>,
    pub ws: Option<WsSettings>,
    pub grpc_service_name: Option<String>,
}

/// An Xray outbound: its tag, the server, the credentials, the stream and
/// the fixed members of its protocol (user level, encryption, `alterId`,
/// mux, trojan's TLS, shadowsocks UDP over TCP).
pub enum Outbound {
    Vless {
        tag: String,
        address: String,
        port: u16,
        id: String,
        encryption: String,
        flow: String,
        level: u32,
        stream: StreamSettings,
        mux_enabled: bool,
        mux_concurrency: i32,
    },
    Vmess {
        tag: String,
        address: String,
        port: u16,
        id: String,
        alter_id: u32,
        security: String,
        level: u32,
        stream: StreamSettings,
    },
    Trojan {
        tag: String,
        address: String,
        port: u16,
        password: String,
        network: String,
        security: String,
        server_name: String,
    },
    Shadowsocks {
        tag: String,
        address: String,
        port: u16,
        method: String,
        password: String,
        uot: bool,
    },
}

pub struct RealityV {
    pub server_name: Seq<char>,
    pub fingerprint: Seq<char>,
    pub public_key: Seq<char>,
    pub short_id: Seq<char>,
    pub spider_x: Seq<char>,
    pub show: bool,
}

pub struct TlsV {
    pub server_name: Seq<char>,
    pub fingerprint: Option<Seq<char>>,
    pub allow_insecure: Option<bool>,
}

pub struct WsV {
    pub path: Seq<char>,
    pub host: Seq<char>,
}

pub struct StreamV {
    pub network: Seq<char>,
    pub security: Seq<char>,
    pub reality: Option<RealityV>,
    pub tls: Option<TlsV>,
    pub ws: Option<WsV>,
    pub grpc_service_name: Option<Seq<char>>,
}

pub enum OutboundV {
    Vless {
        tag: Seq<char>,
        address: Seq<char>,
        port: u16,
        id: Seq<char>,
        encryption: Seq<char>,
        flow: Seq<char>,
        level: u32,
        stream: StreamV,
        mux_enabled: bool,
        mux_concurrency: i32,
    },
    Vmess {
        tag: Seq<char>,
        address: Seq<char>,
        port: u16,
        id: Seq<char>,
        alter_id: u32,
        security: Seq<char>,
        level: u32,
        stream: StreamV,
    },
    Trojan {
        tag: Seq<char>,
        address: Seq<char>,
        port: u16,
        password: Seq<char>,
        network: Seq<char>,
        security: Seq<char>,
        server_name: Seq<char>,
    },
    Shadowsocks {
        tag: Seq<char>,
        address: Seq<char>,
        port: u16,
        method: Seq<char>,
        password: Seq<char>,
        uot: bool,
    },
}

impl View for RealitySettings {
    type V = RealityV;

    open spec fn view(&self) -> RealityV {
        RealityV {
            server_name: self.server_name@,
            fingerprint: self.fingerprint@,
            public_key: self.public_key@,
            short_id: self.short_id@,
            spider_x: self.spider_x@,
            show: self.show,
        }
    }
}

impl View for TlsSettings {
    type V = TlsV;

    open spec fn view(&self) -> TlsV {
        TlsV {
            server_name: self.server_name@,
            fingerprint: opt_chars(self.fingerprint),
            allow_insecure: self.allow_insecure,
        }
    }
}

impl View for WsSettings {
    type V = WsV;

    open spec fn view(&self) -> WsV {
        WsV { path: self.path@, host: self.host@ }
    }
}

impl View for StreamSettings {
    type V = StreamV;

    open spec fn view(&self) -> StreamV {
        StreamV {
            network: self.network@,
            security: self.security@,
            reality: match self.reality {
                Some(r) => Some(r@),
                None => None,
            },
            tls: match self.tls {
                Some(t) => Some(t@),
                None => None,
            },
            ws: match self.ws {
                Some(w) => Some(w@),
                None => None,
            },
            grpc_service_name: opt_chars(self.grpc_service_name),
        }
    }
}

impl View for Outbound {
    type V = OutboundV;

    open spec fn view(&self) -> OutboundV {
        match self {
            Outbound::Vless {
                tag,
                address,
                port,
                id,
                encryption,
                flow,
                level,
                stream,
                mux_enabled,
                mux_concurrency,
            } => OutboundV::Vless {
                tag: tag@,
                address: address@,
                port: *port,
                id: id@,
                encryption: encryption@,
                flow: flow@,
                level: *level,
                stream: stream@,
                mux_enabled: *mux_enabled,
                mux_concurrency: *mux_concurrency,
            },
            Outbound::Vmess { tag, address, port, id, alter_id, security, level, stream } =>
                OutboundV::Vmess {
                tag: tag@,
                address: address@,
                port: *port,
                id: id@,
                alter_id: *alter_id,
                security: security@,
                level: *level,
                stream: stream@,
            },
            Outbound::Trojan { tag, address, port, password, network, security, server_name } =>
                OutboundV::Trojan {
                tag: tag@,
                address: address@,
                port: *port,
                password: password@,
                network: network@,
                security: security@,
                server_name: server_name@,
            },
            Outbound::Shadowsocks { tag, address, port, method, password, uot } =>
                OutboundV::Shadowsocks {
                tag: tag@,
                address: address@,
                port: *port,
                method: method@,
                password: password@,
                uot: *uot,
            },
        }
    }
}

impl OutboundV {
    pub open spec fn tag(self) -> Seq<char> {
        match self {
            OutboundV::Vless { tag, .. } => tag,
            OutboundV::Vmess { tag, .. } => tag,
            OutboundV::Trojan { tag, .. } => tag,
            OutboundV::Shadowsocks { tag, .. } => tag,
        }
    }

    pub open spec fn address(self) -> Seq<char> {
        match self {
            OutboundV::Vless { address, .. } => address,
            OutboundV::Vmess { address, .. } => address,
            OutboundV::Trojan { address, .. } => address,
            OutboundV::Shadowsocks { address, .. } => address,
        }
    }

    pub open spec fn port(self) -> u16 {
        match self {
            OutboundV::Vless { port, .. } => port,
            OutboundV::Vmess { port, .. } => port,
            OutboundV::Trojan { port, .. } => port,
            OutboundV::Shadowsocks { port, .. } => port,
        }
    }
}

/// Whether the `allowInsecure` parameter asks to skip certificate checks.
pub open spec fn allow_insecure(p: Map<Seq<char>, Seq<char>>) -> bool {
    p.contains_key("allowInsecure"@) && (p["allowInsecure"@] == "1"@ || p["allowInsecure"@]
        == "true"@)
}

/// The stream of a vless link: transport from `type` (default `tcp`),
/// security from `security` (default `none`), REALITY or TLS settings for
/// those securities, WebSocket or gRPC settings for those transports.
pub open spec fn vless_stream(p: Map<Seq<char>, Seq<char>>) -> StreamV {
    let net = get_or(p, "type"@, "tcp"@);
    let sec = get_or(p, "security"@, "none"@);
    StreamV {
        network: net,
        security: sec,
        reality: if sec == "reality"@ {
            Some(
                RealityV {
                    server_name: get_or(p, "sni"@, ""@),
                    fingerprint: get_or(p, "fp"@, "chrome"@),
                    public_key: get_or(p, "pbk"@, ""@),
                    short_id: get_or(p, "sid"@, ""@),
                    spider_x: get_or(p, "spx"@, ""@),
                    show: false,
                },
            )
        } else {
            None
        },
        tls: if sec != "reality"@ && sec == "tls"@ {
            Some(
                TlsV {
                    server_name: get_or(p, "sni"@, ""@),
                    fingerprint: Some(get_or(p, "fp"@, "chrome"@)),
                    allow_insecure: Some(allow_insecure(p)),
                },
            )
        } else {
            None
        },
        ws: if net == "ws"@ {
            Some(WsV { path: get_or(p, "path"@, "/"@), host: get_or(p, "host"@, ""@) })
        } else {
            None
        },
        grpc_service_name: if net != "ws"@ && net == "grpc"@ {
            Some(get_or(p, "serviceName"@, ""@))
        } else {
            None
        },
    }
}

pub open spec fn vless_outbound_spec(d: VlessV) -> OutboundV {
    OutboundV::Vless {
        tag: "proxy"@,
        address: d.address,
        port: d.port,
        id: d.uuid,
        encryption: "none"@,
        flow: get_or(d.params, "flow"@, ""@),
        level: 0,
        stream: vless_stream(d.params),
        mux_enabled: false,
        mux_concurrency: -1i32,
    }
}

pub open spec fn or_default(o: Option<Seq<char>>, d: Seq<char>) -> Seq<char> {
    match o {
        Some(s) => s,
        None => d,
    }
}

/// The stream of a vmess link: TLS exactly when `tls` is `"tls"`,
/// WebSocket settings when the network is `ws`.
pub open spec fn vmess_stream(d: VmessV) -> StreamV {
    let is_tls = d.tls == Some("tls"@);
    StreamV {
        network: d.network,
        security: if is_tls {
            "tls"@
        } else {
            "none"@
        },
        reality: None,
        tls: if is_tls {
            Some(TlsV { server_name: or_default(d.sni, ""@), fingerprint: None, allow_insecure: None })
        } else {
            None
        },
        ws: if d.network == "ws"@ {
            Some(WsV { path: or_default(d.path, "/"@), host: or_default(d.host, ""@) })
        } else {
            None
        },
        grpc_service_name: None,
    }
}

pub open spec fn vmess_outbound_spec(d: VmessV) -> OutboundV {
    OutboundV::Vmess {
        tag: "proxy"@,
        address: d.address,
        port: d.port,
        id: d.uuid,
        alter_id: 0,
        level: 0,
        security: if d.security.len() == 0 {
            "auto"@
        } else {
            d.security
        },
        stream: vmess_stream(d),
    }
}

pub open spec fn trojan_outbound_spec(d: TrojanV) -> OutboundV {
    OutboundV::Trojan {
        tag: "proxy"@,
        address: d.address,
        port: d.port,
        password: d.password,
        network: get_or(d.params, "type"@, "tcp"@),
        security: "tls"@,
        server_name: get_or(d.params, "sni"@, ""@),
    }
}

pub open spec fn ss_outbound_spec(d: SsV) -> OutboundV {
    OutboundV::Shadowsocks {
        tag: "proxy"@,
        address: d.address,
        port: d.port,
        method: d.method,
        password: d.password,
        uot: true,
    }
}

pub open spec fn outbound_spec(l: ProxyLinkV) -> OutboundV {
    match l {
        ProxyLinkV::Vless(d) => vless_outbound_spec(d),
        ProxyLinkV::Vmess(d) => vmess_outbound_spec(d),
        ProxyLinkV::Trojan(d) => trojan_outbound_spec(d),
        ProxyLinkV::Shadowsocks(d) => ss_outbound_spec(d),
    }
}

fn same_text(a: &String, b: &str) -> (r: bool)
    ensures
        r == (a@ == b@),
{
    *a == String::from_str(b)
}

pub(crate) fn build_vless_outbound(vless: &VlessData) -> (r: Outbound)
    ensures
        r@ == vless_outbound_spec(vless@),
{
    vless_outbound(&vless.uuid, &vless.address, vless.port, &vless.params)
}

/// The vless outbound for the server `address:port`, user `uuid`, with
/// the link parameters `p`.
pub(crate) fn vless_outbound(uuid: &String, address: &String, port: u16, p: &ParamMap) -> (r: Outbound)
    ensures
        r@ == vless_outbound_spec(
            VlessV { uuid: uuid@, address: address@, port, params: p@, remark: ""@ },
        ),
{
    let net = p.get_or("type", "tcp");
    let security = p.get_or("security", "none");
    let flow = p.get_or("flow", "");
    let is_reality = same_text(&security, "reality");
    let is_tls = same_text(&security, "tls");
    let reality = if is_reality {
        Some(
            RealitySettings {
                server_name: p.get_or("sni", ""),
                fingerprint: p.get_or("fp", "chrome"),
                public_key: p.get_or("pbk", ""),
                short_id: p.get_or("sid", ""),
                spider_x: p.get_or("spx", ""),
                show: false,
            },
        )
    } else {
        None
    };
    let tls = if !is_reality && is_tls {
        let insecure = match p.get("allowInsecure") {
            Some(v) => same_text(&v, "1") || same_text(&v, "true"),
            None => false,
        };
        Some(
            TlsSettings {
                server_name: p.get_or("sni", ""),
                fingerprint: Some(p.get_or("fp", "chrome")),
                allow_insecure: Some(insecure),
            },
        )
    } else {
        None
    };
    let is_ws = same_text(&net, "ws");
    let is_grpc = same_text(&net, "grpc");
    let ws = if is_ws {
        Some(WsSettings { path: p.get_or("path", "/"), host: p.get_or("host", "") })
    } else {
        None
    };
    let grpc_service_name = if !is_ws && is_grpc {
        Some(p.get_or("serviceName", ""))
    } else {
        None
    };
    let stream = StreamSettings { network: net, security, reality, tls, ws, grpc_service_name };
    Outbound::Vless {
        tag: String::from_str("proxy"),
        address: address.clone(),
        port,
        id: uuid.clone(),
        encryption: String::from_str("none"),
        flow,
        level: 0,
        stream,
        mux_enabled: false,
        mux_concurrency: -1,
    }
}

fn text_or(o: &Option<String>, d: &str) -> (r: String)
    ensures
        r@ == or_default(opt_chars(*o), d@),
{
    match o {
        Some(s) => s.clone(),
        None => String::from_str(d),
    }
}

pub(crate) fn build_vmess_outbound(vmess: &VmessData) -> (r: Outbound)
    ensures
        r@ == vmess_outbound_spec(vmess@),
{
    vmess_outbound(
        &vmess.address,
        vmess.port,
        &vmess.uuid,
        &vmess.security,
        &vmess.network,
        &vmess.path,
        &vmess.host,
        &vmess.tls,
        &vmess.sni,
    )
}

/// The vmess outbound for the server `address:port` and the fields of a
/// vmess document.
pub(crate) fn vmess_outbound(
    address: &String,
    port: u16,
    uuid: &String,
    security: &String,
    network: &String,
    path: &Option<String>,
    host: &Option<String>,
    tls: &Option<String>,
    sni: &Option<String>,
) -> (r: Outbound)
    ensures
        r@ == vmess_outbound_spec(
            VmessV {
                remark: ""@,
                address: address@,
                port,
                uuid: uuid@,
                security: security@,
                network: network@,
                path: opt_chars(*path),
                host: opt_chars(*host),
                tls: opt_chars(*tls),
                sni: opt_chars(*sni),
            },
        ),
{
    let is_tls = match tls {
        Some(t) => same_text(t, "tls"),
        None => false,
    };
    let tls_settings = if is_tls {
        Some(TlsSettings { server_name: text_or(sni, ""), fingerprint: None, allow_insecure: None })
    } else {
        None
    };
    let ws = if same_text(network, "ws") {
        Some(WsSettings { path: text_or(path, "/"), host: text_or(host, "") })
    } else {
        None
    };
    let stream = StreamSettings {
        network: network.clone(),
        security: String::from_str(
            if is_tls {
                "tls"
            } else {
                "none"
            },
        ),
        reality: None,
        tls: tls_settings,
        ws,
        grpc_service_name: None,
    };
    let user_security = if security.as_str().is_empty() {
        String::from_str("auto")
    } else {
        security.clone()
    };
    Outbound::Vmess {
        tag: String::from_str("proxy"),
        address: address.clone(),
        port,
        id: uuid.clone(),
        alter_id: 0,
        security: user_security,
        level: 0,
        stream,
    }
}

pub(crate) fn build_trojan_outbound(trojan: &TrojanData) -> (r: Outbound)
    ensures
        r@ == trojan_outbound_spec(trojan@),
{
    trojan_outbound(&trojan.password, &trojan.address, trojan.port, &trojan.params)
}

/// The trojan outbound for the server `address:port` with `password` and
/// the link parameters `p`.
pub(crate) fn trojan_outbound(password: &String, address: &String, port: u16, p: &ParamMap) -> (r: Outbound)
    ensures
        r@ == trojan_outbound_spec(
            TrojanV { password: password@, address: address@, port, params: p@, remark: ""@ },
        ),
{
    Outbound::Trojan {
        tag: String::from_str("proxy"),
        address: address.clone(),
        port,
        password: password.clone(),
        network: p.get_or("type", "tcp"),
        security: String::from_str("tls"),
        server_name: p.get_or("sni", ""),
    }
}

pub(crate) fn build_ss_outbound(ss: &SsData) -> (r: Outbound)
    ensures
        r@ == ss_outbound_spec(ss@),
{
    ss_outbound(&ss.method, &ss.password, &ss.address, ss.port)
}

/// The shadowsocks outbound for the server `address:port`.
pub(crate) fn ss_outbound(method: &String, password: &String, address: &String, port: u16) -> (r: Outbound)
    ensures
        r@ == ss_outbound_spec(
            SsV { method: method@, password: password@, address: address@, port, remark: ""@ },
        ),
{
    Outbound::Shadowsocks {
        tag: String::from_str("proxy"),
        address: address.clone(),
        port,
        method: method.clone(),
        password: password.clone(),
        uot: true,
    }
}

/// The outbound that connects through the server `link` describes.
pub fn build_outbound_from_link(link: &ProxyLink) -> (r: Outbound)
    ensures
        r@ == outbound_spec(link@),
{
    match link {
        ProxyLink::Vless(vless) => build_vless_outbound(vless),
        ProxyLink::Vmess(vmess) => build_vmess_outbound(vmess),
        ProxyLink::Trojan(trojan) => build_trojan_outbound(trojan),
        ProxyLink::Shadowsocks(ss) => build_ss_outbound(ss),
    }
}

/// The outbound connects to the server of the link it was built from, and
/// is the one tagged `proxy` that the routing rule sends traffic to.
pub proof fn law_outbound_targets_link_server(l: ProxyLinkV)
    ensures
        outbound_spec(l).address() == l.address(),
        outbound_spec(l).port() == l.port(),
        outbound_spec(l).tag() == "proxy"@,
{
}

/// A vless stream has at most one of REALITY and TLS settings, and at most
/// one of WebSocket and gRPC settings.
pub proof fn law_vless_stream_exclusive(p: Map<Seq<char>, Seq<char>>)
    ensures
        !(vless_stream(p).reality is Some && vless_stream(p).tls is Some),
        !(vless_stream(p).ws is Some && vless_stream(p).grpc_service_name is Some),
{
}

/// The vmess outbound carries the server's id and cipher ("auto" where the
/// link names none), its transport, and TLS exactly when the link's `tls`
/// is `"tls"`, then naming the link's SNI as the server name ("" where it
/// has none); WebSocket settings come with the `ws` transport, with the
/// link's path (default "/") and host (default "").
pub proof fn law_vmess_outbound(d: VmessV)
    ensures
        outbound_spec(ProxyLinkV::Vmess(d)) matches OutboundV::Vmess { id, security, stream, .. }
            && {
            &&& id == d.uuid
            &&& (d.security.len() > 0 ==> security == d.security)
            &&& (d.security.len() == 0 ==> security == "auto"@)
            &&& stream.network == d.network
            &&& (d.tls == Some("tls"@) <==> stream.tls is Some)
            &&& (d.tls == Some("tls"@) ==> stream.security == "tls"@)
            &&& (d.tls != Some("tls"@) ==> stream.security == "none"@)
            &&& (stream.tls matches Some(t) ==> ((d.sni matches Some(s) ==> t.server_name == s)
                && (d.sni is None ==> t.server_name == ""@)))
            &&& stream.reality is None
            &&& stream.grpc_service_name is None
            &&& (d.network == "ws"@ <==> stream.ws is Some)
            &&& (stream.ws matches Some(w) ==> ((d.path matches Some(x) ==> w.path == x) && (
            d.path is None ==> w.path == "/"@) && (d.host matches Some(h) ==> w.host == h) && (
            d.host is None ==> w.host == ""@)))
        },
{
}

/// The vless outbound carries the server's id, the `flow` parameter ("" by
/// default), the `type` and `security` parameters as transport and security
/// (`tcp` and `none` by default), REALITY settings exactly for `reality`
/// with the `pbk`, `sid` and `sni` parameters, TLS settings exactly for
/// `tls` with the `sni` parameter, WebSocket settings exactly for `ws` and
/// gRPC settings exactly for `grpc` with the `serviceName` parameter.
pub proof fn law_vless_outbound(d: VlessV)
    ensures
        outbound_spec(ProxyLinkV::Vless(d)) matches OutboundV::Vless { id, flow, stream, .. } && {
            let p = d.params;
            &&& id == d.uuid
            &&& (p.contains_key("flow"@) ==> flow == p["flow"@])
            &&& (!p.contains_key("flow"@) ==> flow == ""@)
            &&& (p.contains_key("type"@) ==> stream.network == p["type"@])
            &&& (!p.contains_key("type"@) ==> stream.network == "tcp"@)
            &&& (p.contains_key("security"@) ==> stream.security == p["security"@])
            &&& (!p.contains_key("security"@) ==> stream.security == "none"@)
            &&& (stream.reality is Some <==> stream.security == "reality"@)
            &&& (stream.tls is Some <==> stream.security == "tls"@)
            &&& (stream.ws is Some <==> stream.network == "ws"@)
            &&& (stream.grpc_service_name is Some <==> stream.network == "grpc"@)
            &&& (stream.reality matches Some(r) ==> ((p.contains_key("pbk"@) ==> r.public_key
                == p["pbk"@]) && (p.contains_key("sid"@) ==> r.short_id == p["sid"@]) && (
            p.contains_key("sni"@) ==> r.server_name == p["sni"@])))
            &&& (stream.tls matches Some(t) ==> (p.contains_key("sni"@) ==> t.server_name
                == p["sni"@]) && (!p.contains_key("sni"@) ==> t.server_name == ""@))
            &&& (stream.grpc_service_name matches Some(n) ==> (p.contains_key("serviceName"@)
                ==> n == p["serviceName"@]))
        },
{
    reveal_strlit("reality");
    reveal_strlit("tls");
    reveal_strlit("ws");
    reveal_strlit("grpc");
}

/// The trojan outbound carries the server's password, TLS always, the
/// `type` parameter as transport (`tcp` by default) and the `sni`
/// parameter as server name ("" by default); the shadowsocks outbound
/// carries the method and password, with UDP over TCP.
pub proof fn law_trojan_ss_outbounds(t: TrojanV, s: SsV)
    ensures
        outbound_spec(ProxyLinkV::Trojan(t)) matches OutboundV::Trojan {
            password,
            network,
            security,
            server_name,
            ..
        } && {
            &&& password == t.password
            &&& security == "tls"@
            &&& (t.params.contains_key("type"@) ==> network == t.params["type"@])
            &&& (!t.params.contains_key("type"@) ==> network == "tcp"@)
            &&& (t.params.contains_key("sni"@) ==> server_name == t.params["sni"@])
            &&& (!t.params.contains_key("sni"@) ==> server_name == ""@)
        },
        outbound_spec(ProxyLinkV::Shadowsocks(s)) matches OutboundV::Shadowsocks {
            method,
            password,
            uot,
            ..
        } && method == s.method && password == s.password && uot,
{
}

} // verus!
