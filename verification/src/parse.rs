//! Proxy configurations parsed from links, with the reason of a failure,
//! and their Xray outbounds.
use crate::builder::{
    outbound_spec, ss_outbound, trojan_outbound, vless_outbound, vmess_outbound, Outbound,
};
use crate::config::{xray_config_spec, XrayConfig};
use crate::models::{opt_chars, ParamMap, ProxyLink, ProxyLinkV, SsV, TrojanV, VlessV, VmessV};
use crate::parser::{link_spec, parse_link_detailed, parse_link_spec, LinkError};
use vstd::prelude::*;

verus! {

#[derive(Debug)]
pub struct VlessConfig {
    pub uuid: String,
    pub address: String,
    pub port: u16,
    pub params: ParamMap,
    pub remark: String,
}

#[derive(Debug)]
pub struct VmessConfig {
    pub remark: String,
    pub address: String,
    pub port: u16,
    pub uuid: String,
    pub security: String,
    pub network: String,
    pub path: Option<String>,
    pub host: Option<String>,
    pub tls: Option<String>,
    pub sni: Option<String>,
}

#[derive(Debug)]
pub struct ShadowsocksConfig {
    pub method: String,
    pub password: String,
    pub address: String,
    pub port: u16,
    pub remark: String,
}

#[derive(Debug)]
pub struct TrojanConfig {
    pub password: String,
    pub address: String,
    pub port: u16,
    pub params: ParamMap,
    pub remark: String,
}

/// A proxy server of one of the supported kinds.
#[derive(Debug)]
pub enum ProxyConfig {
    Vless(VlessConfig),
    Vmess(VmessConfig),
    Trojan(TrojanConfig),
    Shadowsocks(ShadowsocksConfig),
}

impl View for VlessConfig {
    type V = VlessV;

    open spec fn view(&self) -> VlessV {
        VlessV {
            uuid: self.uuid@,
            address: self.address@,
            port: self.port,
            params: self.params@,
            remark: self.remark@,
        }
    }
}

impl View for VmessConfig {
    type V = VmessV;

    open spec fn view(&self) -> VmessV {
        VmessV {
            remark: self.remark@,
            address: self.address@,
            port: self.port,
            uuid: self.uuid@,
            security: self.security@,
            network: self.network@,
            path: opt_chars(self.path),
            host: opt_chars(self.host),
            tls: opt_chars(self.tls),
            sni: opt_chars(self.sni),
        }
    }
}

impl View for TrojanConfig {
    type V = TrojanV;

    open spec fn view(&self) -> TrojanV {
        TrojanV {
            password: self.password@,
            address: self.address@,
            port: self.port,
            params: self.params@,
            remark: self.remark@,
        }
    }
}

impl View for ShadowsocksConfig {
    type V = SsV;

    open spec fn view(&self) -> SsV {
        SsV {
            method: self.method@,
            password: self.password@,
            address: self.address@,
            port: self.port,
            remark: self.remark@,
        }
    }
}

impl View for ProxyConfig {
    type V = ProxyLinkV;

    open spec fn view(&self) -> ProxyLinkV {
        match self {
            ProxyConfig::Vless(c) => ProxyLinkV::Vless(c@),
            ProxyConfig::Vmess(c) => ProxyLinkV::Vmess(c@),
            ProxyConfig::Trojan(c) => ProxyLinkV::Trojan(c@),
            ProxyConfig::Shadowsocks(c) => ProxyLinkV::Shadowsocks(c@),
        }
    }
}

impl VlessConfig {
    fn to_outbound(&self) -> (r: Outbound)
        ensures
            r@ == outbound_spec(ProxyLinkV::Vless(self@)),
    {
        vless_outbound(&self.uuid, &self.address, self.port, &self.params)
    }
}

impl VmessConfig {
    fn to_outbound(&self) -> (r: Outbound)
        ensures
            r@ == outbound_spec(ProxyLinkV::Vmess(self@)),
    {
        vmess_outbound(
            &self.address,
            self.port,
            &self.uuid,
            &self.security,
            &self.network,
            &self.path,
            &self.host,
            &self.tls,
            &self.sni,
        )
    }
}

impl ShadowsocksConfig {
    fn to_outbound(&self) -> (r: Outbound)
        ensures
            r@ == outbound_spec(ProxyLinkV::Shadowsocks(self@)),
    {
        ss_outbound(&self.method, &self.password, &self.address, self.port)
    }
}

impl TrojanConfig {
    fn to_outbound(&self) -> (r: Outbound)
        ensures
            r@ == outbound_spec(ProxyLinkV::Trojan(self@)),
    {
        trojan_outbound(&self.password, &self.address, self.port, &self.params)
    }
}

impl ProxyConfig {
    /// The human-readable name that the link carried.
    pub fn remark(&self) -> (r: &str)
        ensures
            r@ == self@.remark(),
    {
        match self {
            ProxyConfig::Vless(c) => c.remark.as_str(),
            ProxyConfig::Vmess(c) => c.remark.as_str(),
            ProxyConfig::Trojan(c) => c.remark.as_str(),
            ProxyConfig::Shadowsocks(c) => c.remark.as_str(),
        }
    }

    /// The Xray outbound, tagged `proxy`, that connects through this server.
    pub fn to_xray_outbound(&self) -> (r: Outbound)
        ensures
            r@ == outbound_spec(self@),
    {
        match self {
            ProxyConfig::Vless(c) => c.to_outbound(),
            ProxyConfig::Vmess(c) => c.to_outbound(),
            ProxyConfig::Trojan(c) => c.to_outbound(),
            ProxyConfig::Shadowsocks(c) => c.to_outbound(),
        }
    }
}

/// Parses a link into a configuration, or says why it is not one:
/// `UnsupportedProtocol` for a scheme other than `vless://`, `vmess://`,
/// `ss://` and `trojan://`, else the first step of its parser that failed.
///
/// It accepts exactly the links that `parser::parse_link` accepts, and reads
/// the same server from them.
pub fn parse_link(link: &str) -> (r: Result<ProxyConfig, LinkError>)
    ensures
        match r {
            Ok(c) => link_spec(link@) == Ok::<ProxyLinkV, LinkError>(c@),
            Err(e) => link_spec(link@) == Err::<ProxyLinkV, LinkError>(e),
        },
        r is Ok <==> parse_link_spec(link@) is Some,
        r matches Ok(c) ==> parse_link_spec(link@) == Some(c@),
{
    match parse_link_detailed(link) {
        Ok(ProxyLink::Vless(d)) => Ok(
            ProxyConfig::Vless(
                VlessConfig {
                    uuid: d.uuid,
                    address: d.address,
                    port: d.port,
                    params: d.params,
                    remark: d.remark,
                },
            ),
        ),
        Ok(ProxyLink::Vmess(d)) => Ok(
            ProxyConfig::Vmess(
                VmessConfig {
                    remark: d.remark,
                    address: d.address,
                    port: d.port,
                    uuid: d.uuid,
                    security: d.security,
                    network: d.network,
                    path: d.path,
                    host: d.host,
                    tls: d.tls,
                    sni: d.sni,
                },
            ),
        ),
        Ok(ProxyLink::Trojan(d)) => Ok(
            ProxyConfig::Trojan(
                TrojanConfig {
                    password: d.password,
                    address: d.address,
                    port: d.port,
                    params: d.params,
                    remark: d.remark,
                },
            ),
        ),
        Ok(ProxyLink::Shadowsocks(d)) => Ok(
            ProxyConfig::Shadowsocks(
                ShadowsocksConfig {
                    method: d.method,
                    password: d.password,
                    address: d.address,
                    port: d.port,
                    remark: d.remark,
                },
            ),
        ),
        Err(e) => Err(e),
    }
}

/// The full Xray configuration for `proxy`, with its inbound on port 10808.
pub fn build_xray_config(proxy: &ProxyConfig) -> (r: XrayConfig)
    ensures
        r@ == xray_config_spec(outbound_spec(proxy@), 10808),
{
    XrayConfig::new_with_proxy(proxy.to_xray_outbound(), 10808)
}

} // verus!
