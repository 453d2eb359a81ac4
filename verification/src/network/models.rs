//! Data of the network page: interfaces, port-proxy rules and the HTTP proxy
//! settings.

use vstd::prelude::*;

verus! {

/// A network interface of the host as the network page lists it.
#[derive(Debug, Clone)]
pub struct NetworkInterface {
    pub name: String,
    pub ip_address: String,
    pub is_loopback: bool,
    pub is_virtual: bool,
}

/// A port forwarding rule: connections to `listen_address:listen_port` on the
/// host go to `target_port` of the distribution `distro_name`.
#[derive(Debug, Clone)]
pub struct PortProxyRule {
    pub id: String,
    pub distro_name: String,
    pub listen_address: String,
    pub listen_port: u16,
    pub target_port: u16,
    pub enable_firewall: bool,
}

/// HTTP proxy settings handed to distributions.
#[derive(Debug, Clone)]
pub struct HttpProxyConfig {
    pub is_enabled: bool,
    pub host: String,
    pub port: String,
    pub auth_enabled: bool,
    pub username: String,
    pub password: String,
    pub no_proxy: String,
}

/// The network part of the configuration: the rules and the proxy settings.
#[derive(Debug, Clone)]
pub struct NetworkConfig {
    pub port_proxies: Vec<PortProxyRule>,
    pub proxy: HttpProxyConfig,
}

impl Default for HttpProxyConfig {
    /// Everything off and every text empty.
    fn default() -> (r: Self)
        ensures
            !r.is_enabled,
            !r.auth_enabled,
            r.host@.len() == 0,
            r.port@.len() == 0,
            r.username@.len() == 0,
            r.password@.len() == 0,
            r.no_proxy@.len() == 0,
    {
        HttpProxyConfig {
            is_enabled: false,
            host: String::new(),
            port: String::new(),
            auth_enabled: false,
            username: String::new(),
            password: String::new(),
            no_proxy: String::new(),
        }
    }
}

/// The hosts that bypass the proxy unless the user set others.
pub fn default_no_proxy() -> (r: String)
    ensures
        r@ == "localhost,127.0.0.1,.example.com"@,
{
    crate::text::string_of(crate::text::chars_of("localhost,127.0.0.1,.example.com").as_slice())
}

/// The placeholder of the proxy host field.
pub fn default_host() -> (r: String)
    ensures
        r@ == "e.g. 192.168.1.10"@,
{
    crate::text::string_of(crate::text::chars_of("e.g. 192.168.1.10").as_slice())
}

/// The placeholder of the proxy port field.
pub fn default_port() -> (r: String)
    ensures
        r@ == "e.g. 10808"@,
{
    crate::text::string_of(crate::text::chars_of("e.g. 10808").as_slice())
}

/// An exact copy of a rule.
pub fn copy_rule(r: &PortProxyRule) -> (c: PortProxyRule)
    ensures
        c == *r,
{
    PortProxyRule {
        id: r.id.clone(),
        distro_name: r.distro_name.clone(),
        listen_address: r.listen_address.clone(),
        listen_port: r.listen_port,
        target_port: r.target_port,
        enable_firewall: r.enable_firewall,
    }
}

} // verus!
