//! Which host interfaces the network page offers: IPv4 only, with virtual
//! adapters (WSL, VPNs, hypervisors) recognised by name.

use vstd::prelude::*;
use crate::network::models::NetworkInterface;
use crate::text::{has_infix, lowercase, str_contains, to_lowercase};

verus! {

/// An interface address as the operating system reports it.
pub struct RawInterface {
    pub name: String,
    pub ip_address: String,
    pub is_loopback: bool,
    pub is_ipv4: bool,
}

/// A lowercased adapter name marks a virtual adapter.
pub open spec fn names_virtual(lower: Seq<char>) -> bool {
    ||| has_infix(lower, "wsl"@)
    ||| has_infix(lower, "virtual"@)
    ||| has_infix(lower, "veth"@)
    ||| has_infix(lower, "vmware"@)
    ||| has_infix(lower, "hyper-v"@)
    ||| has_infix(lower, "tailscale"@)
    ||| has_infix(lower, "zerotier"@)
    ||| has_infix(lower, "wireguard"@)
    ||| has_infix(lower, "tunnel"@)
    ||| has_infix(lower, "openvpn"@)
}

/// The plain content of a listed interface.
pub open spec fn interface_view(i: NetworkInterface) -> (Seq<char>, Seq<char>, bool, bool) {
    (i.name@, i.ip_address@, i.is_loopback, i.is_virtual)
}

/// What the page lists for one reported address.
pub open spec fn listed_view(r: RawInterface) -> (Seq<char>, Seq<char>, bool, bool) {
    (r.name@, r.ip_address@, r.is_loopback, names_virtual(lowercase(r.name@)))
}

/// The listed interfaces for the reported addresses: the IPv4 ones, in order.
pub open spec fn ipv4_views(raw: Seq<RawInterface>) -> Seq<(Seq<char>, Seq<char>, bool, bool)>
    decreases raw.len(),
{
    if raw.len() == 0 {
        seq![]
    } else if raw.last().is_ipv4 {
        ipv4_views(raw.drop_last()).push(listed_view(raw.last()))
    } else {
        ipv4_views(raw.drop_last())
    }
}

/// Whether a lowercased adapter name marks a virtual adapter.
pub fn is_virtual_name(lower: &str) -> (r: bool)
    ensures
        r == names_virtual(lower@),
        has_infix(lower@, "wsl"@) ==> r,
        has_infix(lower@, "virtual"@) ==> r,
        has_infix(lower@, "veth"@) ==> r,
        has_infix(lower@, "vmware"@) ==> r,
        has_infix(lower@, "hyper-v"@) ==> r,
        has_infix(lower@, "tailscale"@) ==> r,
        has_infix(lower@, "zerotier"@) ==> r,
        has_infix(lower@, "wireguard"@) ==> r,
        has_infix(lower@, "tunnel"@) ==> r,
        has_infix(lower@, "openvpn"@) ==> r,
        r ==> has_infix(lower@, "wsl"@) || has_infix(lower@, "virtual"@) || has_infix(lower@, "veth"@) || has_infix(lower@, "vmware"@) || has_infix(lower@, "hyper-v"@) || has_infix(lower@, "tailscale"@) || has_infix(lower@, "zerotier"@) || has_infix(lower@, "wireguard"@) || has_infix(lower@, "tunnel"@) || has_infix(lower@, "openvpn"@),
{
    proof {
        law_virtual_markers(lower@);
    }
    str_contains(lower, "wsl") || str_contains(lower, "virtual") || str_contains(lower, "veth")
        || str_contains(lower, "vmware") || str_contains(lower, "hyper-v")
        || str_contains(lower, "tailscale") || str_contains(lower, "zerotier")
        || str_contains(lower, "wireguard") || str_contains(lower, "tunnel")
        || str_contains(lower, "openvpn")
}

/// The host's interfaces for the network page: the IPv4 addresses among
/// those reported, in order, each marked virtual or not by its name.
pub fn get_physical_interfaces(raw: Vec<RawInterface>) -> (r: Vec<NetworkInterface>)
    ensures
        r@.map_values(|i: NetworkInterface| interface_view(i)) == ipv4_views(raw@),
{
    let mut out: Vec<NetworkInterface> = Vec::new();
    let mut i: usize = 0;
    while i < raw.len()
        invariant
            i <= raw.len(),
            out@.map_values(|i: NetworkInterface| interface_view(i)) == ipv4_views(raw@.take(i as int)),
        decreases raw.len() - i,
    {
        let ghost t = raw@.take(i + 1);
        assert(t.drop_last() =~= raw@.take(i as int));
        assert(t.last() == raw@[i as int]);
        let ghost before = out@.map_values(|i: NetworkInterface| interface_view(i));
        if raw[i].is_ipv4 {
            let lower = to_lowercase(raw[i].name.as_str());
            let is_virtual = is_virtual_name(lower.as_str());
            out.push(NetworkInterface {
                name: raw[i].name.clone(),
                ip_address: raw[i].ip_address.clone(),
                is_loopback: raw[i].is_loopback,
                is_virtual,
            });
            assert(out@.map_values(|i: NetworkInterface| interface_view(i)) =~= before.push(listed_view(raw@[i as int])));
        }
        i = i + 1;
    }
    assert(raw@.take(raw.len() as int) =~= raw@);
    out
}

/// An adapter whose lowercased name contains any of the markers `wsl`,
/// `virtual`, `veth`, `vmware`, `hyper-v`, `tailscale`, `zerotier`,
/// `wireguard`, `tunnel` or `openvpn` is virtual, and no other is.
pub proof fn law_virtual_markers(lower: Seq<char>)
    ensures
        has_infix(lower, "wsl"@) ==> names_virtual(lower),
        has_infix(lower, "virtual"@) ==> names_virtual(lower),
        has_infix(lower, "veth"@) ==> names_virtual(lower),
        has_infix(lower, "vmware"@) ==> names_virtual(lower),
        has_infix(lower, "hyper-v"@) ==> names_virtual(lower),
        has_infix(lower, "tailscale"@) ==> names_virtual(lower),
        has_infix(lower, "zerotier"@) ==> names_virtual(lower),
        has_infix(lower, "wireguard"@) ==> names_virtual(lower),
        has_infix(lower, "tunnel"@) ==> names_virtual(lower),
        has_infix(lower, "openvpn"@) ==> names_virtual(lower),
        names_virtual(lower) ==> has_infix(lower, "wsl"@) || has_infix(lower, "virtual"@) || has_infix(lower, "veth"@) || has_infix(lower, "vmware"@) || has_infix(lower, "hyper-v"@) || has_infix(lower, "tailscale"@) || has_infix(lower, "zerotier"@) || has_infix(lower, "wireguard"@) || has_infix(lower, "tunnel"@) || has_infix(lower, "openvpn"@),
{
}

} // verus!
