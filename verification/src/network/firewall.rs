//! `netsh advfirewall` command lines for the firewall rule of a forwarded port.

use vstd::prelude::*;
use crate::number::decimal;
use crate::text::{chars_of, push_str, string_of};
use crate::number::push_decimal;

verus! {

/// The `localip` parameter: `any` for the wildcard address `0.0.0.0` or an
/// empty address, else the address itself.
pub open spec fn local_ip_param(listen_addr: Seq<char>) -> Seq<char> {
    if listen_addr == "0.0.0.0"@ || listen_addr.len() == 0 {
        "localip=any"@
    } else {
        "localip="@ + listen_addr
    }
}

/// The command that adds an inbound TCP allow rule named `rule_name` for
/// `port` on `listen_addr`.
pub fn get_add_rule_cmd_netsh(rule_name: &str, port: u16, listen_addr: &str) -> (r: String)
    ensures
        r@ == "netsh advfirewall firewall add rule name=\""@ + rule_name@
            + "\" dir=in action=allow protocol=TCP localport="@ + decimal(port as nat) + " "@
            + local_ip_param(listen_addr@),
{
    let mut out: Vec<char> = Vec::new();
    push_str(&mut out, "netsh advfirewall firewall add rule name=\"");
    push_str(&mut out, rule_name);
    push_str(&mut out, "\" dir=in action=allow protocol=TCP localport=");
    push_decimal(&mut out, port as u64);
    push_str(&mut out, " ");
    let addr = chars_of(listen_addr);
    if crate::text::str_eq(listen_addr, "0.0.0.0") || addr.len() == 0 {
        push_str(&mut out, "localip=any");
    } else {
        push_str(&mut out, "localip=");
        push_str(&mut out, listen_addr);
    }
    assert(out@ =~= "netsh advfirewall firewall add rule name=\""@ + rule_name@
        + "\" dir=in action=allow protocol=TCP localport="@ + decimal(port as nat) + " "@
        + local_ip_param(listen_addr@));
    string_of(out.as_slice())
}

/// The command that deletes the firewall rule named `rule_name`.
pub fn get_delete_rule_cmd_netsh(rule_name: &str) -> (r: String)
    ensures
        r@ == "netsh advfirewall firewall delete rule name=\""@ + rule_name@ + "\""@,
{
    let mut out: Vec<char> = Vec::new();
    push_str(&mut out, "netsh advfirewall firewall delete rule name=\"");
    push_str(&mut out, rule_name);
    push_str(&mut out, "\"");
    assert(out@ =~= "netsh advfirewall firewall delete rule name=\""@ + rule_name@ + "\""@);
    string_of(out.as_slice())
}

} // verus!
