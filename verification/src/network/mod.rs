//! Port-forwarding rules, network interfaces and `netsh` firewall commands.

pub mod models;
pub mod firewall;

pub mod rules;
pub mod scanner;
pub mod view;
pub mod tracker;
