//! A WireGuard tunnel, as the user set it up.
use vstd::prelude::*;

verus! {

/// A tunnel. Every setting is kept as the text that the user entered; an empty text means that
/// the setting was left out.
#[derive(Debug)]
pub struct Tunnel {
    pub id: String,
    pub interface: Interface,
    pub peer: Peer,
    pub rules: Rules,
}

/// The local end of a tunnel.
#[allow(non_snake_case)]
#[derive(Debug)]
pub struct Interface {
    pub privateKey: String,
    pub ipv4Address: String,
    pub ipv6Address: String,
    pub port: String,
    pub dns: String,
    pub mtu: String,
}

/// The remote end of a tunnel.
#[allow(non_snake_case)]
#[derive(Debug)]
pub struct Peer {
    pub publicKey: String,
    pub presharedKey: String,
    pub endpoint: String,
    pub port: String,
    pub persistentKeepalive: String,
}

/// What goes through a tunnel and what does not.
#[derive(Debug)]
pub struct Rules {
    pub allowed: RuleSet,
    pub disallowed: RuleSet,
}

/// Applications, folders of applications, and addresses.
#[allow(non_snake_case)]
#[derive(Debug)]
pub struct RuleSet {
    pub apps: String,
    pub folders: String,
    pub ipAddresses: String,
}

} // verus!
