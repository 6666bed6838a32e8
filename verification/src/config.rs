//! The WireSock configuration file of a tunnel.
use crate::tunnel::{Interface, Peer, Rules, Tunnel};
use vstd::prelude::*;
use vstd::string::*;

verus! {

/// The text of a file with these lines: each line, then a line feed.
pub open spec fn lines_text(lines: Seq<Seq<char>>) -> Seq<char>
    decreases lines.len(),
{
    if lines.len() == 0 {
        Seq::empty()
    } else {
        lines_text(lines.drop_last()) + lines.last() + "\n"@
    }
}

/// A setting's line, or no line where the setting is empty.
pub open spec fn setting(key: Seq<char>, value: Seq<char>) -> Seq<Seq<char>> {
    if value.len() == 0 {
        Seq::empty()
    } else {
        seq![key + value]
    }
}

/// Two values of one setting: those that are not empty, with a comma and a space between them.
pub open spec fn joined(first: Seq<char>, second: Seq<char>) -> Seq<char> {
    if first.len() == 0 {
        second
    } else if second.len() == 0 {
        first
    } else {
        first + ", "@ + second
    }
}

/// The lines of the interface section.
pub open spec fn interface_lines(i: Interface) -> Seq<Seq<char>> {
    seq!["[Interface]"@, "PrivateKey = "@ + i.privateKey@]
        + setting("Address = "@, joined(i.ipv4Address@, i.ipv6Address@))
        + setting("ListenPort = "@, i.port@)
        + setting("DNS = "@, i.dns@)
        + setting("MTU = "@, i.mtu@)
}

/// The lines of the peer section, rules apart.
pub open spec fn peer_lines(p: Peer) -> Seq<Seq<char>> {
    seq!["[Peer]"@, "PublicKey = "@ + p.publicKey@]
        + setting("PresharedKey = "@, p.presharedKey@)
        + seq!["Endpoint = "@ + p.endpoint@ + ":"@ + p.port@]
        + setting("PersistentKeepalive = "@, p.persistentKeepalive@)
}

/// The lines of the rules, which end the peer section.
pub open spec fn rules_lines(r: Rules) -> Seq<Seq<char>> {
    setting("AllowedApps = "@, joined(r.allowed.apps@, r.allowed.folders@))
        + setting("AllowedIPs = "@, r.allowed.ipAddresses@)
        + setting("DisallowedApps = "@, joined(r.disallowed.apps@, r.disallowed.folders@))
        + setting("DisallowedIPs = "@, r.disallowed.ipAddresses@)
}

/// The lines of a tunnel's configuration file: the interface section, an empty line, the peer
/// section.
pub open spec fn config_lines(t: Tunnel) -> Seq<Seq<char>> {
    interface_lines(t.interface) + seq![""@] + peer_lines(t.peer) + rules_lines(t.rules)
}

/// The text of a tunnel's configuration file.
pub open spec fn config_text(t: Tunnel) -> Seq<char> {
    lines_text(config_lines(t))
}

pub(crate) proof fn lemma_lines_text_add(a: Seq<Seq<char>>, b: Seq<Seq<char>>)
    ensures
        lines_text(a + b) == lines_text(a) + lines_text(b),
    decreases b.len(),
{
    if b.len() == 0 {
        assert(a + b =~= a);
        assert(lines_text(a) + lines_text(b) =~= lines_text(a));
    } else {
        lemma_lines_text_add(a, b.drop_last());
        assert((a + b).drop_last() =~= a + b.drop_last());
        assert((a + b).last() == b.last());
        assert(lines_text(a + b) =~= lines_text(a) + lines_text(b));
    }
}

pub(crate) proof fn lemma_lines_text_push(lines: Seq<Seq<char>>, line: Seq<char>)
    ensures
        lines_text(lines.push(line)) == lines_text(lines) + line + "\n"@,
{
    assert(lines.push(line).drop_last() =~= lines);
}

/// Appends one line.
fn push_line(out: &mut String, line: &str)
    ensures
        final(out)@ == old(out)@ + lines_text(seq![line@]),
{
    proof {
        lemma_lines_text_push(Seq::empty(), line@);
        assert(Seq::<Seq<char>>::empty().push(line@) =~= seq![line@]);
    }
    out.append(line);
    out.append("\n");
    assert(out@ =~= old(out)@ + lines_text(seq![line@]));
}

/// Appends the line of a setting that is always written.
fn push_pair(out: &mut String, key: &str, value: &str)
    ensures
        final(out)@ == old(out)@ + lines_text(seq![key@ + value@]),
{
    let mut line: String = key.to_owned();
    line.append(value);
    push_line(out, line.as_str());
}

/// Appends the line of a setting, unless the setting is empty.
fn push_setting(out: &mut String, key: &str, value: &str)
    ensures
        final(out)@ == old(out)@ + lines_text(setting(key@, value@)),
{
    if !value.is_empty() {
        push_pair(out, key, value);
    } else {
        assert(out@ =~= old(out)@ + lines_text(setting(key@, value@)));
    }
}

/// Both values of one setting, with a comma between them where neither is empty.
fn join_values(first: &str, second: &str) -> (value: String)
    ensures
        value@ == joined(first@, second@),
{
    let mut value: String = first.to_owned();
    if !second.is_empty() {
        if !value.as_str().is_empty() {
            value.append(", ");
        }
        value.append(second);
        assert(value@ =~= joined(first@, second@));
    }
    value
}

/// Appends the interface section.
fn push_interface(out: &mut String, i: &Interface)
    ensures
        final(out)@ == old(out)@ + lines_text(interface_lines(*i)),
{
    push_line(out, "[Interface]");
    push_pair(out, "PrivateKey = ", i.privateKey.as_str());
    let addresses = join_values(i.ipv4Address.as_str(), i.ipv6Address.as_str());
    push_setting(out, "Address = ", addresses.as_str());
    push_setting(out, "ListenPort = ", i.port.as_str());
    push_setting(out, "DNS = ", i.dns.as_str());
    push_setting(out, "MTU = ", i.mtu.as_str());
    proof {
        let head = seq!["[Interface]"@];
        let key = seq!["PrivateKey = "@ + i.privateKey@];
        let address = setting("Address = "@, joined(i.ipv4Address@, i.ipv6Address@));
        let port = setting("ListenPort = "@, i.port@);
        let dns = setting("DNS = "@, i.dns@);
        let mtu = setting("MTU = "@, i.mtu@);
        assert(head + key =~= seq!["[Interface]"@, "PrivateKey = "@ + i.privateKey@]);
        lemma_lines_text_add(head, key);
        lemma_lines_text_add(head + key, address);
        lemma_lines_text_add(head + key + address, port);
        lemma_lines_text_add(head + key + address + port, dns);
        lemma_lines_text_add(head + key + address + port + dns, mtu);
        assert(out@ =~= old(out)@ + lines_text(interface_lines(*i)));
    }
}

/// Appends the peer section, rules apart.
fn push_peer(out: &mut String, p: &Peer)
    ensures
        final(out)@ == old(out)@ + lines_text(peer_lines(*p)),
{
    push_line(out, "[Peer]");
    push_pair(out, "PublicKey = ", p.publicKey.as_str());
    push_setting(out, "PresharedKey = ", p.presharedKey.as_str());
    let mut endpoint: String = p.endpoint.as_str().to_owned();
    endpoint.append(":");
    endpoint.append(p.port.as_str());
    push_pair(out, "Endpoint = ", endpoint.as_str());
    push_setting(out, "PersistentKeepalive = ", p.persistentKeepalive.as_str());
    proof {
        let head = seq!["[Peer]"@];
        let key = seq!["PublicKey = "@ + p.publicKey@];
        let preshared = setting("PresharedKey = "@, p.presharedKey@);
        let end = seq!["Endpoint = "@ + p.endpoint@ + ":"@ + p.port@];
        let keepalive = setting("PersistentKeepalive = "@, p.persistentKeepalive@);
        assert("Endpoint = "@ + endpoint@ =~= "Endpoint = "@ + p.endpoint@ + ":"@ + p.port@);
        assert(head + key =~= seq!["[Peer]"@, "PublicKey = "@ + p.publicKey@]);
        lemma_lines_text_add(head, key);
        lemma_lines_text_add(head + key, preshared);
        lemma_lines_text_add(head + key + preshared, end);
        lemma_lines_text_add(head + key + preshared + end, keepalive);
        assert(out@ =~= old(out)@ + lines_text(peer_lines(*p)));
    }
}

/// Appends the rules.
fn push_rules(out: &mut String, r: &Rules)
    ensures
        final(out)@ == old(out)@ + lines_text(rules_lines(*r)),
{
    let allowed = join_values(r.allowed.apps.as_str(), r.allowed.folders.as_str());
    push_setting(out, "AllowedApps = ", allowed.as_str());
    push_setting(out, "AllowedIPs = ", r.allowed.ipAddresses.as_str());
    let disallowed = join_values(r.disallowed.apps.as_str(), r.disallowed.folders.as_str());
    push_setting(out, "DisallowedApps = ", disallowed.as_str());
    push_setting(out, "DisallowedIPs = ", r.disallowed.ipAddresses.as_str());
    proof {
        let a = setting("AllowedApps = "@, joined(r.allowed.apps@, r.allowed.folders@));
        let b = setting("AllowedIPs = "@, r.allowed.ipAddresses@);
        let c = setting("DisallowedApps = "@, joined(r.disallowed.apps@, r.disallowed.folders@));
        let d = setting("DisallowedIPs = "@, r.disallowed.ipAddresses@);
        lemma_lines_text_add(a, b);
        lemma_lines_text_add(a + b, c);
        lemma_lines_text_add(a + b + c, d);
        assert(out@ =~= old(out)@ + lines_text(rules_lines(*r)));
    }
}

/// The text of a tunnel's configuration file.
pub fn tunnel_config(tunnel: &Tunnel) -> (text: String)
    ensures
        text@ == config_text(*tunnel),
{
    let mut out: String = String::new();
    push_interface(&mut out, &tunnel.interface);
    push_line(&mut out, "");
    push_peer(&mut out, &tunnel.peer);
    push_rules(&mut out, &tunnel.rules);
    proof {
        let i = interface_lines(tunnel.interface);
        let p = peer_lines(tunnel.peer);
        let r = rules_lines(tunnel.rules);
        lemma_lines_text_add(i, seq![""@]);
        lemma_lines_text_add(i + seq![""@], p);
        lemma_lines_text_add(i + seq![""@] + p, r);
        assert(out@ =~= config_text(*tunnel));
    }
    out
}

} // verus!
