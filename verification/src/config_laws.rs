//! Reading a configuration file: what was written for a tunnel is what is read.
use crate::config::{
    config_lines, config_text, interface_lines, joined, lemma_lines_text_add,
    lemma_lines_text_push, lines_text, peer_lines, rules_lines, setting,
};
use crate::text::{has_prefix, law_has_prefix};
use crate::tunnel::{Interface, Peer, Rules, Tunnel};
use vstd::prelude::*;

verus! {

/// The position of the first line feed of `text`, or its length where it has none.
pub open spec fn line_end(text: Seq<char>) -> int
    decreases text.len(),
{
    if text.len() == 0 || text[0] == '\n' {
        0
    } else {
        1 + line_end(text.drop_first())
    }
}

/// The lines of a file: what stands before each line feed, and behind the last one if anything
/// does.
pub open spec fn file_lines(text: Seq<char>) -> Seq<Seq<char>>
    decreases text.len(),
{
    if text.len() == 0 {
        Seq::empty()
    } else if !(0 <= line_end(text) < text.len()) {
        seq![text]
    } else {
        seq![text.take(line_end(text))] + file_lines(text.skip(line_end(text) + 1))
    }
}

/// The values that the lines give to a setting: what follows `key` on each line that begins
/// with it.
pub open spec fn line_values(lines: Seq<Seq<char>>, key: Seq<char>) -> Seq<Seq<char>>
    decreases lines.len(),
{
    if lines.len() == 0 {
        Seq::empty()
    } else {
        let before = line_values(lines.drop_last(), key);
        if has_prefix(lines.last(), key) {
            before.push(lines.last().skip(key.len() as int))
        } else {
            before
        }
    }
}

/// The values that a file gives to a setting.
pub open spec fn file_values(text: Seq<char>, key: Seq<char>) -> Seq<Seq<char>> {
    line_values(file_lines(text), key)
}

/// A value that is written only where it is not empty.
pub open spec fn if_set(value: Seq<char>) -> Seq<Seq<char>> {
    if value.len() == 0 {
        Seq::empty()
    } else {
        seq![value]
    }
}

/// `text` holds no line feed.
pub open spec fn on_one_line(text: Seq<char>) -> bool {
    forall|i: int| 0 <= i < text.len() ==> #[trigger] text[i] != '\n'
}

/// No setting of the tunnel holds a line feed.
pub open spec fn settings_on_one_line(t: Tunnel) -> bool {
    &&& on_one_line(t.interface.privateKey@)
    &&& on_one_line(t.interface.ipv4Address@)
    &&& on_one_line(t.interface.ipv6Address@)
    &&& on_one_line(t.interface.port@)
    &&& on_one_line(t.interface.dns@)
    &&& on_one_line(t.interface.mtu@)
    &&& on_one_line(t.peer.publicKey@)
    &&& on_one_line(t.peer.presharedKey@)
    &&& on_one_line(t.peer.endpoint@)
    &&& on_one_line(t.peer.port@)
    &&& on_one_line(t.peer.persistentKeepalive@)
    &&& on_one_line(t.rules.allowed.apps@)
    &&& on_one_line(t.rules.allowed.folders@)
    &&& on_one_line(t.rules.allowed.ipAddresses@)
    &&& on_one_line(t.rules.disallowed.apps@)
    &&& on_one_line(t.rules.disallowed.folders@)
    &&& on_one_line(t.rules.disallowed.ipAddresses@)
}

proof fn lemma_line_end(line: Seq<char>, rest: Seq<char>)
    requires
        on_one_line(line),
    ensures
        line_end(line + seq!['\n'] + rest) == line.len(),
    decreases line.len(),
{
    let text = line + seq!['\n'] + rest;
    if line.len() == 0 {
        assert(text[0] == '\n');
    } else {
        assert(text[0] == line[0]);
        assert(text.drop_first() =~= line.drop_first() + seq!['\n'] + rest);
        lemma_line_end(line.drop_first(), rest);
    }
}

proof fn lemma_lines_text_first(lines: Seq<Seq<char>>)
    requires
        lines.len() > 0,
    ensures
        lines_text(lines) == lines[0] + seq!['\n'] + lines_text(lines.drop_first()),
{
    reveal_strlit("\n");
    assert(lines =~= seq![lines[0]] + lines.drop_first());
    lemma_lines_text_add(seq![lines[0]], lines.drop_first());
    lemma_lines_text_push(Seq::empty(), lines[0]);
    assert(Seq::<Seq<char>>::empty().push(lines[0]) =~= seq![lines[0]]);
    assert("\n"@ =~= seq!['\n']);
    assert(lines_text(seq![lines[0]]) =~= lines[0] + seq!['\n']);
}

/// A file written line by line is read back line by line.
pub proof fn law_file_lines_read_back(lines: Seq<Seq<char>>)
    requires
        forall|i: int| 0 <= i < lines.len() ==> on_one_line(#[trigger] lines[i]),
    ensures
        file_lines(lines_text(lines)) == lines,
    decreases lines.len(),
{
    if lines.len() == 0 {
        assert(file_lines(lines_text(lines)) =~= lines);
    } else {
        let rest = lines.drop_first();
        let text = lines_text(lines);
        assert forall|i: int| 0 <= i < rest.len() implies on_one_line(#[trigger] rest[i]) by {
            assert(rest[i] == lines[i + 1]);
        }
        law_file_lines_read_back(rest);
        lemma_lines_text_first(lines);
        lemma_line_end(lines[0], lines_text(rest));
        assert(text.take(lines[0].len() as int) =~= lines[0]);
        assert(text.skip(lines[0].len() as int + 1) =~= lines_text(rest));
        assert(file_lines(text) =~= lines);
    }
}

proof fn lemma_on_one_line_add(a: Seq<char>, b: Seq<char>)
    requires
        on_one_line(a),
        on_one_line(b),
    ensures
        on_one_line(a + b),
{
}

proof fn lemma_on_one_line_joined(a: Seq<char>, b: Seq<char>)
    requires
        on_one_line(a),
        on_one_line(b),
    ensures
        on_one_line(joined(a, b)),
{
    reveal_strlit(", ");
    assert(on_one_line(", "@));
    lemma_on_one_line_add(a, ", "@);
    lemma_on_one_line_add(a + ", "@, b);
}

/// `key` names a setting: it ends with the only equals sign in it and one character more.
spec fn is_key(key: Seq<char>) -> bool {
    &&& key.len() >= 2
    &&& key[key.len() - 2] == '='
    &&& on_one_line(key)
    &&& forall|i: int| 0 <= i < key.len() && i != key.len() - 2 ==> #[trigger] key[i] != '='
}

proof fn lemma_keys()
    ensures
        is_key("PrivateKey = "@),
        is_key("Address = "@),
        is_key("ListenPort = "@),
        is_key("DNS = "@),
        is_key("MTU = "@),
        is_key("PublicKey = "@),
        is_key("PresharedKey = "@),
        is_key("Endpoint = "@),
        is_key("PersistentKeepalive = "@),
        is_key("AllowedApps = "@),
        is_key("AllowedIPs = "@),
        is_key("DisallowedApps = "@),
        is_key("DisallowedIPs = "@),
{
    reveal_strlit("PrivateKey = ");
    reveal_strlit("Address = ");
    reveal_strlit("ListenPort = ");
    reveal_strlit("DNS = ");
    reveal_strlit("MTU = ");
    reveal_strlit("PublicKey = ");
    reveal_strlit("PresharedKey = ");
    reveal_strlit("Endpoint = ");
    reveal_strlit("PersistentKeepalive = ");
    reveal_strlit("AllowedApps = ");
    reveal_strlit("AllowedIPs = ");
    reveal_strlit("DisallowedApps = ");
    reveal_strlit("DisallowedIPs = ");
}

/// A line that begins with two keys begins with one key.
proof fn lemma_one_key(key: Seq<char>, other: Seq<char>, value: Seq<char>)
    requires
        is_key(key),
        is_key(other),
        has_prefix(other + value, key),
    ensures
        key == other,
{
    let line = other + value;
    let begin = line.subrange(0, key.len() as int);
    assert(begin == key);
    assert(forall|i: int| 0 <= i < key.len() ==> line[i] == begin[i]);
    if key.len() < other.len() {
        assert(line[key.len() - 2] == other[key.len() - 2]);
    } else if other.len() < key.len() {
        assert(line[other.len() - 2] == other[other.len() - 2]);
    }
    assert(key =~= other);
}

proof fn lemma_line_values_add(a: Seq<Seq<char>>, b: Seq<Seq<char>>, key: Seq<char>)
    ensures
        line_values(a + b, key) == line_values(a, key) + line_values(b, key),
    decreases b.len(),
{
    if b.len() == 0 {
        assert(a + b =~= a);
        assert(line_values(a, key) + line_values(b, key) =~= line_values(a, key));
    } else {
        lemma_line_values_add(a, b.drop_last(), key);
        assert((a + b).drop_last() =~= a + b.drop_last());
        assert((a + b).last() == b.last());
        assert(line_values(a + b, key) =~= line_values(a, key) + line_values(b, key));
    }
}

/// The values that one line gives.
proof fn lemma_line_values_one(line: Seq<char>, key: Seq<char>)
    ensures
        line_values(seq![line], key) == (if has_prefix(line, key) {
            seq![line.skip(key.len() as int)]
        } else {
            Seq::empty()
        }),
{
    let lines = seq![line];
    assert(lines.drop_last() =~= Seq::<Seq<char>>::empty());
    assert(lines.last() == line);
    assert(line_values(lines.drop_last(), key) =~= Seq::<Seq<char>>::empty());
    assert(Seq::<Seq<char>>::empty().push(line.skip(key.len() as int)) =~= seq![
        line.skip(key.len() as int),
    ]);
}

/// The values that a setting's line gives, to its own key and to another.
proof fn lemma_pair_values(other: Seq<char>, value: Seq<char>, key: Seq<char>)
    requires
        is_key(key),
        is_key(other),
    ensures
        line_values(seq![other + value], key) == (if key == other {
            seq![value]
        } else {
            Seq::empty()
        }),
{
    let line = other + value;
    lemma_line_values_one(line, key);
    if key == other {
        assert(line.subrange(0, key.len() as int) =~= key);
        assert(line.skip(key.len() as int) =~= value);
    } else if has_prefix(line, key) {
        lemma_one_key(key, other, value);
    }
}

proof fn lemma_setting_values(other: Seq<char>, value: Seq<char>, key: Seq<char>)
    requires
        is_key(key),
        is_key(other),
    ensures
        line_values(setting(other, value), key) == (if key == other {
            if_set(value)
        } else {
            Seq::empty()
        }),
{
    lemma_pair_values(other, value, key);
}

/// A line without an equals sign gives no value.
proof fn lemma_no_value(line: Seq<char>, key: Seq<char>)
    requires
        is_key(key),
        forall|i: int| 0 <= i < line.len() ==> #[trigger] line[i] != '=',
    ensures
        line_values(seq![line], key) == Seq::<Seq<char>>::empty(),
{
    lemma_line_values_one(line, key);
    if has_prefix(line, key) {
        assert(line.subrange(0, key.len() as int)[key.len() - 2] == line[key.len() - 2]);
    }
}

/// The values of one key among those of another: all of them or none.
spec fn only(key: Seq<char>, other: Seq<char>, values: Seq<Seq<char>>) -> Seq<Seq<char>> {
    if key == other {
        values
    } else {
        Seq::empty()
    }
}

/// The values of a key among those of the interface section.
spec fn interface_values(i: Interface, key: Seq<char>) -> Seq<Seq<char>> {
    only(key, "PrivateKey = "@, seq![i.privateKey@])
        + only(key, "Address = "@, if_set(joined(i.ipv4Address@, i.ipv6Address@)))
        + only(key, "ListenPort = "@, if_set(i.port@))
        + only(key, "DNS = "@, if_set(i.dns@))
        + only(key, "MTU = "@, if_set(i.mtu@))
}

/// The values of a key among those of the peer section, rules apart.
spec fn peer_values(p: Peer, key: Seq<char>) -> Seq<Seq<char>> {
    only(key, "PublicKey = "@, seq![p.publicKey@])
        + only(key, "PresharedKey = "@, if_set(p.presharedKey@))
        + only(key, "Endpoint = "@, seq![p.endpoint@ + ":"@ + p.port@])
        + only(key, "PersistentKeepalive = "@, if_set(p.persistentKeepalive@))
}

/// The values of a key among those of the rules.
spec fn rules_values(r: Rules, key: Seq<char>) -> Seq<Seq<char>> {
    only(key, "AllowedApps = "@, if_set(joined(r.allowed.apps@, r.allowed.folders@)))
        + only(key, "AllowedIPs = "@, if_set(r.allowed.ipAddresses@))
        + only(key, "DisallowedApps = "@, if_set(joined(r.disallowed.apps@, r.disallowed.folders@)))
        + only(key, "DisallowedIPs = "@, if_set(r.disallowed.ipAddresses@))
}

proof fn lemma_interface_values(i: Interface, key: Seq<char>)
    requires
        is_key(key),
    ensures
        line_values(interface_lines(i), key) == interface_values(i, key),
{
    lemma_keys();
    reveal_strlit("[Interface]");
    let head = seq!["[Interface]"@];
    let private = seq!["PrivateKey = "@ + i.privateKey@];
    let address = setting("Address = "@, joined(i.ipv4Address@, i.ipv6Address@));
    let port = setting("ListenPort = "@, i.port@);
    let dns = setting("DNS = "@, i.dns@);
    let mtu = setting("MTU = "@, i.mtu@);
    lemma_no_value("[Interface]"@, key);
    lemma_pair_values("PrivateKey = "@, i.privateKey@, key);
    lemma_setting_values("Address = "@, joined(i.ipv4Address@, i.ipv6Address@), key);
    lemma_setting_values("ListenPort = "@, i.port@, key);
    lemma_setting_values("DNS = "@, i.dns@, key);
    lemma_setting_values("MTU = "@, i.mtu@, key);
    assert(head + private =~= seq!["[Interface]"@, "PrivateKey = "@ + i.privateKey@]);
    lemma_line_values_add(head, private, key);
    lemma_line_values_add(head + private, address, key);
    lemma_line_values_add(head + private + address, port, key);
    lemma_line_values_add(head + private + address + port, dns, key);
    lemma_line_values_add(head + private + address + port + dns, mtu, key);
    assert(line_values(head + private, key) =~= line_values(private, key));
}

proof fn lemma_peer_values(p: Peer, key: Seq<char>)
    requires
        is_key(key),
    ensures
        line_values(peer_lines(p), key) == peer_values(p, key),
{
    lemma_keys();
    reveal_strlit("[Peer]");
    let head = seq!["[Peer]"@];
    let public = seq!["PublicKey = "@ + p.publicKey@];
    let preshared = setting("PresharedKey = "@, p.presharedKey@);
    let endpoint = seq!["Endpoint = "@ + p.endpoint@ + ":"@ + p.port@];
    let keepalive = setting("PersistentKeepalive = "@, p.persistentKeepalive@);
    lemma_no_value("[Peer]"@, key);
    lemma_pair_values("PublicKey = "@, p.publicKey@, key);
    lemma_setting_values("PresharedKey = "@, p.presharedKey@, key);
    lemma_pair_values("Endpoint = "@, p.endpoint@ + ":"@ + p.port@, key);
    lemma_setting_values("PersistentKeepalive = "@, p.persistentKeepalive@, key);
    assert("Endpoint = "@ + (p.endpoint@ + ":"@ + p.port@) =~= "Endpoint = "@ + p.endpoint@ + ":"@
        + p.port@);
    assert(head + public =~= seq!["[Peer]"@, "PublicKey = "@ + p.publicKey@]);
    lemma_line_values_add(head, public, key);
    lemma_line_values_add(head + public, preshared, key);
    lemma_line_values_add(head + public + preshared, endpoint, key);
    lemma_line_values_add(head + public + preshared + endpoint, keepalive, key);
    assert(line_values(head + public, key) =~= line_values(public, key));
}

proof fn lemma_rules_values(r: Rules, key: Seq<char>)
    requires
        is_key(key),
    ensures
        line_values(rules_lines(r), key) == rules_values(r, key),
{
    lemma_keys();
    let a = setting("AllowedApps = "@, joined(r.allowed.apps@, r.allowed.folders@));
    let b = setting("AllowedIPs = "@, r.allowed.ipAddresses@);
    let c = setting("DisallowedApps = "@, joined(r.disallowed.apps@, r.disallowed.folders@));
    let d = setting("DisallowedIPs = "@, r.disallowed.ipAddresses@);
    lemma_setting_values("AllowedApps = "@, joined(r.allowed.apps@, r.allowed.folders@), key);
    lemma_setting_values("AllowedIPs = "@, r.allowed.ipAddresses@, key);
    lemma_setting_values(
        "DisallowedApps = "@,
        joined(r.disallowed.apps@, r.disallowed.folders@),
        key,
    );
    lemma_setting_values("DisallowedIPs = "@, r.disallowed.ipAddresses@, key);
    lemma_line_values_add(a, b, key);
    lemma_line_values_add(a + b, c, key);
    lemma_line_values_add(a + b + c, d, key);
}

/// The values that the whole file gives to a key, section by section.
proof fn lemma_key_values(t: Tunnel, key: Seq<char>)
    requires
        is_key(key),
    ensures
        line_values(config_lines(t), key) == interface_values(t.interface, key) + peer_values(
            t.peer,
            key,
        ) + rules_values(t.rules, key),
{
    reveal_strlit("");
    let i = interface_lines(t.interface);
    let p = peer_lines(t.peer);
    let r = rules_lines(t.rules);
    lemma_no_value(""@, key);
    lemma_line_values_add(i, seq![""@], key);
    lemma_line_values_add(i + seq![""@], p, key);
    lemma_line_values_add(i + seq![""@] + p, r, key);
    assert(line_values(i + seq![""@], key) =~= line_values(i, key));
    lemma_interface_values(t.interface, key);
    lemma_peer_values(t.peer, key);
    lemma_rules_values(t.rules, key);
}

proof fn lemma_setting_on_one_line(key: Seq<char>, value: Seq<char>)
    requires
        on_one_line(key),
        on_one_line(value),
    ensures
        forall|i: int|
            0 <= i < setting(key, value).len() ==> on_one_line(#[trigger] setting(key, value)[i]),
{
    lemma_on_one_line_add(key, value);
}

/// The file of a tunnel is read back line by line, section by section: nothing that one setting
/// holds runs into another's line.
pub proof fn law_config_lines_read_back(t: Tunnel)
    requires
        settings_on_one_line(t),
    ensures
        file_lines(config_text(t)) == config_lines(t),
{
    lemma_keys();
    reveal_strlit("[Interface]");
    reveal_strlit("[Peer]");
    reveal_strlit("");
    reveal_strlit(":");
    let i = t.interface;
    let p = t.peer;
    let r = t.rules;
    lemma_on_one_line_joined(i.ipv4Address@, i.ipv6Address@);
    lemma_on_one_line_joined(r.allowed.apps@, r.allowed.folders@);
    lemma_on_one_line_joined(r.disallowed.apps@, r.disallowed.folders@);
    lemma_on_one_line_add("PrivateKey = "@, i.privateKey@);
    lemma_setting_on_one_line("Address = "@, joined(i.ipv4Address@, i.ipv6Address@));
    lemma_setting_on_one_line("ListenPort = "@, i.port@);
    lemma_setting_on_one_line("DNS = "@, i.dns@);
    lemma_setting_on_one_line("MTU = "@, i.mtu@);
    lemma_on_one_line_add("PublicKey = "@, p.publicKey@);
    lemma_setting_on_one_line("PresharedKey = "@, p.presharedKey@);
    lemma_on_one_line_add("Endpoint = "@, p.endpoint@);
    lemma_on_one_line_add("Endpoint = "@ + p.endpoint@, ":"@);
    lemma_on_one_line_add("Endpoint = "@ + p.endpoint@ + ":"@, p.port@);
    lemma_setting_on_one_line("PersistentKeepalive = "@, p.persistentKeepalive@);
    lemma_setting_on_one_line("AllowedApps = "@, joined(r.allowed.apps@, r.allowed.folders@));
    lemma_setting_on_one_line("AllowedIPs = "@, r.allowed.ipAddresses@);
    lemma_setting_on_one_line(
        "DisallowedApps = "@,
        joined(r.disallowed.apps@, r.disallowed.folders@),
    );
    lemma_setting_on_one_line("DisallowedIPs = "@, r.disallowed.ipAddresses@);
    let lines = config_lines(t);
    assert(forall|k: int|
        0 <= k < interface_lines(i).len() ==> on_one_line(#[trigger] interface_lines(i)[k]));
    assert(forall|k: int|
        0 <= k < peer_lines(p).len() ==> on_one_line(#[trigger] peer_lines(p)[k]));
    assert(forall|k: int|
        0 <= k < rules_lines(r).len() ==> on_one_line(#[trigger] rules_lines(r)[k]));
    law_file_lines_read_back(lines);
}

/// No two settings share a key.
proof fn lemma_keys_differ()
    ensures
        "PrivateKey = "@ != "Address = "@,
        "PrivateKey = "@ != "ListenPort = "@,
        "PrivateKey = "@ != "DNS = "@,
        "PrivateKey = "@ != "MTU = "@,
        "PrivateKey = "@ != "PublicKey = "@,
        "PrivateKey = "@ != "PresharedKey = "@,
        "PrivateKey = "@ != "Endpoint = "@,
        "PrivateKey = "@ != "PersistentKeepalive = "@,
        "PrivateKey = "@ != "AllowedApps = "@,
        "PrivateKey = "@ != "AllowedIPs = "@,
        "PrivateKey = "@ != "DisallowedApps = "@,
        "PrivateKey = "@ != "DisallowedIPs = "@,
        "Address = "@ != "ListenPort = "@,
        "Address = "@ != "DNS = "@,
        "Address = "@ != "MTU = "@,
        "Address = "@ != "PublicKey = "@,
        "Address = "@ != "PresharedKey = "@,
        "Address = "@ != "Endpoint = "@,
        "Address = "@ != "PersistentKeepalive = "@,
        "Address = "@ != "AllowedApps = "@,
        "Address = "@ != "AllowedIPs = "@,
        "Address = "@ != "DisallowedApps = "@,
        "Address = "@ != "DisallowedIPs = "@,
        "ListenPort = "@ != "DNS = "@,
        "ListenPort = "@ != "MTU = "@,
        "ListenPort = "@ != "PublicKey = "@,
        "ListenPort = "@ != "PresharedKey = "@,
        "ListenPort = "@ != "Endpoint = "@,
        "ListenPort = "@ != "PersistentKeepalive = "@,
        "ListenPort = "@ != "AllowedApps = "@,
        "ListenPort = "@ != "AllowedIPs = "@,
        "ListenPort = "@ != "DisallowedApps = "@,
        "ListenPort = "@ != "DisallowedIPs = "@,
        "DNS = "@ != "MTU = "@,
        "DNS = "@ != "PublicKey = "@,
        "DNS = "@ != "PresharedKey = "@,
        "DNS = "@ != "Endpoint = "@,
        "DNS = "@ != "PersistentKeepalive = "@,
        "DNS = "@ != "AllowedApps = "@,
        "DNS = "@ != "AllowedIPs = "@,
        "DNS = "@ != "DisallowedApps = "@,
        "DNS = "@ != "DisallowedIPs = "@,
        "MTU = "@ != "PublicKey = "@,
        "MTU = "@ != "PresharedKey = "@,
        "MTU = "@ != "Endpoint = "@,
        "MTU = "@ != "PersistentKeepalive = "@,
        "MTU = "@ != "AllowedApps = "@,
        "MTU = "@ != "AllowedIPs = "@,
        "MTU = "@ != "DisallowedApps = "@,
        "MTU = "@ != "DisallowedIPs = "@,
        "PublicKey = "@ != "PresharedKey = "@,
        "PublicKey = "@ != "Endpoint = "@,
        "PublicKey = "@ != "PersistentKeepalive = "@,
        "PublicKey = "@ != "AllowedApps = "@,
        "PublicKey = "@ != "AllowedIPs = "@,
        "PublicKey = "@ != "DisallowedApps = "@,
        "PublicKey = "@ != "DisallowedIPs = "@,
        "PresharedKey = "@ != "Endpoint = "@,
        "PresharedKey = "@ != "PersistentKeepalive = "@,
        "PresharedKey = "@ != "AllowedApps = "@,
        "PresharedKey = "@ != "AllowedIPs = "@,
        "PresharedKey = "@ != "DisallowedApps = "@,
        "PresharedKey = "@ != "DisallowedIPs = "@,
        "Endpoint = "@ != "PersistentKeepalive = "@,
        "Endpoint = "@ != "AllowedApps = "@,
        "Endpoint = "@ != "AllowedIPs = "@,
        "Endpoint = "@ != "DisallowedApps = "@,
        "Endpoint = "@ != "DisallowedIPs = "@,
        "PersistentKeepalive = "@ != "AllowedApps = "@,
        "PersistentKeepalive = "@ != "AllowedIPs = "@,
        "PersistentKeepalive = "@ != "DisallowedApps = "@,
        "PersistentKeepalive = "@ != "DisallowedIPs = "@,
        "AllowedApps = "@ != "AllowedIPs = "@,
        "AllowedApps = "@ != "DisallowedApps = "@,
        "AllowedApps = "@ != "DisallowedIPs = "@,
        "AllowedIPs = "@ != "DisallowedApps = "@,
        "AllowedIPs = "@ != "DisallowedIPs = "@,
        "DisallowedApps = "@ != "DisallowedIPs = "@,
{
    reveal_strlit("PrivateKey = ");
    reveal_strlit("Address = ");
    reveal_strlit("ListenPort = ");
    reveal_strlit("DNS = ");
    reveal_strlit("MTU = ");
    reveal_strlit("PublicKey = ");
    reveal_strlit("PresharedKey = ");
    reveal_strlit("Endpoint = ");
    reveal_strlit("PersistentKeepalive = ");
    reveal_strlit("AllowedApps = ");
    reveal_strlit("AllowedIPs = ");
    reveal_strlit("DisallowedApps = ");
    reveal_strlit("DisallowedIPs = ");
    assert("PrivateKey = "@.len() == 13);
    assert("Address = "@.len() == 10);
    assert("ListenPort = "@.len() == 13);
    assert("DNS = "@.len() == 6);
    assert("MTU = "@.len() == 6);
    assert("PublicKey = "@.len() == 12);
    assert("PresharedKey = "@.len() == 15);
    assert("Endpoint = "@.len() == 11);
    assert("PersistentKeepalive = "@.len() == 22);
    assert("AllowedApps = "@.len() == 14);
    assert("AllowedIPs = "@.len() == 13);
    assert("DisallowedApps = "@.len() == 17);
    assert("DisallowedIPs = "@.len() == 16);
    assert("PrivateKey = "@[0] == 'P');
    assert("ListenPort = "@[0] == 'L');
    assert("AllowedIPs = "@[0] == 'A');
    assert("DNS = "@[0] == 'D');
    assert("MTU = "@[0] == 'M');
}

/// Every setting is read back from the file as it was set, exactly once; a setting that was left
/// out is in the file under no value.
pub proof fn law_settings_read_back(t: Tunnel)
    requires
        settings_on_one_line(t),
    ensures
        ({
            let i = t.interface;
            let p = t.peer;
            let allowed = t.rules.allowed;
            let disallowed = t.rules.disallowed;
            let text = config_text(t);
            &&& file_values(text, "PrivateKey = "@) == seq![i.privateKey@]
            &&& file_values(text, "Address = "@) == if_set(joined(i.ipv4Address@, i.ipv6Address@))
            &&& file_values(text, "ListenPort = "@) == if_set(i.port@)
            &&& file_values(text, "DNS = "@) == if_set(i.dns@)
            &&& file_values(text, "MTU = "@) == if_set(i.mtu@)
            &&& file_values(text, "PublicKey = "@) == seq![p.publicKey@]
            &&& file_values(text, "PresharedKey = "@) == if_set(p.presharedKey@)
            &&& file_values(text, "Endpoint = "@) == seq![p.endpoint@ + ":"@ + p.port@]
            &&& file_values(text, "PersistentKeepalive = "@) == if_set(p.persistentKeepalive@)
            &&& file_values(text, "AllowedApps = "@) == if_set(
                joined(allowed.apps@, allowed.folders@),
            )
            &&& file_values(text, "AllowedIPs = "@) == if_set(allowed.ipAddresses@)
            &&& file_values(text, "DisallowedApps = "@) == if_set(
                joined(disallowed.apps@, disallowed.folders@),
            )
            &&& file_values(text, "DisallowedIPs = "@) == if_set(disallowed.ipAddresses@)
        }),
{
    law_config_lines_read_back(t);
    lemma_keys();
    lemma_keys_differ();
    let i = t.interface;
    let p = t.peer;
    let allowed = t.rules.allowed;
    let disallowed = t.rules.disallowed;
    let lines = config_lines(t);
    assert(line_values(lines, "PrivateKey = "@) =~= seq![i.privateKey@]) by {
        lemma_key_values(t, "PrivateKey = "@);
    }
    assert(line_values(lines, "Address = "@) =~= if_set(
        joined(i.ipv4Address@, i.ipv6Address@),
    )) by {
        lemma_key_values(t, "Address = "@);
    }
    assert(line_values(lines, "ListenPort = "@) =~= if_set(i.port@)) by {
        lemma_key_values(t, "ListenPort = "@);
    }
    assert(line_values(lines, "DNS = "@) =~= if_set(i.dns@)) by {
        lemma_key_values(t, "DNS = "@);
    }
    assert(line_values(lines, "MTU = "@) =~= if_set(i.mtu@)) by {
        lemma_key_values(t, "MTU = "@);
    }
    assert(line_values(lines, "PublicKey = "@) =~= seq![p.publicKey@]) by {
        lemma_key_values(t, "PublicKey = "@);
    }
    assert(line_values(lines, "PresharedKey = "@) =~= if_set(p.presharedKey@)) by {
        lemma_key_values(t, "PresharedKey = "@);
    }
    assert(line_values(lines, "Endpoint = "@) =~= seq![p.endpoint@ + ":"@ + p.port@]) by {
        lemma_key_values(t, "Endpoint = "@);
    }
    assert(line_values(lines, "PersistentKeepalive = "@) =~= if_set(p.persistentKeepalive@)) by {
        lemma_key_values(t, "PersistentKeepalive = "@);
    }
    assert(line_values(lines, "AllowedApps = "@) =~= if_set(
        joined(allowed.apps@, allowed.folders@),
    )) by {
        lemma_key_values(t, "AllowedApps = "@);
    }
    assert(line_values(lines, "AllowedIPs = "@) =~= if_set(allowed.ipAddresses@)) by {
        lemma_key_values(t, "AllowedIPs = "@);
    }
    assert(line_values(lines, "DisallowedApps = "@) =~= if_set(
        joined(disallowed.apps@, disallowed.folders@),
    )) by {
        lemma_key_values(t, "DisallowedApps = "@);
    }
    assert(line_values(lines, "DisallowedIPs = "@) =~= if_set(disallowed.ipAddresses@)) by {
        lemma_key_values(t, "DisallowedIPs = "@);
    }
}

proof fn lemma_line_text(line: Seq<char>)
    ensures
        lines_text(seq![line]) == line + "\n"@,
{
    lemma_lines_text_push(Seq::empty(), line);
    assert(Seq::<Seq<char>>::empty().push(line) =~= seq![line]);
    assert(lines_text(seq![line]) =~= line + "\n"@);
}

proof fn lemma_setting_text(key: Seq<char>, value: Seq<char>)
    ensures
        lines_text(setting(key, value)) == (if value.len() == 0 {
            Seq::empty()
        } else {
            key + value + "\n"@
        }),
{
    lemma_line_text(key + value);
}

proof fn lemma_interface_text(i: Interface)
    ensures
        ({
            let line = |key: Seq<char>, value: Seq<char>|
                if value.len() == 0 {
                    Seq::empty()
                } else {
                    key + value + "\n"@
                };
            lines_text(interface_lines(i)) == "[Interface]"@ + "\n"@ + ("PrivateKey = "@
                + i.privateKey@ + "\n"@) + line(
                "Address = "@,
                joined(i.ipv4Address@, i.ipv6Address@),
            ) + line("ListenPort = "@, i.port@) + line("DNS = "@, i.dns@) + line(
                "MTU = "@,
                i.mtu@,
            )
        }),
{
    let head = seq!["[Interface]"@];
    let key = seq!["PrivateKey = "@ + i.privateKey@];
    let address = setting("Address = "@, joined(i.ipv4Address@, i.ipv6Address@));
    let port = setting("ListenPort = "@, i.port@);
    let dns = setting("DNS = "@, i.dns@);
    let mtu = setting("MTU = "@, i.mtu@);
    assert(head + key =~= seq!["[Interface]"@, "PrivateKey = "@ + i.privateKey@]);
    lemma_lines_text_add(head, key);
    lemma_lines_text_add(head + key, address);
    lemma_lines_text_add(head + key + address, port);
    lemma_lines_text_add(head + key + address + port, dns);
    lemma_lines_text_add(head + key + address + port + dns, mtu);
    lemma_line_text("[Interface]"@);
    lemma_line_text("PrivateKey = "@ + i.privateKey@);
    lemma_setting_text("Address = "@, joined(i.ipv4Address@, i.ipv6Address@));
    lemma_setting_text("ListenPort = "@, i.port@);
    lemma_setting_text("DNS = "@, i.dns@);
    lemma_setting_text("MTU = "@, i.mtu@);
}

proof fn lemma_peer_text(p: Peer)
    ensures
        ({
            let line = |key: Seq<char>, value: Seq<char>|
                if value.len() == 0 {
                    Seq::empty()
                } else {
                    key + value + "\n"@
                };
            lines_text(peer_lines(p)) == "[Peer]"@ + "\n"@ + ("PublicKey = "@ + p.publicKey@
                + "\n"@) + line("PresharedKey = "@, p.presharedKey@) + ("Endpoint = "@
                + p.endpoint@ + ":"@ + p.port@ + "\n"@) + line(
                "PersistentKeepalive = "@,
                p.persistentKeepalive@,
            )
        }),
{
    let head = seq!["[Peer]"@];
    let key = seq!["PublicKey = "@ + p.publicKey@];
    let preshared = setting("PresharedKey = "@, p.presharedKey@);
    let end = seq!["Endpoint = "@ + p.endpoint@ + ":"@ + p.port@];
    let keepalive = setting("PersistentKeepalive = "@, p.persistentKeepalive@);
    assert(head + key =~= seq!["[Peer]"@, "PublicKey = "@ + p.publicKey@]);
    lemma_lines_text_add(head, key);
    lemma_lines_text_add(head + key, preshared);
    lemma_lines_text_add(head + key + preshared, end);
    lemma_lines_text_add(head + key + preshared + end, keepalive);
    lemma_line_text("[Peer]"@);
    lemma_line_text("PublicKey = "@ + p.publicKey@);
    lemma_setting_text("PresharedKey = "@, p.presharedKey@);
    lemma_line_text("Endpoint = "@ + p.endpoint@ + ":"@ + p.port@);
    lemma_setting_text("PersistentKeepalive = "@, p.persistentKeepalive@);
}

proof fn lemma_rules_text(r: Rules)
    ensures
        ({
            let line = |key: Seq<char>, value: Seq<char>|
                if value.len() == 0 {
                    Seq::empty()
                } else {
                    key + value + "\n"@
                };
            lines_text(rules_lines(r)) == line(
                "AllowedApps = "@,
                joined(r.allowed.apps@, r.allowed.folders@),
            ) + line("AllowedIPs = "@, r.allowed.ipAddresses@) + line(
                "DisallowedApps = "@,
                joined(r.disallowed.apps@, r.disallowed.folders@),
            ) + line("DisallowedIPs = "@, r.disallowed.ipAddresses@)
        }),
{
    let a = setting("AllowedApps = "@, joined(r.allowed.apps@, r.allowed.folders@));
    let b = setting("AllowedIPs = "@, r.allowed.ipAddresses@);
    let c = setting("DisallowedApps = "@, joined(r.disallowed.apps@, r.disallowed.folders@));
    let d = setting("DisallowedIPs = "@, r.disallowed.ipAddresses@);
    lemma_lines_text_add(a, b);
    lemma_lines_text_add(a + b, c);
    lemma_lines_text_add(a + b + c, d);
    lemma_setting_text("AllowedApps = "@, joined(r.allowed.apps@, r.allowed.folders@));
    lemma_setting_text("AllowedIPs = "@, r.allowed.ipAddresses@);
    lemma_setting_text("DisallowedApps = "@, joined(r.disallowed.apps@, r.disallowed.folders@));
    lemma_setting_text("DisallowedIPs = "@, r.disallowed.ipAddresses@);
}

/// The file, character by character: the interface section, an empty line, the peer section, the
/// rules. A setting that was left out has no line. Of two values of one setting, those that
/// were given stand on one line, with a comma and a space between them where both were.
pub proof fn law_config_text(t: Tunnel)
    ensures
        ({
            let line = |key: Seq<char>, value: Seq<char>|
                if value.len() == 0 {
                    Seq::empty()
                } else {
                    key + value + "\n"@
                };
            let both = |first: Seq<char>, second: Seq<char>|
                if first.len() == 0 {
                    second
                } else if second.len() == 0 {
                    first
                } else {
                    first + ", "@ + second
                };
            let i = t.interface;
            let p = t.peer;
            let allowed = t.rules.allowed;
            let disallowed = t.rules.disallowed;
            let interface = "[Interface]"@ + "\n"@ + ("PrivateKey = "@ + i.privateKey@ + "\n"@)
                + line("Address = "@, both(i.ipv4Address@, i.ipv6Address@))
                + line("ListenPort = "@, i.port@)
                + line("DNS = "@, i.dns@)
                + line("MTU = "@, i.mtu@);
            let peer = "[Peer]"@ + "\n"@ + ("PublicKey = "@ + p.publicKey@ + "\n"@)
                + line("PresharedKey = "@, p.presharedKey@)
                + ("Endpoint = "@ + p.endpoint@ + ":"@ + p.port@ + "\n"@)
                + line("PersistentKeepalive = "@, p.persistentKeepalive@);
            let rules = line("AllowedApps = "@, both(allowed.apps@, allowed.folders@))
                + line("AllowedIPs = "@, allowed.ipAddresses@)
                + line("DisallowedApps = "@, both(disallowed.apps@, disallowed.folders@))
                + line("DisallowedIPs = "@, disallowed.ipAddresses@);
            config_text(t) == interface + "\n"@ + peer + rules
        }),
{
    reveal_strlit("");
    let i = interface_lines(t.interface);
    let p = peer_lines(t.peer);
    let r = rules_lines(t.rules);
    lemma_lines_text_add(i, seq![""@]);
    lemma_lines_text_add(i + seq![""@], p);
    lemma_lines_text_add(i + seq![""@] + p, r);
    lemma_line_text(""@);
    assert(""@ + "\n"@ =~= "\n"@);
    lemma_interface_text(t.interface);
    lemma_peer_text(t.peer);
    lemma_rules_text(t.rules);
}

/// The lines of a file: a text without a line feed, then a line feed, is its first line, and the
/// rest of the file is its other lines. What stands behind the last line feed is a line where
/// it is not empty.
pub proof fn law_file_lines(line: Seq<char>, rest: Seq<char>)
    requires
        !line.contains('\n'),
    ensures
        file_lines(line + seq!['\n'] + rest) == seq![line] + file_lines(rest),
        file_lines(line) == (if line.len() == 0 {
            Seq::empty()
        } else {
            seq![line]
        }),
{
    assert forall|i: int| 0 <= i < line.len() implies #[trigger] line[i] != '\n' by {
        assert(line.contains(line[i]));
    }
    let text = line + seq!['\n'] + rest;
    lemma_line_end(line, rest);
    assert(text.take(line.len() as int) =~= line);
    assert(text.skip(line.len() as int + 1) =~= rest);
    lemma_no_line_end(line);
}

proof fn lemma_no_line_end(line: Seq<char>)
    requires
        on_one_line(line),
    ensures
        line_end(line) == line.len(),
    decreases line.len(),
{
    if line.len() > 0 {
        lemma_no_line_end(line.drop_first());
    }
}

/// A line gives a value to a setting exactly where it begins with the setting's key; the value is
/// what follows the key.
pub proof fn law_line_values(lines: Seq<Seq<char>>, line: Seq<char>, key: Seq<char>)
    ensures
        line_values(Seq::empty(), key) == Seq::<Seq<char>>::empty(),
        key.is_prefix_of(line) ==> line_values(lines.push(line), key) == line_values(lines, key)
            + seq![line.skip(key.len() as int)],
        !key.is_prefix_of(line) ==> line_values(lines.push(line), key) == line_values(lines, key),
{
    law_has_prefix(line, key);
    assert(lines.push(line).drop_last() =~= lines);
    assert(lines.push(line).last() == line);
    assert(line_values(lines, key).push(line.skip(key.len() as int)) =~= line_values(lines, key)
        + seq![line.skip(key.len() as int)]);
}

/// The line begins with a key of the interface section.
spec fn is_interface_setting(line: Seq<char>) -> bool {
    ||| "PrivateKey = "@.is_prefix_of(line)
    ||| "Address = "@.is_prefix_of(line)
    ||| "ListenPort = "@.is_prefix_of(line)
    ||| "DNS = "@.is_prefix_of(line)
    ||| "MTU = "@.is_prefix_of(line)
}

/// The line begins with a key of the peer section.
spec fn is_peer_setting(line: Seq<char>) -> bool {
    ||| "PublicKey = "@.is_prefix_of(line)
    ||| "PresharedKey = "@.is_prefix_of(line)
    ||| "Endpoint = "@.is_prefix_of(line)
    ||| "PersistentKeepalive = "@.is_prefix_of(line)
    ||| "AllowedApps = "@.is_prefix_of(line)
    ||| "AllowedIPs = "@.is_prefix_of(line)
    ||| "DisallowedApps = "@.is_prefix_of(line)
    ||| "DisallowedIPs = "@.is_prefix_of(line)
}

proof fn lemma_key_is_prefix(key: Seq<char>, value: Seq<char>)
    ensures
        key.is_prefix_of(key + value),
{
    assert((key + value).subrange(0, key.len() as int) =~= key);
}

/// A line begins with one key at most.
proof fn lemma_one_key_of_line(line: Seq<char>)
    ensures
        forall|a: Seq<char>, b: Seq<char>|
            is_key(a) && is_key(b) && #[trigger] a.is_prefix_of(line)
                && #[trigger] b.is_prefix_of(line) ==> a == b,
{
    assert forall|a: Seq<char>, b: Seq<char>|
        is_key(a) && is_key(b) && #[trigger] a.is_prefix_of(line)
            && #[trigger] b.is_prefix_of(line) implies a == b by {
        let value = line.skip(b.len() as int);
        assert(line =~= b + value);
        law_has_prefix(line, a);
        lemma_one_key(a, b, value);
    }
}

/// A line that begins with a key holds an equals sign.
proof fn lemma_key_holds_equals(line: Seq<char>, key: Seq<char>)
    requires
        is_key(key),
        key.is_prefix_of(line),
    ensures
        line.contains('='),
{
    assert(line.subrange(0, key.len() as int)[key.len() - 2] == line[key.len() - 2]);
}

/// A setting of one section is no setting of the other, and no heading; and no heading is a
/// setting.
proof fn lemma_sections_apart(line: Seq<char>)
    ensures
        !(is_interface_setting(line) && is_peer_setting(line)),
        is_interface_setting(line) || is_peer_setting(line) ==> line != "[Interface]"@ && line
            != "[Peer]"@ && line != ""@,
        "[Interface]"@ != "[Peer]"@,
        ""@ != "[Interface]"@,
        ""@ != "[Peer]"@,
{
    lemma_keys();
    lemma_keys_differ();
    lemma_one_key_of_line(line);
    reveal_strlit("[Interface]");
    reveal_strlit("[Peer]");
    reveal_strlit("");
    assert("[Interface]"@.len() == 11);
    assert("[Peer]"@.len() == 6);
    assert(""@.len() == 0);
    assert(!"[Interface]"@.contains('='));
    assert(!"[Peer]"@.contains('='));
    assert(!""@.contains('='));
    if is_interface_setting(line) || is_peer_setting(line) {
        if "PrivateKey = "@.is_prefix_of(line) {
            lemma_key_holds_equals(line, "PrivateKey = "@);
        }
        if "Address = "@.is_prefix_of(line) {
            lemma_key_holds_equals(line, "Address = "@);
        }
        if "ListenPort = "@.is_prefix_of(line) {
            lemma_key_holds_equals(line, "ListenPort = "@);
        }
        if "DNS = "@.is_prefix_of(line) {
            lemma_key_holds_equals(line, "DNS = "@);
        }
        if "MTU = "@.is_prefix_of(line) {
            lemma_key_holds_equals(line, "MTU = "@);
        }
        if "PublicKey = "@.is_prefix_of(line) {
            lemma_key_holds_equals(line, "PublicKey = "@);
        }
        if "PresharedKey = "@.is_prefix_of(line) {
            lemma_key_holds_equals(line, "PresharedKey = "@);
        }
        if "Endpoint = "@.is_prefix_of(line) {
            lemma_key_holds_equals(line, "Endpoint = "@);
        }
        if "PersistentKeepalive = "@.is_prefix_of(line) {
            lemma_key_holds_equals(line, "PersistentKeepalive = "@);
        }
        if "AllowedApps = "@.is_prefix_of(line) {
            lemma_key_holds_equals(line, "AllowedApps = "@);
        }
        if "AllowedIPs = "@.is_prefix_of(line) {
            lemma_key_holds_equals(line, "AllowedIPs = "@);
        }
        if "DisallowedApps = "@.is_prefix_of(line) {
            lemma_key_holds_equals(line, "DisallowedApps = "@);
        }
        if "DisallowedIPs = "@.is_prefix_of(line) {
            lemma_key_holds_equals(line, "DisallowedIPs = "@);
        }
    }
}

/// The first line of the interface section is its heading, and every other one is a setting of
/// it.
proof fn lemma_interface_section(i: Interface)
    ensures
        interface_lines(i).len() > 0,
        interface_lines(i)[0] == "[Interface]"@,
        forall|k: int|
            0 < k < interface_lines(i).len() ==> is_interface_setting(
                #[trigger] interface_lines(i)[k],
            ),
{
    lemma_key_is_prefix("PrivateKey = "@, i.privateKey@);
    lemma_key_is_prefix("Address = "@, joined(i.ipv4Address@, i.ipv6Address@));
    lemma_key_is_prefix("ListenPort = "@, i.port@);
    lemma_key_is_prefix("DNS = "@, i.dns@);
    lemma_key_is_prefix("MTU = "@, i.mtu@);
}

/// The first line of the peer section is its heading, and every other one is a setting of it.
proof fn lemma_peer_section(p: Peer)
    ensures
        peer_lines(p).len() > 0,
        peer_lines(p)[0] == "[Peer]"@,
        forall|k: int|
            0 < k < peer_lines(p).len() ==> is_peer_setting(#[trigger] peer_lines(p)[k]),
{
    lemma_key_is_prefix("PublicKey = "@, p.publicKey@);
    lemma_key_is_prefix("PresharedKey = "@, p.presharedKey@);
    lemma_key_is_prefix("Endpoint = "@, p.endpoint@ + ":"@ + p.port@);
    assert("Endpoint = "@ + (p.endpoint@ + ":"@ + p.port@) =~= "Endpoint = "@ + p.endpoint@ + ":"@
        + p.port@);
    lemma_key_is_prefix("PersistentKeepalive = "@, p.persistentKeepalive@);
}

/// Every line of the rules is a setting of the peer section.
proof fn lemma_rules_section(r: Rules)
    ensures
        forall|k: int|
            0 <= k < rules_lines(r).len() ==> is_peer_setting(#[trigger] rules_lines(r)[k]),
{
    lemma_key_is_prefix("AllowedApps = "@, joined(r.allowed.apps@, r.allowed.folders@));
    lemma_key_is_prefix("AllowedIPs = "@, r.allowed.ipAddresses@);
    lemma_key_is_prefix("DisallowedApps = "@, joined(r.disallowed.apps@, r.disallowed.folders@));
    lemma_key_is_prefix("DisallowedIPs = "@, r.disallowed.ipAddresses@);
}

/// The file has two sections. The heading of the interface section stands once, on the first
/// line, and the heading of the peer section stands once; the settings of the interface are
/// read only between the two headings, and those of the peer and the rules only behind the
/// second.
pub proof fn law_sections(t: Tunnel)
    requires
        ({
            let i = t.interface;
            let p = t.peer;
            let allowed = t.rules.allowed;
            let disallowed = t.rules.disallowed;
            &&& !i.privateKey@.contains('\n')
            &&& !i.ipv4Address@.contains('\n')
            &&& !i.ipv6Address@.contains('\n')
            &&& !i.port@.contains('\n')
            &&& !i.dns@.contains('\n')
            &&& !i.mtu@.contains('\n')
            &&& !p.publicKey@.contains('\n')
            &&& !p.presharedKey@.contains('\n')
            &&& !p.endpoint@.contains('\n')
            &&& !p.port@.contains('\n')
            &&& !p.persistentKeepalive@.contains('\n')
            &&& !allowed.apps@.contains('\n')
            &&& !allowed.folders@.contains('\n')
            &&& !allowed.ipAddresses@.contains('\n')
            &&& !disallowed.apps@.contains('\n')
            &&& !disallowed.folders@.contains('\n')
            &&& !disallowed.ipAddresses@.contains('\n')
        }),
    ensures
        ({
            let lines = file_lines(config_text(t));
            &&& lines.len() > 0
            &&& lines[0] == "[Interface]"@
            &&& forall|k: int| 0 < k < lines.len() ==> #[trigger] lines[k] != "[Interface]"@
            &&& exists|peer: int|
                {
                    &&& 0 < peer < lines.len()
                    &&& #[trigger] lines[peer] == "[Peer]"@
                    &&& forall|k: int|
                        0 <= k < lines.len() && k != peer ==> #[trigger] lines[k] != "[Peer]"@
                    &&& forall|k: int|
                        0 <= k < lines.len() && ({
                            ||| "PrivateKey = "@.is_prefix_of(#[trigger] lines[k])
                            ||| "Address = "@.is_prefix_of(lines[k])
                            ||| "ListenPort = "@.is_prefix_of(lines[k])
                            ||| "DNS = "@.is_prefix_of(lines[k])
                            ||| "MTU = "@.is_prefix_of(lines[k])
                        }) ==> 0 < k < peer
                    &&& forall|k: int|
                        0 <= k < lines.len() && ({
                            ||| "PublicKey = "@.is_prefix_of(#[trigger] lines[k])
                            ||| "PresharedKey = "@.is_prefix_of(lines[k])
                            ||| "Endpoint = "@.is_prefix_of(lines[k])
                            ||| "PersistentKeepalive = "@.is_prefix_of(lines[k])
                            ||| "AllowedApps = "@.is_prefix_of(lines[k])
                            ||| "AllowedIPs = "@.is_prefix_of(lines[k])
                            ||| "DisallowedApps = "@.is_prefix_of(lines[k])
                            ||| "DisallowedIPs = "@.is_prefix_of(lines[k])
                        }) ==> peer < k < lines.len()
                }
        }),
{
    assert forall|v: Seq<char>| !#[trigger] v.contains('\n') implies on_one_line(v) by {
        assert forall|k: int| 0 <= k < v.len() implies #[trigger] v[k] != '\n' by {
            assert(v.contains(v[k]));
        }
    }
    law_config_lines_read_back(t);
    let interface = interface_lines(t.interface);
    let p = peer_lines(t.peer);
    let r = rules_lines(t.rules);
    let lines = config_lines(t);
    let peer = interface.len() as int + 1;
    lemma_interface_section(t.interface);
    lemma_peer_section(t.peer);
    lemma_rules_section(t.rules);
    lemma_sections_apart(""@);
    assert(lines[peer] == "[Peer]"@);
    assert forall|k: int| 0 < k < interface.len() implies is_interface_setting(
        #[trigger] lines[k],
    ) by {
        assert(lines[k] == interface[k]);
    }
    assert(lines[peer - 1] == ""@);
    assert forall|k: int| peer < k < lines.len() implies is_peer_setting(#[trigger] lines[k]) by {
        if k < peer + p.len() {
            assert(lines[k] == p[k - peer]);
        } else {
            assert(lines[k] == r[k - peer - p.len()]);
        }
    }
    assert forall|k: int| 0 <= k < lines.len() implies ({
        &&& k != 0 ==> #[trigger] lines[k] != "[Interface]"@
        &&& k != peer ==> lines[k] != "[Peer]"@
        &&& is_interface_setting(lines[k]) ==> 0 < k < peer
        &&& is_peer_setting(lines[k]) ==> peer < k
    }) by {
        lemma_sections_apart(lines[k]);
    }
}

} // verus!
