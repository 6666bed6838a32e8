use tunnlto::config::tunnel_config;
use tunnlto::tunnel::{Interface, Peer, RuleSet, Rules, Tunnel};

fn s(text: &str) -> String {
    text.to_string()
}

fn rule_set(apps: &str, folders: &str, addresses: &str) -> RuleSet {
    RuleSet { apps: s(apps), folders: s(folders), ipAddresses: s(addresses) }
}

fn bare_tunnel() -> Tunnel {
    Tunnel {
        id: s("t1"),
        interface: Interface {
            privateKey: s("priv"),
            ipv4Address: s(""),
            ipv6Address: s(""),
            port: s(""),
            dns: s(""),
            mtu: s(""),
        },
        peer: Peer {
            publicKey: s("pub"),
            presharedKey: s(""),
            endpoint: s("vpn.example.com"),
            port: s("51820"),
            persistentKeepalive: s(""),
        },
        rules: Rules { allowed: rule_set("", "", ""), disallowed: rule_set("", "", "") },
    }
}

fn full_tunnel() -> Tunnel {
    Tunnel {
        id: s("t2"),
        interface: Interface {
            privateKey: s("priv"),
            ipv4Address: s("10.0.0.2/32"),
            ipv6Address: s("fd00::2/128"),
            port: s("51821"),
            dns: s("1.1.1.1"),
            mtu: s("1420"),
        },
        peer: Peer {
            publicKey: s("pub"),
            presharedKey: s("psk"),
            endpoint: s("vpn.example.com"),
            port: s("51820"),
            persistentKeepalive: s("25"),
        },
        rules: Rules {
            allowed: rule_set("chrome", "C:\\Games", "0.0.0.0/0"),
            disallowed: rule_set("teams", "C:\\Work", "192.168.0.0/16"),
        },
    }
}

#[test]
fn a_full_tunnel_is_written_whole() {
    let expected = "[Interface]\n\
                    PrivateKey = priv\n\
                    Address = 10.0.0.2/32, fd00::2/128\n\
                    ListenPort = 51821\n\
                    DNS = 1.1.1.1\n\
                    MTU = 1420\n\
                    \n\
                    [Peer]\n\
                    PublicKey = pub\n\
                    PresharedKey = psk\n\
                    Endpoint = vpn.example.com:51820\n\
                    PersistentKeepalive = 25\n\
                    AllowedApps = chrome, C:\\Games\n\
                    AllowedIPs = 0.0.0.0/0\n\
                    DisallowedApps = teams, C:\\Work\n\
                    DisallowedIPs = 192.168.0.0/16\n";
    assert_eq!(tunnel_config(&full_tunnel()), expected);
}

#[test]
fn settings_left_out_are_not_written() {
    let expected = "[Interface]\nPrivateKey = priv\n\n[Peer]\nPublicKey = pub\n\
                    Endpoint = vpn.example.com:51820\n";
    assert_eq!(tunnel_config(&bare_tunnel()), expected);
}

#[test]
fn one_of_two_values_stands_without_a_comma() {
    let mut tunnel = bare_tunnel();
    tunnel.interface.ipv6Address = s("fd00::2");
    tunnel.rules.allowed.apps = s("chrome");
    tunnel.rules.disallowed.folders = s("C:\\Work");
    let text = tunnel_config(&tunnel);
    assert!(text.contains("\nAddress = fd00::2\n"));
    assert!(text.contains("\nAllowedApps = chrome\n"));
    assert!(text.contains("\nDisallowedApps = C:\\Work\n"));
    tunnel.interface.ipv4Address = s("10.0.0.2");
    tunnel.interface.ipv6Address = s("");
    assert!(tunnel_config(&tunnel).contains("\nAddress = 10.0.0.2\n"));
}

#[test]
fn settings_are_read_back_from_the_file() {
    let text = tunnel_config(&full_tunnel());
    let values = |key: &str| -> Vec<String> {
        text.lines().filter_map(|l| l.strip_prefix(key)).map(|v| v.to_string()).collect()
    };
    assert_eq!(values("PrivateKey = "), vec![s("priv")]);
    assert_eq!(values("Endpoint = "), vec![s("vpn.example.com:51820")]);
    assert_eq!(values("MTU = "), vec![s("1420")]);
    assert_eq!(values("AllowedIPs = "), vec![s("0.0.0.0/0")]);
    assert_eq!(values("DisallowedIPs = "), vec![s("192.168.0.0/16")]);
}
