//! Tests of the config assembler and the text helpers.

use tulip::id::PrivId;
use tulip::network::wg_conf::{get_wg_interface_name, NetworkWgConfInput};
use tulip::network::{Network, PrivateEndpoint, PublicEndpoint, UserEndpoint};
use tulip::text::{dec_i64, dec_u64, eq_ignore_ascii_case, join_path, json_escape};

fn acme_network() -> Network {
    Network {
        name: String::from("acme"),
        subnet: String::from("10.8.0.0/24"),
        user: UserEndpoint {
            name: String::from("bob"),
            vpn_ip: String::from("10.8.0.5"),
            port: None,
        },
        public_endpoints: vec![PublicEndpoint {
            name: String::from("hq"),
            vpn_ip: String::from("10.8.0.1"),
            public_hostname: String::from("hq.example.com"),
            public_key: String::from("K1"),
            port: 51820,
        }],
    }
}

fn bob_id() -> PrivId {
    PrivId { name: String::from("bob"), private_key: String::from("SK") }
}

#[test]
fn mobile_conf_has_address_line_and_one_peer() {
    let net = acme_network();
    let input = NetworkWgConfInput { priv_id: bob_id(), mobile: true, port: None };
    let conf = net.wg_conf_section(&input);
    assert_eq!(
        conf,
        "[Interface]\nPrivateKey = SK\nAddress = 10.8.0.5/32\n\
         # hq\n[Peer]\nPublicKey = K1\nAllowedIPs = 10.8.0.0/24\nEndpoint = hq.example.com:51820"
    );
    assert!(conf.contains("Address = 10.8.0.5/32"));
    assert_eq!(conf.matches("[Peer]").count(), 1);
    assert!(conf.contains("Endpoint = hq.example.com:51820"));
    assert!(conf.contains("AllowedIPs = 10.8.0.0/24"));
}

#[test]
fn server_conf_has_no_address_line() {
    let net = acme_network();
    let input = NetworkWgConfInput { priv_id: bob_id(), mobile: false, port: Some(51820) };
    let conf = net.wg_conf_section(&input);
    assert_eq!(
        conf,
        "[Interface]\nPrivateKey = SK\nListenPort = 51820\n\
         # hq\n[Peer]\nPublicKey = K1\nAllowedIPs = 10.8.0.0/24\nEndpoint = hq.example.com:51820"
    );
    assert!(!conf.contains("Address = "));
}

#[test]
fn assembler_is_deterministic() {
    let a = acme_network().wg_conf_section(&NetworkWgConfInput {
        priv_id: bob_id(),
        mobile: true,
        port: Some(7),
    });
    let b = acme_network().wg_conf_section(&NetworkWgConfInput {
        priv_id: bob_id(),
        mobile: true,
        port: Some(7),
    });
    assert_eq!(a, b);
}

#[test]
fn bootstrap_sections_are_newline_separated_blocks() {
    let mut net = acme_network();
    net.public_endpoints.push(PublicEndpoint {
        name: String::from("hq2"),
        vpn_ip: String::from("10.8.0.2"),
        public_hostname: String::from("hq2.example.com"),
        public_key: String::from("K9"),
        port: 51821,
    });
    let conf = net.wg_conf_section(&NetworkWgConfInput {
        priv_id: bob_id(),
        mobile: false,
        port: None,
    });
    assert_eq!(conf.matches("[Peer]").count(), 2);
    assert!(conf.contains("Endpoint = hq.example.com:51820\n# hq2\n[Peer]"));
}

#[test]
fn public_endpoint_section_uses_subnet_route() {
    let net = acme_network();
    let sec = net.public_endpoints[0].wg_conf_section("10.8.0.0/24");
    assert_eq!(
        sec,
        "# hq\n[Peer]\nPublicKey = K1\nAllowedIPs = 10.8.0.0/24\nEndpoint = hq.example.com:51820"
    );
}

#[test]
fn private_endpoint_section_uses_host_route() {
    let carol = PrivateEndpoint {
        name: String::from("carol"),
        vpn_ip: String::from("10.8.0.9"),
        public_key: String::from("K2"),
    };
    let sec = carol.wg_conf_section();
    assert_eq!(sec, "# carol\n[Peer]\nPublicKey = K2\nAllowedIPs = 10.8.0.9/32");
    assert!(sec.contains("AllowedIPs = 10.8.0.9/32"));
    assert!(!sec.contains("Endpoint"));
}

#[test]
fn interface_name_is_prefix_of_network_name() {
    assert_eq!(get_wg_interface_name("acme_mesh"), "tulip_acme_mes");
    assert_eq!(get_wg_interface_name("12345678"), "tulip_12345678");
}

#[test]
fn interface_name_is_stable() {
    assert_eq!(get_wg_interface_name("acme_mesh"), get_wg_interface_name("acme_mesh"));
}

#[test]
fn decimal_rendering() {
    assert_eq!(dec_u64(0), "0");
    assert_eq!(dec_u64(7), "7");
    assert_eq!(dec_u64(51820), "51820");
    assert_eq!(dec_u64(u64::MAX), "18446744073709551615");
    assert_eq!(dec_i64(51820), "51820");
    assert_eq!(dec_i64(-7), "-7");
    assert_eq!(dec_i64(i64::MIN), "-9223372036854775808");
}

#[test]
fn json_escaping() {
    assert_eq!(json_escape(&String::from("bob")), "bob");
    assert_eq!(json_escape(&String::from("a\"b")), "a\\\"b");
    assert_eq!(json_escape(&String::from("a\\b")), "a\\\\b");
    assert_eq!(json_escape(&String::from("a\nb\tc")), "a\\nb\\tc");
    assert_eq!(json_escape(&String::from("\u{1}")), "\\u0001");
    assert_eq!(json_escape(&String::from("\u{1f}")), "\\u001f");
    assert_eq!(json_escape(&String::from("")), "");
}

#[test]
fn path_joining() {
    assert_eq!(join_path(&String::from("./"), &String::from("f.json")), "./f.json");
    assert_eq!(join_path(&String::from("/tmp"), &String::from("f.json")), "/tmp/f.json");
    assert_eq!(join_path(&String::from(""), &String::from("f.json")), "f.json");
}

#[test]
fn case_insensitive_compare() {
    assert!(eq_ignore_ascii_case(&String::from("On"), "on"));
    assert!(eq_ignore_ascii_case(&String::from("OFF"), "off"));
    assert!(!eq_ignore_ascii_case(&String::from("on"), "off"));
    assert!(!eq_ignore_ascii_case(&String::from("onn"), "on"));
}
