//! Tests of phonebook validation, lookup, resolution, and the tasks that
//! consume a phonebook.

use tulip::id::PrivId;
use tulip::network::phonebook::{
    curl_phonebook_list, phonebook_from_entries, Phonebook, PhonebookEntry, RawEntries,
};
use tulip::network::{Network, NetworkError, PrivateEndpoint, PublicEndpoint, UserEndpoint};
use tulip::tasks::{add_user, render_user_wg_conf};

fn carol_fields() -> Vec<(String, String)> {
    vec![
        (String::from("name"), String::from("carol")),
        (String::from("vpn_ip"), String::from("10.8.0.9")),
        (String::from("public_key"), String::from("K2")),
    ]
}

fn carol_phonebook() -> Phonebook {
    Phonebook {
        entries: vec![PhonebookEntry {
            key: String::from("carol"),
            peer: PrivateEndpoint {
                name: String::from("carol"),
                vpn_ip: String::from("10.8.0.9"),
                public_key: String::from("K2"),
            },
        }],
    }
}

fn small_network() -> Network {
    Network {
        name: String::from("acme_mesh"),
        subnet: String::from("10.8.0.0/24"),
        user: UserEndpoint {
            name: String::from("bob"),
            vpn_ip: String::from("10.8.0.5"),
            port: Some(51820),
        },
        public_endpoints: vec![PublicEndpoint {
            name: String::from("hq"),
            vpn_ip: String::from("10.8.0.1"),
            public_hostname: String::from("hq.example.com"),
            public_key: String::from("K1"),
            port: 51820,
        }],
    }
}

#[test]
fn phonebook_renders_one_host_route_section() {
    let pb = carol_phonebook();
    let sec = pb.wg_conf_section();
    assert_eq!(sec, "# carol\n[Peer]\nPublicKey = K2\nAllowedIPs = 10.8.0.9/32");
    assert_eq!(sec.matches("[Peer]").count(), 1);
}

#[test]
fn empty_phonebook_renders_nothing() {
    let pb = Phonebook { entries: vec![] };
    assert_eq!(pb.wg_conf_section(), "");
}

#[test]
fn valid_raw_entries_decode() {
    let raw: RawEntries = vec![(String::from("carol"), carol_fields())];
    let pb = phonebook_from_entries(&raw).expect("entries should decode");
    assert_eq!(pb.entries.len(), 1);
    assert_eq!(pb.entries[0].key, "carol");
    assert_eq!(pb.entries[0].peer.name, "carol");
    assert_eq!(pb.entries[0].peer.vpn_ip, "10.8.0.9");
    assert_eq!(pb.entries[0].peer.public_key, "K2");
}

#[test]
fn extra_fields_are_ignored_and_order_kept() {
    let mut fields = carol_fields();
    fields.push((String::from("note"), String::from("ignored")));
    let raw: RawEntries = vec![
        (String::from("zz"), carol_fields()),
        (String::from("aa"), fields),
    ];
    let pb = phonebook_from_entries(&raw).expect("entries should decode");
    assert_eq!(pb.entries.len(), 2);
    assert_eq!(pb.entries[0].key, "zz");
    assert_eq!(pb.entries[1].key, "aa");
}

#[test]
fn missing_field_is_malformed() {
    let fields = vec![
        (String::from("name"), String::from("carol")),
        (String::from("public_key"), String::from("K2")),
    ];
    let raw: RawEntries = vec![(String::from("carol"), fields)];
    let r = phonebook_from_entries(&raw);
    assert!(matches!(r, Err(NetworkError::MalformedPhonebook(_))));
}

#[test]
fn duplicate_key_is_malformed() {
    let raw: RawEntries = vec![
        (String::from("carol"), carol_fields()),
        (String::from("carol"), carol_fields()),
    ];
    let r = phonebook_from_entries(&raw);
    assert!(matches!(r, Err(NetworkError::MalformedPhonebook(_))));
}

#[test]
fn lookup_finds_only_listed_keys() {
    let pb = carol_phonebook();
    let carol = pb.get(&String::from("carol")).expect("carol is listed");
    assert_eq!(carol.vpn_ip, "10.8.0.9");
    assert!(pb.get(&String::from("dave")).is_none());
}

#[test]
fn resolution_with_empty_bootstrap_list_fails() {
    let r = curl_phonebook_list(&vec![], 1);
    assert!(matches!(r, Err(NetworkError::CurlsFailed(_))));
}

#[test]
fn resolution_with_all_failing_peers_fails() {
    let peers = vec![
        PublicEndpoint {
            name: String::from("dead"),
            vpn_ip: String::from("127.0.0.1:9"),
            public_hostname: String::from("dead.example.com"),
            public_key: String::from("K0"),
            port: 51820,
        },
        PublicEndpoint {
            name: String::from("dead2"),
            vpn_ip: String::from("127.0.0.1:9"),
            public_hostname: String::from("dead2.example.com"),
            public_key: String::from("K0"),
            port: 51820,
        },
    ];
    let r = curl_phonebook_list(&peers, 1);
    assert!(matches!(r, Err(NetworkError::CurlsFailed(_))));
}

#[test]
fn add_user_substitutes_the_phonebook_address() {
    let pb = carol_phonebook();
    let (path, net2) = add_user(
        &String::from("./out"),
        String::from("carol"),
        small_network(),
        &pb,
    )
    .expect("carol is listed");
    assert_eq!(path, "./out/carol_tulip_network.json");
    assert_eq!(net2.user.name, "carol");
    assert_eq!(net2.user.vpn_ip, "10.8.0.9");
    assert_eq!(net2.user.port, Some(51820));
    assert_eq!(net2.name, "acme_mesh");
    assert_eq!(net2.subnet, "10.8.0.0/24");
    assert_eq!(net2.public_endpoints.len(), 1);
}

#[test]
fn add_user_rejects_unknown_names() {
    let pb = carol_phonebook();
    let r = add_user(&String::from("."), String::from("dave"), small_network(), &pb);
    assert!(matches!(r, Err(NetworkError::UnknownUser(_))));
}

#[test]
fn user_conf_renders_mobile_block_and_both_peer_kinds() {
    let pb = carol_phonebook();
    let id = PrivId { name: String::from("carol"), private_key: String::from("SK") };
    let conf = render_user_wg_conf(small_network(), id, &pb).expect("carol is listed");
    assert_eq!(
        conf,
        "[Interface]\nPrivateKey = SK\nAddress = 10.8.0.9/32\nListenPort = 51820\n\
         # hq\n[Peer]\nPublicKey = K1\nAllowedIPs = 10.8.0.0/24\nEndpoint = hq.example.com:51820\n\
         # carol\n[Peer]\nPublicKey = K2\nAllowedIPs = 10.8.0.9/32"
    );
}

#[test]
fn user_conf_rejects_unlisted_identity() {
    let pb = carol_phonebook();
    let id = PrivId { name: String::from("dave"), private_key: String::from("SK") };
    let r = render_user_wg_conf(small_network(), id, &pb);
    assert!(matches!(r, Err(NetworkError::UnknownUser(_))));
}
