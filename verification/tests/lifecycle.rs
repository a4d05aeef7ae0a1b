//! Tests of the lifecycle planner: start, stop, the phonebook phase, the
//! identity persistence plan, and the debug toggle.

use tulip::id::PrivId;
use tulip::network::phonebook::{Phonebook, PhonebookEntry};
use tulip::network::{
    phonebook_conf_plan, start, stop, Network, NetworkError, PhonebookSource, PrivateEndpoint,
    PublicEndpoint, UserEndpoint,
};
use tulip::tasks::{debug, gen_id, start_network, stop_network};

fn server_network(port: Option<u64>) -> Network {
    Network {
        name: String::from("acme_mesh"),
        subnet: String::from("10.8.0.0/24"),
        user: UserEndpoint {
            name: String::from("bob"),
            vpn_ip: String::from("10.8.0.5"),
            port,
        },
        public_endpoints: vec![PublicEndpoint {
            name: String::from("hq"),
            vpn_ip: String::from("10.8.0.1"),
            public_hostname: String::from("hq.example.com"),
            public_key: String::from("K1"),
            port: 51820,
        }],
    }
}

fn bob_id() -> PrivId {
    PrivId { name: String::from("bob"), private_key: String::from("SK") }
}

fn empty_phonebook() -> Phonebook {
    Phonebook { entries: vec![] }
}

fn args_of(cmd: &tulip::network::Command) -> Vec<&str> {
    cmd.args.iter().map(|a| a.as_str()).collect()
}

#[test]
fn server_mode_without_port_fails_with_no_commands() {
    let r = start(server_network(None), bob_id(), true, Some(empty_phonebook()), 3);
    assert!(matches!(r, Err(NetworkError::MissingPort(_))));
}

#[test]
fn server_mode_without_phonebook_fails() {
    let r = start(server_network(Some(51820)), bob_id(), true, None, 3);
    assert!(matches!(r, Err(NetworkError::MissingPort(_))));
}

#[test]
fn start_plans_the_fixed_command_order() {
    let plan = start(server_network(None), bob_id(), false, None, 7).expect("joiner mode plans");
    assert_eq!(plan.interface_name, "tulip_acme_mes");
    assert_eq!(plan.setup_commands.len(), 5);
    for c in plan.setup_commands.iter() {
        assert_eq!(c.program, "sudo");
    }
    assert_eq!(
        args_of(&plan.setup_commands[0]),
        ["ip", "link", "add", "tulip_acme_mes", "type", "wireguard"]
    );
    assert_eq!(
        args_of(&plan.setup_commands[1]),
        ["ip", "-4", "address", "add", "10.8.0.5/32", "dev", "tulip_acme_mes"]
    );
    assert_eq!(
        args_of(&plan.setup_commands[2]),
        ["ip", "link", "set", "mtu", "1420", "dev", "tulip_acme_mes"]
    );
    assert_eq!(
        args_of(&plan.setup_commands[3]),
        ["ip", "link", "set", "up", "dev", "tulip_acme_mes"]
    );
    assert_eq!(
        args_of(&plan.setup_commands[4]),
        ["ip", "-4", "route", "add", "10.8.0.0/24", "dev", "tulip_acme_mes"]
    );
    assert_eq!(plan.base_conf.path, "/tmp/tulip_acme_mes.conf");
    assert_eq!(
        plan.base_conf.contents,
        "[Interface]\nPrivateKey = SK\n\
         # hq\n[Peer]\nPublicKey = K1\nAllowedIPs = 10.8.0.0/24\nEndpoint = hq.example.com:51820\n"
    );
    assert_eq!(
        args_of(&plan.install_base),
        ["wg", "setconf", "tulip_acme_mes", "/tmp/tulip_acme_mes.conf"]
    );
    assert!(matches!(
        plan.phonebook_source,
        PhonebookSource::Fetch { grace_seconds: 3, timeout: 7 }
    ));
}

#[test]
fn server_start_keeps_the_given_phonebook_and_port() {
    let plan = start(server_network(Some(51820)), bob_id(), true, Some(empty_phonebook()), 3)
        .expect("server mode with port and phonebook plans");
    assert!(plan.base_conf.contents.starts_with(
        "[Interface]\nPrivateKey = SK\nListenPort = 51820\n"
    ));
    assert!(!plan.base_conf.contents.contains("Address = "));
    assert!(matches!(plan.phonebook_source, PhonebookSource::Provided(_)));
}

#[test]
fn start_network_task_matches_start() {
    let r = start_network(server_network(None), bob_id(), true, Some(empty_phonebook()), 3);
    assert!(matches!(r, Err(NetworkError::MissingPort(_))));
    let plan = start_network(server_network(None), bob_id(), false, None, 2)
        .expect("joiner mode plans");
    assert_eq!(plan.interface_name, "tulip_acme_mes");
}

#[test]
fn stop_plans_one_unconditional_deletion() {
    let cmd = stop(server_network(None));
    assert_eq!(cmd.program, "sudo");
    assert_eq!(args_of(&cmd), ["ip", "link", "delete", "dev", "tulip_acme_mes"]);
    let cmd2 = stop_network(server_network(None));
    assert_eq!(args_of(&cmd2), args_of(&cmd));
}

#[test]
fn phonebook_phase_writes_its_own_file() {
    let pb = Phonebook {
        entries: vec![PhonebookEntry {
            key: String::from("carol"),
            peer: PrivateEndpoint {
                name: String::from("carol"),
                vpn_ip: String::from("10.8.0.9"),
                public_key: String::from("K2"),
            },
        }],
    };
    let (conf, cmd) = phonebook_conf_plan(&String::from("tulip_acme_mes"), &pb);
    assert_eq!(conf.path, "/tmp/tulip_acme_mes_phonebook.conf");
    assert_eq!(conf.contents, "# carol\n[Peer]\nPublicKey = K2\nAllowedIPs = 10.8.0.9/32\n");
    assert_eq!(
        args_of(&cmd),
        ["wg", "addconf", "tulip_acme_mes", "/tmp/tulip_acme_mes_phonebook.conf"]
    );
}

#[test]
fn gen_id_plans_both_files() {
    let plan = gen_id(
        &String::from("bob"),
        &String::from("./ids"),
        &String::from("SECRET"),
        &String::from("PUBLIC"),
        false,
        false,
    )
    .expect("fresh identity persists");
    assert_eq!(plan.pub_path, "./ids/bob_public_id.json");
    assert_eq!(plan.priv_path, "./ids/bob_private_id.json");
    assert_eq!(plan.pub_contents, "{\n  \"name\": \"bob\",\n  \"public_key\": \"PUBLIC\"\n}\n");
    assert_eq!(plan.priv_contents, "{\n  \"name\": \"bob\",\n  \"private_key\": \"SECRET\"\n}\n");
}

#[test]
fn gen_id_refuses_to_overwrite() {
    let name = String::from("bob");
    let dir = String::from("./ids");
    let sk = String::from("SECRET");
    let pk = String::from("PUBLIC");
    let first = gen_id(&name, &dir, &sk, &pk, false, false);
    assert!(first.is_ok());
    let second = gen_id(&name, &dir, &sk, &pk, true, true);
    assert!(matches!(second, Err(tulip::id::IdError::KeyFileExists(_))));
    let pub_only = gen_id(&name, &dir, &sk, &pk, true, false);
    assert!(pub_only.is_err());
    let priv_only = gen_id(&name, &dir, &sk, &pk, false, true);
    assert!(priv_only.is_err());
}

#[test]
fn gen_id_escapes_json_strings() {
    let plan = gen_id(
        &String::from("bo\"b"),
        &String::from("."),
        &String::from("S\\K"),
        &String::from("PK"),
        false,
        false,
    )
    .expect("fresh identity persists");
    assert_eq!(plan.pub_contents, "{\n  \"name\": \"bo\\\"b\",\n  \"public_key\": \"PK\"\n}\n");
    assert_eq!(plan.priv_contents, "{\n  \"name\": \"bo\\\"b\",\n  \"private_key\": \"S\\\\K\"\n}\n");
}

#[test]
fn debug_toggle_maps_on_and_off() {
    let on = debug(Some(String::from("on"))).expect("on is valid");
    assert_eq!(on.0, "/sys/kernel/debug/dynamic_debug/control");
    assert_eq!(on.1, "module wireguard +p");
    let off = debug(Some(String::from("OFF"))).expect("off is valid, ignoring case");
    assert_eq!(off.0, "/sys/kernel/debug/dynamic_debug/control");
    assert_eq!(off.1, "module wireguard -p");
    assert!(debug(Some(String::from("maybe"))).is_none());
    assert!(debug(None).is_none());
}
