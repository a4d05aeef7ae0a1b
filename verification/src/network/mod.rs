//! The topology model of a mesh network, and the lifecycle planner that
//! turns a topology, an identity and a phonebook into the ordered external
//! commands and configuration files that bring an interface up or down.

use vstd::prelude::*;

use crate::id::PrivId;
use crate::network::phonebook::Phonebook;
use crate::network::wg_conf::{
    get_wg_interface_name, spec_interface_name, spec_network_wg_conf, spec_phonebook_sections,
    NetworkWgConfInput,
};

pub mod json;
pub mod phonebook;
pub mod wg_conf;

verus! {

/// Failures of resolution, validation and planning.
#[derive(Debug)]
pub enum NetworkError {
    /// Every bootstrap peer failed to deliver a phonebook.
    CurlsFailed(String),
    /// Server mode was requested without a listen port or a phonebook.
    MissingPort(String),
    /// A phonebook entry lacks a required field, or two entries share a key.
    MalformedPhonebook(String),
    /// A name that the phonebook does not list.
    UnknownUser(String),
    /// The configuration could not be rendered as a scannable image.
    QrCodeFailed(String),
}

/// A peer whose tunnel endpoint is reachable from the open network.
#[derive(Debug)]
pub struct PublicEndpoint {
    pub name: String,
    pub vpn_ip: String,
    pub public_hostname: String,
    pub public_key: String,
    pub port: i64,
}

/// A peer reachable only inside the mesh, known through the phonebook.
#[derive(Debug)]
pub struct PrivateEndpoint {
    pub name: String,
    pub vpn_ip: String,
    pub public_key: String,
}

/// The local user joining the network; `port` is present only when this
/// node is itself a publicly reachable bootstrap peer.
#[derive(Debug)]
pub struct UserEndpoint {
    pub name: String,
    pub vpn_ip: String,
    pub port: Option<u64>,
}

/// The declarative shape of one mesh network.
#[derive(Debug)]
pub struct Network {
    pub name: String,
    pub subnet: String,
    pub user: UserEndpoint,
    pub public_endpoints: Vec<PublicEndpoint>,
}

/// One external command, to be run by the caller.
#[derive(Debug)]
pub struct Command {
    pub program: String,
    pub args: Vec<String>,
}

/// A configuration file to be written, with owner-only permissions, before
/// the command that installs it runs.
#[derive(Debug)]
pub struct ConfFile {
    pub path: String,
    pub contents: String,
}

/// Where the phonebook for the second configuration phase comes from:
/// handed in by the operator, or fetched from the bootstrap peers after a
/// fixed grace period.
#[derive(Debug)]
pub enum PhonebookSource {
    Provided(Phonebook),
    Fetch { grace_seconds: u64, timeout: u64 },
}

/// The full ordered plan for starting a network: commands that create and
/// address the interface, the base configuration, and the phonebook phase.
#[derive(Debug)]
pub struct StartPlan {
    pub interface_name: String,
    pub setup_commands: Vec<Command>,
    pub base_conf: ConfFile,
    pub install_base: Command,
    pub phonebook_source: PhonebookSource,
}

/// Whether `c` runs `program` with exactly the arguments `args`.
pub open spec fn spec_cmd(c: Command, program: Seq<char>, args: Seq<Seq<char>>) -> bool {
    c.program@ == program && c.args.deep_view() == args
}

pub open spec fn spec_link_add_args(ifname: Seq<char>) -> Seq<Seq<char>> {
    seq!["ip"@, "link"@, "add"@, ifname, "type"@, "wireguard"@]
}

pub open spec fn spec_address_add_args(user_ip: Seq<char>, ifname: Seq<char>) -> Seq<Seq<char>> {
    seq!["ip"@, "-4"@, "address"@, "add"@, user_ip + "/32"@, "dev"@, ifname]
}

pub open spec fn spec_mtu_args(ifname: Seq<char>) -> Seq<Seq<char>> {
    seq!["ip"@, "link"@, "set"@, "mtu"@, "1420"@, "dev"@, ifname]
}

pub open spec fn spec_link_up_args(ifname: Seq<char>) -> Seq<Seq<char>> {
    seq!["ip"@, "link"@, "set"@, "up"@, "dev"@, ifname]
}

pub open spec fn spec_route_add_args(subnet: Seq<char>, ifname: Seq<char>) -> Seq<Seq<char>> {
    seq!["ip"@, "-4"@, "route"@, "add"@, subnet, "dev"@, ifname]
}

pub open spec fn spec_link_delete_args(ifname: Seq<char>) -> Seq<Seq<char>> {
    seq!["ip"@, "link"@, "delete"@, "dev"@, ifname]
}

/// The base configuration written before the interface is configured:
/// the local interface block (server shape, never a fixed address line)
/// and one section per bootstrap peer, with a trailing newline.
pub open spec fn spec_base_conf_contents(net: Network, priv_id: PrivId) -> Seq<char> {
    spec_network_wg_conf(
        net,
        (NetworkWgConfInput { priv_id, mobile: false, port: net.user.port }),
    ) + "\n"@
}

/// Everything the start plan promises, relative to the inputs.
pub open spec fn spec_start_plan(
    plan: StartPlan,
    net: Network,
    priv_id: PrivId,
    phonebook: Option<Phonebook>,
    timeout: u64,
) -> bool {
    let ifname = spec_interface_name(net.name@);
    &&& plan.interface_name@ == ifname
    &&& plan.setup_commands@.len() == 5
    &&& spec_cmd(plan.setup_commands@[0], "sudo"@, spec_link_add_args(ifname))
    &&& spec_cmd(plan.setup_commands@[1], "sudo"@, spec_address_add_args(net.user.vpn_ip@, ifname))
    &&& spec_cmd(plan.setup_commands@[2], "sudo"@, spec_mtu_args(ifname))
    &&& spec_cmd(plan.setup_commands@[3], "sudo"@, spec_link_up_args(ifname))
    &&& spec_cmd(plan.setup_commands@[4], "sudo"@, spec_route_add_args(net.subnet@, ifname))
    &&& plan.base_conf.path@ == "/tmp/"@ + ifname + ".conf"@
    &&& plan.base_conf.contents@ == spec_base_conf_contents(net, priv_id)
    &&& spec_cmd(plan.install_base, "sudo"@, seq!["wg"@, "setconf"@, ifname, plan.base_conf.path@])
    &&& (match phonebook {
        Some(pb) => plan.phonebook_source matches PhonebookSource::Provided(p) && p == pb,
        None => plan.phonebook_source matches PhonebookSource::Fetch { grace_seconds, timeout: t }
            && grace_seconds == 3 && t == timeout,
    })
}

fn sudo_cmd6(a0: &str, a1: &str, a2: &str, a3: &str, a4: &str, a5: &str) -> (c: Command)
    ensures
        spec_cmd(c, "sudo"@, seq![a0@, a1@, a2@, a3@, a4@, a5@]),
{
    let mut args: Vec<String> = Vec::new();
    args.push(String::from_str(a0));
    args.push(String::from_str(a1));
    args.push(String::from_str(a2));
    args.push(String::from_str(a3));
    args.push(String::from_str(a4));
    args.push(String::from_str(a5));
    proof {
        assert(args.deep_view() =~= seq![a0@, a1@, a2@, a3@, a4@, a5@]);
    }
    Command { program: String::from_str("sudo"), args }
}

fn sudo_cmd7(a0: &str, a1: &str, a2: &str, a3: &str, a4: &str, a5: &str, a6: &str) -> (c: Command)
    ensures
        spec_cmd(c, "sudo"@, seq![a0@, a1@, a2@, a3@, a4@, a5@, a6@]),
{
    let mut args: Vec<String> = Vec::new();
    args.push(String::from_str(a0));
    args.push(String::from_str(a1));
    args.push(String::from_str(a2));
    args.push(String::from_str(a3));
    args.push(String::from_str(a4));
    args.push(String::from_str(a5));
    args.push(String::from_str(a6));
    proof {
        assert(args.deep_view() =~= seq![a0@, a1@, a2@, a3@, a4@, a5@, a6@]);
    }
    Command { program: String::from_str("sudo"), args }
}

fn sudo_cmd4(a0: &str, a1: &str, a2: &str, a3: &str) -> (c: Command)
    ensures
        spec_cmd(c, "sudo"@, seq![a0@, a1@, a2@, a3@]),
{
    let mut args: Vec<String> = Vec::new();
    args.push(String::from_str(a0));
    args.push(String::from_str(a1));
    args.push(String::from_str(a2));
    args.push(String::from_str(a3));
    proof {
        assert(args.deep_view() =~= seq![a0@, a1@, a2@, a3@]);
    }
    Command { program: String::from_str("sudo"), args }
}

/// Plans the creation, addressing and configuration of the tunnel
/// interface: five setup commands in fixed order, the base configuration
/// file, its installation command, and the source of the phonebook for
/// the second configuration phase.
pub fn add_wg_interface(
    network: &Network,
    priv_id: PrivId,
    phonebook: Option<Phonebook>,
    timeout: u64,
) -> (plan: StartPlan)
    requires
        network.name@.len() >= 8,
        vstd::utf8::is_ascii_chars(network.name@),
    ensures
        spec_start_plan(plan, *network, priv_id, phonebook, timeout),
{
    let network_name = get_wg_interface_name(network.name.as_str());

    let mut setup_commands: Vec<Command> = Vec::new();
    setup_commands.push(
        sudo_cmd6("ip", "link", "add", network_name.as_str(), "type", "wireguard"),
    );
    let mut user_ip_host = crate::text::clone_string(&network.user.vpn_ip);
    user_ip_host.append("/32");
    setup_commands.push(
        sudo_cmd7("ip", "-4", "address", "add", user_ip_host.as_str(), "dev", network_name.as_str()),
    );
    setup_commands.push(
        sudo_cmd7("ip", "link", "set", "mtu", "1420", "dev", network_name.as_str()),
    );
    setup_commands.push(sudo_cmd6("ip", "link", "set", "up", "dev", network_name.as_str()));
    setup_commands.push(
        sudo_cmd7("ip", "-4", "route", "add", network.subnet.as_str(), "dev", network_name.as_str()),
    );

    let mut conf_path = String::from_str("/tmp/");
    conf_path.append(network_name.as_str());
    conf_path.append(".conf");
    let port = match &network.user.port {
        Some(p) => Some(*p),
        None => None,
    };
    let input = NetworkWgConfInput { priv_id, mobile: false, port };
    let mut contents = network.wg_conf_section(&input);
    contents.append("\n");
    let base_conf = ConfFile { path: conf_path, contents };

    let install_base = sudo_cmd4("wg", "setconf", network_name.as_str(), base_conf.path.as_str());

    let phonebook_source = match phonebook {
        Some(pb) => PhonebookSource::Provided(pb),
        None => PhonebookSource::Fetch { grace_seconds: 3, timeout },
    };

    StartPlan {
        interface_name: network_name,
        setup_commands,
        base_conf,
        install_base,
        phonebook_source,
    }
}

/// Plans the second configuration phase: the phonebook-derived peer
/// sections are written to their own file and added incrementally.
pub fn phonebook_conf_plan(interface_name: &String, phonebook: &Phonebook) -> (r: (ConfFile, Command))
    ensures
        r.0.path@ == "/tmp/"@ + interface_name@ + "_phonebook.conf"@,
        r.0.contents@ == spec_phonebook_sections(phonebook.entries@) + "\n"@,
        spec_cmd(r.1, "sudo"@, seq!["wg"@, "addconf"@, interface_name@, r.0.path@]),
{
    let mut path = String::from_str("/tmp/");
    path.append(interface_name.as_str());
    path.append("_phonebook.conf");
    let mut contents = phonebook.wg_conf_section();
    contents.append("\n");
    let cmd = sudo_cmd4("wg", "addconf", interface_name.as_str(), path.as_str());
    let conf = ConfFile { path, contents };
    (conf, cmd)
}

/// Starts the network: fails fast when server mode lacks a listen port or
/// a phonebook, and otherwise plans the whole bring-up.  An `Err` carries
/// no plan, so a failed precondition issues zero external commands.
pub fn start(
    network: Network,
    priv_id: PrivId,
    server: bool,
    phonebook: Option<Phonebook>,
    timeout: u64,
) -> (r: Result<StartPlan, NetworkError>)
    requires
        network.name@.len() >= 8,
        vstd::utf8::is_ascii_chars(network.name@),
    ensures
        (server && (network.user.port is None || phonebook is None)) <==> r is Err,
        r matches Err(e) ==> e is MissingPort,
        r matches Ok(plan) ==> spec_start_plan(plan, network, priv_id, phonebook, timeout),
{
    if server && (network.user.port.is_none() || phonebook.is_none()) {
        Err(NetworkError::MissingPort(String::from_str("in --server mode, you need a port")))
    } else {
        Ok(add_wg_interface(&network, priv_id, phonebook, timeout))
    }
}

/// Plans the teardown: one unconditional deletion of the interface whose
/// name derives from the network name alone.  The command is the same
/// whether or not the interface exists.
pub fn stop(network: Network) -> (cmd: Command)
    requires
        network.name@.len() >= 8,
        vstd::utf8::is_ascii_chars(network.name@),
    ensures
        spec_cmd(cmd, "sudo"@, spec_link_delete_args(spec_interface_name(network.name@))),
{
    let network_name = get_wg_interface_name(network.name.as_str());
    let mut args: Vec<String> = Vec::new();
    args.push(String::from_str("ip"));
    args.push(String::from_str("link"));
    args.push(String::from_str("delete"));
    args.push(String::from_str("dev"));
    args.push(network_name);
    proof {
        assert(args.deep_view() =~= spec_link_delete_args(spec_interface_name(network.name@)));
    }
    Command { program: String::from_str("sudo"), args }
}

} // verus!
