//! The task layer behind the command surface: each task takes the values
//! its command loaded and returns the text, files or command plans that
//! the command then writes or runs.

use vstd::prelude::*;

use crate::id::{gen_id_files, IdError, IdFilePlan, PrivId};
use crate::network::phonebook::{curl_phonebook_list, spec_find, Phonebook};
use crate::network::wg_conf::{
    spec_interface_block, spec_phonebook_sections, spec_public_sections, NetworkWgConfInput,
};
use crate::network::{Network, NetworkError, StartPlan, UserEndpoint};
use crate::text::{
    clone_string, eq_ignore_ascii_case, join_path, spec_eq_ignore_ascii_case, spec_join_path,
};

verus! {

/// Derives a per-user topology: the phonebook entry under `name`
/// replaces the local user, producing a brand-new topology value (and
/// the conventional name of the file to ship it in), never touching the
/// input topology's source.  Fails when the phonebook does not list
/// `name`.
pub fn add_user(out_dir: &String, name: String, network: Network, phonebook: &Phonebook) -> (r:
    Result<(String, Network), NetworkError>)
    ensures
        spec_find(phonebook.entries@, name@) >= 0 <==> r is Ok,
        r matches Err(e) ==> e is UnknownUser,
        r matches Ok(pn) ==> {
            let idx = spec_find(phonebook.entries@, name@);
            &&& pn.0@ == spec_join_path(out_dir@, name@ + "_tulip_network.json"@)
            &&& pn.1.name == network.name
            &&& pn.1.subnet == network.subnet
            &&& pn.1.public_endpoints == network.public_endpoints
            &&& pn.1.user.name@ == name@
            &&& pn.1.user.vpn_ip@ == phonebook.entries@[idx].peer.vpn_ip@
            &&& pn.1.user.port == network.user.port
        },
{
    match phonebook.get(&name) {
        Some(user) => {
            let vpn_ip = clone_string(&user.vpn_ip);
            let mut file = clone_string(&name);
            file.append("_tulip_network.json");
            let path = join_path(out_dir, &file);
            let Network { name: net_name, subnet, user: old_user, public_endpoints } = network;
            let new_user = UserEndpoint { name, vpn_ip, port: old_user.port };
            let net2 = Network { name: net_name, subnet, user: new_user, public_endpoints };
            Ok((path, net2))
        },
        None => Err(
            NetworkError::UnknownUser(String::from_str("that name is not a user in the phonebook")),
        ),
    }
}

/// The whole configuration shipped to one user: the mobile-role
/// interface block on the address the phonebook lists for the user,
/// then the bootstrap-peer sections, then the phonebook-peer sections.
pub open spec fn spec_user_conf(net: Network, priv_id: PrivId, pb: Phonebook) -> Seq<char> {
    spec_interface_block(
        priv_id.private_key@,
        true,
        pb.entries@[spec_find(pb.entries@, priv_id.name@)].peer.vpn_ip@,
        net.user.port,
    ) + spec_public_sections(net.public_endpoints@, net.subnet@) + "\n"@
        + spec_phonebook_sections(pb.entries@)
}

/// Renders the configuration for the user named by the identity, against
/// a given phonebook: mobile role, the user's mesh address taken from
/// the phonebook.  Fails exactly when the phonebook does not list the
/// identity's name.
pub fn render_user_wg_conf(network: Network, priv_id: PrivId, phonebook: &Phonebook) -> (r: Result<
    String,
    NetworkError,
>)
    ensures
        spec_find(phonebook.entries@, priv_id.name@) >= 0 <==> r is Ok,
        r matches Err(e) ==> e is UnknownUser,
        r matches Ok(conf) ==> conf@ == spec_user_conf(network, priv_id, *phonebook),
{
    let found = match phonebook.get(&priv_id.name) {
        Some(user) => clone_string(&user.vpn_ip),
        None => {
            return Err(
                NetworkError::UnknownUser(
                    String::from_str("that name is not a user in the phonebook"),
                ),
            );
        },
    };
    let name2 = clone_string(&priv_id.name);
    let port = network.user.port;
    let mut net2 = network;
    net2.user.name = name2;
    net2.user.vpn_ip = found;
    let input = NetworkWgConfInput { priv_id, mobile: true, port };
    let mut conf = net2.wg_conf_section(&input);
    conf.append("\n");
    let pb_section = phonebook.wg_conf_section();
    conf.append(pb_section.as_str());
    proof {
        assert(conf@ =~= spec_user_conf(net2, input.priv_id, *phonebook));
    }
    Ok(conf)
}

/// What a resolved configuration file looks like relative to some
/// well-formed phonebook that listed the user: the scannable-image
/// rendering under a fixed path for the `qr` kind, the plain text under
/// the output directory otherwise.
pub open spec fn spec_conf_file_output(
    kind: Seq<char>,
    out_dir: Seq<char>,
    net: Network,
    priv_id: PrivId,
    pb: Phonebook,
    path: Seq<char>,
    contents: Seq<char>,
) -> bool {
    &&& pb.wf()
    &&& spec_find(pb.entries@, priv_id.name@) >= 0
    &&& if kind == "qr"@ {
        &&& path == "/tmp/"@ + priv_id.name@ + "_tulip_network.svg"@
        &&& contents == qr_svg_of(spec_user_conf(net, priv_id, pb), 1024)
    } else {
        &&& path == spec_join_path(out_dir, priv_id.name@ + "_tulip_network.conf"@)
        &&& contents == spec_user_conf(net, priv_id, pb)
    }
}

/// Some well-formed phonebook listing the user explains this output.
pub open spec fn spec_some_conf_file_output(
    kind: Seq<char>,
    out_dir: Seq<char>,
    net: Network,
    priv_id: PrivId,
    path: Seq<char>,
    contents: Seq<char>,
) -> bool {
    exists|pb: Phonebook| spec_conf_file_output(kind, out_dir, net, priv_id, pb, path, contents)
}

/// Produces the user's tunnel configuration file: resolves the phonebook
/// from the bootstrap peers, renders the user's configuration, and
/// returns the target path with the full contents — as a scannable SVG
/// image for the `qr` kind, as plain text otherwise.  What the peers
/// deliver depends on the network, so the output is promised relative to
/// some well-formed phonebook that listed the user's name.
pub fn write_wg_conf_file(kind: &String, out_dir: &String, network: Network, priv_id: PrivId) -> (r:
    Result<(String, String), NetworkError>)
    ensures
        r matches Err(e) ==> (e is CurlsFailed || e is UnknownUser || e is QrCodeFailed),
        r matches Ok(pc) ==> spec_some_conf_file_output(
            kind@,
            out_dir@,
            network,
            priv_id,
            pc.0@,
            pc.1@,
        ),
{
    let phonebook = match curl_phonebook_list(&network.public_endpoints, 3) {
        Ok(pb) => pb,
        Err(e) => {
            return Err(e);
        },
    };
    let user_name = clone_string(&priv_id.name);
    let conf = match render_user_wg_conf(network, priv_id, &phonebook) {
        Ok(c) => c,
        Err(e) => {
            return Err(e);
        },
    };
    let qr_kind = String::from_str("qr");
    if kind.eq(&qr_kind) {
        let svg = match qr_svg(&conf, 1024) {
            Some(s) => s,
            None => {
                return Err(NetworkError::QrCodeFailed(String::from_str("qr code issues")));
            },
        };
        let mut path = String::from_str("/tmp/");
        path.append(user_name.as_str());
        path.append("_tulip_network.svg");
        proof {
            assert(path@ =~= "/tmp/"@ + priv_id.name@ + "_tulip_network.svg"@);
            assert(spec_some_conf_file_output(kind@, out_dir@, network, priv_id, path@, svg@)) by {
                assert(spec_conf_file_output(
                    kind@,
                    out_dir@,
                    network,
                    priv_id,
                    phonebook,
                    path@,
                    svg@,
                ));
            }
        }
        Ok((path, svg))
    } else {
        let mut file = user_name;
        file.append("_tulip_network.conf");
        let path = join_path(out_dir, &file);
        proof {
            assert(spec_some_conf_file_output(kind@, out_dir@, network, priv_id, path@, conf@)) by {
                assert(spec_conf_file_output(
                    kind@,
                    out_dir@,
                    network,
                    priv_id,
                    phonebook,
                    path@,
                    conf@,
                ));
            }
        }
        Ok((path, conf))
    }
}

/// A name for what `qrcode_generator::to_svg_to_string` returns: the
/// SVG text of a QR code, a function of the content and size alone.
pub uninterp spec fn qr_svg_of(content: Seq<char>, size: nat) -> Seq<char>;

/// Relies on `qrcode_generator::to_svg_to_string` at low error
/// correction, without a description: renders the content as an SVG
/// image of the given side length, deterministically from its arguments;
/// `None` when the content does not fit a QR code.
#[verifier::external_body]
fn qr_svg(content: &String, size: usize) -> (r: Option<String>)
    ensures
        r matches Some(s) ==> s@ == qr_svg_of(content@, size as nat),
{
    qrcode_generator::to_svg_to_string(
        content,
        qrcode_generator::QrCodeEcc::Low,
        size,
        None::<&str>,
    ).ok()
}

/// The kernel-parameter write that turns tunnel debugging on or off:
/// the control path and the value to write, or nothing when the request
/// is neither `on` nor `off` (compared ignoring ASCII case), or absent.
pub fn debug(onoff: Option<String>) -> (r: Option<(String, String)>)
    ensures
        match onoff {
            Some(s) => {
                if spec_eq_ignore_ascii_case(s@, "on"@) {
                    r matches Some(pv) && pv.0@ == "/sys/kernel/debug/dynamic_debug/control"@
                        && pv.1@ == "module wireguard +p"@
                } else if spec_eq_ignore_ascii_case(s@, "off"@) {
                    r matches Some(pv) && pv.0@ == "/sys/kernel/debug/dynamic_debug/control"@
                        && pv.1@ == "module wireguard -p"@
                } else {
                    r is None
                }
            },
            None => r is None,
        },
{
    match onoff {
        Some(s) => {
            if eq_ignore_ascii_case(&s, "on") {
                Some(
                    (
                        String::from_str("/sys/kernel/debug/dynamic_debug/control"),
                        String::from_str("module wireguard +p"),
                    ),
                )
            } else if eq_ignore_ascii_case(&s, "off") {
                Some(
                    (
                        String::from_str("/sys/kernel/debug/dynamic_debug/control"),
                        String::from_str("module wireguard -p"),
                    ),
                )
            } else {
                None
            }
        },
        None => None,
    }
}

/// Generates the persistence plan for a fresh identity pair; see
/// `gen_id_files`.
pub fn gen_id(
    name: &String,
    out_dir: &String,
    priv_key: &String,
    pub_key: &String,
    pub_id_file_exists: bool,
    priv_id_file_exists: bool,
) -> (r: Result<IdFilePlan, IdError>)
    ensures
        (pub_id_file_exists || priv_id_file_exists) <==> r is Err,
        r matches Err(e) ==> e is KeyFileExists,
        r matches Ok(p) ==> {
            &&& p.pub_path@ == spec_join_path(out_dir@, crate::id::spec_pub_id_file(name@))
            &&& p.priv_path@ == spec_join_path(out_dir@, crate::id::spec_priv_id_file(name@))
            &&& p.pub_contents@ == crate::id::spec_id_json(name@, "public_key"@, pub_key@)
            &&& p.priv_contents@ == crate::id::spec_id_json(name@, "private_key"@, priv_key@)
        },
{
    gen_id_files(name, out_dir, priv_key, pub_key, pub_id_file_exists, priv_id_file_exists)
}

/// Plans the start of a network; see `crate::network::start`.
pub fn start_network(
    network: Network,
    priv_id: PrivId,
    server: bool,
    phonebook: Option<Phonebook>,
    timeout: u64,
) -> (r: Result<StartPlan, NetworkError>)
    requires
        network.name@.len() >= 8,
        vstd::utf8::is_ascii_chars(network.name@),
    ensures
        (server && (network.user.port is None || phonebook is None)) <==> r is Err,
        r matches Err(e) ==> e is MissingPort,
        r matches Ok(plan) ==> crate::network::spec_start_plan(
            plan,
            network,
            priv_id,
            phonebook,
            timeout,
        ),
{
    crate::network::start(network, priv_id, server, phonebook, timeout)
}

/// Plans the teardown of a network; see `crate::network::stop`.
pub fn stop_network(network: Network) -> (cmd: crate::network::Command)
    requires
        network.name@.len() >= 8,
        vstd::utf8::is_ascii_chars(network.name@),
    ensures
        crate::network::spec_cmd(
            cmd,
            "sudo"@,
            crate::network::spec_link_delete_args(
                crate::network::wg_conf::spec_interface_name(network.name@),
            ),
        ),
{
    crate::network::stop(network)
}

} // verus!
