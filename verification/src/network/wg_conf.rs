//! Rendering of the tunnel's textual configuration: a local interface
//! block followed by one peer section per bootstrap peer, and separately
//! one peer section per phonebook peer.  Every renderer is pinned to a
//! spec-level description of its exact output.

use vstd::prelude::*;

use crate::id::PrivId;
use crate::network::phonebook::{Phonebook, PhonebookEntry};
use crate::network::{Network, PrivateEndpoint, PublicEndpoint};
use crate::text::{dec_i64, dec_u64, spec_dec_int, spec_dec_nat};

verus! {

/// The arguments of the interface-block renderer: the local identity, the
/// role (`mobile` joiners get a fixed local address line, servers do
/// not), and the optional listen port.
pub struct NetworkWgConfInput {
    pub priv_id: PrivId,
    pub mobile: bool,
    pub port: Option<u64>,
}

/// The peer section of one bootstrap peer: routed over the whole subnet,
/// reachable at a public hostname and port.
pub open spec fn spec_public_endpoint_section(e: PublicEndpoint, subnet: Seq<char>) -> Seq<char> {
    "# "@ + e.name@ + "\n[Peer]\nPublicKey = "@ + e.public_key@ + "\nAllowedIPs = "@ + subnet
        + "\nEndpoint = "@ + e.public_hostname@ + ":"@ + spec_dec_int(e.port as int)
}

/// The peer section of one phonebook peer: a single-host route, never a
/// subnet.
pub open spec fn spec_private_endpoint_section(e: PrivateEndpoint) -> Seq<char> {
    "# "@ + e.name@ + "\n[Peer]\nPublicKey = "@ + e.public_key@ + "\nAllowedIPs = "@ + e.vpn_ip@
        + "/32"@
}

/// The fixed local address line of a mobile-role interface block.
pub open spec fn spec_address_line(user_ip: Seq<char>) -> Seq<char> {
    "Address = "@ + user_ip + "/32\n"@
}

/// The optional listen-port line.
pub open spec fn spec_listen_line(port: Option<u64>) -> Seq<char> {
    match port {
        Some(p) => "ListenPort = "@ + spec_dec_nat(p as nat) + "\n"@,
        None => Seq::<char>::empty(),
    }
}

/// The local interface block: secret key line, the address line for the
/// mobile role only, and the listen-port line when a port is given.
pub open spec fn spec_interface_block(
    priv_key: Seq<char>,
    mobile: bool,
    user_ip: Seq<char>,
    port: Option<u64>,
) -> Seq<char> {
    "[Interface]\nPrivateKey = "@ + priv_key + "\n"@ + (if mobile {
        spec_address_line(user_ip)
    } else {
        Seq::<char>::empty()
    }) + spec_listen_line(port)
}

/// All bootstrap-peer sections, in declared order, as newline-separated
/// blocks.
pub open spec fn spec_public_sections(peers: Seq<PublicEndpoint>, subnet: Seq<char>) -> Seq<char>
    decreases peers.len(),
{
    if peers.len() == 0 {
        Seq::<char>::empty()
    } else if peers.len() == 1 {
        spec_public_endpoint_section(peers[0], subnet)
    } else {
        spec_public_sections(peers.drop_last(), subnet) + "\n"@ + spec_public_endpoint_section(
            peers.last(),
            subnet,
        )
    }
}

/// All phonebook-peer sections, in insertion order, as newline-separated
/// blocks.
pub open spec fn spec_phonebook_sections(entries: Seq<PhonebookEntry>) -> Seq<char>
    decreases entries.len(),
{
    if entries.len() == 0 {
        Seq::<char>::empty()
    } else if entries.len() == 1 {
        spec_private_endpoint_section(entries[0].peer)
    } else {
        spec_phonebook_sections(entries.drop_last()) + "\n"@ + spec_private_endpoint_section(
            entries.last().peer,
        )
    }
}

/// A whole network configuration: the interface block, then the
/// bootstrap-peer sections.
pub open spec fn spec_network_wg_conf(net: Network, input: NetworkWgConfInput) -> Seq<char> {
    spec_interface_block(input.priv_id.private_key@, input.mobile, net.user.vpn_ip@, input.port)
        + spec_public_sections(net.public_endpoints@, net.subnet@)
}

/// The canonical interface name: a fixed prefix and the first eight
/// characters of the network name.
pub open spec fn spec_interface_name(network_name: Seq<char>) -> Seq<char> {
    "tulip_"@ + network_name.subrange(0, 8)
}

impl PublicEndpoint {
    /// Renders this bootstrap peer's section.
    pub fn wg_conf_section(&self, subnet: &str) -> (r: String)
        ensures
            r@ == spec_public_endpoint_section(*self, subnet@),
    {
        let mut s = String::from_str("# ");
        s.append(self.name.as_str());
        s.append("\n[Peer]\nPublicKey = ");
        s.append(self.public_key.as_str());
        s.append("\nAllowedIPs = ");
        s.append(subnet);
        s.append("\nEndpoint = ");
        s.append(self.public_hostname.as_str());
        s.append(":");
        let p = dec_i64(self.port);
        s.append(p.as_str());
        proof {
            assert(s@ =~= spec_public_endpoint_section(*self, subnet@));
        }
        s
    }
}

impl PrivateEndpoint {
    /// Renders this phonebook peer's section.
    pub fn wg_conf_section(&self) -> (r: String)
        ensures
            r@ == spec_private_endpoint_section(*self),
    {
        let mut s = String::from_str("# ");
        s.append(self.name.as_str());
        s.append("\n[Peer]\nPublicKey = ");
        s.append(self.public_key.as_str());
        s.append("\nAllowedIPs = ");
        s.append(self.vpn_ip.as_str());
        s.append("/32");
        proof {
            assert(s@ =~= spec_private_endpoint_section(*self));
        }
        s
    }
}

impl Network {
    /// Renders the interface block and every bootstrap-peer section.
    pub fn wg_conf_section(&self, arg: &NetworkWgConfInput) -> (r: String)
        ensures
            r@ == spec_network_wg_conf(*self, *arg),
    {
        let mut s = String::from_str("[Interface]\nPrivateKey = ");
        s.append(arg.priv_id.private_key.as_str());
        s.append("\n");
        if arg.mobile {
            s.append("Address = ");
            s.append(self.user.vpn_ip.as_str());
            s.append("/32\n");
        }
        match &arg.port {
            Some(p) => {
                s.append("ListenPort = ");
                let d = dec_u64(*p);
                s.append(d.as_str());
                s.append("\n");
            },
            None => {},
        }
        let ghost block = spec_interface_block(
            arg.priv_id.private_key@,
            arg.mobile,
            self.user.vpn_ip@,
            arg.port,
        );
        proof {
            assert(s@ =~= block);
        }
        let mut i: usize = 0;
        while i < self.public_endpoints.len()
            invariant
                i <= self.public_endpoints@.len(),
                s@ == block + spec_public_sections(
                    self.public_endpoints@.take(i as int),
                    self.subnet@,
                ),
            decreases self.public_endpoints@.len() - i,
        {
            if i > 0 {
                s.append("\n");
            }
            let sec = self.public_endpoints[i].wg_conf_section(self.subnet.as_str());
            s.append(sec.as_str());
            proof {
                let taken = self.public_endpoints@.take(i as int + 1);
                assert(taken.drop_last() =~= self.public_endpoints@.take(i as int));
                assert(taken.last() == self.public_endpoints@[i as int]);
                assert(s@ =~= block + spec_public_sections(taken, self.subnet@));
            }
            i += 1;
        }
        proof {
            assert(self.public_endpoints@.take(self.public_endpoints@.len() as int)
                =~= self.public_endpoints@);
        }
        s
    }
}

impl Phonebook {
    /// Renders one section per phonebook peer, in insertion order.
    pub fn wg_conf_section(&self) -> (r: String)
        ensures
            r@ == spec_phonebook_sections(self.entries@),
    {
        let mut s = String::new();
        let mut i: usize = 0;
        while i < self.entries.len()
            invariant
                i <= self.entries@.len(),
                s@ == spec_phonebook_sections(self.entries@.take(i as int)),
            decreases self.entries@.len() - i,
        {
            if i > 0 {
                s.append("\n");
            }
            let sec = self.entries[i].peer.wg_conf_section();
            s.append(sec.as_str());
            proof {
                let taken = self.entries@.take(i as int + 1);
                assert(taken.drop_last() =~= self.entries@.take(i as int));
                assert(taken.last() == self.entries@[i as int]);
                assert(s@ =~= spec_phonebook_sections(taken));
            }
            i += 1;
        }
        proof {
            assert(self.entries@.take(self.entries@.len() as int) =~= self.entries@);
        }
        s
    }
}

/// Derives the canonical interface name from the network name.  A pure
/// function of the name: equal names always derive the same interface
/// name, for every name of sufficient length.
pub fn get_wg_interface_name(network_name: &str) -> (r: String)
    requires
        network_name@.len() >= 8,
        network_name.is_ascii(),
    ensures
        r@ == spec_interface_name(network_name@),
{
    let mut s = String::from_str("tulip_");
    let prefix = network_name.substring_ascii(0, 8);
    s.append(prefix);
    s
}

/// Field-by-field equality of two bootstrap peers' contents.
pub open spec fn spec_endpoint_same(a: PublicEndpoint, b: PublicEndpoint) -> bool {
    a.name@ == b.name@ && a.vpn_ip@ == b.vpn_ip@ && a.public_hostname@ == b.public_hostname@
        && a.public_key@ == b.public_key@ && a.port == b.port
}

proof fn lemma_public_sections_congruent(
    left: Seq<PublicEndpoint>,
    right: Seq<PublicEndpoint>,
    subnet: Seq<char>,
)
    requires
        left.len() == right.len(),
        forall|i: int| 0 <= i < left.len() ==> spec_endpoint_same(#[trigger] left[i], right[i]),
    ensures
        spec_public_sections(left, subnet) == spec_public_sections(right, subnet),
    decreases left.len(),
{
    if left.len() > 0 {
        lemma_public_sections_congruent(left.drop_last(), right.drop_last(), subnet);
        assert(spec_endpoint_same(left[left.len() - 1], right[right.len() - 1]));
    }
}

/// The Config Assembler is deterministic and side-effect-free: two
/// topologies, identities, roles and ports with the same contents render
/// to the same configuration text, so two calls on the same inputs
/// produce byte-identical output.
pub proof fn lemma_assembler_deterministic(
    n1: Network,
    n2: Network,
    i1: NetworkWgConfInput,
    i2: NetworkWgConfInput,
)
    requires
        n1.subnet@ == n2.subnet@,
        n1.user.vpn_ip@ == n2.user.vpn_ip@,
        n1.public_endpoints@.len() == n2.public_endpoints@.len(),
        forall|i: int| 0 <= i < n1.public_endpoints@.len() ==> spec_endpoint_same(
            #[trigger] n1.public_endpoints@[i],
            n2.public_endpoints@[i],
        ),
        i1.priv_id.private_key@ == i2.priv_id.private_key@,
        i1.mobile == i2.mobile,
        i1.port == i2.port,
    ensures
        spec_network_wg_conf(n1, i1) == spec_network_wg_conf(n2, i2),
{
    lemma_public_sections_congruent(n1.public_endpoints@, n2.public_endpoints@, n1.subnet@);
}

/// A mobile-role interface block is exactly the server-role block with
/// the fixed local address line inserted after the key line: rendering
/// the mobile role always includes that line, and rendering the server
/// role never does.
pub proof fn lemma_address_line_presence(priv_key: Seq<char>, user_ip: Seq<char>, port: Option<u64>)
    ensures
        spec_interface_block(priv_key, true, user_ip, port) == "[Interface]\nPrivateKey = "@
            + priv_key + "\n"@ + spec_address_line(user_ip) + spec_listen_line(port),
        spec_interface_block(priv_key, false, user_ip, port) == "[Interface]\nPrivateKey = "@
            + priv_key + "\n"@ + spec_listen_line(port),
{
    assert(spec_interface_block(priv_key, false, user_ip, port) =~= "[Interface]\nPrivateKey = "@
        + priv_key + "\n"@ + spec_listen_line(port));
}

/// Peer routes: a phonebook peer's section always closes with a
/// single-host `/32` route on its mesh address, while a bootstrap peer's
/// section routes the network's whole subnet.
pub proof fn lemma_peer_route_shapes(e: PrivateEndpoint, p: PublicEndpoint, subnet: Seq<char>)
    ensures
        spec_private_endpoint_section(e) == ("# "@ + e.name@ + "\n[Peer]\nPublicKey = "@
            + e.public_key@ + "\nAllowedIPs = "@) + (e.vpn_ip@ + "/32"@),
        spec_public_endpoint_section(p, subnet) == ("# "@ + p.name@ + "\n[Peer]\nPublicKey = "@
            + p.public_key@ + "\nAllowedIPs = "@) + (subnet + ("\nEndpoint = "@
            + p.public_hostname@ + ":"@ + spec_dec_int(p.port as int))),
{
    assert(spec_private_endpoint_section(e) =~= ("# "@ + e.name@ + "\n[Peer]\nPublicKey = "@
        + e.public_key@ + "\nAllowedIPs = "@) + (e.vpn_ip@ + "/32"@));
    assert(spec_public_endpoint_section(p, subnet) =~= ("# "@ + p.name@
        + "\n[Peer]\nPublicKey = "@ + p.public_key@ + "\nAllowedIPs = "@) + (subnet + (
    "\nEndpoint = "@ + p.public_hostname@ + ":"@ + spec_dec_int(p.port as int))));
}

/// Interface-name derivation is stable: equal names derive equal
/// interface names.
pub proof fn lemma_interface_name_stable(a: Seq<char>, b: Seq<char>)
    requires
        a == b,
    ensures
        spec_interface_name(a) == spec_interface_name(b),
{
}

} // verus!
