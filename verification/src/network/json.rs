//! The JSON rendering of a topology, as written to a per-user network
//! file: a pretty-printed object with two-space indentation, fields in
//! declaration order, strings escaped.

use vstd::prelude::*;

use crate::network::{Network, PublicEndpoint, UserEndpoint};
use crate::text::{
    dec_i64, dec_u64, json_escape, spec_dec_int, spec_dec_nat, spec_json_escape,
};

verus! {

/// A JSON string literal: the escaped text between double quotes.
pub open spec fn spec_json_string(s: Seq<char>) -> Seq<char> {
    "\""@ + spec_json_escape(s) + "\""@
}

/// The local user as a JSON object, indented one level deep; an absent
/// port renders as `null`.
pub open spec fn spec_user_json(u: UserEndpoint) -> Seq<char> {
    "{\n    \"name\": "@ + spec_json_string(u.name@) + ",\n    \"vpn_ip\": "@ + spec_json_string(
        u.vpn_ip@,
    ) + ",\n    \"port\": "@ + (match u.port {
        Some(p) => spec_dec_nat(p as nat),
        None => "null"@,
    }) + "\n  }"@
}

/// One bootstrap peer as a JSON object, indented two levels deep.
pub open spec fn spec_endpoint_json(e: PublicEndpoint) -> Seq<char> {
    "{\n      \"name\": "@ + spec_json_string(e.name@) + ",\n      \"vpn_ip\": "@
        + spec_json_string(e.vpn_ip@) + ",\n      \"public_hostname\": "@ + spec_json_string(
        e.public_hostname@,
    ) + ",\n      \"public_key\": "@ + spec_json_string(e.public_key@) + ",\n      \"port\": "@
        + spec_dec_int(e.port as int) + "\n    }"@
}

/// The bootstrap peers as comma-separated array items.
pub open spec fn spec_endpoint_items(peers: Seq<PublicEndpoint>) -> Seq<char>
    decreases peers.len(),
{
    if peers.len() == 0 {
        Seq::<char>::empty()
    } else if peers.len() == 1 {
        spec_endpoint_json(peers[0])
    } else {
        spec_endpoint_items(peers.drop_last()) + ",\n    "@ + spec_endpoint_json(peers.last())
    }
}

/// The bootstrap peers as a JSON array: `[]` when empty.
pub open spec fn spec_endpoints_json(peers: Seq<PublicEndpoint>) -> Seq<char> {
    if peers.len() == 0 {
        "[]"@
    } else {
        "[\n    "@ + spec_endpoint_items(peers) + "\n  ]"@
    }
}

/// A whole topology as a pretty-printed JSON object.
pub open spec fn spec_network_json(net: Network) -> Seq<char> {
    "{\n  \"name\": "@ + spec_json_string(net.name@) + ",\n  \"subnet\": "@ + spec_json_string(
        net.subnet@,
    ) + ",\n  \"user\": "@ + spec_user_json(net.user) + ",\n  \"public_endpoints\": "@
        + spec_endpoints_json(net.public_endpoints@) + "\n}"@
}

fn append_json_string(s: &mut String, v: &String)
    ensures
        final(s)@ == old(s)@ + spec_json_string(v@),
{
    s.append("\"");
    let escaped = json_escape(v);
    s.append(escaped.as_str());
    s.append("\"");
    proof {
        assert(s@ =~= old(s)@ + spec_json_string(v@));
    }
}

fn user_json(u: &UserEndpoint) -> (r: String)
    ensures
        r@ == spec_user_json(*u),
{
    let mut s = String::from_str("{\n    \"name\": ");
    append_json_string(&mut s, &u.name);
    s.append(",\n    \"vpn_ip\": ");
    append_json_string(&mut s, &u.vpn_ip);
    s.append(",\n    \"port\": ");
    match &u.port {
        Some(p) => {
            let d = dec_u64(*p);
            s.append(d.as_str());
        },
        None => {
            s.append("null");
        },
    }
    s.append("\n  }");
    proof {
        assert(s@ =~= spec_user_json(*u));
    }
    s
}

fn endpoint_json(e: &PublicEndpoint) -> (r: String)
    ensures
        r@ == spec_endpoint_json(*e),
{
    let mut s = String::from_str("{\n      \"name\": ");
    append_json_string(&mut s, &e.name);
    s.append(",\n      \"vpn_ip\": ");
    append_json_string(&mut s, &e.vpn_ip);
    s.append(",\n      \"public_hostname\": ");
    append_json_string(&mut s, &e.public_hostname);
    s.append(",\n      \"public_key\": ");
    append_json_string(&mut s, &e.public_key);
    s.append(",\n      \"port\": ");
    let d = dec_i64(e.port);
    s.append(d.as_str());
    s.append("\n    }");
    proof {
        assert(s@ =~= spec_endpoint_json(*e));
    }
    s
}

/// Renders a topology as the JSON text of a network file, exactly as the
/// per-user file derivation writes it (the caller closes the file with a
/// final newline).
pub fn render_network_json(net: &Network) -> (r: String)
    ensures
        r@ == spec_network_json(*net),
{
    let mut s = String::from_str("{\n  \"name\": ");
    append_json_string(&mut s, &net.name);
    s.append(",\n  \"subnet\": ");
    append_json_string(&mut s, &net.subnet);
    s.append(",\n  \"user\": ");
    let user = user_json(&net.user);
    s.append(user.as_str());
    s.append(",\n  \"public_endpoints\": ");
    if net.public_endpoints.len() == 0 {
        s.append("[]");
    } else {
        s.append("[\n    ");
        let mut i: usize = 0;
        let ghost head = s@;
        while i < net.public_endpoints.len()
            invariant
                i <= net.public_endpoints@.len(),
                s@ == head + spec_endpoint_items(net.public_endpoints@.take(i as int)),
            decreases net.public_endpoints@.len() - i,
        {
            if i > 0 {
                s.append(",\n    ");
            }
            let item = endpoint_json(&net.public_endpoints[i]);
            s.append(item.as_str());
            proof {
                let taken = net.public_endpoints@.take(i as int + 1);
                assert(taken.drop_last() =~= net.public_endpoints@.take(i as int));
                assert(taken.last() == net.public_endpoints@[i as int]);
                assert(s@ =~= head + spec_endpoint_items(taken));
            }
            i += 1;
        }
        proof {
            assert(net.public_endpoints@.take(net.public_endpoints@.len() as int)
                =~= net.public_endpoints@);
        }
        s.append("\n  ]");
    }
    s.append("\n}");
    proof {
        assert(s@ =~= spec_network_json(*net));
    }
    s
}

} // verus!
