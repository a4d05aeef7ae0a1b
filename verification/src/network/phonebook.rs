//! The peer directory ("phonebook") and its resolution: a validated
//! mapping from peer name to private endpoint, obtained either from a
//! trusted source or by querying the bootstrap peers in declared order,
//! stopping at the first that delivers a parseable directory.

use vstd::prelude::*;

use crate::network::{NetworkError, PrivateEndpoint, PublicEndpoint};

verus! {

/// One phonebook entry: the directory key and the peer it names.
#[derive(Debug)]
pub struct PhonebookEntry {
    pub key: String,
    pub peer: PrivateEndpoint,
}

/// The peer directory: entries in insertion order, keys unique.
#[derive(Debug)]
pub struct Phonebook {
    pub entries: Vec<PhonebookEntry>,
}

/// A decoded JSON object of objects with string values: each pair is a
/// key and the field list of its object, in the order delivered.
pub type RawEntries = Vec<(String, Vec<(String, String)>)>;

/// The index of the first entry whose key is `name`, or `-1` if none.
pub open spec fn spec_find(entries: Seq<PhonebookEntry>, name: Seq<char>) -> int
    decreases entries.len(),
{
    if entries.len() == 0 {
        -1
    } else if entries[0].key@ == name {
        0
    } else {
        let r = spec_find(entries.drop_first(), name);
        if r < 0 {
            -1
        } else {
            r + 1
        }
    }
}

impl Phonebook {
    /// Keys are pairwise distinct.
    pub open spec fn wf(self) -> bool {
        forall|i: int, j: int| 0 <= i < j < self.entries@.len()
            ==> (#[trigger] self.entries@[i]).key@ != (#[trigger] self.entries@[j]).key@
    }

    /// Looks a peer up by its directory key.
    pub fn get(&self, name: &String) -> (r: Option<&PrivateEndpoint>)
        ensures
            spec_find(self.entries@, name@) >= 0 <==> r is Some,
            r matches Some(p) ==> *p == self.entries@[spec_find(self.entries@, name@)].peer,
    {
        let n = self.entries.len();
        proof {
            assert(self.entries@.skip(0) =~= self.entries@);
        }
        let mut i: usize = 0;
        while i < n
            invariant
                i <= n,
                n == self.entries@.len(),
                forall|k: int| 0 <= k < i ==> (#[trigger] self.entries@[k]).key@ != name@,
                spec_find(self.entries@, name@) == if spec_find(
                    self.entries@.skip(i as int),
                    name@,
                ) < 0 {
                    -1int
                } else {
                    spec_find(self.entries@.skip(i as int), name@) + i
                },
            decreases n - i,
        {
            proof {
                let rest = self.entries@.skip(i as int);
                assert(rest[0] == self.entries@[i as int]);
                assert(rest.drop_first() =~= self.entries@.skip(i as int + 1));
            }
            if self.entries[i].key.eq(name) {
                return Some(&self.entries[i].peer);
            }
            i += 1;
        }
        proof {
            assert(self.entries@.skip(n as int).len() == 0);
        }
        None
    }
}

/// The first field with this name, if any: the value delivered for it.
pub open spec fn spec_field(fields: Seq<(String, String)>, name: Seq<char>) -> Option<Seq<char>>
    decreases fields.len(),
{
    if fields.len() == 0 {
        None
    } else if fields[0].0@ == name {
        Some(fields[0].1@)
    } else {
        spec_field(fields.drop_first(), name)
    }
}

/// An object carries every field a private endpoint requires.
pub open spec fn spec_entry_complete(fields: Seq<(String, String)>) -> bool {
    &&& spec_field(fields, "name"@) is Some
    &&& spec_field(fields, "vpn_ip"@) is Some
    &&& spec_field(fields, "public_key"@) is Some
}

/// Every key of the raw entries is distinct from every other.
pub open spec fn spec_raw_keys_distinct(raw: Seq<(String, Vec<(String, String)>)>) -> bool {
    forall|i: int, j: int| 0 <= i < j < raw.len()
        ==> (#[trigger] raw[i]).0@ != (#[trigger] raw[j]).0@
}

/// The raw entries decode into a phonebook: every object complete, every
/// key distinct.
pub open spec fn spec_raw_decodes(raw: Seq<(String, Vec<(String, String)>)>) -> bool {
    &&& forall|i: int| 0 <= i < raw.len() ==> spec_entry_complete((#[trigger] raw[i]).1@)
    &&& spec_raw_keys_distinct(raw)
}

fn find_field(fields: &Vec<(String, String)>, name: &String) -> (r: Option<String>)
    ensures
        r is Some <==> spec_field(fields@, name@) is Some,
        r matches Some(v) ==> spec_field(fields@, name@) == Some(v@),
{
    let n = fields.len();
    proof {
        assert(fields@.skip(0) =~= fields@);
    }
    let mut i: usize = 0;
    while i < n
        invariant
            i <= n,
            n == fields@.len(),
            spec_field(fields@, name@) == spec_field(fields@.skip(i as int), name@),
        decreases n - i,
    {
        proof {
            let rest = fields@.skip(i as int);
            assert(rest[0] == fields@[i as int]);
            assert(rest.drop_first() =~= fields@.skip(i as int + 1));
        }
        if fields[i].0.eq(name) {
            return Some(crate::text::clone_string(&fields[i].1));
        }
        i += 1;
    }
    proof {
        assert(fields@.skip(n as int).len() == 0);
    }
    None
}

/// Validates decoded JSON against the phonebook schema: every entry must
/// carry the name, mesh address and public key of its peer, and keys must
/// be unique.  Entry order and, within an entry, the first delivered
/// value of each field are kept.
pub fn phonebook_from_entries(raw: &RawEntries) -> (r: Result<Phonebook, NetworkError>)
    ensures
        r is Ok <==> spec_raw_decodes(raw@),
        r matches Err(e) ==> e is MalformedPhonebook,
        r matches Ok(pb) ==> {
            &&& pb.wf()
            &&& pb.entries@.len() == raw@.len()
            &&& forall|i: int| 0 <= i < raw@.len() ==> {
                &&& (#[trigger] pb.entries@[i]).key@ == raw@[i].0@
                &&& Some(pb.entries@[i].peer.name@) == spec_field(raw@[i].1@, "name"@)
                &&& Some(pb.entries@[i].peer.vpn_ip@) == spec_field(raw@[i].1@, "vpn_ip"@)
                &&& Some(pb.entries@[i].peer.public_key@) == spec_field(raw@[i].1@, "public_key"@)
            }
        },
{
    let field_name = String::from_str("name");
    let field_vpn_ip = String::from_str("vpn_ip");
    let field_public_key = String::from_str("public_key");
    let n = raw.len();
    let mut entries: Vec<PhonebookEntry> = Vec::new();
    let mut i: usize = 0;
    while i < n
        invariant
            i <= n,
            n == raw@.len(),
            field_name@ == "name"@,
            field_vpn_ip@ == "vpn_ip"@,
            field_public_key@ == "public_key"@,
            entries@.len() == i,
            forall|k: int| 0 <= k < i ==> {
                &&& (#[trigger] entries@[k]).key@ == raw@[k].0@
                &&& Some(entries@[k].peer.name@) == spec_field(raw@[k].1@, "name"@)
                &&& Some(entries@[k].peer.vpn_ip@) == spec_field(raw@[k].1@, "vpn_ip"@)
                &&& Some(entries@[k].peer.public_key@) == spec_field(raw@[k].1@, "public_key"@)
            },
            forall|k: int| 0 <= k < i ==> spec_entry_complete((#[trigger] raw@[k]).1@),
            forall|k: int, l: int| 0 <= k < l < i
                ==> (#[trigger] raw@[k]).0@ != (#[trigger] raw@[l]).0@,
        decreases n - i,
    {
        let mut j: usize = 0;
        while j < i
            invariant
                j <= i,
                i < n,
                n == raw@.len(),
                forall|k: int| 0 <= k < j ==> (#[trigger] raw@[k]).0@ != raw@[i as int].0@,
            decreases i - j,
        {
            if raw[j].0.eq(&raw[i].0) {
                return Err(NetworkError::MalformedPhonebook(String::from_str(
                    "phonebook lists the same peer name twice",
                )));
            }
            j += 1;
        }
        let name = match find_field(&raw[i].1, &field_name) {
            Some(v) => v,
            None => {
                return Err(NetworkError::MalformedPhonebook(String::from_str(
                    "phonebook entry without a name",
                )));
            },
        };
        let vpn_ip = match find_field(&raw[i].1, &field_vpn_ip) {
            Some(v) => v,
            None => {
                return Err(NetworkError::MalformedPhonebook(String::from_str(
                    "phonebook entry without a vpn_ip",
                )));
            },
        };
        let public_key = match find_field(&raw[i].1, &field_public_key) {
            Some(v) => v,
            None => {
                return Err(NetworkError::MalformedPhonebook(String::from_str(
                    "phonebook entry without a public_key",
                )));
            },
        };
        let key = crate::text::clone_string(&raw[i].0);
        entries.push(PhonebookEntry { key, peer: PrivateEndpoint { name, vpn_ip, public_key } });
        i += 1;
    }
    Ok(Phonebook { entries })
}

/// The well-known path of the peer directory on a bootstrap peer.
pub open spec fn spec_phonebook_url(vpn_ip: Seq<char>) -> Seq<char> {
    "http://"@ + vpn_ip + "/phonebook.json"@
}

fn phonebook_url(vpn_ip: &String) -> (r: String)
    ensures
        r@ == spec_phonebook_url(vpn_ip@),
{
    let mut s = String::from_str("http://");
    s.append(vpn_ip.as_str());
    s.append("/phonebook.json");
    s
}

/// Relies on `ureq::get`, `Request::timeout`, `Request::call` and
/// `Response::into_json`: one bounded HTTP GET of `url`, its body decoded
/// as a JSON object of objects with string values.  Returns `None` on any
/// transport, status or decode failure; what comes back depends on the
/// network, so nothing more is promised of it than what the decoded
/// container guarantees: map keys are pairwise distinct (outer and inner).
#[verifier::external_body]
fn http_get_string_map(url: &String, timeout_secs: u64) -> (r: Option<RawEntries>)
    ensures
        r matches Some(v) ==> {
            &&& forall|i: int, j: int| 0 <= i < j < v@.len()
                ==> (#[trigger] v@[i]).0@ != (#[trigger] v@[j]).0@
            &&& forall|k: int| 0 <= k < v@.len() ==> spec_raw_keys_distinct_inner(
                (#[trigger] v@[k]).1@,
            )
        },
{
    let resp: std::collections::HashMap<String, std::collections::HashMap<String, String>> =
        ureq::get(url).timeout(std::time::Duration::from_secs(timeout_secs)).call().ok()?
            .into_json().ok()?;
    Some(resp.into_iter().map(|(k, v)| (k, v.into_iter().collect())).collect())
}

/// Field names within one decoded object are pairwise distinct.
pub open spec fn spec_raw_keys_distinct_inner(fields: Seq<(String, String)>) -> bool {
    forall|i: int, j: int| 0 <= i < j < fields.len()
        ==> (#[trigger] fields[i]).0@ != (#[trigger] fields[j]).0@
}

/// Queries the bootstrap peers for the phonebook, in declared order, one
/// bounded request each, stopping at the first that delivers a directory
/// that validates; with no peer, or none that delivers, the resolution is
/// exhausted and fails.  What each query returns depends on the network,
/// so the result is promised to be a well-formed phonebook or the
/// exhaustion error, and nothing in between; the scan itself is described
/// by `spec_first_success` and its laws.
pub fn curl_phonebook_list(list: &Vec<PublicEndpoint>, timeout: u64) -> (r: Result<
    Phonebook,
    NetworkError,
>)
    ensures
        r matches Ok(pb) ==> pb.wf(),
        list@.len() == 0 ==> r is Err,
        r matches Err(e) ==> e is CurlsFailed,
{
    let n = list.len();
    let mut i: usize = 0;
    while i < n
        invariant
            i <= n,
            n == list@.len(),
        decreases n - i,
    {
        let url = phonebook_url(&list[i].vpn_ip);
        match http_get_string_map(&url, timeout) {
            Some(raw) => {
                match phonebook_from_entries(&raw) {
                    Ok(pb) => {
                        return Ok(pb);
                    },
                    Err(_) => {},
                }
            },
            None => {},
        }
        i += 1;
    }
    Err(NetworkError::CurlsFailed(String::from_str(
        "all curl requests to /phonebook.json failed",
    )))
}

/// The index of the first successful outcome of an ordered scan, or `-1`
/// when every outcome failed.
pub open spec fn spec_first_success<T>(outcomes: Seq<Option<T>>) -> int
    decreases outcomes.len(),
{
    if outcomes.len() == 0 {
        -1
    } else if outcomes[0] is Some {
        0
    } else {
        let r = spec_first_success(outcomes.drop_first());
        if r < 0 {
            -1
        } else {
            r + 1
        }
    }
}

/// How many queries the ordered short-circuit scan issues over these
/// outcomes: everything up to and including the first success, or the
/// whole list when every query fails.
pub open spec fn spec_scan_queries<T>(outcomes: Seq<Option<T>>) -> int {
    if spec_first_success(outcomes) >= 0 {
        spec_first_success(outcomes) + 1
    } else {
        outcomes.len() as int
    }
}

/// Resolution over `n >= 1` peers issues at most `n` queries and stops at
/// the first success: with a success at index `i`, exactly `i + 1`
/// queries are issued, every earlier query failed, and every later peer
/// is left untried.
pub proof fn lemma_scan_short_circuit<T>(outcomes: Seq<Option<T>>)
    requires
        spec_first_success(outcomes) >= 0,
    ensures
        spec_first_success(outcomes) < outcomes.len(),
        outcomes[spec_first_success(outcomes)] is Some,
        forall|j: int| 0 <= j < spec_first_success(outcomes) ==> outcomes[j] is None,
        spec_scan_queries(outcomes) == spec_first_success(outcomes) + 1,
        spec_scan_queries(outcomes) <= outcomes.len(),
    decreases outcomes.len(),
{
    if outcomes.len() > 0 && outcomes[0] !is Some {
        lemma_scan_short_circuit(outcomes.drop_first());
        assert forall|j: int| 0 <= j < spec_first_success(outcomes) implies outcomes[j]
            is None by {
            if j > 0 {
                assert(outcomes.drop_first()[j - 1] == outcomes[j]);
            }
        }
    }
}

/// Resolution over an empty or all-failing list of outcomes is
/// exhausted: there is no first success, every query is issued, and no
/// partial or empty directory is taken for an answer.
pub proof fn lemma_scan_exhaustion<T>(outcomes: Seq<Option<T>>)
    requires
        forall|j: int| 0 <= j < outcomes.len() ==> #[trigger] outcomes[j] is None,
    ensures
        spec_first_success(outcomes) == -1,
        spec_scan_queries(outcomes) == outcomes.len(),
    decreases outcomes.len(),
{
    if outcomes.len() > 0 {
        assert(forall|j: int| 0 <= j < outcomes.drop_first().len()
            ==> #[trigger] outcomes.drop_first()[j] == outcomes[j + 1]);
        lemma_scan_exhaustion(outcomes.drop_first());
    }
}

} // verus!
