//! Named key-pair identities: the private and public records, their JSON
//! file rendering, and the persistence plan that refuses to overwrite an
//! existing identity.

use vstd::prelude::*;

use crate::text::{json_escape, spec_join_path, spec_json_escape};

verus! {

/// Failures of identity generation and persistence.
#[derive(Debug)]
pub enum IdError {
    /// A target identity file already exists; persisting again is refused.
    KeyFileExists(String),
}

/// A private identity: a name and its secret key material.
#[derive(Debug)]
pub struct PrivId {
    pub name: String,
    pub private_key: String,
}

/// A public identity: a name and the public key derived from the secret.
#[derive(Debug)]
pub struct PubId {
    pub name: String,
    pub public_key: String,
}

/// The two files that persist one identity: paths and full contents.
/// The caller writes each file with owner-only permissions.
#[derive(Debug)]
pub struct IdFilePlan {
    pub pub_path: String,
    pub priv_path: String,
    pub pub_contents: String,
    pub priv_contents: String,
}

/// The JSON rendering of one identity record: a two-field object with
/// the name first, pretty-printed with two-space indentation and closed
/// by a newline.
pub open spec fn spec_id_json(name: Seq<char>, key_field: Seq<char>, key: Seq<char>) -> Seq<char> {
    "{\n  \"name\": \""@ + spec_json_escape(name) + "\",\n  \""@ + key_field + "\": \""@
        + spec_json_escape(key) + "\"\n}\n"@
}

fn render_id_json(name: &String, key_field: &str, key: &String) -> (r: String)
    ensures
        r@ == spec_id_json(name@, key_field@, key@),
{
    let mut s = String::from_str("{\n  \"name\": \"");
    let escaped_name = json_escape(name);
    s.append(escaped_name.as_str());
    s.append("\",\n  \"");
    s.append(key_field);
    s.append("\": \"");
    let escaped_key = json_escape(key);
    s.append(escaped_key.as_str());
    s.append("\"\n}\n");
    proof {
        assert(s@ =~= spec_id_json(name@, key_field@, key@));
    }
    s
}

/// The conventional file name of the public identity record.
pub open spec fn spec_pub_id_file(name: Seq<char>) -> Seq<char> {
    name + "_public_id.json"@
}

/// The conventional file name of the private identity record.
pub open spec fn spec_priv_id_file(name: Seq<char>) -> Seq<char> {
    name + "_private_id.json"@
}

/// Plans the persistence of a freshly generated identity pair.  The two
/// target paths follow the naming convention under `out_dir`; creation
/// fails closed with `KeyFileExists` if either target already exists
/// (`pub_id_file_exists` / `priv_id_file_exists` report that), and an
/// `Err` carries no plan, so a refused call writes and modifies nothing.
/// Persisting the same name into the same directory twice therefore
/// fails the second time.
pub fn gen_id_files(
    name: &String,
    out_dir: &String,
    priv_key: &String,
    pub_key: &String,
    pub_id_file_exists: bool,
    priv_id_file_exists: bool,
) -> (r: Result<IdFilePlan, IdError>)
    ensures
        (pub_id_file_exists || priv_id_file_exists) <==> r is Err,
        r matches Err(e) ==> e is KeyFileExists,
        r matches Ok(p) ==> {
            &&& p.pub_path@ == spec_join_path(out_dir@, spec_pub_id_file(name@))
            &&& p.priv_path@ == spec_join_path(out_dir@, spec_priv_id_file(name@))
            &&& p.pub_contents@ == spec_id_json(name@, "public_key"@, pub_key@)
            &&& p.priv_contents@ == spec_id_json(name@, "private_key"@, priv_key@)
        },
{
    if pub_id_file_exists || priv_id_file_exists {
        Err(IdError::KeyFileExists(String::from_str(
            "quitting; will not overwrite existing ID files",
        )))
    } else {
        let mut pub_file = crate::text::clone_string(name);
        pub_file.append("_public_id.json");
        let mut priv_file = crate::text::clone_string(name);
        priv_file.append("_private_id.json");
        let pub_path = crate::text::join_path(out_dir, &pub_file);
        let priv_path = crate::text::join_path(out_dir, &priv_file);
        let pub_contents = render_id_json(name, "public_key", pub_key);
        let priv_contents = render_id_json(name, "private_key", priv_key);
        Ok(IdFilePlan { pub_path, priv_path, pub_contents, priv_contents })
    }
}

} // verus!
