//! The per-user credentials store: a small JSON document with the script ID
//! and the auth key, kept outside the project so a reinstall keeps them.

use vstd::prelude::*;

verus! {

/// The string member `key` of the JSON object that `doc` holds: none where
/// `doc` is not JSON, is not an object, lacks `key`, or holds something
/// other than a string under it.
pub uninterp spec fn json_string_member(doc: Seq<char>, key: Seq<char>) -> Option<Seq<char>>;

/// The pretty-printed JSON text of an object with the string members
/// `k1: v1` and `k2: v2`.
pub uninterp spec fn pretty_json_object(
    k1: Seq<char>,
    v1: Seq<char>,
    k2: Seq<char>,
    v2: Seq<char>,
) -> Seq<char>;

/// Reads the string member `key` out of the JSON text `doc`.
///
/// Calls `serde_json::from_str::<serde_json::Value>`, then `Value::get` with
/// the key and `Value::as_str`: the result is named by `json_string_member`
/// and depends on the two texts alone. Nothing more is claimed of it.
#[verifier::external_body]
fn json_string_field(doc: &str, key: &str) -> (r: Option<String>)
    ensures
        match r {
            Some(s) => json_string_member(doc@, key@) == Some(s@),
            None => json_string_member(doc@, key@) is None,
        },
{
    let v: serde_json::Value = serde_json::from_str(doc).ok()?;
    v.get(key)?.as_str().map(|s| s.to_string())
}

/// Pretty-prints the JSON object `{k1: v1, k2: v2}`.
///
/// Builds a `serde_json::Map` with the two string members and calls
/// `serde_json::to_string_pretty` on it as a `Value::Object`. That call fails
/// only for a map with keys that are not strings or a `Serialize` impl that
/// fails, neither of which a `Value` holding strings has, so the result is
/// claimed to be there. Where the keys differ, reading either member back
/// out of the text gives its value: serde_json writes every string escaped
/// so that its parser reads the same string back.
#[verifier::external_body]
fn json_pretty_pair(k1: &str, v1: &str, k2: &str, v2: &str) -> (r: Option<String>)
    ensures
        r is Some,
        r matches Some(s) ==> s@ == pretty_json_object(k1@, v1@, k2@, v2@),
        r matches Some(s) ==> (k1@ != k2@ ==> json_string_member(s@, k1@) == Some(v1@)),
        r matches Some(s) ==> (k1@ != k2@ ==> json_string_member(s@, k2@) == Some(v2@)),
{
    let mut m = serde_json::Map::new();
    m.insert(k1.to_string(), serde_json::Value::String(v1.to_string()));
    m.insert(k2.to_string(), serde_json::Value::String(v2.to_string()));
    serde_json::to_string_pretty(&serde_json::Value::Object(m)).ok()
}

/// What the store holds: both members must be strings, and a store in which
/// both are empty counts as holding nothing.
pub open spec fn stored_pair(script_id: Option<Seq<char>>, auth_key: Option<Seq<char>>) -> Option<
    (Seq<char>, Seq<char>),
> {
    match (script_id, auth_key) {
        (Some(s), Some(a)) => if s.len() == 0 && a.len() == 0 {
            None
        } else {
            Some((s, a))
        },
        _ => None,
    }
}

/// The credentials that the JSON text `doc` holds.
pub open spec fn credentials_in(doc: Seq<char>) -> Option<(Seq<char>, Seq<char>)> {
    stored_pair(json_string_member(doc, "script_id"@), json_string_member(doc, "auth_key"@))
}

/// The credentials from the two members as read: none unless both are
/// there, and none where both are empty.
pub fn credentials_from_fields(script_id: Option<String>, auth_key: Option<String>) -> (r: Option<
    (String, String),
>)
    ensures
        match r {
            Some((s, a)) => stored_pair(
                match script_id {
                    Some(x) => Some(x@),
                    None => None,
                },
                match auth_key {
                    Some(x) => Some(x@),
                    None => None,
                },
            ) == Some((s@, a@)),
            None => stored_pair(
                match script_id {
                    Some(x) => Some(x@),
                    None => None,
                },
                match auth_key {
                    Some(x) => Some(x@),
                    None => None,
                },
            ) is None,
        },
{
    match (script_id, auth_key) {
        (Some(s), Some(a)) => {
            if s.as_str().unicode_len() == 0 && a.as_str().unicode_len() == 0 {
                None
            } else {
                Some((s, a))
            }
        },
        _ => None,
    }
}

/// Reads saved credentials out of the store's text; none where it is not a
/// JSON object with both as strings, or both are empty.
pub fn load_from_json(doc: &str) -> (r: Option<(String, String)>)
    ensures
        match r {
            Some((s, a)) => credentials_in(doc@) == Some((s@, a@)),
            None => credentials_in(doc@) is None,
        },
{
    let script_id = json_string_field(doc, "script_id");
    let auth_key = json_string_field(doc, "auth_key");
    credentials_from_fields(script_id, auth_key)
}

/// The store's text for the given credentials. Reading it back gives the
/// same credentials, unless both are empty, which reads back as nothing.
pub fn credentials_json(script_id: &str, auth_key: &str) -> (r: String)
    ensures
        r@ == pretty_json_object("script_id"@, script_id@, "auth_key"@, auth_key@),
        credentials_in(r@) == (if script_id@.len() == 0 && auth_key@.len() == 0 {
            None
        } else {
            Some((script_id@, auth_key@))
        }),
{
    proof {
        reveal_strlit("script_id");
        reveal_strlit("auth_key");
        assert("script_id"@.len() != "auth_key"@.len());
    }
    match json_pretty_pair("script_id", script_id, "auth_key", auth_key) {
        Some(s) => s,
        None => String::new(),
    }
}

} // verus!
