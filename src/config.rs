use vstd::prelude::*;
use crate::error::JwtError;
use crate::value::{find_key, lemma_lookup_remove, lookup, parse_toml, toml_error_text, toml_table_of, ClaimValue};

verus! {

/// The `[secretkey]` table of the configuration.
#[derive(Debug, PartialEq)]
pub struct SecretKey {
    /// The signing secret, used as raw key bytes.
    pub value: String,
}

/// The configuration: the claims to sign and the secret to sign them with.
#[derive(Debug, PartialEq)]
pub struct Outer {
    /// The entries of the `[payload]` table, in the order the parser gives them.
    pub payload: Vec<(String, ClaimValue)>,
    pub secretkey: SecretKey,
}

/// The entries of the `payload` table of a document, where it is a table.
pub open spec fn claims_in(root: Seq<(String, ClaimValue)>) -> Option<Vec<(String, ClaimValue)>> {
    match lookup(root, "payload"@) {
        Some(ClaimValue::Table(p)) => Some(p),
        _ => None,
    }
}

/// The string under `value` in the `secretkey` table of a document, where
/// both are there with those shapes.
pub open spec fn secret_in(root: Seq<(String, ClaimValue)>) -> Option<String> {
    match lookup(root, "secretkey"@) {
        Some(ClaimValue::Table(s)) => match lookup(s@, "value"@) {
            Some(ClaimValue::String(v)) => Some(v),
            _ => None,
        },
        _ => None,
    }
}

/// `r` is what taking the configuration out of the document `root` gives:
/// the claims and the secret where both are there, else a parse error.
pub open spec fn extracted(root: Seq<(String, ClaimValue)>, r: Result<Outer, JwtError>) -> bool {
    match r {
        Ok(c) => claims_in(root) == Some(c.payload) && secret_in(root) == Some(c.secretkey.value),
        Err(e) => (claims_in(root) is None || secret_in(root) is None) && e is TomlErr,
    }
}

/// `r` is what loading the configuration from `text` gives.
pub open spec fn loaded(text: Seq<char>, r: Result<Outer, JwtError>) -> bool {
    match toml_table_of(text) {
        None => r matches Err(e) && e is TomlErr,
        Some(root) => extracted(root, r),
    }
}

/// Loading fails with a parse error where the document has no `payload`
/// entry, no `secretkey` entry, or a `secretkey` table without `value`.
pub proof fn lemma_missing_keys_are_parse_errors(text: Seq<char>, r: Result<Outer, JwtError>)
    requires
        loaded(text, r),
        toml_table_of(text) matches Some(root) && (
            lookup(root, "payload"@) is None
            || lookup(root, "secretkey"@) is None
            || (lookup(root, "secretkey"@) matches Some(ClaimValue::Table(s)) && lookup(s@, "value"@) is None)
        ),
    ensures
        r matches Err(e) && e is TomlErr,
{
}

/// Takes the entry under `key` out of `entries`, if there is one.
fn take_entry(entries: &mut Vec<(String, ClaimValue)>, key: &str) -> (r: Option<ClaimValue>)
    ensures
        r == lookup(old(entries)@, key@),
        forall|k: Seq<char>| k != key@ ==> lookup(final(entries)@, k) == lookup(old(entries)@, k),
{
    let k = key.to_owned();
    match find_key(entries, &k) {
        Some(i) => {
            let ghost before = entries@;
            let (_, v) = entries.remove(i);
            proof {
                assert forall|k: Seq<char>| k != key@ implies lookup(entries@, k) == lookup(before, k) by {
                    lemma_lookup_remove(before, k, i as int);
                }
            }
            Some(v)
        },
        None => None,
    }
}

/// Takes the claims and the secret out of a parsed document: the entries of
/// its `payload` table and the string `secretkey.value`.
pub fn config_from_table(root: Vec<(String, ClaimValue)>) -> (r: Result<Outer, JwtError>)
    ensures
        extracted(root@, r),
{
    let mut root = root;
    let ghost doc = root@;
    let payload = match take_entry(&mut root, "payload") {
        Some(ClaimValue::Table(p)) => p,
        _ => return Err(JwtError::TomlErr("`payload` is missing or not a table".to_owned())),
    };
    proof {
        reveal_strlit("payload");
        reveal_strlit("secretkey");
        assert("payload"@[0] != "secretkey"@[0]);
        assert(lookup(root@, "secretkey"@) == lookup(doc, "secretkey"@));
    }
    let section = take_entry(&mut root, "secretkey");
    let mut entries = match section {
        Some(ClaimValue::Table(s)) => s,
        _ => return Err(JwtError::TomlErr("`secretkey` is missing or not a table".to_owned())),
    };
    let value = match take_entry(&mut entries, "value") {
        Some(ClaimValue::String(v)) => v,
        _ => return Err(JwtError::TomlErr("`secretkey.value` is missing or not a string".to_owned())),
    };
    Ok(Outer { payload, secretkey: SecretKey { value } })
}

/// Loads the configuration from the text of a configuration file: parses it
/// as TOML, then takes out the claims and the secret.
pub fn parse_config(text: &str) -> (r: Result<Outer, JwtError>)
    ensures
        loaded(text@, r),
{
    match parse_toml(text) {
        Ok(root) => config_from_table(root),
        Err(e) => Err(JwtError::TomlErr(toml_error_text(&e))),
    }
}

/// Loads the configuration from the outcome of reading its file: the text,
/// or the diagnostic of a failed read, which becomes a `ReadFileErr`.
pub fn read_file(contents: Result<String, String>) -> (r: Result<Outer, JwtError>)
    ensures
        contents matches Err(m) ==> r == Err::<Outer, JwtError>(JwtError::ReadFileErr(m)),
        contents matches Ok(text) ==> loaded(text@, r),
{
    match contents {
        Ok(text) => parse_config(text.as_str()),
        Err(m) => Err(JwtError::ReadFileErr(m)),
    }
}

} // verus!
