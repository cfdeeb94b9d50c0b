use vstd::prelude::*;

verus! {

/// Declares `toml::Value` so that a value this library does not look into
/// (a float or a date-time) can be carried through unchanged.
#[verifier::external_type_specification]
#[verifier::external_body]
pub struct ExTomlValue(toml::Value);

/// Declares `toml::de::Error`, the error of a failed TOML parse.
#[verifier::external_type_specification]
#[verifier::external_body]
pub struct ExTomlDeError(toml::de::Error);

/// A claim value: the shapes a TOML value can take.
#[derive(Debug, PartialEq)]
pub enum ClaimValue {
    String(String),
    Integer(i64),
    Boolean(bool),
    Array(Vec<ClaimValue>),
    /// A table, as its entries in order.
    Table(Vec<(String, ClaimValue)>),
    /// A float or a date-time, kept as the parser produced it.
    Opaque(toml::Value),
}

/// The entries of the top-level table that TOML text parses to, or `None`
/// where the text is not a TOML document.
pub uninterp spec fn toml_table_of(text: Seq<char>) -> Option<Seq<(String, ClaimValue)>>;

/// Moves a parsed `toml::Value` into the variant of [`ClaimValue`] that has its shape.
#[verifier::external_body]
fn from_toml(v: toml::Value) -> ClaimValue {
    match v {
        toml::Value::String(s) => ClaimValue::String(s),
        toml::Value::Integer(i) => ClaimValue::Integer(i),
        toml::Value::Boolean(b) => ClaimValue::Boolean(b),
        toml::Value::Array(a) => ClaimValue::Array(a.into_iter().map(from_toml).collect()),
        toml::Value::Table(t) => ClaimValue::Table(t.into_iter().map(|(k, x)| (k, from_toml(x))).collect()),
        other => ClaimValue::Opaque(other),
    }
}

/// Moves a [`ClaimValue`] back into the `toml::Value` variant that has its shape.
#[verifier::external_body]
pub(crate) fn to_toml(v: &ClaimValue) -> toml::Value {
    match v {
        ClaimValue::String(s) => toml::Value::String(s.clone()),
        ClaimValue::Integer(i) => toml::Value::Integer(*i),
        ClaimValue::Boolean(b) => toml::Value::Boolean(*b),
        ClaimValue::Array(a) => toml::Value::Array(a.iter().map(to_toml).collect()),
        ClaimValue::Table(t) => toml::Value::Table(t.iter().map(|(k, x)| (k.clone(), to_toml(x))).collect()),
        ClaimValue::Opaque(o) => o.clone(),
    }
}

/// Relies on `toml::from_str` read as a `toml::Table`: whether the text parses,
/// and to which entries, depends on the text alone.
#[verifier::external_body]
pub(crate) fn parse_toml(text: &str) -> (r: Result<Vec<(String, ClaimValue)>, toml::de::Error>)
    ensures
        r is Ok <==> toml_table_of(text@) is Some,
        r matches Ok(t) ==> toml_table_of(text@) == Some(t@),
{
    toml::from_str::<toml::Table>(text).map(|t| t.into_iter().map(|(k, x)| (k, from_toml(x))).collect())
}

/// Relies on the `Display` text of `toml::de::Error`, its diagnostic.
#[verifier::external_body]
pub(crate) fn toml_error_text(e: &toml::de::Error) -> String {
    e.to_string()
}

/// The value stored under the first entry whose key is `key`.
pub open spec fn lookup(entries: Seq<(String, ClaimValue)>, key: Seq<char>) -> Option<ClaimValue>
    decreases entries.len(),
{
    if entries.len() == 0 {
        None
    } else if entries[0].0@ == key {
        Some(entries[0].1)
    } else {
        lookup(entries.drop_first(), key)
    }
}

/// Skipping entries whose keys differ from `key` does not change the lookup.
proof fn lemma_lookup_skip(entries: Seq<(String, ClaimValue)>, key: Seq<char>, i: int)
    requires
        0 <= i <= entries.len(),
        forall|j: int| 0 <= j < i ==> entries[j].0@ != key,
    ensures
        lookup(entries, key) == lookup(entries.skip(i), key),
    decreases i,
{
    if i > 0 {
        assert(entries.skip(1) == entries.drop_first());
        lemma_lookup_skip(entries.drop_first(), key, i - 1);
        assert(entries.drop_first().skip(i - 1) == entries.skip(i));
    } else {
        assert(entries.skip(0) == entries);
    }
}

/// Removing an entry under another key does not change the lookup of `key`.
pub proof fn lemma_lookup_remove(entries: Seq<(String, ClaimValue)>, key: Seq<char>, i: int)
    requires
        0 <= i < entries.len(),
        entries[i].0@ != key,
    ensures
        lookup(entries.remove(i), key) == lookup(entries, key),
    decreases i,
{
    if i > 0 {
        lemma_lookup_remove(entries.drop_first(), key, i - 1);
        assert(entries.remove(i).drop_first() == entries.drop_first().remove(i - 1));
    } else {
        assert(entries.remove(0) == entries.drop_first());
    }
}

/// The position of the first entry whose key is `key`.
pub fn find_key(entries: &Vec<(String, ClaimValue)>, key: &String) -> (r: Option<usize>)
    ensures
        r is None ==> lookup(entries@, key@) is None,
        r matches Some(i) ==> i < entries.len() && entries@[i as int].0@ == key@
            && lookup(entries@, key@) == Some(entries@[i as int].1),
{
    let mut i: usize = 0;
    while i < entries.len()
        invariant
            i <= entries.len(),
            forall|j: int| 0 <= j < i ==> entries@[j].0@ != key@,
        decreases entries.len() - i,
    {
        if entries[i].0 == *key {
            proof {
                lemma_lookup_skip(entries@, key@, i as int);
            }
            return Some(i);
        }
        i = i + 1;
    }
    proof {
        lemma_lookup_skip(entries@, key@, i as int);
    }
    None
}

} // verus!
