use vstd::prelude::*;
use crate::json_ext::opt_keys_view;
use crate::text::opt_view;

verus! {

/// Whether a text parses as a TOML document. A function of the text
/// alone.
pub uninterp spec fn toml_valid(s: Seq<char>) -> bool;

/// The string three table levels down in a TOML document, or nothing
/// when the text does not parse, a key on the path is absent or the
/// value there is no string. A function of the text and the keys
/// alone.
pub uninterp spec fn toml_str_at(s: Seq<char>, k1: Seq<char>, k2: Seq<char>, k3: Seq<char>) -> Option<
    Seq<char>,
>;

/// The keys, in order, of the table three levels down in a TOML
/// document, or nothing when the text does not parse, a key on the
/// path is absent or the value there is no table. A function of the
/// text and the keys alone.
pub uninterp spec fn toml_table_keys_at(
    s: Seq<char>,
    k1: Seq<char>,
    k2: Seq<char>,
    k3: Seq<char>,
) -> Option<Seq<Seq<char>>>;

/// Relies on toml's `FromStr` impl for `Value`: whether the text is a
/// valid TOML document.
#[verifier::external_body]
pub(crate) fn toml_is_valid(s: &str) -> (r: bool)
    ensures
        r == toml_valid(s@),
{
    s.parse::<toml::Value>().is_ok()
}

/// Relies on toml's `FromStr` impl for `Value`, `Value::get` and
/// `Value::as_str`: reads the string under the three given keys.
#[verifier::external_body]
pub(crate) fn toml_string_at(s: &str, k1: &str, k2: &str, k3: &str) -> (r: Option<String>)
    ensures
        opt_view(r) == toml_str_at(s@, k1@, k2@, k3@),
{
    s.parse::<toml::Value>().ok().and_then(
        |v| v.get(k1).and_then(|a| a.get(k2)).and_then(|b| b.get(k3)).and_then(
            |d| d.as_str(),
        ).map(|x| x.to_string()),
    )
}

/// Relies on toml's `FromStr` impl for `Value`, `Value::get` and
/// `Value::as_table`, with the table's iterator: reads the key list of
/// the table under the three given keys.
#[verifier::external_body]
pub(crate) fn toml_table_keys(s: &str, k1: &str, k2: &str, k3: &str) -> (r: Option<Vec<String>>)
    ensures
        opt_keys_view(r) == toml_table_keys_at(s@, k1@, k2@, k3@),
{
    s.parse::<toml::Value>().ok().and_then(
        |v| v.get(k1).and_then(|a| a.get(k2)).and_then(|b| b.get(k3)).and_then(
            |d| d.as_table(),
        ).map(|m| m.iter().map(|p| p.0.clone()).collect()),
    )
}

} // verus!
