//! Configuration storage built on the `ini` crate.
//!
//! A configuration is modelled as a map from section names to maps from
//! keys to values: for each name, the first section carrying it, and for
//! each key, its first value, which is all the surrounding code ever reads
//! or writes.

use vstd::prelude::*;

verus! {

#[verifier::external_type_specification]
#[verifier::external_body]
pub struct ExIni(ini::Ini);

#[verifier::external_type_specification]
#[verifier::external_body]
pub struct ExIniParseError(ini::ParseError);

/// The named sections of a configuration, each as a key-to-value map.
pub uninterp spec fn ini_sections(c: ini::Ini) -> Map<Seq<char>, Map<Seq<char>, Seq<char>>>;

/// The sections that parsing a piece of INI text yields, when parsing
/// succeeds; they depend on the text alone.
pub uninterp spec fn ini_doc(s: Seq<char>) -> Map<Seq<char>, Map<Seq<char>, Seq<char>>>;

/// Whether a piece of INI text parses at all; it depends on the text
/// alone.
pub uninterp spec fn ini_parse_ok(s: Seq<char>) -> bool;

/// The INI text that serializing a configuration yields; it depends on the
/// configuration value alone.
pub uninterp spec fn ini_text(c: ini::Ini) -> Seq<char>;

/// `m` with `value` stored under `key` in section `section`, the section
/// being created when missing.
pub open spec fn spec_ini_insert(
    m: Map<Seq<char>, Map<Seq<char>, Seq<char>>>,
    section: Seq<char>,
    key: Seq<char>,
    value: Seq<char>,
) -> Map<Seq<char>, Map<Seq<char>, Seq<char>>> {
    let props = if m.contains_key(section) {
        m[section]
    } else {
        Map::empty()
    };
    m.insert(section, props.insert(key, value))
}

/// The value under `key` in section `section` of `m`, or the empty string
/// when the section or the key is missing.
pub open spec fn spec_ini_value(
    m: Map<Seq<char>, Map<Seq<char>, Seq<char>>>,
    section: Seq<char>,
    key: Seq<char>,
) -> Seq<char> {
    if m.contains_key(section) && m[section].contains_key(key) {
        m[section][key]
    } else {
        Seq::empty()
    }
}

/// Failure to read stored configuration text.
#[derive(Clone, Copy, Debug, PartialEq, Eq, Structural)]
pub enum ConfigError {
    Unparsable,
}

impl ConfigError {
    /// A human-readable description of the failure.
    pub fn message(&self) -> (r: String)
        ensures
            r@ == "Could not parse the configuration file!"@,
    {
        String::from_str("Could not parse the configuration file!")
    }
}

/// The sections of a configuration that holds nothing.
pub open spec fn spec_no_sections() -> Map<Seq<char>, Map<Seq<char>, Seq<char>>> {
    Map::empty()
}

/// Relies on ini::Ini::new: a fresh configuration holds no named section.
#[verifier::external_body]
pub fn ini_empty() -> (r: ini::Ini)
    ensures
        ini_sections(r) == spec_no_sections(),
{
    ini::Ini::new()
}

/// Relies on ini::Ini::get_from: the first value under `key` in the first
/// section named `section`, or nothing when either is missing.
#[verifier::external_body]
pub fn ini_get(c: &ini::Ini, section: &str, key: &str) -> (r: Option<String>)
    ensures
        match r {
            Some(v) => ini_sections(*c).contains_key(section@) && ini_sections(
                *c,
            )[section@].contains_key(key@) && v@ == ini_sections(*c)[section@][key@],
            None => !(ini_sections(*c).contains_key(section@) && ini_sections(
                *c,
            )[section@].contains_key(key@)),
        },
{
    c.get_from(Some(section), key).map(|v| v.to_string())
}

/// Relies on ini::Ini::set_to: replaces the values under `key` in the first
/// section named `section` with `value`, creating the section when missing.
#[verifier::external_body]
pub fn ini_set(c: &mut ini::Ini, section: &str, key: &str, value: &str)
    ensures
        ini_sections(*final(c)) == spec_ini_insert(
            ini_sections(*old(c)),
            section@,
            key@,
            value@,
        ),
{
    c.set_to(Some(section), key.to_string(), value.to_string());
}

/// Relies on ini::Ini::load_from_str: parses INI text; whether parsing
/// succeeds, and what a successful parse holds, depend on the text alone.
#[verifier::external_body]
pub fn ini_parse(text: &str) -> (r: Result<ini::Ini, ini::ParseError>)
    ensures
        r is Ok <==> ini_parse_ok(text@),
        r matches Ok(c) ==> ini_sections(c) == ini_doc(text@),
{
    ini::Ini::load_from_str(text)
}

/// Relies on ini::Ini::write_to: serializes the configuration; the text
/// depends on the configuration value alone. Writing into a byte vector
/// does not fail, and the escaped output stays valid UTF-8.
#[verifier::external_body]
pub fn ini_serialize(c: &ini::Ini) -> (r: String)
    ensures
        r@ == ini_text(*c),
{
    let mut buf: Vec<u8> = Vec::new();
    let _ = c.write_to(&mut buf);
    String::from_utf8(buf).unwrap_or_default()
}

} // verus!
