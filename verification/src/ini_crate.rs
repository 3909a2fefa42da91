//! The boundary to the `ini` crate, which parses and writes the credentials
//! file.
//!
//! Nothing in this file is proved. Each item states, over the model of
//! [`crate::document`], what the `ini` crate is relied on to do; every proof in
//! the other modules rests on these statements.

use ini::{EscapePolicy, Ini, LineSeparator, ParseError, Properties, WriteOption};
use vstd::prelude::*;

use crate::document::{first_value, has_section, section_entries, set_in};

verus! {

/// `ini::Ini`: a parsed document. Opaque here; see [`ini_sections`].
#[verifier::external_type_specification]
#[verifier::external_body]
pub struct ExIni(Ini);

/// `ini::Properties`: the entries of one section. Opaque here; see
/// [`properties_entries`].
#[verifier::external_type_specification]
#[verifier::external_body]
pub struct ExProperties(Properties);

/// `ini::ParseError`: why a text is not an INI document. Opaque here.
#[verifier::external_type_specification]
#[verifier::external_body]
pub struct ExParseError(ParseError);

/// The sections that an `Ini` holds, in the order in which it iterates over
/// them and writes them out.
pub uninterp spec fn ini_sections(ini: Ini) -> Seq<(Option<Seq<char>>, Seq<(Seq<char>, Seq<char>)>)>;

/// The entries that a `Properties` holds, in the order in which it iterates
/// over them and writes them out.
pub uninterp spec fn properties_entries(properties: Properties) -> Seq<(Seq<char>, Seq<char>)>;

/// The sections that `Ini::load_from_str` reads from a text, or `None` where it
/// rejects the text.
pub uninterp spec fn parsed_ini(text: Seq<char>) -> Option<
    Seq<(Option<Seq<char>>, Seq<(Seq<char>, Seq<char>)>)>,
>;

/// The bytes that `Ini::write_to_opt` writes for a document with the given
/// sections, with basic escaping, `=` between key and value and a line feed
/// after each line.
pub uninterp spec fn rendered_ini(
    sections: Seq<(Option<Seq<char>>, Seq<(Seq<char>, Seq<char>)>)>,
) -> Seq<u8>;

/// `Ini::load_from_str` parses with the crate's default options. It is a
/// function of the text alone: the same text is always accepted or always
/// rejected, and an accepted text always gives the same sections.
pub assume_specification[ Ini::load_from_str ](buf: &str) -> (loaded: Result<Ini, ParseError>)
    ensures
        match loaded {
            Ok(ini) => parsed_ini(buf@) == Some(ini_sections(ini)),
            Err(_) => parsed_ini(buf@) is None,
        },
;

/// `Ini::section` with `Some(name)`: the earliest section of that name, or
/// `None` when the document has no section of that name.
#[verifier::external_body]
pub(crate) fn ini_section<'a>(ini: &'a Ini, name: &str) -> (found: Option<&'a Properties>)
    ensures
        match found {
            Some(properties) => has_section(ini_sections(*ini), name@) && properties_entries(
                *properties,
            ) == section_entries(ini_sections(*ini), name@),
            None => !has_section(ini_sections(*ini), name@),
        },
{
    ini.section(Some(name))
}

/// `Properties::get`: the value of the earliest entry with that key, or `None`
/// when no entry has it.
#[verifier::external_body]
pub(crate) fn properties_get<'a>(properties: &'a Properties, key: &str) -> (found: Option<&'a str>)
    ensures
        match found {
            Some(value) => first_value(properties_entries(*properties), key@) == Some(value@),
            None => first_value(properties_entries(*properties), key@) is None,
        },
{
    properties.get(key)
}

/// `Ini::set_to` with `Some(section)`: sets the key in the earliest section of
/// that name, which it first adds after all the others when there is none. In
/// that section every earlier entry with the key is removed and the new entry
/// goes last; nothing else in the document changes.
#[verifier::external_body]
pub(crate) fn ini_set(ini: &mut Ini, section: &str, key: &str, value: &str)
    ensures
        ini_sections(*final(ini)) == set_in(ini_sections(*old(ini)), section@, key@, value@),
{
    ini.set_to(Some(section), key.to_string(), value.to_string());
}

/// `Ini::write_to_opt` into a byte vector, with basic escaping, `=` between
/// key and value and a line feed after each line. Writing into a vector cannot
/// fail, and what is written depends on the sections alone.
#[verifier::external_body]
pub(crate) fn ini_render(ini: &Ini) -> (text: Vec<u8>)
    ensures
        text@ == rendered_ini(ini_sections(*ini)),
{
    let mut text = Vec::new();
    let options = WriteOption {
        escape_policy: EscapePolicy::Basics,
        line_separator: LineSeparator::CR,
        kv_separator: "=",
    };
    let _ = ini.write_to_opt(&mut text, options);
    text
}

} // verus!
