//! The credentials file as the caller hands it over: a path below the home
//! directory, and a text that may or may not be an INI document.

use ini::Ini;
use vstd::prelude::*;

use crate::document::Sections;
use crate::ini_crate::{ini_sections, parsed_ini};

verus! {

/// Where the credentials file lies below the operator's home directory.
pub const CREDENTIALS_FILE: &'static str = ".aws/credentials";

/// The profile that holds the long-term credentials, unless the caller names
/// another.
pub const LONG_TERM_PROFILE: &'static str = "default-long-term";

/// The profile that takes the session credentials, unless the caller names
/// another.
pub const DEFAULT_PROFILE: &'static str = "default";

/// The text without the byte-order mark that some editors put at the start of
/// a file.
pub open spec fn without_bom(text: Seq<char>) -> Seq<char> {
    if text.len() > 0 && text.first() == '\u{feff}' {
        text.drop_first()
    } else {
        text
    }
}

/// What a file holds, as a sequence of characters; `None` where there is no
/// file to read.
pub open spec fn content_view(content: Option<&str>) -> Option<Seq<char>> {
    match content {
        Some(text) => Some(text@),
        None => None,
    }
}

/// The document in a file: what the text parses to once a byte-order mark at
/// its start is set aside. `None` where the file is missing or its text is no
/// INI document.
pub open spec fn document_of(content: Option<Seq<char>>) -> Option<Sections> {
    match content {
        Some(text) => parsed_ini(without_bom(text)),
        None => None,
    }
}

/// The path of the credentials file for a given home directory.
pub fn credentials_path(home: &str) -> (path: String)
    ensures
        path@ == home@ + "/"@ + ".aws/credentials"@,
{
    String::from_str(home).concat("/").concat(CREDENTIALS_FILE)
}

/// Drops a byte-order mark from the start of a text.
pub fn strip_bom(text: &str) -> (rest: &str)
    ensures
        rest@ == without_bom(text@),
{
    let length = text.unicode_len();
    if length > 0 && text.get_char(0) == '\u{feff}' {
        proof {
            assert(text@.drop_first() =~= text@.subrange(1, length as int));
        }
        text.substring_char(1, length)
    } else {
        text
    }
}

/// Parses the text of the credentials file.
pub fn load_document(content: Option<&str>) -> (loaded: Option<Ini>)
    ensures
        match loaded {
            Some(ini) => document_of(content_view(content)) == Some(ini_sections(ini)),
            None => document_of(content_view(content)) is None,
        },
{
    match content {
        Some(text) => match Ini::load_from_str(strip_bom(text)) {
            Ok(ini) => Some(ini),
            Err(_) => None,
        },
        None => None,
    }
}

} // verus!
