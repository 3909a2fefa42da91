//! Writing session credentials into a profile of the credentials file.

use ini::Ini;
use vstd::prelude::*;

use crate::credentials::{SessionCredentials, SessionCredentialsView};
use crate::document::{
    first_value, has_key, has_section, lemma_first_value_push, lemma_merge_in_others,
    lemma_merge_in_places, lemma_merge_in_section, lemma_merge_in_twice, lemma_merge_lookup,
    lemma_set_after_merge, lemma_set_is_merge, lookup, merge_in, section_position, Entries,
    Sections,
};
use crate::error::{RefreshError, RefreshErrorView};
use crate::reader::session_in;
use crate::file::{content_view, document_of, load_document};
use crate::ini_crate::{ini_render, ini_sections, ini_set, rendered_ini};

verus! {

/// The entries that a refresh writes, in the order in which it writes them.
///
/// `assumed_role` is always `False`, and the session token is written a second
/// time as `aws_security_token`, for tools that still read the older key.
pub open spec fn session_entries(credentials: SessionCredentialsView) -> Entries {
    seq![
        ("assumed_role"@, "False"@),
        ("aws_access_key_id"@, credentials.access_key),
        ("aws_secret_access_key"@, credentials.secret_key),
        ("aws_session_token"@, credentials.session_token),
        ("aws_security_token"@, credentials.session_token),
        ("expiration"@, credentials.expiration),
    ]
}

/// The document after a refresh has written the credentials into `profile`.
///
/// The profile's section keeps every entry under another key, and its place in
/// the file; the six entries of the refresh follow them. A document without the
/// profile gets it as its last section. Every other section stays as it is.
pub open spec fn with_session(
    sections: Sections,
    profile: Seq<char>,
    credentials: SessionCredentialsView,
) -> Sections {
    merge_in(sections, profile, session_entries(credentials))
}

/// The document that replaces the credentials file, or `None` where the file
/// is missing or is not an INI document.
pub open spec fn updated_sections(
    content: Option<Seq<char>>,
    profile: Seq<char>,
    credentials: SessionCredentialsView,
) -> Option<Sections> {
    match document_of(content) {
        Some(sections) => Some(with_session(sections, profile, credentials)),
        None => None,
    }
}

/// The six keys of a refresh are six different keys.
pub proof fn lemma_session_keys_differ()
    ensures
        "assumed_role"@ != "aws_access_key_id"@,
        "assumed_role"@ != "aws_secret_access_key"@,
        "assumed_role"@ != "aws_session_token"@,
        "assumed_role"@ != "aws_security_token"@,
        "assumed_role"@ != "expiration"@,
        "aws_access_key_id"@ != "aws_secret_access_key"@,
        "aws_access_key_id"@ != "aws_session_token"@,
        "aws_access_key_id"@ != "aws_security_token"@,
        "aws_access_key_id"@ != "expiration"@,
        "aws_secret_access_key"@ != "aws_session_token"@,
        "aws_secret_access_key"@ != "aws_security_token"@,
        "aws_secret_access_key"@ != "expiration"@,
        "aws_session_token"@ != "aws_security_token"@,
        "aws_session_token"@ != "expiration"@,
        "aws_security_token"@ != "expiration"@,
{
    reveal_strlit("assumed_role");
    reveal_strlit("aws_access_key_id");
    reveal_strlit("aws_secret_access_key");
    reveal_strlit("aws_session_token");
    reveal_strlit("aws_security_token");
    reveal_strlit("expiration");
    assert("assumed_role"@.len() == 12);
    assert("aws_access_key_id"@.len() == 17);
    assert("aws_secret_access_key"@.len() == 21);
    assert("aws_session_token"@.len() == 17);
    assert("aws_security_token"@.len() == 18);
    assert("expiration"@.len() == 10);
    assert("aws_access_key_id"@[4] == 'a');
    assert("aws_session_token"@[4] == 's');
}

/// Whether a key is one of the six that a refresh writes.
pub open spec fn is_session_key(key: Seq<char>) -> bool {
    ||| key == "assumed_role"@
    ||| key == "aws_access_key_id"@
    ||| key == "aws_secret_access_key"@
    ||| key == "aws_session_token"@
    ||| key == "aws_security_token"@
    ||| key == "expiration"@
}

/// What a lookup finds among the entries that a refresh writes: under each of
/// the six keys its value, and nothing under any other key.
pub proof fn lemma_session_entries(credentials: SessionCredentialsView)
    ensures
        first_value(session_entries(credentials), "assumed_role"@) == Some("False"@),
        first_value(session_entries(credentials), "aws_access_key_id"@) == Some(
            credentials.access_key,
        ),
        first_value(session_entries(credentials), "aws_secret_access_key"@) == Some(
            credentials.secret_key,
        ),
        first_value(session_entries(credentials), "aws_session_token"@) == Some(
            credentials.session_token,
        ),
        first_value(session_entries(credentials), "aws_security_token"@) == Some(
            credentials.session_token,
        ),
        first_value(session_entries(credentials), "expiration"@) == Some(credentials.expiration),
        forall|key: Seq<char>| #[trigger]
            has_key(session_entries(credentials), key) == is_session_key(key),
{
    let e1 = ("assumed_role"@, "False"@);
    let e2 = ("aws_access_key_id"@, credentials.access_key);
    let e3 = ("aws_secret_access_key"@, credentials.secret_key);
    let e4 = ("aws_session_token"@, credentials.session_token);
    let e5 = ("aws_security_token"@, credentials.session_token);
    let e6 = ("expiration"@, credentials.expiration);
    let t0 = Seq::<(Seq<char>, Seq<char>)>::empty();
    let t1 = t0.push(e1);
    let t2 = t1.push(e2);
    let t3 = t2.push(e3);
    let t4 = t3.push(e4);
    let t5 = t4.push(e5);
    let t6 = t5.push(e6);
    lemma_session_keys_differ();
    assert(t6 =~= session_entries(credentials));
    assert forall|key: Seq<char>|
        first_value(t6, key) == if key == e1.0 {
            Some(e1.1)
        } else if key == e2.0 {
            Some(e2.1)
        } else if key == e3.0 {
            Some(e3.1)
        } else if key == e4.0 {
            Some(e4.1)
        } else if key == e5.0 {
            Some(e5.1)
        } else if key == e6.0 {
            Some(e6.1)
        } else {
            None
        } by {
        lemma_first_value_push(t0, e1, key);
        lemma_first_value_push(t1, e2, key);
        lemma_first_value_push(t2, e3, key);
        lemma_first_value_push(t3, e4, key);
        lemma_first_value_push(t4, e5, key);
        lemma_first_value_push(t5, e6, key);
    }
}

/// Sets the six entries of a refresh in the section `profile` of a parsed
/// credentials file: `assumed_role`, `aws_access_key_id`,
/// `aws_secret_access_key`, `aws_session_token`, `aws_security_token` and
/// `expiration`. The section is added when the file has none of that name.
pub fn store_session_credentials(ini: &mut Ini, profile: &str, credentials: &SessionCredentials)
    ensures
        ini_sections(*final(ini)) == with_session(
            ini_sections(*old(ini)),
            profile@,
            credentials@,
        ),
{
    let ghost before = ini_sections(*ini);
    let ghost name = profile@;
    let ghost view = credentials@;
    let ghost e1 = ("assumed_role"@, "False"@);
    let ghost e2 = ("aws_access_key_id"@, view.access_key);
    let ghost e3 = ("aws_secret_access_key"@, view.secret_key);
    let ghost e4 = ("aws_session_token"@, view.session_token);
    let ghost e5 = ("aws_security_token"@, view.session_token);
    let ghost e6 = ("expiration"@, view.expiration);
    let ghost t1: Entries = seq![e1];
    let ghost t2 = t1.push(e2);
    let ghost t3 = t2.push(e3);
    let ghost t4 = t3.push(e4);
    let ghost t5 = t4.push(e5);
    let ghost t6 = t5.push(e6);
    proof {
        lemma_session_keys_differ();
        assert(t1 =~= Seq::<(Seq<char>, Seq<char>)>::empty().push(e1));
        assert forall|key: Seq<char>| #[trigger] has_key(t1, key) == (key == e1.0) by {
            lemma_first_value_push(Seq::empty(), e1, key);
        }
        assert forall|key: Seq<char>| #[trigger]
            has_key(t2, key) == (has_key(t1, key) || key == e2.0) by {
            lemma_first_value_push(t1, e2, key);
        }
        assert forall|key: Seq<char>| #[trigger]
            has_key(t3, key) == (has_key(t2, key) || key == e3.0) by {
            lemma_first_value_push(t2, e3, key);
        }
        assert forall|key: Seq<char>| #[trigger]
            has_key(t4, key) == (has_key(t3, key) || key == e4.0) by {
            lemma_first_value_push(t3, e4, key);
        }
        assert forall|key: Seq<char>| #[trigger]
            has_key(t5, key) == (has_key(t4, key) || key == e5.0) by {
            lemma_first_value_push(t4, e5, key);
        }
    }

    ini_set(ini, profile, "assumed_role", "False");
    proof {
        lemma_set_is_merge(before, name, e1.0, e1.1);
    }
    ini_set(ini, profile, "aws_access_key_id", credentials.access_key.as_str());
    proof {
        lemma_set_after_merge(before, name, t1, e2.0, e2.1);
    }
    ini_set(ini, profile, "aws_secret_access_key", credentials.secret_key.as_str());
    proof {
        lemma_set_after_merge(before, name, t2, e3.0, e3.1);
    }
    ini_set(ini, profile, "aws_session_token", credentials.session_token.as_str());
    proof {
        lemma_set_after_merge(before, name, t3, e4.0, e4.1);
    }
    ini_set(ini, profile, "aws_security_token", credentials.session_token.as_str());
    proof {
        lemma_set_after_merge(before, name, t4, e5.0, e5.1);
    }
    ini_set(ini, profile, "expiration", credentials.expiration.as_str());
    proof {
        lemma_set_after_merge(before, name, t5, e6.0, e6.1);
        assert(t6 =~= session_entries(view));
    }
}

/// Computes what replaces the credentials file once a refresh has its session
/// credentials.
///
/// `content` is the text of the file as it stands, or `None` where it could not
/// be read. The result is the full new text of the file, as bytes: the old
/// document with the credentials written into `profile`, and everything else
/// kept. A file that is missing or is not an INI document gives `WriteFailed`,
/// and nothing to write.
pub fn update_credentials_file(
    content: Option<&str>,
    profile: &str,
    credentials: &SessionCredentials,
) -> (updated: Result<Vec<u8>, RefreshError>)
    ensures
        match updated_sections(content_view(content), profile@, credentials@) {
            Some(sections) => updated is Ok && updated->Ok_0@ == rendered_ini(sections),
            None => updated is Err && updated->Err_0@ == RefreshErrorView::WriteFailed,
        },
{
    match load_document(content) {
        Some(mut ini) => {
            store_session_credentials(&mut ini, profile, credentials);
            Ok(ini_render(&ini))
        },
        None => Err(RefreshError::WriteFailed),
    }
}

/// A refresh leaves every section of the file in its place and under its name,
/// and changes the content of none but the profile's: no section is dropped,
/// moved or rewritten on the way.
pub proof fn lemma_sections_stay(
    sections: Sections,
    profile: Seq<char>,
    credentials: SessionCredentialsView,
)
    ensures
        with_session(sections, profile, credentials).len() >= sections.len(),
        forall|i: int|
            0 <= i < sections.len() ==> (#[trigger] with_session(
                sections,
                profile,
                credentials,
            )[i]).0 == sections[i].0,
        forall|i: int|
            0 <= i < sections.len() && section_position(sections, profile) != Some(i)
                ==> #[trigger] with_session(sections, profile, credentials)[i] == sections[i],
{
    lemma_merge_in_places(sections, profile, session_entries(credentials));
}

/// After a refresh a reader of any other profile finds what it found before:
/// the same profiles exist, and every key in them has the value it had.
pub proof fn lemma_other_profiles_stay(
    sections: Sections,
    profile: Seq<char>,
    credentials: SessionCredentialsView,
    other: Seq<char>,
    key: Seq<char>,
)
    requires
        other != profile,
    ensures
        has_section(with_session(sections, profile, credentials), other) == has_section(
            sections,
            other,
        ),
        lookup(with_session(sections, profile, credentials), other, key) == lookup(
            sections,
            other,
            key,
        ),
{
    lemma_merge_in_others(sections, profile, session_entries(credentials), other);
}

/// After a refresh every key of the profile that is not one of the six has the
/// value it had, or is still missing.
pub proof fn lemma_other_keys_stay(
    sections: Sections,
    profile: Seq<char>,
    credentials: SessionCredentialsView,
    key: Seq<char>,
)
    requires
        !is_session_key(key),
    ensures
        lookup(with_session(sections, profile, credentials), profile, key) == lookup(
            sections,
            profile,
            key,
        ),
{
    let set = session_entries(credentials);
    lemma_session_entries(credentials);
    lemma_merge_in_section(sections, profile, set);
    lemma_merge_lookup(crate::document::section_entries(sections, profile), set, key);
}

/// After a refresh the profile is there and a reader finds the six values in
/// it: `False` under `assumed_role`, the session token under both of its keys,
/// and the other three under theirs.
pub proof fn lemma_session_written(
    sections: Sections,
    profile: Seq<char>,
    credentials: SessionCredentialsView,
)
    ensures
        has_section(with_session(sections, profile, credentials), profile),
        lookup(with_session(sections, profile, credentials), profile, "assumed_role"@) == Some(
            "False"@,
        ),
        lookup(with_session(sections, profile, credentials), profile, "aws_access_key_id"@)
            == Some(credentials.access_key),
        lookup(with_session(sections, profile, credentials), profile, "aws_secret_access_key"@)
            == Some(credentials.secret_key),
        lookup(with_session(sections, profile, credentials), profile, "aws_session_token"@)
            == Some(credentials.session_token),
        lookup(with_session(sections, profile, credentials), profile, "aws_security_token"@)
            == Some(credentials.session_token),
        lookup(with_session(sections, profile, credentials), profile, "expiration"@) == Some(
            credentials.expiration,
        ),
{
    let set = session_entries(credentials);
    let kept = crate::document::section_entries(sections, profile);
    lemma_session_entries(credentials);
    lemma_merge_in_section(sections, profile, set);
    lemma_merge_lookup(kept, set, "assumed_role"@);
    lemma_merge_lookup(kept, set, "aws_access_key_id"@);
    lemma_merge_lookup(kept, set, "aws_secret_access_key"@);
    lemma_merge_lookup(kept, set, "aws_session_token"@);
    lemma_merge_lookup(kept, set, "aws_security_token"@);
    lemma_merge_lookup(kept, set, "expiration"@);
}

/// What a refresh writes into a profile, the session reader reads back from
/// it: the same four values.
pub proof fn lemma_session_reads_back(
    sections: Sections,
    profile: Seq<char>,
    credentials: SessionCredentialsView,
)
    ensures
        session_in(with_session(sections, profile, credentials), profile) == Ok::<
            SessionCredentialsView,
            RefreshErrorView,
        >(credentials),
{
    lemma_session_written(sections, profile, credentials);
}

/// Writing the same credentials a second time leaves the document as the first
/// time left it.
pub proof fn lemma_written_twice(
    sections: Sections,
    profile: Seq<char>,
    credentials: SessionCredentialsView,
)
    ensures
        with_session(with_session(sections, profile, credentials), profile, credentials)
            == with_session(sections, profile, credentials),
{
    lemma_merge_in_twice(sections, profile, session_entries(credentials));
}

} // verus!
