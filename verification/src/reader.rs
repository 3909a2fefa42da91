//! Reading credentials out of a profile of the credentials file.

use ini::{Ini, Properties};
use vstd::prelude::*;

use crate::credentials::{
    LongTermCredentials, LongTermCredentialsView, SessionCredentials, SessionCredentialsView,
};
use crate::document::{first_value, has_section, lookup, section_entries, Entries, Sections};
use crate::error::{RefreshError, RefreshErrorView, RequiredKey};
use crate::file::{content_view, document_of, load_document};
use crate::ini_crate::{ini_section, ini_sections, properties_entries, properties_get};

verus! {

/// What a reader finds under a required key among the entries of `profile`:
/// the value as it stands, or the error that names the key and the profile.
pub open spec fn required(entries: Entries, profile: Seq<char>, key: RequiredKey) -> Result<
    Seq<char>,
    RefreshErrorView,
> {
    match first_value(entries, key.name_spec()) {
        Some(value) => Ok(value),
        None => Err(RefreshErrorView::MissingField { profile, key }),
    }
}

/// What the long-term reader makes of a document.
///
/// A document without the profile gives `ProfileNotFound`. Otherwise the three
/// keys are looked up in the profile's section, access key first, then secret
/// key, then MFA device; the first that is missing gives `MissingField`. With
/// all three present the result holds their values, unchanged.
pub open spec fn long_term_in(sections: Sections, profile: Seq<char>) -> Result<
    LongTermCredentialsView,
    RefreshErrorView,
> {
    let entries = section_entries(sections, profile);
    if !has_section(sections, profile) {
        Err(RefreshErrorView::ProfileNotFound { profile })
    } else {
        match required(entries, profile, RequiredKey::AccessKeyId) {
            Err(error) => Err(error),
            Ok(access_key) => match required(entries, profile, RequiredKey::SecretAccessKey) {
                Err(error) => Err(error),
                Ok(secret_key) => match required(entries, profile, RequiredKey::MfaDevice) {
                    Err(error) => Err(error),
                    Ok(mfa_device) => Ok(
                        LongTermCredentialsView { access_key, secret_key, mfa_device },
                    ),
                },
            },
        }
    }
}

/// What the long-term reader makes of a file: `ConfigNotFound` where the file
/// is missing or is not an INI document, and else what it makes of the
/// document.
pub open spec fn long_term_of(content: Option<Seq<char>>, profile: Seq<char>) -> Result<
    LongTermCredentialsView,
    RefreshErrorView,
> {
    match document_of(content) {
        Some(sections) => long_term_in(sections, profile),
        None => Err(RefreshErrorView::ConfigNotFound),
    }
}

/// What the session reader makes of a document: as [`long_term_in`], for the
/// four keys that hold session credentials, in the order access key, secret
/// key, session token, expiration.
pub open spec fn session_in(sections: Sections, profile: Seq<char>) -> Result<
    SessionCredentialsView,
    RefreshErrorView,
> {
    let entries = section_entries(sections, profile);
    if !has_section(sections, profile) {
        Err(RefreshErrorView::ProfileNotFound { profile })
    } else {
        match required(entries, profile, RequiredKey::AccessKeyId) {
            Err(error) => Err(error),
            Ok(access_key) => match required(entries, profile, RequiredKey::SecretAccessKey) {
                Err(error) => Err(error),
                Ok(secret_key) => match required(entries, profile, RequiredKey::SessionToken) {
                    Err(error) => Err(error),
                    Ok(session_token) => match required(
                        entries,
                        profile,
                        RequiredKey::Expiration,
                    ) {
                        Err(error) => Err(error),
                        Ok(expiration) => Ok(
                            SessionCredentialsView {
                                access_key,
                                secret_key,
                                session_token,
                                expiration,
                            },
                        ),
                    },
                },
            },
        }
    }
}

/// Looks up one required key in the section of `profile`.
fn required_value(properties: &Properties, profile: &str, key: RequiredKey) -> (found: Result<
    String,
    RefreshError,
>)
    ensures
        match required(properties_entries(*properties), profile@, key) {
            Ok(value) => found is Ok && found->Ok_0@ == value,
            Err(error) => found is Err && found->Err_0@ == error,
        },
{
    match properties_get(properties, key.name()) {
        Some(value) => Ok(value.to_owned()),
        None => Err(RefreshError::MissingField { profile: profile.to_owned(), key }),
    }
}

/// Reads the long-term credentials from the section `profile` of a parsed
/// credentials file. Nothing is returned unless all three keys are there.
pub fn read_long_term_credentials(ini: &Ini, profile: &str) -> (read: Result<
    LongTermCredentials,
    RefreshError,
>)
    ensures
        match long_term_in(ini_sections(*ini), profile@) {
            Ok(credentials) => read is Ok && read->Ok_0@ == credentials,
            Err(error) => read is Err && read->Err_0@ == error,
        },
{
    let properties = match ini_section(ini, profile) {
        Some(properties) => properties,
        None => {
            return Err(RefreshError::ProfileNotFound { profile: profile.to_owned() });
        },
    };
    let access_key = match required_value(properties, profile, RequiredKey::AccessKeyId) {
        Ok(value) => value,
        Err(error) => {
            return Err(error);
        },
    };
    let secret_key = match required_value(properties, profile, RequiredKey::SecretAccessKey) {
        Ok(value) => value,
        Err(error) => {
            return Err(error);
        },
    };
    let mfa_device = match required_value(properties, profile, RequiredKey::MfaDevice) {
        Ok(value) => value,
        Err(error) => {
            return Err(error);
        },
    };
    Ok(LongTermCredentials { access_key, secret_key, mfa_device })
}

/// Loads the long-term credentials of `profile` from the text of the
/// credentials file.
///
/// `content` is the text of the file, or `None` where it could not be read.
pub fn get_aws_lt_credentials(content: Option<&str>, profile: &str) -> (read: Result<
    LongTermCredentials,
    RefreshError,
>)
    ensures
        match long_term_of(content_view(content), profile@) {
            Ok(credentials) => read is Ok && read->Ok_0@ == credentials,
            Err(error) => read is Err && read->Err_0@ == error,
        },
{
    match load_document(content) {
        Some(ini) => read_long_term_credentials(&ini, profile),
        None => Err(RefreshError::ConfigNotFound),
    }
}

/// Reads session credentials back from the section `profile` of a parsed
/// credentials file. Nothing is returned unless all four keys are there.
pub fn read_session_credentials(ini: &Ini, profile: &str) -> (read: Result<
    SessionCredentials,
    RefreshError,
>)
    ensures
        match session_in(ini_sections(*ini), profile@) {
            Ok(credentials) => read is Ok && read->Ok_0@ == credentials,
            Err(error) => read is Err && read->Err_0@ == error,
        },
{
    let properties = match ini_section(ini, profile) {
        Some(properties) => properties,
        None => {
            return Err(RefreshError::ProfileNotFound { profile: profile.to_owned() });
        },
    };
    let access_key = match required_value(properties, profile, RequiredKey::AccessKeyId) {
        Ok(value) => value,
        Err(error) => {
            return Err(error);
        },
    };
    let secret_key = match required_value(properties, profile, RequiredKey::SecretAccessKey) {
        Ok(value) => value,
        Err(error) => {
            return Err(error);
        },
    };
    let session_token = match required_value(properties, profile, RequiredKey::SessionToken) {
        Ok(value) => value,
        Err(error) => {
            return Err(error);
        },
    };
    let expiration = match required_value(properties, profile, RequiredKey::Expiration) {
        Ok(value) => value,
        Err(error) => {
            return Err(error);
        },
    };
    Ok(SessionCredentials { access_key, secret_key, session_token, expiration })
}

/// Whether a key is one of the three that the long-term reader needs.
pub open spec fn is_long_term_key(key: RequiredKey) -> bool {
    key == RequiredKey::AccessKeyId || key == RequiredKey::SecretAccessKey || key
        == RequiredKey::MfaDevice
}

/// From a document that has the profile with all three keys, the reader
/// returns the three values exactly as the document holds them; and so it does
/// from every file that parses to that document.
pub proof fn lemma_reader_returns_values(sections: Sections, profile: Seq<char>)
    requires
        has_section(sections, profile),
        lookup(sections, profile, "aws_access_key_id"@) is Some,
        lookup(sections, profile, "aws_secret_access_key"@) is Some,
        lookup(sections, profile, "aws_mfa_device"@) is Some,
    ensures
        long_term_in(sections, profile) == Ok::<LongTermCredentialsView, RefreshErrorView>(
            LongTermCredentialsView {
                access_key: lookup(sections, profile, "aws_access_key_id"@)->Some_0,
                secret_key: lookup(sections, profile, "aws_secret_access_key"@)->Some_0,
                mfa_device: lookup(sections, profile, "aws_mfa_device"@)->Some_0,
            },
        ),
        forall|content: Option<Seq<char>>| #[trigger]
            document_of(content) == Some(sections) ==> long_term_of(content, profile)
                == long_term_in(sections, profile),
{
}

/// From a document without the profile the reader returns `ProfileNotFound`,
/// whatever else the document holds; and so it does from every file that
/// parses to that document.
pub proof fn lemma_reader_profile_not_found(sections: Sections, profile: Seq<char>)
    requires
        !has_section(sections, profile),
    ensures
        long_term_in(sections, profile) == Err::<LongTermCredentialsView, RefreshErrorView>(
            RefreshErrorView::ProfileNotFound { profile },
        ),
        forall|content: Option<Seq<char>>| #[trigger]
            document_of(content) == Some(sections) ==> long_term_of(content, profile)
                == long_term_in(sections, profile),
{
}

/// From a document that has the profile with all of the three keys but one,
/// the reader returns `MissingField` with that key; and so it does from every
/// file that parses to that document.
pub proof fn lemma_reader_missing_field(sections: Sections, profile: Seq<char>, key: RequiredKey)
    requires
        has_section(sections, profile),
        is_long_term_key(key),
        lookup(sections, profile, key.name_spec()) is None,
        forall|other: RequiredKey|
            is_long_term_key(other) && other != key ==> lookup(
                sections,
                profile,
                #[trigger] other.name_spec(),
            ) is Some,
    ensures
        long_term_in(sections, profile) == Err::<LongTermCredentialsView, RefreshErrorView>(
            RefreshErrorView::MissingField { profile, key },
        ),
        forall|content: Option<Seq<char>>| #[trigger]
            document_of(content) == Some(sections) ==> long_term_of(content, profile)
                == long_term_in(sections, profile),
{
    assert(is_long_term_key(RequiredKey::AccessKeyId));
    assert(is_long_term_key(RequiredKey::SecretAccessKey));
    assert(is_long_term_key(RequiredKey::MfaDevice));
}

} // verus!
