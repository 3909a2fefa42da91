//! The ways in which a refresh ends without new credentials on disk.

use vstd::prelude::*;

verus! {

/// A key that a reader insists on finding in a profile.
#[derive(Clone, Copy, Debug, PartialEq, Eq)]
pub enum RequiredKey {
    AccessKeyId,
    SecretAccessKey,
    MfaDevice,
    SessionToken,
    Expiration,
}

impl RequiredKey {
    /// The key as it is written in the credentials file.
    pub open spec fn name_spec(self) -> Seq<char> {
        match self {
            RequiredKey::AccessKeyId => "aws_access_key_id"@,
            RequiredKey::SecretAccessKey => "aws_secret_access_key"@,
            RequiredKey::MfaDevice => "aws_mfa_device"@,
            RequiredKey::SessionToken => "aws_session_token"@,
            RequiredKey::Expiration => "expiration"@,
        }
    }

    /// The key as it is written in the credentials file.
    pub fn name(&self) -> (name: &'static str)
        ensures
            name@ == self.name_spec(),
    {
        match self {
            RequiredKey::AccessKeyId => "aws_access_key_id",
            RequiredKey::SecretAccessKey => "aws_secret_access_key",
            RequiredKey::MfaDevice => "aws_mfa_device",
            RequiredKey::SessionToken => "aws_session_token",
            RequiredKey::Expiration => "expiration",
        }
    }
}

/// Why a refresh stopped. Every error is final: nothing is retried.
#[derive(Clone, Debug, PartialEq, Eq)]
pub enum RefreshError {
    /// The credentials file is not there, or what is there is not an INI
    /// document.
    ConfigNotFound,
    /// The credentials file has no section of this name.
    ProfileNotFound { profile: String },
    /// The section of this name lacks a key that the reader needs.
    MissingField { profile: String, key: RequiredKey },
    /// What the operator typed is not a string of digits.
    InvalidMfaFormat,
    /// The session-token service gave no credentials. `body` is the raw
    /// response where the service answered with one, and `None` where the call
    /// failed in another way.
    RemoteCallFailed { body: Option<String> },
    /// The credentials file could not be read back for the update, or could not
    /// be replaced.
    WriteFailed,
}

/// What a [`RefreshError`] holds, as sequences of characters.
pub enum RefreshErrorView {
    ConfigNotFound,
    ProfileNotFound { profile: Seq<char> },
    MissingField { profile: Seq<char>, key: RequiredKey },
    InvalidMfaFormat,
    RemoteCallFailed { body: Option<Seq<char>> },
    WriteFailed,
}

impl View for RefreshError {
    type V = RefreshErrorView;

    open spec fn view(&self) -> RefreshErrorView {
        match self {
            RefreshError::ConfigNotFound => RefreshErrorView::ConfigNotFound,
            RefreshError::ProfileNotFound { profile } => RefreshErrorView::ProfileNotFound {
                profile: profile@,
            },
            RefreshError::MissingField { profile, key } => RefreshErrorView::MissingField {
                profile: profile@,
                key: *key,
            },
            RefreshError::InvalidMfaFormat => RefreshErrorView::InvalidMfaFormat,
            RefreshError::RemoteCallFailed { body } => RefreshErrorView::RemoteCallFailed {
                body: match body {
                    Some(text) => Some(text@),
                    None => None,
                },
            },
            RefreshError::WriteFailed => RefreshErrorView::WriteFailed,
        }
    }
}

impl RefreshErrorView {
    /// The line, or two, that tells the operator what went wrong.
    pub open spec fn message(self) -> Seq<char> {
        match self {
            RefreshErrorView::ConfigNotFound =>
                "AWS credentials file not found! It should be in ~/.aws/credentials"@,
            RefreshErrorView::ProfileNotFound { profile } => profile
                + " AWS profile not found in ~/.aws/credentials"@,
            RefreshErrorView::MissingField { profile, key } => key.name_spec()
                + " not found in AWS profile "@ + profile,
            RefreshErrorView::InvalidMfaFormat => "Invalid mfa token provided"@,
            RefreshErrorView::RemoteCallFailed { body } => match body {
                Some(text) => "Error during AWS STS call\n"@ + text,
                None => "Error during AWS STS call"@,
            },
            RefreshErrorView::WriteFailed => "AWS credentials file could not be updated"@,
        }
    }
}

impl RefreshError {
    /// The line, or two, that tells the operator what went wrong.
    pub fn message(&self) -> (text: String)
        ensures
            text@ == self@.message(),
    {
        match self {
            RefreshError::ConfigNotFound => String::from_str(
                "AWS credentials file not found! It should be in ~/.aws/credentials",
            ),
            RefreshError::ProfileNotFound { profile } => profile.clone().concat(
                " AWS profile not found in ~/.aws/credentials",
            ),
            RefreshError::MissingField { profile, key } => String::from_str(key.name()).concat(
                " not found in AWS profile ",
            ).concat(profile.as_str()),
            RefreshError::InvalidMfaFormat => String::from_str("Invalid mfa token provided"),
            RefreshError::RemoteCallFailed { body } => match body {
                Some(text) => String::from_str("Error during AWS STS call\n").concat(
                    text.as_str(),
                ),
                None => String::from_str("Error during AWS STS call"),
            },
            RefreshError::WriteFailed => String::from_str(
                "AWS credentials file could not be updated",
            ),
        }
    }
}

} // verus!
