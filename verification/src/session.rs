//! Exchanging long-term credentials and an MFA code for session credentials.
//!
//! The call to the session-token service is the caller's. This module fixes
//! what is asked, and decides what the answer means.

use vstd::prelude::*;

use crate::credentials::{
    LongTermCredentials, LongTermCredentialsView, SessionCredentials, SessionCredentialsView,
};
use crate::error::{RefreshError, RefreshErrorView};
use crate::token::{is_mfa_code, trimmed};

verus! {

/// The lifetime that is asked for: 36 hours, the longest that the service
/// grants to an IAM user who signs in with MFA.
pub const SESSION_DURATION_SECONDS: i64 = 129_600;

/// One request for a session token: who signs it, and its three parameters.
#[derive(Clone, Debug, PartialEq, Eq)]
pub struct SessionTokenRequest {
    /// The access key that signs the request.
    pub access_key: String,
    /// The secret key that signs the request.
    pub secret_key: String,
    /// For how long the session should last, in seconds.
    pub duration_seconds: i64,
    /// The serial of the MFA device.
    pub serial_number: String,
    /// The code that the MFA device shows.
    pub token_code: String,
}

/// What a [`SessionTokenRequest`] holds, as sequences of characters.
pub struct SessionTokenRequestView {
    pub access_key: Seq<char>,
    pub secret_key: Seq<char>,
    pub duration_seconds: int,
    pub serial_number: Seq<char>,
    pub token_code: Seq<char>,
}

impl View for SessionTokenRequest {
    type V = SessionTokenRequestView;

    open spec fn view(&self) -> SessionTokenRequestView {
        SessionTokenRequestView {
            access_key: self.access_key@,
            secret_key: self.secret_key@,
            duration_seconds: self.duration_seconds as int,
            serial_number: self.serial_number@,
            token_code: self.token_code@,
        }
    }
}

/// How the call to the session-token service ended.
#[derive(Clone, Debug, PartialEq, Eq)]
pub enum RemoteOutcome {
    /// The service answered the request; its answer may still lack the
    /// credentials.
    Granted { credentials: Option<SessionCredentials> },
    /// The service answered with an error; `body` is its raw response.
    Rejected { body: String },
    /// The call failed in a way that left no response to show.
    Failed,
}

/// What a [`RemoteOutcome`] holds, as sequences of characters.
pub enum RemoteOutcomeView {
    Granted { credentials: Option<SessionCredentialsView> },
    Rejected { body: Seq<char> },
    Failed,
}

impl View for RemoteOutcome {
    type V = RemoteOutcomeView;

    open spec fn view(&self) -> RemoteOutcomeView {
        match self {
            RemoteOutcome::Granted { credentials } => RemoteOutcomeView::Granted {
                credentials: match credentials {
                    Some(granted) => Some(granted@),
                    None => None,
                },
            },
            RemoteOutcome::Rejected { body } => RemoteOutcomeView::Rejected { body: body@ },
            RemoteOutcome::Failed => RemoteOutcomeView::Failed,
        }
    }
}

/// The request that a refresh sends: signed with the long-term key pair, for
/// 129,600 seconds, with the MFA device as serial number and the operator's
/// code, as it is, as token code.
pub open spec fn request_for(
    credentials: LongTermCredentialsView,
    mfa_token: Seq<char>,
) -> SessionTokenRequestView {
    SessionTokenRequestView {
        access_key: credentials.access_key,
        secret_key: credentials.secret_key,
        duration_seconds: 129_600,
        serial_number: credentials.mfa_device,
        token_code: mfa_token,
    }
}

/// What a refresh makes of the outcome of the call: the credentials where the
/// service granted them, and `RemoteCallFailed` otherwise, with the response
/// body where there is one.
pub open spec fn session_from(outcome: RemoteOutcomeView) -> Result<
    SessionCredentialsView,
    RefreshErrorView,
> {
    match outcome {
        RemoteOutcomeView::Granted { credentials: Some(granted) } => Ok(granted),
        RemoteOutcomeView::Granted { credentials: None } => Err(
            RefreshErrorView::RemoteCallFailed { body: None },
        ),
        RemoteOutcomeView::Rejected { body } => Err(
            RefreshErrorView::RemoteCallFailed { body: Some(body) },
        ),
        RemoteOutcomeView::Failed => Err(RefreshErrorView::RemoteCallFailed { body: None }),
    }
}

/// Builds the request for a session token from the long-term credentials and
/// the MFA code that the operator gave.
pub fn session_token_request(credentials: LongTermCredentials, mfa_token: String) -> (request:
    SessionTokenRequest)
    ensures
        request@ == request_for(credentials@, mfa_token@),
{
    SessionTokenRequest {
        access_key: credentials.access_key,
        secret_key: credentials.secret_key,
        duration_seconds: SESSION_DURATION_SECONDS,
        serial_number: credentials.mfa_device,
        token_code: mfa_token,
    }
}

/// Takes the outcome of the call to the session-token service and returns the
/// session credentials, or the error that ends the refresh. There is no second
/// attempt: after a failure the operator starts over with a new code.
pub fn get_aws_session_credentials(outcome: RemoteOutcome) -> (session: Result<
    SessionCredentials,
    RefreshError,
>)
    ensures
        match session_from(outcome@) {
            Ok(credentials) => session is Ok && session->Ok_0@ == credentials,
            Err(error) => session is Err && session->Err_0@ == error,
        },
{
    match outcome {
        RemoteOutcome::Granted { credentials: Some(granted) } => Ok(granted),
        RemoteOutcome::Granted { credentials: None } => Err(
            RefreshError::RemoteCallFailed { body: None },
        ),
        RemoteOutcome::Rejected { body } => Err(RefreshError::RemoteCallFailed { body: Some(body) }),
        RemoteOutcome::Failed => Err(RefreshError::RemoteCallFailed { body: None }),
    }
}

/// The request that follows an accepted line of operator input asks for
/// exactly 129,600 seconds, names the MFA device of the long-term credentials,
/// and carries the line without the white space around it, character for
/// character.
pub proof fn lemma_request_parameters(credentials: LongTermCredentialsView, line: Seq<char>)
    requires
        is_mfa_code(trimmed(line)),
    ensures
        request_for(credentials, trimmed(line)).duration_seconds == 129_600,
        request_for(credentials, trimmed(line)).serial_number == credentials.mfa_device,
        request_for(credentials, trimmed(line)).token_code == trimmed(line),
        request_for(credentials, trimmed(line)).access_key == credentials.access_key,
        request_for(credentials, trimmed(line)).secret_key == credentials.secret_key,
{
}

} // verus!
