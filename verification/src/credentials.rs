//! The two credential sets that a refresh handles.

use vstd::prelude::*;

verus! {

/// A durable IAM access key pair with the serial of the MFA device that is
/// assigned to its user.
#[derive(Clone, Debug, PartialEq, Eq)]
pub struct LongTermCredentials {
    pub access_key: String,
    pub secret_key: String,
    pub mfa_device: String,
}

/// What a [`LongTermCredentials`] holds, as sequences of characters.
pub struct LongTermCredentialsView {
    pub access_key: Seq<char>,
    pub secret_key: Seq<char>,
    pub mfa_device: Seq<char>,
}

impl View for LongTermCredentials {
    type V = LongTermCredentialsView;

    open spec fn view(&self) -> LongTermCredentialsView {
        LongTermCredentialsView {
            access_key: self.access_key@,
            secret_key: self.secret_key@,
            mfa_device: self.mfa_device@,
        }
    }
}

/// A short-lived access key pair with its session token and the time at which
/// it expires, as the session-token service returned them.
#[derive(Clone, Debug, PartialEq, Eq)]
pub struct SessionCredentials {
    pub access_key: String,
    pub secret_key: String,
    pub session_token: String,
    pub expiration: String,
}

/// What a [`SessionCredentials`] holds, as sequences of characters.
pub struct SessionCredentialsView {
    pub access_key: Seq<char>,
    pub secret_key: Seq<char>,
    pub session_token: Seq<char>,
    pub expiration: Seq<char>,
}

impl View for SessionCredentials {
    type V = SessionCredentialsView;

    open spec fn view(&self) -> SessionCredentialsView {
        SessionCredentialsView {
            access_key: self.access_key@,
            secret_key: self.secret_key@,
            session_token: self.session_token@,
            expiration: self.expiration@,
        }
    }
}

} // verus!
