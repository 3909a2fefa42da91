use aws_mfa_session::credentials::{LongTermCredentials, SessionCredentials};
use aws_mfa_session::error::{RefreshError, RequiredKey};
use aws_mfa_session::session::{
    get_aws_session_credentials, session_token_request, RemoteOutcome, SessionTokenRequest,
    SESSION_DURATION_SECONDS,
};
use aws_mfa_session::token::get_mfa_token;

fn long_term() -> LongTermCredentials {
    LongTermCredentials {
        access_key: "AKIAEXAMPLE".to_string(),
        secret_key: "secret".to_string(),
        mfa_device: "arn:aws:iam::111111111111:mfa/user".to_string(),
    }
}

fn session() -> SessionCredentials {
    SessionCredentials {
        access_key: "ASIAEXAMPLE".to_string(),
        secret_key: "secret2".to_string(),
        session_token: "tok".to_string(),
        expiration: "2024-01-01T00:00:00Z".to_string(),
    }
}

#[test]
fn session_lasts_thirty_six_hours() {
    assert_eq!(SESSION_DURATION_SECONDS, 129_600);
    assert_eq!(SESSION_DURATION_SECONDS, 36 * 60 * 60);
}

#[test]
fn request_carries_duration_device_and_code() {
    assert_eq!(
        session_token_request(long_term(), "654321".to_string()),
        SessionTokenRequest {
            access_key: "AKIAEXAMPLE".to_string(),
            secret_key: "secret".to_string(),
            duration_seconds: 129_600,
            serial_number: "arn:aws:iam::111111111111:mfa/user".to_string(),
            token_code: "654321".to_string(),
        }
    );
}

#[test]
fn request_carries_the_trimmed_input_verbatim() {
    let token = get_mfa_token("  000123\r\n").unwrap();
    let request = session_token_request(long_term(), token);
    assert_eq!(request.token_code, "000123");
    assert_eq!(request.duration_seconds, 129_600);
    assert_eq!(request.serial_number, "arn:aws:iam::111111111111:mfa/user");
}

#[test]
fn granted_credentials_are_returned_as_they_came() {
    assert_eq!(
        get_aws_session_credentials(RemoteOutcome::Granted { credentials: Some(session()) }),
        Ok(session())
    );
}

#[test]
fn answer_without_credentials_is_a_failed_call() {
    assert_eq!(
        get_aws_session_credentials(RemoteOutcome::Granted { credentials: None }),
        Err(RefreshError::RemoteCallFailed { body: None })
    );
}

#[test]
fn rejection_keeps_the_response_body() {
    let body = "<ErrorResponse><Code>AccessDenied</Code></ErrorResponse>";
    assert_eq!(
        get_aws_session_credentials(RemoteOutcome::Rejected { body: body.to_string() }),
        Err(RefreshError::RemoteCallFailed { body: Some(body.to_string()) })
    );
    assert_eq!(
        get_aws_session_credentials(RemoteOutcome::Rejected { body: String::new() }),
        Err(RefreshError::RemoteCallFailed { body: Some(String::new()) })
    );
}

#[test]
fn failure_without_response_has_no_body() {
    assert_eq!(
        get_aws_session_credentials(RemoteOutcome::Failed),
        Err(RefreshError::RemoteCallFailed { body: None })
    );
}

#[test]
fn required_keys_have_their_file_names() {
    assert_eq!(RequiredKey::AccessKeyId.name(), "aws_access_key_id");
    assert_eq!(RequiredKey::SecretAccessKey.name(), "aws_secret_access_key");
    assert_eq!(RequiredKey::MfaDevice.name(), "aws_mfa_device");
    assert_eq!(RequiredKey::SessionToken.name(), "aws_session_token");
    assert_eq!(RequiredKey::Expiration.name(), "expiration");
}

#[test]
fn every_error_has_its_message() {
    assert_eq!(
        RefreshError::ConfigNotFound.message(),
        "AWS credentials file not found! It should be in ~/.aws/credentials"
    );
    assert_eq!(
        RefreshError::ProfileNotFound { profile: "default-long-term".to_string() }.message(),
        "default-long-term AWS profile not found in ~/.aws/credentials"
    );
    assert_eq!(
        RefreshError::MissingField {
            profile: "default-long-term".to_string(),
            key: RequiredKey::MfaDevice,
        }
        .message(),
        "aws_mfa_device not found in AWS profile default-long-term"
    );
    assert_eq!(RefreshError::InvalidMfaFormat.message(), "Invalid mfa token provided");
    assert_eq!(
        RefreshError::RemoteCallFailed { body: None }.message(),
        "Error during AWS STS call"
    );
    assert_eq!(
        RefreshError::RemoteCallFailed { body: Some("<Error/>".to_string()) }.message(),
        "Error during AWS STS call\n<Error/>"
    );
    assert_eq!(RefreshError::WriteFailed.message(), "AWS credentials file could not be updated");
}
