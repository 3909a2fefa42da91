use aws_mfa_session::credentials::SessionCredentials;
use aws_mfa_session::file::{DEFAULT_PROFILE, LONG_TERM_PROFILE};
use aws_mfa_session::reader::get_aws_lt_credentials;
use aws_mfa_session::session::{get_aws_session_credentials, session_token_request, RemoteOutcome};
use aws_mfa_session::token::{get_mfa_token, mfa_prompt};
use aws_mfa_session::writer::update_credentials_file;
use ini::Ini;

#[test]
fn refresh_from_long_term_credentials_to_written_session() {
    let file = "[default-long-term]\n\
aws_access_key_id=AKIAEXAMPLE\n\
aws_secret_access_key=secret\n\
aws_mfa_device=arn:aws:iam::111111111111:mfa/user\n";

    let long_term = get_aws_lt_credentials(Some(file), LONG_TERM_PROFILE).unwrap();
    assert_eq!(long_term.access_key, "AKIAEXAMPLE");
    assert_eq!(long_term.secret_key, "secret");
    assert_eq!(long_term.mfa_device, "arn:aws:iam::111111111111:mfa/user");

    assert_eq!(
        mfa_prompt(&long_term.mfa_device),
        "Please, provide a valid mfa token for AWS mfa device arn:aws:iam::111111111111:mfa/user"
    );
    let token = get_mfa_token("654321\n").unwrap();
    assert_eq!(token, "654321");

    let request = session_token_request(long_term, token);
    assert_eq!(request.access_key, "AKIAEXAMPLE");
    assert_eq!(request.secret_key, "secret");
    assert_eq!(request.duration_seconds, 129_600);
    assert_eq!(request.serial_number, "arn:aws:iam::111111111111:mfa/user");
    assert_eq!(request.token_code, "654321");

    let answer = RemoteOutcome::Granted {
        credentials: Some(SessionCredentials {
            access_key: "ASIAEXAMPLE".to_string(),
            secret_key: "secret2".to_string(),
            session_token: "tok".to_string(),
            expiration: "2024-01-01T00:00:00Z".to_string(),
        }),
    };
    let session = get_aws_session_credentials(answer).unwrap();

    let bytes = update_credentials_file(Some(file), DEFAULT_PROFILE, &session).unwrap();
    let text = String::from_utf8(bytes).unwrap();
    let ini = Ini::load_from_str(&text).unwrap();
    assert_eq!(ini.get_from(Some("default"), "aws_access_key_id"), Some("ASIAEXAMPLE"));
    assert_eq!(ini.get_from(Some("default"), "aws_secret_access_key"), Some("secret2"));
    assert_eq!(ini.get_from(Some("default"), "aws_session_token"), Some("tok"));
    assert_eq!(ini.get_from(Some("default"), "aws_security_token"), Some("tok"));
    assert_eq!(ini.get_from(Some("default"), "expiration"), Some("2024-01-01T00:00:00Z"));
    assert_eq!(ini.get_from(Some("default"), "assumed_role"), Some("False"));

    assert_eq!(
        get_aws_lt_credentials(Some(&text), LONG_TERM_PROFILE),
        get_aws_lt_credentials(Some(file), LONG_TERM_PROFILE)
    );
    assert_eq!(
        text,
        "[default-long-term]\n\
aws_access_key_id=AKIAEXAMPLE\n\
aws_secret_access_key=secret\n\
aws_mfa_device=arn:aws:iam::111111111111:mfa/user\n\
\n\
[default]\n\
assumed_role=False\n\
aws_access_key_id=ASIAEXAMPLE\n\
aws_secret_access_key=secret2\n\
aws_session_token=tok\n\
aws_security_token=tok\n\
expiration=2024-01-01T00:00:00Z\n"
    );
}

#[test]
fn refresh_stops_at_a_bad_code() {
    let file = "[default-long-term]\n\
aws_access_key_id=AKIAEXAMPLE\n\
aws_secret_access_key=secret\n\
aws_mfa_device=device\n";
    assert!(get_aws_lt_credentials(Some(file), LONG_TERM_PROFILE).is_ok());
    let error = get_mfa_token("65432l\n").unwrap_err();
    assert_eq!(error.message(), "Invalid mfa token provided");
}
