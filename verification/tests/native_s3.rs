use opendal_mbt::codes::{ERROR_CONFIG_INVALID, ERROR_INVALID_ARGUMENT};
use opendal_mbt::native::abi::{
    S3_ASSUME_ROLE_DURATION_PRESENT, S3_AUTH_ASSUME_ROLE, S3_AUTH_DEFAULT_CHAIN, S3_AUTH_STATIC, S3_AUTH_UNSIGNED, S3_DISABLE_EC2_METADATA, S3_ENDPOINT_PRESENT, S3_EXTERNAL_ID_PRESENT, S3_ROLE_SESSION_NAME_PRESENT, S3_SESSION_TOKEN_PRESENT, S3_SOURCE_DEFAULT_CHAIN, S3_SOURCE_STATIC, S3_VIRTUAL_HOST_STYLE, STATUS_ABI_MISMATCH, STATUS_ERROR,
};
use opendal_mbt::native::failure::{failure_status, CallFailure};
use opendal_mbt::native::s3::{build_s3_operator, parse_s3_options, ParsedS3Auth, ParsedS3CredentialSource, S3OptionsInput};
use opendal_mbt::native::views::{BytesView, TextArg};

fn bytes(value: &[u8]) -> TextArg {
    let address = if value.is_empty() { 0 } else { 0x1000 };
    TextArg { view: BytesView { address, len: value.len() as u64 }, bytes: value.to_vec() }
}

fn s3_options() -> S3OptionsInput {
    S3OptionsInput {
        present_bits: S3_ENDPOINT_PRESENT,
        flags: 0,
        auth_kind: S3_AUTH_UNSIGNED,
        source_kind: S3_SOURCE_DEFAULT_CHAIN,
        bucket: bytes(b"moonbit-binding-test"),
        region: bytes(b"us-east-1"),
        root: bytes(b""),
        endpoint: bytes(b"http://127.0.0.1:9000"),
        access_key_id: bytes(b""),
        secret_access_key: bytes(b""),
        session_token: bytes(b""),
        role_arn: bytes(b""),
        external_id: bytes(b""),
        role_session_name: bytes(b""),
        assume_role_duration_seconds: 0,
        reserved0: 0,
    }
}

fn assert_s3_constructs(options: &S3OptionsInput) {
    let parsed = parse_s3_options(Some(options)).unwrap();
    assert!(build_s3_operator(&parsed).is_ok());
}

fn error_kind(failure: &CallFailure) -> Option<u32> {
    match failure {
        CallFailure::AbiMismatch => None,
        CallFailure::Error(record) => Some(record.kind),
    }
}

#[test]
fn s3_authentication_modes_construct_without_io() {
    let mut default_chain = s3_options();
    default_chain.auth_kind = S3_AUTH_DEFAULT_CHAIN;
    default_chain.flags = S3_DISABLE_EC2_METADATA;
    assert_s3_constructs(&default_chain);

    let mut static_credentials = s3_options();
    static_credentials.auth_kind = S3_AUTH_STATIC;
    static_credentials.source_kind = S3_SOURCE_STATIC;
    static_credentials.present_bits |= S3_SESSION_TOKEN_PRESENT;
    static_credentials.access_key_id = bytes(b"test-access-key");
    static_credentials.secret_access_key = bytes(b"test-secret-key");
    static_credentials.session_token = bytes(b"test-session-token");
    assert_s3_constructs(&static_credentials);

    assert_s3_constructs(&s3_options());

    let mut assume_role = s3_options();
    assume_role.auth_kind = S3_AUTH_ASSUME_ROLE;
    assume_role.source_kind = S3_SOURCE_STATIC;
    assume_role.present_bits |=
        S3_SESSION_TOKEN_PRESENT | S3_EXTERNAL_ID_PRESENT | S3_ROLE_SESSION_NAME_PRESENT | S3_ASSUME_ROLE_DURATION_PRESENT;
    assume_role.access_key_id = bytes(b"source-access-key");
    assume_role.secret_access_key = bytes(b"source-secret-key");
    assume_role.session_token = bytes(b"source-session-token");
    assume_role.role_arn = bytes(b"arn:aws:iam::123456789012:role/moonbit-test");
    assume_role.external_id = bytes(b"moonbit-external");
    assume_role.role_session_name = bytes(b"moonbit-session");
    assume_role.assume_role_duration_seconds = 900;
    assert_s3_constructs(&assume_role);
}

#[test]
fn s3_rejects_unknown_partial_conflicting_and_noncanonical_inputs() {
    let mut cases = Vec::new();
    let mut unknown = s3_options();
    unknown.flags = 1 << 63;
    cases.push((unknown, STATUS_ABI_MISMATCH, None));

    let mut partial_static = s3_options();
    partial_static.auth_kind = S3_AUTH_STATIC;
    partial_static.source_kind = S3_SOURCE_STATIC;
    partial_static.access_key_id = bytes(b"only-one-half");
    cases.push((partial_static, STATUS_ERROR, Some(ERROR_INVALID_ARGUMENT)));

    let mut conflicting = s3_options();
    conflicting.auth_kind = S3_AUTH_DEFAULT_CHAIN;
    conflicting.source_kind = S3_SOURCE_STATIC;
    cases.push((conflicting, STATUS_ERROR, Some(ERROR_INVALID_ARGUMENT)));

    let mut noncanonical = s3_options();
    noncanonical.root = bytes(b"hidden-without-presence-bit");
    cases.push((noncanonical, STATUS_ABI_MISMATCH, None));

    let mut empty_region = s3_options();
    empty_region.region = bytes(b"");
    cases.push((empty_region, STATUS_ERROR, Some(ERROR_INVALID_ARGUMENT)));

    for (options, expected_status, expected_kind) in cases {
        let failure = parse_s3_options(Some(&options)).unwrap_err();
        assert_eq!(failure_status(&failure), expected_status);
        assert_eq!(error_kind(&failure), expected_kind);
    }
}

#[test]
fn s3_virtual_host_dotted_bucket_redacts_construction_secrets() {
    let secret = b"never-include-this-secret";
    let mut options = s3_options();
    options.bucket = bytes(b"dotted.bucket");
    options.flags = S3_VIRTUAL_HOST_STYLE;
    options.auth_kind = S3_AUTH_STATIC;
    options.source_kind = S3_SOURCE_STATIC;
    options.access_key_id = bytes(b"test-access-key");
    options.secret_access_key = bytes(secret);

    let parsed = parse_s3_options(Some(&options)).unwrap();
    let failure = build_s3_operator(&parsed).err().unwrap();
    assert_eq!(failure_status(&failure), STATUS_ERROR);
    let CallFailure::Error(record) = failure else { panic!("expected an error record") };
    assert_eq!(record.kind, ERROR_CONFIG_INVALID);
    assert_eq!(record.message, b"operator construction failed".to_vec());
    assert!(!record.message.windows(secret.len()).any(|v| v == secret));
}

#[test]
fn s3_options_decode_each_authentication_mode() {
    let parsed = parse_s3_options(Some(&s3_options())).unwrap();
    assert_eq!(parsed.bucket, b"moonbit-binding-test".to_vec());
    assert_eq!(parsed.region, b"us-east-1".to_vec());
    assert_eq!(parsed.root, None);
    assert_eq!(parsed.endpoint, Some(b"http://127.0.0.1:9000".to_vec()));
    assert!(!parsed.virtual_host_style);
    assert!(matches!(parsed.auth, ParsedS3Auth::Unsigned));

    let mut default_chain = s3_options();
    default_chain.auth_kind = S3_AUTH_DEFAULT_CHAIN;
    default_chain.flags = S3_DISABLE_EC2_METADATA | S3_VIRTUAL_HOST_STYLE;
    let parsed = parse_s3_options(Some(&default_chain)).unwrap();
    assert!(parsed.virtual_host_style);
    assert!(matches!(
        parsed.auth,
        ParsedS3Auth::Credentials(ParsedS3CredentialSource::DefaultChain { disable_ec2_metadata: true })
    ));

    let mut role = s3_options();
    role.auth_kind = S3_AUTH_ASSUME_ROLE;
    role.present_bits |= S3_ASSUME_ROLE_DURATION_PRESENT;
    role.role_arn = bytes(b"arn:role");
    role.assume_role_duration_seconds = 900;
    let parsed = parse_s3_options(Some(&role)).unwrap();
    match parsed.auth {
        ParsedS3Auth::AssumeRole { role_arn, source, external_id, role_session_name, duration_seconds } => {
            assert_eq!(role_arn, b"arn:role".to_vec());
            assert!(matches!(source, ParsedS3CredentialSource::DefaultChain { disable_ec2_metadata: false }));
            assert_eq!(external_id, None);
            assert_eq!(role_session_name, None);
            assert_eq!(duration_seconds, Some(900));
        }
        _ => panic!("expected an assumed role"),
    }
}

fn invalid_message(options: &S3OptionsInput) -> String {
    match parse_s3_options(Some(options)).unwrap_err() {
        CallFailure::Error(record) => {
            assert_eq!(record.kind, ERROR_INVALID_ARGUMENT);
            String::from_utf8(record.message).unwrap()
        }
        CallFailure::AbiMismatch => panic!("expected an invalid argument"),
    }
}

#[test]
fn s3_mode_conflicts_name_the_offending_field() {
    assert!(parse_s3_options(None).is_err());

    let mut token_without_keys = s3_options();
    token_without_keys.present_bits |= S3_SESSION_TOKEN_PRESENT;
    token_without_keys.session_token = bytes(b"token");
    assert_eq!(invalid_message(&token_without_keys), "S3 session_token is not valid for the selected S3 authentication mode");

    let mut role_field = s3_options();
    role_field.present_bits |= S3_EXTERNAL_ID_PRESENT;
    role_field.external_id = bytes(b"external");
    assert_eq!(invalid_message(&role_field), "S3 external_id is not valid for the selected S3 authentication mode");

    let mut unsigned_without_metadata = s3_options();
    unsigned_without_metadata.flags = S3_DISABLE_EC2_METADATA;
    assert_eq!(invalid_message(&unsigned_without_metadata), "disable_ec2_metadata is not valid for unsigned S3 authentication");

    let mut unknown_mode = s3_options();
    unknown_mode.auth_kind = 9;
    assert_eq!(invalid_message(&unknown_mode), "unsupported S3 authentication kind");

    let mut zero_duration = s3_options();
    zero_duration.auth_kind = S3_AUTH_ASSUME_ROLE;
    zero_duration.present_bits |= S3_ASSUME_ROLE_DURATION_PRESENT;
    zero_duration.role_arn = bytes(b"arn:role");
    assert_eq!(invalid_message(&zero_duration), "S3 assume-role duration_seconds must be positive");

    let mut unknown_source = s3_options();
    unknown_source.auth_kind = S3_AUTH_ASSUME_ROLE;
    unknown_source.role_arn = bytes(b"arn:role");
    unknown_source.source_kind = 7;
    assert_eq!(invalid_message(&unknown_source), "unsupported S3 assume-role credential source kind");

    let mut empty_bucket = s3_options();
    empty_bucket.bucket = bytes(b"");
    assert_eq!(invalid_message(&empty_bucket), "S3 bucket must not be empty");
}
