//! S3 constructor options of the native ABI: which authentication mode takes
//! which credential fields, and how absent, empty and conflicting fields are
//! refused before any operator is built.
use vstd::prelude::*;
use vstd::string::StringSliceAdditionalSpecFns;

use crate::native::abi::{
    S3_ASSUME_ROLE_DURATION_PRESENT, S3_AUTH_ASSUME_ROLE, S3_AUTH_DEFAULT_CHAIN, S3_AUTH_STATIC, S3_AUTH_UNSIGNED, S3_DISABLE_EC2_METADATA, S3_ENDPOINT_PRESENT, S3_EXTERNAL_ID_PRESENT, S3_ROLE_SESSION_NAME_PRESENT, S3_ROOT_PRESENT, S3_SESSION_TOKEN_PRESENT, S3_SOURCE_DEFAULT_CHAIN, S3_SOURCE_STATIC, S3_VIRTUAL_HOST_STYLE,
};
use crate::native::failure::{abi_mismatch, construction_error, invalid_argument, is_service_failure_with, invalid_argument_failure, joined, CallFailure, CallResult, FailureModel};
use crate::native::parse::{given_text, given_when_present};
use crate::native::views::{
    canonical_absent, optional_text, optional_text_outcome, read_text_value, reject_present_field, require_absent_view, text_outcome, TextArg,
};
use crate::configured::{
    empty_s3_settings, s3_access_key_id, s3_assume_role_duration_seconds, s3_bucket, s3_builder, s3_disable_config_load, s3_disable_ec2_metadata, s3_enable_virtual_host_style, s3_endpoint, s3_external_id, s3_operator, s3_region, s3_role_arn, s3_role_session_name, s3_root, s3_secret_access_key, s3_session_token, s3_skip_signature, trim_trailing_slashes, Recorded, S3Settings, S3Setup,
};
use crate::support::utf8_view;
use crate::text::copy_bytes;
use vstd::utf8::{decode_utf8, valid_utf8};

verus! {

/// The presence bits a version-1 S3 options structure knows.
pub const S3_KNOWN_PRESENT: u64 = 63;
/// The flags a version-1 S3 options structure knows.
pub const S3_KNOWN_FLAGS: u64 = 3;

/// S3 options as the caller wrote them (after their header was checked).
#[derive(Debug)]
pub struct S3OptionsInput {
    pub present_bits: u64,
    pub flags: u64,
    pub auth_kind: u32,
    pub source_kind: u32,
    pub bucket: TextArg,
    pub region: TextArg,
    pub root: TextArg,
    pub endpoint: TextArg,
    pub access_key_id: TextArg,
    pub secret_access_key: TextArg,
    pub session_token: TextArg,
    pub role_arn: TextArg,
    pub external_id: TextArg,
    pub role_session_name: TextArg,
    pub assume_role_duration_seconds: u32,
    pub reserved0: u32,
}

/// Where S3 credentials come from.
#[derive(Debug)]
pub enum ParsedS3CredentialSource {
    /// The default provider chain, optionally without the EC2 metadata service.
    DefaultChain { disable_ec2_metadata: bool },
    /// Keys given in the options.
    Static { access_key_id: Vec<u8>, secret_access_key: Vec<u8>, session_token: Option<Vec<u8>> },
}

/// How S3 requests are authenticated.
#[derive(Debug)]
pub enum ParsedS3Auth {
    Credentials(ParsedS3CredentialSource),
    Unsigned,
    AssumeRole {
        role_arn: Vec<u8>,
        source: ParsedS3CredentialSource,
        external_id: Option<Vec<u8>>,
        role_session_name: Option<Vec<u8>>,
        duration_seconds: Option<u32>,
    },
}

/// Decoded S3 constructor options.
#[derive(Debug)]
pub struct ParsedS3Options {
    pub bucket: Vec<u8>,
    pub region: Vec<u8>,
    pub root: Option<Vec<u8>>,
    pub endpoint: Option<Vec<u8>>,
    pub virtual_host_style: bool,
    pub auth: ParsedS3Auth,
}

/// The value of a [`ParsedS3CredentialSource`].
pub enum SourceModel {
    DefaultChain { disable_ec2_metadata: bool },
    Static { access_key_id: Seq<u8>, secret_access_key: Seq<u8>, session_token: Option<Seq<u8>> },
}

/// The value of a [`ParsedS3Auth`].
pub enum AuthModel {
    Credentials(SourceModel),
    Unsigned,
    AssumeRole {
        role_arn: Seq<u8>,
        source: SourceModel,
        external_id: Option<Seq<u8>>,
        role_session_name: Option<Seq<u8>>,
        duration_seconds: Option<u32>,
    },
}

/// The value of [`ParsedS3Options`].
pub struct S3Model {
    pub bucket: Seq<u8>,
    pub region: Seq<u8>,
    pub root: Option<Seq<u8>>,
    pub endpoint: Option<Seq<u8>>,
    pub virtual_host_style: bool,
    pub auth: AuthModel,
}

/// The model of an optional copied text.
pub open spec fn text_model(v: Option<Vec<u8>>) -> Option<Seq<u8>> {
    match v {
        Some(b) => Some(b@),
        None => None,
    }
}

pub open spec fn source_model(s: ParsedS3CredentialSource) -> SourceModel {
    match s {
        ParsedS3CredentialSource::DefaultChain { disable_ec2_metadata } => SourceModel::DefaultChain {
            disable_ec2_metadata,
        },
        ParsedS3CredentialSource::Static { access_key_id, secret_access_key, session_token } => SourceModel::Static {
            access_key_id: access_key_id@,
            secret_access_key: secret_access_key@,
            session_token: text_model(session_token),
        },
    }
}

pub open spec fn auth_model(a: ParsedS3Auth) -> AuthModel {
    match a {
        ParsedS3Auth::Credentials(s) => AuthModel::Credentials(source_model(s)),
        ParsedS3Auth::Unsigned => AuthModel::Unsigned,
        ParsedS3Auth::AssumeRole { role_arn, source, external_id, role_session_name, duration_seconds } => {
            AuthModel::AssumeRole {
                role_arn: role_arn@,
                source: source_model(source),
                external_id: text_model(external_id),
                role_session_name: text_model(role_session_name),
                duration_seconds,
            }
        },
    }
}

pub open spec fn s3_model(o: ParsedS3Options) -> S3Model {
    S3Model {
        bucket: o.bucket@,
        region: o.region@,
        root: text_model(o.root),
        endpoint: text_model(o.endpoint),
        virtual_host_style: o.virtual_host_style,
        auth: auth_model(o.auth),
    }
}

/// The failure of an empty text that must not be empty.
pub open spec fn empty_text_failure(label: Seq<u8>) -> FailureModel {
    invalid_argument_failure(label + " must not be empty".spec_bytes())
}

/// A required text: valid, UTF-8 and not empty.
pub open spec fn required_nonempty_outcome(arg: TextArg, label: Seq<u8>) -> Result<Seq<u8>, FailureModel> {
    match text_outcome(arg, label) {
        Err(e) => Err(e),
        Ok(t) => if t.len() == 0 {
            Err(empty_text_failure(label))
        } else {
            Ok(t)
        },
    }
}

/// An optional text that, when present, must not be empty.
pub open spec fn optional_nonempty_outcome(arg: TextArg, present_bits: u64, bit: u64, label: Seq<u8>) -> Result<
    Option<Seq<u8>>,
    FailureModel,
> {
    match optional_text_outcome(arg, present_bits, bit, label) {
        Err(e) => Err(e),
        Ok(Some(t)) => if t.len() == 0 {
            Err(empty_text_failure(label))
        } else {
            Ok(Some(t))
        },
        Ok(None) => Ok(None),
    }
}

/// The failure of a field the selected authentication mode does not take.
pub open spec fn rejected_field(label: Seq<u8>) -> FailureModel {
    invalid_argument_failure(label + " is not valid for the selected S3 authentication mode".spec_bytes())
}

/// The assume-role fields must all be absent: no presence bit (each is
/// refused by name), canonical absent views and a zero duration.
pub open spec fn role_fields_outcome(i: S3OptionsInput) -> Result<(), FailureModel> {
    if i.present_bits & S3_EXTERNAL_ID_PRESENT != 0 {
        Err(rejected_field("S3 external_id".spec_bytes()))
    } else if i.present_bits & S3_ROLE_SESSION_NAME_PRESENT != 0 {
        Err(rejected_field("S3 role_session_name".spec_bytes()))
    } else if i.present_bits & S3_ASSUME_ROLE_DURATION_PRESENT != 0 {
        Err(rejected_field("S3 assume-role duration".spec_bytes()))
    } else if !canonical_absent(i.role_arn.view) || !canonical_absent(i.external_id.view) || !canonical_absent(
        i.role_session_name.view,
    ) || i.assume_role_duration_seconds != 0 {
        Err(FailureModel::AbiMismatch)
    } else {
        Ok(())
    }
}

/// The static credential fields must all be absent.
pub open spec fn static_rejected_outcome(i: S3OptionsInput) -> Result<(), FailureModel> {
    if i.present_bits & S3_SESSION_TOKEN_PRESENT != 0 {
        Err(rejected_field("S3 session_token".spec_bytes()))
    } else if !canonical_absent(i.access_key_id.view) || !canonical_absent(i.secret_access_key.view)
        || !canonical_absent(i.session_token.view) {
        Err(FailureModel::AbiMismatch)
    } else {
        Ok(())
    }
}

/// Static credentials: both keys required, the session token optional.
pub open spec fn static_credentials_outcome(i: S3OptionsInput) -> Result<SourceModel, FailureModel> {
    match required_nonempty_outcome(i.access_key_id, "S3 access_key_id".spec_bytes()) {
        Err(e) => Err(e),
        Ok(a) => match required_nonempty_outcome(i.secret_access_key, "S3 secret_access_key".spec_bytes()) {
            Err(e) => Err(e),
            Ok(s) => match optional_nonempty_outcome(
                i.session_token,
                i.present_bits,
                S3_SESSION_TOKEN_PRESENT,
                "S3 session_token".spec_bytes(),
            ) {
                Err(e) => Err(e),
                Ok(t) => Ok(SourceModel::Static { access_key_id: a, secret_access_key: s, session_token: t }),
            },
        },
    }
}

/// Whether the options ask to skip the EC2 metadata service.
pub open spec fn disables_ec2_metadata(i: S3OptionsInput) -> bool {
    i.flags & S3_DISABLE_EC2_METADATA != 0
}

pub open spec fn chain_only_failure() -> FailureModel {
    invalid_argument_failure("disable_ec2_metadata is only valid for a default credential chain".spec_bytes())
}

/// The duration of an assumed role: positive when present, zero when absent.
pub open spec fn duration_outcome(i: S3OptionsInput) -> Result<Option<u32>, FailureModel> {
    if i.present_bits & S3_ASSUME_ROLE_DURATION_PRESENT != 0 {
        if i.assume_role_duration_seconds == 0 {
            Err(invalid_argument_failure("S3 assume-role duration_seconds must be positive".spec_bytes()))
        } else {
            Ok(Some(i.assume_role_duration_seconds))
        }
    } else if i.assume_role_duration_seconds != 0 {
        Err(FailureModel::AbiMismatch)
    } else {
        Ok(None)
    }
}

/// The credential source of an assumed role.
pub open spec fn role_source_outcome(i: S3OptionsInput) -> Result<SourceModel, FailureModel> {
    if i.source_kind == S3_SOURCE_DEFAULT_CHAIN {
        match static_rejected_outcome(i) {
            Err(e) => Err(e),
            Ok(_) => Ok(SourceModel::DefaultChain { disable_ec2_metadata: disables_ec2_metadata(i) }),
        }
    } else if i.source_kind == S3_SOURCE_STATIC {
        if disables_ec2_metadata(i) {
            Err(chain_only_failure())
        } else {
            static_credentials_outcome(i)
        }
    } else {
        Err(invalid_argument_failure("unsupported S3 assume-role credential source kind".spec_bytes()))
    }
}

/// An assumed role: its ARN, then the optional external id and session name,
/// the duration, and the source of the credentials that assume it.
pub open spec fn assume_role_outcome(i: S3OptionsInput) -> Result<AuthModel, FailureModel> {
    match required_nonempty_outcome(i.role_arn, "S3 role_arn".spec_bytes()) {
        Err(e) => Err(e),
        Ok(role_arn) => match optional_nonempty_outcome(
            i.external_id,
            i.present_bits,
            S3_EXTERNAL_ID_PRESENT,
            "S3 external_id".spec_bytes(),
        ) {
            Err(e) => Err(e),
            Ok(external_id) => match optional_nonempty_outcome(
                i.role_session_name,
                i.present_bits,
                S3_ROLE_SESSION_NAME_PRESENT,
                "S3 role_session_name".spec_bytes(),
            ) {
                Err(e) => Err(e),
                Ok(role_session_name) => match duration_outcome(i) {
                    Err(e) => Err(e),
                    Ok(duration_seconds) => match role_source_outcome(i) {
                        Err(e) => Err(e),
                        Ok(source) => Ok(
                            AuthModel::AssumeRole { role_arn, source, external_id, role_session_name, duration_seconds },
                        ),
                    },
                },
            },
        },
    }
}

/// The authentication an options structure selects, with the fields each
/// mode takes and refuses.
pub open spec fn auth_outcome(i: S3OptionsInput) -> Result<AuthModel, FailureModel> {
    if i.auth_kind == S3_AUTH_DEFAULT_CHAIN {
        if i.source_kind != S3_SOURCE_DEFAULT_CHAIN {
            Err(
                invalid_argument_failure(
                    "default-chain S3 authentication requires the default source kind".spec_bytes(),
                ),
            )
        } else {
            match static_rejected_outcome(i) {
                Err(e) => Err(e),
                Ok(_) => match role_fields_outcome(i) {
                    Err(e) => Err(e),
                    Ok(_) => Ok(
                        AuthModel::Credentials(
                            SourceModel::DefaultChain { disable_ec2_metadata: disables_ec2_metadata(i) },
                        ),
                    ),
                },
            }
        }
    } else if i.auth_kind == S3_AUTH_STATIC {
        if i.source_kind != S3_SOURCE_STATIC {
            Err(invalid_argument_failure("static S3 authentication requires the static source kind".spec_bytes()))
        } else if disables_ec2_metadata(i) {
            Err(chain_only_failure())
        } else {
            match role_fields_outcome(i) {
                Err(e) => Err(e),
                Ok(_) => match static_credentials_outcome(i) {
                    Err(e) => Err(e),
                    Ok(s) => Ok(AuthModel::Credentials(s)),
                },
            }
        }
    } else if i.auth_kind == S3_AUTH_UNSIGNED {
        if i.source_kind != S3_SOURCE_DEFAULT_CHAIN {
            Err(
                invalid_argument_failure(
                    "unsigned S3 authentication requires the default source kind".spec_bytes(),
                ),
            )
        } else if disables_ec2_metadata(i) {
            Err(
                invalid_argument_failure(
                    "disable_ec2_metadata is not valid for unsigned S3 authentication".spec_bytes(),
                ),
            )
        } else {
            match static_rejected_outcome(i) {
                Err(e) => Err(e),
                Ok(_) => match role_fields_outcome(i) {
                    Err(e) => Err(e),
                    Ok(_) => Ok(AuthModel::Unsigned),
                },
            }
        }
    } else if i.auth_kind == S3_AUTH_ASSUME_ROLE {
        assume_role_outcome(i)
    } else {
        Err(invalid_argument_failure("unsupported S3 authentication kind".spec_bytes()))
    }
}

/// What an S3 options structure decodes to: the structure is required;
/// known bits and flags only and a zero reserved word; then the bucket, the
/// region, the root, the endpoint and the authentication, in that order.
pub open spec fn s3_outcome(input: Option<&S3OptionsInput>) -> Result<S3Model, FailureModel> {
    match input {
        None => Err(FailureModel::AbiMismatch),
        Some(i) => if i.present_bits & !S3_KNOWN_PRESENT != 0 || i.flags & !S3_KNOWN_FLAGS != 0 || i.reserved0
            != 0 {
            Err(FailureModel::AbiMismatch)
        } else {
            match required_nonempty_outcome(i.bucket, "S3 bucket".spec_bytes()) {
                Err(e) => Err(e),
                Ok(bucket) => match required_nonempty_outcome(i.region, "S3 region".spec_bytes()) {
                    Err(e) => Err(e),
                    Ok(region) => match optional_nonempty_outcome(
                        i.root,
                        i.present_bits,
                        S3_ROOT_PRESENT,
                        "S3 root".spec_bytes(),
                    ) {
                        Err(e) => Err(e),
                        Ok(root) => match optional_nonempty_outcome(
                            i.endpoint,
                            i.present_bits,
                            S3_ENDPOINT_PRESENT,
                            "S3 endpoint".spec_bytes(),
                        ) {
                            Err(e) => Err(e),
                            Ok(endpoint) => match auth_outcome(*i) {
                                Err(e) => Err(e),
                                Ok(auth) => Ok(
                                    S3Model {
                                        bucket,
                                        region,
                                        root,
                                        endpoint,
                                        virtual_host_style: i.flags & S3_VIRTUAL_HOST_STYLE != 0,
                                        auth,
                                    },
                                ),
                            },
                        },
                    },
                },
            }
        },
    }
}

/// Reads a required text that must not be empty.
pub fn required_nonempty_text(arg: &TextArg, label: &str) -> (res: CallResult<Vec<u8>>)
    ensures
        match required_nonempty_outcome(*arg, label.spec_bytes()) {
            Ok(t) => res matches Ok(v) && v@ == t,
            Err(e) => res matches Err(f) && f@ == e,
        },
{
    let value = match read_text_value(arg, label) {
        Ok(v) => v,
        Err(f) => {
            return Err(f);
        },
    };
    if value.len() == 0 {
        return Err(invalid_argument(joined(label, " must not be empty")));
    }
    Ok(value)
}

/// Reads an optional text that, when present, must not be empty.
pub fn optional_nonempty_text(arg: &TextArg, present_bits: u64, bit: u64, label: &str) -> (res: CallResult<
    Option<Vec<u8>>,
>)
    ensures
        match optional_nonempty_outcome(*arg, present_bits, bit, label.spec_bytes()) {
            Ok(t) => res matches Ok(v) && text_model(v) == t,
            Err(e) => res matches Err(f) && f@ == e,
        },
{
    match optional_text(arg, present_bits, bit, label) {
        Ok(Some(value)) => {
            if value.len() == 0 {
                Err(invalid_argument(joined(label, " must not be empty")))
            } else {
                Ok(Some(value))
            }
        },
        Ok(None) => Ok(None),
        Err(f) => Err(f),
    }
}

/// Refuses every assume-role field.
pub fn reject_role_fields(input: &S3OptionsInput) -> (res: CallResult<()>)
    ensures
        match role_fields_outcome(*input) {
            Ok(_) => res is Ok,
            Err(e) => res matches Err(f) && f@ == e,
        },
{
    match reject_present_field(input.present_bits, S3_EXTERNAL_ID_PRESENT, "S3 external_id") {
        Ok(_) => {},
        Err(f) => {
            return Err(f);
        },
    }
    match reject_present_field(input.present_bits, S3_ROLE_SESSION_NAME_PRESENT, "S3 role_session_name") {
        Ok(_) => {},
        Err(f) => {
            return Err(f);
        },
    }
    match reject_present_field(input.present_bits, S3_ASSUME_ROLE_DURATION_PRESENT, "S3 assume-role duration") {
        Ok(_) => {},
        Err(f) => {
            return Err(f);
        },
    }
    match require_absent_view(input.role_arn.view) {
        Ok(_) => {},
        Err(f) => {
            return Err(f);
        },
    }
    match require_absent_view(input.external_id.view) {
        Ok(_) => {},
        Err(f) => {
            return Err(f);
        },
    }
    match require_absent_view(input.role_session_name.view) {
        Ok(_) => {},
        Err(f) => {
            return Err(f);
        },
    }
    if input.assume_role_duration_seconds != 0 {
        return abi_mismatch();
    }
    Ok(())
}

/// Refuses every static credential field.
pub fn reject_static_credentials(input: &S3OptionsInput) -> (res: CallResult<()>)
    ensures
        match static_rejected_outcome(*input) {
            Ok(_) => res is Ok,
            Err(e) => res matches Err(f) && f@ == e,
        },
{
    match reject_present_field(input.present_bits, S3_SESSION_TOKEN_PRESENT, "S3 session_token") {
        Ok(_) => {},
        Err(f) => {
            return Err(f);
        },
    }
    match require_absent_view(input.access_key_id.view) {
        Ok(_) => {},
        Err(f) => {
            return Err(f);
        },
    }
    match require_absent_view(input.secret_access_key.view) {
        Ok(_) => {},
        Err(f) => {
            return Err(f);
        },
    }
    require_absent_view(input.session_token.view)
}

/// Reads static credentials: both keys, and the session token if present.
pub fn parse_static_credentials(input: &S3OptionsInput) -> (res: CallResult<ParsedS3CredentialSource>)
    ensures
        match static_credentials_outcome(*input) {
            Ok(m) => res matches Ok(s) && source_model(s) == m,
            Err(e) => res matches Err(f) && f@ == e,
        },
{
    let access_key_id = match required_nonempty_text(&input.access_key_id, "S3 access_key_id") {
        Ok(v) => v,
        Err(f) => {
            return Err(f);
        },
    };
    let secret_access_key = match required_nonempty_text(&input.secret_access_key, "S3 secret_access_key") {
        Ok(v) => v,
        Err(f) => {
            return Err(f);
        },
    };
    let session_token = match optional_nonempty_text(
        &input.session_token,
        input.present_bits,
        S3_SESSION_TOKEN_PRESENT,
        "S3 session_token",
    ) {
        Ok(v) => v,
        Err(f) => {
            return Err(f);
        },
    };
    Ok(ParsedS3CredentialSource::Static { access_key_id, secret_access_key, session_token })
}

fn invalid_text(message: &str) -> (f: CallFailure)
    ensures
        f@ == invalid_argument_failure(message.spec_bytes()),
{
    invalid_argument(copy_bytes(message.as_bytes()))
}

/// Reads the credential source of an assumed role.
fn parse_role_source(input: &S3OptionsInput) -> (res: CallResult<ParsedS3CredentialSource>)
    ensures
        match role_source_outcome(*input) {
            Ok(m) => res matches Ok(s) && source_model(s) == m,
            Err(e) => res matches Err(f) && f@ == e,
        },
{
    let disable_ec2_metadata = input.flags & S3_DISABLE_EC2_METADATA != 0;
    if input.source_kind == S3_SOURCE_DEFAULT_CHAIN {
        match reject_static_credentials(input) {
            Ok(_) => {},
            Err(f) => {
                return Err(f);
            },
        }
        Ok(ParsedS3CredentialSource::DefaultChain { disable_ec2_metadata })
    } else if input.source_kind == S3_SOURCE_STATIC {
        if disable_ec2_metadata {
            return Err(invalid_text("disable_ec2_metadata is only valid for a default credential chain"));
        }
        parse_static_credentials(input)
    } else {
        Err(invalid_text("unsupported S3 assume-role credential source kind"))
    }
}

/// Reads an assume-role authentication.
fn parse_assume_role(input: &S3OptionsInput) -> (res: CallResult<ParsedS3Auth>)
    ensures
        match assume_role_outcome(*input) {
            Ok(m) => res matches Ok(a) && auth_model(a) == m,
            Err(e) => res matches Err(f) && f@ == e,
        },
{
    let role_arn = match required_nonempty_text(&input.role_arn, "S3 role_arn") {
        Ok(v) => v,
        Err(f) => {
            return Err(f);
        },
    };
    let external_id = match optional_nonempty_text(
        &input.external_id,
        input.present_bits,
        S3_EXTERNAL_ID_PRESENT,
        "S3 external_id",
    ) {
        Ok(v) => v,
        Err(f) => {
            return Err(f);
        },
    };
    let role_session_name = match optional_nonempty_text(
        &input.role_session_name,
        input.present_bits,
        S3_ROLE_SESSION_NAME_PRESENT,
        "S3 role_session_name",
    ) {
        Ok(v) => v,
        Err(f) => {
            return Err(f);
        },
    };
    let duration_seconds = if input.present_bits & S3_ASSUME_ROLE_DURATION_PRESENT != 0 {
        if input.assume_role_duration_seconds == 0 {
            return Err(invalid_text("S3 assume-role duration_seconds must be positive"));
        }
        Some(input.assume_role_duration_seconds)
    } else {
        if input.assume_role_duration_seconds != 0 {
            return abi_mismatch();
        }
        None
    };
    let source = match parse_role_source(input) {
        Ok(s) => s,
        Err(f) => {
            return Err(f);
        },
    };
    Ok(ParsedS3Auth::AssumeRole { role_arn, source, external_id, role_session_name, duration_seconds })
}

/// Reads the authentication an options structure selects.
fn parse_s3_auth(input: &S3OptionsInput) -> (res: CallResult<ParsedS3Auth>)
    ensures
        match auth_outcome(*input) {
            Ok(m) => res matches Ok(a) && auth_model(a) == m,
            Err(e) => res matches Err(f) && f@ == e,
        },
{
    let disable_ec2_metadata = input.flags & S3_DISABLE_EC2_METADATA != 0;
    if input.auth_kind == S3_AUTH_DEFAULT_CHAIN {
        if input.source_kind != S3_SOURCE_DEFAULT_CHAIN {
            return Err(invalid_text("default-chain S3 authentication requires the default source kind"));
        }
        match reject_static_credentials(input) {
            Ok(_) => {},
            Err(f) => {
                return Err(f);
            },
        }
        match reject_role_fields(input) {
            Ok(_) => {},
            Err(f) => {
                return Err(f);
            },
        }
        Ok(ParsedS3Auth::Credentials(ParsedS3CredentialSource::DefaultChain { disable_ec2_metadata }))
    } else if input.auth_kind == S3_AUTH_STATIC {
        if input.source_kind != S3_SOURCE_STATIC {
            return Err(invalid_text("static S3 authentication requires the static source kind"));
        }
        if disable_ec2_metadata {
            return Err(invalid_text("disable_ec2_metadata is only valid for a default credential chain"));
        }
        match reject_role_fields(input) {
            Ok(_) => {},
            Err(f) => {
                return Err(f);
            },
        }
        match parse_static_credentials(input) {
            Ok(s) => Ok(ParsedS3Auth::Credentials(s)),
            Err(f) => Err(f),
        }
    } else if input.auth_kind == S3_AUTH_UNSIGNED {
        if input.source_kind != S3_SOURCE_DEFAULT_CHAIN {
            return Err(invalid_text("unsigned S3 authentication requires the default source kind"));
        }
        if disable_ec2_metadata {
            return Err(invalid_text("disable_ec2_metadata is not valid for unsigned S3 authentication"));
        }
        match reject_static_credentials(input) {
            Ok(_) => {},
            Err(f) => {
                return Err(f);
            },
        }
        match reject_role_fields(input) {
            Ok(_) => {},
            Err(f) => {
                return Err(f);
            },
        }
        Ok(ParsedS3Auth::Unsigned)
    } else if input.auth_kind == S3_AUTH_ASSUME_ROLE {
        parse_assume_role(input)
    } else {
        Err(invalid_text("unsupported S3 authentication kind"))
    }
}

/// Decodes S3 constructor options: the structure is required; unknown bits
/// or flags and a non-zero reserved word are ABI mismatches; the bucket and
/// region are required, the root and endpoint optional, none of them empty;
/// then the authentication mode with exactly the fields it takes.
pub fn parse_s3_options(input: Option<&S3OptionsInput>) -> (res: CallResult<ParsedS3Options>)
    ensures
        match s3_outcome(input) {
            Ok(m) => res matches Ok(o) && s3_model(o) == m && s3_texts_valid(o),
            Err(e) => res matches Err(f) && f@ == e,
        },
{
    let input = match input {
        None => {
            return abi_mismatch();
        },
        Some(i) => i,
    };
    if input.present_bits & !S3_KNOWN_PRESENT != 0 || input.flags & !S3_KNOWN_FLAGS != 0 || input.reserved0 != 0 {
        return abi_mismatch();
    }
    let bucket = match required_nonempty_text(&input.bucket, "S3 bucket") {
        Ok(v) => v,
        Err(f) => {
            return Err(f);
        },
    };
    let region = match required_nonempty_text(&input.region, "S3 region") {
        Ok(v) => v,
        Err(f) => {
            return Err(f);
        },
    };
    let root = match optional_nonempty_text(&input.root, input.present_bits, S3_ROOT_PRESENT, "S3 root") {
        Ok(v) => v,
        Err(f) => {
            return Err(f);
        },
    };
    let endpoint = match optional_nonempty_text(
        &input.endpoint,
        input.present_bits,
        S3_ENDPOINT_PRESENT,
        "S3 endpoint",
    ) {
        Ok(v) => v,
        Err(f) => {
            return Err(f);
        },
    };
    let auth = match parse_s3_auth(input) {
        Ok(a) => a,
        Err(f) => {
            return Err(f);
        },
    };
    Ok(
        ParsedS3Options {
            bucket,
            region,
            root,
            endpoint,
            virtual_host_style: input.flags & S3_VIRTUAL_HOST_STYLE != 0,
            auth,
        },
    )
}

/// Whether every text of decoded S3 options is well-formed UTF-8.
pub open spec fn source_texts_valid(s: ParsedS3CredentialSource) -> bool {
    match s {
        ParsedS3CredentialSource::DefaultChain { .. } => true,
        ParsedS3CredentialSource::Static { access_key_id, secret_access_key, session_token } => {
            &&& valid_utf8(access_key_id@)
            &&& valid_utf8(secret_access_key@)
            &&& session_token matches Some(t) ==> valid_utf8(t@)
        },
    }
}

/// Whether every text of decoded S3 options is well-formed UTF-8.
pub open spec fn s3_texts_valid(o: ParsedS3Options) -> bool {
    &&& valid_utf8(o.bucket@)
    &&& valid_utf8(o.region@)
    &&& o.root matches Some(t) ==> valid_utf8(t@)
    &&& o.endpoint matches Some(t) ==> valid_utf8(t@)
    &&& match o.auth {
        ParsedS3Auth::Credentials(s) => source_texts_valid(s),
        ParsedS3Auth::Unsigned => true,
        ParsedS3Auth::AssumeRole { role_arn, source, external_id, role_session_name, .. } => {
            &&& valid_utf8(role_arn@)
            &&& source_texts_valid(source)
            &&& external_id matches Some(t) ==> valid_utf8(t@)
            &&& role_session_name matches Some(t) ==> valid_utf8(t@)
        },
    }
}

/// The text of well-formed UTF-8 bytes.
fn as_text(bytes: &[u8]) -> (text: &str)
    requires
        valid_utf8(bytes@),
    ensures
        text@ == decode_utf8(bytes@),
{
    match utf8_view(bytes) {
        Some(text) => text,
        None => "",
    }
}

/// The settings a credential source adds: the default chain optionally skips
/// the EC2 metadata service; static keys also stop the builder from loading
/// configuration or asking the metadata service.
pub open spec fn source_settings(s: S3Settings, source: SourceModel) -> S3Settings {
    match source {
        SourceModel::DefaultChain { disable_ec2_metadata } => if disable_ec2_metadata {
            s.without_ec2_metadata()
        } else {
            s
        },
        SourceModel::Static { access_key_id, secret_access_key, session_token } => {
            let keyed = s.with_access_key_id(decode_utf8(access_key_id)).with_secret_access_key(
                decode_utf8(secret_access_key),
            ).without_config_load().without_ec2_metadata();
            match session_token {
                Some(t) => keyed.with_session_token(decode_utf8(t)),
                None => keyed,
            }
        },
    }
}

/// The settings an S3 builder is given for decoded options: the bucket and
/// region, the root and endpoint when present, virtual-host addressing when
/// asked for, then the authentication: a credential source; unsigned
/// requests, which also load no configuration and skip the metadata service;
/// or an assumed role over a credential source, with its optional external
/// id, session name and duration.
pub open spec fn s3_settings_for(m: S3Model) -> S3Settings {
    let base = empty_s3_settings().with_bucket(decode_utf8(m.bucket)).with_region(decode_utf8(m.region));
    let rooted = match m.root {
        Some(r) => base.with_root(decode_utf8(r)),
        None => base,
    };
    let located = match m.endpoint {
        Some(e) => rooted.with_endpoint(decode_utf8(e)),
        None => rooted,
    };
    let styled = if m.virtual_host_style {
        located.with_virtual_host_style()
    } else {
        located
    };
    match m.auth {
        AuthModel::Credentials(source) => source_settings(styled, source),
        AuthModel::Unsigned => styled.without_signature().without_config_load().without_ec2_metadata(),
        AuthModel::AssumeRole { role_arn, source, external_id, role_session_name, duration_seconds } => {
            let with_role = source_settings(styled, source).with_role_arn(decode_utf8(role_arn));
            let with_id = match external_id {
                Some(id) => with_role.with_external_id(decode_utf8(id)),
                None => with_role,
            };
            let with_name = match role_session_name {
                Some(n) => with_id.with_role_session_name(decode_utf8(n)),
                None => with_id,
            };
            match duration_seconds {
                Some(d) => with_name.with_assume_role_duration(d),
                None => with_name,
            }
        },
    }
}

/// A decoded optional text.
pub open spec fn decoded(t: Option<Seq<u8>>) -> Option<Seq<char>> {
    match t {
        Some(b) => Some(decode_utf8(b)),
        None => None,
    }
}

/// A text that is well-formed UTF-8 and not empty, as decoding keeps it.
pub open spec fn usable_text(t: Seq<u8>) -> bool {
    valid_utf8(t) && t.len() > 0
}

/// An optional text that, when given, is usable.
pub open spec fn usable_option(t: Option<Seq<u8>>) -> bool {
    t matches Some(b) ==> usable_text(b)
}

/// Whether every text of a credential source is usable.
pub open spec fn source_usable(s: SourceModel) -> bool {
    match s {
        SourceModel::DefaultChain { .. } => true,
        SourceModel::Static { access_key_id, secret_access_key, session_token } => usable_text(access_key_id)
            && usable_text(secret_access_key) && usable_option(session_token),
    }
}

/// Whether every text of decoded S3 options is usable.
pub open spec fn s3_model_usable(m: S3Model) -> bool {
    &&& usable_text(m.bucket)
    &&& usable_text(m.region)
    &&& usable_option(m.root)
    &&& usable_option(m.endpoint)
    &&& match m.auth {
        AuthModel::Credentials(s) => source_usable(s),
        AuthModel::Unsigned => true,
        AuthModel::AssumeRole { role_arn, source, external_id, role_session_name, .. } => usable_text(role_arn)
            && source_usable(source) && usable_option(external_id) && usable_option(role_session_name),
    }
}

/// Whether a builder's credential settings are those of a source: a default
/// chain gives no keys and leaves configuration loading on, skipping the
/// metadata service only when asked; static keys give each key as its own
/// setting, the session token when there is one, and turn configuration
/// loading and the metadata service off.
pub open spec fn credentials_given(s: S3Settings, source: SourceModel) -> bool {
    match source {
        SourceModel::DefaultChain { disable_ec2_metadata } => {
            &&& s.access_key_id is None
            &&& s.secret_access_key is None
            &&& s.session_token is None
            &&& !s.disable_config_load
            &&& s.disable_ec2_metadata == disable_ec2_metadata
        },
        SourceModel::Static { access_key_id, secret_access_key, session_token } => {
            &&& s.access_key_id == Some(decode_utf8(access_key_id))
            &&& s.secret_access_key == Some(decode_utf8(secret_access_key))
            &&& s.session_token == decoded(session_token)
            &&& s.disable_config_load
            &&& s.disable_ec2_metadata
        },
    }
}

/// Whether a builder has no assumed-role settings.
pub open spec fn no_role(s: S3Settings) -> bool {
    &&& s.role_arn is None
    &&& s.external_id is None
    &&& s.role_session_name is None
    &&& s.assume_role_duration_seconds is None
}

/// Whether a builder's settings are what the options say, each setting from
/// its own option.
pub open spec fn settings_follow(m: S3Model, s: S3Settings) -> bool {
    &&& s.bucket == decode_utf8(m.bucket)
    &&& s.region == Some(decode_utf8(m.region))
    &&& s.root == decoded(m.root)
    &&& s.endpoint == match m.endpoint {
        Some(e) => Some(trim_trailing_slashes(decode_utf8(e))),
        None => None,
    }
    &&& s.enable_virtual_host_style == m.virtual_host_style
    &&& match m.auth {
        AuthModel::Credentials(source) => !s.skip_signature && credentials_given(s, source) && no_role(s),
        AuthModel::Unsigned => {
            &&& s.skip_signature
            &&& s.disable_config_load
            &&& s.disable_ec2_metadata
            &&& s.access_key_id is None
            &&& s.secret_access_key is None
            &&& s.session_token is None
            &&& no_role(s)
        },
        AuthModel::AssumeRole { role_arn, source, external_id, role_session_name, duration_seconds } => {
            &&& !s.skip_signature
            &&& credentials_given(s, source)
            &&& s.role_arn == Some(decode_utf8(role_arn))
            &&& s.external_id == decoded(external_id)
            &&& s.role_session_name == decoded(role_session_name)
            &&& s.assume_role_duration_seconds == duration_seconds
        },
    }
}

/// Decoding a usable text gives a text that is not empty.
proof fn lemma_decoded_not_empty(t: Seq<u8>)
    requires
        usable_text(t),
    ensures
        decode_utf8(t).len() > 0,
{
    vstd::utf8::decode_utf8_encode_utf8(t);
}

/// Each setting of the builder [`s3_builder_for`] fills comes from its own
/// option: the bucket, region, root and endpoint (without trailing slashes),
/// the addressing style, the keys of a static source, and, for an assumed
/// role, the role, external id, session name and duration, each decoded from
/// the option of the same name.
pub proof fn law_s3_builder_gets_each_option(m: S3Model)
    requires
        s3_model_usable(m),
    ensures
        settings_follow(m, s3_settings_for(m)),
{
    lemma_decoded_not_empty(m.bucket);
    lemma_decoded_not_empty(m.region);
    if let Some(t) = m.root {
        lemma_decoded_not_empty(t);
    }
    if let Some(t) = m.endpoint {
        lemma_decoded_not_empty(t);
    }
    let source = match m.auth {
        AuthModel::Credentials(s) => Some(s),
        AuthModel::Unsigned => None,
        AuthModel::AssumeRole { role_arn, source, external_id, role_session_name, .. } => {
            lemma_decoded_not_empty(role_arn);
            if let Some(t) = external_id {
                lemma_decoded_not_empty(t);
            }
            if let Some(t) = role_session_name {
                lemma_decoded_not_empty(t);
            }
            Some(source)
        },
    };
    if let Some(SourceModel::Static { access_key_id, secret_access_key, session_token }) = source {
        lemma_decoded_not_empty(access_key_id);
        lemma_decoded_not_empty(secret_access_key);
        if let Some(t) = session_token {
            lemma_decoded_not_empty(t);
        }
    }
}

/// A required text that decodes is usable.
proof fn lemma_required_usable(arg: TextArg, label: Seq<u8>)
    ensures
        required_nonempty_outcome(arg, label) matches Ok(t) ==> usable_text(t),
{
}

/// An optional text that decodes is usable when given.
proof fn lemma_optional_usable(arg: TextArg, present_bits: u64, bit: u64, label: Seq<u8>)
    ensures
        optional_nonempty_outcome(arg, present_bits, bit, label) matches Ok(t) ==> usable_option(t),
{
}

/// Decoded S3 options have only usable texts.
proof fn lemma_decoded_options_usable(input: Option<&S3OptionsInput>)
    ensures
        s3_outcome(input) matches Ok(m) ==> s3_model_usable(m),
{
    if let Some(i) = input {
        lemma_required_usable(i.bucket, "S3 bucket".spec_bytes());
        lemma_required_usable(i.region, "S3 region".spec_bytes());
        lemma_optional_usable(i.root, i.present_bits, S3_ROOT_PRESENT, "S3 root".spec_bytes());
        lemma_optional_usable(i.endpoint, i.present_bits, S3_ENDPOINT_PRESENT, "S3 endpoint".spec_bytes());
        lemma_required_usable(i.access_key_id, "S3 access_key_id".spec_bytes());
        lemma_required_usable(i.secret_access_key, "S3 secret_access_key".spec_bytes());
        lemma_optional_usable(i.session_token, i.present_bits, S3_SESSION_TOKEN_PRESENT, "S3 session_token".spec_bytes());
        lemma_required_usable(i.role_arn, "S3 role_arn".spec_bytes());
        lemma_optional_usable(i.external_id, i.present_bits, S3_EXTERNAL_ID_PRESENT, "S3 external_id".spec_bytes());
        lemma_optional_usable(
            i.role_session_name,
            i.present_bits,
            S3_ROLE_SESSION_NAME_PRESENT,
            "S3 role_session_name".spec_bytes(),
        );
    }
}

/// Whatever S3 options structure decodes, the builder gets each of its
/// settings from the option of the same name (see [`settings_follow`]).
pub proof fn law_decoded_s3_options_reach_the_builder(input: Option<&S3OptionsInput>)
    ensures
        s3_outcome(input) matches Ok(m) ==> settings_follow(m, s3_settings_for(m)),
{
    lemma_decoded_options_usable(input);
    if let Ok(m) = s3_outcome(input) {
        law_s3_builder_gets_each_option(m);
    }
}

/// Whether a decoded credential source is the one the options describe:
/// the default chain for that source kind, skipping the metadata service
/// exactly when the flag says so; or each static key from its own view and
/// the session token from its view under its presence bit.
pub open spec fn source_from_input(s: SourceModel, i: S3OptionsInput) -> bool {
    match s {
        SourceModel::DefaultChain { disable_ec2_metadata } => i.source_kind == S3_SOURCE_DEFAULT_CHAIN
            && disable_ec2_metadata == (i.flags & S3_DISABLE_EC2_METADATA != 0),
        SourceModel::Static { access_key_id, secret_access_key, session_token } => {
            &&& i.source_kind == S3_SOURCE_STATIC
            &&& i.flags & S3_DISABLE_EC2_METADATA == 0
            &&& access_key_id == given_text(i.access_key_id)
            &&& secret_access_key == given_text(i.secret_access_key)
            &&& session_token == given_when_present(i.session_token, i.present_bits, S3_SESSION_TOKEN_PRESENT)
        },
    }
}

/// Decoded S3 options keep each field the caller gave: the bucket, region,
/// root and endpoint from their own views (the last two under their presence
/// bits), virtual-host addressing exactly when its flag is set, and the
/// authentication the kind selects, with each assumed-role field (role,
/// external id, session name, duration) and each key from its own input.
pub proof fn law_s3_options_keep_each_field(i: &S3OptionsInput)
    ensures
        s3_outcome(Some(i)) matches Ok(m) ==> {
            &&& m.bucket == given_text(i.bucket)
            &&& m.region == given_text(i.region)
            &&& m.root == given_when_present(i.root, i.present_bits, S3_ROOT_PRESENT)
            &&& m.endpoint == given_when_present(i.endpoint, i.present_bits, S3_ENDPOINT_PRESENT)
            &&& m.virtual_host_style == (i.flags & S3_VIRTUAL_HOST_STYLE != 0)
            &&& match m.auth {
                AuthModel::Credentials(source) => (i.auth_kind == S3_AUTH_DEFAULT_CHAIN || i.auth_kind
                    == S3_AUTH_STATIC) && source_from_input(source, *i) && (i.auth_kind == S3_AUTH_STATIC
                    <==> source is Static),
                AuthModel::Unsigned => i.auth_kind == S3_AUTH_UNSIGNED,
                AuthModel::AssumeRole { role_arn, source, external_id, role_session_name, duration_seconds } => {
                    &&& i.auth_kind == S3_AUTH_ASSUME_ROLE
                    &&& role_arn == given_text(i.role_arn)
                    &&& external_id == given_when_present(i.external_id, i.present_bits, S3_EXTERNAL_ID_PRESENT)
                    &&& role_session_name == given_when_present(
                        i.role_session_name,
                        i.present_bits,
                        S3_ROLE_SESSION_NAME_PRESENT,
                    )
                    &&& duration_seconds == if i.present_bits & S3_ASSUME_ROLE_DURATION_PRESENT != 0 {
                        Some(i.assume_role_duration_seconds)
                    } else {
                        None
                    }
                    &&& source_from_input(source, *i)
                },
            }
        },
{
}

/// Applies a credential source to a builder (see [`source_settings`]).
fn configure_s3_source(builder: S3Setup, source: &ParsedS3CredentialSource) -> (res: S3Setup)
    requires
        source_texts_valid(*source),
    ensures
        res@ == source_settings(builder@, source_model(*source)),
{
    match source {
        ParsedS3CredentialSource::DefaultChain { disable_ec2_metadata } => {
            if *disable_ec2_metadata {
                s3_disable_ec2_metadata(builder)
            } else {
                builder
            }
        },
        ParsedS3CredentialSource::Static { access_key_id, secret_access_key, session_token } => {
            let mut builder = s3_access_key_id(builder, as_text(access_key_id.as_slice()));
            builder = s3_secret_access_key(builder, as_text(secret_access_key.as_slice()));
            builder = s3_disable_config_load(builder);
            builder = s3_disable_ec2_metadata(builder);
            match session_token {
                Some(token) => s3_session_token(builder, as_text(token.as_slice())),
                None => builder,
            }
        },
    }
}

/// Fills an S3 builder with the settings decoded options describe (see
/// [`s3_settings_for`]).
pub fn s3_builder_for(options: &ParsedS3Options) -> (res: S3Setup)
    requires
        s3_texts_valid(*options),
    ensures
        res@ == s3_settings_for(s3_model(*options)),
{
    let mut builder = s3_builder();
    builder = s3_bucket(builder, as_text(options.bucket.as_slice()));
    builder = s3_region(builder, as_text(options.region.as_slice()));
    match &options.root {
        Some(root) => {
            builder = s3_root(builder, as_text(root.as_slice()));
        },
        None => {},
    }
    match &options.endpoint {
        Some(endpoint) => {
            builder = s3_endpoint(builder, as_text(endpoint.as_slice()));
        },
        None => {},
    }
    if options.virtual_host_style {
        builder = s3_enable_virtual_host_style(builder);
    }
    match &options.auth {
        ParsedS3Auth::Credentials(source) => configure_s3_source(builder, source),
        ParsedS3Auth::Unsigned => {
            let b = s3_skip_signature(builder);
            let b = s3_disable_config_load(b);
            s3_disable_ec2_metadata(b)
        },
        ParsedS3Auth::AssumeRole { role_arn, source, external_id, role_session_name, duration_seconds } => {
            let mut b = configure_s3_source(builder, source);
            b = s3_role_arn(b, as_text(role_arn.as_slice()));
            match external_id {
                Some(id) => {
                    b = s3_external_id(b, as_text(id.as_slice()));
                },
                None => {},
            }
            match role_session_name {
                Some(name) => {
                    b = s3_role_session_name(b, as_text(name.as_slice()));
                },
                None => {},
            }
            match duration_seconds {
                Some(seconds) => {
                    b = s3_assume_role_duration_seconds(b, *seconds);
                },
                None => {},
            }
            b
        },
    }
}

/// Builds the S3 operator that decoded options describe, from the builder
/// [`s3_builder_for`] fills; a failure is reported with its category and a
/// fixed message, never the backend's text, which may quote credentials.
pub fn build_s3_operator(options: &ParsedS3Options) -> (res: CallResult<Recorded<opendal::Operator, S3Settings>>)
    requires
        s3_texts_valid(*options),
    ensures
        res matches Ok(op) ==> op@ == s3_settings_for(s3_model(*options)),
        res matches Err(f) ==> is_service_failure_with(f@, "operator construction failed".spec_bytes()),
{
    match s3_operator(s3_builder_for(options)) {
        Ok(operator) => Ok(operator),
        Err(error) => Err(construction_error(&error)),
    }
}

} // verus!
