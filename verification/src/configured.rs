//! Storage-library builders, layers and operators held beside a ghost record
//! of what they were told or what they report.
//!
//! The record of a [`Recorded`] value is set only by the trusted calls in this
//! module, so verified code elsewhere can neither forge nor alter it: an S3
//! builder records every setting handed to it, a timeout layer its two
//! bounds, an operator rebuilt with a layer the layer it was given, and an
//! operator or its information the texts the operator reports of itself.
use vstd::prelude::*;

verus! {

/// A value of the storage library with a ghost record beside it.
pub struct Recorded<T, M> {
    inner: T,
    record: Ghost<M>,
}

impl<T, M> View for Recorded<T, M> {
    type V = M;

    closed spec fn view(&self) -> M {
        self.record@
    }
}

impl<T, M> Recorded<T, M> {
    /// The value the record stands beside.
    pub closed spec fn value(&self) -> T {
        self.inner
    }

    /// The value itself.
    pub fn get(&self) -> (value: &T)
        ensures
            *value == self.value(),
    {
        &self.inner
    }

    /// Gives up the record and returns the value.
    pub fn into_inner(self) -> (value: T)
        ensures
            value == self.value(),
    {
        self.inner
    }
}

/// What an operator reports of itself: its scheme, root and name. The
/// storage library fixes them when it builds the operator's service.
pub struct InfoModel {
    pub scheme: Seq<char>,
    pub root: Seq<char>,
    pub name: Seq<char>,
}

/// The settings an S3 builder has been given.
pub struct S3Settings {
    pub root: Option<Seq<char>>,
    pub bucket: Seq<char>,
    pub endpoint: Option<Seq<char>>,
    pub region: Option<Seq<char>>,
    pub access_key_id: Option<Seq<char>>,
    pub secret_access_key: Option<Seq<char>>,
    pub session_token: Option<Seq<char>>,
    pub role_arn: Option<Seq<char>>,
    pub external_id: Option<Seq<char>>,
    pub role_session_name: Option<Seq<char>>,
    pub assume_role_duration_seconds: Option<u32>,
    pub disable_config_load: bool,
    pub disable_ec2_metadata: bool,
    pub skip_signature: bool,
    pub enable_virtual_host_style: bool,
}

/// An S3 builder with the settings it has been given.
pub type S3Setup = Recorded<opendal::services::S3, S3Settings>;

/// `value` when it is not empty, else `previous`: how most S3 setters treat
/// an empty text.
pub open spec fn unless_empty(value: Seq<char>, previous: Option<Seq<char>>) -> Option<Seq<char>> {
    if value.len() == 0 {
        previous
    } else {
        Some(value)
    }
}

/// A text without the `/` characters it ends with.
pub open spec fn trim_trailing_slashes(s: Seq<char>) -> Seq<char>
    decreases s.len(),
{
    if s.len() > 0 && s.last() == '/' {
        trim_trailing_slashes(s.drop_last())
    } else {
        s
    }
}

/// The settings of a new S3 builder: none.
pub open spec fn empty_s3_settings() -> S3Settings {
    S3Settings {
        root: None,
        bucket: Seq::empty(),
        endpoint: None,
        region: None,
        access_key_id: None,
        secret_access_key: None,
        session_token: None,
        role_arn: None,
        external_id: None,
        role_session_name: None,
        assume_role_duration_seconds: None,
        disable_config_load: false,
        disable_ec2_metadata: false,
        skip_signature: false,
        enable_virtual_host_style: false,
    }
}

impl S3Settings {
    /// After `root`: an empty root clears it.
    pub open spec fn with_root(self, v: Seq<char>) -> S3Settings {
        S3Settings { root: if v.len() == 0 { None } else { Some(v) }, ..self }
    }

    /// After `bucket`.
    pub open spec fn with_bucket(self, v: Seq<char>) -> S3Settings {
        S3Settings { bucket: v, ..self }
    }

    /// After `endpoint`: trailing slashes are dropped, an empty text ignored.
    pub open spec fn with_endpoint(self, v: Seq<char>) -> S3Settings {
        S3Settings { endpoint: if v.len() == 0 { self.endpoint } else { Some(trim_trailing_slashes(v)) }, ..self }
    }

    /// After `region`.
    pub open spec fn with_region(self, v: Seq<char>) -> S3Settings {
        S3Settings { region: unless_empty(v, self.region), ..self }
    }

    /// After `access_key_id`.
    pub open spec fn with_access_key_id(self, v: Seq<char>) -> S3Settings {
        S3Settings { access_key_id: unless_empty(v, self.access_key_id), ..self }
    }

    /// After `secret_access_key`.
    pub open spec fn with_secret_access_key(self, v: Seq<char>) -> S3Settings {
        S3Settings { secret_access_key: unless_empty(v, self.secret_access_key), ..self }
    }

    /// After `session_token`.
    pub open spec fn with_session_token(self, v: Seq<char>) -> S3Settings {
        S3Settings { session_token: unless_empty(v, self.session_token), ..self }
    }

    /// After `role_arn`.
    pub open spec fn with_role_arn(self, v: Seq<char>) -> S3Settings {
        S3Settings { role_arn: unless_empty(v, self.role_arn), ..self }
    }

    /// After `external_id`.
    pub open spec fn with_external_id(self, v: Seq<char>) -> S3Settings {
        S3Settings { external_id: unless_empty(v, self.external_id), ..self }
    }

    /// After `role_session_name`.
    pub open spec fn with_role_session_name(self, v: Seq<char>) -> S3Settings {
        S3Settings { role_session_name: unless_empty(v, self.role_session_name), ..self }
    }

    /// After `assume_role_duration_seconds`.
    pub open spec fn with_assume_role_duration(self, v: u32) -> S3Settings {
        S3Settings { assume_role_duration_seconds: Some(v), ..self }
    }

    /// After `disable_config_load`.
    pub open spec fn without_config_load(self) -> S3Settings {
        S3Settings { disable_config_load: true, ..self }
    }

    /// After `disable_ec2_metadata`.
    pub open spec fn without_ec2_metadata(self) -> S3Settings {
        S3Settings { disable_ec2_metadata: true, ..self }
    }

    /// After `skip_signature`.
    pub open spec fn without_signature(self) -> S3Settings {
        S3Settings { skip_signature: true, ..self }
    }

    /// After `enable_virtual_host_style`.
    pub open spec fn with_virtual_host_style(self) -> S3Settings {
        S3Settings { enable_virtual_host_style: true, ..self }
    }
}

/// The two bounds of a timeout layer, in milliseconds.
pub struct TimeoutSettings {
    pub operation_millis: nat,
    pub io_millis: nat,
}

/// The bounds of a retry layer: how many retries, the delay bounds in
/// milliseconds, and whether delays are jittered.
pub struct RetrySettings {
    pub max_times: nat,
    pub min_delay_millis: nat,
    pub max_delay_millis: nat,
    pub jitter: bool,
}

/// The layer an operator was rebuilt with.
pub enum AppliedLayer {
    Timeout(TimeoutSettings),
    Retry(RetrySettings),
}

/// Calls `S3::default`: a builder with no settings.
#[verifier::external_body]
pub(crate) fn s3_builder() -> (res: Recorded<opendal::services::S3, S3Settings>)
    ensures
        res@ == empty_s3_settings(),
{
    Recorded { inner: opendal::services::S3::default(), record: Ghost(empty_s3_settings()) }
}

/// Calls `S3::bucket`, which stores the bucket name.
#[verifier::external_body]
pub(crate) fn s3_bucket(b: Recorded<opendal::services::S3, S3Settings>, value: &str) -> (res: Recorded<
    opendal::services::S3,
    S3Settings,
>)
    ensures
        res@ == b@.with_bucket(value@),
{
    Recorded { inner: b.inner.bucket(value), record: b.record }
}

/// Calls `S3::region`, which stores a non-empty region.
#[verifier::external_body]
pub(crate) fn s3_region(b: Recorded<opendal::services::S3, S3Settings>, value: &str) -> (res: Recorded<
    opendal::services::S3,
    S3Settings,
>)
    ensures
        res@ == b@.with_region(value@),
{
    Recorded { inner: b.inner.region(value), record: b.record }
}

/// Calls `S3::root`, which stores the root, or clears it when empty.
#[verifier::external_body]
pub(crate) fn s3_root(b: Recorded<opendal::services::S3, S3Settings>, value: &str) -> (res: Recorded<
    opendal::services::S3,
    S3Settings,
>)
    ensures
        res@ == b@.with_root(value@),
{
    Recorded { inner: b.inner.root(value), record: b.record }
}

/// Calls `S3::endpoint`, which stores a non-empty endpoint without its
/// trailing slashes.
#[verifier::external_body]
pub(crate) fn s3_endpoint(b: Recorded<opendal::services::S3, S3Settings>, value: &str) -> (res: Recorded<
    opendal::services::S3,
    S3Settings,
>)
    ensures
        res@ == b@.with_endpoint(value@),
{
    Recorded { inner: b.inner.endpoint(value), record: b.record }
}

/// Calls `S3::enable_virtual_host_style`, which sets that flag.
#[verifier::external_body]
pub(crate) fn s3_enable_virtual_host_style(b: Recorded<opendal::services::S3, S3Settings>) -> (res: Recorded<
    opendal::services::S3,
    S3Settings,
>)
    ensures
        res@ == b@.with_virtual_host_style(),
{
    Recorded { inner: b.inner.enable_virtual_host_style(), record: b.record }
}

/// Calls `S3::disable_ec2_metadata`, which sets that flag.
#[verifier::external_body]
pub(crate) fn s3_disable_ec2_metadata(b: Recorded<opendal::services::S3, S3Settings>) -> (res: Recorded<
    opendal::services::S3,
    S3Settings,
>)
    ensures
        res@ == b@.without_ec2_metadata(),
{
    Recorded { inner: b.inner.disable_ec2_metadata(), record: b.record }
}

/// Calls `S3::disable_config_load`, which sets that flag.
#[verifier::external_body]
pub(crate) fn s3_disable_config_load(b: Recorded<opendal::services::S3, S3Settings>) -> (res: Recorded<
    opendal::services::S3,
    S3Settings,
>)
    ensures
        res@ == b@.without_config_load(),
{
    Recorded { inner: b.inner.disable_config_load(), record: b.record }
}

/// Calls `S3::skip_signature`, which sets that flag.
#[verifier::external_body]
pub(crate) fn s3_skip_signature(b: Recorded<opendal::services::S3, S3Settings>) -> (res: Recorded<
    opendal::services::S3,
    S3Settings,
>)
    ensures
        res@ == b@.without_signature(),
{
    Recorded { inner: b.inner.skip_signature(), record: b.record }
}

/// Calls `S3::access_key_id`, which stores a non-empty key id.
#[verifier::external_body]
pub(crate) fn s3_access_key_id(b: Recorded<opendal::services::S3, S3Settings>, value: &str) -> (res: Recorded<
    opendal::services::S3,
    S3Settings,
>)
    ensures
        res@ == b@.with_access_key_id(value@),
{
    Recorded { inner: b.inner.access_key_id(value), record: b.record }
}

/// Calls `S3::secret_access_key`, which stores a non-empty secret key.
#[verifier::external_body]
pub(crate) fn s3_secret_access_key(b: Recorded<opendal::services::S3, S3Settings>, value: &str) -> (res: Recorded<
    opendal::services::S3,
    S3Settings,
>)
    ensures
        res@ == b@.with_secret_access_key(value@),
{
    Recorded { inner: b.inner.secret_access_key(value), record: b.record }
}

/// Calls `S3::session_token`, which stores a non-empty session token.
#[verifier::external_body]
pub(crate) fn s3_session_token(b: Recorded<opendal::services::S3, S3Settings>, value: &str) -> (res: Recorded<
    opendal::services::S3,
    S3Settings,
>)
    ensures
        res@ == b@.with_session_token(value@),
{
    Recorded { inner: b.inner.session_token(value), record: b.record }
}

/// Calls `S3::role_arn`, which stores a non-empty role.
#[verifier::external_body]
pub(crate) fn s3_role_arn(b: Recorded<opendal::services::S3, S3Settings>, value: &str) -> (res: Recorded<
    opendal::services::S3,
    S3Settings,
>)
    ensures
        res@ == b@.with_role_arn(value@),
{
    Recorded { inner: b.inner.role_arn(value), record: b.record }
}

/// Calls `S3::external_id`, which stores a non-empty external id.
#[verifier::external_body]
pub(crate) fn s3_external_id(b: Recorded<opendal::services::S3, S3Settings>, value: &str) -> (res: Recorded<
    opendal::services::S3,
    S3Settings,
>)
    ensures
        res@ == b@.with_external_id(value@),
{
    Recorded { inner: b.inner.external_id(value), record: b.record }
}

/// Calls `S3::role_session_name`, which stores a non-empty session name.
#[verifier::external_body]
pub(crate) fn s3_role_session_name(b: Recorded<opendal::services::S3, S3Settings>, value: &str) -> (res: Recorded<
    opendal::services::S3,
    S3Settings,
>)
    ensures
        res@ == b@.with_role_session_name(value@),
{
    Recorded { inner: b.inner.role_session_name(value), record: b.record }
}

/// Calls `S3::assume_role_duration_seconds`, which stores the duration.
#[verifier::external_body]
pub(crate) fn s3_assume_role_duration_seconds(b: Recorded<opendal::services::S3, S3Settings>, seconds: u32) -> (res:
    Recorded<opendal::services::S3, S3Settings>)
    ensures
        res@ == b@.with_assume_role_duration(seconds),
{
    Recorded { inner: b.inner.assume_role_duration_seconds(seconds), record: b.record }
}

/// Calls `Operator::new` on an S3 builder: the operator, recording the
/// settings it was built from, or the error that building it raised (which
/// depends on the settings and the environment, so no clause says when).
#[verifier::external_body]
pub(crate) fn s3_operator(b: Recorded<opendal::services::S3, S3Settings>) -> (res: Result<
    Recorded<opendal::Operator, S3Settings>,
    opendal::Error,
>)
    ensures
        res matches Ok(op) ==> op@ == b@,
{
    match opendal::Operator::new(b.inner) {
        Ok(op) => Ok(Recorded { inner: op, record: b.record }),
        Err(e) => Err(e),
    }
}

/// Calls `TimeoutLayer::new`: a layer bounding each operation to 60 s and
/// each I/O step to 10 s.
#[verifier::external_body]
pub(crate) fn timeout_layer_new() -> (res: Recorded<opendal::layers::TimeoutLayer, TimeoutSettings>)
    ensures
        res@ == (TimeoutSettings { operation_millis: 60000, io_millis: 10000 }),
{
    Recorded {
        inner: opendal::layers::TimeoutLayer::new(),
        record: Ghost(TimeoutSettings { operation_millis: 60000, io_millis: 10000 }),
    }
}

/// Calls `TimeoutLayer::with_timeout` with `millis` milliseconds, which
/// replaces the operation bound.
#[verifier::external_body]
pub(crate) fn timeout_with_operation_millis(layer: Recorded<opendal::layers::TimeoutLayer, TimeoutSettings>, millis: u64) -> (res:
    Recorded<opendal::layers::TimeoutLayer, TimeoutSettings>)
    ensures
        res@ == (TimeoutSettings { operation_millis: millis as nat, io_millis: layer@.io_millis }),
{
    Recorded { inner: layer.inner.with_timeout(std::time::Duration::from_millis(millis)), record: layer.record }
}

/// Calls `TimeoutLayer::with_io_timeout` with `millis` milliseconds, which
/// replaces the I/O bound.
#[verifier::external_body]
pub(crate) fn timeout_with_io_millis(layer: Recorded<opendal::layers::TimeoutLayer, TimeoutSettings>, millis: u64) -> (res:
    Recorded<opendal::layers::TimeoutLayer, TimeoutSettings>)
    ensures
        res@ == (TimeoutSettings { operation_millis: layer@.operation_millis, io_millis: millis as nat }),
{
    Recorded { inner: layer.inner.with_io_timeout(std::time::Duration::from_millis(millis)), record: layer.record }
}

/// Calls `Operator::layer` with a timeout layer on a copy of the operator:
/// the operator rebuilt with that layer, recording the layer's bounds.
#[verifier::external_body]
pub(crate) fn operator_with_timeout_layer(
    operator: &opendal::Operator,
    layer: Recorded<opendal::layers::TimeoutLayer, TimeoutSettings>,
) -> (res: Recorded<opendal::Operator, AppliedLayer>)
    ensures
        res@ == AppliedLayer::Timeout(layer@),
{
    Recorded { inner: operator.clone().layer(layer.inner), record: Ghost(AppliedLayer::Timeout(layer.record@)) }
}

/// Calls `RetryLayer::new`, `with_max_times`, `with_min_delay` and
/// `with_max_delay`, then `Operator::layer` on a copy of the operator: the
/// operator rebuilt with a retry layer of those bounds and no jitter. The
/// retry layer is built here in one piece because Verus refuses to declare
/// its type (its parameter is bound by an outside trait).
#[verifier::external_body]
pub(crate) fn operator_with_retry_layer(operator: &opendal::Operator, max_times: usize, min_millis: u64, max_millis: u64) -> (res:
    Recorded<opendal::Operator, AppliedLayer>)
    ensures
        res@ == AppliedLayer::Retry(
            RetrySettings {
                max_times: max_times as nat,
                min_delay_millis: min_millis as nat,
                max_delay_millis: max_millis as nat,
                jitter: false,
            },
        ),
{
    let layer = opendal::layers::RetryLayer::new()
        .with_max_times(max_times)
        .with_min_delay(std::time::Duration::from_millis(min_millis))
        .with_max_delay(std::time::Duration::from_millis(max_millis));
    let settings = Ghost(RetrySettings { max_times: max_times as nat, min_delay_millis: min_millis as nat, max_delay_millis: max_millis as nat, jitter: false });
    Recorded { inner: operator.clone().layer(layer), record: Ghost(AppliedLayer::Retry(settings@)) }
}

/// Like [`operator_with_retry_layer`], with `RetryLayer::with_jitter` as
/// well, which turns jitter on.
#[verifier::external_body]
pub(crate) fn operator_with_jittered_retry_layer(
    operator: &opendal::Operator,
    max_times: usize,
    min_millis: u64,
    max_millis: u64,
) -> (res: Recorded<opendal::Operator, AppliedLayer>)
    ensures
        res@ == AppliedLayer::Retry(
            RetrySettings {
                max_times: max_times as nat,
                min_delay_millis: min_millis as nat,
                max_delay_millis: max_millis as nat,
                jitter: true,
            },
        ),
{
    let layer = opendal::layers::RetryLayer::new()
        .with_max_times(max_times)
        .with_min_delay(std::time::Duration::from_millis(min_millis))
        .with_max_delay(std::time::Duration::from_millis(max_millis))
        .with_jitter();
    let settings = Ghost(RetrySettings { max_times: max_times as nat, min_delay_millis: min_millis as nat, max_delay_millis: max_millis as nat, jitter: true });
    Recorded { inner: operator.clone().layer(layer), record: Ghost(AppliedLayer::Retry(settings@)) }
}

/// Calls `Operator::new` on a default `services::Memory` builder: an in-memory
/// operator. The memory builder's `build` always succeeds and the layers
/// `Operator::new` adds cannot fail, so the result is always `Ok`; the memory
/// service reports the scheme `memory` and the root `/`.
#[verifier::external_body]
pub(crate) fn memory_operator() -> (res: Result<Recorded<opendal::Operator, InfoModel>, opendal::Error>)
    ensures
        res is Ok,
        res matches Ok(op) ==> op@.scheme == "memory"@ && op@.root == "/"@,
{
    match opendal::Operator::new(opendal::services::Memory::default()) {
        Ok(op) => Ok(Recorded { inner: op, record: Ghost(arbitrary()) }),
        Err(e) => Err(e),
    }
}

/// Calls `Operator::via_iter`: builds an operator for `scheme` through the
/// service registry from the configuration pairs, or returns the error raised.
/// What the operator reports of itself is its own, recorded beside it.
#[verifier::external_body]
pub(crate) fn operator_via_iter(scheme: &str, config: Vec<(String, String)>) -> (res: Result<
    Recorded<opendal::Operator, InfoModel>,
    opendal::Error,
>) {
    match opendal::Operator::via_iter(scheme, config) {
        Ok(op) => Ok(Recorded { inner: op, record: Ghost(arbitrary()) }),
        Err(e) => Err(e),
    }
}

/// Calls `Operator::info`: the operator's information, which reports what the
/// operator's service was built with, so its texts are the operator's own.
#[verifier::external_body]
pub(crate) fn operator_info(operator: &Recorded<opendal::Operator, InfoModel>) -> (info: Recorded<
    opendal::OperatorInfo,
    InfoModel,
>)
    ensures
        info@ == operator@,
{
    Recorded { inner: operator.inner.info(), record: operator.record }
}

/// Calls `blocking::Operator::info`: the wrapped operator's information.
#[verifier::external_body]
pub(crate) fn blocking_operator_info(operator: &opendal::blocking::Operator) -> (info: Recorded<
    opendal::OperatorInfo,
    InfoModel,
>) {
    Recorded { inner: operator.info(), record: Ghost(arbitrary()) }
}

/// Calls `OperatorInfo::scheme`.
#[verifier::external_body]
pub(crate) fn info_scheme(info: &Recorded<opendal::OperatorInfo, InfoModel>) -> (scheme: &'static str)
    ensures
        scheme@ == info@.scheme,
{
    info.inner.scheme()
}

/// Calls `OperatorInfo::root`.
#[verifier::external_body]
pub(crate) fn info_root(info: &Recorded<opendal::OperatorInfo, InfoModel>) -> (root: String)
    ensures
        root@ == info@.root,
{
    info.inner.root()
}

/// Calls `OperatorInfo::name`.
#[verifier::external_body]
pub(crate) fn info_name(info: &Recorded<opendal::OperatorInfo, InfoModel>) -> (name: String)
    ensures
        name@ == info@.name,
{
    info.inner.name()
}

} // verus!
