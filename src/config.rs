//! Stream configuration as a foreign caller passes it: flat scalar fields,
//! with the payload encoding given as an integer code.
use databricks_zerobus_ingest_sdk::databricks::zerobus::RecordType;
use databricks_zerobus_ingest_sdk::StreamConfigurationOptions;
use vstd::prelude::*;

verus! {

#[verifier::external_type_specification]
pub struct ExRecordType(RecordType);

#[verifier::external_type_specification]
#[verifier::external_body]
pub struct ExStreamConfigurationOptions(StreamConfigurationOptions);

/// The code of protobuf payloads.
pub const RECORD_TYPE_PROTO: i32 = 1;

/// The code of JSON payloads.
pub const RECORD_TYPE_JSON: i32 = 2;

/// Stream options passed by value across the boundary.
#[derive(Clone, Copy, Debug)]
pub struct CStreamConfigurationOptions {
    pub max_inflight_requests: usize,
    pub recovery: bool,
    pub recovery_timeout_ms: u64,
    pub recovery_backoff_ms: u64,
    pub recovery_retries: u32,
    pub server_lack_of_ack_timeout_ms: u64,
    pub flush_timeout_ms: u64,
    pub record_type: i32,
}

/// The payload encoding that a code selects; an unknown code selects none.
pub open spec fn record_type_of(code: i32) -> RecordType {
    if code == RECORD_TYPE_PROTO {
        RecordType::Proto
    } else if code == RECORD_TYPE_JSON {
        RecordType::Json
    } else {
        RecordType::Unspecified
    }
}

/// Returns the payload encoding that `code` selects.
pub fn record_type_for(code: i32) -> (r: RecordType)
    ensures
        r == record_type_of(code),
{
    if code == RECORD_TYPE_PROTO {
        RecordType::Proto
    } else if code == RECORD_TYPE_JSON {
        RecordType::Json
    } else {
        RecordType::Unspecified
    }
}

/// Relies on `StreamConfigurationOptions::default` for the fields that the
/// flat options do not carry; the fields they do carry are moved over as they
/// are.
#[verifier::external_body]
fn client_options(c_opts: CStreamConfigurationOptions, record_type: RecordType) -> StreamConfigurationOptions {
    let mut opts = StreamConfigurationOptions::default();
    opts.max_inflight_requests = c_opts.max_inflight_requests;
    opts.recovery = c_opts.recovery;
    opts.recovery_timeout_ms = c_opts.recovery_timeout_ms;
    opts.recovery_backoff_ms = c_opts.recovery_backoff_ms;
    opts.recovery_retries = c_opts.recovery_retries;
    opts.server_lack_of_ack_timeout_ms = c_opts.server_lack_of_ack_timeout_ms;
    opts.flush_timeout_ms = c_opts.flush_timeout_ms;
    opts.record_type = record_type;
    opts
}

/// Relies on `StreamConfigurationOptions::default`: its scalar fields are
/// moved into the flat form as they are, the encoding as its code. The values
/// are the client's documented defaults.
#[verifier::external_body]
fn client_defaults() -> (r: CStreamConfigurationOptions)
    ensures
        r.max_inflight_requests == 1_000_000,
        r.recovery,
        r.recovery_timeout_ms == 15_000,
        r.recovery_backoff_ms == 2_000,
        r.recovery_retries == 4,
        r.server_lack_of_ack_timeout_ms == 60_000,
        r.flush_timeout_ms == 300_000,
        r.record_type == RECORD_TYPE_PROTO,
{
    let opts = StreamConfigurationOptions::default();
    CStreamConfigurationOptions {
        max_inflight_requests: opts.max_inflight_requests,
        recovery: opts.recovery,
        recovery_timeout_ms: opts.recovery_timeout_ms,
        recovery_backoff_ms: opts.recovery_backoff_ms,
        recovery_retries: opts.recovery_retries,
        server_lack_of_ack_timeout_ms: opts.server_lack_of_ack_timeout_ms,
        flush_timeout_ms: opts.flush_timeout_ms,
        record_type: opts.record_type as i32,
    }
}

impl From<CStreamConfigurationOptions> for StreamConfigurationOptions {
    /// The client's options: the encoding as `record_type_for` maps its code,
    /// the other fields as given, and the client's defaults for the rest.
    fn from(c_opts: CStreamConfigurationOptions) -> Self {
        client_options(c_opts, record_type_for(c_opts.record_type))
    }
}

impl vstd::std_specs::convert::FromSpecImpl<CStreamConfigurationOptions> for StreamConfigurationOptions {
    open spec fn obeys_from_spec() -> bool {
        false
    }

    open spec fn from_spec(v: CStreamConfigurationOptions) -> Self {
        arbitrary()
    }
}

/// The client's default options in flat form, with protobuf payloads.
pub fn zerobus_get_default_config() -> (r: CStreamConfigurationOptions)
    ensures
        r.max_inflight_requests == 1_000_000,
        r.recovery,
        r.recovery_timeout_ms == 15_000,
        r.recovery_backoff_ms == 2_000,
        r.recovery_retries == 4,
        r.server_lack_of_ack_timeout_ms == 60_000,
        r.flush_timeout_ms == 300_000,
        r.record_type == RECORD_TYPE_PROTO,
{
    let mut opts = client_defaults();
    opts.record_type = RECORD_TYPE_PROTO;
    opts
}

} // verus!
