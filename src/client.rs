//! Where the bridge meets the streaming client, the task runtime and the
//! protobuf decoder: their errors become the bridge's own, finished tasks are
//! told from running ones, and schema descriptors are decoded.
use crate::acks::{AckPoll, AckRegistry};
use crate::outcome::IngestError;
use databricks_zerobus_ingest_sdk::{TableProperties, ZerobusError, ZerobusSdk, ZerobusStream};
use prost::{DecodeError, Message};
use prost_types::DescriptorProto;
use tokio::task::{JoinError, JoinHandle};
use vstd::prelude::*;
use vstd::string::to_string_from_display_ensures;

verus! {

#[verifier::external_type_specification]
#[verifier::external_body]
pub struct ExZerobusError(ZerobusError);

#[verifier::external_type_specification]
#[verifier::external_body]
pub struct ExJoinError(JoinError);

#[verifier::external_type_specification]
#[verifier::external_body]
pub struct ExZerobusSdk(ZerobusSdk);

#[verifier::external_type_specification]
#[verifier::external_body]
pub struct ExZerobusStream(ZerobusStream);

#[verifier::external_type_specification]
pub struct ExTableProperties(TableProperties);

#[verifier::external_type_specification]
#[verifier::external_body]
#[verifier::reject_recursive_types(T)]
pub struct ExJoinHandle<T>(JoinHandle<T>);

#[verifier::external_type_specification]
#[verifier::external_body]
pub struct ExDescriptorProto(DescriptorProto);

#[verifier::external_type_specification]
#[verifier::external_body]
pub struct ExDecodeError(DecodeError);

/// Relies on tokio's `JoinHandle::is_finished`, which does not block. Whether
/// a task has finished depends on timing alone, so nothing is stated of it.
pub assume_specification<T>[ JoinHandle::<T>::is_finished ](handle: &JoinHandle<T>) -> bool;

/// Relies on `ZerobusError::is_retryable`, which classifies the error by its
/// variant and, for gRPC failures, by the status code it carries.
pub assume_specification[ ZerobusError::is_retryable ](err: &ZerobusError) -> bool;

/// Relies on `ZerobusSdk::new`: it puts "https://" before an endpoint that has
/// no scheme and takes the workspace id from the host, which never fails, so
/// every pair of strings yields a client.
#[allow(deprecated)]
pub assume_specification[ ZerobusSdk::new ](
    zerobus_endpoint: String,
    unity_catalog_url: String,
) -> (r: Result<ZerobusSdk, ZerobusError>)
    ensures
        r is Ok,
;

/// Whether `bytes` decode as one `DescriptorProto` message.
pub uninterp spec fn descriptor_decodes(bytes: Seq<u8>) -> bool;

/// Relies on prost's `Message::decode` for `DescriptorProto`: it reads the
/// whole buffer as one encoded message, or reports why it could not; which of
/// the two depends on the bytes alone.
#[verifier::external_body]
fn decode_descriptor(bytes: &[u8]) -> (r: Result<DescriptorProto, DecodeError>)
    ensures
        r is Ok <==> descriptor_decodes(bytes@),
{
    DescriptorProto::decode(bytes)
}

impl IngestError {
    /// The bridge's form of an error of the streaming client while a client or
    /// a stream is set up: its displayed text, never retryable.
    pub fn from_setup(err: &ZerobusError) -> (r: IngestError)
        ensures
            r matches IngestError::Transport { retryable: false, .. },
            r matches IngestError::Transport { message, .. }
                && to_string_from_display_ensures::<ZerobusError>(err, message),
    {
        IngestError::Transport { message: err.to_string(), retryable: false }
    }

    /// The bridge's form of an error of the streaming client: its displayed
    /// text, and whether the client classifies it as retryable.
    pub fn from_zerobus(err: &ZerobusError) -> (r: IngestError)
        ensures
            r is Transport,
            r matches IngestError::Transport { message, .. }
                && to_string_from_display_ensures::<ZerobusError>(err, message),
    {
        let retryable = err.is_retryable();
        IngestError::Transport { message: err.to_string(), retryable }
    }
}

/// The outcome of an acknowledgment task, once joined: its offset, the
/// client's error, or `TaskFailed` where the task panicked or was aborted.
pub fn resolve_joined(joined: Result<Result<i64, ZerobusError>, JoinError>) -> (r: Result<
    i64,
    IngestError,
>)
    ensures
        match joined {
            Ok(Ok(offset)) => r == Ok::<i64, IngestError>(offset),
            Ok(Err(e)) => r matches Err(IngestError::Transport { message, .. })
                && to_string_from_display_ensures::<ZerobusError>(&e, message),
            Err(_) => r == Err::<i64, IngestError>(IngestError::TaskFailed),
        },
{
    match joined {
        Ok(Ok(offset)) => Ok(offset),
        Ok(Err(err)) => Err(IngestError::from_zerobus(&err)),
        Err(_) => Err(IngestError::TaskFailed),
    }
}

/// Polls the task under `id` without blocking: a finished task is removed and
/// handed back, a running one is left in place.
pub fn poll_task<T>(registry: &mut AckRegistry<JoinHandle<T>>, id: u64) -> (r: AckPoll<
    JoinHandle<T>,
>)
    requires
        old(registry)@.wf(),
    ensures
        r is Invalid <==> !old(registry)@.is_live(id),
        r is Ready ==> r->0 == old(registry)@.pending[id],
        r is Ready ==> final(registry)@ == old(registry)@.after_consume(id),
        !(r is Ready) ==> final(registry)@ == old(registry)@,
        final(registry)@.wf(),
{
    registry.try_poll(id, |handle: &JoinHandle<T>| handle.is_finished())
}

/// Decodes the schema descriptor of a stream: no bytes means no descriptor,
/// and bytes that do not decode are a `DecodeError`.
pub fn descriptor_from_bytes(bytes: &[u8]) -> (r: Result<Option<DescriptorProto>, IngestError>)
    ensures
        bytes@.len() == 0 ==> r == Ok::<Option<DescriptorProto>, IngestError>(None),
        bytes@.len() > 0 ==> (r matches Ok(Some(_)) || r matches Err(IngestError::DecodeError(_))),
        bytes@.len() > 0 ==> (r is Ok <==> descriptor_decodes(bytes@)),
{
    if bytes.len() == 0 {
        return Ok(None);
    }
    match decode_descriptor(bytes) {
        Ok(descriptor) => Ok(Some(descriptor)),
        Err(err) => Err(IngestError::DecodeError(err.to_string())),
    }
}

/// Describes the table of a new stream: its name, and the schema descriptor
/// decoded from `descriptor_bytes`, where there are any.
pub fn table_properties(table_name: String, descriptor_bytes: &[u8]) -> (r: Result<
    TableProperties,
    IngestError,
>)
    ensures
        descriptor_bytes@.len() == 0 ==> r == Ok::<TableProperties, IngestError>(
            TableProperties { table_name, descriptor_proto: None },
        ),
        descriptor_bytes@.len() > 0 ==> match r {
            Ok(t) => t.table_name == table_name && t.descriptor_proto is Some,
            Err(e) => e is DecodeError,
        },
        descriptor_bytes@.len() > 0 ==> (r is Ok <==> descriptor_decodes(descriptor_bytes@)),
{
    match descriptor_from_bytes(descriptor_bytes) {
        Ok(descriptor_proto) => Ok(TableProperties { table_name, descriptor_proto }),
        Err(e) => Err(e),
    }
}

/// The owned handle of a client, which a foreign caller holds between the
/// call that creates it and the one that frees it.
pub struct CZerobusSdk {
    sdk: ZerobusSdk,
}

impl CZerobusSdk {
    /// A client for the given endpoints. Creating one never fails.
    #[allow(deprecated)]
    pub fn new(zerobus_endpoint: String, unity_catalog_url: String) -> (r: Result<
        CZerobusSdk,
        IngestError,
    >)
        ensures
            r is Ok,
    {
        match ZerobusSdk::new(zerobus_endpoint, unity_catalog_url) {
            Ok(sdk) => Ok(CZerobusSdk { sdk }),
            Err(err) => Err(IngestError::from_setup(&err)),
        }
    }

    /// The client, for the calls that open streams.
    pub fn client(&self) -> &ZerobusSdk {
        &self.sdk
    }

    /// The client, for changing its settings.
    pub fn client_mut(&mut self) -> &mut ZerobusSdk {
        &mut self.sdk
    }
}

/// The owned handle of an open stream.
pub struct CZerobusStream {
    stream: ZerobusStream,
}

impl CZerobusStream {
    /// Takes ownership of an open stream.
    pub fn new(stream: ZerobusStream) -> Self {
        CZerobusStream { stream }
    }

    /// The stream, for ingesting and flushing.
    pub fn stream(&self) -> &ZerobusStream {
        &self.stream
    }

    /// The stream, for closing it.
    pub fn stream_mut(&mut self) -> &mut ZerobusStream {
        &mut self.stream
    }
}

} // verus!
