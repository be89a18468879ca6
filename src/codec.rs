//! The records exchanged with capability providers, and their wire encoding.
//!
//! Records travel as MessagePack, written and read by `wascc_codec`'s
//! `serialize` and `deserialize`. The bytes that `serialize` produces for a
//! record are named [`packed`]; what `deserialize` reads from given bytes is
//! named [`unpacked`]. Both are functions of their arguments alone. Records
//! that hold a hash map (events, HTTP messages) are written in the map's
//! iteration order, which is not a function of the record, so no name is
//! given to their bytes. A reply is only read once its nesting depth has been
//! measured: the decoder recurses once per level of nesting, without a limit
//! of its own.

use crate::events::Event;
use crate::http_client::{Request, Response};
use crate::objectstore::{Blob, Container};
use crate::msgpack::nesting_within;
use vstd::prelude::*;

verus! {

/// What a record holds, field by field, for every record kind that this
/// library writes or reads.
pub enum Record {
    GetRequest { key: Seq<char> },
    GetResponse { value: Seq<char>, exists: bool },
    SetRequest { key: Seq<char>, value: Seq<char>, expires_s: i32 },
    DelRequest { key: Seq<char> },
    AddRequest { key: Seq<char>, value: i32 },
    AddResponse { value: i32 },
    ListPushRequest { key: Seq<char>, value: Seq<char> },
    ListDelItemRequest { key: Seq<char>, value: Seq<char> },
    ListClearRequest { key: Seq<char> },
    ListRangeRequest { key: Seq<char>, start: i32, stop: i32 },
    ListRangeResponse { values: Seq<Seq<char>> },
    ListResponse { new_count: i32 },
    SetAddRequest { key: Seq<char>, value: Seq<char> },
    SetRemoveRequest { key: Seq<char>, value: Seq<char> },
    SetQueryRequest { key: Seq<char> },
    SetQueryResponse { values: Seq<Seq<char>> },
    SetIntersectionRequest { keys: Seq<Seq<char>> },
    SetUnionRequest { keys: Seq<Seq<char>> },
    SetOperationResponse { new_count: i32 },
    KeyExistsQuery { key: Seq<char> },
    BrokerMessage { subject: Seq<char>, reply_to: Seq<char>, body: Seq<u8> },
    RequestMessage { subject: Seq<char>, body: Seq<u8>, timeout_ms: i64 },
    Container { id: Seq<char> },
    Blob { id: Seq<char>, container: Seq<char>, byte_size: u64 },
    /// Each blob as its identifier, its container and its size in bytes.
    BlobList { blobs: Seq<(Seq<char>, Seq<char>, u64)> },
    FileChunk {
        sequence_no: u64,
        container: Seq<char>,
        id: Seq<char>,
        total_bytes: u64,
        chunk_size: u64,
        context: Option<Seq<char>>,
        chunk_bytes: Seq<u8>,
    },
    StreamRequest { id: Seq<char>, container: Seq<char>, chunk_size: u64, context: Option<Seq<char>> },
    Transfer {
        blob_id: Seq<char>,
        container: Seq<char>,
        chunk_size: u64,
        total_size: u64,
        total_chunks: u64,
        context: Option<Seq<char>>,
    },
    GeneratorRequest { guid: bool, sequence: bool, random: bool, min: u32, max: u32 },
    GeneratorResult { guid: Option<Seq<char>>, sequence_number: u64, random_number: u32 },
    WriteResponse { event_id: Seq<char> },
    /// The time range is its least and greatest time.
    StreamQuery { stream_id: Seq<char>, range: Option<(u64, u64)>, count: u64 },
    /// Each event as its identifier and its stream; the values of an event are not named.
    StreamResults { events: Seq<(Seq<char>, Seq<char>)> },
    /// A response without its header map.
    HttpResponse { status_code: u32, status: Seq<char>, body: Seq<u8> },
    WriteLogRequest { level: u32, body: Seq<char> },
}

/// The kinds of record that a reply of the host is read as.
#[derive(Clone, Copy, Debug, PartialEq, Eq)]
pub enum RecordKind {
    GetResponse,
    AddResponse,
    ListRangeResponse,
    ListResponse,
    SetQueryResponse,
    SetOperationResponse,
    Container,
    Blob,
    BlobList,
    Transfer,
    GeneratorResult,
    WriteResponse,
    StreamResults,
    HttpResponse,
}

/// The bytes that `wascc_codec::serialize` writes for a record.
pub uninterp spec fn packed(r: Record) -> Seq<u8>;

/// What `wascc_codec::deserialize` reads from `bytes` as a record of the given
/// kind; `None` where the bytes are not such a record.
pub uninterp spec fn unpacked(bytes: Seq<u8>, kind: RecordKind) -> Option<Record>;

/// A view of strings as the sequences of their characters.
pub open spec fn texts(v: Seq<String>) -> Seq<Seq<char>> {
    v.map_values(|s: String| s@)
}

/// A view of an optional string.
pub open spec fn opt_text(s: Option<String>) -> Option<Seq<char>> {
    match s {
        Some(t) => Some(t@),
        None => None,
    }
}

/// Relies on wascc_codec::serialize of keyvalue::GetRequest: the bytes are the record's
/// encoding. Written into a vector, these records always serialize.
#[verifier::external_body]
pub(crate) fn pack_get_request(key: &str) -> (r: Result<Vec<u8>, String>)
    ensures
        r is Ok,
        r->Ok_0@ == packed(Record::GetRequest { key: key@ }),
{
    let record = wascc_codec::keyvalue::GetRequest { key: key.to_string() };
    match wascc_codec::serialize(record) {
        Ok(bytes) => Ok(bytes),
        Err(e) => Err(e.to_string()),
    }
}

/// Relies on wascc_codec::serialize of keyvalue::SetRequest: the bytes are the record's
/// encoding. Written into a vector, these records always serialize.
#[verifier::external_body]
pub(crate) fn pack_set_request(key: &str, value: &str, expires_s: i32) -> (r: Result<Vec<u8>, String>)
    ensures
        r is Ok,
        r->Ok_0@ == packed(Record::SetRequest { key: key@, value: value@, expires_s }),
{
    let record = wascc_codec::keyvalue::SetRequest { key: key.to_string(), value: value.to_string(), expires_s };
    match wascc_codec::serialize(record) {
        Ok(bytes) => Ok(bytes),
        Err(e) => Err(e.to_string()),
    }
}

/// Relies on wascc_codec::serialize of keyvalue::DelRequest: the bytes are the record's
/// encoding. Written into a vector, these records always serialize.
#[verifier::external_body]
pub(crate) fn pack_del_request(key: &str) -> (r: Result<Vec<u8>, String>)
    ensures
        r is Ok,
        r->Ok_0@ == packed(Record::DelRequest { key: key@ }),
{
    let record = wascc_codec::keyvalue::DelRequest { key: key.to_string() };
    match wascc_codec::serialize(record) {
        Ok(bytes) => Ok(bytes),
        Err(e) => Err(e.to_string()),
    }
}

/// Relies on wascc_codec::serialize of keyvalue::AddRequest: the bytes are the record's
/// encoding. Written into a vector, these records always serialize.
#[verifier::external_body]
pub(crate) fn pack_add_request(key: &str, value: i32) -> (r: Result<Vec<u8>, String>)
    ensures
        r is Ok,
        r->Ok_0@ == packed(Record::AddRequest { key: key@, value }),
{
    let record = wascc_codec::keyvalue::AddRequest { key: key.to_string(), value };
    match wascc_codec::serialize(record) {
        Ok(bytes) => Ok(bytes),
        Err(e) => Err(e.to_string()),
    }
}

/// Relies on wascc_codec::serialize of keyvalue::ListPushRequest: the bytes are the record's
/// encoding. Written into a vector, these records always serialize.
#[verifier::external_body]
pub(crate) fn pack_list_push_request(key: &str, value: &str) -> (r: Result<Vec<u8>, String>)
    ensures
        r is Ok,
        r->Ok_0@ == packed(Record::ListPushRequest { key: key@, value: value@ }),
{
    let record = wascc_codec::keyvalue::ListPushRequest { key: key.to_string(), value: value.to_string() };
    match wascc_codec::serialize(record) {
        Ok(bytes) => Ok(bytes),
        Err(e) => Err(e.to_string()),
    }
}

/// Relies on wascc_codec::serialize of keyvalue::ListDelItemRequest: the bytes are the
/// record's encoding. Written into a vector, these records always serialize.
#[verifier::external_body]
pub(crate) fn pack_list_del_item_request(key: &str, value: &str) -> (r: Result<Vec<u8>, String>)
    ensures
        r is Ok,
        r->Ok_0@ == packed(Record::ListDelItemRequest { key: key@, value: value@ }),
{
    let record = wascc_codec::keyvalue::ListDelItemRequest { key: key.to_string(), value: value.to_string() };
    match wascc_codec::serialize(record) {
        Ok(bytes) => Ok(bytes),
        Err(e) => Err(e.to_string()),
    }
}

/// Relies on wascc_codec::serialize of keyvalue::ListClearRequest: the bytes are the
/// record's encoding. Written into a vector, these records always serialize.
#[verifier::external_body]
pub(crate) fn pack_list_clear_request(key: &str) -> (r: Result<Vec<u8>, String>)
    ensures
        r is Ok,
        r->Ok_0@ == packed(Record::ListClearRequest { key: key@ }),
{
    let record = wascc_codec::keyvalue::ListClearRequest { key: key.to_string() };
    match wascc_codec::serialize(record) {
        Ok(bytes) => Ok(bytes),
        Err(e) => Err(e.to_string()),
    }
}

/// Relies on wascc_codec::serialize of keyvalue::ListRangeRequest: the bytes are the
/// record's encoding. Written into a vector, these records always serialize.
#[verifier::external_body]
pub(crate) fn pack_list_range_request(key: &str, start: i32, stop: i32) -> (r: Result<Vec<u8>, String>)
    ensures
        r is Ok,
        r->Ok_0@ == packed(Record::ListRangeRequest { key: key@, start, stop }),
{
    let record = wascc_codec::keyvalue::ListRangeRequest { key: key.to_string(), start, stop };
    match wascc_codec::serialize(record) {
        Ok(bytes) => Ok(bytes),
        Err(e) => Err(e.to_string()),
    }
}

/// Relies on wascc_codec::serialize of keyvalue::SetAddRequest: the bytes are the record's
/// encoding. Written into a vector, these records always serialize.
#[verifier::external_body]
pub(crate) fn pack_set_add_request(key: &str, value: &str) -> (r: Result<Vec<u8>, String>)
    ensures
        r is Ok,
        r->Ok_0@ == packed(Record::SetAddRequest { key: key@, value: value@ }),
{
    let record = wascc_codec::keyvalue::SetAddRequest { key: key.to_string(), value: value.to_string() };
    match wascc_codec::serialize(record) {
        Ok(bytes) => Ok(bytes),
        Err(e) => Err(e.to_string()),
    }
}

/// Relies on wascc_codec::serialize of keyvalue::SetRemoveRequest: the bytes are the
/// record's encoding. Written into a vector, these records always serialize.
#[verifier::external_body]
pub(crate) fn pack_set_remove_request(key: &str, value: &str) -> (r: Result<Vec<u8>, String>)
    ensures
        r is Ok,
        r->Ok_0@ == packed(Record::SetRemoveRequest { key: key@, value: value@ }),
{
    let record = wascc_codec::keyvalue::SetRemoveRequest { key: key.to_string(), value: value.to_string() };
    match wascc_codec::serialize(record) {
        Ok(bytes) => Ok(bytes),
        Err(e) => Err(e.to_string()),
    }
}

/// Relies on wascc_codec::serialize of keyvalue::SetQueryRequest: the bytes are the
/// record's encoding. Written into a vector, these records always serialize.
#[verifier::external_body]
pub(crate) fn pack_set_query_request(key: &str) -> (r: Result<Vec<u8>, String>)
    ensures
        r is Ok,
        r->Ok_0@ == packed(Record::SetQueryRequest { key: key@ }),
{
    let record = wascc_codec::keyvalue::SetQueryRequest { key: key.to_string() };
    match wascc_codec::serialize(record) {
        Ok(bytes) => Ok(bytes),
        Err(e) => Err(e.to_string()),
    }
}

/// Relies on wascc_codec::serialize of keyvalue::SetIntersectionRequest: the bytes are
/// the record's encoding. Written into a vector, these records always serialize.
#[verifier::external_body]
pub(crate) fn pack_set_intersection_request(keys: Vec<String>) -> (r: Result<Vec<u8>, String>)
    ensures
        r is Ok,
        r->Ok_0@ == packed(Record::SetIntersectionRequest { keys: texts(keys@) }),
{
    let record = wascc_codec::keyvalue::SetIntersectionRequest { keys };
    match wascc_codec::serialize(record) {
        Ok(bytes) => Ok(bytes),
        Err(e) => Err(e.to_string()),
    }
}

/// Relies on wascc_codec::serialize of keyvalue::SetUnionRequest: the bytes are the
/// record's encoding. Written into a vector, these records always serialize.
#[verifier::external_body]
pub(crate) fn pack_set_union_request(keys: Vec<String>) -> (r: Result<Vec<u8>, String>)
    ensures
        r is Ok,
        r->Ok_0@ == packed(Record::SetUnionRequest { keys: texts(keys@) }),
{
    let record = wascc_codec::keyvalue::SetUnionRequest { keys };
    match wascc_codec::serialize(record) {
        Ok(bytes) => Ok(bytes),
        Err(e) => Err(e.to_string()),
    }
}

/// Relies on wascc_codec::serialize of keyvalue::KeyExistsQuery: the bytes are the
/// record's encoding. Written into a vector, these records always serialize.
#[verifier::external_body]
pub(crate) fn pack_key_exists_query(key: &str) -> (r: Result<Vec<u8>, String>)
    ensures
        r is Ok,
        r->Ok_0@ == packed(Record::KeyExistsQuery { key: key@ }),
{
    let record = wascc_codec::keyvalue::KeyExistsQuery { key: key.to_string() };
    match wascc_codec::serialize(record) {
        Ok(bytes) => Ok(bytes),
        Err(e) => Err(e.to_string()),
    }
}

/// Relies on wascc_codec::serialize of messaging::BrokerMessage: the bytes are the record's
/// encoding. Written into a vector, these records always serialize.
#[verifier::external_body]
pub(crate) fn pack_broker_message(subject: &str, reply_to: &str, body: &[u8]) -> (r: Result<Vec<u8>, String>)
    ensures
        r is Ok,
        r->Ok_0@ == packed(Record::BrokerMessage { subject: subject@, reply_to: reply_to@, body: body@ }),
{
    let record = wascc_codec::messaging::BrokerMessage {
        subject: subject.to_string(),
        reply_to: reply_to.to_string(),
        body: body.to_vec(),
    };
    match wascc_codec::serialize(record) {
        Ok(bytes) => Ok(bytes),
        Err(e) => Err(e.to_string()),
    }
}

/// Relies on wascc_codec::serialize of messaging::RequestMessage: the bytes are the record's
/// encoding. Written into a vector, these records always serialize.
#[verifier::external_body]
pub(crate) fn pack_request_message(subject: &str, body: &[u8], timeout_ms: i64) -> (r: Result<Vec<u8>, String>)
    ensures
        r is Ok,
        r->Ok_0@ == packed(Record::RequestMessage { subject: subject@, body: body@, timeout_ms }),
{
    let record = wascc_codec::messaging::RequestMessage {
        subject: subject.to_string(),
        body: body.to_vec(),
        timeout_ms,
    };
    match wascc_codec::serialize(record) {
        Ok(bytes) => Ok(bytes),
        Err(e) => Err(e.to_string()),
    }
}

/// Relies on wascc_codec::serialize of blobstore::Container: the bytes are the record's
/// encoding. Written into a vector, these records always serialize.
#[verifier::external_body]
pub(crate) fn pack_container(id: &str) -> (r: Result<Vec<u8>, String>)
    ensures
        r is Ok,
        r->Ok_0@ == packed(Record::Container { id: id@ }),
{
    let record = wascc_codec::blobstore::Container { id: id.to_string() };
    match wascc_codec::serialize(record) {
        Ok(bytes) => Ok(bytes),
        Err(e) => Err(e.to_string()),
    }
}

/// Relies on wascc_codec::serialize of blobstore::Blob: the bytes are the record's
/// encoding. Written into a vector, these records always serialize.
#[verifier::external_body]
pub(crate) fn pack_blob(id: &str, container: &str, byte_size: u64) -> (r: Result<Vec<u8>, String>)
    ensures
        r is Ok,
        r->Ok_0@ == packed(Record::Blob { id: id@, container: container@, byte_size }),
{
    let record = wascc_codec::blobstore::Blob { id: id.to_string(), container: container.to_string(), byte_size };
    match wascc_codec::serialize(record) {
        Ok(bytes) => Ok(bytes),
        Err(e) => Err(e.to_string()),
    }
}

/// Relies on wascc_codec::serialize of blobstore::FileChunk: the bytes are the record's
/// encoding. Written into a vector, these records always serialize.
#[verifier::external_body]
pub(crate) fn pack_file_chunk(
    sequence_no: u64,
    container: &str,
    id: &str,
    total_bytes: u64,
    chunk_size: u64,
    context: Option<String>,
    chunk_bytes: &[u8],
) -> (r: Result<Vec<u8>, String>)
    ensures
        r is Ok,
        r->Ok_0@ == packed(Record::FileChunk {
            sequence_no,
            container: container@,
            id: id@,
            total_bytes,
            chunk_size,
            context: opt_text(context),
            chunk_bytes: chunk_bytes@,
        }),
{
    let record = wascc_codec::blobstore::FileChunk {
        sequence_no,
        container: container.to_string(),
        id: id.to_string(),
        total_bytes,
        chunk_size,
        context,
        chunk_bytes: chunk_bytes.to_vec(),
    };
    match wascc_codec::serialize(record) {
        Ok(bytes) => Ok(bytes),
        Err(e) => Err(e.to_string()),
    }
}

/// Relies on wascc_codec::serialize of blobstore::StreamRequest: the bytes are the record's
/// encoding. Written into a vector, these records always serialize.
#[verifier::external_body]
pub(crate) fn pack_stream_request(id: &str, container: &str, chunk_size: u64, context: Option<String>) -> (r: Result<Vec<u8>, String>)
    ensures
        r is Ok,
        r->Ok_0@ == packed(Record::StreamRequest { id: id@, container: container@, chunk_size, context: opt_text(context) }),
{
    let record = wascc_codec::blobstore::StreamRequest { id: id.to_string(), container: container.to_string(), chunk_size, context };
    match wascc_codec::serialize(record) {
        Ok(bytes) => Ok(bytes),
        Err(e) => Err(e.to_string()),
    }
}

/// Relies on wascc_codec::serialize of extras::GeneratorRequest: the bytes are the record's
/// encoding. Written into a vector, these records always serialize.
#[verifier::external_body]
pub(crate) fn pack_generator_request(guid: bool, sequence: bool, random: bool, min: u32, max: u32) -> (r: Result<Vec<u8>, String>)
    ensures
        r is Ok,
        r->Ok_0@ == packed(Record::GeneratorRequest { guid, sequence, random, min, max }),
{
    let record = wascc_codec::extras::GeneratorRequest { guid, sequence, random, min, max };
    match wascc_codec::serialize(record) {
        Ok(bytes) => Ok(bytes),
        Err(e) => Err(e.to_string()),
    }
}

/// Relies on wascc_codec::serialize of eventstreams::Event. The event's values are
/// written in the iteration order of its hash map, so nothing is said of the
/// bytes; written into a vector, the record always serializes.
#[verifier::external_body]
pub(crate) fn pack_event(event: Event) -> (r: Result<Vec<u8>, String>)
    ensures
        r is Ok,
{
    let record = wascc_codec::eventstreams::Event { event_id: event.event_id, stream: event.stream, values: event.values };
    match wascc_codec::serialize(record) {
        Ok(bytes) => Ok(bytes),
        Err(e) => Err(e.to_string()),
    }
}

/// Relies on wascc_codec::serialize of eventstreams::StreamQuery (with its TimeRange): the bytes are the
/// record's encoding. Written into a vector, these records always serialize.
#[verifier::external_body]
pub(crate) fn pack_stream_query(stream_id: &str, range: Option<(u64, u64)>, count: u64) -> (r: Result<Vec<u8>, String>)
    ensures
        r is Ok,
        r->Ok_0@ == packed(Record::StreamQuery { stream_id: stream_id@, range, count }),
{
    let range = range.map(|(min_time, max_time)| wascc_codec::eventstreams::TimeRange { min_time, max_time });
    let record = wascc_codec::eventstreams::StreamQuery { stream_id: stream_id.to_string(), range, count };
    match wascc_codec::serialize(record) {
        Ok(bytes) => Ok(bytes),
        Err(e) => Err(e.to_string()),
    }
}

/// Relies on wascc_codec::serialize of http::Request. The header is written in the
/// iteration order of its hash map, so nothing is said of the
/// bytes; written into a vector, the record always serializes.
#[verifier::external_body]
pub(crate) fn pack_http_request(request: Request) -> (r: Result<Vec<u8>, String>)
    ensures
        r is Ok,
{
    let record = wascc_codec::http::Request {
        method: request.method,
        path: request.path,
        query_string: request.query_string,
        header: request.header,
        body: request.body,
    };
    match wascc_codec::serialize(record) {
        Ok(bytes) => Ok(bytes),
        Err(e) => Err(e.to_string()),
    }
}

/// Relies on wascc_codec::serialize of logging::WriteLogRequest: the bytes are the record's
/// encoding. Written into a vector, these records always serialize.
#[verifier::external_body]
pub(crate) fn pack_write_log_request(level: u32, body: &str) -> (r: Result<Vec<u8>, String>)
    ensures
        r is Ok,
        r->Ok_0@ == packed(Record::WriteLogRequest { level, body: body@ }),
{
    let record = wascc_codec::logging::WriteLogRequest { level, body: body.to_string() };
    match wascc_codec::serialize(record) {
        Ok(bytes) => Ok(bytes),
        Err(e) => Err(e.to_string()),
    }
}

/// Relies on wascc_codec::deserialize of keyvalue::GetResponse, as (value, exists).
#[verifier::external_body]
pub(crate) fn unpack_get_response(bytes: &[u8]) -> (r: Result<(String, bool), String>)
    requires
        nesting_within(bytes@),
    ensures
        r is Ok ==> unpacked(bytes@, RecordKind::GetResponse) == Some(Record::GetResponse { value: r->Ok_0.0@, exists: r->Ok_0.1 }),
        r is Err ==> unpacked(bytes@, RecordKind::GetResponse) is None,
{
    match wascc_codec::deserialize::<wascc_codec::keyvalue::GetResponse>(bytes) {
        Ok(record) => Ok((record.value, record.exists)),
        Err(e) => Err(e.to_string()),
    }
}

/// Relies on wascc_codec::deserialize of keyvalue::AddResponse, as its value.
#[verifier::external_body]
pub(crate) fn unpack_add_response(bytes: &[u8]) -> (r: Result<i32, String>)
    requires
        nesting_within(bytes@),
    ensures
        r is Ok ==> unpacked(bytes@, RecordKind::AddResponse) == Some(Record::AddResponse { value: r->Ok_0 }),
        r is Err ==> unpacked(bytes@, RecordKind::AddResponse) is None,
{
    match wascc_codec::deserialize::<wascc_codec::keyvalue::AddResponse>(bytes) {
        Ok(record) => Ok(record.value),
        Err(e) => Err(e.to_string()),
    }
}

/// Relies on wascc_codec::deserialize of keyvalue::ListRangeResponse, as its values.
#[verifier::external_body]
pub(crate) fn unpack_list_range_response(bytes: &[u8]) -> (r: Result<Vec<String>, String>)
    requires
        nesting_within(bytes@),
    ensures
        r is Ok ==> unpacked(bytes@, RecordKind::ListRangeResponse) == Some(Record::ListRangeResponse { values: texts(r->Ok_0@) }),
        r is Err ==> unpacked(bytes@, RecordKind::ListRangeResponse) is None,
{
    match wascc_codec::deserialize::<wascc_codec::keyvalue::ListRangeResponse>(bytes) {
        Ok(record) => Ok(record.values),
        Err(e) => Err(e.to_string()),
    }
}

/// Relies on wascc_codec::deserialize of keyvalue::ListResponse, as its new count.
#[verifier::external_body]
pub(crate) fn unpack_list_response(bytes: &[u8]) -> (r: Result<i32, String>)
    requires
        nesting_within(bytes@),
    ensures
        r is Ok ==> unpacked(bytes@, RecordKind::ListResponse) == Some(Record::ListResponse { new_count: r->Ok_0 }),
        r is Err ==> unpacked(bytes@, RecordKind::ListResponse) is None,
{
    match wascc_codec::deserialize::<wascc_codec::keyvalue::ListResponse>(bytes) {
        Ok(record) => Ok(record.new_count),
        Err(e) => Err(e.to_string()),
    }
}

/// Relies on wascc_codec::deserialize of keyvalue::SetQueryResponse, as its values.
#[verifier::external_body]
pub(crate) fn unpack_set_query_response(bytes: &[u8]) -> (r: Result<Vec<String>, String>)
    requires
        nesting_within(bytes@),
    ensures
        r is Ok ==> unpacked(bytes@, RecordKind::SetQueryResponse) == Some(Record::SetQueryResponse { values: texts(r->Ok_0@) }),
        r is Err ==> unpacked(bytes@, RecordKind::SetQueryResponse) is None,
{
    match wascc_codec::deserialize::<wascc_codec::keyvalue::SetQueryResponse>(bytes) {
        Ok(record) => Ok(record.values),
        Err(e) => Err(e.to_string()),
    }
}

/// Relies on wascc_codec::deserialize of keyvalue::SetOperationResponse, as its new count.
#[verifier::external_body]
pub(crate) fn unpack_set_operation_response(bytes: &[u8]) -> (r: Result<i32, String>)
    requires
        nesting_within(bytes@),
    ensures
        r is Ok ==> unpacked(bytes@, RecordKind::SetOperationResponse) == Some(Record::SetOperationResponse { new_count: r->Ok_0 }),
        r is Err ==> unpacked(bytes@, RecordKind::SetOperationResponse) is None,
{
    match wascc_codec::deserialize::<wascc_codec::keyvalue::SetOperationResponse>(bytes) {
        Ok(record) => Ok(record.new_count),
        Err(e) => Err(e.to_string()),
    }
}

/// Relies on wascc_codec::deserialize of blobstore::Container.
#[verifier::external_body]
pub(crate) fn unpack_container(bytes: &[u8]) -> (r: Result<Container, String>)
    requires
        nesting_within(bytes@),
    ensures
        r is Ok ==> unpacked(bytes@, RecordKind::Container) == Some(Record::Container { id: r->Ok_0.id@ }),
        r is Err ==> unpacked(bytes@, RecordKind::Container) is None,
{
    match wascc_codec::deserialize::<wascc_codec::blobstore::Container>(bytes) {
        Ok(record) => Ok(Container { id: record.id }),
        Err(e) => Err(e.to_string()),
    }
}

/// Relies on wascc_codec::deserialize of blobstore::Blob.
#[verifier::external_body]
pub(crate) fn unpack_blob(bytes: &[u8]) -> (r: Result<Blob, String>)
    requires
        nesting_within(bytes@),
    ensures
        r is Ok ==> unpacked(bytes@, RecordKind::Blob) == Some(Record::Blob {
            id: r->Ok_0.id@,
            container: r->Ok_0.container@,
            byte_size: r->Ok_0.byte_size,
        }),
        r is Err ==> unpacked(bytes@, RecordKind::Blob) is None,
{
    match wascc_codec::deserialize::<wascc_codec::blobstore::Blob>(bytes) {
        Ok(record) => Ok(Blob { id: record.id, container: record.container, byte_size: record.byte_size }),
        Err(e) => Err(e.to_string()),
    }
}

/// A view of blobs as their identifiers, containers and sizes.
pub open spec fn blob_fields(v: Seq<Blob>) -> Seq<(Seq<char>, Seq<char>, u64)> {
    v.map_values(|b: Blob| (b.id@, b.container@, b.byte_size))
}

/// Relies on wascc_codec::deserialize of blobstore::BlobList, as its blobs in order.
#[verifier::external_body]
pub(crate) fn unpack_blob_list(bytes: &[u8]) -> (r: Result<Vec<Blob>, String>)
    requires
        nesting_within(bytes@),
    ensures
        r is Ok ==> unpacked(bytes@, RecordKind::BlobList) == Some(Record::BlobList { blobs: blob_fields(r->Ok_0@) }),
        r is Err ==> unpacked(bytes@, RecordKind::BlobList) is None,
{
    match wascc_codec::deserialize::<wascc_codec::blobstore::BlobList>(bytes) {
        Ok(record) => Ok(record.blobs.into_iter().map(|b| Blob { id: b.id, container: b.container, byte_size: b.byte_size }).collect()),
        Err(e) => Err(e.to_string()),
    }
}

/// Relies on wascc_codec::deserialize of blobstore::Transfer, as (blob id, container,
/// chunk size, total size, total chunks, context).
#[verifier::external_body]
pub(crate) fn unpack_transfer(bytes: &[u8]) -> (r: Result<(String, String, u64, u64, u64, Option<String>), String>)
    requires
        nesting_within(bytes@),
    ensures
        r is Ok ==> unpacked(bytes@, RecordKind::Transfer) == Some(Record::Transfer {
            blob_id: r->Ok_0.0@,
            container: r->Ok_0.1@,
            chunk_size: r->Ok_0.2,
            total_size: r->Ok_0.3,
            total_chunks: r->Ok_0.4,
            context: opt_text(r->Ok_0.5),
        }),
        r is Err ==> unpacked(bytes@, RecordKind::Transfer) is None,
{
    match wascc_codec::deserialize::<wascc_codec::blobstore::Transfer>(bytes) {
        Ok(t) => Ok((t.blob_id, t.container, t.chunk_size, t.total_size, t.total_chunks, t.context)),
        Err(e) => Err(e.to_string()),
    }
}

/// Relies on wascc_codec::deserialize of extras::GeneratorResult, as
/// (guid, sequence number, random number).
#[verifier::external_body]
pub(crate) fn unpack_generator_result(bytes: &[u8]) -> (r: Result<(Option<String>, u64, u32), String>)
    requires
        nesting_within(bytes@),
    ensures
        r is Ok ==> unpacked(bytes@, RecordKind::GeneratorResult) == Some(Record::GeneratorResult {
            guid: opt_text(r->Ok_0.0),
            sequence_number: r->Ok_0.1,
            random_number: r->Ok_0.2,
        }),
        r is Err ==> unpacked(bytes@, RecordKind::GeneratorResult) is None,
{
    match wascc_codec::deserialize::<wascc_codec::extras::GeneratorResult>(bytes) {
        Ok(record) => Ok((record.guid, record.sequence_number, record.random_number)),
        Err(e) => Err(e.to_string()),
    }
}

/// Relies on wascc_codec::deserialize of eventstreams::WriteResponse, as its event id.
#[verifier::external_body]
pub(crate) fn unpack_write_response(bytes: &[u8]) -> (r: Result<String, String>)
    requires
        nesting_within(bytes@),
    ensures
        r is Ok ==> unpacked(bytes@, RecordKind::WriteResponse) == Some(Record::WriteResponse { event_id: r->Ok_0@ }),
        r is Err ==> unpacked(bytes@, RecordKind::WriteResponse) is None,
{
    match wascc_codec::deserialize::<wascc_codec::eventstreams::WriteResponse>(bytes) {
        Ok(record) => Ok(record.event_id),
        Err(e) => Err(e.to_string()),
    }
}

/// A view of events as their identifiers and streams.
pub open spec fn event_heads(v: Seq<Event>) -> Seq<(Seq<char>, Seq<char>)> {
    v.map_values(|e: Event| (e.event_id@, e.stream@))
}

/// Relies on wascc_codec::deserialize of eventstreams::StreamResults, as its events in order.
#[verifier::external_body]
pub(crate) fn unpack_stream_results(bytes: &[u8]) -> (r: Result<Vec<Event>, String>)
    requires
        nesting_within(bytes@),
    ensures
        r is Ok ==> unpacked(bytes@, RecordKind::StreamResults) == Some(Record::StreamResults { events: event_heads(r->Ok_0@) }),
        r is Err ==> unpacked(bytes@, RecordKind::StreamResults) is None,
{
    match wascc_codec::deserialize::<wascc_codec::eventstreams::StreamResults>(bytes) {
        Ok(record) => Ok(record.events.into_iter().map(|e| Event { event_id: e.event_id, stream: e.stream, values: e.values }).collect()),
        Err(e) => Err(e.to_string()),
    }
}

/// Relies on wascc_codec::deserialize of http::Response.
#[verifier::external_body]
pub(crate) fn unpack_http_response(bytes: &[u8]) -> (r: Result<Response, String>)
    requires
        nesting_within(bytes@),
    ensures
        r is Ok ==> unpacked(bytes@, RecordKind::HttpResponse) == Some(Record::HttpResponse {
            status_code: r->Ok_0.status_code,
            status: r->Ok_0.status@,
            body: r->Ok_0.body@,
        }),
        r is Err ==> unpacked(bytes@, RecordKind::HttpResponse) is None,
{
    match wascc_codec::deserialize::<wascc_codec::http::Response>(bytes) {
        Ok(record) => Ok(Response { status_code: record.status_code, status: record.status, header: record.header, body: record.body }),
        Err(e) => Err(e.to_string()),
    }
}

} // verus!
