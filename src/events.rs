//! The event stream capability: appending events to named streams and querying
//! what a stream holds. Query semantics, ordering and retention are the host's.

use std::collections::HashMap;

use crate::codec::{event_heads, pack_event, pack_stream_query, unpack_stream_results, unpack_write_response, Record, RecordKind};
use crate::error::{Error, HostError};
use crate::host::{address, reads, send, Dispatch, Host, WapcHost, DEFAULT_BINDING};
use crate::msgpack::{within_nesting, NESTED_TOO_DEEP};
use vstd::prelude::*;

verus! {

/// The capability identifier of an event stream provider.
pub const CAPID_EVENTS: &'static str = "wascc:eventstreams";
/// The operation that appends an event to a stream.
pub const OP_WRITE_EVENT: &'static str = "WriteEvent";
/// The operation that queries a stream.
pub const OP_QUERY_STREAM: &'static str = "QueryStream";
/// The operation by which the host delivers an event to the actor.
pub const OP_DELIVER_EVENT: &'static str = "DeliverEvent";

/// One event of a stream: a set of key-value pairs.
#[derive(Clone, Debug, PartialEq, Eq)]
pub struct Event {
    pub event_id: String,
    pub stream: String,
    pub values: HashMap<String, String>,
}

/// A span of time, given by its least and greatest time.
#[derive(Clone, Copy, Debug, PartialEq, Eq)]
pub struct TimeRange {
    pub min_time: u64,
    pub max_time: u64,
}

/// A query of one stream: at most `count` events (no bound where it is 0), or
/// those within a time range.
#[derive(Clone, Debug, PartialEq, Eq)]
pub struct StreamQuery {
    pub stream_id: String,
    pub range: Option<TimeRange>,
    pub count: u64,
}

/// A time range as the least and greatest time.
pub open spec fn range_bounds(range: Option<TimeRange>) -> Option<(u64, u64)> {
    match range {
        Some(t) => Some((t.min_time, t.max_time)),
        None => None,
    }
}

/// A binding to one instance of the event stream capability.
pub struct EventStreamsHostBinding<H> {
    binding: String,
    host: H,
}

impl<H> View for EventStreamsHostBinding<H> {
    /// The binding name that every dispatch of this binding addresses.
    type V = Seq<char>;

    closed spec fn view(&self) -> Seq<char> {
        self.binding@
    }
}

/// Creates a binding to the named event stream provider.
pub fn host(binding: &str) -> (r: EventStreamsHostBinding<WapcHost>)
    ensures
        r@ == binding@,
{
    EventStreamsHostBinding::with_host(binding, WapcHost)
}

/// Creates a binding to the default event stream provider.
pub fn default() -> (r: EventStreamsHostBinding<WapcHost>)
    ensures
        r@ == DEFAULT_BINDING@,
{
    EventStreamsHostBinding::with_host(DEFAULT_BINDING, WapcHost)
}

/// The meaning of a reply to a write: the identifier that the host gave the event.
pub open spec fn write_meaning(record: Record, r: Result<String, Error>) -> bool {
    match record {
        Record::WriteResponse { event_id } => r is Ok && r->Ok_0@ == event_id,
        _ => false,
    }
}

/// `r` is what the host's `reply` to a write means.
pub open spec fn event_id_answer(reply: Result<Vec<u8>, HostError>, r: Result<String, Error>) -> bool {
    reads(reply, RecordKind::WriteResponse, r, |record, r| write_meaning(record, r))
}

/// The meaning of a reply to a query: the events it lists, in order.
pub open spec fn results_meaning(record: Record, r: Result<Vec<Event>, Error>) -> bool {
    match record {
        Record::StreamResults { events } => r is Ok && event_heads(r->Ok_0@) == events,
        _ => false,
    }
}

/// `r` is what the host's `reply` to a query means.
pub open spec fn events_answer(reply: Result<Vec<u8>, HostError>, r: Result<Vec<Event>, Error>) -> bool {
    reads(reply, RecordKind::StreamResults, r, |record, r| results_meaning(record, r))
}

/// Reads the host's reply to a write as the new event's identifier.
pub fn read_event_id(reply: Result<Vec<u8>, HostError>) -> (r: Result<String, Error>)
    ensures
        event_id_answer(reply, r),
{
    match reply {
        Err(e) => Err(Error::Host(e)),
        Ok(bytes) => if !within_nesting(bytes.as_slice()) {
            Err(Error::Decode(NESTED_TOO_DEEP.to_string()))
        } else {
            match unpack_write_response(bytes.as_slice()) {
                Ok(id) => Ok(id),
                Err(m) => Err(Error::Decode(m)),
            }
        },
    }
}

/// Reads the host's reply to a query as the events it lists.
pub fn read_events(reply: Result<Vec<u8>, HostError>) -> (r: Result<Vec<Event>, Error>)
    ensures
        events_answer(reply, r),
{
    match reply {
        Err(e) => Err(Error::Host(e)),
        Ok(bytes) => if !within_nesting(bytes.as_slice()) {
            Err(Error::Decode(NESTED_TOO_DEEP.to_string()))
        } else {
            match unpack_stream_results(bytes.as_slice()) {
                Ok(events) => Ok(events),
                Err(m) => Err(Error::Decode(m)),
            }
        },
    }
}

impl<H: Host> EventStreamsHostBinding<H> {
    /// Creates a binding to the named event stream provider that dispatches through the given host.
    pub fn with_host(binding: &str, host: H) -> (r: Self)
        ensures
            r@ == binding@,
    {
        EventStreamsHostBinding { binding: binding.to_string(), host }
    }

    /// The dispatch that appends an event holding `values` to `stream`. The
    /// event goes with an empty identifier: the host assigns one.
    pub fn write_event_dispatch(&self, stream: &str, values: HashMap<String, String>) -> (r: Dispatch)
        ensures
            r.addresses(self@, CAPID_EVENTS@, OP_WRITE_EVENT@),
    {
        let event = Event { event_id: String::new(), stream: stream.to_string(), values };
        address(self.binding.as_str(), CAPID_EVENTS, OP_WRITE_EVENT, pack_event(event))
    }

    /// Appends an event holding `values` to `stream`, and returns the identifier
    /// that the host gave it.
    pub fn write_event(&self, stream: &str, values: HashMap<String, String>) -> (r: Result<String, Error>)
        ensures
            exists|reply| event_id_answer(reply, r),
    {
        read_event_id(send(&self.host, &self.write_event_dispatch(stream, values)))
    }

    /// Reads every event that `stream` holds.
    pub fn read_all(&self, stream: &str) -> (r: Result<Vec<Event>, Error>)
        ensures
            exists|reply| events_answer(reply, r),
    {
        let query = self.generate_query(0, stream, None);
        self.execute_query(query)
    }

    /// Reads at most `limit` events of `stream`; fewer where the stream holds fewer.
    pub fn read_limit(&self, stream: &str, limit: u64) -> (r: Result<Vec<Event>, Error>)
        ensures
            exists|reply| events_answer(reply, r),
    {
        let query = self.generate_query(limit, stream, None);
        self.execute_query(query)
    }

    /// The dispatch that runs `query`.
    pub fn query_dispatch(&self, query: &StreamQuery) -> (r: Dispatch)
        ensures
            r.carries(
                self@,
                CAPID_EVENTS@,
                OP_QUERY_STREAM@,
                Record::StreamQuery { stream_id: query.stream_id@, range: range_bounds(query.range), count: query.count },
            ),
    {
        let range = match query.range {
            Some(t) => Some((t.min_time, t.max_time)),
            None => None,
        };
        let payload = pack_stream_query(query.stream_id.as_str(), range, query.count);
        address(self.binding.as_str(), CAPID_EVENTS, OP_QUERY_STREAM, payload)
    }

    fn execute_query(&self, query: StreamQuery) -> (r: Result<Vec<Event>, Error>)
        ensures
            exists|reply| events_answer(reply, r),
    {
        read_events(send(&self.host, &self.query_dispatch(&query)))
    }

    fn generate_query(&self, count: u64, stream: &str, range: Option<TimeRange>) -> (r: StreamQuery)
        ensures
            r.count == count,
            r.stream_id@ == stream@,
            r.range == range,
    {
        StreamQuery { count, stream_id: stream.to_string(), range }
    }
}

} // verus!
