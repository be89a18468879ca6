use std::cell::RefCell;
use std::collections::HashMap;

use wascc_actor::error::{Error, HostError};
use wascc_actor::events::{EventStreamsHostBinding, StreamQuery, TimeRange};
use wascc_actor::host::Host;
use wascc_codec::eventstreams as records;
use wascc_codec::{deserialize, serialize};

/// A host that records every dispatch and gives one fixed answer.
struct Recorder {
    answer: Result<Vec<u8>, HostError>,
    calls: RefCell<Vec<(String, String, String, Vec<u8>)>>,
}

impl Recorder {
    fn answering(answer: Result<Vec<u8>, HostError>) -> Recorder {
        Recorder { answer, calls: RefCell::new(vec![]) }
    }

    fn call(&self, i: usize) -> (String, String, String, Vec<u8>) {
        self.calls.borrow()[i].clone()
    }
}

impl Host for &Recorder {
    fn call(&self, binding: &str, capability: &str, operation: &str, payload: &[u8]) -> Result<Vec<u8>, HostError> {
        self.calls.borrow_mut().push((binding.to_string(), capability.to_string(), operation.to_string(), payload.to_vec()));
        self.answer.clone()
    }
}

fn values() -> HashMap<String, String> {
    let mut v = HashMap::new();
    v.insert("user".to_string(), "ada".to_string());
    v.insert("action".to_string(), "login".to_string());
    v
}

#[test]
fn write_event_sends_event_and_returns_id() {
    let reply = serialize(records::WriteResponse { event_id: "1590000000-0".to_string() }).unwrap();
    let host = Recorder::answering(Ok(reply));
    let streams = EventStreamsHostBinding::with_host("default", &host);
    assert_eq!(streams.write_event("audit", values()), Ok("1590000000-0".to_string()));
    let (_, capability, operation, payload) = host.call(0);
    assert_eq!((capability.as_str(), operation.as_str()), ("wascc:eventstreams", "WriteEvent"));
    let event = deserialize::<records::Event>(&payload).unwrap();
    assert_eq!(event, records::Event { event_id: String::new(), stream: "audit".to_string(), values: values() });
}

#[test]
fn read_limit_and_read_all_send_counts() {
    let reply = serialize(records::StreamResults {
        events: vec![records::Event { event_id: "e1".to_string(), stream: "audit".to_string(), values: values() }],
    })
    .unwrap();
    let host = Recorder::answering(Ok(reply));
    let streams = EventStreamsHostBinding::with_host("default", &host);
    let events = streams.read_limit("audit", 5).unwrap();
    assert_eq!(events.len(), 1);
    assert_eq!(events[0].event_id, "e1");
    assert_eq!(events[0].stream, "audit");
    assert_eq!(events[0].values, values());
    streams.read_all("audit").unwrap();
    let limited = deserialize::<records::StreamQuery>(&host.call(0).3).unwrap();
    assert_eq!(limited, records::StreamQuery { stream_id: "audit".to_string(), range: None, count: 5 });
    let all = deserialize::<records::StreamQuery>(&host.call(1).3).unwrap();
    assert_eq!(all.count, 0);
    assert_eq!(host.call(1).2, "QueryStream");
}

#[test]
fn query_dispatch_carries_time_range() {
    let host = Recorder::answering(Ok(vec![]));
    let streams = EventStreamsHostBinding::with_host("history", &host);
    let query = StreamQuery {
        stream_id: "audit".to_string(),
        range: Some(TimeRange { min_time: 10, max_time: 20 }),
        count: 3,
    };
    let d = streams.query_dispatch(&query);
    assert_eq!(d.binding, "history");
    let sent = deserialize::<records::StreamQuery>(&d.payload).unwrap();
    assert_eq!(sent.range, Some(records::TimeRange { min_time: 10, max_time: 20 }));
    assert_eq!(sent.count, 3);
}

#[test]
fn event_operations_surface_host_failure() {
    let fail = HostError { message: "stream provider down".to_string() };
    let host = Recorder::answering(Err(fail.clone()));
    let streams = EventStreamsHostBinding::with_host("default", &host);
    assert_eq!(streams.write_event("audit", HashMap::new()), Err(Error::Host(fail.clone())));
    assert_eq!(streams.read_all("audit"), Err(Error::Host(fail.clone())));
    assert_eq!(streams.read_limit("audit", 2), Err(Error::Host(fail)));
}

#[test]
fn malformed_event_reply_is_decode_error() {
    let host = Recorder::answering(Ok(vec![0xc1]));
    let streams = EventStreamsHostBinding::with_host("default", &host);
    assert!(matches!(streams.write_event("audit", HashMap::new()), Err(Error::Decode(_))));
    assert!(matches!(streams.read_all("audit"), Err(Error::Decode(_))));
}
