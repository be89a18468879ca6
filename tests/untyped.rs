use std::cell::RefCell;
use std::collections::HashMap;

use wascc_actor::error::{Error, HostError};
use wascc_actor::host::Host;
use wascc_actor::http_client::{HttpClientHostBinding, Request, Response};
use wascc_actor::raw::DefaultRawCapability;
use wascc_actor::untyped::UntypedHostBinding;
use wascc_codec::{deserialize, serialize};

/// A host that records every dispatch and gives one fixed answer.
struct Recorder {
    answer: Result<Vec<u8>, HostError>,
    calls: RefCell<Vec<(String, String, String, Vec<u8>)>>,
}

impl Recorder {
    fn answering(answer: Result<Vec<u8>, HostError>) -> Recorder {
        Recorder { answer, calls: RefCell::new(vec![]) }
    }

    fn call(&self, i: usize) -> (String, String, String, Vec<u8>) {
        self.calls.borrow()[i].clone()
    }
}

impl Host for &Recorder {
    fn call(&self, binding: &str, capability: &str, operation: &str, payload: &[u8]) -> Result<Vec<u8>, HostError> {
        self.calls.borrow_mut().push((binding.to_string(), capability.to_string(), operation.to_string(), payload.to_vec()));
        self.answer.clone()
    }
}

#[test]
fn untyped_call_passes_everything_through() {
    let host = Recorder::answering(Ok(vec![4, 5, 6]));
    let binding = UntypedHostBinding::with_host("custom", &host);
    assert_eq!(binding.call("acme:widgets", "Spin", vec![1, 2, 3]), Ok(vec![4, 5, 6]));
    assert_eq!(host.call(0), ("custom".to_string(), "acme:widgets".to_string(), "Spin".to_string(), vec![1, 2, 3]));
}

#[test]
fn raw_call_addresses_default_binding() {
    let host = Recorder::answering(Ok(vec![]));
    let raw = DefaultRawCapability::with_host(&host);
    assert_eq!(raw.call("acme:widgets", "Stop", b"now"), Ok(vec![]));
    assert_eq!(host.call(0), ("default".to_string(), "acme:widgets".to_string(), "Stop".to_string(), b"now".to_vec()));
}

#[test]
fn untyped_and_raw_surface_host_failure() {
    let fail = HostError { message: "unknown capability".to_string() };
    let host = Recorder::answering(Err(fail.clone()));
    let binding = UntypedHostBinding::with_host("default", &host);
    assert_eq!(binding.call("x", "y", vec![]), Err(Error::Host(fail.clone())));
    let raw = DefaultRawCapability::with_host(&host);
    assert_eq!(raw.call("x", "y", &[]), Err(Error::Host(fail)));
}

#[test]
fn http_request_round_trip() {
    let mut header = HashMap::new();
    header.insert("content-type".to_string(), "text/plain".to_string());
    let reply = serialize(wascc_codec::http::Response {
        status_code: 201,
        status: "Created".to_string(),
        header: header.clone(),
        body: b"made".to_vec(),
    })
    .unwrap();
    let host = Recorder::answering(Ok(reply));
    let client = HttpClientHostBinding::with_host("default", &host);
    let request = Request {
        method: "POST".to_string(),
        path: "/things".to_string(),
        query_string: "a=1".to_string(),
        header: header.clone(),
        body: b"thing".to_vec(),
    };
    let response = client.request(request).unwrap();
    assert_eq!(response, Response { status_code: 201, status: "Created".to_string(), header: header.clone(), body: b"made".to_vec() });
    let (_, capability, operation, payload) = host.call(0);
    assert_eq!((capability.as_str(), operation.as_str()), ("wascc:http_client", "PerformRequest"));
    let sent = deserialize::<wascc_codec::http::Request>(&payload).unwrap();
    assert_eq!(sent.method, "POST");
    assert_eq!(sent.path, "/things");
    assert_eq!(sent.query_string, "a=1");
    assert_eq!(sent.header, header);
    assert_eq!(sent.body, b"thing".to_vec());
}

#[test]
fn http_failure_and_bad_reply() {
    let fail = HostError { message: "no client".to_string() };
    let host = Recorder::answering(Err(fail.clone()));
    let client = HttpClientHostBinding::with_host("default", &host);
    let request = Request { method: "GET".to_string(), path: "/".to_string(), query_string: String::new(), header: HashMap::new(), body: vec![] };
    assert_eq!(client.request(request.clone()), Err(Error::Host(fail)));
    let host = Recorder::answering(Ok(vec![0xc1]));
    let client = HttpClientHostBinding::with_host("default", &host);
    assert!(matches!(client.request(request), Err(Error::Decode(_))));
}

#[test]
fn call_dispatches_name_everything_unchanged() {
    let host = Recorder::answering(Ok(vec![]));
    let binding = UntypedHostBinding::with_host("custom", &host);
    let d = binding.call_dispatch("acme:widgets", "Spin", vec![7, 8]);
    assert_eq!((d.binding.as_str(), d.capability.as_str(), d.operation.as_str()), ("custom", "acme:widgets", "Spin"));
    assert_eq!(d.payload, vec![7, 8]);
    let raw = DefaultRawCapability::with_host(&host);
    let d = raw.call_dispatch("acme:widgets", "Stop", &[9]);
    assert_eq!((d.binding.as_str(), d.payload.as_slice()), ("default", &[9u8][..]));
}
