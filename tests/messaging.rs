use std::cell::RefCell;

use wascc_actor::error::{Error, HostError};
use wascc_actor::host::Host;
use wascc_actor::messaging::MessageBrokerHostBinding;
use wascc_actor::msg::DefaultMessageBroker;
use wascc_codec::messaging as records;
use wascc_codec::deserialize;

/// A host that records every dispatch and gives one fixed answer.
struct Recorder {
    answer: Result<Vec<u8>, HostError>,
    calls: RefCell<Vec<(String, String, String, Vec<u8>)>>,
}

impl Recorder {
    fn answering(answer: Result<Vec<u8>, HostError>) -> Recorder {
        Recorder { answer, calls: RefCell::new(vec![]) }
    }

    fn call(&self, i: usize) -> (String, String, String, Vec<u8>) {
        self.calls.borrow()[i].clone()
    }
}

impl Host for &Recorder {
    fn call(&self, binding: &str, capability: &str, operation: &str, payload: &[u8]) -> Result<Vec<u8>, HostError> {
        self.calls.borrow_mut().push((binding.to_string(), capability.to_string(), operation.to_string(), payload.to_vec()));
        self.answer.clone()
    }
}

#[test]
fn publish_without_reply_to_sends_empty_reply_subject() {
    let host = Recorder::answering(Ok(b"whatever the broker says".to_vec()));
    let broker = MessageBrokerHostBinding::with_host("nats", &host);
    assert_eq!(broker.publish("orders.new", None, b"{\"id\":1}"), Ok(()));
    let (binding, capability, operation, payload) = host.call(0);
    assert_eq!((binding.as_str(), capability.as_str(), operation.as_str()), ("nats", "wascc:messaging", "Publish"));
    let msg = deserialize::<records::BrokerMessage>(&payload).unwrap();
    assert_eq!(
        msg,
        records::BrokerMessage {
            subject: "orders.new".to_string(),
            reply_to: String::new(),
            body: b"{\"id\":1}".to_vec(),
        }
    );
}

#[test]
fn publish_with_reply_to_sends_it() {
    let host = Recorder::answering(Ok(vec![]));
    let broker = MessageBrokerHostBinding::with_host("default", &host);
    broker.publish("orders.new", Some("orders.ack"), b"").unwrap();
    let msg = deserialize::<records::BrokerMessage>(&host.call(0).3).unwrap();
    assert_eq!(msg.reply_to, "orders.ack");
}

#[test]
fn request_returns_raw_reply() {
    let raw = vec![0xde, 0xad, 0xbe, 0xef, 0x00];
    let host = Recorder::answering(Ok(raw.clone()));
    let broker = MessageBrokerHostBinding::with_host("default", &host);
    assert_eq!(broker.request("lookup", b"q", 250), Ok(raw));
    let (_, _, operation, payload) = host.call(0);
    assert_eq!(operation, "Request");
    let msg = deserialize::<records::RequestMessage>(&payload).unwrap();
    assert_eq!(msg, records::RequestMessage { subject: "lookup".to_string(), body: b"q".to_vec(), timeout_ms: 250 });
}

#[test]
fn request_returns_empty_reply_unchanged() {
    let host = Recorder::answering(Ok(vec![]));
    let broker = MessageBrokerHostBinding::with_host("default", &host);
    assert_eq!(broker.request("lookup", b"q", 1), Ok(vec![]));
}

#[test]
fn broker_operations_surface_host_failure() {
    let fail = HostError { message: "timed out".to_string() };
    let host = Recorder::answering(Err(fail.clone()));
    let broker = MessageBrokerHostBinding::with_host("default", &host);
    assert_eq!(broker.publish("s", None, b"x"), Err(Error::Host(fail.clone())));
    assert_eq!(broker.request("s", b"x", 10), Err(Error::Host(fail)));
}

#[test]
fn default_broker_addresses_default_binding() {
    let host = Recorder::answering(Ok(vec![5]));
    let broker = DefaultMessageBroker::with_host(&host);
    assert_eq!(broker.request("s", b"x", 10), Ok(vec![5]));
    assert_eq!(broker.publish("s", None, b"x"), Ok(()));
    assert_eq!(host.call(0).0, "default");
    assert_eq!(host.call(1).0, "default");
}

#[test]
fn oversized_timeout_travels_as_greatest_timeout() {
    let host = Recorder::answering(Ok(vec![]));
    let broker = MessageBrokerHostBinding::with_host("default", &host);
    broker.request("s", b"x", u64::MAX).unwrap();
    assert_eq!(deserialize::<records::RequestMessage>(&host.call(0).3).unwrap().timeout_ms, i64::MAX);
}
