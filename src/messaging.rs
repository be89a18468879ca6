//! The message broker capability: publishing messages, and requests that wait
//! for a reply.

use crate::codec::{pack_broker_message, pack_request_message, Record};
use crate::error::Error;
use crate::host::{acknowledge, acknowledged, address, relay, relayed, send, Dispatch, Host, WapcHost, DEFAULT_BINDING};
use vstd::prelude::*;

verus! {

/// The capability identifier of a message broker.
pub const CAPID_MESSAGING: &'static str = "wascc:messaging";
/// The operation that publishes a message.
pub const OP_PUBLISH_MESSAGE: &'static str = "Publish";
/// The operation that publishes a message and waits for its reply.
pub const OP_PERFORM_REQUEST: &'static str = "Request";

/// A binding to one instance of the message broker capability.
pub struct MessageBrokerHostBinding<H> {
    binding: String,
    host: H,
}

impl<H> View for MessageBrokerHostBinding<H> {
    /// The binding name that every dispatch of this binding addresses.
    type V = Seq<char>;

    closed spec fn view(&self) -> Seq<char> {
        self.binding@
    }
}

/// Creates a binding to the named message broker.
pub fn host(binding: &str) -> (r: MessageBrokerHostBinding<WapcHost>)
    ensures
        r@ == binding@,
{
    MessageBrokerHostBinding::with_host(binding, WapcHost)
}

/// Creates a binding to the default message broker.
pub fn default() -> (r: MessageBrokerHostBinding<WapcHost>)
    ensures
        r@ == DEFAULT_BINDING@,
{
    MessageBrokerHostBinding::with_host(DEFAULT_BINDING, WapcHost)
}

/// The reply subject that a published message carries: empty where there is none.
pub open spec fn reply_subject(reply_to: Option<&str>) -> Seq<char> {
    match reply_to {
        Some(r) => r@,
        None => Seq::empty(),
    }
}

/// The timeout that a request carries: `timeout_ms` where it fits in a signed
/// 64-bit number, and the greatest such number otherwise.
pub open spec fn timeout_of(timeout_ms: u64) -> i64 {
    if timeout_ms > i64::MAX as u64 {
        i64::MAX
    } else {
        timeout_ms as i64
    }
}

/// Writes `reply_to` as the broker record holds it: an absent reply subject is empty.
pub fn reply_subject_of(reply_to: Option<&str>) -> (r: String)
    ensures
        r@ == reply_subject(reply_to),
{
    match reply_to {
        Some(subject) => subject.to_string(),
        None => String::new(),
    }
}

impl<H: Host> MessageBrokerHostBinding<H> {
    /// Creates a binding to the named message broker that dispatches through the given host.
    pub fn with_host(binding: &str, host: H) -> (r: Self)
        ensures
            r@ == binding@,
    {
        MessageBrokerHostBinding { binding: binding.to_string(), host }
    }

    /// The dispatch that publishes `payload` on `subject`, with an optional reply subject.
    pub fn publish_dispatch(&self, subject: &str, reply_to: Option<&str>, payload: &[u8]) -> (r: Dispatch)
        ensures
            r.carries(
                self@,
                CAPID_MESSAGING@,
                OP_PUBLISH_MESSAGE@,
                Record::BrokerMessage { subject: subject@, reply_to: reply_subject(reply_to), body: payload@ },
            ),
    {
        let reply_to = reply_subject_of(reply_to);
        let message = pack_broker_message(subject, reply_to.as_str(), payload);
        address(self.binding.as_str(), CAPID_MESSAGING, OP_PUBLISH_MESSAGE, message)
    }

    /// Publishes `payload` on `subject`, with an optional subject for replies.
    /// Nothing is read from the host's reply: only whether the broker took the
    /// message is reported.
    pub fn publish(&self, subject: &str, reply_to: Option<&str>, payload: &[u8]) -> (r: Result<(), Error>)
        ensures
            exists|reply| r == acknowledged(reply),
    {
        acknowledge(send(&self.host, &self.publish_dispatch(subject, reply_to, payload)))
    }

    /// The dispatch that publishes `payload` on `subject` and waits up to
    /// `timeout_ms` milliseconds for a reply; the timeout travels as a signed
    /// 64-bit number, the greatest one where it is larger.
    pub fn request_dispatch(&self, subject: &str, payload: &[u8], timeout_ms: u64) -> (r: Dispatch)
        ensures
            r.carries(
                self@,
                CAPID_MESSAGING@,
                OP_PERFORM_REQUEST@,
                Record::RequestMessage { subject: subject@, body: payload@, timeout_ms: timeout_of(timeout_ms) },
            ),
    {
        let timeout: i64 = if timeout_ms > i64::MAX as u64 {
            i64::MAX
        } else {
            timeout_ms as i64
        };
        let message = pack_request_message(subject, payload, timeout);
        address(self.binding.as_str(), CAPID_MESSAGING, OP_PERFORM_REQUEST, message)
    }

    /// Publishes `payload` on `subject` and waits up to `timeout_ms` milliseconds
    /// for a reply. The broker's reply is returned exactly as it arrived, with no
    /// envelope; a timeout is a host failure like any other.
    pub fn request(&self, subject: &str, payload: &[u8], timeout_ms: u64) -> (r: Result<Vec<u8>, Error>)
        ensures
            exists|reply| r == relayed(reply),
    {
        relay(send(&self.host, &self.request_dispatch(subject, payload, timeout_ms)))
    }
}

} // verus!
