//! The message broker of the single-binding compatibility mode: every dispatch
//! addresses the default binding.

use crate::error::Error;
use crate::host::{acknowledged, relayed, Host, WapcHost, DEFAULT_BINDING};
use crate::messaging::MessageBrokerHostBinding;
use vstd::prelude::*;

verus! {

/// A message broker client that always addresses the default broker.
pub struct DefaultMessageBroker<H> {
    broker: MessageBrokerHostBinding<H>,
}

impl<H> View for DefaultMessageBroker<H> {
    /// The binding name that every dispatch addresses.
    type V = Seq<char>;

    closed spec fn view(&self) -> Seq<char> {
        self.broker@
    }
}

impl DefaultMessageBroker<WapcHost> {
    /// Creates a client of the host runtime's default message broker.
    pub fn new() -> (r: Self)
        ensures
            r@ == DEFAULT_BINDING@,
    {
        DefaultMessageBroker::with_host(WapcHost)
    }
}

impl Default for DefaultMessageBroker<WapcHost> {
    fn default() -> (r: Self)
        ensures
            r@ == DEFAULT_BINDING@,
    {
        DefaultMessageBroker::with_host(WapcHost)
    }
}

impl<H: Host> DefaultMessageBroker<H> {
    /// Creates a client of the default message broker that dispatches through the given host.
    pub fn with_host(host: H) -> (r: Self)
        ensures
            r@ == DEFAULT_BINDING@,
    {
        DefaultMessageBroker { broker: MessageBrokerHostBinding::with_host(DEFAULT_BINDING, host) }
    }

    /// Publishes `payload` on `subject`, with an optional subject for replies.
    pub fn publish(&self, subject: &str, reply_to: Option<&str>, payload: &[u8]) -> (r: Result<(), Error>)
        ensures
            exists|reply| r == acknowledged(reply),
    {
        self.broker.publish(subject, reply_to, payload)
    }

    /// Publishes `payload` on `subject` and returns the reply that arrives
    /// within `timeout_ms` milliseconds, exactly as it arrived.
    pub fn request(&self, subject: &str, payload: &[u8], timeout_ms: u64) -> (r: Result<Vec<u8>, Error>)
        ensures
            exists|reply| r == relayed(reply),
    {
        self.broker.request(subject, payload, timeout_ms)
    }
}

} // verus!
