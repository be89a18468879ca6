//! Untyped access to any capability: the caller names the capability and the
//! operation and supplies the payload bytes itself.

use crate::error::Error;
use crate::host::{relay, relayed, send, Dispatch, Host, WapcHost, DEFAULT_BINDING};
use vstd::prelude::*;

verus! {

/// A binding through which arbitrary payloads are sent to named operations of
/// any capability, for capabilities that have no typed binding of their own.
pub struct UntypedHostBinding<H> {
    binding: String,
    host: H,
}

impl<H> View for UntypedHostBinding<H> {
    /// The binding name that every dispatch of this binding addresses.
    type V = Seq<char>;

    closed spec fn view(&self) -> Seq<char> {
        self.binding@
    }
}

/// Creates a binding that addresses the named instance of a capability.
pub fn host(binding: &str) -> (r: UntypedHostBinding<WapcHost>)
    ensures
        r@ == binding@,
{
    UntypedHostBinding::with_host(binding, WapcHost)
}

/// Creates a binding that addresses the default instance of a capability.
pub fn default() -> (r: UntypedHostBinding<WapcHost>)
    ensures
        r@ == DEFAULT_BINDING@,
{
    UntypedHostBinding::with_host(DEFAULT_BINDING, WapcHost)
}

impl<H: Host> UntypedHostBinding<H> {
    /// Creates a binding that dispatches through the given host.
    pub fn with_host(binding: &str, host: H) -> (r: Self)
        ensures
            r@ == binding@,
    {
        UntypedHostBinding { binding: binding.to_string(), host }
    }

    /// The dispatch that carries `payload`, unchanged, to `operation` of the
    /// capability `capid` on this binding.
    pub fn call_dispatch(&self, capid: &str, operation: &str, payload: Vec<u8>) -> (r: Dispatch)
        ensures
            r.addresses(self@, capid@, operation@),
            r.payload@ == payload@,
    {
        Dispatch {
            binding: self.binding.clone(),
            capability: capid.to_string(),
            operation: operation.to_string(),
            payload,
        }
    }

    /// Invokes `operation` of the capability `capid` with `payload`. The host's
    /// reply payload is returned unmodified, and a host failure as such.
    pub fn call(&self, capid: &str, operation: &str, payload: Vec<u8>) -> (r: Result<Vec<u8>, Error>)
        ensures
            exists|reply| r == relayed(reply),
    {
        relay(send(&self.host, &self.call_dispatch(capid, operation, payload)))
    }
}

} // verus!
