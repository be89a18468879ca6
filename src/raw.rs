//! The raw capability interface of the single-binding compatibility mode: the
//! caller names the capability and the operation, and the dispatch always
//! addresses the default binding. The waPC host call always takes a binding
//! name, so the default binding stands for "no binding".

use crate::error::Error;
use crate::host::{relayed, Dispatch, Host, WapcHost, DEFAULT_BINDING};
use crate::untyped::UntypedHostBinding;
use vstd::prelude::*;

verus! {

/// An opaque ("loosely typed") capability client that always addresses the
/// default binding.
pub struct DefaultRawCapability<H> {
    untyped: UntypedHostBinding<H>,
}

impl<H> View for DefaultRawCapability<H> {
    /// The binding name that every dispatch addresses.
    type V = Seq<char>;

    closed spec fn view(&self) -> Seq<char> {
        self.untyped@
    }
}

impl DefaultRawCapability<WapcHost> {
    /// Creates a raw capability client of the host runtime.
    pub fn new() -> (r: Self)
        ensures
            r@ == DEFAULT_BINDING@,
    {
        DefaultRawCapability::with_host(WapcHost)
    }
}

impl Default for DefaultRawCapability<WapcHost> {
    fn default() -> (r: Self)
        ensures
            r@ == DEFAULT_BINDING@,
    {
        DefaultRawCapability::with_host(WapcHost)
    }
}

impl<H: Host> DefaultRawCapability<H> {
    /// Creates a raw capability client that dispatches through the given host.
    pub fn with_host(host: H) -> (r: Self)
        ensures
            r@ == DEFAULT_BINDING@,
    {
        DefaultRawCapability { untyped: UntypedHostBinding::with_host(DEFAULT_BINDING, host) }
    }

    /// The dispatch that carries `msg`, unchanged, to `operation` of the
    /// capability `capid` on the default binding.
    pub fn call_dispatch(&self, capid: &str, operation: &str, msg: &[u8]) -> (r: Dispatch)
        ensures
            r.addresses(self@, capid@, operation@),
            r.payload@ == msg@,
    {
        self.untyped.call_dispatch(capid, operation, vstd::slice::slice_to_vec(msg))
    }

    /// Performs one dispatch of `msg` to `operation` of the capability `capid`
    /// on the default binding, returning the host's reply payload unmodified,
    /// and a host failure as such.
    pub fn call(&self, capid: &str, operation: &str, msg: &[u8]) -> (r: Result<Vec<u8>, Error>)
        ensures
            exists|reply| r == relayed(reply),
    {
        self.untyped.call(capid, operation, vstd::slice::slice_to_vec(msg))
    }
}

} // verus!
