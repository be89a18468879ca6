//! The dispatch primitive through which every capability operation reaches the host.

use crate::codec::{packed, unpacked, Record, RecordKind};
use crate::error::{Error, HostError};
use crate::msgpack::nesting_within;
use vstd::prelude::*;

verus! {

/// The name of the binding that is addressed when a caller names none.
pub const DEFAULT_BINDING: &'static str = "default";

/// One dispatch across the guest/host boundary.
///
/// The host routes the payload by the binding name, the capability identifier
/// and the operation name, and answers either with a reply payload or with a
/// failure of its own. What it answers is entirely up to the host.
pub trait Host {
    fn call(&self, binding: &str, capability: &str, operation: &str, payload: &[u8]) -> Result<Vec<u8>, HostError>;
}

/// The host runtime this module is loaded into, reached through the waPC import functions.
#[derive(Clone, Copy, Debug, Default)]
pub struct WapcHost;

impl Host for WapcHost {
    fn call(&self, binding: &str, capability: &str, operation: &str, payload: &[u8]) -> Result<Vec<u8>, HostError> {
        wapc_call(binding, capability, operation, payload)
    }
}

/// Relies on wapc_guest::host_call, which hands the four arguments to the host's
/// `__host_call` import and returns its response bytes, or its error bytes as an error.
/// Nothing is known of the outcome: it is whatever the host answers.
#[verifier::external_body]
fn wapc_call(binding: &str, capability: &str, operation: &str, payload: &[u8]) -> Result<Vec<u8>, HostError> {
    match wapc_guest::host_call(binding, capability, operation, payload) {
        Ok(reply) => Ok(reply),
        Err(e) => Err(HostError { message: e.to_string() }),
    }
}


/// One dispatch as it is handed to the host.
#[derive(Clone, Debug, PartialEq, Eq)]
pub struct Dispatch {
    pub binding: String,
    pub capability: String,
    pub operation: String,
    pub payload: Vec<u8>,
}

impl Dispatch {
    /// This dispatch addresses `operation` of `capability` on `binding`.
    pub open spec fn addresses(self, binding: Seq<char>, capability: Seq<char>, operation: Seq<char>) -> bool {
        &&& self.binding@ == binding
        &&& self.capability@ == capability
        &&& self.operation@ == operation
    }

    /// This dispatch addresses `operation` of `capability` on `binding` and
    /// carries the encoding of `record`.
    pub open spec fn carries(self, binding: Seq<char>, capability: Seq<char>, operation: Seq<char>, record: Record) -> bool {
        &&& self.addresses(binding, capability, operation)
        &&& self.payload@ == packed(record)
    }
}

/// The dispatch of an encoded request to `operation` of `capability` on `binding`.
pub fn address(binding: &str, capability: &str, operation: &str, payload: Result<Vec<u8>, String>) -> (r: Dispatch)
    requires
        payload is Ok,
    ensures
        r.addresses(binding@, capability@, operation@),
        r.payload == payload->Ok_0,
{
    Dispatch {
        binding: binding.to_string(),
        capability: capability.to_string(),
        operation: operation.to_string(),
        payload: payload.unwrap(),
    }
}

/// Hands a dispatch to the host and returns what the host answers.
pub fn send<H: Host>(host: &H, d: &Dispatch) -> Result<Vec<u8>, HostError> {
    host.call(d.binding.as_str(), d.capability.as_str(), d.operation.as_str(), d.payload.as_slice())
}

/// The caller-visible outcome of a dispatch whose reply payload is the result itself.
pub open spec fn relayed(reply: Result<Vec<u8>, HostError>) -> Result<Vec<u8>, Error> {
    match reply {
        Ok(payload) => Ok(payload),
        Err(e) => Err(Error::Host(e)),
    }
}

/// The caller-visible outcome of a dispatch whose reply payload carries nothing:
/// only whether the host accepted the request matters.
pub open spec fn acknowledged(reply: Result<Vec<u8>, HostError>) -> Result<(), Error> {
    match reply {
        Ok(_) => Ok(()),
        Err(e) => Err(Error::Host(e)),
    }
}

/// Hands the host's reply payload to the caller exactly as it arrived, and a
/// host failure as `Error::Host` with the host's own report.
pub fn relay(reply: Result<Vec<u8>, HostError>) -> (r: Result<Vec<u8>, Error>)
    ensures
        r == relayed(reply),
{
    match reply {
        Ok(payload) => Ok(payload),
        Err(e) => Err(Error::Host(e)),
    }
}

/// Drops the host's reply payload, keeping only whether the dispatch succeeded.
pub fn acknowledge(reply: Result<Vec<u8>, HostError>) -> (r: Result<(), Error>)
    ensures
        r == acknowledged(reply),
{
    match reply {
        Ok(_) => Ok(()),
        Err(e) => Err(Error::Host(e)),
    }
}


/// How an operation reads the host's reply: a host failure is passed on as it
/// is; a reply nested deeper than the decoder is trusted with is a `Decode`
/// error; a reply that reads as a record of `kind` gives a result that `meaning`
/// relates to that record; a reply that does not is a `Decode` error.
pub open spec fn reads<T>(
    reply: Result<Vec<u8>, HostError>,
    kind: RecordKind,
    r: Result<T, Error>,
    meaning: spec_fn(Record, Result<T, Error>) -> bool,
) -> bool {
    match reply {
        Err(e) => r == Err::<T, Error>(Error::Host(e)),
        Ok(bytes) => if !nesting_within(bytes@) {
            r is Err && r->Err_0 is Decode
        } else {
            match unpacked(bytes@, kind) {
                Some(record) => meaning(record, r),
                None => r is Err && r->Err_0 is Decode,
            }
        },
    }
}


/// A failure of the host reaches the caller as that very failure, whatever the
/// operation: no reply reader turns it into a success or into another error.
pub proof fn host_failure_is_passed_on<T>(
    e: HostError,
    kind: RecordKind,
    meaning: spec_fn(Record, Result<T, Error>) -> bool,
    r: Result<T, Error>,
)
    ensures
        reads(Err(e), kind, r, meaning) <==> r == Err::<T, Error>(Error::Host(e)),
        relayed(Err(e)) == Err::<Vec<u8>, Error>(Error::Host(e)),
        acknowledged(Err(e)) == Err::<(), Error>(Error::Host(e)),
{
}

} // verus!
