//! The extras capability: random numbers, GUIDs and sequence numbers
//! generated by the host.

use crate::codec::{pack_generator_request, unpack_generator_result, Record, RecordKind};
use crate::error::{Error, HostError};
use crate::host::{address, reads, send, Dispatch, Host, WapcHost, DEFAULT_BINDING};
use crate::msgpack::{within_nesting, NESTED_TOO_DEEP};
use vstd::prelude::*;

verus! {

/// The capability identifier of the extras provider.
pub const CAPID_EXTRAS: &'static str = "wascc:extras";
/// The operation that generates a GUID.
pub const OP_REQUEST_GUID: &'static str = "RequestGuid";
/// The operation that generates a sequence number.
pub const OP_REQUEST_SEQUENCE: &'static str = "RequestSequence";
/// The operation that generates a random number.
pub const OP_REQUEST_RANDOM: &'static str = "RequestRandom";

/// A binding to one instance of the extras capability.
pub struct ExtrasHostBinding<H> {
    binding: String,
    host: H,
}

impl<H> View for ExtrasHostBinding<H> {
    /// The binding name that every dispatch of this binding addresses.
    type V = Seq<char>;

    closed spec fn view(&self) -> Seq<char> {
        self.binding@
    }
}

/// Creates a binding to the named extras provider. Only a custom host runtime
/// offers any other than the default one.
pub fn host(binding: &str) -> (r: ExtrasHostBinding<WapcHost>)
    ensures
        r@ == binding@,
{
    ExtrasHostBinding::with_host(binding, WapcHost)
}

/// Creates a binding to the default extras provider.
pub fn default() -> (r: ExtrasHostBinding<WapcHost>)
    ensures
        r@ == DEFAULT_BINDING@,
{
    ExtrasHostBinding::with_host(DEFAULT_BINDING, WapcHost)
}

/// `r` is what the host's `reply` to a request for a random number means: the number.
pub open spec fn random_answer(reply: Result<Vec<u8>, HostError>, r: Result<u32, Error>) -> bool {
    reads(
        reply,
        RecordKind::GeneratorResult,
        r,
        |record, r|
            match record {
                Record::GeneratorResult { random_number, .. } => r == Ok::<u32, Error>(random_number),
                _ => false,
            },
    )
}

/// `r` is what the host's `reply` to a request for a sequence number means: the number.
pub open spec fn sequence_answer(reply: Result<Vec<u8>, HostError>, r: Result<u64, Error>) -> bool {
    reads(
        reply,
        RecordKind::GeneratorResult,
        r,
        |record, r|
            match record {
                Record::GeneratorResult { sequence_number, .. } => r == Ok::<u64, Error>(sequence_number),
                _ => false,
            },
    )
}

/// `r` is what the host's `reply` to a request for a GUID means: the GUID, and
/// a `Decode` error where the reply carries none.
pub open spec fn guid_answer(reply: Result<Vec<u8>, HostError>, r: Result<String, Error>) -> bool {
    reads(
        reply,
        RecordKind::GeneratorResult,
        r,
        |record, r: Result<String, Error>|
            match record {
                Record::GeneratorResult { guid, .. } => match guid {
                    Some(g) => r is Ok && r->Ok_0@ == g,
                    None => r is Err && r->Err_0 is Decode,
                },
                _ => false,
            },
    )
}

/// Reads the host's reply as the random number it carries.
pub fn read_random(reply: Result<Vec<u8>, HostError>) -> (r: Result<u32, Error>)
    ensures
        random_answer(reply, r),
{
    match reply {
        Err(e) => Err(Error::Host(e)),
        Ok(bytes) => if !within_nesting(bytes.as_slice()) {
            Err(Error::Decode(NESTED_TOO_DEEP.to_string()))
        } else {
            match unpack_generator_result(bytes.as_slice()) {
                Ok((_, _, random_number)) => Ok(random_number),
                Err(m) => Err(Error::Decode(m)),
            }
        },
    }
}

/// Reads the host's reply as the sequence number it carries.
pub fn read_sequence(reply: Result<Vec<u8>, HostError>) -> (r: Result<u64, Error>)
    ensures
        sequence_answer(reply, r),
{
    match reply {
        Err(e) => Err(Error::Host(e)),
        Ok(bytes) => if !within_nesting(bytes.as_slice()) {
            Err(Error::Decode(NESTED_TOO_DEEP.to_string()))
        } else {
            match unpack_generator_result(bytes.as_slice()) {
                Ok((_, sequence_number, _)) => Ok(sequence_number),
                Err(m) => Err(Error::Decode(m)),
            }
        },
    }
}

/// Reads the host's reply as the GUID it carries. A reply without a GUID is
/// malformed: no placeholder stands in for it.
pub fn read_guid(reply: Result<Vec<u8>, HostError>) -> (r: Result<String, Error>)
    ensures
        guid_answer(reply, r),
{
    match reply {
        Err(e) => Err(Error::Host(e)),
        Ok(bytes) => if !within_nesting(bytes.as_slice()) {
            Err(Error::Decode(NESTED_TOO_DEEP.to_string()))
        } else {
            match unpack_generator_result(bytes.as_slice()) {
                Ok((Some(guid), _, _)) => Ok(guid),
                Ok((None, _, _)) => Err(Error::Decode("the reply carries no GUID".to_string())),
                Err(m) => Err(Error::Decode(m)),
            }
        },
    }
}

impl<H: Host> ExtrasHostBinding<H> {
    /// Creates a binding to the named extras provider that dispatches through the given host.
    pub fn with_host(binding: &str, host: H) -> (r: Self)
        ensures
            r@ == binding@,
    {
        ExtrasHostBinding { binding: binding.to_string(), host }
    }

    /// The dispatch that asks for a random number between `min` and `max`.
    pub fn get_random_dispatch(&self, min: u32, max: u32) -> (r: Dispatch)
        ensures
            r.carries(
                self@,
                CAPID_EXTRAS@,
                OP_REQUEST_RANDOM@,
                Record::GeneratorRequest { guid: false, sequence: false, random: true, min, max },
            ),
    {
        address(self.binding.as_str(), CAPID_EXTRAS, OP_REQUEST_RANDOM, pack_generator_request(false, false, true, min, max))
    }

    /// Asks the host for a random number between `min` and `max`.
    pub fn get_random(&self, min: u32, max: u32) -> (r: Result<u32, Error>)
        ensures
            exists|reply| random_answer(reply, r),
    {
        read_random(send(&self.host, &self.get_random_dispatch(min, max)))
    }

    /// The dispatch that asks for a GUID.
    pub fn get_guid_dispatch(&self) -> (r: Dispatch)
        ensures
            r.carries(
                self@,
                CAPID_EXTRAS@,
                OP_REQUEST_GUID@,
                Record::GeneratorRequest { guid: true, sequence: false, random: false, min: 0, max: 0 },
            ),
    {
        address(self.binding.as_str(), CAPID_EXTRAS, OP_REQUEST_GUID, pack_generator_request(true, false, false, 0, 0))
    }

    /// Asks the host for a newly generated GUID.
    pub fn get_guid(&self) -> (r: Result<String, Error>)
        ensures
            exists|reply| guid_answer(reply, r),
    {
        read_guid(send(&self.host, &self.get_guid_dispatch()))
    }

    /// The dispatch that asks for a sequence number.
    pub fn get_sequence_number_dispatch(&self) -> (r: Dispatch)
        ensures
            r.carries(
                self@,
                CAPID_EXTRAS@,
                OP_REQUEST_SEQUENCE@,
                Record::GeneratorRequest { guid: false, sequence: true, random: false, min: 0, max: 0 },
            ),
    {
        address(self.binding.as_str(), CAPID_EXTRAS, OP_REQUEST_SEQUENCE, pack_generator_request(false, true, false, 0, 0))
    }

    /// Asks the host for a sequence number. It is unique within the host, not globally.
    pub fn get_sequence_number(&self) -> (r: Result<u64, Error>)
        ensures
            exists|reply| sequence_answer(reply, r),
    {
        read_sequence(send(&self.host, &self.get_sequence_number_dispatch()))
    }
}

} // verus!
