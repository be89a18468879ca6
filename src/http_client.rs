//! The HTTP client capability: one HTTP request per dispatch.

use std::collections::HashMap;

use crate::codec::{pack_http_request, unpack_http_response, Record, RecordKind};
use crate::error::{Error, HostError};
use crate::host::{address, reads, send, Dispatch, Host, WapcHost, DEFAULT_BINDING};
use crate::msgpack::{within_nesting, NESTED_TOO_DEEP};
use vstd::prelude::*;

verus! {

/// The capability identifier of an HTTP client.
pub const CAPID_HTTPCLIENT: &'static str = "wascc:http_client";
/// The operation that performs an HTTP request.
pub const OP_PERFORM_REQUEST: &'static str = "PerformRequest";

/// An HTTP request.
#[derive(Clone, Debug, PartialEq, Eq)]
pub struct Request {
    pub method: String,
    pub path: String,
    pub query_string: String,
    pub header: HashMap<String, String>,
    pub body: Vec<u8>,
}

/// An HTTP response.
#[derive(Clone, Debug, PartialEq, Eq)]
pub struct Response {
    pub status_code: u32,
    pub status: String,
    pub header: HashMap<String, String>,
    pub body: Vec<u8>,
}

/// A binding to one instance of the HTTP client capability.
pub struct HttpClientHostBinding<H> {
    binding: String,
    host: H,
}

impl<H> View for HttpClientHostBinding<H> {
    /// The binding name that every dispatch of this binding addresses.
    type V = Seq<char>;

    closed spec fn view(&self) -> Seq<char> {
        self.binding@
    }
}

impl Default for HttpClientHostBinding<WapcHost> {
    fn default() -> (r: Self)
        ensures
            r@ == DEFAULT_BINDING@,
    {
        HttpClientHostBinding::with_host(DEFAULT_BINDING, WapcHost)
    }
}

/// Creates a binding to the named HTTP client.
pub fn host(binding: &str) -> (r: HttpClientHostBinding<WapcHost>)
    ensures
        r@ == binding@,
{
    HttpClientHostBinding::with_host(binding, WapcHost)
}

/// Creates a binding to the default HTTP client.
pub fn default() -> (r: HttpClientHostBinding<WapcHost>)
    ensures
        r@ == DEFAULT_BINDING@,
{
    HttpClientHostBinding::with_host(DEFAULT_BINDING, WapcHost)
}

/// The meaning of a reply that is an HTTP response: that response.
pub open spec fn response_meaning(record: Record, r: Result<Response, Error>) -> bool {
    match record {
        Record::HttpResponse { status_code, status, body } => r is Ok && r->Ok_0.status_code == status_code
            && r->Ok_0.status@ == status && r->Ok_0.body@ == body,
        _ => false,
    }
}

/// `r` is what the host's `reply` to an HTTP request means.
pub open spec fn response_answer(reply: Result<Vec<u8>, HostError>, r: Result<Response, Error>) -> bool {
    reads(reply, RecordKind::HttpResponse, r, |record, r| response_meaning(record, r))
}

/// Reads the host's reply as the HTTP response it carries.
pub fn read_response(reply: Result<Vec<u8>, HostError>) -> (r: Result<Response, Error>)
    ensures
        response_answer(reply, r),
{
    match reply {
        Err(e) => Err(Error::Host(e)),
        Ok(bytes) => if !within_nesting(bytes.as_slice()) {
            Err(Error::Decode(NESTED_TOO_DEEP.to_string()))
        } else {
            match unpack_http_response(bytes.as_slice()) {
                Ok(response) => Ok(response),
                Err(m) => Err(Error::Decode(m)),
            }
        },
    }
}

impl<H: Host> HttpClientHostBinding<H> {
    /// Creates a binding to the named HTTP client that dispatches through the given host.
    pub fn with_host(binding: &str, host: H) -> (r: Self)
        ensures
            r@ == binding@,
    {
        HttpClientHostBinding { binding: binding.to_string(), host }
    }

    /// The dispatch that performs `request`.
    pub fn request_dispatch(&self, request: Request) -> (r: Dispatch)
        ensures
            r.addresses(self@, CAPID_HTTPCLIENT@, OP_PERFORM_REQUEST@),
    {
        address(self.binding.as_str(), CAPID_HTTPCLIENT, OP_PERFORM_REQUEST, pack_http_request(request))
    }

    /// Performs `request` and returns the response.
    pub fn request(&self, request: Request) -> (r: Result<Response, Error>)
        ensures
            exists|reply| response_answer(reply, r),
    {
        read_response(send(&self.host, &self.request_dispatch(request)))
    }
}

} // verus!
