//! The logging capability: leveled text entries written to the host's log.
//!
//! A logger carries the name of the binding that its entries are addressed to.
//! Switching that binding redirects every entry written afterwards; entries are
//! never queued, so nothing written before the switch is affected.

use crate::codec::{pack_write_log_request, Record};
use crate::error::Error;
use crate::host::{acknowledge, acknowledged, address, send, Dispatch, Host, WapcHost, DEFAULT_BINDING};
use vstd::prelude::*;

verus! {

/// The capability identifier of the logging provider.
pub const CAPID_LOGGING: &'static str = "wascc:logging";
/// The operation that writes one log entry.
pub const OP_LOG: &'static str = "WriteLog";

/// The level of an error entry.
pub const ERROR: u32 = 1;
/// The level of a warning entry.
pub const WARN: u32 = 2;
/// The level of an informational entry.
pub const INFO: u32 = 3;
/// The level of a debugging entry.
pub const DEBUG: u32 = 4;
/// The level of a tracing entry.
pub const TRACE: u32 = 5;

/// `d` is the dispatch that writes an entry of `level` with `body` through a
/// logger bound to `binding`.
pub open spec fn writes_log(binding: Seq<char>, level: u32, body: Seq<char>, d: Dispatch) -> bool {
    d.carries(binding, CAPID_LOGGING@, OP_LOG@, Record::WriteLogRequest { level, body })
}

/// An entry that a logger bound to `name` writes is addressed to `name`:
/// after `set_binding(name)`, every entry goes there, whatever the binding was
/// before.
pub proof fn entries_follow_the_binding<H>(logger: AutomaticLoggerHostBinding<H>, name: Seq<char>, level: u32, body: Seq<char>, d: Dispatch)
    requires
        logger@ == name,
        writes_log(logger@, level, body, d),
    ensures
        d.binding@ == name,
        d.capability@ == CAPID_LOGGING@,
        d.operation@ == OP_LOG@,
{
}

/// A logger that writes its entries to one binding of the logging capability.
pub struct AutomaticLoggerHostBinding<H> {
    binding: String,
    host: H,
}

impl<H> View for AutomaticLoggerHostBinding<H> {
    /// The binding name that the logger's entries are addressed to.
    type V = Seq<char>;

    closed spec fn view(&self) -> Seq<char> {
        self.binding@
    }
}

impl Default for AutomaticLoggerHostBinding<WapcHost> {
    fn default() -> (r: Self)
        ensures
            r@ == DEFAULT_BINDING@,
    {
        AutomaticLoggerHostBinding::with_host(DEFAULT_BINDING, WapcHost)
    }
}

/// Creates a logger whose entries are addressed to the named binding.
pub fn host(binding: &str) -> (r: AutomaticLoggerHostBinding<WapcHost>)
    ensures
        r@ == binding@,
{
    AutomaticLoggerHostBinding::with_host(binding, WapcHost)
}

/// Creates a logger whose entries are addressed to the default binding.
pub fn default() -> (r: AutomaticLoggerHostBinding<WapcHost>)
    ensures
        r@ == DEFAULT_BINDING@,
{
    AutomaticLoggerHostBinding::with_host(DEFAULT_BINDING, WapcHost)
}

impl<H: Host> AutomaticLoggerHostBinding<H> {
    /// Creates a logger addressed to the named binding that dispatches through the given host.
    pub fn with_host(binding: &str, host: H) -> (r: Self)
        ensures
            r@ == binding@,
    {
        AutomaticLoggerHostBinding { binding: binding.to_string(), host }
    }

    /// Addresses every entry written from now on to the named binding.
    pub fn set_binding(&mut self, binding: &str)
        ensures
            final(self)@ == binding@,
    {
        self.binding = binding.to_string();
    }

    /// The name of the binding that entries are addressed to.
    pub fn binding(&self) -> (r: &str)
        ensures
            r@ == self@,
    {
        self.binding.as_str()
    }

    /// The dispatch that writes an entry of `level` with `body`.
    pub fn log_dispatch(&self, level: u32, body: &str) -> (r: Dispatch)
        ensures
            writes_log(self@, level, body@, r),
    {
        address(self.binding.as_str(), CAPID_LOGGING, OP_LOG, pack_write_log_request(level, body))
    }

    /// Writes an entry of `level` with `body` to the host's log. Nothing is read
    /// from the reply but its success; a host failure is returned as such.
    pub fn log(&self, level: u32, body: &str) -> (r: Result<(), Error>)
        ensures
            exists|reply| r == acknowledged(reply),
    {
        acknowledge(send(&self.host, &self.log_dispatch(level, body)))
    }

    /// Writes an entry at the error level.
    pub fn error(&self, body: &str) -> (r: Result<(), Error>)
        ensures
            exists|reply| r == acknowledged(reply),
    {
        self.log(ERROR, body)
    }

    /// Writes an entry at the warning level.
    pub fn warn(&self, body: &str) -> (r: Result<(), Error>)
        ensures
            exists|reply| r == acknowledged(reply),
    {
        self.log(WARN, body)
    }

    /// Writes an entry at the informational level.
    pub fn info(&self, body: &str) -> (r: Result<(), Error>)
        ensures
            exists|reply| r == acknowledged(reply),
    {
        self.log(INFO, body)
    }

    /// Writes an entry at the debugging level.
    pub fn debug(&self, body: &str) -> (r: Result<(), Error>)
        ensures
            exists|reply| r == acknowledged(reply),
    {
        self.log(DEBUG, body)
    }

    /// Writes an entry at the tracing level.
    pub fn trace(&self, body: &str) -> (r: Result<(), Error>)
        ensures
            exists|reply| r == acknowledged(reply),
    {
        self.log(TRACE, body)
    }
}

} // verus!
