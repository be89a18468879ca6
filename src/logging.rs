//! The logger of the single-binding compatibility mode: every entry is
//! addressed to the default binding of the logging capability.

use crate::error::Error;
use crate::host::{acknowledged, Dispatch, Host, WapcHost, DEFAULT_BINDING};
use crate::logger::{writes_log, AutomaticLoggerHostBinding, DEBUG, ERROR, INFO, TRACE, WARN};
use vstd::prelude::*;

verus! {

/// The level that an entry of `level` travels with: `level` itself where it
/// fits in 32 bits, and the greatest 32-bit level otherwise.
pub open spec fn level_of(level: usize) -> u32 {
    if level > u32::MAX as usize {
        u32::MAX
    } else {
        level as u32
    }
}

/// Writes a level as the 32-bit number it travels as.
fn clamp_level(level: usize) -> (r: u32)
    ensures
        r == level_of(level),
{
    if level > u32::MAX as usize {
        u32::MAX
    } else {
        level as u32
    }
}

/// A logger that always writes to the default logging binding.
pub struct DefaultLogger<H> {
    logger: AutomaticLoggerHostBinding<H>,
}

impl<H> View for DefaultLogger<H> {
    /// The binding name that entries are addressed to.
    type V = Seq<char>;

    closed spec fn view(&self) -> Seq<char> {
        self.logger@
    }
}

impl DefaultLogger<WapcHost> {
    /// Creates a logger that writes to the host runtime's default log.
    pub fn new() -> (r: Self)
        ensures
            r@ == DEFAULT_BINDING@,
    {
        DefaultLogger::with_host(WapcHost)
    }
}

impl Default for DefaultLogger<WapcHost> {
    fn default() -> (r: Self)
        ensures
            r@ == DEFAULT_BINDING@,
    {
        DefaultLogger::with_host(WapcHost)
    }
}

impl<H: Host> DefaultLogger<H> {
    /// Creates a logger of the default binding that dispatches through the given host.
    pub fn with_host(host: H) -> (r: Self)
        ensures
            r@ == DEFAULT_BINDING@,
    {
        DefaultLogger { logger: AutomaticLoggerHostBinding::with_host(DEFAULT_BINDING, host) }
    }

    /// The dispatch that writes an entry of `level` with `body`; the level
    /// travels as a 32-bit number, the greatest one where it is larger.
    pub fn log_dispatch(&self, level: usize, body: &str) -> (r: Dispatch)
        ensures
            writes_log(self@, level_of(level), body@, r),
    {
        self.logger.log_dispatch(clamp_level(level), body)
    }

    /// Writes an entry of `level` with `body` on behalf of `actor`; the
    /// runtime identifies the actor itself, so `actor` is not sent.
    pub fn log(&self, actor: &str, level: usize, body: &str) -> (r: Result<(), Error>)
        ensures
    {
        self.logger.log(clamp_level(level), body)
    }

    /// Writes an entry at the error level.
    pub fn error(&self, actor: &str, body: &str) -> (r: Result<(), Error>)
        ensures
    {
        self.logger.log(ERROR, body)
    }

    /// Writes an entry at the warning level.
    pub fn warn(&self, actor: &str, body: &str) -> (r: Result<(), Error>)
        ensures
    {
        self.logger.log(WARN, body)
    }

    /// Writes an entry at the informational level.
    pub fn info(&self, actor: &str, body: &str) -> (r: Result<(), Error>)
        ensures
    {
        self.logger.log(INFO, body)
    }

    /// Writes an entry at the debugging level.
    pub fn debug(&self, actor: &str, body: &str) -> (r: Result<(), Error>)
        ensures
    {
        self.logger.log(DEBUG, body)
    }

    /// Writes an entry at the tracing level.
    pub fn trace(&self, actor: &str, body: &str) -> (r: Result<(), Error>)
        ensures
    {
        self.logger.log(TRACE, body)
    }
}

} // verus!
