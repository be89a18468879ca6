//! The items that most actor modules use, for a single glob import.

pub use crate::error::{Error, HostError};
pub use crate::host::{Host, WapcHost};
pub use crate::{events, extras, http_client, keyvalue, logger, messaging, objectstore, untyped};
