//! Guest-side access to the capabilities of a waSCC host runtime.
//!
//! Every capability operation is one round trip across a single dispatch
//! primitive: a request record is serialized, handed to the host together with
//! a binding name, a capability identifier and an operation name, and the
//! host's reply is read back into a typed result. The [`host::Host`] trait
//! stands for that primitive, so that every binding can be driven by the real
//! runtime or by a stand-in.

pub mod codec;
pub mod error;
pub mod events;
pub mod extras;
pub mod host;
pub mod http_client;
pub mod keyvalue;
pub mod kv;
pub mod logger;
pub mod logging;
pub mod messaging;
pub mod msg;
pub mod msgpack;
pub mod objectstore;
pub mod prelude;
pub mod raw;
pub mod untyped;
