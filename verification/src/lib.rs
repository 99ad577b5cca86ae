//! In-process call boundary for a host runtime: named handlers are registered
//! in a registry and invoked by name with opaque byte payloads; every
//! boundary-crossing argument is validated in a fixed order and every failure
//! is collapsed to a numeric status code.

pub mod error;
pub mod handlers;
pub mod registry;
pub mod runtime;

pub use registry::Registry;
pub use registry::Handler;
pub use error::RpcError;
pub use error::ErrorKind;
pub use error::ERR_SUCCESS;
pub use error::ERR_NOT_INITIALIZED;
pub use error::ERR_UNKNOWN_METHOD;
pub use error::ERR_PARSE_ERROR;
pub use error::ERR_NOT_FOUND;
pub use error::ERR_SERIALIZATION;
pub use error::ERR_TOO_LARGE;
pub use error::ERR_INTERNAL;
