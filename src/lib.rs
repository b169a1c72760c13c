//! A JSON-RPC 2.0 transport: the per-call client and server state records,
//! the request envelope, request validation, parameter extraction and the
//! classification of read failures, all with verified contracts.
pub mod json;
pub mod laws;
pub mod rpc;
pub mod transport;
mod bindings;


pub use transport::{JRXState, JSONAsyncClientTransport, JSONTransport, JTXState};
pub use json::Json;
pub use rpc::{MethodId, PartialMethodId, RPCError, RPCErrorKind, ReadFailure};

