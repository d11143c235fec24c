//! Typed construction and validation of requests against a cloud blob store.
//!
//! A `BlobClient` names one blob and carries, in its type, the kind of upload
//! it is committed to. A client starts uncommitted, can read and probe, and is
//! committed once, by a transition that consumes it; only a committed client
//! can upload. Every operation is described as a request, ready to be sent:
//! the validator checks the payload of an upload against the rules of its
//! kind, and the request builder gives the request its method, target,
//! headers and body. Nothing here touches the network.
//!
//! - `units`: the kinds, and the markers that carry them in a client's type.
//! - `validator`: from a kind and a payload to the parameters of an upload.
//! - `request_builder`: from an operation to its request.
//! - `base_client`: the account address and the protocol version.
//! - `blob_client`, `blob_container_client`: the clients.
//! - `options`: the options a client is constructed with.
//! - `descriptor`, `clock`, `decimal`, `error`: requests as the contracts see
//!   them, the time, numbers as header values, and the errors.

pub mod base_client;
pub mod blob_client;
pub mod blob_container_client;
pub mod clock;
pub mod decimal;
pub mod descriptor;
pub mod error;
pub mod options;
pub mod request_builder;
mod sealed;
pub mod units;
pub mod validator;

pub use blob_client::BlobClient;
pub use blob_container_client::BlobContainerClient;
pub use options::builders::BlobClientOptionsBuilder;
pub use options::BlobClientOptions;
