//! Request dispatch and message envelope rules of a node's remote-call
//! interface: which operations exist and under which paths, how a server
//! answers a request, and how a client reads the answer.
//!
//! The library moves no bytes itself and knows no message type. A server
//! hands it the path and the body that arrived and the functions that
//! decode, handle and encode; a client hands it the encoded request, and
//! later what the transport brought back.

pub mod client;
pub mod error;
pub mod exchange;
pub mod operation;
pub mod reply;
pub mod service;
pub mod text;

pub use client::{classify, is_success, read_response, Envelope, LdkNodeServerClient};
pub use error::LdkNodeServerError;
pub use operation::Operation;
pub use reply::Reply;
pub use service::{conclude, handle_request, Dispatch, Handlers, NodeService};
