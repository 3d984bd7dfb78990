//! A client engine for the Bayeux long-polling messaging protocol.
//!
//! The engine negotiates a session with a server, classifies the
//! server's response batches, and follows server-issued reconnection
//! advice to recover from transient failures. It is sans-I/O: every
//! operation yields the request to exchange next, and the caller feeds
//! the decoded response batch back in.

pub mod advice;
pub mod client;
pub mod error;
pub mod request;
pub mod response;

pub use advice::Advice;
pub use advice::Decision;
pub use advice::Reconnect;
pub use client::Client;
pub use client::Op;
pub use client::Phase;
pub use client::Step;
pub use error::Error;
pub use error::ErrorKind;
pub use request::Request;
pub use response::RawMessage;
pub use response::Response;
