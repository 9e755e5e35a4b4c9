//! The core of a client for a cloud blob and queue storage service: request
//! builders that cannot be finalized before every required field is given,
//! and decoders that turn the headers and bodies of responses into typed
//! records. Sending a request is left to a transport outside this crate.

pub mod blob;
pub mod client;
pub mod datetime;
pub mod errors;
pub mod headers;
pub mod ids;
pub mod markers;
pub mod metadata;
pub mod queue;
pub mod request;
pub mod sas;
pub mod text;
