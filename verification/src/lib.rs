//! Verified construction of the request that deletes a blob from a cloud
//! object store, and verified translation of the service's answer.
//!
//! A [`DeleteBlobBuilder`] collects three mandatory and three optional
//! parameters in any order and records in its type which mandatory ones it
//! has received. [`DeleteBlobBuilder::finalize`], which only a complete
//! builder has, describes the HTTP request to send; [`translate_response`]
//! turns what the transport brought back into a [`DeleteBlobResponse`] or a
//! [`DeleteBlobError`]. Sending the request is left to the caller.

pub mod builder;
pub mod error;
pub mod headers;
pub mod laws;
pub mod markers;
pub mod params;
mod protocol;
pub mod request;
pub mod response;
pub mod text;

pub use builder::DeleteBlobBuilder;
pub use error::{DeleteBlobError, ParseFailure};
pub use headers::Header;
pub use markers::{No, ToAssign, Yes};
pub use params::{Client, DeleteSnapshotsMethod, LeaseId, RequiredField};
pub use request::DeleteBlobRequest;
pub use response::{translate_response, DeleteBlobResponse, TransportResponse};
