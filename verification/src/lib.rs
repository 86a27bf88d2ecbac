//! Typed client core for the NeoLite virtual-machine-hosting REST API.
//!
//! The crate models the remote API's resources and the rules that map
//! HTTP responses onto them: the response-envelope handling, the
//! status-to-error classification, request path and body construction,
//! and the list/filter navigation between plans, billing cycles,
//! keypairs, OS images, virtual machines and snapshots.  Everything
//! here is pure: the HTTP transport itself lives outside the library
//! and hands in the status code and the decoded JSON body.

pub mod account;
pub mod client;
pub mod error;
pub mod ip;
pub mod json;
pub mod keypair;
pub mod lite;
pub mod numstr;
pub mod os;
pub mod plan;
pub mod snapshot;
pub mod vm;

pub use error::Error;
