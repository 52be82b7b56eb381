//! A client for the private web interface of a micro-blogging platform: it lists a
//! user's posts and sets the visibility of each.
//!
//! The library decides and computes; it does no input or output. A caller sends the
//! requests that the library builds, sleeps when told to, and hands back what came of
//! each attempt.
pub mod client;
pub mod envelope;
pub mod error;
pub mod json;
pub mod lister;
pub mod lister_trace;
pub mod mutator;
pub mod mutator_trace;
pub mod report;
pub mod request;
pub mod retry;
pub mod session;
pub mod text;
pub mod visibility;

pub use client::WeiboPrivacyClient;
pub use envelope::WeiboInfo;
pub use error::ClientError;
pub use visibility::{parse_visibility, Visibility};
