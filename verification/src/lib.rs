//! Authentication of signed webhook requests.
//!
//! A sender and this service share a secret. The sender signs every request
//! with HMAC-SHA256 over a version tag, the time of sending and the body, and
//! presents signature and time in two header fields. The guard accepts a
//! request only when the signature is the one this service computes for it
//! and the time of sending lies within five minutes of the present.

pub mod compare;
pub mod digest;
pub mod encoding;
pub mod decimal;
pub mod config;
pub mod signer;
pub mod clock;
pub mod text;
pub mod guard;
pub mod service;
pub mod laws;

pub use crate::config::{SlackAuthConfig, SlackAuthLayer};
pub use crate::guard::{Decision, HeaderField, InboundProof, InboundRequest, Rejection};
pub use crate::service::SlackAuthService;
pub use crate::signer::SecretSigner;
