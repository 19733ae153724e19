//! A small HTTP gateway core: a request router in front of an embedded
//! single-page UI and an upstream registry API.
//!
//! The library holds the verified logic of the gateway: classifying request
//! paths, serving embedded assets with inferred content types, falling back
//! to the SPA shell, building upstream request URLs with injected
//! credentials, translating upstream outcomes into client replies, and the
//! fail-fast startup probe. Network and process plumbing live outside the
//! library and hand it plain values.

pub mod assets;
pub mod bytes_util;
pub mod credentials;
pub mod reply;
pub mod router;
pub mod tokens;
pub mod upstream;
