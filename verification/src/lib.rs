//! The request-routing and caching decisions of a CDN edge node.
//!
//! For every request the pipeline picks a backend by the client-facing
//! protocol, rewrites selected paths, decides whether the response may be
//! cached and under which key, and names the headers that are set on the
//! response. Connections, TLS, HTTP parsing and the cache store belong to the
//! proxying runtime that drives the pipeline.

pub mod backend;
pub mod cache;
pub mod error;
pub mod lookup;
pub mod proxy;
pub mod request;
pub mod response;
pub mod rewrite;
pub mod text;

pub use backend::{Backend, BackendPool, TrafficClass};
pub use cache::{CacheDecision, CacheKey, CacheKeyPolicy, DisableReason};
pub use error::ConfigError;
pub use proxy::{CdnProxy, RequestVerdict, UpstreamPeer};
pub use request::RequestDescriptor;
pub use response::{CacheClass, HeaderMutation, ResponseHeaderPolicy};
pub use rewrite::{RewriteOutcome, RewriteRule, RewriteRules};
