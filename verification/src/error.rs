use crate::backend::TrafficClass;
use vstd::prelude::*;

verus! {

/// A fault in the configuration that the proxy was started with.
#[derive(Clone, Copy, Debug, PartialEq, Eq, Structural)]
pub enum ConfigError {
    /// No backend is configured for the traffic class that a request needs.
    EmptyPool(TrafficClass),
    /// Two rewrite rules have the same match path.
    DuplicateRewriteMatch,
    /// The prefix of one cache class is a prefix of another's.
    OverlappingPrefixes,
}

} // verus!
