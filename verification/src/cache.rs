use crate::request::{RequestDescriptor, RequestView};
use crate::text::same_text;
use vstd::prelude::*;

verus! {

/// The slot that a cacheable response is stored under.
///
/// The shard repeats the path: this design shards by nothing else.
#[derive(Debug, PartialEq, Eq)]
pub struct CacheKey {
    /// The host that the response belongs to.
    pub authority: String,
    /// The path of the request.
    pub path: String,
    /// The shard selector.
    pub shard: String,
}

/// What a [`CacheKey`] is in contracts.
pub ghost struct CacheKeyView {
    pub authority: Seq<char>,
    pub path: Seq<char>,
    pub shard: Seq<char>,
}

impl View for CacheKey {
    type V = CacheKeyView;

    open spec fn view(&self) -> CacheKeyView {
        CacheKeyView { authority: self.authority@, path: self.path@, shard: self.shard@ }
    }
}

impl Clone for CacheKey {
    fn clone(&self) -> (copy: Self)
        ensures
            copy == *self,
    {
        CacheKey {
            authority: self.authority.clone(),
            path: self.path.clone(),
            shard: self.shard.clone(),
        }
    }
}

/// Why a response may not be cached.
#[derive(Clone, Copy, Debug, PartialEq, Eq, Structural)]
pub enum DisableReason {
    /// The method is neither GET nor HEAD.
    Method,
    /// The path is one of the configured exceptions.
    ExplicitException,
}

impl DisableReason {
    /// The reason's name.
    pub open spec fn name(self) -> Seq<char> {
        match self {
            DisableReason::Method => "method"@,
            DisableReason::ExplicitException => "explicit-exception"@,
        }
    }

    /// The reason's name, for logs and diagnostics.
    pub fn as_str(self) -> (name: &'static str)
        ensures
            name@ == self.name(),
    {
        match self {
            DisableReason::Method => "method",
            DisableReason::ExplicitException => "explicit-exception",
        }
    }
}

/// Whether the response to a request may be cached, and under which key.
#[derive(Debug, PartialEq, Eq)]
pub enum CacheDecision {
    /// The response may be cached under this key.
    Enabled(CacheKey),
    /// The response may not be cached, for this reason.
    Disabled(DisableReason),
}

/// What a [`CacheDecision`] is in contracts.
pub ghost enum CacheDecisionView {
    Enabled(CacheKeyView),
    Disabled(DisableReason),
}

impl View for CacheDecision {
    type V = CacheDecisionView;

    open spec fn view(&self) -> CacheDecisionView {
        match self {
            CacheDecision::Enabled(key) => CacheDecisionView::Enabled(key@),
            CacheDecision::Disabled(reason) => CacheDecisionView::Disabled(*reason),
        }
    }
}

/// Whether responses to a method are eligible for caching at all.
pub open spec fn cacheable_method(method: Seq<char>) -> bool {
    method == "GET"@ || method == "HEAD"@
}

/// The paths that a list names, as a set.
pub open spec fn path_set(list: Seq<String>) -> Set<Seq<char>> {
    Set::new(|path: Seq<char>| exists|i: int| 0 <= i < list.len() && (#[trigger] list[i])@ == path)
}

/// The rules by which cache keys are derived: the host that stands in where a
/// request names none, and the exact paths that are never cached.
#[derive(Debug, PartialEq, Eq)]
pub struct CacheKeyPolicy {
    /// The host that keys a request whose URI names none.
    pub default_host: String,
    /// The paths whose responses are never cached.
    pub never_cache: Vec<String>,
}

/// What a [`CacheKeyPolicy`] is in contracts.
pub ghost struct CacheKeyPolicyView {
    pub default_host: Seq<char>,
    pub never_cache: Set<Seq<char>>,
}

impl CacheKeyPolicyView {
    /// The key of a request: its host, or the default host where it has
    /// none, then its path, then its path again as the shard.
    pub open spec fn key(self, req: RequestView) -> CacheKeyView {
        CacheKeyView {
            authority: match req.host {
                Some(host) => host,
                None => self.default_host,
            },
            path: req.path,
            shard: req.path,
        }
    }

    /// The decision for a request. The method is tested first, then the
    /// exceptions; the first test that fails decides.
    pub open spec fn decide(self, req: RequestView) -> CacheDecisionView {
        if !cacheable_method(req.method) {
            CacheDecisionView::Disabled(DisableReason::Method)
        } else if self.never_cache.contains(req.path) {
            CacheDecisionView::Disabled(DisableReason::ExplicitException)
        } else {
            CacheDecisionView::Enabled(self.key(req))
        }
    }
}

impl View for CacheKeyPolicy {
    type V = CacheKeyPolicyView;

    open spec fn view(&self) -> CacheKeyPolicyView {
        CacheKeyPolicyView {
            default_host: self.default_host@,
            never_cache: path_set(self.never_cache@),
        }
    }
}

impl CacheKeyPolicy {
    /// Whether a path is one of the never-cache exceptions.
    pub fn is_exception(&self, path: &str) -> (listed: bool)
        ensures
            listed == self@.never_cache.contains(path@),
    {
        let mut i: usize = 0;
        while i < self.never_cache.len()
            invariant
                0 <= i <= self.never_cache.len(),
                forall|j: int| 0 <= j < i ==> (#[trigger] self.never_cache@[j])@ != path@,
            decreases self.never_cache.len() - i,
        {
            if same_text(self.never_cache[i].as_str(), path) {
                return true;
            }
            i = i + 1;
        }
        false
    }

    /// Decides whether the response to a request may be cached, and derives
    /// the key that it is cached under.
    pub fn decide(&self, req: &RequestDescriptor) -> (decision: CacheDecision)
        ensures
            decision@ == self@.decide(req@),
    {
        let method = req.method.as_str();
        if !same_text(method, "GET") && !same_text(method, "HEAD") {
            return CacheDecision::Disabled(DisableReason::Method);
        }
        if self.is_exception(req.path.as_str()) {
            return CacheDecision::Disabled(DisableReason::ExplicitException);
        }
        let authority = match &req.host {
            Some(host) => host.clone(),
            None => self.default_host.clone(),
        };
        CacheDecision::Enabled(
            CacheKey { authority, path: req.path.clone(), shard: req.path.clone() },
        )
    }
}

/// A request with GET or HEAD whose path is no exception is cached under its
/// host (or the default host), its path, and its path again; a request with
/// any other method is not cached, whatever its path.
pub proof fn lemma_decide_by_method(policy: CacheKeyPolicyView, req: RequestView)
    ensures
        cacheable_method(req.method) && !policy.never_cache.contains(req.path) ==> policy.decide(
            req,
        ) == CacheDecisionView::Enabled(
            CacheKeyView {
                authority: if req.host is Some {
                    req.host->0
                } else {
                    policy.default_host
                },
                path: req.path,
                shard: req.path,
            },
        ),
        !cacheable_method(req.method) ==> policy.decide(req) == CacheDecisionView::Disabled(
            DisableReason::Method,
        ),
{
}

/// A listed exception is never cached, even with GET or HEAD.
pub proof fn lemma_exception_wins(policy: CacheKeyPolicyView, req: RequestView)
    requires
        cacheable_method(req.method),
        policy.never_cache.contains(req.path),
    ensures
        policy.decide(req) == CacheDecisionView::Disabled(DisableReason::ExplicitException),
{
}

/// The decision is a function of the method, the path and the host alone:
/// two requests that agree in these get the same decision and the same key,
/// whatever else they carry.
pub proof fn lemma_decide_reads_method_path_host(
    policy: CacheKeyPolicyView,
    a: RequestView,
    b: RequestView,
)
    requires
        a.method == b.method,
        a.path == b.path,
        a.host == b.host,
    ensures
        policy.decide(a) == policy.decide(b),
{
}

} // verus!
