use crate::backend::{backend_views, of_class, Backend, BackendPool, BackendView, TrafficClass};
use crate::cache::{
    cacheable_method, path_set, CacheDecision, CacheDecisionView, CacheKeyPolicy,
    CacheKeyPolicyView, CacheKeyView,
};
use crate::error::ConfigError;
use crate::lookup::first_index;
use crate::request::{RequestDescriptor, RequestView};
use crate::response::{
    cache_control_for, class_views, client_ip_header_for, disjoint_prefixes, CacheClass,
    HeaderMutation, ResponseHeaderPolicy,
};
use crate::rewrite::{
    distinct_matches, is_bare_path, is_plain_path, resolve, rewrite, rule_views, RewriteOutcome,
    RewriteRule, RewriteRuleView, RewriteRules,
};
use vstd::prelude::*;

verus! {

/// Where a request is sent: the backend, whether the connection to it is
/// encrypted, and the host name that is presented to it, for the TLS server
/// name and for the Host header alike.
#[derive(Debug, PartialEq, Eq)]
pub struct UpstreamPeer {
    /// The server to connect to.
    pub backend: Backend,
    /// Whether to connect over TLS.
    pub use_tls: bool,
    /// The host name to present.
    pub sni: String,
}

/// What an [`UpstreamPeer`] is in contracts.
pub ghost struct UpstreamPeerView {
    pub backend: BackendView,
    pub use_tls: bool,
    pub sni: Seq<char>,
}

impl View for UpstreamPeer {
    type V = UpstreamPeerView;

    open spec fn view(&self) -> UpstreamPeerView {
        UpstreamPeerView { backend: self.backend@, use_tls: self.use_tls, sni: self.sni@ }
    }
}

/// What the request stage decided.
#[derive(Debug, PartialEq, Eq)]
pub struct RequestVerdict {
    /// What the rewrite stage did to the request.
    pub rewrite: RewriteOutcome,
    /// Whether the response may be cached, and under which key.
    pub cache: CacheDecision,
    /// Whether the request was answered in this stage. It never is: rewriting
    /// and cache keying prepare the request and do not end it.
    pub response_sent: bool,
}

/// The request pipeline of an edge node: it picks the backend of a request,
/// rewrites selected paths, decides on caching and tags responses.
#[derive(Debug)]
pub struct CdnProxy {
    /// The backends of both traffic classes.
    pub pool: BackendPool,
    /// The host name that every backend is addressed by.
    pub canonical_host: String,
    /// The path rewrites.
    pub rewrites: RewriteRules,
    /// The rules of cache keying.
    pub cache_policy: CacheKeyPolicy,
    /// The rules of response tagging.
    pub headers: ResponseHeaderPolicy,
}

impl CdnProxy {
    /// Builds the pipeline from its configuration: the one host name that
    /// all backends are addressed by, and that keys requests without a host;
    /// the backends; the paths that are never cached; the rewrite rules; and
    /// the cache classes.
    ///
    /// The rewrite rules are validated first, then the cache classes.
    pub fn new(
        canonical_host: String,
        backends: Vec<Backend>,
        never_cache: Vec<String>,
        rewrite_rules: Vec<RewriteRule>,
        classes: Vec<CacheClass>,
    ) -> (r: Result<CdnProxy, ConfigError>)
        ensures
            match r {
                Ok(proxy) => {
                    &&& distinct_matches(rule_views(rewrite_rules@))
                    &&& disjoint_prefixes(class_views(classes@))
                    &&& proxy.canonical_host@ == canonical_host@
                    &&& proxy.cache_policy@ == (CacheKeyPolicyView {
                        default_host: canonical_host@,
                        never_cache: path_set(never_cache@),
                    })
                    &&& proxy.rewrites@ == rule_views(rewrite_rules@)
                    &&& proxy.headers@ == class_views(classes@)
                    &&& forall|class: TrafficClass| #[trigger]
                        proxy.pool.members(class) == of_class(backend_views(backends@), class)
                },
                Err(e) => if !distinct_matches(rule_views(rewrite_rules@)) {
                    e == ConfigError::DuplicateRewriteMatch
                } else {
                    e == ConfigError::OverlappingPrefixes && !disjoint_prefixes(
                        class_views(classes@),
                    )
                },
            },
    {
        let rewrites = match RewriteRules::new(rewrite_rules) {
            Ok(rules) => rules,
            Err(e) => {
                return Err(e);
            },
        };
        let headers = match ResponseHeaderPolicy::new(classes) {
            Ok(policy) => policy,
            Err(e) => {
                return Err(e);
            },
        };
        let default_host = canonical_host.clone();
        let pool = BackendPool::new(backends);
        Ok(
            CdnProxy {
                pool,
                canonical_host,
                rewrites,
                cache_policy: CacheKeyPolicy { default_host, never_cache },
                headers,
            },
        )
    }

    /// Picks the backend for a request.
    ///
    /// The traffic class follows from the forwarded-protocol indicator alone,
    /// and the connection is encrypted exactly for the TLS-origin class. The
    /// backend is one of that class; which one is decided by the class's
    /// cursor (see [`BackendPool::select`]). Fails only when the class has no
    /// backend.
    pub fn upstream_peer(&self, req: &RequestDescriptor) -> (r: Result<UpstreamPeer, ConfigError>)
        ensures
            ({
                let class = TrafficClass::of_forwarded_proto(req@.forwarded_proto);
                match r {
                    Ok(peer) => {
                        &&& self.pool.members(class).contains(peer@.backend)
                        &&& peer@.backend.class == class
                        &&& peer@.use_tls == (class == TrafficClass::TlsOrigin)
                        &&& peer@.sni == self.canonical_host@
                    },
                    Err(e) => self.pool.members(class).len() == 0 && e == ConfigError::EmptyPool(
                        class,
                    ),
                }
            }),
    {
        let proto = match &req.forwarded_proto {
            Some(p) => Some(p.as_str()),
            None => None,
        };
        let class = TrafficClass::from_forwarded_proto(proto);
        match self.pool.select(class) {
            Ok(backend) => Ok(
                UpstreamPeer {
                    backend,
                    use_tls: class.uses_tls(),
                    sni: self.canonical_host.clone(),
                },
            ),
            Err(e) => Err(e),
        }
    }

    /// The request stage: rewrites the request in place, then decides on
    /// caching for the request as rewritten. It never answers the request
    /// itself.
    pub fn request_filter(&self, req: &mut RequestDescriptor) -> (verdict: RequestVerdict)
        ensures
            (final(req)@, verdict.rewrite) == rewrite(self.rewrites@, old(req)@),
            verdict.cache@ == self.cache_policy@.decide(final(req)@),
            !verdict.response_sent,
    {
        let outcome = self.rewrites.apply(req);
        let cache = self.cache_policy.decide(req);
        RequestVerdict { rewrite: outcome, cache, response_sent: false }
    }

    /// The stage that sees the upstream's response before it is stored or
    /// passed on: gives the cache-control header for the request's path.
    pub fn upstream_response_filter(&self, req: &RequestDescriptor) -> (header: Option<
        HeaderMutation,
    >)
        ensures
            header.deep_view() == cache_control_for(self.headers@, req@.path),
    {
        self.headers.cache_control(req.path.as_str())
    }

    /// The stage that sees every response on its way to the client: gives
    /// the diagnostic header for the client's address.
    pub fn response_filter(&self, client_ip: Option<&str>) -> (header: Option<HeaderMutation>)
        ensures
            header.deep_view() == client_ip_header_for(client_ip.deep_view()),
    {
        ResponseHeaderPolicy::client_ip_header(client_ip)
    }
}

/// A request is sent to the TLS origins exactly when its forwarded-protocol
/// indicator is `https`; with any other indicator, or none, it is sent to the
/// plain origins.
pub proof fn lemma_class_by_forwarded_proto(proto: Option<Seq<char>>)
    ensures
        proto == Some("https"@) ==> TrafficClass::of_forwarded_proto(proto)
            == TrafficClass::TlsOrigin,
        proto != Some("https"@) ==> TrafficClass::of_forwarded_proto(proto) == TrafficClass::Plain,
{
}

/// The cache key reflects the rewritten path, not the requested one: where a
/// rule fires and its target resolves, the request goes on with the target's
/// path and is otherwise as it came, and a key that is derived for it is made
/// of the request's host (or the default host) and the target's path.
pub proof fn lemma_key_follows_rewrite(
    rules: Seq<RewriteRuleView>,
    policy: CacheKeyPolicyView,
    req: RequestView,
    i: int,
    path: Seq<char>,
)
    requires
        first_index(rules, |r: RewriteRuleView| r.from == req.path) == Some(i),
        resolve(rules[i].to) == Some(path),
    ensures
        rewrite(rules, req).0 == (RequestView { path, ..req }),
        policy.decide(rewrite(rules, req).0) matches CacheDecisionView::Enabled(key) ==> key == (
        CacheKeyView {
            authority: if req.host is Some {
                req.host->0
            } else {
                policy.default_host
            },
            path: path,
            shard: path,
        }),
        cacheable_method(req.method) && !policy.never_cache.contains(path) ==> policy.decide(
            rewrite(rules, req).0,
        ) is Enabled,
{
}

/// A rule whose target is a bare path that the URI parser accepts rewrites
/// the request to exactly that path, so that a key derived for it is made of
/// the request's host (or the default host) and the target.
pub proof fn lemma_bare_target_is_the_key(
    rules: Seq<RewriteRuleView>,
    policy: CacheKeyPolicyView,
    req: RequestView,
    i: int,
)
    requires
        first_index(rules, |r: RewriteRuleView| r.from == req.path) == Some(i),
        is_bare_path(rules[i].to),
        resolve(rules[i].to) is Some,
    ensures
        rewrite(rules, req) == (
            RequestView { path: rules[i].to, ..req },
            RewriteOutcome::Rewritten { rule: i as usize },
        ),
        policy.decide(rewrite(rules, req).0) matches CacheDecisionView::Enabled(key) ==> key == (
        CacheKeyView {
            authority: if req.host is Some {
                req.host->0
            } else {
                policy.default_host
            },
            path: rules[i].to,
            shard: rules[i].to,
        }),
{
}

/// A rule whose target is a plain path always fires for its match path: the
/// request goes on with exactly the target as its path, and a cacheable
/// request whose new path is no exception is keyed by its own host (or the
/// default host) and the target, never by the path that it came with.
pub proof fn lemma_plain_target_rewrites(
    rules: Seq<RewriteRuleView>,
    policy: CacheKeyPolicyView,
    req: RequestView,
    i: int,
)
    requires
        first_index(rules, |r: RewriteRuleView| r.from == req.path) == Some(i),
        is_plain_path(rules[i].to),
    ensures
        rewrite(rules, req) == (
            RequestView { path: rules[i].to, ..req },
            RewriteOutcome::Rewritten { rule: i as usize },
        ),
        cacheable_method(req.method) && !policy.never_cache.contains(rules[i].to)
            ==> policy.decide(rewrite(rules, req).0) == CacheDecisionView::Enabled(
            CacheKeyView {
                authority: if req.host is Some {
                    req.host->0
                } else {
                    policy.default_host
                },
                path: rules[i].to,
                shard: rules[i].to,
            },
        ),
{
}

} // verus!
