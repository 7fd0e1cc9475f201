use cdn_edge::{CacheDecision, CacheKey, CacheKeyPolicy, DisableReason, RequestDescriptor};

fn policy() -> CacheKeyPolicy {
    CacheKeyPolicy {
        default_host: "www.yingcai.com".to_string(),
        never_cache: vec!["/noc/nodelete.gif".to_string()],
    }
}

fn request(method: &str, path: &str, host: Option<&str>) -> RequestDescriptor {
    RequestDescriptor {
        method: method.to_string(),
        path: path.to_string(),
        host: host.map(|h| h.to_string()),
        forwarded_proto: None,
    }
}

fn key(authority: &str, path: &str) -> CacheDecision {
    CacheDecision::Enabled(CacheKey {
        authority: authority.to_string(),
        path: path.to_string(),
        shard: path.to_string(),
    })
}

#[test]
fn get_is_cached_under_the_default_host() {
    assert_eq!(
        policy().decide(&request("GET", "/img/logo.png", None)),
        key("www.yingcai.com", "/img/logo.png")
    );
}

#[test]
fn head_is_cached_like_get() {
    assert_eq!(
        policy().decide(&request("HEAD", "/index.html", None)),
        key("www.yingcai.com", "/index.html")
    );
}

#[test]
fn request_host_takes_precedence_over_the_default() {
    assert_eq!(
        policy().decide(&request("GET", "/index.html", Some("cdn.example.org"))),
        key("cdn.example.org", "/index.html")
    );
}

#[test]
fn shard_repeats_the_path() {
    match policy().decide(&request("GET", "/a/b", None)) {
        CacheDecision::Enabled(k) => {
            assert_eq!(k.path, "/a/b");
            assert_eq!(k.shard, k.path);
        }
        other => panic!("expected a key, got {:?}", other),
    }
}

#[test]
fn other_methods_are_never_cached() {
    for method in ["POST", "PUT", "DELETE", "PATCH", "OPTIONS", "CONNECT", "TRACE", "PURGE", ""] {
        assert_eq!(
            policy().decide(&request(method, "/index.html", None)),
            CacheDecision::Disabled(DisableReason::Method)
        );
    }
}

#[test]
fn method_names_are_case_sensitive() {
    assert_eq!(
        policy().decide(&request("get", "/index.html", None)),
        CacheDecision::Disabled(DisableReason::Method)
    );
    assert_eq!(
        policy().decide(&request("Head", "/index.html", None)),
        CacheDecision::Disabled(DisableReason::Method)
    );
}

#[test]
fn exception_path_is_not_cached() {
    assert_eq!(
        policy().decide(&request("GET", "/noc/nodelete.gif", None)),
        CacheDecision::Disabled(DisableReason::ExplicitException)
    );
    assert_eq!(
        policy().decide(&request("HEAD", "/noc/nodelete.gif", Some("cdn.example.org"))),
        CacheDecision::Disabled(DisableReason::ExplicitException)
    );
}

#[test]
fn method_is_tested_before_the_exceptions() {
    assert_eq!(
        policy().decide(&request("POST", "/noc/nodelete.gif", None)),
        CacheDecision::Disabled(DisableReason::Method)
    );
}

#[test]
fn exceptions_match_the_whole_path_only() {
    let p = policy();
    assert!(p.is_exception("/noc/nodelete.gif"));
    assert!(!p.is_exception("/noc/nodelete.gif/"));
    assert!(!p.is_exception("/noc/nodelete"));
    assert!(!p.is_exception("/NOC/nodelete.gif"));
    assert!(!p.is_exception(""));
    assert_eq!(
        p.decide(&request("GET", "/noc/nodelete.gif2", None)),
        key("www.yingcai.com", "/noc/nodelete.gif2")
    );
}

#[test]
fn policy_without_exceptions_caches_every_get() {
    let p = CacheKeyPolicy { default_host: "h".to_string(), never_cache: Vec::new() };
    assert!(!p.is_exception("/noc/nodelete.gif"));
    assert_eq!(p.decide(&request("GET", "/noc/nodelete.gif", None)), key("h", "/noc/nodelete.gif"));
}

#[test]
fn decide_gives_the_same_answer_twice() {
    let p = policy();
    let req = request("GET", "/css/site.css", Some("a.example"));
    let first = p.decide(&req);
    let second = p.decide(&req);
    assert_eq!(first, second);
    assert_eq!(first, key("a.example", "/css/site.css"));
}

#[test]
fn decision_does_not_read_the_forwarded_protocol() {
    let p = policy();
    let mut plain = request("GET", "/js/app.js", None);
    let mut secure = request("GET", "/js/app.js", None);
    plain.forwarded_proto = Some("http".to_string());
    secure.forwarded_proto = Some("https".to_string());
    assert_eq!(p.decide(&plain), p.decide(&secure));
    assert_eq!(p.decide(&secure), key("www.yingcai.com", "/js/app.js"));
}

#[test]
fn disable_reasons_have_names() {
    assert_eq!(DisableReason::Method.as_str(), "method");
    assert_eq!(DisableReason::ExplicitException.as_str(), "explicit-exception");
}

#[test]
fn cache_key_clone_keeps_every_field() {
    let k = CacheKey { authority: "a".to_string(), path: "/p".to_string(), shard: "/p".to_string() };
    assert_eq!(k.clone(), k);
}
