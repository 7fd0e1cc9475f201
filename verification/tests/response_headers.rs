use cdn_edge::response::{CACHE_CONTROL, CLIENT_IP_HEADER};
use cdn_edge::{CacheClass, ConfigError, HeaderMutation, ResponseHeaderPolicy};

fn class(prefix: &str, max_age: u64) -> CacheClass {
    CacheClass { prefix: prefix.to_string(), max_age }
}

fn policy() -> ResponseHeaderPolicy {
    ResponseHeaderPolicy::new(vec![class("/img/", 3600), class("/css/", 21600), class("/js/", 2592000)])
        .unwrap()
}

fn header(name: &str, value: &str) -> HeaderMutation {
    HeaderMutation { name: name.to_string(), value: value.to_string() }
}

#[test]
fn header_names_are_fixed() {
    assert_eq!(CACHE_CONTROL, "Cache-Control");
    assert_eq!(CLIENT_IP_HEADER, "MYCX");
}

#[test]
fn images_get_the_short_lifetime() {
    assert_eq!(
        policy().cache_control("/img/logo.png"),
        Some(header("Cache-Control", "max-age=3600"))
    );
}

#[test]
fn stylesheets_get_the_medium_lifetime() {
    assert_eq!(
        policy().cache_control("/css/site.css"),
        Some(header("Cache-Control", "max-age=21600"))
    );
}

#[test]
fn scripts_get_the_long_lifetime() {
    assert_eq!(
        policy().cache_control("/js/app.js"),
        Some(header("Cache-Control", "max-age=2592000"))
    );
}

#[test]
fn prefix_alone_belongs_to_the_class() {
    assert_eq!(policy().cache_control("/img/"), Some(header("Cache-Control", "max-age=3600")));
}

#[test]
fn paths_of_no_class_get_no_cache_control() {
    let p = policy();
    for path in ["/", "", "/index.html", "/img", "/IMG/logo.png", "/a/img/logo.png", "/jsx/a.js", "img/a"] {
        assert_eq!(p.cache_control(path), None);
    }
}

#[test]
fn policy_without_classes_sets_no_cache_control() {
    let p = ResponseHeaderPolicy::new(Vec::new()).unwrap();
    assert_eq!(p.len(), 0);
    assert_eq!(p.cache_control("/img/logo.png"), None);
}

#[test]
fn lifetimes_are_written_in_decimal() {
    let p = ResponseHeaderPolicy::new(vec![
        class("/zero/", 0),
        class("/nine/", 9),
        class("/ten/", 10),
        class("/big/", u64::MAX),
    ])
    .unwrap();
    assert_eq!(p.cache_control("/zero/x").unwrap().value, "max-age=0");
    assert_eq!(p.cache_control("/nine/x").unwrap().value, "max-age=9");
    assert_eq!(p.cache_control("/ten/x").unwrap().value, "max-age=10");
    assert_eq!(p.cache_control("/big/x").unwrap().value, "max-age=18446744073709551615");
}

#[test]
fn overlapping_prefixes_are_a_configuration_error() {
    let r = ResponseHeaderPolicy::new(vec![class("/img/", 1), class("/img/thumbs/", 2)]);
    assert_eq!(r.err(), Some(ConfigError::OverlappingPrefixes));
    let r = ResponseHeaderPolicy::new(vec![class("/img/thumbs/", 2), class("/css/", 3), class("/img/", 1)]);
    assert_eq!(r.err(), Some(ConfigError::OverlappingPrefixes));
    let r = ResponseHeaderPolicy::new(vec![class("/img/", 1), class("/img/", 1)]);
    assert_eq!(r.err(), Some(ConfigError::OverlappingPrefixes));
    let r = ResponseHeaderPolicy::new(vec![class("", 1), class("/img/", 2)]);
    assert_eq!(r.err(), Some(ConfigError::OverlappingPrefixes));
}

#[test]
fn prefixes_that_share_a_beginning_may_be_disjoint() {
    let p = ResponseHeaderPolicy::new(vec![class("/img/a/", 1), class("/img/b/", 2)]).unwrap();
    assert_eq!(p.len(), 2);
    assert_eq!(p.cache_control("/img/a/x").unwrap().value, "max-age=1");
    assert_eq!(p.cache_control("/img/b/x").unwrap().value, "max-age=2");
    assert_eq!(p.cache_control("/img/c/x"), None);
}

#[test]
fn client_address_becomes_the_diagnostic_header() {
    assert_eq!(
        ResponseHeaderPolicy::client_ip_header(Some("203.0.113.7")),
        Some(header("MYCX", "203.0.113.7"))
    );
    assert_eq!(
        ResponseHeaderPolicy::client_ip_header(Some("2001:db8::1")),
        Some(header("MYCX", "2001:db8::1"))
    );
}

#[test]
fn unknown_client_address_gives_no_header() {
    assert_eq!(ResponseHeaderPolicy::client_ip_header(None), None);
}

#[test]
fn address_that_is_no_header_value_is_skipped() {
    for bad in ["203.0.113.7\r\nSet-Cookie: a=b", "10.0.0.1\n", "\u{0}", "a\u{7f}b", "\u{1f}"] {
        assert_eq!(ResponseHeaderPolicy::client_ip_header(Some(bad)), None);
    }
}

#[test]
fn header_value_rule_is_that_of_the_http_crate() {
    for good in ["", " ", "a\tb", "~", "caf\u{e9}", "\u{80}", "\u{10ffff}"] {
        assert_eq!(
            ResponseHeaderPolicy::client_ip_header(Some(good)),
            Some(header("MYCX", good))
        );
        assert!(http::HeaderValue::from_str(good).is_ok());
    }
    for code in 0u32..=0x200 {
        let c = char::from_u32(code).unwrap();
        let text = format!("x{}y", c);
        assert_eq!(
            ResponseHeaderPolicy::client_ip_header(Some(&text)).is_some(),
            c == '\t' || (code >= 32 && code != 127)
        );
        assert_eq!(
            ResponseHeaderPolicy::client_ip_header(Some(&text)).is_some(),
            http::HeaderValue::from_str(&text).is_ok()
        );
    }
}

#[test]
fn both_headers_are_set_cache_control_first() {
    assert_eq!(
        policy().apply("/css/site.css", Some("203.0.113.7")),
        vec![header("Cache-Control", "max-age=21600"), header("MYCX", "203.0.113.7")]
    );
}

#[test]
fn each_pass_works_without_the_other() {
    let p = policy();
    assert_eq!(p.apply("/index.html", Some("203.0.113.7")), vec![header("MYCX", "203.0.113.7")]);
    assert_eq!(p.apply("/img/a.png", None), vec![header("Cache-Control", "max-age=3600")]);
    assert_eq!(p.apply("/img/a.png", Some("bad\nvalue")), vec![header("Cache-Control", "max-age=3600")]);
    assert_eq!(p.apply("/index.html", None), Vec::new());
}

#[test]
fn at_most_one_cache_control_is_set() {
    let p = policy();
    for path in ["/img/a", "/css/a", "/js/a", "/other", "/img/css/js/"] {
        let n = p.apply(path, Some("198.51.100.1")).iter().filter(|m| m.name == "Cache-Control").count();
        assert!(n <= 1);
    }
    assert_eq!(p.apply("/img/css/js/", None), vec![header("Cache-Control", "max-age=3600")]);
}
