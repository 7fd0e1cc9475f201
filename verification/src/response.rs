use crate::error::ConfigError;
use crate::lookup::{first_index, lemma_first_index_is, lemma_first_index_none};
use crate::text::{decimal, push_decimal, starts_with};
use vstd::prelude::*;
use vstd::string::*;

verus! {

/// The name of the header that carries the cache lifetime.
pub const CACHE_CONTROL: &'static str = "Cache-Control";

/// The name of the diagnostic header that carries the client's address.
pub const CLIENT_IP_HEADER: &'static str = "MYCX";

/// One class of paths: those that begin with `prefix`, cached for `max_age`
/// seconds.
#[derive(Debug, PartialEq, Eq)]
pub struct CacheClass {
    /// What the paths of the class begin with.
    pub prefix: String,
    /// The lifetime of their responses, in seconds.
    pub max_age: u64,
}

/// What a [`CacheClass`] is in contracts.
pub ghost struct CacheClassView {
    pub prefix: Seq<char>,
    pub max_age: u64,
}

impl View for CacheClass {
    type V = CacheClassView;

    open spec fn view(&self) -> CacheClassView {
        CacheClassView { prefix: self.prefix@, max_age: self.max_age }
    }
}

/// The views of a list of classes.
pub open spec fn class_views(list: Seq<CacheClass>) -> Seq<CacheClassView> {
    list.map_values(|c: CacheClass| c@)
}

/// A header to insert into an outbound response, in place of any header of
/// the same name that the response has.
#[derive(Debug, PartialEq, Eq)]
pub struct HeaderMutation {
    /// The header's name.
    pub name: String,
    /// The header's value.
    pub value: String,
}

/// What a [`HeaderMutation`] is in contracts.
pub ghost struct HeaderMutationView {
    pub name: Seq<char>,
    pub value: Seq<char>,
}

impl View for HeaderMutation {
    type V = HeaderMutationView;

    open spec fn view(&self) -> HeaderMutationView {
        HeaderMutationView { name: self.name@, value: self.value@ }
    }
}

impl DeepView for HeaderMutation {
    type V = HeaderMutationView;

    open spec fn deep_view(&self) -> HeaderMutationView {
        self@
    }
}

/// The views of a list of mutations.
pub open spec fn mutation_views(list: Seq<HeaderMutation>) -> Seq<HeaderMutationView> {
    list.map_values(|m: HeaderMutation| m@)
}

/// Whether no class's prefix is a prefix of another class's prefix, so that
/// no path belongs to two classes.
pub open spec fn disjoint_prefixes(classes: Seq<CacheClassView>) -> bool {
    forall|i: int, j: int|
        0 <= i < classes.len() && 0 <= j < classes.len() && i != j ==> !(
        #[trigger] classes[i]).prefix.is_prefix_of((#[trigger] classes[j]).prefix)
}

/// The class that a path belongs to, if any.
pub open spec fn class_of(classes: Seq<CacheClassView>, path: Seq<char>) -> Option<int> {
    first_index(classes, |c: CacheClassView| c.prefix.is_prefix_of(path))
}

/// The cache-control header of a lifetime in seconds.
pub open spec fn max_age_header(max_age: u64) -> HeaderMutationView {
    HeaderMutationView { name: CACHE_CONTROL@, value: "max-age="@ + decimal(max_age as nat) }
}

/// The cache-control header that the policy sets for a path: that of the
/// path's class, and none for a path of no class.
pub open spec fn cache_control_for(classes: Seq<CacheClassView>, path: Seq<char>) -> Option<
    HeaderMutationView,
> {
    match class_of(classes, path) {
        Some(i) => Some(max_age_header(classes[i].max_age)),
        None => None,
    }
}

/// Whether a character may stand in a header value: a tab, or anything from
/// the space on but the delete character.
pub open spec fn is_header_value_char(c: char) -> bool {
    c == '\t' || (c as u32 >= 32 && c as u32 != 127)
}

/// Whether a text can be sent as a header value.
pub open spec fn is_header_value(text: Seq<char>) -> bool {
    forall|i: int| 0 <= i < text.len() ==> is_header_value_char(#[trigger] text[i])
}

/// The diagnostic header for a client address: none where the address is
/// unknown or cannot be sent as a header value.
pub open spec fn client_ip_header_for(client_ip: Option<Seq<char>>) -> Option<HeaderMutationView> {
    match client_ip {
        Some(ip) => if is_header_value(ip) {
            Some(HeaderMutationView { name: CLIENT_IP_HEADER@, value: ip })
        } else {
            None
        },
        None => None,
    }
}

/// The headers that the policy sets on a response: the cache-control header
/// first, where the path has a class, then the diagnostic header, where the
/// client's address can be sent. Neither depends on the other.
pub open spec fn mutations_for(
    classes: Seq<CacheClassView>,
    path: Seq<char>,
    client_ip: Option<Seq<char>>,
) -> Seq<HeaderMutationView> {
    let first = match cache_control_for(classes, path) {
        Some(m) => seq![m],
        None => seq![],
    };
    let second = match client_ip_header_for(client_ip) {
        Some(m) => seq![m],
        None => seq![],
    };
    first + second
}

/// Asks `http::HeaderValue::from_str` whether it accepts a text.
///
/// Trusted: that it accepts exactly the texts whose bytes are all a tab, or
/// at least 32 and not 127. A character beyond ASCII is encoded in bytes of
/// 128 and more, so this is a condition on the characters.
#[verifier::external_body]
fn header_value_accepts(text: &str) -> (accepted: bool)
    ensures
        accepted == is_header_value(text@),
{
    http::HeaderValue::from_str(text).is_ok()
}

/// The headers that are set on outbound responses: a cache lifetime by the
/// class of the request's path, and the client's address for diagnostics.
#[derive(Debug)]
pub struct ResponseHeaderPolicy {
    classes: Vec<CacheClass>,
}

impl View for ResponseHeaderPolicy {
    type V = Seq<CacheClassView>;

    closed spec fn view(&self) -> Seq<CacheClassView> {
        class_views(self.classes@)
    }
}

impl ResponseHeaderPolicy {
    #[verifier::type_invariant]
    spec fn well_formed(self) -> bool {
        disjoint_prefixes(class_views(self.classes@))
    }

    /// Takes the configured classes. Two classes of which one's prefix is a
    /// prefix of the other's are a configuration error.
    pub fn new(classes: Vec<CacheClass>) -> (r: Result<ResponseHeaderPolicy, ConfigError>)
        ensures
            match r {
                Ok(policy) => policy@ == class_views(classes@) && disjoint_prefixes(policy@),
                Err(e) => e == ConfigError::OverlappingPrefixes && !disjoint_prefixes(
                    class_views(classes@),
                ),
            },
    {
        let ghost views = class_views(classes@);
        let mut j: usize = 0;
        while j < classes.len()
            invariant
                0 <= j <= classes.len(),
                views == class_views(classes@),
                forall|a: int, b: int|
                    0 <= a < j && 0 <= b < j && a != b ==> !(#[trigger] views[a]).prefix.is_prefix_of(
                        (#[trigger] views[b]).prefix,
                    ),
            decreases classes.len() - j,
        {
            let mut i: usize = 0;
            while i < j
                invariant
                    0 <= i <= j < classes.len(),
                    views == class_views(classes@),
                    forall|a: int|
                        0 <= a < i ==> !(#[trigger] views[a]).prefix.is_prefix_of(
                            views[j as int].prefix,
                        ) && !views[j as int].prefix.is_prefix_of(views[a].prefix),
                decreases j - i,
            {
                let earlier = classes[i].prefix.as_str();
                let later = classes[j].prefix.as_str();
                if starts_with(later, earlier) || starts_with(earlier, later) {
                    assert(views[i as int].prefix == earlier@);
                    assert(views[j as int].prefix == later@);
                    return Err(ConfigError::OverlappingPrefixes);
                }
                i = i + 1;
            }
            j = j + 1;
        }
        Ok(ResponseHeaderPolicy { classes })
    }

    /// The number of classes.
    pub fn len(&self) -> (n: usize)
        ensures
            n == self@.len(),
    {
        self.classes.len()
    }

    /// The cache-control header for the response to a request for `path`.
    pub fn cache_control(&self, path: &str) -> (header: Option<HeaderMutation>)
        ensures
            header.deep_view() == cache_control_for(self@, path@),
            disjoint_prefixes(self@),
    {
        proof {
            use_type_invariant(self);
        }
        let ghost hit = |c: CacheClassView| c.prefix.is_prefix_of(path@);
        let mut i: usize = 0;
        while i < self.classes.len()
            invariant
                0 <= i <= self.classes.len(),
                disjoint_prefixes(self@),
                hit == |c: CacheClassView| c.prefix.is_prefix_of(path@),
                forall|j: int| 0 <= j < i ==> !hit(#[trigger] self@[j]),
            decreases self.classes.len() - i,
        {
            if starts_with(path, self.classes[i].prefix.as_str()) {
                proof {
                    lemma_first_index_is(self@, hit, i as int);
                }
                let mut value = String::from_str("max-age=");
                push_decimal(&mut value, self.classes[i].max_age);
                return Some(HeaderMutation { name: String::from_str(CACHE_CONTROL), value });
            }
            i = i + 1;
        }
        proof {
            lemma_first_index_none(self@, hit);
        }
        None
    }

    /// The diagnostic header for the client's address, as the connection
    /// reports it.
    pub fn client_ip_header(client_ip: Option<&str>) -> (header: Option<HeaderMutation>)
        ensures
            header.deep_view() == client_ip_header_for(client_ip.deep_view()),
    {
        match client_ip {
            Some(ip) => {
                if header_value_accepts(ip) {
                    Some(
                        HeaderMutation {
                            name: String::from_str(CLIENT_IP_HEADER),
                            value: String::from_str(ip),
                        },
                    )
                } else {
                    None
                }
            },
            None => None,
        }
    }

    /// All headers to set on the response to a request for `path` from the
    /// client at `client_ip`.
    pub fn apply(&self, path: &str, client_ip: Option<&str>) -> (headers: Vec<HeaderMutation>)
        ensures
            mutation_views(headers@) == mutations_for(self@, path@, client_ip.deep_view()),
    {
        let mut headers: Vec<HeaderMutation> = Vec::new();
        match self.cache_control(path) {
            Some(m) => {
                headers.push(m);
            },
            None => {},
        }
        match Self::client_ip_header(client_ip) {
            Some(m) => {
                headers.push(m);
            },
            None => {},
        }
        headers
    }
}

/// With disjoint prefixes a path belongs to at most one class: the class
/// whose prefix it begins with is its class, and it begins with the prefix
/// of no other.
pub proof fn lemma_one_class(classes: Seq<CacheClassView>, path: Seq<char>, i: int)
    requires
        disjoint_prefixes(classes),
        0 <= i < classes.len(),
        classes[i].prefix.is_prefix_of(path),
    ensures
        class_of(classes, path) == Some(i),
        cache_control_for(classes, path) == Some(max_age_header(classes[i].max_age)),
        forall|j: int|
            0 <= j < classes.len() && j != i ==> !(#[trigger] classes[j]).prefix.is_prefix_of(path),
{
    assert forall|j: int| 0 <= j < classes.len() && j != i implies !(
    #[trigger] classes[j]).prefix.is_prefix_of(path) by {
        let a = classes[i].prefix;
        let b = classes[j].prefix;
        if b.is_prefix_of(path) {
            // Of two prefixes of one path, the shorter is a prefix of the longer.
            assert(a.is_prefix_of(b) || b.is_prefix_of(a));
        }
    }
    lemma_first_index_is(classes, |c: CacheClassView| c.prefix.is_prefix_of(path), i);
}

/// The policy sets at most one cache-control header on a response: that of
/// the path's class, where the path has one. The diagnostic header is no
/// cache-control header.
pub proof fn lemma_cache_control_once(
    classes: Seq<CacheClassView>,
    path: Seq<char>,
    client_ip: Option<Seq<char>>,
)
    ensures
        mutations_for(classes, path, client_ip).filter(
            |m: HeaderMutationView| m.name == CACHE_CONTROL@,
        ) == match cache_control_for(classes, path) {
            Some(m) => seq![m],
            None => seq![],
        },
{
    reveal_strlit("Cache-Control");
    reveal_strlit("MYCX");
    reveal_with_fuel(Seq::filter, 2);
    let named = |m: HeaderMutationView| m.name == CACHE_CONTROL@;
    let first = match cache_control_for(classes, path) {
        Some(m) => seq![m],
        None => seq![],
    };
    let second = match client_ip_header_for(client_ip) {
        Some(m) => seq![m],
        None => seq![],
    };
    assert(CLIENT_IP_HEADER@.len() != CACHE_CONTROL@.len());
    assert(first.filter(named) =~= first);
    assert(second.filter(named) =~= Seq::<HeaderMutationView>::empty());
    Seq::filter_distributes_over_add(first, second, named);
}

/// A path that begins with no class's prefix gets no cache-control header
/// from the policy.
pub proof fn lemma_no_class_no_header(classes: Seq<CacheClassView>, path: Seq<char>)
    requires
        forall|j: int| 0 <= j < classes.len() ==> !(#[trigger] classes[j]).prefix.is_prefix_of(path),
    ensures
        cache_control_for(classes, path) is None,
{
    lemma_first_index_none(classes, |c: CacheClassView| c.prefix.is_prefix_of(path));
}

} // verus!
