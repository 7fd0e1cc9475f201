use crate::error::ConfigError;
use crate::lookup::{first_index, lemma_first_index_is, lemma_first_index_none};
use crate::request::{RequestDescriptor, RequestView};
use std::str::FromStr;
use vstd::prelude::*;

verus! {

/// The path of the URI that `http::Uri` makes of a string, and nothing where
/// it rejects the string.
pub uninterp spec fn uri_path(text: Seq<char>) -> Option<Seq<char>>;

/// Whether a string is a bare path: it begins with a slash and holds neither
/// a query nor a fragment.
pub open spec fn is_bare_path(text: Seq<char>) -> bool {
    text.len() > 0 && text[0] == '/' && !text.contains('?') && !text.contains('#')
}

/// Whether a character of ASCII may stand as it is in the path of a URI.
pub open spec fn is_path_char(c: char) -> bool {
    let n = c as u32;
    ||| n == 0x21
    ||| 0x24 <= n <= 0x3B
    ||| n == 0x3D
    ||| 0x40 <= n <= 0x5F
    ||| 0x61 <= n <= 0x7A
    ||| n == 0x7C
    ||| n == 0x7E
    ||| c == '"'
    ||| c == '{'
    ||| c == '}'
}

/// Whether a string is a plain path: it begins with a slash, is made of
/// ASCII path characters alone, and is no longer than a URI may be.
pub open spec fn is_plain_path(text: Seq<char>) -> bool {
    &&& 0 < text.len() <= 65534
    &&& text[0] == '/'
    &&& forall|i: int| 0 <= i < text.len() ==> is_path_char(#[trigger] text[i])
}

/// The path that a rewrite target gives a request, and nothing where the
/// target is no URI. A plain path is a URI and gives itself; so does any
/// other bare path that is a URI.
pub open spec fn resolve(target: Seq<char>) -> Option<Seq<char>> {
    if is_plain_path(target) {
        Some(target)
    } else {
        match uri_path(target) {
            None => None,
            Some(path) => if is_bare_path(target) {
                Some(target)
            } else {
                Some(path)
            },
        }
    }
}

/// A plain path holds neither a query nor a fragment.
pub proof fn lemma_plain_is_bare(text: Seq<char>)
    requires
        is_plain_path(text),
    ensures
        is_bare_path(text),
{
    assert(!is_path_char('?'));
    assert(!is_path_char('#'));
}

/// Parses a rewrite target with `http::Uri::from_str` and reads the path off
/// the result with `Uri::path`.
///
/// Trusted: that the parser is a function of the string alone; that a string
/// which begins with a slash and holds no `?` and no `#` is, where the parser
/// accepts it, a URI whose path is the whole string; and that the parser
/// accepts a string of at most 65534 ASCII path characters that begins with a
/// slash.
#[verifier::external_body]
fn parse_target(target: &str) -> (parsed: Option<String>)
    ensures
        parsed.deep_view() == uri_path(target@),
        is_bare_path(target@) ==> (parsed matches Some(path) ==> path@ == target@),
        is_plain_path(target@) ==> parsed is Some,
{
    match http::Uri::from_str(target) {
        Ok(uri) => Some(String::from(uri.path())),
        Err(_) => None,
    }
}

/// One static rewrite: a request for exactly `from` is served as `to`.
#[derive(Debug, PartialEq, Eq)]
pub struct RewriteRule {
    /// The match path.
    pub from: String,
    /// The target, whose path takes the place of the request's path.
    pub to: String,
}

/// What a [`RewriteRule`] is in contracts.
pub ghost struct RewriteRuleView {
    pub from: Seq<char>,
    pub to: Seq<char>,
}

impl View for RewriteRule {
    type V = RewriteRuleView;

    open spec fn view(&self) -> RewriteRuleView {
        RewriteRuleView { from: self.from@, to: self.to@ }
    }
}

/// The views of a list of rules.
pub open spec fn rule_views(list: Seq<RewriteRule>) -> Seq<RewriteRuleView> {
    list.map_values(|r: RewriteRule| r@)
}

/// Whether no two rules have the same match path.
pub open spec fn distinct_matches(rules: Seq<RewriteRuleView>) -> bool {
    forall|i: int, j: int|
        0 <= i < j < rules.len() ==> (#[trigger] rules[i]).from != (#[trigger] rules[j]).from
}

/// What became of a request in the rewrite stage.
#[derive(Clone, Copy, Debug, PartialEq, Eq, Structural)]
pub enum RewriteOutcome {
    /// No rule matches the path.
    NoMatch,
    /// The rule at this position matched, and the request was rewritten.
    Rewritten { rule: usize },
    /// The rule at this position matched, but its target is no URI: the
    /// request is left as it was.
    Skipped { rule: usize },
}

/// The request after the rewrite stage, and what happened.
///
/// The first rule whose match path is exactly the request's path fires, and
/// the request gets the path of the rule's target. Nothing but the path
/// changes. A target that is no URI leaves the request alone.
pub open spec fn rewrite(rules: Seq<RewriteRuleView>, req: RequestView) -> (
    RequestView,
    RewriteOutcome,
) {
    match first_index(rules, |r: RewriteRuleView| r.from == req.path) {
        None => (req, RewriteOutcome::NoMatch),
        Some(i) => match resolve(rules[i].to) {
            Some(path) => (
                RequestView { path, ..req },
                RewriteOutcome::Rewritten { rule: i as usize },
            ),
            None => (req, RewriteOutcome::Skipped { rule: i as usize }),
        },
    }
}

/// Carries out the rewrite of a request by the rule at position `rule`, whose
/// target was parsed to `parsed`: the request gets the parsed path and keeps
/// everything else, and where the target did not parse, the request is left
/// as it was.
pub fn rewritten(req: &mut RequestDescriptor, rule: usize, parsed: Option<String>) -> (outcome:
    RewriteOutcome)
    ensures
        match parsed {
            Some(path) => final(req)@ == (RequestView { path: path@, ..old(req)@ }) && outcome == (
            RewriteOutcome::Rewritten { rule }),
            None => final(req)@ == old(req)@ && outcome == (RewriteOutcome::Skipped { rule }),
        },
{
    match parsed {
        Some(path) => {
            req.path = path;
            RewriteOutcome::Rewritten { rule }
        },
        None => RewriteOutcome::Skipped { rule },
    }
}

/// The static rewrite rules, with pairwise distinct match paths.
#[derive(Debug)]
pub struct RewriteRules {
    rules: Vec<RewriteRule>,
}

impl View for RewriteRules {
    type V = Seq<RewriteRuleView>;

    closed spec fn view(&self) -> Seq<RewriteRuleView> {
        rule_views(self.rules@)
    }
}

impl RewriteRules {
    #[verifier::type_invariant]
    spec fn well_formed(self) -> bool {
        distinct_matches(rule_views(self.rules@))
    }

    /// Takes the configured rules. Two rules with the same match path are a
    /// configuration error.
    pub fn new(rules: Vec<RewriteRule>) -> (r: Result<RewriteRules, ConfigError>)
        ensures
            match r {
                Ok(set) => set@ == rule_views(rules@) && distinct_matches(set@),
                Err(e) => e == ConfigError::DuplicateRewriteMatch && !distinct_matches(
                    rule_views(rules@),
                ),
            },
    {
        let ghost views = rule_views(rules@);
        let mut j: usize = 0;
        while j < rules.len()
            invariant
                0 <= j <= rules.len(),
                views == rule_views(rules@),
                forall|a: int, b: int|
                    0 <= a < b < j ==> (#[trigger] views[a]).from != (#[trigger] views[b]).from,
            decreases rules.len() - j,
        {
            let mut i: usize = 0;
            while i < j
                invariant
                    0 <= i <= j < rules.len(),
                    views == rule_views(rules@),
                    forall|a: int| 0 <= a < i ==> (#[trigger] views[a]).from != views[j as int].from,
                decreases j - i,
            {
                if rules[i].from == rules[j].from {
                    assert(views[i as int].from == views[j as int].from);
                    return Err(ConfigError::DuplicateRewriteMatch);
                }
                i = i + 1;
            }
            j = j + 1;
        }
        Ok(RewriteRules { rules })
    }

    /// The number of rules.
    pub fn len(&self) -> (n: usize)
        ensures
            n == self@.len(),
    {
        self.rules.len()
    }

    /// The rule at a position, if there is one.
    pub fn get(&self, i: usize) -> (rule: Option<&RewriteRule>)
        ensures
            match rule {
                Some(r) => i < self@.len() && r@ == self@[i as int],
                None => i >= self@.len(),
            },
    {
        if i < self.rules.len() {
            Some(&self.rules[i])
        } else {
            None
        }
    }

    /// Rewrites a request in place, where a rule matches its path.
    pub fn apply(&self, req: &mut RequestDescriptor) -> (outcome: RewriteOutcome)
        ensures
            (final(req)@, outcome) == rewrite(self@, old(req)@),
            distinct_matches(self@),
    {
        proof {
            use_type_invariant(self);
        }
        let ghost hit = |r: RewriteRuleView| r.from == req@.path;
        let mut i: usize = 0;
        while i < self.rules.len()
            invariant
                0 <= i <= self.rules.len(),
                *req == *old(req),
                distinct_matches(self@),
                hit == |r: RewriteRuleView| r.from == old(req)@.path,
                forall|j: int| 0 <= j < i ==> !hit(#[trigger] self@[j]),
            decreases self.rules.len() - i,
        {
            if self.rules[i].from == req.path {
                proof {
                    lemma_first_index_is(self@, hit, i as int);
                }
                let target = self.rules[i].to.as_str();
                proof {
                    if is_plain_path(target@) {
                        lemma_plain_is_bare(target@);
                    }
                }
                return rewritten(req, i, parse_target(target));
            }
            i = i + 1;
        }
        proof {
            lemma_first_index_none(self@, hit);
        }
        RewriteOutcome::NoMatch
    }
}

/// At most one rule fires: where the match paths are distinct, the rule that
/// fires for a path is the only rule with that match path.
pub proof fn lemma_one_rule_fires(rules: Seq<RewriteRuleView>, path: Seq<char>, i: int)
    requires
        distinct_matches(rules),
        0 <= i < rules.len(),
        rules[i].from == path,
    ensures
        first_index(rules, |r: RewriteRuleView| r.from == path) == Some(i),
        forall|j: int| 0 <= j < rules.len() && j != i ==> (#[trigger] rules[j]).from != path,
{
    lemma_first_index_is(rules, |r: RewriteRuleView| r.from == path, i);
}

/// A request whose path no rule matches passes the rewrite stage unchanged.
pub proof fn lemma_unmatched_passes(rules: Seq<RewriteRuleView>, req: RequestView)
    requires
        forall|j: int| 0 <= j < rules.len() ==> (#[trigger] rules[j]).from != req.path,
    ensures
        rewrite(rules, req) == (req, RewriteOutcome::NoMatch),
{
    lemma_first_index_none(rules, |r: RewriteRuleView| r.from == req.path);
}

} // verus!
