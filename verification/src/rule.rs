//! Routing rules: a domain, exact or wildcard, mapped to a target address.
use vstd::prelude::*;

use crate::net::{socket_text, SocketTarget};
use crate::text::{chars_of, push_char, str_equals, tail_equals};

verus! {

/// A rule that routes `domain` to `target`.
///
/// A domain that starts with `*.` is a wildcard: it covers every domain that
/// ends with a dot followed by the rest of the pattern.
#[derive(Debug, PartialEq, Eq)]
pub struct DnsRule {
    pub domain: String,
    pub target: SocketTarget,
    /// Whether TLS is terminated for this domain and HTTPS is proxied.
    pub https: bool,
}

/// What a rule holds.
pub struct DnsRuleView {
    pub domain: Seq<char>,
    pub target: SocketTarget,
    pub https: bool,
}

impl View for DnsRule {
    type V = DnsRuleView;

    open spec fn view(&self) -> DnsRuleView {
        DnsRuleView { domain: self.domain@, target: self.target, https: self.https }
    }
}

/// Whether a rule's domain is a wildcard pattern (`*.` and a suffix).
pub open spec fn is_wildcard_pattern(p: Seq<char>) -> bool {
    p.len() >= 2 && p[0] == '*' && p[1] == '.'
}

/// `d` ends with a dot followed by `suffix`.
pub open spec fn ends_with_dot_suffix(d: Seq<char>, suffix: Seq<char>) -> bool {
    &&& d.len() > suffix.len()
    &&& d.skip(d.len() - suffix.len()) == suffix
    &&& d[d.len() - suffix.len() - 1] == '.'
}

/// Whether a rule for pattern `p` applies to the domain `d`: a wildcard
/// covers the domains that end with `.` and its suffix; any other pattern
/// applies to itself only (case matters).
pub open spec fn pattern_matches(p: Seq<char>, d: Seq<char>) -> bool {
    if is_wildcard_pattern(p) {
        ends_with_dot_suffix(d, p.skip(2))
    } else {
        p == d
    }
}

/// Executable form of `ends_with_dot_suffix`, with the suffix given as
/// `pattern[2..]`.
pub fn covers_with_suffix(pattern: &Vec<char>, d: &Vec<char>) -> (r: bool)
    requires
        pattern.len() >= 2,
    ensures
        r == ends_with_dot_suffix(d@, pattern@.skip(2)),
{
    let slen = pattern.len() - 2;
    if d.len() <= slen {
        return false;
    }
    let start = d.len() - slen;
    let tail_ok = tail_equals(d, start, &suffix_of(pattern));
    tail_ok && d[start - 1] == '.'
}

fn suffix_of(pattern: &Vec<char>) -> (r: Vec<char>)
    requires
        pattern.len() >= 2,
    ensures
        r@ == pattern@.skip(2),
{
    let mut r: Vec<char> = Vec::new();
    let mut i: usize = 2;
    while i < pattern.len()
        invariant
            2 <= i <= pattern.len(),
            r@ == pattern@.subrange(2, i as int),
        decreases pattern.len() - i,
    {
        r.push(pattern[i]);
        i = i + 1;
    }
    r
}

/// Whether a rule for `pattern` applies to `domain` (see `pattern_matches`).
pub fn pattern_applies(pattern: &str, domain: &str) -> (r: bool)
    ensures
        r == pattern_matches(pattern@, domain@),
{
    let p = chars_of(pattern);
    if p.len() >= 2 && p[0] == '*' && p[1] == '.' {
        let d = chars_of(domain);
        covers_with_suffix(&p, &d)
    } else {
        str_equals(pattern, domain)
    }
}

/// Whether `pattern` is a wildcard pattern.
pub fn pattern_is_wildcard(pattern: &str) -> (r: bool)
    ensures
        r == is_wildcard_pattern(pattern@),
{
    let p = chars_of(pattern);
    p.len() >= 2 && p[0] == '*' && p[1] == '.'
}

impl DnsRule {
    pub fn new(domain: String, target: SocketTarget, https: bool) -> (r: DnsRule)
        ensures
            r@ == (DnsRuleView { domain: domain@, target, https }),
    {
        DnsRule { domain, target, https }
    }

    /// Whether the rule's domain is a wildcard (starts with `*.`).
    pub fn is_wildcard(&self) -> (r: bool)
        ensures
            r == is_wildcard_pattern(self.domain@),
    {
        pattern_is_wildcard(self.domain.as_str())
    }

    /// Whether this rule applies to `domain`.
    pub fn matches(&self, domain: &str) -> (r: bool)
        ensures
            r == pattern_matches(self.domain@, domain@),
    {
        pattern_applies(self.domain.as_str(), domain)
    }

    /// The same rule, with TLS termination set to `https`.
    pub fn with_https(self, https: bool) -> (r: DnsRule)
        ensures
            r@ == (DnsRuleView { https, ..self@ }),
    {
        let mut r = self;
        r.https = https;
        r
    }
}

/// How a rule is shown: `http://domain → target` (or `https://`).
pub open spec fn rule_text(r: DnsRuleView) -> Seq<char> {
    (if r.https {
        seq!['h', 't', 't', 'p', 's']
    } else {
        seq!['h', 't', 't', 'p']
    }) + seq![':', '/', '/'] + r.domain + seq![' ', '\u{2192}', ' '] + socket_text(r.target)
}

impl DnsRule {
    /// The text of the rule, as shown to users.
    pub fn to_display_string(&self) -> (r: String)
        ensures
            r@ == rule_text(self@),
    {
        let mut s = String::new();
        push_char(&mut s, 'h');
        push_char(&mut s, 't');
        push_char(&mut s, 't');
        push_char(&mut s, 'p');
        if self.https {
            push_char(&mut s, 's');
        }
        push_char(&mut s, ':');
        push_char(&mut s, '/');
        push_char(&mut s, '/');
        s.append(self.domain.as_str());
        push_char(&mut s, ' ');
        push_char(&mut s, '\u{2192}');
        push_char(&mut s, ' ');
        let t = self.target.to_text();
        s.append(t.as_str());
        assert(s@ =~= rule_text(self@));
        s
    }
}

impl Clone for DnsRule {
    fn clone(&self) -> (r: Self)
        ensures
            r@ == self@,
    {
        DnsRule { domain: self.domain.clone(), target: self.target, https: self.https }
    }
}

} // verus!
