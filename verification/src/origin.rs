//! Origin validation: matching a request origin against a project's
//! allow-list of origin patterns.
//!
//! A pattern and an origin are both read as `scheme://domain:port`, where
//! the scheme (together with its `://`) and the port (together with its `:`)
//! may be absent. In a pattern, a missing scheme or port, or a `*` in any
//! position, is a wildcard. A pattern matches an origin when every component
//! the pattern pins down is present in the origin and equal to it, ASCII
//! case-insensitively.

use vstd::prelude::*;
use vstd::string::StrSliceExecFns;

verus! {

/// One parsed origin pattern (or parsed request origin): scheme, domain and
/// port, where `None` stands for a wildcard or an absent component.
#[derive(Debug)]
pub struct SchemeDomainPort {
    /// The scheme, e.g. `https`; `None` is a wildcard.
    pub scheme: Option<String>,
    /// The domain, e.g. `example.com`; `None` is a wildcard.
    pub domain: Option<String>,
    /// The port, e.g. `443`; `None` is a wildcard.
    pub port: Option<String>,
}

/// The mathematical content of a `SchemeDomainPort`.
pub struct SdpView {
    /// The scheme component, if pinned down.
    pub scheme: Option<Seq<char>>,
    /// The domain component, if pinned down.
    pub domain: Option<Seq<char>>,
    /// The port component, if pinned down.
    pub port: Option<Seq<char>>,
}

impl View for SchemeDomainPort {
    type V = SdpView;

    open spec fn view(&self) -> SdpView {
        SdpView {
            scheme: match self.scheme {
                Some(s) => Some(s@),
                None => None,
            },
            domain: match self.domain {
                Some(s) => Some(s@),
                None => None,
            },
            port: match self.port {
                Some(s) => Some(s@),
                None => None,
            },
        }
    }
}

/// Whether the three characters starting at `i` are the scheme separator
/// `://`.
pub open spec fn scheme_sep_at(s: Seq<char>, i: int) -> bool {
    &&& 0 <= i
    &&& i + 3 <= s.len()
    &&& s[i] == ':'
    &&& s[i + 1] == '/'
    &&& s[i + 2] == '/'
}

/// The position of the first scheme separator at or after `i`, if any.
pub open spec fn find_scheme_sep_from(s: Seq<char>, i: int) -> Option<int>
    decreases s.len() - i,
{
    if i + 3 > s.len() {
        None
    } else if scheme_sep_at(s, i) {
        Some(i)
    } else {
        find_scheme_sep_from(s, i + 1)
    }
}

/// The position of the first occurrence of `c` at or after `i`, if any.
pub open spec fn find_char_from(s: Seq<char>, c: char, i: int) -> Option<int>
    decreases s.len() - i,
{
    if i >= s.len() {
        None
    } else if 0 <= i && s[i] == c {
        Some(i)
    } else {
        find_char_from(s, c, i + 1)
    }
}

/// Whether a raw component is the wildcard `*`.
pub open spec fn is_wildcard(comp: Seq<char>) -> bool {
    comp.len() == 1 && comp[0] == '*'
}

/// A raw component as a pattern component: `*` pins nothing down.
pub open spec fn wildcard_or(comp: Seq<char>) -> Option<Seq<char>> {
    if is_wildcard(comp) {
        None
    } else {
        Some(comp)
    }
}

/// The scheme component and the remainder of a raw origin string.
pub open spec fn spec_scheme_rest(s: Seq<char>) -> (Option<Seq<char>>, Seq<char>) {
    match find_scheme_sep_from(s, 0) {
        Some(i) => (Some(s.take(i)), s.skip(i + 3)),
        None => (None, s),
    }
}

/// What parsing an origin or pattern string yields.
pub open spec fn spec_parse(s: Seq<char>) -> SdpView {
    let (scheme_raw, rest) = spec_scheme_rest(s);
    let domain_raw = match find_char_from(rest, ':', 0) {
        Some(j) => rest.take(j),
        None => rest,
    };
    let port_raw = match find_char_from(rest, ':', 0) {
        Some(j) => Some(rest.skip(j + 1)),
        None => None,
    };
    SdpView {
        scheme: match scheme_raw {
            Some(sc) => wildcard_or(sc),
            None => None,
        },
        domain: wildcard_or(domain_raw),
        port: match port_raw {
            Some(p) => wildcard_or(p),
            None => None,
        },
    }
}

/// The code of `c` with ASCII upper-case letters folded to lower case.
pub open spec fn lower_char_code(c: char) -> int {
    if 65 <= c as int <= 90 {
        c as int + 32
    } else {
        c as int
    }
}

/// Character equality up to ASCII case.
pub open spec fn chars_eq_nocase(a: char, b: char) -> bool {
    lower_char_code(a) == lower_char_code(b)
}

/// String equality up to ASCII case.
pub open spec fn seq_eq_nocase(a: Seq<char>, b: Seq<char>) -> bool {
    a.len() == b.len() && forall|i: int| 0 <= i < a.len() ==> chars_eq_nocase(a[i], b[i])
}

/// Whether a pattern component accepts an origin component: a wildcard
/// accepts anything, a pinned component requires the origin to carry an
/// equal one.
pub open spec fn comp_matches(pat: Option<Seq<char>>, org: Option<Seq<char>>) -> bool {
    match pat {
        None => true,
        Some(p) => match org {
            Some(o) => seq_eq_nocase(p, o),
            None => false,
        },
    }
}

/// Whether a parsed pattern accepts a parsed origin.
pub open spec fn sdp_matches(pat: SdpView, org: SdpView) -> bool {
    comp_matches(pat.scheme, org.scheme) && comp_matches(pat.domain, org.domain) && comp_matches(
        pat.port,
        org.port,
    )
}

/// Whether the pattern string accepts the origin string.
pub open spec fn pattern_allows(pattern: Seq<char>, origin: Seq<char>) -> bool {
    sdp_matches(spec_parse(pattern), spec_parse(origin))
}

/// Whether an optional origin passes an allow-list: an absent origin always
/// passes, a present one must be accepted by some pattern of a non-empty
/// list.
pub open spec fn origin_allowed(allowed: Seq<Seq<char>>, origin: Option<Seq<char>>) -> bool {
    match origin {
        None => true,
        Some(o) => allowed.len() > 0 && exists|i: int|
            0 <= i < allowed.len() && pattern_allows(allowed[i], o),
    }
}

/// Exact string equality, character by character.
pub(crate) fn str_eq(a: &str, b: &str) -> (r: bool)
    ensures
        r == (a@ == b@),
{
    let na = a.unicode_len();
    let nb = b.unicode_len();
    if na != nb {
        return false;
    }
    let mut i: usize = 0;
    while i < na
        invariant
            na == a@.len(),
            nb == b@.len(),
            na == nb,
            0 <= i <= na,
            forall|j: int| 0 <= j < i ==> a@[j] == b@[j],
        decreases na - i,
    {
        if a.get_char(i) != b.get_char(i) {
            return false;
        }
        i = i + 1;
    }
    proof {
        assert(a@ =~= b@);
    }
    true
}

/// Skipping over positions without a separator does not change which
/// separator is found first.
proof fn lemma_find_scheme_sep_skip(s: Seq<char>, i: int)
    requires
        0 <= i,
        forall|j: int| 0 <= j < i ==> !scheme_sep_at(s, j),
    ensures
        find_scheme_sep_from(s, 0) == find_scheme_sep_from(s, i),
    decreases i,
{
    if i > 0 {
        lemma_find_scheme_sep_skip(s, i - 1);
        assert(find_scheme_sep_from(s, i - 1) == find_scheme_sep_from(s, i));
    }
}

/// Skipping over positions that do not hold `c` does not change which
/// occurrence is found first.
proof fn lemma_find_char_skip(s: Seq<char>, c: char, i: int)
    requires
        0 <= i,
        forall|j: int| 0 <= j < i ==> s[j] != c,
    ensures
        find_char_from(s, c, 0) == find_char_from(s, c, i),
    decreases i,
{
    if i > 0 {
        lemma_find_char_skip(s, c, i - 1);
        assert(find_char_from(s, c, i - 1) == find_char_from(s, c, i));
    }
}

/// Finds the position of the first `://` in `s`.
fn find_scheme_sep(s: &str) -> (r: Option<usize>)
    ensures
        match r {
            Some(i) => find_scheme_sep_from(s@, 0) == Some(i as int) && scheme_sep_at(s@, i as int),
            None => find_scheme_sep_from(s@, 0) is None,
        },
{
    let n = s.unicode_len();
    if n < 3 {
        proof {
            lemma_find_scheme_sep_skip(s@, 0);
        }
        return None;
    }
    let mut i: usize = 0;
    while i <= n - 3
        invariant
            n == s@.len(),
            3 <= n,
            0 <= i <= n - 2,
            forall|j: int| 0 <= j < i ==> !scheme_sep_at(s@, j),
        decreases n - i,
    {
        if s.get_char(i) == ':' && s.get_char(i + 1) == '/' && s.get_char(i + 2) == '/' {
            proof {
                lemma_find_scheme_sep_skip(s@, i as int);
            }
            return Some(i);
        }
        i = i + 1;
    }
    proof {
        lemma_find_scheme_sep_skip(s@, i as int);
    }
    None
}

/// Finds the position of the first occurrence of `c` in `s`.
fn find_char_at(s: &str, c: char) -> (r: Option<usize>)
    ensures
        match r {
            Some(i) => find_char_from(s@, c, 0) == Some(i as int) && i < s@.len() && s@[i as int]
                == c,
            None => find_char_from(s@, c, 0) is None,
        },
{
    let n = s.unicode_len();
    let mut i: usize = 0;
    while i < n
        invariant
            n == s@.len(),
            0 <= i <= n,
            forall|j: int| 0 <= j < i ==> s@[j] != c,
        decreases n - i,
    {
        if s.get_char(i) == c {
            proof {
                lemma_find_char_skip(s@, c, i as int);
            }
            return Some(i);
        }
        i = i + 1;
    }
    proof {
        lemma_find_char_skip(s@, c, i as int);
    }
    None
}

/// Reads a raw component as a pattern component, turning `*` into the
/// wildcard.
fn to_component(s: &str) -> (r: Option<String>)
    ensures
        (match r {
            Some(c) => Some(c@),
            None => None,
        }) == wildcard_or(s@),
{
    if s.unicode_len() == 1 && s.get_char(0) == '*' {
        None
    } else {
        Some(s.to_owned())
    }
}

impl SchemeDomainPort {
    /// Parses a pattern or origin string into its scheme, domain and port
    /// components.
    pub fn parse(s: &str) -> (r: SchemeDomainPort)
        ensures
            r@ == spec_parse(s@),
    {
        let n = s.unicode_len();
        let (scheme, rest): (Option<String>, &str) = match find_scheme_sep(s) {
            Some(i) => (to_component(s.substring_char(0, i)), s.substring_char(i + 3, n)),
            None => (None, s),
        };
        let m = rest.unicode_len();
        let (domain, port): (Option<String>, Option<String>) = match find_char_at(rest, ':') {
            Some(j) => (
                to_component(rest.substring_char(0, j)),
                to_component(rest.substring_char(j + 1, m)),
            ),
            None => (to_component(rest), None),
        };
        SchemeDomainPort { scheme, domain, port }
    }
}

/// Compares two characters up to ASCII case.
fn char_eq_nocase(a: char, b: char) -> (r: bool)
    ensures
        r == chars_eq_nocase(a, b),
{
    let ca = a as u32;
    let cb = b as u32;
    let la = if 65 <= ca && ca <= 90 {
        ca + 32
    } else {
        ca
    };
    let lb = if 65 <= cb && cb <= 90 {
        cb + 32
    } else {
        cb
    };
    la == lb
}

/// Compares two strings up to ASCII case.
fn eq_nocase(a: &str, b: &str) -> (r: bool)
    ensures
        r == seq_eq_nocase(a@, b@),
{
    let na = a.unicode_len();
    let nb = b.unicode_len();
    if na != nb {
        return false;
    }
    let mut i: usize = 0;
    while i < na
        invariant
            na == a@.len(),
            nb == b@.len(),
            na == nb,
            0 <= i <= na,
            forall|j: int| 0 <= j < i ==> chars_eq_nocase(a@[j], b@[j]),
        decreases na - i,
    {
        if !char_eq_nocase(a.get_char(i), b.get_char(i)) {
            return false;
        }
        i = i + 1;
    }
    true
}

/// Compares a pattern component against an origin component.
fn comp_matches_exec(pat: &Option<String>, org: &Option<String>) -> (r: bool)
    ensures
        r == comp_matches(
            match pat {
                Some(p) => Some(p@),
                None => None,
            },
            match org {
                Some(o) => Some(o@),
                None => None,
            },
        ),
{
    match pat {
        None => true,
        Some(p) => match org {
            Some(o) => eq_nocase(p.as_str(), o.as_str()),
            None => false,
        },
    }
}

impl SchemeDomainPort {
    /// Whether this pattern accepts the given parsed origin.
    pub fn matches(&self, origin: &SchemeDomainPort) -> (r: bool)
        ensures
            r == sdp_matches(self@, origin@),
    {
        comp_matches_exec(&self.scheme, &origin.scheme) && comp_matches_exec(
            &self.domain,
            &origin.domain,
        ) && comp_matches_exec(&self.port, &origin.port)
    }
}

/// Whether the origin, if present, is accepted by at least one of the
/// parsed patterns. An absent origin is always accepted.
pub fn matches_any_origin(origin: Option<&str>, patterns: &Vec<SchemeDomainPort>) -> (r: bool)
    ensures
        r == match origin {
            Some(o) => exists|i: int|
                0 <= i < patterns@.len() && sdp_matches(patterns@[i]@, spec_parse(o@)),
            None => true,
        },
{
    match origin {
        None => true,
        Some(o) => origin_str_matches(o, patterns),
    }
}

/// Whether a present origin is accepted by at least one parsed pattern.
fn origin_str_matches(o: &str, patterns: &Vec<SchemeDomainPort>) -> (r: bool)
    ensures
        r == exists|i: int| 0 <= i < patterns@.len() && sdp_matches(patterns@[i]@, spec_parse(o@)),
{
    let parsed = SchemeDomainPort::parse(o);
    let mut i: usize = 0;
    while i < patterns.len()
        invariant
            0 <= i <= patterns@.len(),
            parsed@ == spec_parse(o@),
            forall|j: int| 0 <= j < i ==> !sdp_matches(patterns@[j]@, spec_parse(o@)),
        decreases patterns@.len() - i,
    {
        if patterns[i].matches(&parsed) {
            proof {
                assert(0 <= (i as int) < patterns@.len() && sdp_matches(
                    patterns@[i as int]@,
                    spec_parse(o@),
                ));
            }
            return true;
        }
        i = i + 1;
    }
    false
}

} // verus!
