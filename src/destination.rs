use vstd::prelude::*;
use vstd::string::StringExecFns;
use crate::error::ProxyError;
use crate::text::{chars_of, contains_chars, occurs_in, str_eq};

verus! {

/// The error that URL parsing reports.
#[verifier::external_type_specification]
#[verifier::external_body]
pub struct ExParseError(url::ParseError);

/// What a parsed URL shows, in order: scheme, host, path, query, fragment,
/// and the part of its serialization that stands before the path.
pub type UrlView = (Seq<char>, Option<Seq<char>>, Seq<char>, Option<Seq<char>>, Option<Seq<char>>, Seq<char>);

/// The parts of `s` as URL parsing reads them, or `None` where it refuses `s`.
pub uninterp spec fn url_parts_of(s: Seq<char>) -> Option<UrlView>;

/// A parsed URL, held as the plain strings that the resolver reads.
pub struct UrlParts {
    pub scheme: String,
    pub host: Option<String>,
    pub path: String,
    pub query: Option<String>,
    pub fragment: Option<String>,
    /// Scheme and authority, as serialized: everything before the path.
    pub before_path: String,
}

/// The view of an optional string.
pub open spec fn opt_view(o: Option<String>) -> Option<Seq<char>> {
    match o {
        Some(s) => Some(s@),
        None => None,
    }
}

impl View for UrlParts {
    type V = UrlView;

    open spec fn view(&self) -> UrlView {
        (
            self.scheme@,
            opt_view(self.host),
            self.path@,
            opt_view(self.query),
            opt_view(self.fragment),
            self.before_path@,
        )
    }
}

/// Relies on url::Url::parse, whose result is a function of the input; the
/// parsed value is handed out through its accessors `scheme`, `host_str`,
/// `path`, `query`, `fragment` and its slice up to `Position::BeforePath`.
#[verifier::external_body]
fn parse_url(s: &str) -> (r: Result<UrlParts, url::ParseError>)
    ensures
        r is Ok <==> url_parts_of(s@) is Some,
        r matches Ok(p) ==> url_parts_of(s@) == Some(p@),
{
    let u = url::Url::parse(s)?;
    Ok(UrlParts {
        scheme: u.scheme().to_string(),
        host: u.host_str().map(|h| h.to_string()),
        path: u.path().to_string(),
        query: u.query().map(|q| q.to_string()),
        fragment: u.fragment().map(|f| f.to_string()),
        before_path: u[..url::Position::BeforePath].to_string(),
    })
}

pub open spec fn http_scheme() -> Seq<char> {
    seq!['h', 't', 't', 'p']
}

pub open spec fn https_scheme() -> Seq<char> {
    seq!['h', 't', 't', 'p', 's']
}

pub open spec fn parent_segment() -> Seq<char> {
    seq!['.', '.']
}

pub open spec fn double_separator() -> Seq<char> {
    seq!['/', '/']
}

/// The primary webhook suffix, appended where the path names none.
pub open spec fn primary_suffix() -> Seq<char> {
    seq!['g', 'i', 't', 'h', 'u', 'b', '-', 'w', 'e', 'b', 'h', 'o', 'o', 'k', '/']
}

/// The primary suffix as a whole path segment.
pub open spec fn primary_segment() -> Seq<char> {
    seq!['/'] + primary_suffix()
}

/// The alternative webhook suffix, as a whole path segment.
pub open spec fn alternate_segment() -> Seq<char> {
    seq!['/', 'g', 'h', 'p', 'r', 'b', 'h', 'o', 'o', 'k', '/']
}

/// The position of the first `:` at or after `j`, or the end.
pub open spec fn scheme_end(s: Seq<char>, j: int) -> int
    decreases s.len() - j,
{
    if 0 <= j < s.len() && s[j] != ':' {
        scheme_end(s, j + 1)
    } else {
        j
    }
}

/// The first position at or after `j` that holds no slash or backslash.
pub open spec fn skip_slashes(s: Seq<char>, j: int) -> int
    decreases s.len() - j,
{
    if 0 <= j < s.len() && (s[j] == '/' || s[j] == '\\') {
        skip_slashes(s, j + 1)
    } else {
        j
    }
}

/// The end of an authority that starts at `j`: the next slash, backslash,
/// `?` or `#`, or the end.
pub open spec fn authority_end(s: Seq<char>, j: int) -> int
    decreases s.len() - j,
{
    if 0 <= j < s.len() && s[j] != '/' && s[j] != '\\' && s[j] != '?' && s[j] != '#' {
        authority_end(s, j + 1)
    } else {
        j
    }
}

/// The end of a path that starts at `j`: the next `?` or `#`, or the end.
pub open spec fn path_end(s: Seq<char>, j: int) -> int
    decreases s.len() - j,
{
    if 0 <= j < s.len() && s[j] != '?' && s[j] != '#' {
        path_end(s, j + 1)
    } else {
        j
    }
}

/// The path of URL text as written, before parsing resolves `.` and `..`:
/// what follows the scheme, the slashes after it and the authority, up to a
/// `?` or a `#`.
pub open spec fn written_path(s: Seq<char>) -> Seq<char> {
    let c = scheme_end(s, 0);
    let a = skip_slashes(s, if c < s.len() { c + 1 } else { c });
    let e = authority_end(s, a);
    s.subrange(e, path_end(s, e))
}

/// Whether the configured text `s`, whose parts are `p`, is a safe forwarding
/// target: its path, as written and as parsed, holds no `..` and no `//`,
/// and the parts show an http or https scheme, a host, no query and no
/// fragment.
pub open spec fn destination_valid(s: Seq<char>, p: UrlView) -> bool {
    &&& !occurs_in(written_path(s), parent_segment())
    &&& !occurs_in(written_path(s), double_separator())
    &&& parts_valid(p)
}

/// The rules on the parts of a parsed URL.
pub open spec fn parts_valid(p: UrlView) -> bool {
    &&& (p.0 == http_scheme() || p.0 == https_scheme())
    &&& p.1 is Some
    &&& !occurs_in(p.2, parent_segment())
    &&& !occurs_in(p.2, double_separator())
    &&& p.3 is None
    &&& p.4 is None
}

/// `p` with a trailing `/`, added only where it has none.
pub open spec fn with_trailing_slash(p: Seq<char>) -> Seq<char> {
    if p.len() > 0 && p.last() == '/' {
        p
    } else {
        p.push('/')
    }
}

/// The path to post to: the base path with a trailing `/`, followed by the
/// primary suffix unless one of the known suffixes is already in it.
pub open spec fn webhook_path_of(p: Seq<char>) -> Seq<char> {
    let q = with_trailing_slash(p);
    if occurs_in(q, primary_segment()) || occurs_in(q, alternate_segment()) {
        q
    } else {
        q + primary_suffix()
    }
}

/// A URL part with the character that introduces it, or nothing.
pub open spec fn opt_part(marker: char, o: Option<Seq<char>>) -> Seq<char> {
    match o {
        Some(s) => seq![marker] + s,
        None => Seq::empty(),
    }
}

/// The serialization of the URL with the parts `p` once its path is replaced
/// by `path`.
pub open spec fn url_with_path(p: UrlView, path: Seq<char>) -> Seq<char> {
    p.5 + path + opt_part('?', p.3) + opt_part('#', p.4)
}

fn scan_scheme_end(s: &Vec<char>, j: usize) -> (r: usize)
    requires
        j <= s@.len(),
    ensures
        r == scheme_end(s@, j as int),
        j <= r <= s@.len(),
{
    let mut k = j;
    while k < s.len() && s[k] != ':'
        invariant
            j <= k <= s@.len(),
            scheme_end(s@, k as int) == scheme_end(s@, j as int),
        decreases s@.len() - k,
    {
        k = k + 1;
    }
    k
}

fn scan_slashes(s: &Vec<char>, j: usize) -> (r: usize)
    requires
        j <= s@.len(),
    ensures
        r == skip_slashes(s@, j as int),
        j <= r <= s@.len(),
{
    let mut k = j;
    while k < s.len() && (s[k] == '/' || s[k] == '\\')
        invariant
            j <= k <= s@.len(),
            skip_slashes(s@, k as int) == skip_slashes(s@, j as int),
        decreases s@.len() - k,
    {
        k = k + 1;
    }
    k
}

fn scan_authority(s: &Vec<char>, j: usize) -> (r: usize)
    requires
        j <= s@.len(),
    ensures
        r == authority_end(s@, j as int),
        j <= r <= s@.len(),
{
    let mut k = j;
    while k < s.len() && s[k] != '/' && s[k] != '\\' && s[k] != '?' && s[k] != '#'
        invariant
            j <= k <= s@.len(),
            authority_end(s@, k as int) == authority_end(s@, j as int),
        decreases s@.len() - k,
    {
        k = k + 1;
    }
    k
}

fn scan_path(s: &Vec<char>, j: usize) -> (r: usize)
    requires
        j <= s@.len(),
    ensures
        r == path_end(s@, j as int),
        j <= r <= s@.len(),
{
    let mut k = j;
    while k < s.len() && s[k] != '?' && s[k] != '#'
        invariant
            j <= k <= s@.len(),
            path_end(s@, k as int) == path_end(s@, j as int),
        decreases s@.len() - k,
    {
        k = k + 1;
    }
    k
}

/// The path of URL text as written.
pub fn path_as_written(text: &str) -> (r: Vec<char>)
    ensures
        r@ == written_path(text@),
{
    let s = chars_of(text);
    let c = scan_scheme_end(&s, 0);
    let a0 = if c < s.len() {
        c + 1
    } else {
        c
    };
    let a = scan_slashes(&s, a0);
    let e = scan_authority(&s, a);
    let p = scan_path(&s, e);
    let mut r: Vec<char> = Vec::new();
    let mut k = e;
    while k < p
        invariant
            s@ == text@,
            e <= k <= p <= s@.len(),
            r@ == s@.subrange(e as int, k as int),
        decreases p - k,
    {
        r.push(s[k]);
        k = k + 1;
        assert(r@ =~= s@.subrange(e as int, k as int));
    }
    r
}

/// Whether the configured text `text`, parsed into `p`, is a safe forwarding
/// target.
pub fn validate_parts(text: &str, p: &UrlParts) -> (r: bool)
    ensures
        r == destination_valid(text@, p@),
{
    proof {
        reveal_strlit("http");
        reveal_strlit("https");
        reveal_strlit("..");
        reveal_strlit("//");
        assert("http"@ =~= http_scheme());
        assert("https"@ =~= https_scheme());
        assert(".."@ =~= parent_segment());
        assert("//"@ =~= double_separator());
    }
    if !str_eq(p.scheme.as_str(), "http") && !str_eq(p.scheme.as_str(), "https") {
        return false;
    }
    if p.host.is_none() {
        return false;
    }
    let written = path_as_written(text);
    let path = chars_of(p.path.as_str());
    let dots = chars_of("..");
    let slashes = chars_of("//");
    if contains_chars(&written, &dots) || contains_chars(&written, &slashes) {
        return false;
    }
    assert(p@.2 == path@);
    if contains_chars(&path, &dots) || contains_chars(&path, &slashes) {
        return false;
    }
    if p.query.is_some() || p.fragment.is_some() {
        return false;
    }
    true
}

/// Checks that the configured destination is a safe forwarding target.
/// A string that does not parse as a URL is an error; a URL that breaks one
/// of the rules gives `Ok(false)`.
pub fn validate_jenkins_url(jenkins_url: &str) -> (r: Result<bool, ProxyError>)
    ensures
        url_parts_of(jenkins_url@) is None ==> r == Err::<bool, ProxyError>(
            ProxyError::InvalidJenkinsUrl,
        ),
        url_parts_of(jenkins_url@) matches Some(p) ==> r == Ok::<bool, ProxyError>(
            destination_valid(jenkins_url@, p),
        ),
{
    match parse_url(jenkins_url) {
        Ok(u) => Ok(validate_parts(jenkins_url, &u)),
        Err(_) => Err(ProxyError::InvalidJenkinsUrl),
    }
}

/// The path to post to for the base path `path`.
pub fn webhook_path(path: &str) -> (r: String)
    ensures
        r@ == webhook_path_of(path@),
{
    let mut p = String::from_str(path);
    let chars = chars_of(path);
    if chars.len() == 0 || chars[chars.len() - 1] != '/' {
        p.append("/");
        proof { reveal_strlit("/"); }
    }
    assert(p@ == with_trailing_slash(path@));
    let q = chars_of(p.as_str());
    let primary = chars_of("/github-webhook/");
    let alternate = chars_of("/ghprbhook/");
    proof {
        reveal_strlit("/github-webhook/");
        reveal_strlit("/ghprbhook/");
        reveal_strlit("github-webhook/");
        assert(primary@ =~= primary_segment());
        assert(alternate@ =~= alternate_segment());
    }
    if !contains_chars(&q, &primary) && !contains_chars(&q, &alternate) {
        p.append("github-webhook/");
        assert(p@ =~= with_trailing_slash(path@) + primary_suffix());
    }
    p
}

/// The URL with the parts `p` whose path has been given a trailing `/` and,
/// unless it names one already, the webhook suffix.
pub fn url_from_parts(p: &UrlParts) -> (r: String)
    ensures
        r@ == url_with_path(p@, webhook_path_of(p.path@)),
{
    let path = webhook_path(p.path.as_str());
    let mut out = p.before_path.clone();
    out.append(path.as_str());
    proof {
        reveal_strlit("?");
        reveal_strlit("#");
    }
    match &p.query {
        Some(q) => {
            out.append("?");
            out.append(q.as_str());
        },
        None => {},
    }
    match &p.fragment {
        Some(f) => {
            out.append("#");
            out.append(f.as_str());
        },
        None => {},
    }
    assert(out@ =~= url_with_path(p@, webhook_path_of(p.path@)));
    out
}

/// The full URL to post to: the base URL whose path has been given a
/// trailing `/` and, unless it names one already, the webhook suffix.
pub fn construct_jenkins_url(base_url: &str) -> (r: Result<String, ProxyError>)
    ensures
        url_parts_of(base_url@) is None ==> r == Err::<String, ProxyError>(
            ProxyError::InvalidJenkinsUrl,
        ),
        url_parts_of(base_url@) matches Some(p) ==> r matches Ok(s) && s@ == url_with_path(
            p,
            webhook_path_of(p.2),
        ),
{
    match parse_url(base_url) {
        Ok(u) => Ok(url_from_parts(&u)),
        Err(_) => Err(ProxyError::InvalidJenkinsUrl),
    }
}

/// Validates the configured destination and derives the URL to post to.
/// Any broken rule is the one error `InvalidJenkinsUrl`.
pub fn resolve_destination(jenkins_url: &str) -> (r: Result<String, ProxyError>)
    ensures
        match url_parts_of(jenkins_url@) {
            Some(p) if destination_valid(jenkins_url@, p) => r matches Ok(s) && s@ == url_with_path(
                p,
                webhook_path_of(p.2),
            ),
            _ => r == Err::<String, ProxyError>(ProxyError::InvalidJenkinsUrl),
        },
{
    match validate_jenkins_url(jenkins_url) {
        Ok(true) => construct_jenkins_url(jenkins_url),
        _ => Err(ProxyError::InvalidJenkinsUrl),
    }
}

/// Deriving the path to post to a second time changes nothing.
pub proof fn lemma_webhook_path_idempotent(p: Seq<char>)
    ensures
        webhook_path_of(webhook_path_of(p)) == webhook_path_of(p),
{
    let q = with_trailing_slash(p);
    let r = webhook_path_of(p);
    assert(q.len() > 0 && q.last() == '/');
    assert(r.len() > 0 && r.last() == '/');
    assert(with_trailing_slash(r) == r);
    if !(occurs_in(q, primary_segment()) || occurs_in(q, alternate_segment())) {
        let i = q.len() - 1;
        assert(r.subrange(i, i + primary_segment().len()) =~= primary_segment());
        assert(occurs_in(r, primary_segment()));
    }
}

} // verus!
