//! Trusted boundary to the `url` crate, and the base-URL resolver that turns
//! a descriptor's relative path into an absolute request target.
//!
//! URL resolution is deterministic in the base URL's text and the input, so
//! its outcome carries a name, [`url_resolve_of`]; every transport that
//! resolves through [`RestBase`] therefore provably resolves equal paths to
//! equal targets.

use vstd::prelude::*;
use vstd::string::StrSliceExecFns;

verus! {

#[verifier::external_type_specification]
#[verifier::external_body]
pub struct ExUrlParseError(url::ParseError);

/// Whether a string parses as an absolute URL. Whether `url::Url::parse`
/// succeeds depends on the string alone.
pub uninterp spec fn url_parses(input: Seq<char>) -> bool;

/// Relies on `url::Url::parse`: whether `input` is a valid absolute URL is
/// a condition of `input` alone, named [`url_parses`].
#[verifier::external_body]
fn parse_url_check(input: &str) -> (r: Result<(), url::ParseError>)
    ensures
        r is Ok <==> url_parses(input@),
{
    match url::Url::parse(input) {
        Ok(_) => Ok(()),
        Err(e) => Err(e),
    }
}

/// The absolute URL obtained by resolving `input` against the absolute URL
/// written `base`, or nothing where resolution fails. The outcome of parsing
/// `base` and joining `input` onto it depends on the two strings alone.
pub uninterp spec fn url_resolve_of(base: Seq<char>, input: Seq<char>) -> Option<Seq<char>>;

/// Relies on `url::Url::parse` and `url::Url::join`: resolves `input`
/// against the base URL written `base` and renders the result, a function of
/// the two strings alone, named [`url_resolve_of`]. The two calls stand in
/// one body because the name must be a function of plain string arguments;
/// an intermediate parsed URL is opaque and could not carry it soundly.
#[verifier::external_body]
fn resolve_text(base: &str, input: &str) -> (r: Result<String, url::ParseError>)
    ensures
        r matches Ok(u) ==> Option::Some(u@) == url_resolve_of(base@, input@),
        r is Err <==> url_resolve_of(base@, input@) is None,
{
    match url::Url::parse(base) {
        Ok(b) => match b.join(input) {
            Ok(u) => Ok(String::from(u)),
            Err(e) => Err(e),
        },
        Err(e) => Err(e),
    }
}

/// A path with every leading slash removed.
pub open spec fn trimmed(s: Seq<char>) -> Seq<char>
    decreases s.len(),
{
    if s.len() > 0 && s[0] == '/' {
        trimmed(s.drop_first())
    } else {
        s
    }
}

proof fn lemma_trimmed_skip(s: Seq<char>, i: int)
    requires
        0 <= i <= s.len(),
        forall|k: int| 0 <= k < i ==> s[k] == '/',
        i == s.len() || s[i] != '/',
    ensures
        trimmed(s) == s.skip(i),
    decreases i,
{
    if i == 0 {
        assert(s.skip(0) =~= s);
    } else {
        lemma_trimmed_skip(s.drop_first(), i - 1);
        assert(s.drop_first().skip(i - 1) =~= s.skip(i));
    }
}

/// Strips every leading `/` from `path`, so that resolving it against a base
/// URL keeps the base's own path segments.
fn trim_leading_slashes<'a>(path: &'a str) -> (r: &'a str)
    ensures
        r@ == trimmed(path@),
{
    let n = path.unicode_len();
    let mut i: usize = 0;
    while i < n && path.get_char(i) == '/'
        invariant
            i <= n,
            n == path@.len(),
            forall|k: int| 0 <= k < i ==> path@[k] == '/',
        decreases n - i,
    {
        i = i + 1;
    }
    let r = path.substring_char(i, n);
    proof {
        lemma_trimmed_skip(path@, i as int);
        assert(r@ =~= path@.skip(i as int));
    }
    r
}

/// A configured base URL, validated once at construction; request targets
/// are resolved against it.
pub struct RestBase {
    base: String,
}

impl RestBase {
    /// The configured base URL's text.
    pub closed spec fn base_spec(&self) -> Seq<char> {
        self.base@
    }

    /// Keeps `base` for later resolution; fails exactly when `base` is not
    /// a valid absolute URL.
    pub fn new(base: &str) -> (r: Result<RestBase, url::ParseError>)
        ensures
            r matches Ok(b) ==> b.base_spec() == base@,
            r is Ok <==> url_parses(base@),
    {
        match parse_url_check(base) {
            Ok(_) => Ok(RestBase { base: base.to_owned() }),
            Err(e) => Err(e),
        }
    }

    /// Resolves a relative endpoint path (any leading `/` ignored) against
    /// the configured base URL, returning the absolute request target: the
    /// resolution of the trimmed path, the same for every call and every
    /// client configured with this base.
    pub fn resolve(&self, path: &str) -> (r: Result<String, url::ParseError>)
        ensures
            r matches Ok(u) ==> Option::Some(u@) == url_resolve_of(
                self.base_spec(),
                trimmed(path@),
            ),
            r is Err <==> url_resolve_of(self.base_spec(), trimmed(path@)) is None,
    {
        resolve_text(self.base.as_str(), trim_leading_slashes(path))
    }
}

} // verus!
