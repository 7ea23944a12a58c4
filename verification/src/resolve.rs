//! URL resolution: a possibly-relative reference resolved against the page's
//! base URL, through trusted wrappers around the url crate.
use vstd::prelude::*;

verus! {

/// The normalized serialization of `s` when `s` parses as a standalone
/// absolute URL, and nothing otherwise. The outcome depends on `s` alone.
pub uninterp spec fn abs_url(s: Seq<char>) -> Option<Seq<char>>;

/// The serialization of `href` resolved as a reference against the absolute
/// URL that `base` parses to, when both steps succeed. The outcome depends
/// on the two inputs alone.
pub uninterp spec fn joined_url(base: Seq<char>, href: Seq<char>) -> Option<Seq<char>>;

/// The scheme prefix of a serialized URL: the characters before the first
/// `:`.
pub open spec fn scheme_of(s: Seq<char>) -> Seq<char>
    decreases s.len(),
{
    if s.len() == 0 {
        Seq::empty()
    } else if s[0] == ':' {
        Seq::empty()
    } else {
        seq![s[0]] + scheme_of(s.drop_first())
    }
}

/// Relies on url::Url::parse and url::Url::to_string: a string that parses
/// as an absolute URL is returned in its normalized serialization; the
/// outcome depends on the input alone.
#[verifier::external_body]
fn parse_absolute(href: &str) -> (r: Option<String>)
    ensures
        match r {
            Some(u) => abs_url(href@) == Some(u@),
            None => abs_url(href@) is None,
        },
{
    match url::Url::parse(href) {
        Ok(u) => Some(u.to_string()),
        Err(_) => None,
    }
}

/// Relies on url::Url::parse and url::Url::join: `href` is parsed with the
/// parsed `base` as base URL (standard URL resolution) and the result
/// serialized; the outcome depends on the two inputs alone. The join only
/// succeeds when `base` itself parses. When `href` is not itself an absolute
/// URL, a successful join keeps the base's scheme: url's parser copies the
/// scheme from the base for scheme-less references, and treats a reference
/// with the base's own special scheme as relative.
#[verifier::external_body]
fn join_with_base(base: &str, href: &str) -> (r: Option<String>)
    ensures
        match r {
            Some(u) => joined_url(base@, href@) == Some(u@),
            None => joined_url(base@, href@) is None,
        },
        r is Some ==> abs_url(base@) is Some,
        match r {
            Some(u) => abs_url(href@) is None ==> scheme_of(u@) == scheme_of(abs_url(base@)->0),
            None => true,
        },
{
    let b = match url::Url::parse(base) {
        Ok(b) => b,
        Err(_) => return None,
    };
    match b.join(href) {
        Ok(u) => Some(u.to_string()),
        Err(_) => None,
    }
}

/// What `resolve` returns: the normalized `href` itself when `href` is
/// absolute, otherwise `href` joined against `base`; nothing when neither
/// step succeeds.
pub open spec fn spec_resolve(base: Seq<char>, href: Seq<char>) -> Option<Seq<char>> {
    match abs_url(href) {
        Some(u) => Some(u),
        None => joined_url(base, href),
    }
}

/// Resolves `href` against `base`. An absolute `href` comes back normalized,
/// independent of `base`; a relative one is joined against `base`; an
/// unresolvable one yields nothing, and the caller skips that entry.
/// For a relative `href` that resolves, the result's scheme equals the
/// parsed base's scheme.
pub fn resolve(base: &str, href: &str) -> (r: Option<String>)
    ensures
        match r {
            Some(u) => spec_resolve(base@, href@) == Some(u@),
            None => spec_resolve(base@, href@) is None,
        },
        abs_url(href@) matches Some(u) ==> r matches Some(s) && s@ == u,
        match r {
            Some(u) => abs_url(href@) is None ==> abs_url(base@) is Some && scheme_of(u@)
                == scheme_of(abs_url(base@)->0),
            None => true,
        },
{
    match parse_absolute(href) {
        Some(u) => Some(u),
        None => join_with_base(base, href),
    }
}

/// Law: an absolute `href` resolves to its own normalized form, whatever the
/// base — the result does not depend on `base`.
pub proof fn lemma_resolve_absolute_base_independent(b1: Seq<char>, b2: Seq<char>, href: Seq<char>)
    requires
        abs_url(href) is Some,
    ensures
        spec_resolve(b1, href) == abs_url(href),
        spec_resolve(b1, href) == spec_resolve(b2, href),
{
}

} // verus!
