//! Trusted access to the `url` crate.
//!
//! The scanner protocol needs two URL operations: parsing the job location
//! that the scanner hands back in its `Location` header, and resolving the
//! relative `NextDocument` reference against that location. Both are pure
//! functions of their string arguments; their results are named by
//! uninterpreted spec functions, and the rest of the library is verified
//! against those names.

use vstd::prelude::*;

verus! {

/// What `url::Url::parse` returns for a string: the serialized form of the
/// parsed absolute URL, or nothing when the string does not parse as one.
pub uninterp spec fn url_parse(s: Seq<char>) -> Option<Seq<char>>;

/// What resolving a relative reference against an absolute base URL returns:
/// the serialized form of the resolved URL, or nothing when either the base
/// does not parse as an absolute URL or the resolution fails.
pub uninterp spec fn url_join(base: Seq<char>, rel: Seq<char>) -> Option<Seq<char>>;

/// Relies on `url::Url::parse`: whether a string parses as an absolute URL,
/// and the serialized form of the result, depend on the string alone.
#[verifier::external_body]
pub(crate) fn parse_url(s: &str) -> (r: Option<String>)
    ensures
        match r {
            Some(t) => url_parse(s@) == Some(t@),
            None => url_parse(s@) is None,
        },
{
    match url::Url::parse(s) {
        Ok(u) => Some(u.as_str().to_string()),
        Err(_) => None,
    }
}

/// Relies on `url::Url::parse` and `url::Url::join`: resolving a relative
/// reference against an absolute base URL depends on the two strings alone.
#[verifier::external_body]
pub(crate) fn join_url(base: &str, rel: &str) -> (r: Option<String>)
    ensures
        match r {
            Some(t) => url_join(base@, rel@) == Some(t@),
            None => url_join(base@, rel@) is None,
        },
{
    match url::Url::parse(base) {
        Ok(u) => match u.join(rel) {
            Ok(j) => Some(j.as_str().to_string()),
            Err(_) => None,
        },
        Err(_) => None,
    }
}

} // verus!
