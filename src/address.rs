//! Absolute URLs.

use vstd::prelude::*;

verus! {

/// The serialization of `s` as an absolute URL, or `None` where `s` is not one.
pub uninterp spec fn parsed_url(s: Seq<char>) -> Option<Seq<char>>;

/// Relies on `url::Url::parse` and `From<Url> for String`: the serialization
/// of the parsed URL, or `None` on a parse error. The result depends on the
/// characters of `s` alone.
#[verifier::external_body]
pub(crate) fn parse_url(s: &str) -> (r: Option<String>)
    ensures
        match r {
            Some(v) => parsed_url(s@) == Some(v@),
            None => parsed_url(s@) is None,
        },
{
    match url::Url::parse(s) {
        Ok(u) => Some(String::from(u)),
        Err(_) => None,
    }
}

} // verus!
