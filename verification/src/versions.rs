//! Semantic version texts, as the `semver` crate reads them.

use vstd::prelude::*;

verus! {

/// Whether `semver::Version::parse` accepts a text: exactly three numeric
/// components without leading zeros that fit in `u64`, then optional
/// pre-release and build metadata drawn from `0-9A-Za-z-.`.
pub uninterp spec fn semver_accepts(text: Seq<char>) -> bool;

/// Parses a text with `semver::Version::parse` and reports whether it is a
/// semantic version; the contract says only that the answer is the named
/// result for that text.
#[verifier::external_body]
pub(crate) fn semver_parses(text: &str) -> (ok: bool)
    ensures
        ok == semver_accepts(text@),
{
    semver::Version::parse(text).is_ok()
}


/// Whether, of two texts that parse as semantic versions, the first orders
/// before the second under `semver::Version`'s `Ord`: by major, minor and
/// patch numbers, then pre-release (a release after its pre-releases), then
/// build metadata.
pub uninterp spec fn semver_less(a: Seq<char>, b: Seq<char>) -> bool;

/// Compares two semantic version texts with `semver::Version`'s `<`, each
/// parsed by `semver::Version::parse`; the contract says only that the
/// answer is the named ordering of the two texts.
#[verifier::external_body]
pub(crate) fn semver_text_less(a: &str, b: &str) -> (r: bool)
    requires
        semver_accepts(a@),
        semver_accepts(b@),
    ensures
        r == semver_less(a@, b@),
{
    match (semver::Version::parse(a), semver::Version::parse(b)) {
        (Ok(x), Ok(y)) => x < y,
        _ => false,
    }
}

} // verus!
