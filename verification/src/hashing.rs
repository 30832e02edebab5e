//! Content hashing: identity strings derived from entity fields.
//!
//! Project, folder and sub-folder identities are the hex digest of the
//! concatenation of two fields. The digest itself is computed by an
//! outside crate; its value is named, not restated.

use vstd::prelude::*;
use vstd::string::StringExecFns;

verus! {

/// The hex digest that `sha256::digest` returns for a string with the
/// given characters. The digest depends on the characters alone, so the
/// result is named rather than spelled out; no contract of this crate
/// says what it is on given values.
pub uninterp spec fn sha256_hex_of(s: Seq<char>) -> Seq<char>;

/// The identity derived from two fields: the digest of their
/// concatenation, first field first.
pub open spec fn content_hash(a: Seq<char>, b: Seq<char>) -> Seq<char> {
    sha256_hex_of(a + b)
}

/// Relies on `sha256::digest` for `&str`: the hex digest of the
/// argument's UTF-8 bytes, a function of its characters alone.
#[verifier::external_body]
pub(crate) fn digest_str(s: &str) -> (r: String)
    ensures
        r@ == sha256_hex_of(s@),
{
    sha256::digest(s)
}

/// Derive the identity of an entity from two of its fields.
pub(crate) fn hash_pair(a: &String, b: &String) -> (r: String)
    ensures
        r@ == content_hash(a@, b@),
{
    let mut joined = a.clone();
    joined.append(b.as_str());
    digest_str(joined.as_str())
}

} // verus!
