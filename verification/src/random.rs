//! Random text.

use rand::distr::SampleString;
use vstd::prelude::*;

verus! {

/// The character is an ASCII letter or digit.
pub open spec fn is_alphanumeric(c: char) -> bool {
    'a' <= c <= 'z' || 'A' <= c <= 'Z' || '0' <= c <= '9'
}

/// Trusted: `rand::distr::Alphanumeric` samples a text of the given length that consists of
/// ASCII letters and digits. Which ones is left to chance.
#[verifier::external_body]
pub(crate) fn random_text(len: usize) -> (s: String)
    ensures
        s@.len() == len,
        forall|i: int| 0 <= i < len ==> is_alphanumeric(#[trigger] s@[i]),
{
    rand::distr::Alphanumeric.sample_string(&mut rand::rng(), len)
}

} // verus!
