//! Comparing byte strings.

use vstd::prelude::*;

verus! {

/// Whether two byte strings are equal.
pub fn bytes_equal(a: &[u8], b: &[u8]) -> (r: bool)
    ensures
        r == (a@ == b@),
{
    if a.len() != b.len() {
        return false;
    }
    let mut i: usize = 0;
    while i < a.len()
        invariant
            i <= a@.len(),
            a@.len() == b@.len(),
            forall|j: int| 0 <= j < i ==> a@[j] == b@[j],
        decreases a@.len() - i,
    {
        if a[i] != b[i] {
            return false;
        }
        i += 1;
    }
    assert(a@ =~= b@);
    true
}

/// An optional hash is the given hash.
pub open spec fn hash_is(hash: Option<[u8; 32]>, expected: Seq<u8>) -> bool {
    hash matches Some(hash) && hash@ == expected
}

/// Whether an optional hash is the given hash.
pub fn same_hash(hash: &Option<[u8; 32]>, expected: &[u8; 32]) -> (r: bool)
    ensures
        r == hash_is(*hash, expected@),
{
    match hash {
        Some(hash) => bytes_equal(hash, expected),
        None => false,
    }
}

/// Byte strings are equal exactly if they have the same length and the same bytes. An optional
/// hash is the given one exactly if it is there and has the same bytes.
pub proof fn law_bytes_are_compared(
    a: &[u8],
    b: &[u8],
    r: bool,
    hash: Option<[u8; 32]>,
    expected: [u8; 32],
    same: bool,
)
    requires
        call_ensures(bytes_equal, (a, b), r),
        call_ensures(same_hash, (&hash, &expected), same),
    ensures
        r <==> a@.len() == b@.len() && forall|i: int|
            0 <= i < a@.len() ==> #[trigger] a@[i] == b@[i],
        same <==> hash is Some && forall|i: int|
            0 <= i < 32 ==> #[trigger] hash->0@[i] == expected@[i],
{
    if a@.len() == b@.len() && (forall|i: int| 0 <= i < a@.len() ==> #[trigger] a@[i] == b@[i]) {
        assert(a@ =~= b@);
    }
    if hash is Some && (forall|i: int| 0 <= i < 32 ==> #[trigger] hash->0@[i] == expected@[i]) {
        assert(hash->0@ =~= expected@);
    }
}

} // verus!
