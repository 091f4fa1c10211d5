//! Comparison of octet strings in time that depends on their length alone.

use vstd::prelude::*;

verus! {

/// The accumulator stays zero exactly as long as every pair of octets agreed.
proof fn lemma_accumulate(acc: u8, x: u8, y: u8)
    ensures
        (acc | (x ^ y)) == 0 <==> (acc == 0 && x == y),
{
    assert((acc | (x ^ y)) == 0 <==> (acc == 0 && x == y)) by (bit_vector);
}

/// Tells whether `left` and `right` hold the same octets.
///
/// Two strings of one length are read to their end whatever they hold: the
/// differences are gathered, never acted on before the last octet. Only a
/// difference in length is answered at once.
pub fn constant_time_eq(left: &[u8], right: &[u8]) -> (same: bool)
    ensures
        same == (left@ == right@),
{
    if left.len() != right.len() {
        return false;
    }
    let mut acc: u8 = 0;
    let mut i: usize = 0;
    while i < left.len()
        invariant
            left.len() == right.len(),
            i <= left.len(),
            acc == 0 <==> (forall|j: int| 0 <= j < i ==> left[j] == right[j]),
        decreases left.len() - i,
    {
        proof {
            lemma_accumulate(acc, left[i as int], right[i as int]);
        }
        acc = acc | (left[i] ^ right[i]);
        i += 1;
    }
    assert(acc == 0 <==> left@ =~= right@);
    acc == 0
}

} // verus!
