//! Fixed-length byte comparison and end-relative indexing.

use vstd::prelude::*;

verus! {

/// Position at which a possibly negative index lands in a sequence of
/// `len` items: a negative index counts back from the end.
pub open spec fn wrapped_position(len: int, index: int) -> int {
    if index >= 0 {
        index
    } else {
        index + len
    }
}

/// Resolves an index that may count back from the end of a sequence of
/// `len` items. The resolved position must be representable; it is not
/// checked against `len` from above.
pub fn wrapped_index(len: usize, index: i128) -> (position: usize)
    requires
        0 <= wrapped_position(len as int, index as int) <= usize::MAX,
    ensures
        position == wrapped_position(len as int, index as int),
{
    if index >= 0 {
        index as usize
    } else {
        (index + len as i128) as usize
    }
}

/// Whether two byte strings of the same fixed length hold the same bytes.
///
/// Every position is visited whatever the contents, so the time taken does
/// not tell where the first difference lies.
pub fn bytes_equal<const N: usize>(left: &[u8; N], right: &[u8; N]) -> (same: bool)
    ensures
        same == (left@ == right@),
{
    let mut difference: u8 = 0;
    let mut i: usize = 0;
    while i < N
        invariant
            i <= N,
            (difference == 0) <==> (forall|j: int| 0 <= j < i ==> left@[j] == right@[j]),
        decreases N - i,
    {
        let l: u8 = left[i];
        let r: u8 = right[i];
        let here: u8 = l ^ r;
        proof {
            assert((l ^ r == 0) <==> l == r) by (bit_vector);
            let d: u8 = difference;
            assert((d | here == 0) <==> (d == 0 && here == 0)) by (bit_vector);
        }
        difference = difference | here;
        i += 1;
    }
    proof {
        if difference == 0 {
            assert(left@ =~= right@);
        }
    }
    difference == 0
}

} // verus!
