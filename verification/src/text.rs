//! Small verified helpers on strings.
use vstd::prelude::*;

verus! {

/// Decide equality of two string slices by their character sequences.
///
/// Comparison goes through the UTF-8 byte images, which vstd specifies for
/// both slices; equal byte images give equal character sequences because
/// UTF-8 encoding is invertible.
pub fn str_eq(a: &str, b: &str) -> (r: bool)
    ensures
        r == (a@ == b@),
{
    let av = a.as_bytes_vec();
    let bv = b.as_bytes_vec();
    let r = av == bv;
    proof {
        if r {
            assert(av@ =~= bv@);
            vstd::utf8::encode_utf8_decode_utf8(a@);
            vstd::utf8::encode_utf8_decode_utf8(b@);
            assert(a@ == b@);
        } else {
            if a@ == b@ {
                assert(av@ =~= bv@);
                assert(false);
            }
        }
    }
    r
}

} // verus!
