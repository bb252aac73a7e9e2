//! Constant-time comparison of authentication tokens.
use vstd::prelude::*;
use vstd::string::StringSliceAdditionalSpecFns;

verus! {

broadcast use vstd::utf8::encode_utf8_decode_utf8;

/// Relies on subtle's `ConstantTimeEq` for byte slices: the returned choice
/// is set exactly when both slices hold the same bytes; for slices of one
/// length it inspects every byte whatever their contents.
#[verifier::external_body]
fn bytes_ct_eq(a: &[u8], b: &[u8]) -> (r: bool)
    ensures
        r == (a@ == b@),
{
    subtle::ConstantTimeEq::ct_eq(a, b).into()
}

/// Compares two tokens without a data-dependent early exit: strings of
/// different byte lengths are unequal at once; strings of one length are
/// compared byte by byte in time independent of where they differ.
pub fn ct_eq(a: &str, b: &str) -> (r: bool)
    ensures
        r == (a@ == b@),
{
    if a.len() != b.len() {
        return false;
    }
    let r = bytes_ct_eq(a.as_bytes(), b.as_bytes());
    proof {
        assert(vstd::utf8::decode_utf8(a.spec_bytes()) == a@);
        assert(vstd::utf8::decode_utf8(b.spec_bytes()) == b@);
    }
    r
}

} // verus!
