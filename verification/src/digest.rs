//! The two outside primitives the chains are built from: the MD5 hash and the
//! standard base64 alphabet. Neither is proved here; each is given a name, and
//! everything else in the crate is stated over those names.

use vstd::prelude::*;

verus! {

/// The MD5 digest of `data`, as computed by `md5::compute`.
pub uninterp spec fn md5_digest(data: Seq<u8>) -> Seq<u8>;

/// The padded standard-alphabet base64 text of `data`, as produced by
/// `base64::encode`, taken as bytes.
pub uninterp spec fn base64_encoding(data: Seq<u8>) -> Seq<u8>;

/// Whether the base64 text of `len` bytes can be allocated: four characters
/// for every three bytes, rounded up, within the largest allocation.
pub open spec fn base64_fits(len: nat) -> bool {
    len / 3 * 4 + 4 <= isize::MAX
}

/// Calls `md5::compute`. Trusted: the sixteen bytes returned are the MD5
/// digest of `data`, a function of the bytes of `data` alone.
#[verifier::external_body]
pub(crate) fn md5_hash(data: &[u8]) -> (digest: [u8; 16])
    ensures
        digest@ == md5_digest(data@),
{
    md5::compute(data).into()
}

/// Calls `base64::encode`. Trusted: the bytes returned are the base64 text of
/// `data`, a function of the bytes of `data` alone. The outside function
/// panics when the size of the text overflows, which `requires` leaves out.
#[verifier::external_body]
pub(crate) fn base64_text(data: &[u8]) -> (text: Vec<u8>)
    requires
        base64_fits(data@.len()),
    ensures
        text@ == base64_encoding(data@),
{
    base64::encode(data).into_bytes()
}

} // verus!
