//! Trusted seam over the `bytes` crate's shared immutable buffer, plus a
//! verified byte-slice comparison.
//!
//! A [`bytes::Bytes`] value is opaque to the verifier, so its contents are
//! given a name, [`bytes_content`], and every operation the library relies on
//! is stated over that name.
use vstd::prelude::*;

verus! {

#[verifier::external_type_specification]
#[verifier::external_body]
pub struct ExBytes(bytes::Bytes);

/// The byte sequence held by a `bytes::Bytes` buffer.
pub uninterp spec fn bytes_content(b: bytes::Bytes) -> Seq<u8>;

/// Relies on `bytes::Bytes::from(Vec<u8>)`: the buffer holds exactly the
/// vector's bytes.
#[verifier::external_body]
pub(crate) fn bytes_from_vec(v: Vec<u8>) -> (r: bytes::Bytes)
    ensures
        bytes_content(r) == v@,
{
    bytes::Bytes::from(v)
}

/// Relies on `bytes::Bytes::copy_from_slice`: the slice is copied into a new
/// buffer holding exactly the slice's bytes.
#[verifier::external_body]
pub(crate) fn bytes_copy_from_slice(s: &[u8]) -> (r: bytes::Bytes)
    ensures
        bytes_content(r) == s@,
{
    bytes::Bytes::copy_from_slice(s)
}

/// Relies on `<bytes::Bytes as AsRef<[u8]>>::as_ref`: the returned slice views
/// the buffer's bytes.
#[verifier::external_body]
pub(crate) fn bytes_as_slice(b: &bytes::Bytes) -> (r: &[u8])
    ensures
        r@ == bytes_content(*b),
{
    b.as_ref()
}

/// Relies on `<bytes::Bytes as Clone>::clone`: the clone shares the backing
/// storage, so it observes the same bytes, without copying them.
#[verifier::external_body]
pub(crate) fn bytes_clone(b: &bytes::Bytes) -> (r: bytes::Bytes)
    ensures
        bytes_content(r) == bytes_content(*b),
{
    b.clone()
}

/// Compares two byte slices for content equality.
pub fn slice_eq(a: &[u8], b: &[u8]) -> (r: bool)
    ensures
        r == (a@ == b@),
{
    if a.len() != b.len() {
        return false;
    }
    let n: usize = a.len();
    let mut i: usize = 0;
    while i < n
        invariant
            n == a@.len() == b@.len(),
            0 <= i <= n,
            forall|j: int| 0 <= j < i ==> a@[j] == b@[j],
        decreases n - i,
    {
        if a[i] != b[i] {
            return false;
        }
        i += 1;
    }
    proof {
        assert(a@ =~= b@);
    }
    true
}

} // verus!
