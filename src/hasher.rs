use vstd::prelude::*;

use crate::hash::LengthError;

verus! {

/// The SHA-256 digest of a byte string.
pub uninterp spec fn sha256_of(data: Seq<u8>) -> Seq<u8>;

/// Relies on sha2::Sha256::digest: the 32-byte SHA-256 digest of `data`, which depends on
/// the bytes alone.
#[verifier::external_body]
pub(crate) fn sha256(data: &[u8]) -> (r: [u8; 32])
    ensures
        r@ == sha256_of(data@),
{
    <sha2::Sha256 as sha2::Digest>::digest(data).into()
}

/// A value with a canonical byte encoding, the pre-image of its identity hash.
pub trait Bytes {
    spec fn encoding(&self) -> Seq<u8>;

    fn as_bytes(&self) -> (r: Vec<u8>)
        ensures
            r@ == self.encoding(),
    ;
}

impl Bytes for crate::hash::Hash {
    open spec fn encoding(&self) -> Seq<u8> {
        self@
    }

    fn as_bytes(&self) -> (r: Vec<u8>) {
        self.to_vec()
    }
}

/// Computes identity hashes: SHA-256 over the canonical encoding.
pub struct Hasher {}

impl Hasher {
    pub fn new() -> Hasher {
        Hasher {}
    }

    pub fn hash<B: Bytes>(&self, obj: &B) -> (r: Result<crate::hash::Hash, LengthError>)
        ensures
            r matches Ok(h) && h@ == sha256_of(obj.encoding()),
    {
        let bytes = obj.as_bytes();
        let digest = sha256(bytes.as_slice());
        crate::hash::Hash::from_bytes(digest.as_slice())
    }
}

} // verus!
