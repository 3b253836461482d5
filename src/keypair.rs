use vstd::prelude::*;

use crate::address::Address;
use crate::hash::LengthError;
use crate::hasher::{sha256, sha256_of};

verus! {

/// Big-endian value of a byte string.
pub open spec fn be_value(s: Seq<u8>) -> nat
    decreases s.len(),
{
    if s.len() == 0 {
        0
    } else {
        be_value(s.drop_last()) * 256 + s.last() as nat
    }
}

/// The order of the NIST P-256 group.
pub open spec fn p256_order() -> nat {
    let w: nat = 0xffff_ffff_ffff_ffff + 1;
    ((0xffff_ffff_0000_0000 * w + 0xffff_ffff_ffff_ffff) * w + 0xbce6_faad_a717_9e84) * w
        + 0xf3b9_cac2_fc63_2551
}

/// A secret scalar: 32 big-endian bytes encoding a value in `1..n`.
pub open spec fn scalar_in_range(s: Seq<u8>) -> bool {
    &&& s.len() == 32
    &&& 0 < be_value(s) < p256_order()
}

/// The compressed SEC1 encoding of the public point of a secret scalar.
pub uninterp spec fn public_point_of(secret: Seq<u8>) -> Seq<u8>;

/// The deterministic (RFC 6979) ECDSA signature, as `r || s`, of a message under a secret scalar.
pub uninterp spec fn signature_of(secret: Seq<u8>, message: Seq<u8>) -> Seq<u8>;

/// Whether deterministic signing of a message under a secret scalar yields a signature (it
/// fails only where the RFC 6979 nonce gives `r = 0` or `s = 0`).
pub uninterp spec fn signing_succeeds(secret: Seq<u8>, message: Seq<u8>) -> bool;

/// Whether a signature `r || s` over a message checks out under a SEC1-encoded public key.
pub uninterp spec fn signature_valid(public: Seq<u8>, message: Seq<u8>, sig: Seq<u8>) -> bool;

/// Relies on p256::SecretKey::random with the operating system's generator: the scalar it
/// draws is non-zero and below the group order, and `to_bytes` writes it big-endian.
#[verifier::external_body]
fn random_scalar() -> (r: [u8; 32])
    ensures
        scalar_in_range(r@),
{
    p256::SecretKey::random(&mut p256::elliptic_curve::rand_core::OsRng).to_bytes().into()
}

/// Relies on p256::SecretKey::public_key and EncodedPoint in compressed form: the public point
/// of a valid scalar, 33 bytes.
#[verifier::external_body]
fn derive_public_point(secret: &[u8; 32]) -> (r: [u8; 33])
    requires
        scalar_in_range(secret@),
    ensures
        r@ == public_point_of(secret@),
{
    let key = p256::SecretKey::from_bytes(&(*secret).into()).unwrap();
    let point = p256::elliptic_curve::sec1::ToEncodedPoint::to_encoded_point(&key.public_key(), true);
    point.as_bytes().try_into().unwrap()
}

/// Relies on ecdsa's `Signer::try_sign` for p256::ecdsa::SigningKey: a deterministic RFC 6979
/// signature over the SHA-256 digest of `message`, so whether it succeeds and what it returns
/// depend on the scalar and the message alone; a signature so made verifies under the public
/// point of the same scalar.
#[verifier::external_body]
fn sign_message(secret: &[u8; 32], message: &[u8]) -> (r: Option<[u8; 64]>)
    requires
        scalar_in_range(secret@),
    ensures
        r is Some <==> signing_succeeds(secret@, message@),
        r matches Some(s) ==> s@ == signature_of(secret@, message@),
        r matches Some(s) ==> signature_valid(public_point_of(secret@), message@, s@),
{
    let key = p256::ecdsa::SigningKey::from_bytes(&(*secret).into()).unwrap();
    match p256::ecdsa::signature::Signer::<p256::ecdsa::Signature>::try_sign(&key, message) {
        Ok(s) => Some(s.to_bytes().into()),
        Err(_) => None,
    }
}

/// Relies on p256::ecdsa::VerifyingKey::from_sec1_bytes, Signature::from_bytes and
/// `Verifier::verify`: true when the key and the signature parse and the signature checks out.
#[verifier::external_body]
fn verify_message(public: &[u8; 33], message: &[u8], sig: &[u8; 64]) -> (r: bool)
    ensures
        r == signature_valid(public@, message@, sig@),
{
    let Ok(key) = p256::ecdsa::VerifyingKey::from_sec1_bytes(public) else { return false };
    let Ok(s) = p256::ecdsa::Signature::from_bytes(&(*sig).into()) else { return false };
    p256::ecdsa::signature::Verifier::verify(&key, message, &s).is_ok()
}

/// Why a signature was not accepted.
#[derive(Debug, Clone, Copy, PartialEq, Eq, Structural)]
pub enum VerifyError {
    /// No signature, or no key to check it against.
    MissingSignature,
    /// The signature does not match the key and the signed bytes.
    InvalidSignature,
    /// The transaction at this position of a block does not verify.
    InvalidTransaction { index: usize },
}

/// Signing did not produce a signature.
#[derive(Debug, Clone, Copy, PartialEq, Eq, Structural)]
pub struct SignError {}

/// An ECDSA signature over P-256, `r || s` big-endian.
#[derive(Debug, Clone, Copy)]
pub struct Signature {
    pub bytes: [u8; 64],
}

impl View for Signature {
    type V = Seq<u8>;

    open spec fn view(&self) -> Seq<u8> {
        self.bytes@
    }
}

/// A P-256 public key in compressed SEC1 form.
#[derive(Debug, Clone, Copy)]
pub struct PublicKey {
    pub key: [u8; 33],
}

impl View for PublicKey {
    type V = Seq<u8>;

    open spec fn view(&self) -> Seq<u8> {
        self.key@
    }
}

/// A P-256 secret scalar, always in range.
#[derive(Debug)]
pub struct PrivateKey {
    key: [u8; 32],
}

impl Clone for PrivateKey {
    fn clone(&self) -> (r: PrivateKey) {
        proof {
            use_type_invariant(self);
        }
        PrivateKey { key: self.key }
    }
}

impl PrivateKey {
    #[verifier::type_invariant]
    spec fn inv(&self) -> bool {
        scalar_in_range(self.key@)
    }

    pub closed spec fn secret(&self) -> Seq<u8> {
        self.key@
    }

    /// A fresh key from the operating system's secure generator.
    pub fn generate_key() -> (r: PrivateKey)
        ensures
            scalar_in_range(r.secret()),
    {
        PrivateKey { key: random_scalar() }
    }

    /// Signs `message`; the signature is a function of the key and the message.
    pub fn sign(&self, message: &[u8]) -> (r: Result<Signature, SignError>)
        ensures
            r is Ok <==> signing_succeeds(self.secret(), message@),
            r matches Ok(s) ==> s@ == signature_of(self.secret(), message@),
            r matches Ok(s) ==> signature_valid(public_point_of(self.secret()), message@, s@),
    {
        proof {
            use_type_invariant(self);
        }
        match sign_message(&self.key, message) {
            Some(bytes) => Ok(Signature { bytes }),
            None => Err(SignError {}),
        }
    }

    pub fn generate_public(&self) -> (r: PublicKey)
        ensures
            r@ == public_point_of(self.secret()),
    {
        proof {
            use_type_invariant(self);
        }
        PublicKey { key: derive_public_point(&self.key) }
    }
}

/// The address of a public-key encoding: the last 20 bytes of its SHA-256 digest.
pub open spec fn address_of(public: Seq<u8>) -> Seq<u8> {
    sha256_of(public).subrange(12, 32)
}

impl PublicKey {
    /// The canonical encoding of the key.
    pub fn to_slice(&self) -> (r: Vec<u8>)
        ensures
            r@ == self@,
    {
        let mut v: Vec<u8> = Vec::new();
        let mut i: usize = 0;
        while i < 33
            invariant
                i <= 33,
                v@ == self@.take(i as int),
            decreases 33 - i,
        {
            v.push(self.key[i]);
            i += 1;
            assert(v@ =~= self@.take(i as int));
        }
        assert(self@.take(33) =~= self@);
        v
    }

    pub fn address(&self) -> (r: Result<Address, LengthError>)
        ensures
            r matches Ok(a) && a@ == address_of(self@),
    {
        let bytes = self.to_slice();
        let digest = sha256(bytes.as_slice());
        let tail = vstd::slice::slice_subrange(digest.as_slice(), 12, 32);
        Address::from_bytes(tail)
    }

    /// Checks `signature` over `message` against this key.
    pub fn verify(&self, message: &[u8], signature: &Signature) -> (r: Result<(), VerifyError>)
        ensures
            r == if signature_valid(self@, message@, signature@) {
                Ok(())
            } else {
                Err(VerifyError::InvalidSignature)
            },
    {
        if verify_message(&self.key, message, &signature.bytes) {
            Ok(())
        } else {
            Err(VerifyError::InvalidSignature)
        }
    }
}

} // verus!
