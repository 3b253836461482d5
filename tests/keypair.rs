use ledger_core::keypair::{PrivateKey, VerifyError};

#[test]
fn test_keypair_sign_verify_success() {
    let private = PrivateKey::generate_key();
    let public = private.generate_public();

    let message = "Hello World".as_bytes();

    let signature = private.sign(message);

    assert!(public.verify(message, &signature.unwrap()).is_ok());
}

#[test]
fn test_keypair_sign_verify_failure() {
    let private = PrivateKey::generate_key();
    let public = private.generate_public();

    let message = "Hello World".as_bytes();

    let signature = private.sign(message);

    let other_private = PrivateKey::generate_key();
    let other_public = other_private.generate_public();

    assert!(public.verify("hello".as_bytes(), signature.as_ref().unwrap()).is_err());
    assert!(other_public.verify(message, &signature.unwrap()).is_err());
}

#[test]
fn signing_is_deterministic() {
    let private = PrivateKey::generate_key();
    let a = private.sign(b"same message").unwrap();
    let b = private.sign(b"same message").unwrap();
    assert_eq!(a.bytes, b.bytes);
    let c = private.sign(b"other message").unwrap();
    assert_ne!(a.bytes, c.bytes);
}

#[test]
fn tampered_message_is_rejected() {
    let private = PrivateKey::generate_key();
    let public = private.generate_public();
    let signature = private.sign(b"pay 10 to bob").unwrap();
    assert_eq!(
        public.verify(b"pay 99 to bob", &signature),
        Err(VerifyError::InvalidSignature)
    );
    let mut flipped = signature;
    flipped.bytes[10] ^= 1;
    assert!(public.verify(b"pay 10 to bob", &flipped).is_err());
    assert!(public.verify(b"pay 10 to bob", &signature).is_ok());
}

#[test]
fn public_key_is_compressed_point() {
    let private = PrivateKey::generate_key();
    let public = private.generate_public();
    let bytes = public.to_slice();
    assert_eq!(bytes.len(), 33);
    assert!(bytes[0] == 2 || bytes[0] == 3);
    assert_eq!(private.generate_public().key, public.key);
}

#[test]
fn address_is_tail_of_key_digest() {
    let public = PrivateKey::generate_key().generate_public();
    let address = public.address().unwrap();
    let digest = <sha2::Sha256 as sha2::Digest>::digest(public.to_slice());
    assert_eq!(&address.0[..], &digest[12..]);
    assert_eq!(address.to_string().len(), 40);
}
