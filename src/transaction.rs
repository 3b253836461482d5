use vstd::prelude::*;

use crate::hasher::{sha256_of, Bytes, Hasher};
use crate::keypair::{
    public_point_of, signature_of, signature_valid, signing_succeeds, PrivateKey, PublicKey, SignError, Signature,
    VerifyError,
};

verus! {

/// A signed payload. Its identity hash is the digest of the payload alone, so re-signing
/// does not change the key under which a pool holds it.
#[derive(Debug, Clone)]
pub struct Transaction {
    pub data: Vec<u8>,
    pub key: Option<PublicKey>,
    pub signature: Option<Signature>,
    /// Memoized identity hash.
    pub hash: Option<crate::hash::Hash>,
    /// Arrival mark, used to order a pool's contents.
    pub seen: Option<i64>,
}

/// The value of a transaction, with the payload as a sequence.
pub ghost struct TransactionView {
    pub data: Seq<u8>,
    pub key: Option<PublicKey>,
    pub signature: Option<Signature>,
    pub hash: Option<crate::hash::Hash>,
    pub seen: Option<i64>,
}

impl View for Transaction {
    type V = TransactionView;

    open spec fn view(&self) -> TransactionView {
        TransactionView {
            data: self.data@,
            key: self.key,
            signature: self.signature,
            hash: self.hash,
            seen: self.seen,
        }
    }
}

/// The outcome of checking a transaction's signature over its payload.
pub open spec fn tx_verification(t: TransactionView) -> Result<(), VerifyError> {
    match (t.key, t.signature) {
        (Some(k), Some(s)) => if signature_valid(k@, t.data, s@) {
            Ok(())
        } else {
            Err(VerifyError::InvalidSignature)
        },
        _ => Err(VerifyError::MissingSignature),
    }
}

impl Bytes for Transaction {
    open spec fn encoding(&self) -> Seq<u8> {
        self.data@
    }

    fn as_bytes(&self) -> (r: Vec<u8>) {
        self.data.clone()
    }
}

impl Transaction {
    pub fn new(data: Vec<u8>) -> (r: Result<Transaction, ()>)
        ensures
            r matches Ok(t) && t@ == (TransactionView {
                data: data@,
                key: None,
                signature: None,
                hash: None,
                seen: None,
            }),
    {
        Ok(Transaction { data, key: None, signature: None, hash: None, seen: None })
    }

    /// A copy with the same value.
    pub fn copy(&self) -> (r: Transaction)
        ensures
            r@ == self@,
    {
        Transaction {
            data: self.data.clone(),
            key: self.key,
            signature: self.signature,
            hash: self.hash,
            seen: self.seen,
        }
    }

    /// Signs the payload, replacing any earlier signature and key; on failure nothing changes.
    pub fn sign(&mut self, private_key: &PrivateKey) -> (r: Result<(), SignError>)
        ensures
            r is Ok <==> signing_succeeds(private_key.secret(), old(self).data@),
            r is Err ==> final(self)@ == old(self)@,
            r is Ok ==> final(self)@ == (TransactionView {
                key: final(self).key,
                signature: final(self).signature,
                ..old(self)@
            }),
            r is Ok ==> (final(self).signature matches Some(s) && s@ == signature_of(
                private_key.secret(),
                old(self).data@,
            )),
            r is Ok ==> (final(self).key matches Some(k) && k@ == public_point_of(
                private_key.secret(),
            )),
            r is Ok ==> tx_verification(final(self)@) is Ok,
    {
        match private_key.sign(self.data.as_slice()) {
            Ok(s) => {
                self.signature = Some(s);
                self.key = Some(private_key.generate_public());
                Ok(())
            },
            Err(e) => Err(e),
        }
    }

    pub fn verify(&self) -> (r: Result<(), VerifyError>)
        ensures
            r == tx_verification(self@),
    {
        match (self.key, self.signature) {
            (Some(k), Some(s)) => k.verify(self.data.as_slice(), &s),
            _ => Err(VerifyError::MissingSignature),
        }
    }

    /// The identity hash: computed from the payload on the first call, then returned from
    /// the memo unchanged.
    pub fn hash(&mut self, hasher: Hasher) -> (r: crate::hash::Hash)
        ensures
            old(self).hash matches Some(h) ==> r == h && final(self)@ == old(self)@,
            old(self).hash is None ==> r@ == sha256_of(old(self).data@) && final(self)@ == (
            TransactionView { hash: Some(r), ..old(self)@ }),
    {
        match self.hash {
            Some(h) => h,
            None => {
                let h = hasher.hash(&*self).unwrap();
                self.hash = Some(h);
                h
            },
        }
    }

    /// Records the arrival mark; the last call wins.
    pub fn set_seen(&mut self, seen: i64)
        ensures
            final(self)@ == (TransactionView { seen: Some(seen), ..old(self)@ }),
    {
        self.seen = Some(seen);
    }

    pub fn seen(&self) -> (r: Option<i64>)
        ensures
            r == self.seen,
    {
        self.seen
    }
}

} // verus!
