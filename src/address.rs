use vstd::prelude::*;

use crate::hash::{hex_of, to_hex, LengthError};

verus! {

/// A 20-byte account identifier, derived from a public key.
#[derive(Debug, Clone, Copy, Eq)]
pub struct Address(pub [u8; 20]);

impl View for Address {
    type V = Seq<u8>;

    open spec fn view(&self) -> Seq<u8> {
        self.0@
    }
}

impl PartialEq for Address {
    fn eq(&self, o: &Address) -> (r: bool) {
        let mut i: usize = 0;
        while i < 20
            invariant
                i <= 20,
                forall|j: int| 0 <= j < i ==> self@[j] == o@[j],
            decreases 20 - i,
        {
            if self.0[i] != o.0[i] {
                return false;
            }
            i += 1;
        }
        assert(self@ =~= o@);
        true
    }
}

impl vstd::std_specs::cmp::PartialEqSpecImpl for Address {
    open spec fn obeys_eq_spec() -> bool {
        true
    }

    open spec fn eq_spec(&self, o: &Address) -> bool {
        self@ == o@
    }
}

impl Address {
    /// Lowercase hexadecimal form, 40 characters.
    pub fn to_string(&self) -> (r: String)
        ensures
            r@ == hex_of(self@),
    {
        to_hex(self.0.as_slice())
    }

    /// Builds an address from exactly 20 bytes.
    pub fn from_bytes(b: &[u8]) -> (r: Result<Address, LengthError>)
        ensures
            b@.len() == 20 <==> r is Ok,
            r matches Ok(a) ==> a@ == b@,
            r matches Err(e) ==> e == (LengthError { expected: 20, actual: b@.len() as usize }),
    {
        if b.len() != 20 {
            return Err(LengthError { expected: 20, actual: b.len() });
        }
        let mut value = [0u8; 20];
        let mut i: usize = 0;
        while i < 20
            invariant
                i <= 20,
                b@.len() == 20,
                forall|j: int| 0 <= j < i ==> value@[j] == b@[j],
            decreases 20 - i,
        {
            value[i] = b[i];
            i += 1;
        }
        assert(value@ =~= b@);
        Ok(Address(value))
    }
}

} // verus!
