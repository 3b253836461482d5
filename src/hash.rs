use vstd::prelude::*;

verus! {

/// Lowercase hexadecimal digit for a value below sixteen.
pub open spec fn hex_digit(v: u8) -> char {
    if v < 10 {
        (('0' as u8) + v) as char
    } else {
        (('a' as u8) + (v - 10)) as char
    }
}

/// Two lowercase hexadecimal digits per byte, most significant nibble first.
pub open spec fn hex_of(b: Seq<u8>) -> Seq<char> {
    Seq::new(
        2 * b.len(),
        |i: int|
            if i % 2 == 0 {
                hex_digit(b[i / 2] / 16)
            } else {
                hex_digit(b[i / 2] % 16)
            },
    )
}

/// Relies on hex::encode: two lowercase digits for each byte, in order.
#[verifier::external_body]
pub(crate) fn to_hex(b: &[u8]) -> (r: String)
    ensures
        r@ == hex_of(b@),
{
    hex::encode(b)
}

/// A byte string of the wrong length was given where a fixed width is required.
#[derive(Debug, Clone, Copy, PartialEq, Eq, Structural)]
pub struct LengthError {
    pub expected: usize,
    pub actual: usize,
}

/// A 32-byte digest. The all-zero value stands for "not yet computed".
#[derive(Debug, Clone, Copy, Eq)]
pub struct Hash(pub [u8; 32]);

/// Byte-wise comparison of two equally long byte strings.
fn bytes_equal(a: &[u8], b: &[u8]) -> (r: bool)
    requires
        a@.len() == b@.len(),
    ensures
        r == (a@ == b@),
{
    let mut i: usize = 0;
    while i < a.len()
        invariant
            i <= a@.len() == b@.len(),
            forall|j: int| 0 <= j < i ==> a@[j] == b@[j],
        decreases a@.len() - i,
    {
        if a[i] != b[i] {
            return false;
        }
        i += 1;
    }
    assert(a@ =~= b@);
    true
}

impl PartialEq for Hash {
    fn eq(&self, o: &Hash) -> (r: bool) {
        bytes_equal(self.0.as_slice(), o.0.as_slice())
    }
}

impl vstd::std_specs::cmp::PartialEqSpecImpl for Hash {
    open spec fn obeys_eq_spec() -> bool {
        true
    }

    open spec fn eq_spec(&self, o: &Hash) -> bool {
        self@ == o@
    }
}

impl View for Hash {
    type V = Seq<u8>;

    open spec fn view(&self) -> Seq<u8> {
        self.0@
    }
}

pub open spec fn all_zero(s: Seq<u8>) -> bool {
    forall|i: int| 0 <= i < s.len() ==> s[i] == 0
}

impl Hash {
    /// The all-zero hash.
    pub fn default() -> (r: Hash)
        ensures
            r@ == Seq::new(32, |i: int| 0u8),
    {
        let r = Hash([0u8; 32]);
        assert(r@ =~= Seq::new(32, |i: int| 0u8));
        r
    }

    pub fn is_zero(&self) -> (r: bool)
        ensures
            r == all_zero(self@),
    {
        let mut i: usize = 0;
        while i < 32
            invariant
                i <= 32,
                forall|j: int| 0 <= j < i ==> self@[j] == 0,
            decreases 32 - i,
        {
            if self.0[i] != 0 {
                return false;
            }
            i += 1;
        }
        true
    }

    pub fn to_vec(&self) -> (r: Vec<u8>)
        ensures
            r@ == self@,
    {
        let mut v: Vec<u8> = Vec::new();
        self.encode_binary(&mut v);
        v
    }

    /// Appends the 32 bytes of the hash to `writer`.
    pub fn encode_binary(&self, writer: &mut Vec<u8>)
        ensures
            final(writer)@ == old(writer)@ + self@,
    {
        let mut i: usize = 0;
        while i < 32
            invariant
                i <= 32,
                writer@ == old(writer)@ + self@.take(i as int),
            decreases 32 - i,
        {
            writer.push(self.0[i]);
            i += 1;
            assert(writer@ =~= old(writer)@ + self@.take(i as int));
        }
        assert(self@.take(32) =~= self@);
    }

    /// Reads a hash from the first 32 bytes of `reader`.
    pub fn decode_binary(reader: &[u8]) -> (r: Result<Hash, LengthError>)
        ensures
            reader@.len() >= 32 <==> r is Ok,
            r matches Ok(h) ==> h@ == reader@.take(32),
            r matches Err(e) ==> e == (LengthError { expected: 32, actual: reader@.len() as usize }),
    {
        if reader.len() < 32 {
            return Err(LengthError { expected: 32, actual: reader.len() });
        }
        let mut value = [0u8; 32];
        let mut i: usize = 0;
        while i < 32
            invariant
                i <= 32,
                reader@.len() >= 32,
                forall|j: int| 0 <= j < i ==> value@[j] == reader@[j],
            decreases 32 - i,
        {
            value[i] = reader[i];
            i += 1;
        }
        assert(value@ =~= reader@.take(32));
        Ok(Hash(value))
    }

    /// Builds a hash from exactly 32 bytes.
    pub fn from_bytes(b: &[u8]) -> (r: Result<Hash, LengthError>)
        ensures
            b@.len() == 32 <==> r is Ok,
            r matches Ok(h) ==> h@ == b@,
            r matches Err(e) ==> e == (LengthError { expected: 32, actual: b@.len() as usize }),
    {
        if b.len() != 32 {
            return Err(LengthError { expected: 32, actual: b.len() });
        }
        let r = Hash::decode_binary(b);
        assert(b@.take(32) =~= b@);
        r
    }

    /// Lowercase hexadecimal form, 64 characters.
    pub fn to_string(&self) -> (r: String)
        ensures
            r@ == hex_of(self@),
    {
        to_hex(self.0.as_slice())
    }

    /// A hash of 32 random bytes.
    pub fn random() -> (r: Hash) {
        Hash(rand::random::<[u8; 32]>())
    }
}

/// Relies on rand::random: a value drawn from the thread-local generator; nothing is promised of it.
pub assume_specification<T>[ rand::random::<T> ]() -> (r: T)
    where
        rand::distributions::Standard: rand::distributions::Distribution<T>,
;

} // verus!
