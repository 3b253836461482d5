use vstd::prelude::*;

use crate::block::Header;
use crate::hash::LengthError;
use crate::hasher::Bytes;

verus! {

/// The `n` low-order bytes of `x`, least significant first.
pub open spec fn le_bytes(x: nat, n: nat) -> Seq<u8>
    decreases n,
{
    if n == 0 {
        Seq::empty()
    } else {
        seq![(x % 256) as u8] + le_bytes(x / 256, (n - 1) as nat)
    }
}

pub open spec fn le_u32(x: u32) -> Seq<u8> {
    le_bytes(x as nat, 4)
}

/// Two's complement, least significant byte first.
pub open spec fn le_i64(x: i64) -> Seq<u8> {
    le_bytes(unsigned_i64(x), 8)
}

/// `256` to the power `n`.
pub open spec fn pow256(n: nat) -> nat
    decreases n,
{
    if n == 0 {
        1
    } else {
        256 * pow256((n - 1) as nat)
    }
}

/// The value of two's complement bytes read as unsigned.
pub open spec fn unsigned_i64(x: i64) -> nat {
    if x >= 0 {
        x as nat
    } else {
        (x + 0x1_0000_0000 * 0x1_0000_0000) as nat
    }
}

pub proof fn lemma_le_bytes_len(x: nat, n: nat)
    ensures
        le_bytes(x, n).len() == n,
    decreases n,
{
    if n > 0 {
        lemma_le_bytes_len(x / 256, (n - 1) as nat);
    }
}

/// Values below `256^n` have distinct `n`-byte encodings.
pub proof fn lemma_le_bytes_injective(x: nat, y: nat, n: nat)
    requires
        x < pow256(n),
        y < pow256(n),
        le_bytes(x, n) == le_bytes(y, n),
    ensures
        x == y,
    decreases n,
{
    if n == 0 {
    } else {
        let m = (n - 1) as nat;
        lemma_le_bytes_len(x / 256, m);
        lemma_le_bytes_len(y / 256, m);
        assert(le_bytes(x, n) == seq![(x % 256) as u8] + le_bytes(x / 256, m));
        assert(le_bytes(y, n) == seq![(y % 256) as u8] + le_bytes(y / 256, m));
        assert(le_bytes(x, n)[0] == (x % 256) as u8);
        assert(le_bytes(y, n)[0] == (y % 256) as u8);
        assert(le_bytes(x, n)[0] == le_bytes(y, n)[0]);
        assert(((x % 256) as u8) as int == x % 256);
        assert(((y % 256) as u8) as int == y % 256);
        assert(x % 256 == y % 256);
        assert(le_bytes(x / 256, m) =~= le_bytes(x, n).subrange(1, n as int));
        assert(le_bytes(y / 256, m) =~= le_bytes(y, n).subrange(1, n as int));
        let p = pow256(m);
        assert(x / 256 < p) by (nonlinear_arith)
            requires
                x < 256 * p,
        ;
        assert(y / 256 < p) by (nonlinear_arith)
            requires
                y < 256 * p,
        ;
        lemma_le_bytes_injective(x / 256, y / 256, m);
        assert(x == 256 * (x / 256) + x % 256);
        assert(y == 256 * (y / 256) + y % 256);
    }
}

pub proof fn lemma_le_u32_injective(a: u32, b: u32)
    requires
        le_u32(a) == le_u32(b),
    ensures
        a == b,
{
    assert(pow256(4) == 0x1_0000_0000) by {
        assert(pow256(0) == 1);
        assert(pow256(1) == 256);
        assert(pow256(2) == 256 * 256);
        assert(pow256(3) == 256 * 256 * 256);
    }
    lemma_le_bytes_injective(a as nat, b as nat, 4);
}

pub proof fn lemma_le_i64_injective(a: i64, b: i64)
    requires
        le_i64(a) == le_i64(b),
    ensures
        a == b,
{
    assert(pow256(8) == 0x1_0000_0000 * 0x1_0000_0000) by {
        assert(pow256(0) == 1);
        assert(pow256(1) == 256);
        assert(pow256(2) == 256 * 256);
        assert(pow256(3) == 256 * 256 * 256);
        assert(pow256(4) == 256 * 256 * 256 * 256);
        assert(pow256(5) == 256 * 256 * 256 * 256 * 256);
        assert(pow256(6) == 256 * 256 * 256 * 256 * 256 * 256);
        assert(pow256(7) == 256 * 256 * 256 * 256 * 256 * 256 * 256);
    }
    assert(le_i64(a) == le_bytes(unsigned_i64(a), 8));
    assert(le_i64(b) == le_bytes(unsigned_i64(b), 8));
    lemma_le_bytes_injective(unsigned_i64(a), unsigned_i64(b), 8);
}

/// Relies on byteorder's `WriteBytesExt::write_u32::<LittleEndian>`: appends the four bytes
/// of `x`, least significant first; writing to a `Vec` does not fail.
#[verifier::external_body]
pub(crate) fn put_u32_le(out: &mut Vec<u8>, x: u32)
    ensures
        final(out)@ == old(out)@ + le_u32(x),
{
    let _ = byteorder::WriteBytesExt::write_u32::<byteorder::LittleEndian>(out, x);
}

/// Relies on byteorder's `WriteBytesExt::write_i64::<LittleEndian>`: appends the eight bytes
/// of `x` in two's complement, least significant first; writing to a `Vec` does not fail.
#[verifier::external_body]
pub(crate) fn put_i64_le(out: &mut Vec<u8>, x: i64)
    ensures
        final(out)@ == old(out)@ + le_i64(x),
{
    let _ = byteorder::WriteBytesExt::write_i64::<byteorder::LittleEndian>(out, x);
}

/// Relies on byteorder's `ReadBytesExt::read_u32::<LittleEndian>` on a slice: the value whose
/// four little-endian bytes start `b`; it fails only on a shorter slice.
#[verifier::external_body]
pub(crate) fn get_u32_le(b: &[u8]) -> (r: u32)
    requires
        b@.len() >= 4,
    ensures
        le_u32(r) == b@.take(4),
{
    let mut rd: &[u8] = b;
    byteorder::ReadBytesExt::read_u32::<byteorder::LittleEndian>(&mut rd).unwrap()
}

/// Relies on byteorder's `ReadBytesExt::read_i64::<LittleEndian>` on a slice: the value whose
/// eight little-endian two's complement bytes start `b`; it fails only on a shorter slice.
#[verifier::external_body]
pub(crate) fn get_i64_le(b: &[u8]) -> (r: i64)
    requires
        b@.len() >= 8,
    ensures
        le_i64(r) == b@.take(8),
{
    let mut rd: &[u8] = b;
    byteorder::ReadBytesExt::read_i64::<byteorder::LittleEndian>(&mut rd).unwrap()
}

/// Writes values in their canonical encodings to a growing buffer.
pub struct Encoder {
    buf: Vec<u8>,
}

pub trait Encode<T: Bytes> {
    spec fn written(&self) -> Seq<u8>;

    fn encode(&mut self, obj: &T)
        ensures
            final(self).written() == old(self).written() + obj.encoding(),
    ;
}

impl Encoder {
    pub fn new() -> (r: Encoder)
        ensures
            r.view() == Seq::<u8>::empty(),
    {
        Encoder { buf: Vec::new() }
    }

    pub closed spec fn view(&self) -> Seq<u8> {
        self.buf@
    }

    /// The bytes written so far.
    pub fn into_bytes(self) -> (r: Vec<u8>)
        ensures
            r@ == self.view(),
    {
        self.buf
    }
}

impl<T: Bytes> Encode<T> for Encoder {
    open spec fn written(&self) -> Seq<u8> {
        self.view()
    }

    fn encode(&mut self, obj: &T) {
        let mut bytes = obj.as_bytes();
        self.buf.append(&mut bytes);
    }
}

/// Reads values back from their canonical encodings, front to back.
pub struct Decoder {
    bytes: Vec<u8>,
    pos: usize,
}

impl Decoder {
    pub fn new(bytes: Vec<u8>) -> (r: Decoder)
        ensures
            r.rest() == bytes@,
    {
        let r = Decoder { bytes, pos: 0 };
        assert(r.bytes@.subrange(0, r.bytes@.len() as int) =~= r.bytes@);
        r
    }

    /// The bytes not yet read.
    pub closed spec fn rest(&self) -> Seq<u8> {
        self.bytes@.subrange(self.pos as int, self.bytes@.len() as int)
    }

    pub closed spec fn wf(&self) -> bool {
        self.pos <= self.bytes@.len()
    }

    /// Takes the next `n` bytes, if there are that many.
    fn take(&mut self, n: usize) -> (r: Option<&[u8]>)
        requires
            old(self).wf(),
        ensures
            final(self).wf(),
            r is Some <==> old(self).rest().len() >= n,
            r matches Some(b) ==> b@ == old(self).rest().take(n as int) && final(self).rest()
                == old(self).rest().skip(n as int),
            r is None ==> final(self).rest() == old(self).rest(),
    {
        if self.bytes.len() - self.pos < n {
            return None;
        }
        let start = self.pos;
        self.pos = self.pos + n;
        let r = vstd::slice::slice_subrange(self.bytes.as_slice(), start, start + n);
        assert(self.rest() =~= old(self).rest().skip(n as int));
        assert(r@ =~= old(self).rest().take(n as int));
        Some(r)
    }
}

/// Reads one value of type `T`, which must be the next thing in the input.
pub trait Decode<T: Bytes> {
    spec fn unread(&self) -> Seq<u8>;

    spec fn ready(&self) -> bool;

    /// The length of every encoding of a `T`.
    spec fn width(&self) -> nat;

    fn decode(&mut self) -> (r: Result<T, LengthError>)
        requires
            old(self).ready(),
        ensures
            final(self).ready(),
            r is Ok <==> old(self).unread().len() >= old(self).width(),
            r matches Ok(v) ==> v.encoding() + final(self).unread() == old(self).unread()
                && v.encoding().len() == old(self).width(),
            r is Err ==> final(self).unread() == old(self).unread(),
    ;
}

impl Decode<crate::hash::Hash> for Decoder {
    open spec fn unread(&self) -> Seq<u8> {
        self.rest()
    }

    open spec fn ready(&self) -> bool {
        self.wf()
    }

    open spec fn width(&self) -> nat {
        32
    }

    fn decode(&mut self) -> (r: Result<crate::hash::Hash, LengthError>) {
        let ghost before = self.rest();
        let available = self.bytes.len() - self.pos;
        match self.take(32) {
            Some(b) => {
                let h = crate::hash::Hash::decode_binary(b);
                match h {
                    Ok(v) => {
                        assert(v.encoding() + self.rest() =~= before);
                        Ok(v)
                    },
                    Err(e) => Err(e),
                }
            },
            None => Err(LengthError { expected: 32, actual: available }),
        }
    }
}

impl Decode<Header> for Decoder {
    open spec fn unread(&self) -> Seq<u8> {
        self.rest()
    }

    open spec fn ready(&self) -> bool {
        self.wf()
    }

    open spec fn width(&self) -> nat {
        80
    }

    fn decode(&mut self) -> (r: Result<Header, LengthError>) {
        let ghost before = self.rest();
        let available = self.bytes.len() - self.pos;
        let b = match self.take(80) {
            Some(b) => b,
            None => {
                return Err(LengthError { expected: 80, actual: available });
            },
        };
        let version = get_u32_le(vstd::slice::slice_subrange(b, 0, 4));
        let data = match crate::hash::Hash::decode_binary(vstd::slice::slice_subrange(b, 4, 36)) {
            Ok(h) => h,
            Err(e) => {
                return Err(e);
            },
        };
        let prev_block = match crate::hash::Hash::decode_binary(
            vstd::slice::slice_subrange(b, 36, 68),
        ) {
            Ok(h) => h,
            Err(e) => {
                return Err(e);
            },
        };
        let timestamp = get_i64_le(vstd::slice::slice_subrange(b, 68, 76));
        let height = get_u32_le(vstd::slice::slice_subrange(b, 76, 80));
        let v = Header { version, data, prev_block, timestamp, height };
        assert(v.encoding() =~= b@);
        assert(v.encoding() + self.rest() =~= before);
        Ok(v)
    }
}

/// Decoding returns what was encoded: two headers with the same canonical encoding have the
/// same field values.
pub proof fn lemma_header_encoding_injective(a: Header, b: Header)
    requires
        a.encoding() == b.encoding(),
    ensures
        a.version == b.version,
        a.data@ == b.data@,
        a.prev_block@ == b.prev_block@,
        a.timestamp == b.timestamp,
        a.height == b.height,
{
    lemma_header_parts(a);
    lemma_header_parts(b);
    lemma_le_u32_injective(a.version, b.version);
    lemma_le_i64_injective(a.timestamp, b.timestamp);
    lemma_le_u32_injective(a.height, b.height);
}

/// Where each field lies in the canonical encoding of a header.
proof fn lemma_header_parts(h: Header)
    ensures
        h.encoding().len() == 80,
        le_u32(h.version) == h.encoding().subrange(0, 4),
        h.data@ == h.encoding().subrange(4, 36),
        h.prev_block@ == h.encoding().subrange(36, 68),
        le_i64(h.timestamp) == h.encoding().subrange(68, 76),
        le_u32(h.height) == h.encoding().subrange(76, 80),
{
    lemma_le_bytes_len(h.version as nat, 4);
    lemma_le_bytes_len(unsigned_i64(h.timestamp), 8);
    lemma_le_bytes_len(h.height as nat, 4);
    let ver = le_u32(h.version);
    let dat = h.data@;
    let prev = h.prev_block@;
    let ts = le_i64(h.timestamp);
    let ht = le_u32(h.height);
    let e = h.encoding();
    assert(e == ver + dat + prev + ts + ht);
    assert(ver =~= e.subrange(0, 4));
    assert(dat =~= e.subrange(4, 36));
    assert(prev =~= e.subrange(36, 68));
    assert(ts =~= e.subrange(68, 76));
    assert(ht =~= e.subrange(76, 80));
}

} // verus!
