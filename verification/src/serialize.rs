//! Byte-exact serialization for plain kernel ABI structures.
//!
//! A structure whose fields are plain integers (or nested structures of
//! such) has one portable byte image: each field rendered in little-endian
//! order at its ABI offset, with no versioning and no compression.  The
//! [`ByteRepr`] trait ties a type to that image: `repr` gives the image of a
//! value, `spec_from_bytes` reads a value back, and the proof obligations
//! make the two inverse to each other, which yields the round-trip guarantee
//! `serialize(deserialize(serialize(x))) == serialize(x)`.
//!
//! Only bit-pattern well-formedness is checked when reading: a buffer of the
//! wrong length is rejected with a format error, and no semantic validation
//! of field values is attempted.

use vstd::prelude::*;
use vstd::bytes::*;
use vstd::slice::slice_subrange;

verus! {

/// Error returned when a byte buffer cannot be read back as a structure.
#[derive(Clone, Copy, Debug, PartialEq, Eq, Structural)]
pub enum FormatError {
    /// The input length does not match the expected structure size.
    SizeMismatch,
    /// A count recorded inside the structure does not fit the supplied
    /// buffer or the declared maximum.
    CountMismatch,
}

/// A type with a byte-exact, fixed-size ABI image.
///
/// Every bit pattern of the right length is a valid image, so reading is
/// total, and reading is the exact inverse of writing.
pub trait ByteRepr: Sized {
    /// The size of the image in bytes.
    spec fn spec_size() -> nat;

    /// The byte image of a value.
    spec fn repr(&self) -> Seq<u8>;

    /// The value read back from a byte image.
    spec fn spec_from_bytes(b: Seq<u8>) -> Self;

    /// The image always has the declared size.
    proof fn lemma_repr_len(&self)
        ensures
            self.repr().len() == Self::spec_size(),
    ;

    /// Reading the image of a value gives the value back.
    proof fn lemma_from_repr(&self)
        ensures
            Self::spec_from_bytes(self.repr()) == *self,
    ;

    /// The size of the image in bytes, as a value.
    fn byte_size() -> (r: usize)
        ensures
            r == Self::spec_size(),
    ;

    /// Append the image of `self` to `out`.
    fn write_bytes(&self, out: &mut Vec<u8>)
        ensures
            final(out)@ == old(out)@ + self.repr(),
    ;

    /// Read a value from `buf` at `offset`; the bytes read are exactly the
    /// image of the value returned.
    fn read_bytes(buf: &[u8], offset: usize) -> (r: Self)
        requires
            offset + Self::spec_size() <= buf@.len(),
        ensures
            r == Self::spec_from_bytes(
                buf@.subrange(offset as int, offset + Self::spec_size()),
            ),
            r.repr() == buf@.subrange(offset as int, offset + Self::spec_size()),
    ;
}

/// Serialize a structure to its flat byte image.
pub fn serialize<T: ByteRepr>(x: &T) -> (r: Vec<u8>)
    ensures
        r@ == x.repr(),
{
    let mut out: Vec<u8> = Vec::new();
    x.write_bytes(&mut out);
    out
}

/// Reconstruct a structure from its flat byte image.
///
/// Fails with a format error if and only if the input length does not match
/// the structure's size; no other validation is performed, since every bit
/// pattern of the right length is a valid image.
pub fn deserialize<T: ByteRepr>(bytes: &[u8]) -> (r: Result<T, FormatError>)
    ensures
        bytes@.len() == T::spec_size() ==> r == Ok::<T, FormatError>(
            T::spec_from_bytes(bytes@),
        ),
        bytes@.len() != T::spec_size() ==> r == Err::<T, FormatError>(FormatError::SizeMismatch),
{
    if bytes.len() != T::byte_size() {
        return Err(FormatError::SizeMismatch);
    }
    let x = T::read_bytes(bytes, 0);
    proof {
        assert(bytes@.subrange(0, T::spec_size() as int) =~= bytes@);
    }
    Ok(x)
}

/// Round trip: the value read back from a serialized image has the same
/// image, so serializing it again yields byte-identical output.
pub proof fn lemma_round_trip<T: ByteRepr>(x: &T)
    ensures
        T::spec_from_bytes(x.repr()) == *x,
        T::spec_from_bytes(x.repr()).repr() == x.repr(),
{
    x.lemma_from_repr();
}

/// The byte image of a sequence of entries: each entry's image, in order.
pub open spec fn seq_bytes<E: ByteRepr>(s: Seq<E>) -> Seq<u8>
    decreases s.len(),
{
    if s.len() == 0 {
        Seq::empty()
    } else {
        seq_bytes(s.drop_last()) + s.last().repr()
    }
}

/// The image of `n` entries is `n` times the entry size long.
pub proof fn lemma_seq_bytes_len<E: ByteRepr>(s: Seq<E>)
    ensures
        seq_bytes(s).len() == s.len() * E::spec_size(),
    decreases s.len(),
{
    if s.len() == 0 {
    } else {
        lemma_seq_bytes_len(s.drop_last());
        s.last().lemma_repr_len();
        assert((s.len() - 1) * E::spec_size() + E::spec_size() == s.len() * E::spec_size())
            by (nonlinear_arith);
    }
}

/// Within the image of a sequence, entry `i` occupies exactly the `i`-th
/// entry-sized block.
pub proof fn lemma_seq_bytes_index<E: ByteRepr>(s: Seq<E>, i: int)
    requires
        0 <= i < s.len(),
    ensures
        0 <= i * E::spec_size(),
        (i + 1) * E::spec_size() <= seq_bytes(s).len(),
        seq_bytes(s).subrange(i * E::spec_size(), (i + 1) * E::spec_size()) == s[i].repr(),
    decreases s.len(),
{
    let k = E::spec_size() as int;
    lemma_seq_bytes_len(s);
    assert(0 <= i * k && (i + 1) * k <= s.len() * k) by (nonlinear_arith)
        requires
            0 <= i < s.len(),
            k >= 0,
    ;
    let p = s.drop_last();
    lemma_seq_bytes_len(p);
    s.last().lemma_repr_len();
    if i == s.len() - 1 {
        assert(seq_bytes(s).subrange(i * k, (i + 1) * k) =~= s[i].repr());
    } else {
        lemma_seq_bytes_index(p, i);
        assert((i + 1) * k <= p.len() * k) by (nonlinear_arith)
            requires
                i + 1 <= p.len(),
                k >= 0,
        ;
        assert(seq_bytes(s) == seq_bytes(p) + s.last().repr());
        assert(seq_bytes(s).subrange(i * k, (i + 1) * k) =~= s[i].repr()) by {
            assert(i * k + k == (i + 1) * k) by (nonlinear_arith);
            assert forall|j: int| 0 <= j < k implies seq_bytes(s).subrange(i * k, (i + 1) * k)[j]
                == s[i].repr()[j] by {
                assert(seq_bytes(s)[i * k + j] == seq_bytes(p)[i * k + j]);
                assert(seq_bytes(p).subrange(i * k, (i + 1) * k)[j] == seq_bytes(p)[i * k + j]);
                assert(seq_bytes(p).subrange(i * k, (i + 1) * k) == p[i].repr());
                assert(p[i] == s[i]);
            }
            assert(seq_bytes(s).subrange(i * k, (i + 1) * k).len() == s[i].repr().len());
        }
    }
}

/// The byte array whose element view is `s`.
///
/// Well-defined whenever such an array exists, because an array value is
/// determined by its element view.
pub open spec fn seq_to_array<const N: usize>(s: Seq<u8>) -> [u8; N] {
    choose|a: [u8; N]| a@ == s
}

/// Reading back the element view of an array gives the array itself.
pub proof fn lemma_seq_to_array_id<const N: usize>(a: [u8; N])
    ensures
        seq_to_array::<N>(a@) == a,
{
    assert(exists|x: [u8; N]| x@ == a@) by {
        assert(a@ == a@);
    }
    let c = seq_to_array::<N>(a@);
    assert(c =~= a);
}

/// Append the bytes of `a` to `out`.
pub fn write_array<const N: usize>(out: &mut Vec<u8>, a: &[u8; N])
    ensures
        final(out)@ == old(out)@ + a@,
{
    let mut i: usize = 0;
    while i < N
        invariant
            i <= N,
            out@ == old(out)@ + a@.take(i as int),
        decreases N - i,
    {
        out.push(a[i]);
        proof {
            assert(old(out)@ + a@.take(i + 1) =~= (old(out)@ + a@.take(i as int)).push(
                a@[i as int],
            ));
        }
        i += 1;
    }
    proof {
        assert(a@.take(N as int) =~= a@);
    }
}

/// Read `N` bytes from `buf` at `offset` as an array; the bytes read are
/// exactly the element view of the array returned.
pub fn read_array<const N: usize>(buf: &[u8], offset: usize) -> (r: [u8; N])
    requires
        offset + N <= buf@.len(),
    ensures
        r@ == buf@.subrange(offset as int, offset + N),
        r == seq_to_array::<N>(buf@.subrange(offset as int, offset + N)),
{
    proof {
        vstd::slice::axiom_spec_len(buf);
    }
    let mut r: [u8; N] = [0u8; N];
    let mut i: usize = 0;
    while i < N
        invariant
            offset + N <= buf@.len(),
            buf@.len() <= usize::MAX,
            i <= N,
            forall|j: int| 0 <= j < i ==> r@[j] == buf@[offset + j],
        decreases N - i,
    {
        r[i] = *vstd::slice::slice_index_get(buf, offset + i);
        i += 1;
    }
    proof {
        let s = buf@.subrange(offset as int, offset + N);
        assert(r@ =~= s);
        assert(exists|x: [u8; N]| x@ == s) by {
            assert(r@ == s);
        }
        let a = seq_to_array::<N>(s);
        assert(a@ == s);
        assert(a =~= r);
    }
    r
}

/// Copy `src` into `dst` starting at `offset`, leaving the rest of `dst`
/// unchanged.
pub fn array_copy_at<const M: usize, const N: usize>(
    dst: &mut [u8; M],
    offset: usize,
    src: &[u8; N],
)
    requires
        offset + N <= M,
    ensures
        forall|j: int| 0 <= j < N ==> final(dst)@[offset + j] == src@[j],
        forall|j: int|
            (0 <= j < offset || offset + N <= j < M) ==> final(dst)@[j] == old(dst)@[j],
{
    let mut i: usize = 0;
    while i < N
        invariant
            offset + N <= M,
            i <= N,
            forall|j: int| 0 <= j < i ==> dst@[offset + j] == src@[j],
            forall|j: int| (0 <= j < offset || offset + i <= j < M) ==> dst@[j] == old(dst)@[j],
        decreases N - i,
    {
        dst[offset + i] = src[i];
        i += 1;
    }
}

/// Compare two byte arrays element by element.
pub fn array_eq<const N: usize>(a: &[u8; N], b: &[u8; N]) -> (r: bool)
    ensures
        r == (a == b),
{
    let mut i: usize = 0;
    while i < N
        invariant
            i <= N,
            forall|j: int| 0 <= j < i ==> a@[j] == b@[j],
        decreases N - i,
    {
        if a[i] != b[i] {
            proof {
                assert(a@[i as int] != b@[i as int]);
            }
            return false;
        }
        i += 1;
    }
    proof {
        assert(a@ =~= b@);
        assert(*a =~= *b);
    }
    true
}

// Helpers shared by the `ByteRepr` implementations: append or read one
// little-endian integer field.

/// Append the two little-endian bytes of `v` to `out`.
pub fn write_u16(out: &mut Vec<u8>, v: u16)
    ensures
        final(out)@ == old(out)@ + spec_u16_to_le_bytes(v),
{
    let mut b = u16_to_le_bytes(v);
    out.append(&mut b);
}

/// Append the four little-endian bytes of `v` to `out`.
pub fn write_u32(out: &mut Vec<u8>, v: u32)
    ensures
        final(out)@ == old(out)@ + spec_u32_to_le_bytes(v),
{
    let mut b = u32_to_le_bytes(v);
    out.append(&mut b);
}

/// Append the eight little-endian bytes of `v` to `out`.
pub fn write_u64(out: &mut Vec<u8>, v: u64)
    ensures
        final(out)@ == old(out)@ + spec_u64_to_le_bytes(v),
{
    let mut b = u64_to_le_bytes(v);
    out.append(&mut b);
}

/// A bare 32-bit value, as stored in MSR index lists: four little-endian
/// bytes.
impl ByteRepr for u32 {
    open spec fn spec_size() -> nat {
        4
    }

    open spec fn repr(&self) -> Seq<u8> {
        spec_u32_to_le_bytes(*self)
    }

    open spec fn spec_from_bytes(b: Seq<u8>) -> Self {
        spec_u32_from_le_bytes(b)
    }

    proof fn lemma_repr_len(&self) {
        lemma_auto_spec_u32_to_from_le_bytes();
        assert(spec_u32_to_le_bytes(*self).len() == 4);
    }

    proof fn lemma_from_repr(&self) {
        lemma_auto_spec_u32_to_from_le_bytes();
        assert(spec_u32_to_le_bytes(*self).len() == 4);
    }

    fn byte_size() -> (r: usize) {
        4
    }

    fn write_bytes(&self, out: &mut Vec<u8>) {
        write_u32(out, *self);
    }

    fn read_bytes(buf: &[u8], offset: usize) -> (r: Self) {
        read_u32(buf, offset)
    }
}

/// A bare 64-bit value, as stored in register lists: eight little-endian
/// bytes.
impl ByteRepr for u64 {
    open spec fn spec_size() -> nat {
        8
    }

    open spec fn repr(&self) -> Seq<u8> {
        spec_u64_to_le_bytes(*self)
    }

    open spec fn spec_from_bytes(b: Seq<u8>) -> Self {
        spec_u64_from_le_bytes(b)
    }

    proof fn lemma_repr_len(&self) {
        lemma_auto_spec_u64_to_from_le_bytes();
    }

    proof fn lemma_from_repr(&self) {
        lemma_auto_spec_u64_to_from_le_bytes();
    }

    fn byte_size() -> (r: usize) {
        8
    }

    fn write_bytes(&self, out: &mut Vec<u8>) {
        write_u64(out, *self);
    }

    fn read_bytes(buf: &[u8], offset: usize) -> (r: Self) {
        read_u64(buf, offset)
    }
}

/// Read a little-endian `u16` from `buf` at `offset`.
pub fn read_u16(buf: &[u8], offset: usize) -> (v: u16)
    requires
        offset + 2 <= buf@.len(),
    ensures
        v == spec_u16_from_le_bytes(buf@.subrange(offset as int, offset + 2)),
        spec_u16_to_le_bytes(v) == buf@.subrange(offset as int, offset + 2),
{
    proof {
        vstd::slice::axiom_spec_len(buf);
        lemma_auto_spec_u16_to_from_le_bytes();
    }
    u16_from_le_bytes(slice_subrange(buf, offset, offset + 2))
}

/// Read a little-endian `u32` from `buf` at `offset`.
pub fn read_u32(buf: &[u8], offset: usize) -> (v: u32)
    requires
        offset + 4 <= buf@.len(),
    ensures
        v == spec_u32_from_le_bytes(buf@.subrange(offset as int, offset + 4)),
        spec_u32_to_le_bytes(v) == buf@.subrange(offset as int, offset + 4),
{
    proof {
        vstd::slice::axiom_spec_len(buf);
        lemma_auto_spec_u32_to_from_le_bytes();
    }
    u32_from_le_bytes(slice_subrange(buf, offset, offset + 4))
}

/// Read a little-endian `u64` from `buf` at `offset`.
pub fn read_u64(buf: &[u8], offset: usize) -> (v: u64)
    requires
        offset + 8 <= buf@.len(),
    ensures
        v == spec_u64_from_le_bytes(buf@.subrange(offset as int, offset + 8)),
        spec_u64_to_le_bytes(v) == buf@.subrange(offset as int, offset + 8),
{
    proof {
        vstd::slice::axiom_spec_len(buf);
        lemma_auto_spec_u64_to_from_le_bytes();
    }
    u64_from_le_bytes(slice_subrange(buf, offset, offset + 8))
}

} // verus!
