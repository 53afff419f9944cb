//! Generic container for kernel structures with a trailing flexible array
//! member (FAM): a fixed header that records the number of valid entries,
//! followed by the entries themselves.
//!
//! The kernel ABI stores such a structure as one contiguous block whose true
//! footprint depends on how many entries were allocated.  Here the container
//! is modelled as an owned buffer parameterized by the header type and its
//! entry type: the header is kept beside a vector holding the allocated
//! entries, and every view handed out is clamped to the logical length
//! recorded in the header.  The exact contiguous ABI image is produced by the
//! serialization adapter.

use crate::serialize::{ByteRepr, FormatError, lemma_seq_bytes_index, lemma_seq_bytes_len,
    seq_bytes};
use vstd::prelude::*;
use vstd::std_specs::cmp::PartialEqSpec;

verus! {

/// Error returned when a requested or reported entry count does not fit the
/// declared maximum of a FAM structure.
#[derive(Clone, Copy, Debug, PartialEq, Eq, Structural)]
pub enum Error {
    /// The requested number of entries exceeds the declared maximum.
    SizeLimitExceeded,
}

/// Trait for the fixed header of a C-defined FAM structure.
///
/// An implementing type must expose a mutable element-count field, a declared
/// maximum element count, and the element type of the trailing array.  The
/// header type itself holds only the fixed fields; the trailing array is
/// managed by [`FamStructWrapper`].
pub trait FamStruct: Sized + Copy {
    /// The element type of the trailing array.
    type Entry: Copy;

    /// Declared maximum number of entries.
    spec fn spec_max_len() -> nat;

    /// The entry count recorded in the header.
    spec fn spec_len(&self) -> nat;

    /// The header with its count field replaced by `len`.
    spec fn spec_with_len(&self, len: nat) -> Self;

    /// Equality on the header's fixed fields (the trailing array excluded).
    spec fn spec_header_eq(&self, other: &Self) -> bool;

    /// The all-zero header.
    spec fn spec_default() -> Self;

    /// The all-zero entry.
    spec fn spec_default_entry() -> Self::Entry;

    /// Replacing the count field stores exactly the requested count.
    proof fn lemma_with_len_len(&self, len: nat)
        requires
            len <= Self::spec_max_len(),
        ensures
            self.spec_with_len(len).spec_len() == len,
    ;

    /// Header equality is reflexive.
    proof fn lemma_header_eq_refl(&self)
        ensures
            self.spec_header_eq(self),
    ;

    /// Header equality includes the count field.
    proof fn lemma_header_eq_len(&self, other: &Self)
        ensures
            self.spec_header_eq(other) ==> self.spec_len() == other.spec_len(),
    ;

    /// Executable access to the declared maximum.
    fn max_len() -> (r: usize)
        ensures
            r == Self::spec_max_len(),
    ;

    /// Executable access to the count field.
    fn len(&self) -> (r: usize)
        ensures
            r == self.spec_len(),
    ;

    /// Overwrite the count field.
    fn set_len(&mut self, len: usize)
        requires
            len <= Self::spec_max_len(),
        ensures
            *final(self) == old(self).spec_with_len(len as nat),
    ;

    /// The all-zero header, as a value.
    fn default_header() -> (r: Self)
        ensures
            r == Self::spec_default(),
    ;

    /// The all-zero entry, as a value.
    fn default_entry() -> (r: Self::Entry)
        ensures
            r == Self::spec_default_entry(),
    ;

    /// Executable equality on the header's fixed fields.
    fn header_eq(&self, other: &Self) -> (r: bool)
        ensures
            r == self.spec_header_eq(other),
    ;

    /// Executable equality on entries.
    fn entry_eq(a: &Self::Entry, b: &Self::Entry) -> (r: bool)
        ensures
            r == (a == b),
    ;
}

/// Owner of one FAM structure: the fixed header plus the allocated trailing
/// entries.
///
/// The invariant [`FamStructWrapper::wf`] ties the three quantities of the
/// design together: the count recorded in the header never exceeds the number
/// of allocated entries, and the allocation never exceeds the declared
/// maximum.  All public views are clamped to the recorded count, so allocator
/// slack is never exposed.
#[verifier::reject_recursive_types(T)]
pub struct FamStructWrapper<T: FamStruct> {
    fam: T,
    entries: Vec<T::Entry>,
}

impl<T: FamStruct> FamStructWrapper<T> {
    /// The header value.
    pub closed spec fn spec_header(&self) -> T {
        self.fam
    }

    /// All allocated entries, slack included.
    pub closed spec fn spec_entries_all(&self) -> Seq<T::Entry> {
        self.entries@
    }

    /// The entry count recorded in the header.
    pub open spec fn spec_len(&self) -> nat {
        self.spec_header().spec_len()
    }

    /// The recorded count, clamped to the allocation; equals the recorded
    /// count on every well-formed container.
    pub open spec fn spec_clamped_len(&self) -> nat {
        if self.spec_len() <= self.spec_entries_all().len() {
            self.spec_len()
        } else {
            self.spec_entries_all().len()
        }
    }

    /// The live entries: the first `count` allocated entries.
    pub open spec fn spec_entries(&self) -> Seq<T::Entry> {
        self.spec_entries_all().take(self.spec_clamped_len() as int)
    }

    /// Well-formedness: count <= allocated <= declared maximum.
    pub open spec fn wf(&self) -> bool {
        self.spec_len() <= self.spec_entries_all().len()
            && self.spec_entries_all().len() <= T::spec_max_len()
    }

    /// Create a container with `num_elements` entries.
    ///
    /// The entries are zero-initialized and the header's count field is set
    /// to `num_elements`.  Fails with a capacity error if and only if the
    /// request exceeds the declared maximum.
    pub fn new(num_elements: usize) -> (r: Result<Self, Error>)
        ensures
            num_elements <= T::spec_max_len() ==> match r {
                Ok(c) => {
                    &&& c.wf()
                    &&& c.spec_header() == T::spec_default().spec_with_len(num_elements as nat)
                    &&& c.spec_entries_all() == Seq::new(
                        num_elements as nat,
                        |i: int| T::spec_default_entry(),
                    )
                },
                Err(_) => false,
            },
            num_elements > T::spec_max_len() ==> r == Err::<Self, Error>(Error::SizeLimitExceeded),
    {
        if num_elements > T::max_len() {
            return Err(Error::SizeLimitExceeded);
        }
        let mut entries: Vec<T::Entry> = Vec::new();
        for i in 0..num_elements
            invariant
                entries@ =~= Seq::new(i as nat, |j: int| T::spec_default_entry()),
        {
            entries.push(T::default_entry());
        }
        let mut fam = T::default_header();
        fam.set_len(num_elements);
        proof {
            T::spec_default().lemma_with_len_len(num_elements as nat);
        }
        Ok(FamStructWrapper { fam, entries })
    }

    /// Create a container holding exactly the given entries.
    ///
    /// Fails with a capacity error if and only if there are more entries than
    /// the declared maximum.
    pub fn from_entries(entries: &[T::Entry]) -> (r: Result<Self, Error>)
        ensures
            entries@.len() <= T::spec_max_len() ==> match r {
                Ok(c) => {
                    &&& c.wf()
                    &&& c.spec_header() == T::spec_default().spec_with_len(entries@.len())
                    &&& c.spec_entries_all() == entries@
                },
                Err(_) => false,
            },
            entries@.len() > T::spec_max_len() ==> r == Err::<Self, Error>(
                Error::SizeLimitExceeded,
            ),
    {
        if entries.len() > T::max_len() {
            return Err(Error::SizeLimitExceeded);
        }
        let n = entries.len();
        let mut stored: Vec<T::Entry> = Vec::new();
        for i in 0..n
            invariant
                n == entries@.len(),
                stored@ =~= entries@.take(i as int),
        {
            stored.push(*vstd::slice::slice_index_get(entries, i));
            proof {
                assert(stored@ =~= entries@.take(i + 1));
            }
        }
        proof {
            assert(stored@ =~= entries@);
            T::spec_default().lemma_with_len_len(entries@.len());
        }
        let mut fam = T::default_header();
        fam.set_len(n);
        Ok(FamStructWrapper { fam, entries: stored })
    }

    /// Create a container from a bare header with an empty trailing array.
    ///
    /// Fails with a capacity error if and only if the header already records
    /// a nonzero count, which the empty allocation could not back.
    pub fn from_header(header: T) -> (r: Result<Self, Error>)
        ensures
            header.spec_len() == 0 ==> match r {
                Ok(c) => {
                    &&& c.wf()
                    &&& c.spec_header() == header
                    &&& c.spec_entries_all() == Seq::<T::Entry>::empty()
                },
                Err(_) => false,
            },
            header.spec_len() != 0 ==> r == Err::<Self, Error>(Error::SizeLimitExceeded),
    {
        if header.len() != 0 {
            return Err(Error::SizeLimitExceeded);
        }
        Ok(FamStructWrapper { fam: header, entries: Vec::new() })
    }

    /// Reference to the header.
    pub fn as_fam_struct_ref(&self) -> (r: &T)
        ensures
            *r == self.spec_header(),
    {
        &self.fam
    }

    /// Mutable reference to the header.
    ///
    /// Whatever the caller writes, the entries are untouched; and the
    /// container is well-formed again provided the count written back still
    /// fits the allocation.  A count is re-derived and clamped against the
    /// allocation before any slice is built, so allocator slack can never
    /// be exposed through this access either.
    pub fn as_mut_fam_struct_ref(&mut self) -> (r: &mut T)
        ensures
            *r == old(self).spec_header(),
            final(self).spec_header() == *final(r),
            final(self).spec_entries_all() == old(self).spec_entries_all(),
            final(r).spec_len() <= old(self).spec_entries_all().len() && old(self).wf()
                ==> final(self).wf(),
    {
        &mut self.fam
    }

    /// The live entries: exactly `count` of them, allocator slack excluded.
    ///
    /// The count is re-derived from the header and clamped against the
    /// allocated capacity before the slice is built.
    pub fn as_slice(&self) -> (r: &[T::Entry])
        ensures
            r@ == self.spec_entries(),
    {
        let n = self.fam.len();
        let n = if n <= self.entries.len() {
            n
        } else {
            self.entries.len()
        };
        let (live, _) = self.entries.as_slice().split_at(n);
        live
    }

    /// Mutable access to the live entries: exactly `count` of them, clamped
    /// against the allocated capacity as in [`FamStructWrapper::as_slice`].
    ///
    /// The header and the allocator slack beyond the count are untouched,
    /// whatever the caller writes through the returned slice.
    pub fn as_mut_slice(&mut self) -> (r: &mut [T::Entry])
        ensures
            r@ == old(self).spec_entries(),
            final(self).spec_header() == old(self).spec_header(),
            final(self).spec_entries_all() == final(r)@ + old(self).spec_entries_all().skip(
                old(self).spec_clamped_len() as int,
            ),
            old(self).wf() && final(r)@.len() == old(self).spec_len() ==> final(self).wf(),
    {
        let n = self.fam.len();
        let n = if n <= self.entries.len() {
            n
        } else {
            self.entries.len()
        };
        let (live, _) = self.entries.as_mut_slice().split_at_mut(n);
        live
    }

    /// Set the header's count field, growing the allocation if needed.
    ///
    /// New slots are zero-initialized; existing entries are preserved; the
    /// allocation never shrinks.  Fails with a capacity error if and only if
    /// `len` exceeds the declared maximum.
    pub fn set_len(&mut self, len: usize) -> (r: Result<(), Error>)
        requires
            old(self).wf(),
        ensures
            len <= T::spec_max_len() ==> {
                &&& r == Ok::<(), Error>(())
                &&& final(self).wf()
                &&& final(self).spec_header() == old(self).spec_header().spec_with_len(len as nat)
                &&& final(self).spec_entries_all().len() == if len as nat
                    >= old(self).spec_entries_all().len() {
                    len as nat
                } else {
                    old(self).spec_entries_all().len()
                }
                &&& forall|i: int|
                    0 <= i < old(self).spec_entries_all().len()
                        ==> final(self).spec_entries_all()[i] == old(self).spec_entries_all()[i]
                &&& forall|i: int|
                    old(self).spec_entries_all().len() <= i < final(self).spec_entries_all().len()
                        ==> final(self).spec_entries_all()[i] == T::spec_default_entry()
            },
            len > T::spec_max_len() ==> {
                &&& r == Err::<(), Error>(Error::SizeLimitExceeded)
                &&& *final(self) == *old(self)
            },
    {
        if len > T::max_len() {
            return Err(Error::SizeLimitExceeded);
        }
        while self.entries.len() < len
            invariant
                old(self).wf(),
                len <= T::spec_max_len(),
                self.fam == old(self).fam,
                self.entries@.len() >= old(self).entries@.len(),
                self.entries@.len() <= if len as nat >= old(self).entries@.len() {
                    len as nat
                } else {
                    old(self).entries@.len()
                },
                forall|i: int|
                    0 <= i < old(self).entries@.len()
                        ==> self.entries@[i] == old(self).entries@[i],
                forall|i: int|
                    old(self).entries@.len() <= i < self.entries@.len() ==> self.entries@[i]
                        == T::spec_default_entry(),
            decreases len - self.entries.len(),
        {
            self.entries.push(T::default_entry());
        }
        self.fam.set_len(len);
        proof {
            old(self).fam.lemma_with_len_len(len as nat);
        }
        Ok(())
    }

    /// Append one entry, growing the allocation and the count by one.
    ///
    /// Fails with a capacity error if and only if the container already holds
    /// the declared maximum number of entries.
    pub fn push(&mut self, entry: T::Entry) -> (r: Result<(), Error>)
        requires
            old(self).wf(),
        ensures
            old(self).spec_len() < T::spec_max_len() ==> {
                &&& r == Ok::<(), Error>(())
                &&& final(self).wf()
                &&& final(self).spec_header() == old(self).spec_header().spec_with_len(
                    old(self).spec_len() + 1,
                )
                &&& final(self).spec_entries() == old(self).spec_entries().push(entry)
                &&& final(self).spec_entries_all().len() == if old(self).spec_len() + 1
                    >= old(self).spec_entries_all().len() {
                    old(self).spec_len() + 1
                } else {
                    old(self).spec_entries_all().len()
                }
                &&& forall|i: int|
                    old(self).spec_len() + 1 <= i < old(self).spec_entries_all().len()
                        ==> final(self).spec_entries_all()[i] == old(self).spec_entries_all()[i]
            },
            old(self).spec_len() == T::spec_max_len() ==> {
                &&& r == Err::<(), Error>(Error::SizeLimitExceeded)
                &&& *final(self) == *old(self)
            },
    {
        let n = self.fam.len();
        if n == T::max_len() {
            return Err(Error::SizeLimitExceeded);
        }
        if n == self.entries.len() {
            self.entries.push(entry);
        } else {
            self.entries[n] = entry;
        }
        self.fam.set_len(n + 1);
        proof {
            old(self).fam.lemma_with_len_len(old(self).spec_len() + 1);
            assert(self.spec_entries() =~= old(self).spec_entries().push(entry));
        }
        Ok(())
    }
}

impl<T: FamStruct> Clone for FamStructWrapper<T> {
    /// Deep copy at the current count: the header and the first `count`
    /// entries are carried over; allocator slack beyond the count is not.
    fn clone(&self) -> (r: Self)
        ensures
            r.spec_header() == self.spec_header(),
            r.spec_entries_all() == self.spec_entries(),
            self.wf() ==> r.wf(),
    {
        let n = self.fam.len();
        let take = if n <= self.entries.len() {
            n
        } else {
            self.entries.len()
        };
        let mut entries: Vec<T::Entry> = Vec::new();
        for i in 0..take
            invariant
                take == self.spec_clamped_len(),
                entries@ =~= self.spec_entries().take(i as int),
        {
            entries.push(self.entries[i]);
            proof {
                assert(entries@ =~= self.spec_entries().take(i + 1));
            }
        }
        proof {
            assert(entries@ =~= self.spec_entries());
        }
        FamStructWrapper { fam: self.fam, entries }
    }
}

impl<T: FamStruct> PartialEq for FamStructWrapper<T> {
    /// Equality scoped to the logical length: the headers' fixed fields must
    /// match and the live entries must match pairwise.  Allocator slack is
    /// excluded on both sides.
    fn eq(&self, other: &Self) -> (r: bool) {
        if !self.fam.header_eq(&other.fam) {
            return false;
        }
        let n1 = if self.fam.len() <= self.entries.len() {
            self.fam.len()
        } else {
            self.entries.len()
        };
        let n2 = if other.fam.len() <= other.entries.len() {
            other.fam.len()
        } else {
            other.entries.len()
        };
        if n1 != n2 {
            proof {
                assert(self.spec_entries().len() != other.spec_entries().len());
            }
            return false;
        }
        for i in 0..n1
            invariant
                n1 == self.spec_clamped_len(),
                n1 == other.spec_clamped_len(),
                forall|j: int| 0 <= j < i ==> self.spec_entries()[j] == other.spec_entries()[j],
        {
            if !T::entry_eq(&self.entries[i], &other.entries[i]) {
                proof {
                    assert(self.spec_entries()[i as int] != other.spec_entries()[i as int]);
                }
                return false;
            }
        }
        proof {
            assert(self.spec_entries() =~= other.spec_entries());
        }
        true
    }
}

impl<T: FamStruct> Eq for FamStructWrapper<T> {

}

impl<T: FamStruct> vstd::std_specs::cmp::PartialEqSpecImpl for FamStructWrapper<T> {
    open spec fn obeys_eq_spec() -> bool {
        true
    }

    open spec fn eq_spec(&self, other: &Self) -> bool {
        self.spec_header().spec_header_eq(&other.spec_header()) && self.spec_entries()
            == other.spec_entries()
    }
}

/// Clone law: a clone compares equal to the container it was cloned from.
///
/// The premises are exactly what [`FamStructWrapper::clone`] ensures of its
/// result, so `clone(c) == c` holds for every well-formed container.
pub proof fn lemma_clone_eq<T: FamStruct>(c: &FamStructWrapper<T>, d: &FamStructWrapper<T>)
    requires
        c.wf(),
        d.spec_header() == c.spec_header(),
        d.spec_entries_all() == c.spec_entries(),
    ensures
        d.eq_spec(c),
        c.eq_spec(d),
{
    c.spec_header().lemma_header_eq_refl();
    assert(d.spec_entries() =~= c.spec_entries());
}

impl<T: FamStruct + ByteRepr> FamStructWrapper<T> where T::Entry: ByteRepr {
    /// Serialize to the exact contiguous ABI image: the header followed by
    /// the live entries, nothing else.
    ///
    /// This image is also what an external collaborator is handed to write
    /// into; [`FamStructWrapper::from_bytes`] validates and rebuilds the
    /// container afterwards.
    pub fn to_bytes(&self) -> (r: Vec<u8>)
        requires
            self.wf(),
        ensures
            r@ == self.spec_header().repr() + seq_bytes(self.spec_entries()),
    {
        let mut out: Vec<u8> = Vec::new();
        self.fam.write_bytes(&mut out);
        let n = self.fam.len();
        for i in 0..n
            invariant
                self.wf(),
                n == self.spec_len(),
                out@ == self.spec_header().repr() + seq_bytes(self.spec_entries().take(i as int)),
        {
            let e = self.entries[i];
            e.write_bytes(&mut out);
            proof {
                let live = self.spec_entries();
                assert(live.take(i + 1).drop_last() =~= live.take(i as int));
                assert(live.take(i + 1).last() == live[i as int]);
                assert(out@ == self.spec_header().repr() + seq_bytes(live.take(i + 1)));
            }
        }
        proof {
            assert(self.spec_entries().take(n as int) =~= self.spec_entries());
        }
        out
    }

    /// Rebuild a container from a contiguous ABI image.
    ///
    /// The image must hold the header plus a whole number of allocated
    /// entries; the count that the header reports is re-derived and checked
    /// against the allocation and against the declared maximum, since an
    /// external collaborator may have overwritten it in place.  A count that
    /// exceeds the allocation is rejected, never silently truncated.
    pub fn from_bytes(bytes: &[u8]) -> (r: Result<Self, FormatError>)
        requires
            <T::Entry as ByteRepr>::spec_size() > 0,
        ensures
            ({
                let hsize = T::spec_size() as int;
                let esize = <T::Entry as ByteRepr>::spec_size() as int;
                let len = bytes@.len() as int;
                &&& (len < hsize || (len - hsize) % esize != 0) ==> r == Err::<
                    Self,
                    FormatError,
                >(FormatError::SizeMismatch)
                &&& (len >= hsize && (len - hsize) % esize == 0) ==> {
                    let alloc = (len - hsize) / esize;
                    let h = T::spec_from_bytes(bytes@.subrange(0, hsize));
                    &&& (alloc > T::spec_max_len() || h.spec_len() > alloc) ==> r == Err::<
                        Self,
                        FormatError,
                    >(FormatError::CountMismatch)
                    &&& (alloc <= T::spec_max_len() && h.spec_len() <= alloc) ==> match r {
                        Ok(c) => {
                            &&& c.wf()
                            &&& c.spec_header() == h
                            &&& c.spec_entries_all().len() == alloc
                            &&& c.spec_entries_all() == Seq::new(
                                alloc as nat,
                                |i: int|
                                    <T::Entry as ByteRepr>::spec_from_bytes(
                                        bytes@.subrange(hsize + i * esize, hsize + (i + 1) * esize),
                                    ),
                            )
                            &&& bytes@ == c.spec_header().repr() + seq_bytes(c.spec_entries_all())
                        },
                        Err(_) => false,
                    }
                }
            }),
    {
        proof {
            vstd::slice::axiom_spec_len(bytes);
        }
        let hsize = T::byte_size();
        let esize = <T::Entry as ByteRepr>::byte_size();
        if bytes.len() < hsize {
            return Err(FormatError::SizeMismatch);
        }
        let rest = bytes.len() - hsize;
        if rest % esize != 0 {
            return Err(FormatError::SizeMismatch);
        }
        let alloc = rest / esize;
        if alloc > T::max_len() {
            return Err(FormatError::CountMismatch);
        }
        proof {
            vstd::arithmetic::div_mod::lemma_fundamental_div_mod(rest as int, esize as int);
            assert((esize as int) * (alloc as int) == (alloc as int) * (esize as int))
                by (nonlinear_arith);
            assert(alloc * esize == rest);
        }
        let fam = T::read_bytes(bytes, 0);
        if fam.len() > alloc {
            return Err(FormatError::CountMismatch);
        }
        let mut entries: Vec<T::Entry> = Vec::new();
        proof {
            assert(0 * (esize as int) == 0) by (nonlinear_arith);
            assert(seq_bytes(entries@) =~= bytes@.subrange(hsize as int, hsize as int));
        }
        for i in 0..alloc
            invariant
                hsize == T::spec_size(),
                esize == <T::Entry as ByteRepr>::spec_size(),
                esize > 0,
                alloc * esize == rest,
                hsize + rest == bytes@.len(),
                bytes@.len() <= usize::MAX,
                entries@.len() == i,
                entries@ =~= Seq::new(
                    i as nat,
                    |j: int|
                        <T::Entry as ByteRepr>::spec_from_bytes(
                            bytes@.subrange(
                                hsize + j * (esize as int),
                                hsize + (j + 1) * (esize as int),
                            ),
                        ),
                ),
                seq_bytes(entries@) =~= bytes@.subrange(
                    hsize as int,
                    hsize + i * (esize as int),
                ),
        {
            proof {
                assert(i * esize + esize == (i + 1) * esize && 0 <= i * esize && (i + 1) * esize
                    <= alloc * esize) by (nonlinear_arith)
                    requires
                        0 <= i < alloc,
                        esize > 0,
                ;
            }
            let off = hsize + i * esize;
            let e = <T::Entry as ByteRepr>::read_bytes(bytes, off);
            let ghost pre = entries@;
            entries.push(e);
            proof {
                let esz = esize as int;
                assert(entries@.drop_last() =~= pre);
                assert(entries@.last() == e);
                assert(seq_bytes(entries@) == seq_bytes(pre) + e.repr());
                assert(entries@ =~= Seq::new(
                    (i + 1) as nat,
                    |j: int|
                        <T::Entry as ByteRepr>::spec_from_bytes(
                            bytes@.subrange(hsize + j * esz, hsize + (j + 1) * esz),
                        ),
                ));
                assert(seq_bytes(entries@) =~= bytes@.subrange(
                    hsize as int,
                    hsize + (i + 1) * esz,
                ));
            }
        }
        proof {
            assert(alloc * esize == rest);
            assert(seq_bytes(entries@) =~= bytes@.subrange(hsize as int, bytes@.len() as int));
            assert(bytes@ =~= fam.repr() + seq_bytes(entries@));
        }
        Ok(FamStructWrapper { fam, entries })
    }
}

/// Serialization round trip for FAM containers: a container read back from a
/// serialized image is equal to the source container and serializes to the
/// byte-identical image.
///
/// The premises are exactly what [`FamStructWrapper::from_bytes`] ensures of
/// its result when given the image that [`FamStructWrapper::to_bytes`]
/// produced for `c`.
pub proof fn lemma_fam_round_trip<T: FamStruct + ByteRepr>(
    c: &FamStructWrapper<T>,
    d: &FamStructWrapper<T>,
) where T::Entry: ByteRepr
    requires
        c.wf(),
        d.wf(),
        d.spec_entries_all().len() == c.spec_entries().len(),
        d.spec_header().repr() + seq_bytes(d.spec_entries_all()) == c.spec_header().repr()
            + seq_bytes(c.spec_entries()),
    ensures
        d.spec_header() == c.spec_header(),
        d.spec_entries_all() == c.spec_entries(),
        d.spec_entries() == c.spec_entries(),
        d.spec_header().repr() + seq_bytes(d.spec_entries()) == c.spec_header().repr()
            + seq_bytes(c.spec_entries()),
        d.eq_spec(c),
{
    let dh = d.spec_header();
    let ch = c.spec_header();
    let db = dh.repr() + seq_bytes(d.spec_entries_all());
    let cb = ch.repr() + seq_bytes(c.spec_entries());
    dh.lemma_repr_len();
    ch.lemma_repr_len();
    assert(dh.repr() =~= db.subrange(0, T::spec_size() as int));
    assert(ch.repr() =~= cb.subrange(0, T::spec_size() as int));
    dh.lemma_from_repr();
    ch.lemma_from_repr();
    assert(dh == ch);
    lemma_seq_bytes_len(d.spec_entries_all());
    lemma_seq_bytes_len(c.spec_entries());
    assert(seq_bytes(d.spec_entries_all()) =~= db.subrange(
        T::spec_size() as int,
        db.len() as int,
    ));
    assert(seq_bytes(c.spec_entries()) =~= cb.subrange(T::spec_size() as int, cb.len() as int));
    assert forall|i: int| 0 <= i < d.spec_entries_all().len() implies d.spec_entries_all()[i]
        == c.spec_entries()[i] by {
        lemma_seq_bytes_index(d.spec_entries_all(), i);
        lemma_seq_bytes_index(c.spec_entries(), i);
        assert(d.spec_entries_all()[i].repr() == c.spec_entries()[i].repr());
        d.spec_entries_all()[i].lemma_from_repr();
        c.spec_entries()[i].lemma_from_repr();
    }
    assert(d.spec_entries_all() =~= c.spec_entries());
    assert(d.spec_entries() =~= c.spec_entries());
    ch.lemma_header_eq_refl();
}

/// Equality ignores allocator slack: two containers whose headers match and
/// whose first-`count` entries match are equal, however large the allocation
/// behind each of them is.
pub proof fn lemma_eq_ignores_slack<T: FamStruct>(
    a: &FamStructWrapper<T>,
    b: &FamStructWrapper<T>,
)
    requires
        a.wf(),
        b.wf(),
        a.spec_header().spec_header_eq(&b.spec_header()),
        a.spec_entries() == b.spec_entries(),
    ensures
        a.eq_spec(b),
{
}

} // verus!
