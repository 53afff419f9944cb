//! Higher-level abstractions for working with nested state.
//!
//! Getting and setting the nested KVM state is helpful if nested
//! virtualization is used and the state needs to be serialized, e.g., for
//! live-migration or state save/resume.  See [`KvmNestedStateBuffer`].

use crate::serialize::{array_copy_at, lemma_seq_to_array_id, read_array, read_u16, read_u32,
    seq_to_array, write_array, write_u16, write_u32, ByteRepr};
use vstd::bytes::*;
use vstd::prelude::*;

verus! {

/// Size in bytes of one VMCS image in the nested VMX state.
pub const KVM_STATE_NESTED_VMX_VMCS_SIZE: usize = 4096;

/// Size in bytes of the VMCB image in the nested SVM state.
pub const KVM_STATE_NESTED_SVM_VMCB_SIZE: usize = 4096;

/// Size in bytes of the data region of [`KvmNestedStateBuffer`]: the larger
/// of the two variant payloads.
pub const KVM_NESTED_STATE_DATA_SIZE: usize = 8192;

/// Size in bytes of the header region of [`KvmNestedStateBuffer`] that
/// follows the fixed `flags`/`format`/`size` fields.
pub const KVM_NESTED_STATE_HDR_SIZE: usize = 120;

/// Total size in bytes of [`KvmNestedStateBuffer`]: the fixed fields, the
/// sub-header region, and the data region.
pub const KVM_NESTED_STATE_BUFFER_SIZE: usize = 8320;

/// Payload of the nested state on Intel VMX: the VMCS12 image and the shadow
/// VMCS12 image.
#[allow(non_camel_case_types)]
#[derive(Clone, Copy)]
pub struct kvm_vmx_nested_state_data {
    pub vmcs12: [u8; KVM_STATE_NESTED_VMX_VMCS_SIZE],
    pub shadow_vmcs12: [u8; KVM_STATE_NESTED_VMX_VMCS_SIZE],
}

/// Payload of the nested state on AMD SVM: the VMCB12 image.
#[allow(non_camel_case_types)]
#[derive(Clone, Copy)]
pub struct kvm_svm_nested_state_data {
    pub vmcb12: [u8; KVM_STATE_NESTED_SVM_VMCB_SIZE],
}

/// Non-zero variant of the data union of the nested state.
///
/// The kernel fills this region with either the VMX or the SVM payload; an
/// external `format` field, not the region itself, says which one is
/// meaningful.  The region is therefore kept as its raw bit pattern, sized
/// for the larger variant, with accessors that interpret it either way.
/// Please note that on SVM, this type wastes one page as the VMX state is
/// larger.
#[allow(non_camel_case_types)]
#[derive(Clone, Copy)]
pub struct kvm_nested_state__data {
    bytes: [u8; KVM_NESTED_STATE_DATA_SIZE],
}

/// The sub-header of the nested state, kept as its raw bit pattern: its
/// layout differs between VMX and SVM and is interpreted by the kernel.
#[allow(non_camel_case_types)]
#[derive(Clone, Copy)]
pub struct kvm_nested_state__bindgen_ty_1 {
    pub pad: [u8; KVM_NESTED_STATE_HDR_SIZE],
}

/// A buffer for nested KVM state including the mandatory header with
/// meta-information.
///
/// KVM uses a dynamically sized buffer structure (with a header reporting
/// the size of the buffer/state).  This helper type unifies the required
/// memory for both variants: its allocation never changes after
/// construction, and its `size` field reports the full fixed capacity to
/// the kernel, whichever variant is in use.
#[derive(Clone, Copy)]
pub struct KvmNestedStateBuffer {
    pub flags: u16,
    pub format: u16,
    pub size: u32,
    pub hdr: kvm_nested_state__bindgen_ty_1,
    pub data: kvm_nested_state__data,
}

impl kvm_nested_state__data {
    /// The raw bytes of the data region.
    pub closed spec fn spec_bytes(&self) -> Seq<u8> {
        self.bytes@
    }

    /// Interpret the region as the VMX payload.
    pub fn vmx(&self) -> (r: kvm_vmx_nested_state_data)
        ensures
            r.vmcs12@ == self.spec_bytes().subrange(0, KVM_STATE_NESTED_VMX_VMCS_SIZE as int),
            r.shadow_vmcs12@ == self.spec_bytes().subrange(
                KVM_STATE_NESTED_VMX_VMCS_SIZE as int,
                KVM_NESTED_STATE_DATA_SIZE as int,
            ),
    {
        let vmcs12 = read_array::<4096>(self.bytes.as_slice(), 0);
        let shadow_vmcs12 = read_array::<4096>(self.bytes.as_slice(), KVM_STATE_NESTED_VMX_VMCS_SIZE);
        kvm_vmx_nested_state_data { vmcs12, shadow_vmcs12 }
    }

    /// Interpret the region as the SVM payload; the trailing page is not
    /// part of it.
    pub fn svm(&self) -> (r: kvm_svm_nested_state_data)
        ensures
            r.vmcb12@ == self.spec_bytes().subrange(0, KVM_STATE_NESTED_SVM_VMCB_SIZE as int),
    {
        let vmcb12 = read_array::<4096>(self.bytes.as_slice(), 0);
        kvm_svm_nested_state_data { vmcb12 }
    }

    /// Store the VMX payload, which covers the whole region.
    pub fn set_vmx(&mut self, d: &kvm_vmx_nested_state_data)
        ensures
            final(self).spec_bytes() == d.vmcs12@ + d.shadow_vmcs12@,
    {
        array_copy_at(&mut self.bytes, 0, &d.vmcs12);
        array_copy_at(&mut self.bytes, KVM_STATE_NESTED_VMX_VMCS_SIZE, &d.shadow_vmcs12);
        proof {
            assert(self.bytes@ =~= d.vmcs12@ + d.shadow_vmcs12@);
        }
    }

    /// Store the SVM payload; the bytes beyond it are left as they were.
    pub fn set_svm(&mut self, d: &kvm_svm_nested_state_data)
        ensures
            final(self).spec_bytes() == d.vmcb12@ + old(self).spec_bytes().skip(
                KVM_STATE_NESTED_SVM_VMCB_SIZE as int,
            ),
    {
        array_copy_at(&mut self.bytes, 0, &d.vmcb12);
        proof {
            assert(self.bytes@ =~= d.vmcb12@ + old(self).bytes@.skip(
                KVM_STATE_NESTED_SVM_VMCB_SIZE as int,
            ));
        }
    }
}

impl Default for kvm_nested_state__data {
    /// The all-zero region.
    fn default() -> (r: Self)
        ensures
            r.spec_bytes() == Seq::new(KVM_NESTED_STATE_DATA_SIZE as nat, |i: int| 0u8),
    {
        let r = kvm_nested_state__data { bytes: [0u8; KVM_NESTED_STATE_DATA_SIZE] };
        proof {
            assert(r.bytes@ =~= Seq::new(KVM_NESTED_STATE_DATA_SIZE as nat, |i: int| 0u8));
        }
        r
    }
}

impl KvmNestedStateBuffer {
    /// Creates a new empty buffer, ready for nested state to be stored in
    /// by KVM.
    ///
    /// Every field is zero except `size`, which reports the full static
    /// capacity of the buffer to KVM, independent of which variant will be
    /// populated later.
    pub fn empty() -> (r: Self)
        ensures
            r.flags == 0,
            r.format == 0,
            r.size == KVM_NESTED_STATE_BUFFER_SIZE as u32,
            r.hdr.pad@ == Seq::new(KVM_NESTED_STATE_HDR_SIZE as nat, |i: int| 0u8),
            r.data.spec_bytes() == Seq::new(KVM_NESTED_STATE_DATA_SIZE as nat, |i: int| 0u8),
    {
        let r = KvmNestedStateBuffer {
            flags: 0,
            format: 0,
            size: KVM_NESTED_STATE_BUFFER_SIZE as u32,
            hdr: kvm_nested_state__bindgen_ty_1 { pad: [0u8; KVM_NESTED_STATE_HDR_SIZE] },
            data: kvm_nested_state__data { bytes: [0u8; KVM_NESTED_STATE_DATA_SIZE] },
        };
        proof {
            assert(r.hdr.pad@ =~= Seq::new(KVM_NESTED_STATE_HDR_SIZE as nat, |i: int| 0u8));
            assert(r.data.bytes@ =~= Seq::new(KVM_NESTED_STATE_DATA_SIZE as nat, |i: int| 0u8));
        }
        r
    }
}

/// The ABI image of the VMX payload: the two VMCS images, back to back.
impl ByteRepr for kvm_vmx_nested_state_data {
    open spec fn spec_size() -> nat {
        KVM_NESTED_STATE_DATA_SIZE as nat
    }

    open spec fn repr(&self) -> Seq<u8> {
        self.vmcs12@ + self.shadow_vmcs12@
    }

    open spec fn spec_from_bytes(b: Seq<u8>) -> Self {
        kvm_vmx_nested_state_data {
            vmcs12: seq_to_array::<4096>(b.subrange(0, 4096)),
            shadow_vmcs12: seq_to_array::<4096>(b.subrange(4096, 8192)),
        }
    }

    proof fn lemma_repr_len(&self) {
    }

    proof fn lemma_from_repr(&self) {
        assert(self.repr().subrange(0, 4096) =~= self.vmcs12@);
        assert(self.repr().subrange(4096, 8192) =~= self.shadow_vmcs12@);
        lemma_seq_to_array_id::<4096>(self.vmcs12);
        lemma_seq_to_array_id::<4096>(self.shadow_vmcs12);
    }

    fn byte_size() -> (r: usize) {
        KVM_NESTED_STATE_DATA_SIZE
    }

    fn write_bytes(&self, out: &mut Vec<u8>) {
        write_array(out, &self.vmcs12);
        write_array(out, &self.shadow_vmcs12);
        proof {
            assert(out@ =~= old(out)@ + self.repr());
        }
    }

    fn read_bytes(buf: &[u8], offset: usize) -> (r: Self) {
        proof {
            vstd::slice::axiom_spec_len(buf);
        }
        let vmcs12 = read_array::<4096>(buf, offset);
        let shadow_vmcs12 = read_array::<4096>(buf, offset + 4096);
        let r = kvm_vmx_nested_state_data { vmcs12, shadow_vmcs12 };
        proof {
            let s = buf@.subrange(offset as int, offset + 8192);
            assert(s.subrange(0, 4096) =~= buf@.subrange(offset as int, offset + 4096));
            assert(s.subrange(4096, 8192) =~= buf@.subrange(offset + 4096, offset + 8192));
            assert(r.repr() =~= s);
        }
        r
    }
}

/// The ABI image of the SVM payload: the VMCB image.
impl ByteRepr for kvm_svm_nested_state_data {
    open spec fn spec_size() -> nat {
        KVM_STATE_NESTED_SVM_VMCB_SIZE as nat
    }

    open spec fn repr(&self) -> Seq<u8> {
        self.vmcb12@
    }

    open spec fn spec_from_bytes(b: Seq<u8>) -> Self {
        kvm_svm_nested_state_data { vmcb12: seq_to_array::<4096>(b) }
    }

    proof fn lemma_repr_len(&self) {
    }

    proof fn lemma_from_repr(&self) {
        lemma_seq_to_array_id::<4096>(self.vmcb12);
    }

    fn byte_size() -> (r: usize) {
        KVM_STATE_NESTED_SVM_VMCB_SIZE
    }

    fn write_bytes(&self, out: &mut Vec<u8>) {
        write_array(out, &self.vmcb12);
    }

    fn read_bytes(buf: &[u8], offset: usize) -> (r: Self) {
        kvm_svm_nested_state_data { vmcb12: read_array::<4096>(buf, offset) }
    }
}

/// The ABI image of the sub-header region: its raw bytes.
impl ByteRepr for kvm_nested_state__bindgen_ty_1 {
    open spec fn spec_size() -> nat {
        KVM_NESTED_STATE_HDR_SIZE as nat
    }

    open spec fn repr(&self) -> Seq<u8> {
        self.pad@
    }

    open spec fn spec_from_bytes(b: Seq<u8>) -> Self {
        kvm_nested_state__bindgen_ty_1 { pad: seq_to_array::<120>(b) }
    }

    proof fn lemma_repr_len(&self) {
    }

    proof fn lemma_from_repr(&self) {
        lemma_seq_to_array_id::<120>(self.pad);
    }

    fn byte_size() -> (r: usize) {
        KVM_NESTED_STATE_HDR_SIZE
    }

    fn write_bytes(&self, out: &mut Vec<u8>) {
        write_array(out, &self.pad);
    }

    fn read_bytes(buf: &[u8], offset: usize) -> (r: Self) {
        kvm_nested_state__bindgen_ty_1 { pad: read_array::<120>(buf, offset) }
    }
}

/// The ABI image of the data region: its raw bytes.
impl ByteRepr for kvm_nested_state__data {
    open spec fn spec_size() -> nat {
        KVM_NESTED_STATE_DATA_SIZE as nat
    }

    open spec fn repr(&self) -> Seq<u8> {
        self.spec_bytes()
    }

    closed spec fn spec_from_bytes(b: Seq<u8>) -> Self {
        kvm_nested_state__data { bytes: seq_to_array::<8192>(b) }
    }

    proof fn lemma_repr_len(&self) {
    }

    proof fn lemma_from_repr(&self) {
        lemma_seq_to_array_id::<8192>(self.bytes);
    }

    fn byte_size() -> (r: usize) {
        KVM_NESTED_STATE_DATA_SIZE
    }

    fn write_bytes(&self, out: &mut Vec<u8>) {
        write_array(out, &self.bytes);
    }

    fn read_bytes(buf: &[u8], offset: usize) -> (r: Self) {
        kvm_nested_state__data { bytes: read_array::<8192>(buf, offset) }
    }
}

/// The ABI image of the whole buffer: the three fixed fields, little-endian,
/// then the sub-header region, then the data region; 8320 bytes in all.
impl ByteRepr for KvmNestedStateBuffer {
    open spec fn spec_size() -> nat {
        KVM_NESTED_STATE_BUFFER_SIZE as nat
    }

    open spec fn repr(&self) -> Seq<u8> {
        spec_u16_to_le_bytes(self.flags) + spec_u16_to_le_bytes(self.format)
            + spec_u32_to_le_bytes(self.size) + self.hdr.repr() + self.data.repr()
    }

    open spec fn spec_from_bytes(b: Seq<u8>) -> Self {
        KvmNestedStateBuffer {
            flags: spec_u16_from_le_bytes(b.subrange(0, 2)),
            format: spec_u16_from_le_bytes(b.subrange(2, 4)),
            size: spec_u32_from_le_bytes(b.subrange(4, 8)),
            hdr: kvm_nested_state__bindgen_ty_1::spec_from_bytes(b.subrange(8, 128)),
            data: kvm_nested_state__data::spec_from_bytes(b.subrange(128, 8320)),
        }
    }

    proof fn lemma_repr_len(&self) {
        lemma_auto_spec_u16_to_from_le_bytes();
        lemma_auto_spec_u32_to_from_le_bytes();
    }

    proof fn lemma_from_repr(&self) {
        lemma_auto_spec_u16_to_from_le_bytes();
        lemma_auto_spec_u32_to_from_le_bytes();
        self.hdr.lemma_from_repr();
        self.data.lemma_from_repr();
        assert(self.repr().subrange(0, 2) =~= spec_u16_to_le_bytes(self.flags));
        assert(self.repr().subrange(2, 4) =~= spec_u16_to_le_bytes(self.format));
        assert(self.repr().subrange(4, 8) =~= spec_u32_to_le_bytes(self.size));
        assert(self.repr().subrange(8, 128) =~= self.hdr.repr());
        assert(self.repr().subrange(128, 8320) =~= self.data.repr());
    }

    fn byte_size() -> (r: usize) {
        KVM_NESTED_STATE_BUFFER_SIZE
    }

    fn write_bytes(&self, out: &mut Vec<u8>) {
        write_u16(out, self.flags);
        write_u16(out, self.format);
        write_u32(out, self.size);
        self.hdr.write_bytes(out);
        self.data.write_bytes(out);
        proof {
            assert(out@ =~= old(out)@ + self.repr());
        }
    }

    fn read_bytes(buf: &[u8], offset: usize) -> (r: Self) {
        proof {
            vstd::slice::axiom_spec_len(buf);
        }
        let flags = read_u16(buf, offset);
        let format = read_u16(buf, offset + 2);
        let size = read_u32(buf, offset + 4);
        let hdr = <kvm_nested_state__bindgen_ty_1 as ByteRepr>::read_bytes(buf, offset + 8);
        let data = <kvm_nested_state__data as ByteRepr>::read_bytes(buf, offset + 128);
        let r = KvmNestedStateBuffer { flags, format, size, hdr, data };
        proof {
            let s = buf@.subrange(offset as int, offset + 8320);
            assert(s.subrange(0, 2) =~= buf@.subrange(offset as int, offset + 2));
            assert(s.subrange(2, 4) =~= buf@.subrange(offset + 2, offset + 4));
            assert(s.subrange(4, 8) =~= buf@.subrange(offset + 4, offset + 8));
            assert(s.subrange(8, 128) =~= buf@.subrange(offset + 8, offset + 128));
            assert(s.subrange(128, 8320) =~= buf@.subrange(offset + 128, offset + 8320));
            assert(r.repr() =~= s);
        }
        r
    }
}

impl Default for KvmNestedStateBuffer {
    fn default() -> (r: Self)
        ensures
            r.flags == 0,
            r.format == 0,
            r.size == KVM_NESTED_STATE_BUFFER_SIZE as u32,
            r.hdr.pad@ == Seq::new(KVM_NESTED_STATE_HDR_SIZE as nat, |i: int| 0u8),
            r.data.spec_bytes() == Seq::new(KVM_NESTED_STATE_DATA_SIZE as nat, |i: int| 0u8),
    {
        KvmNestedStateBuffer::empty()
    }
}

} // verus!
