//! Concrete FAM structures of the KVM interface: the register list returned
//! by `KVM_GET_REG_LIST`, the interrupt routing table consumed by
//! `KVM_SET_GSI_ROUTING`, the CPUID entry array and the MSR index list of
//! the x86 system calls, each with its container alias.

use crate::fam::{FamStruct, FamStructWrapper};
use crate::serialize::{array_eq, lemma_seq_to_array_id, read_array, read_u32, seq_to_array,
    write_array, write_u32, ByteRepr};
use vstd::bytes::*;
use vstd::prelude::*;

verus! {

// There is no constant in the kernel as far as the maximum number
// of registers on arm, but KVM_GET_REG_LIST usually returns around 450.
pub const ARM64_REGS_MAX: usize = 500;

/// Maximum number of interrupt routes held in one routing table.
pub const KVM_MAX_IRQ_ROUTES: usize = 1024;

/// Header of the `kvm_reg_list` FAM structure: the register count, followed
/// in the ABI by that many `u64` register identifiers.
#[allow(non_camel_case_types)]
#[derive(Clone, Copy, Debug)]
pub struct kvm_reg_list {
    pub n: u64,
}

/// Header of the `kvm_irq_routing` FAM structure: the route count and the
/// flags word, followed in the ABI by that many routing entries.
#[allow(non_camel_case_types)]
#[derive(Clone, Copy, Debug)]
pub struct kvm_irq_routing {
    pub nr: u32,
    pub flags: u32,
}

/// In-place stand-in for the untagged union at the tail of one routing
/// entry: a 32-byte region whose meaning depends on the entry's `type_`
/// field, kept here as its raw bit pattern.
#[allow(non_camel_case_types)]
#[derive(Clone, Copy, Debug)]
pub struct kvm_irq_routing_entry__bindgen_ty_1 {
    pub pad: [u8; 32],
}

/// One interrupt routing entry: a global system interrupt number, the route
/// kind, flags, and the kind-dependent payload.
#[allow(non_camel_case_types)]
#[derive(Clone, Copy, Debug)]
pub struct kvm_irq_routing_entry {
    pub gsi: u32,
    pub type_: u32,
    pub flags: u32,
    pub pad: u32,
    pub u: kvm_irq_routing_entry__bindgen_ty_1,
}

/// Maximum number of CPUID entries requested from the kernel.
pub const KVM_MAX_CPUID_ENTRIES: usize = 80;

/// Maximum number of MSR indices requested from the kernel.
pub const KVM_MAX_MSR_ENTRIES: usize = 256;

/// Header of the `kvm_cpuid2` FAM structure: the entry count and a padding
/// word, followed in the ABI by that many CPUID entries.
#[allow(non_camel_case_types)]
#[derive(Clone, Copy, Debug)]
pub struct kvm_cpuid2 {
    pub nent: u32,
    pub padding: u32,
}

/// One CPUID entry: the leaf, the subleaf, flags, the four result
/// registers, and trailing padding kept as its raw bit pattern.
#[allow(non_camel_case_types)]
#[derive(Clone, Copy, Debug)]
pub struct kvm_cpuid_entry2 {
    pub function: u32,
    pub index: u32,
    pub flags: u32,
    pub eax: u32,
    pub ebx: u32,
    pub ecx: u32,
    pub edx: u32,
    pub padding: [u8; 12],
}

/// Header of the `kvm_msr_list` FAM structure: the index count, followed in
/// the ABI by that many `u32` MSR indices.
#[allow(non_camel_case_types)]
#[derive(Clone, Copy, Debug)]
pub struct kvm_msr_list {
    pub nmsrs: u32,
}

/// Wrapper over the `kvm_reg_list` structure.
pub type RegList = FamStructWrapper<kvm_reg_list>;

/// Wrapper over the `kvm_irq_routing` structure.
pub type KvmIrqRouting = FamStructWrapper<kvm_irq_routing>;

/// Wrapper over the `kvm_cpuid2` structure.
pub type CpuId = FamStructWrapper<kvm_cpuid2>;

/// Wrapper over the `kvm_msr_list` structure.
pub type MsrList = FamStructWrapper<kvm_msr_list>;

impl FamStruct for kvm_reg_list {
    type Entry = u64;

    open spec fn spec_max_len() -> nat {
        ARM64_REGS_MAX as nat
    }

    open spec fn spec_len(&self) -> nat {
        (self.n as usize) as nat
    }

    open spec fn spec_with_len(&self, len: nat) -> Self {
        kvm_reg_list { n: len as u64 }
    }

    open spec fn spec_header_eq(&self, other: &Self) -> bool {
        self.n == other.n
    }

    open spec fn spec_default() -> Self {
        kvm_reg_list { n: 0 }
    }

    open spec fn spec_default_entry() -> u64 {
        0
    }

    proof fn lemma_with_len_len(&self, len: nat) {
    }

    proof fn lemma_header_eq_refl(&self) {
    }

    proof fn lemma_header_eq_len(&self, other: &Self) {
    }

    fn max_len() -> (r: usize) {
        ARM64_REGS_MAX
    }

    fn len(&self) -> (r: usize) {
        self.n as usize
    }

    fn set_len(&mut self, len: usize) {
        self.n = len as u64;
    }

    fn default_header() -> (r: Self) {
        kvm_reg_list { n: 0 }
    }

    fn default_entry() -> (r: u64) {
        0
    }

    fn header_eq(&self, other: &Self) -> (r: bool) {
        self.n == other.n
    }

    fn entry_eq(a: &u64, b: &u64) -> (r: bool) {
        *a == *b
    }
}

impl FamStruct for kvm_irq_routing {
    type Entry = kvm_irq_routing_entry;

    open spec fn spec_max_len() -> nat {
        KVM_MAX_IRQ_ROUTES as nat
    }

    open spec fn spec_len(&self) -> nat {
        self.nr as nat
    }

    open spec fn spec_with_len(&self, len: nat) -> Self {
        kvm_irq_routing { nr: len as u32, flags: self.flags }
    }

    open spec fn spec_header_eq(&self, other: &Self) -> bool {
        self.nr == other.nr && self.flags == other.flags
    }

    open spec fn spec_default() -> Self {
        kvm_irq_routing { nr: 0, flags: 0 }
    }

    open spec fn spec_default_entry() -> kvm_irq_routing_entry {
        kvm_irq_routing_entry {
            gsi: 0,
            type_: 0,
            flags: 0,
            pad: 0,
            u: kvm_irq_routing_entry__bindgen_ty_1 { pad: seq_to_array::<32>(Seq::new(32, |i: int| 0u8)) },
        }
    }

    proof fn lemma_with_len_len(&self, len: nat) {
    }

    proof fn lemma_header_eq_refl(&self) {
    }

    proof fn lemma_header_eq_len(&self, other: &Self) {
    }

    fn max_len() -> (r: usize) {
        KVM_MAX_IRQ_ROUTES
    }

    fn len(&self) -> (r: usize) {
        self.nr as usize
    }

    fn set_len(&mut self, len: usize) {
        self.nr = len as u32;
    }

    fn default_header() -> (r: Self) {
        kvm_irq_routing { nr: 0, flags: 0 }
    }

    fn default_entry() -> (r: kvm_irq_routing_entry) {
        let zeroed = [0u8; 32];
        proof {
            lemma_seq_to_array_id::<32>(zeroed);
            assert(zeroed@ =~= Seq::new(32, |i: int| 0u8));
        }
        kvm_irq_routing_entry {
            gsi: 0,
            type_: 0,
            flags: 0,
            pad: 0,
            u: kvm_irq_routing_entry__bindgen_ty_1 { pad: zeroed },
        }
    }

    fn header_eq(&self, other: &Self) -> (r: bool) {
        self.nr == other.nr && self.flags == other.flags
    }

    fn entry_eq(a: &kvm_irq_routing_entry, b: &kvm_irq_routing_entry) -> (r: bool) {
        a.gsi == b.gsi && a.type_ == b.type_ && a.flags == b.flags && a.pad == b.pad && array_eq(
            &a.u.pad,
            &b.u.pad,
        )
    }
}

// The header equality of each FAM structure, as used by callers comparing
// headers directly: the count field, plus the flags word where there is one.
// The trailing entries are compared by the container.
impl PartialEq for kvm_reg_list {
    fn eq(&self, other: &Self) -> (r: bool) {
        self.n == other.n
    }
}

impl vstd::std_specs::cmp::PartialEqSpecImpl for kvm_reg_list {
    open spec fn obeys_eq_spec() -> bool {
        true
    }

    open spec fn eq_spec(&self, other: &Self) -> bool {
        self.n == other.n
    }
}

impl PartialEq for kvm_irq_routing {
    fn eq(&self, other: &Self) -> (r: bool) {
        self.nr == other.nr && self.flags == other.flags
    }
}

impl vstd::std_specs::cmp::PartialEqSpecImpl for kvm_irq_routing {
    open spec fn obeys_eq_spec() -> bool {
        true
    }

    open spec fn eq_spec(&self, other: &Self) -> bool {
        self.nr == other.nr && self.flags == other.flags
    }
}

impl Default for kvm_irq_routing {
    fn default() -> (r: Self)
        ensures
            r == (kvm_irq_routing { nr: 0, flags: 0 }),
    {
        kvm_irq_routing { nr: 0, flags: 0 }
    }
}

impl Default for kvm_irq_routing_entry {
    fn default() -> (r: Self)
        ensures
            r == <kvm_irq_routing as FamStruct>::spec_default_entry(),
    {
        <kvm_irq_routing as FamStruct>::default_entry()
    }
}

/// The ABI image of a register list header: its count, little-endian.
impl ByteRepr for kvm_reg_list {
    open spec fn spec_size() -> nat {
        8
    }

    open spec fn repr(&self) -> Seq<u8> {
        spec_u64_to_le_bytes(self.n)
    }

    open spec fn spec_from_bytes(b: Seq<u8>) -> Self {
        kvm_reg_list { n: spec_u64_from_le_bytes(b) }
    }

    proof fn lemma_repr_len(&self) {
        lemma_auto_spec_u64_to_from_le_bytes();
    }

    proof fn lemma_from_repr(&self) {
        lemma_auto_spec_u64_to_from_le_bytes();
    }

    fn byte_size() -> (r: usize) {
        8
    }

    fn write_bytes(&self, out: &mut Vec<u8>) {
        crate::serialize::write_u64(out, self.n);
    }

    fn read_bytes(buf: &[u8], offset: usize) -> (r: Self) {
        kvm_reg_list { n: crate::serialize::read_u64(buf, offset) }
    }
}

/// The ABI image of a routing table header: count and flags, little-endian.
impl ByteRepr for kvm_irq_routing {
    open spec fn spec_size() -> nat {
        8
    }

    open spec fn repr(&self) -> Seq<u8> {
        spec_u32_to_le_bytes(self.nr) + spec_u32_to_le_bytes(self.flags)
    }

    open spec fn spec_from_bytes(b: Seq<u8>) -> Self {
        kvm_irq_routing {
            nr: spec_u32_from_le_bytes(b.subrange(0, 4)),
            flags: spec_u32_from_le_bytes(b.subrange(4, 8)),
        }
    }

    proof fn lemma_repr_len(&self) {
        lemma_auto_spec_u32_to_from_le_bytes();
    }

    proof fn lemma_from_repr(&self) {
        lemma_auto_spec_u32_to_from_le_bytes();
        assert(self.repr().subrange(0, 4) =~= spec_u32_to_le_bytes(self.nr));
        assert(self.repr().subrange(4, 8) =~= spec_u32_to_le_bytes(self.flags));
    }

    fn byte_size() -> (r: usize) {
        8
    }

    fn write_bytes(&self, out: &mut Vec<u8>) {
        write_u32(out, self.nr);
        write_u32(out, self.flags);
        proof {
            assert(out@ =~= old(out)@ + self.repr());
        }
    }

    fn read_bytes(buf: &[u8], offset: usize) -> (r: Self) {
        proof {
            vstd::slice::axiom_spec_len(buf);
        }
        let nr = read_u32(buf, offset);
        let flags = read_u32(buf, offset + 4);
        let r = kvm_irq_routing { nr, flags };
        proof {
            let s = buf@.subrange(offset as int, offset + 8);
            assert(s.subrange(0, 4) =~= buf@.subrange(offset as int, offset + 4));
            assert(s.subrange(4, 8) =~= buf@.subrange(offset + 4, offset + 8));
            assert(r.repr() =~= s);
        }
        r
    }
}

/// The ABI image of the routing entry payload: its raw 32 bytes.
impl ByteRepr for kvm_irq_routing_entry__bindgen_ty_1 {
    open spec fn spec_size() -> nat {
        32
    }

    open spec fn repr(&self) -> Seq<u8> {
        self.pad@
    }

    open spec fn spec_from_bytes(b: Seq<u8>) -> Self {
        kvm_irq_routing_entry__bindgen_ty_1 { pad: seq_to_array::<32>(b) }
    }

    proof fn lemma_repr_len(&self) {
    }

    proof fn lemma_from_repr(&self) {
        lemma_seq_to_array_id::<32>(self.pad);
    }

    fn byte_size() -> (r: usize) {
        32
    }

    fn write_bytes(&self, out: &mut Vec<u8>) {
        write_array(out, &self.pad);
    }

    fn read_bytes(buf: &[u8], offset: usize) -> (r: Self) {
        kvm_irq_routing_entry__bindgen_ty_1 { pad: read_array::<32>(buf, offset) }
    }
}

/// The ABI image of one routing entry: four little-endian words, then the
/// raw payload.
impl ByteRepr for kvm_irq_routing_entry {
    open spec fn spec_size() -> nat {
        48
    }

    open spec fn repr(&self) -> Seq<u8> {
        spec_u32_to_le_bytes(self.gsi) + spec_u32_to_le_bytes(self.type_) + spec_u32_to_le_bytes(
            self.flags,
        ) + spec_u32_to_le_bytes(self.pad) + self.u.repr()
    }

    open spec fn spec_from_bytes(b: Seq<u8>) -> Self {
        kvm_irq_routing_entry {
            gsi: spec_u32_from_le_bytes(b.subrange(0, 4)),
            type_: spec_u32_from_le_bytes(b.subrange(4, 8)),
            flags: spec_u32_from_le_bytes(b.subrange(8, 12)),
            pad: spec_u32_from_le_bytes(b.subrange(12, 16)),
            u: kvm_irq_routing_entry__bindgen_ty_1::spec_from_bytes(b.subrange(16, 48)),
        }
    }

    proof fn lemma_repr_len(&self) {
        lemma_auto_spec_u32_to_from_le_bytes();
    }

    proof fn lemma_from_repr(&self) {
        lemma_auto_spec_u32_to_from_le_bytes();
        self.u.lemma_from_repr();
        assert(self.repr().subrange(0, 4) =~= spec_u32_to_le_bytes(self.gsi));
        assert(self.repr().subrange(4, 8) =~= spec_u32_to_le_bytes(self.type_));
        assert(self.repr().subrange(8, 12) =~= spec_u32_to_le_bytes(self.flags));
        assert(self.repr().subrange(12, 16) =~= spec_u32_to_le_bytes(self.pad));
        assert(self.repr().subrange(16, 48) =~= self.u.repr());
    }

    fn byte_size() -> (r: usize) {
        48
    }

    fn write_bytes(&self, out: &mut Vec<u8>) {
        write_u32(out, self.gsi);
        write_u32(out, self.type_);
        write_u32(out, self.flags);
        write_u32(out, self.pad);
        self.u.write_bytes(out);
        proof {
            assert(out@ =~= old(out)@ + self.repr());
        }
    }

    fn read_bytes(buf: &[u8], offset: usize) -> (r: Self) {
        proof {
            vstd::slice::axiom_spec_len(buf);
        }
        let gsi = read_u32(buf, offset);
        let type_ = read_u32(buf, offset + 4);
        let flags = read_u32(buf, offset + 8);
        let pad = read_u32(buf, offset + 12);
        let u = <kvm_irq_routing_entry__bindgen_ty_1 as ByteRepr>::read_bytes(buf, offset + 16);
        let r = kvm_irq_routing_entry { gsi, type_, flags, pad, u };
        proof {
            let s = buf@.subrange(offset as int, offset + 48);
            assert(s.subrange(0, 4) =~= buf@.subrange(offset as int, offset + 4));
            assert(s.subrange(4, 8) =~= buf@.subrange(offset + 4, offset + 8));
            assert(s.subrange(8, 12) =~= buf@.subrange(offset + 8, offset + 12));
            assert(s.subrange(12, 16) =~= buf@.subrange(offset + 12, offset + 16));
            assert(s.subrange(16, 48) =~= buf@.subrange(offset + 16, offset + 48));
            assert(r.repr() =~= s);
        }
        r
    }
}

impl FamStruct for kvm_cpuid2 {
    type Entry = kvm_cpuid_entry2;

    open spec fn spec_max_len() -> nat {
        KVM_MAX_CPUID_ENTRIES as nat
    }

    open spec fn spec_len(&self) -> nat {
        self.nent as nat
    }

    open spec fn spec_with_len(&self, len: nat) -> Self {
        kvm_cpuid2 { nent: len as u32, padding: self.padding }
    }

    open spec fn spec_header_eq(&self, other: &Self) -> bool {
        self.nent == other.nent && self.padding == other.padding
    }

    open spec fn spec_default() -> Self {
        kvm_cpuid2 { nent: 0, padding: 0 }
    }

    open spec fn spec_default_entry() -> kvm_cpuid_entry2 {
        kvm_cpuid_entry2 {
            function: 0,
            index: 0,
            flags: 0,
            eax: 0,
            ebx: 0,
            ecx: 0,
            edx: 0,
            padding: seq_to_array::<12>(Seq::new(12, |i: int| 0u8)),
        }
    }

    proof fn lemma_with_len_len(&self, len: nat) {
    }

    proof fn lemma_header_eq_refl(&self) {
    }

    proof fn lemma_header_eq_len(&self, other: &Self) {
    }

    fn max_len() -> (r: usize) {
        KVM_MAX_CPUID_ENTRIES
    }

    fn len(&self) -> (r: usize) {
        self.nent as usize
    }

    fn set_len(&mut self, len: usize) {
        self.nent = len as u32;
    }

    fn default_header() -> (r: Self) {
        kvm_cpuid2 { nent: 0, padding: 0 }
    }

    fn default_entry() -> (r: kvm_cpuid_entry2) {
        let zeroed = [0u8; 12];
        proof {
            lemma_seq_to_array_id::<12>(zeroed);
            assert(zeroed@ =~= Seq::new(12, |i: int| 0u8));
        }
        kvm_cpuid_entry2 {
            function: 0,
            index: 0,
            flags: 0,
            eax: 0,
            ebx: 0,
            ecx: 0,
            edx: 0,
            padding: zeroed,
        }
    }

    fn header_eq(&self, other: &Self) -> (r: bool) {
        self.nent == other.nent && self.padding == other.padding
    }

    fn entry_eq(a: &kvm_cpuid_entry2, b: &kvm_cpuid_entry2) -> (r: bool) {
        a.function == b.function && a.index == b.index && a.flags == b.flags && a.eax == b.eax
            && a.ebx == b.ebx && a.ecx == b.ecx && a.edx == b.edx && array_eq(
            &a.padding,
            &b.padding,
        )
    }
}

impl FamStruct for kvm_msr_list {
    type Entry = u32;

    open spec fn spec_max_len() -> nat {
        KVM_MAX_MSR_ENTRIES as nat
    }

    open spec fn spec_len(&self) -> nat {
        self.nmsrs as nat
    }

    open spec fn spec_with_len(&self, len: nat) -> Self {
        kvm_msr_list { nmsrs: len as u32 }
    }

    open spec fn spec_header_eq(&self, other: &Self) -> bool {
        self.nmsrs == other.nmsrs
    }

    open spec fn spec_default() -> Self {
        kvm_msr_list { nmsrs: 0 }
    }

    open spec fn spec_default_entry() -> u32 {
        0
    }

    proof fn lemma_with_len_len(&self, len: nat) {
    }

    proof fn lemma_header_eq_refl(&self) {
    }

    proof fn lemma_header_eq_len(&self, other: &Self) {
    }

    fn max_len() -> (r: usize) {
        KVM_MAX_MSR_ENTRIES
    }

    fn len(&self) -> (r: usize) {
        self.nmsrs as usize
    }

    fn set_len(&mut self, len: usize) {
        self.nmsrs = len as u32;
    }

    fn default_header() -> (r: Self) {
        kvm_msr_list { nmsrs: 0 }
    }

    fn default_entry() -> (r: u32) {
        0
    }

    fn header_eq(&self, other: &Self) -> (r: bool) {
        self.nmsrs == other.nmsrs
    }

    fn entry_eq(a: &u32, b: &u32) -> (r: bool) {
        *a == *b
    }
}

impl PartialEq for kvm_cpuid2 {
    fn eq(&self, other: &Self) -> (r: bool) {
        self.nent == other.nent && self.padding == other.padding
    }
}

impl vstd::std_specs::cmp::PartialEqSpecImpl for kvm_cpuid2 {
    open spec fn obeys_eq_spec() -> bool {
        true
    }

    open spec fn eq_spec(&self, other: &Self) -> bool {
        self.nent == other.nent && self.padding == other.padding
    }
}

impl PartialEq for kvm_msr_list {
    fn eq(&self, other: &Self) -> (r: bool) {
        self.nmsrs == other.nmsrs
    }
}

impl vstd::std_specs::cmp::PartialEqSpecImpl for kvm_msr_list {
    open spec fn obeys_eq_spec() -> bool {
        true
    }

    open spec fn eq_spec(&self, other: &Self) -> bool {
        self.nmsrs == other.nmsrs
    }
}

impl Default for kvm_cpuid_entry2 {
    fn default() -> (r: Self)
        ensures
            r == <kvm_cpuid2 as FamStruct>::spec_default_entry(),
    {
        <kvm_cpuid2 as FamStruct>::default_entry()
    }
}

/// The ABI image of a CPUID array header: entry count and padding word,
/// little-endian.
impl ByteRepr for kvm_cpuid2 {
    open spec fn spec_size() -> nat {
        8
    }

    open spec fn repr(&self) -> Seq<u8> {
        spec_u32_to_le_bytes(self.nent) + spec_u32_to_le_bytes(self.padding)
    }

    open spec fn spec_from_bytes(b: Seq<u8>) -> Self {
        kvm_cpuid2 {
            nent: spec_u32_from_le_bytes(b.subrange(0, 4)),
            padding: spec_u32_from_le_bytes(b.subrange(4, 8)),
        }
    }

    proof fn lemma_repr_len(&self) {
        lemma_auto_spec_u32_to_from_le_bytes();
    }

    proof fn lemma_from_repr(&self) {
        lemma_auto_spec_u32_to_from_le_bytes();
        assert(self.repr().subrange(0, 4) =~= spec_u32_to_le_bytes(self.nent));
        assert(self.repr().subrange(4, 8) =~= spec_u32_to_le_bytes(self.padding));
    }

    fn byte_size() -> (r: usize) {
        8
    }

    fn write_bytes(&self, out: &mut Vec<u8>) {
        write_u32(out, self.nent);
        write_u32(out, self.padding);
        proof {
            assert(out@ =~= old(out)@ + self.repr());
        }
    }

    fn read_bytes(buf: &[u8], offset: usize) -> (r: Self) {
        proof {
            vstd::slice::axiom_spec_len(buf);
        }
        let nent = read_u32(buf, offset);
        let padding = read_u32(buf, offset + 4);
        let r = kvm_cpuid2 { nent, padding };
        proof {
            let s = buf@.subrange(offset as int, offset + 8);
            assert(s.subrange(0, 4) =~= buf@.subrange(offset as int, offset + 4));
            assert(s.subrange(4, 8) =~= buf@.subrange(offset + 4, offset + 8));
            assert(r.repr() =~= s);
        }
        r
    }
}

/// The ABI image of one CPUID entry: seven little-endian words, then the
/// raw padding.
impl ByteRepr for kvm_cpuid_entry2 {
    open spec fn spec_size() -> nat {
        40
    }

    open spec fn repr(&self) -> Seq<u8> {
        spec_u32_to_le_bytes(self.function) + spec_u32_to_le_bytes(self.index)
            + spec_u32_to_le_bytes(self.flags) + spec_u32_to_le_bytes(self.eax)
            + spec_u32_to_le_bytes(self.ebx) + spec_u32_to_le_bytes(self.ecx)
            + spec_u32_to_le_bytes(self.edx) + self.padding@
    }

    open spec fn spec_from_bytes(b: Seq<u8>) -> Self {
        kvm_cpuid_entry2 {
            function: spec_u32_from_le_bytes(b.subrange(0, 4)),
            index: spec_u32_from_le_bytes(b.subrange(4, 8)),
            flags: spec_u32_from_le_bytes(b.subrange(8, 12)),
            eax: spec_u32_from_le_bytes(b.subrange(12, 16)),
            ebx: spec_u32_from_le_bytes(b.subrange(16, 20)),
            ecx: spec_u32_from_le_bytes(b.subrange(20, 24)),
            edx: spec_u32_from_le_bytes(b.subrange(24, 28)),
            padding: seq_to_array::<12>(b.subrange(28, 40)),
        }
    }

    proof fn lemma_repr_len(&self) {
        lemma_auto_spec_u32_to_from_le_bytes();
    }

    proof fn lemma_from_repr(&self) {
        lemma_auto_spec_u32_to_from_le_bytes();
        lemma_seq_to_array_id::<12>(self.padding);
        assert(self.repr().subrange(0, 4) =~= spec_u32_to_le_bytes(self.function));
        assert(self.repr().subrange(4, 8) =~= spec_u32_to_le_bytes(self.index));
        assert(self.repr().subrange(8, 12) =~= spec_u32_to_le_bytes(self.flags));
        assert(self.repr().subrange(12, 16) =~= spec_u32_to_le_bytes(self.eax));
        assert(self.repr().subrange(16, 20) =~= spec_u32_to_le_bytes(self.ebx));
        assert(self.repr().subrange(20, 24) =~= spec_u32_to_le_bytes(self.ecx));
        assert(self.repr().subrange(24, 28) =~= spec_u32_to_le_bytes(self.edx));
        assert(self.repr().subrange(28, 40) =~= self.padding@);
    }

    fn byte_size() -> (r: usize) {
        40
    }

    fn write_bytes(&self, out: &mut Vec<u8>) {
        write_u32(out, self.function);
        write_u32(out, self.index);
        write_u32(out, self.flags);
        write_u32(out, self.eax);
        write_u32(out, self.ebx);
        write_u32(out, self.ecx);
        write_u32(out, self.edx);
        write_array(out, &self.padding);
        proof {
            assert(out@ =~= old(out)@ + self.repr());
        }
    }

    fn read_bytes(buf: &[u8], offset: usize) -> (r: Self) {
        proof {
            vstd::slice::axiom_spec_len(buf);
        }
        let function = read_u32(buf, offset);
        let index = read_u32(buf, offset + 4);
        let flags = read_u32(buf, offset + 8);
        let eax = read_u32(buf, offset + 12);
        let ebx = read_u32(buf, offset + 16);
        let ecx = read_u32(buf, offset + 20);
        let edx = read_u32(buf, offset + 24);
        let padding = read_array::<12>(buf, offset + 28);
        let r = kvm_cpuid_entry2 { function, index, flags, eax, ebx, ecx, edx, padding };
        proof {
            let s = buf@.subrange(offset as int, offset + 40);
            assert(s.subrange(0, 4) =~= buf@.subrange(offset as int, offset + 4));
            assert(s.subrange(4, 8) =~= buf@.subrange(offset + 4, offset + 8));
            assert(s.subrange(8, 12) =~= buf@.subrange(offset + 8, offset + 12));
            assert(s.subrange(12, 16) =~= buf@.subrange(offset + 12, offset + 16));
            assert(s.subrange(16, 20) =~= buf@.subrange(offset + 16, offset + 20));
            assert(s.subrange(20, 24) =~= buf@.subrange(offset + 20, offset + 24));
            assert(s.subrange(24, 28) =~= buf@.subrange(offset + 24, offset + 28));
            assert(s.subrange(28, 40) =~= buf@.subrange(offset + 28, offset + 40));
            assert(r.repr() =~= s);
        }
        r
    }
}

/// The ABI image of an MSR list header: its count, little-endian.
impl ByteRepr for kvm_msr_list {
    open spec fn spec_size() -> nat {
        4
    }

    open spec fn repr(&self) -> Seq<u8> {
        spec_u32_to_le_bytes(self.nmsrs)
    }

    open spec fn spec_from_bytes(b: Seq<u8>) -> Self {
        kvm_msr_list { nmsrs: spec_u32_from_le_bytes(b) }
    }

    proof fn lemma_repr_len(&self) {
        lemma_auto_spec_u32_to_from_le_bytes();
        assert(spec_u32_to_le_bytes(self.nmsrs).len() == 4);
    }

    proof fn lemma_from_repr(&self) {
        lemma_auto_spec_u32_to_from_le_bytes();
        assert(spec_u32_to_le_bytes(self.nmsrs).len() == 4);
    }

    fn byte_size() -> (r: usize) {
        4
    }

    fn write_bytes(&self, out: &mut Vec<u8>) {
        write_u32(out, self.nmsrs);
    }

    fn read_bytes(buf: &[u8], offset: usize) -> (r: Self) {
        kvm_msr_list { nmsrs: read_u32(buf, offset) }
    }
}

} // verus!
