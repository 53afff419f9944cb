//! Safe, verified abstractions for kernel ABI data structures that end in a
//! flexible array member (FAM): a fixed header followed by a variable number
//! of entries, where the valid entry count is recorded in a header field and
//! the backing allocation is bounded by a declared maximum.
//!
//! The crate provides a generic FAM container with length-clamped views, a
//! fixed-capacity buffer for nested virtualization state, and a byte-exact
//! serialization adapter for plain ABI structures.

pub mod fam;
pub mod fam_wrappers;
pub mod nested;
pub mod riscv64;
pub mod serialize;
pub mod vm;

pub use fam::{Error, FamStruct, FamStructWrapper};
pub use fam_wrappers::{kvm_cpuid2, kvm_cpuid_entry2, kvm_irq_routing, kvm_irq_routing_entry,
    kvm_msr_list, kvm_reg_list, CpuId, KvmIrqRouting, MsrList, RegList};
pub use nested::{kvm_svm_nested_state_data, kvm_vmx_nested_state_data, KvmNestedStateBuffer};
pub use serialize::{deserialize, serialize, ByteRepr, FormatError};
pub use vm::{IoEventAddress, NoDatamatch};
