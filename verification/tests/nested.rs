use kvm_bindings::nested::{kvm_svm_nested_state_data, kvm_vmx_nested_state_data,
    KvmNestedStateBuffer, KVM_NESTED_STATE_BUFFER_SIZE};
use kvm_bindings::serialize::{deserialize, serialize};

#[test]
fn test_layout() {
    // When this fails/changes, we should re-evaluate the overall types and API
    assert_eq!(size_of::<KvmNestedStateBuffer>(), 8320);
    assert_eq!(KVM_NESTED_STATE_BUFFER_SIZE, 8320);
}

#[test]
fn test_empty_reports_full_size() {
    // Every instance reports the full static capacity, whichever variant
    // will be populated.
    let buffer = KvmNestedStateBuffer::empty();
    assert_eq!(buffer.size, 8320);
    assert_eq!(buffer.flags, 0);
    assert_eq!(buffer.format, 0);
    let other = KvmNestedStateBuffer::default();
    assert_eq!(other.size, 8320);
}

#[test]
fn test_buffer_serialized_size() {
    let buffer = KvmNestedStateBuffer::empty();
    let bytes = serialize(&buffer);
    assert_eq!(bytes.len(), 8320);
    // The size field sits right after flags and format, little-endian:
    // 8320 == 0x2080.
    assert_eq!(&bytes[0..8], &[0, 0, 0, 0, 0x80, 0x20, 0, 0]);
}

#[test]
fn test_buffer_round_trip() {
    let mut buffer = KvmNestedStateBuffer::empty();
    buffer.flags = 3;
    buffer.format = 1;
    buffer.hdr.pad[0] = 0x55;
    let mut svm = kvm_svm_nested_state_data { vmcb12: [0u8; 4096] };
    svm.vmcb12[7] = 0x77;
    buffer.data.set_svm(&svm);
    let bytes = serialize(&buffer);
    let back: KvmNestedStateBuffer = deserialize(&bytes).unwrap();
    assert_eq!(back.flags, 3);
    assert_eq!(back.format, 1);
    assert_eq!(back.hdr.pad[0], 0x55);
    assert_eq!(back.data.svm().vmcb12[7], 0x77);
    assert_eq!(serialize(&back), bytes);
}

#[test]
fn test_data_union_views() {
    let mut buffer = KvmNestedStateBuffer::empty();
    let mut vmx = kvm_vmx_nested_state_data {
        vmcs12: [0u8; 4096],
        shadow_vmcs12: [0u8; 4096],
    };
    vmx.vmcs12[0] = 1;
    vmx.shadow_vmcs12[0] = 2;
    buffer.data.set_vmx(&vmx);
    // The same region read as the SVM variant sees the first page.
    assert_eq!(buffer.data.svm().vmcb12[0], 1);
    let round = buffer.data.vmx();
    assert_eq!(round.vmcs12[0], 1);
    assert_eq!(round.shadow_vmcs12[0], 2);
    // The SVM variant covers only the first page; the shadow page stays.
    let svm = kvm_svm_nested_state_data { vmcb12: [9u8; 4096] };
    buffer.data.set_svm(&svm);
    assert_eq!(buffer.data.vmx().vmcs12[4095], 9);
    assert_eq!(buffer.data.vmx().shadow_vmcs12[0], 2);
}
