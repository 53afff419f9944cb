use kvm_bindings::fam::{Error, FamStruct};
use kvm_bindings::fam_wrappers::{kvm_reg_list, CpuId, KvmIrqRouting, MsrList, RegList};

#[test]
fn test_reg_list_eq() {
    let mut wrapper = RegList::new(1).unwrap();
    assert_eq!(wrapper.as_slice().len(), 1);

    let mut wrapper2 = wrapper.clone();
    assert!(wrapper == wrapper2);

    wrapper.as_mut_slice()[0] = 1;
    assert!(wrapper != wrapper2);
    wrapper2.as_mut_slice()[0] = 1;
    assert!(wrapper == wrapper2);
}

#[test]
fn test_kvm_irq_routing() {
    let wrapper = KvmIrqRouting::new(1).unwrap();
    assert_eq!(wrapper.as_slice().len(), 1);
    assert_eq!(wrapper.as_fam_struct_ref().len(), 1);
    assert_eq!(wrapper.as_fam_struct_ref().nr, 1);
}

#[test]
fn test_new_within_max() {
    // Every count up to the declared maximum succeeds with that many
    // zeroed entries.
    for n in [0usize, 1, 7, 499, 500] {
        let list = RegList::new(n).unwrap();
        assert_eq!(list.as_slice().len(), n);
        assert!(list.as_slice().iter().all(|r| *r == 0));
    }
}

#[test]
fn test_new_over_max() {
    // Scenario: request capacity 501 against a maximum of 500.
    assert_eq!(RegList::new(501).err(), Some(Error::SizeLimitExceeded));
    assert_eq!(RegList::new(usize::MAX).err(), Some(Error::SizeLimitExceeded));
}

#[test]
fn test_write_then_shrink_count() {
    // Scenario: capacity 500, three entries written, count set to three.
    let mut list = RegList::new(500).unwrap();
    list.as_mut_slice()[0] = 11;
    list.as_mut_slice()[1] = 22;
    list.as_mut_slice()[2] = 33;
    list.set_len(3).unwrap();
    assert_eq!(list.as_slice(), &[11, 22, 33]);
}

#[test]
fn test_set_len_grows_zeroed() {
    let mut list = RegList::new(1).unwrap();
    list.as_mut_slice()[0] = 42;
    list.set_len(3).unwrap();
    assert_eq!(list.as_slice(), &[42, 0, 0]);
    assert_eq!(list.set_len(501).unwrap_err(), Error::SizeLimitExceeded);
}

#[test]
fn test_eq_ignores_slack() {
    // Same count and same live entries, built with different capacities.
    let mut small = RegList::new(3).unwrap();
    let mut large = RegList::new(500).unwrap();
    for i in 0..3 {
        small.as_mut_slice()[i] = i as u64 + 1;
        large.as_mut_slice()[i] = i as u64 + 1;
    }
    large.set_len(3).unwrap();
    assert!(small == large);
}

#[test]
fn test_clone_isolated() {
    // Mutating a clone's first entry never changes the original's.
    let mut original = RegList::new(4).unwrap();
    original.as_mut_slice()[0] = 7;
    let mut copy = original.clone();
    assert!(copy == original);
    copy.as_mut_slice()[0] = 8;
    assert_eq!(original.as_slice()[0], 7);
    assert_eq!(copy.as_slice()[0], 8);
    assert!(copy != original);
}

#[test]
fn test_push_and_limit() {
    let mut list = RegList::new(0).unwrap();
    assert_eq!(list.as_slice().len(), 0);
    list.push(5).unwrap();
    list.push(6).unwrap();
    assert_eq!(list.as_slice(), &[5, 6]);

    let mut full = RegList::new(500).unwrap();
    assert_eq!(full.push(1).unwrap_err(), Error::SizeLimitExceeded);
    assert_eq!(full.as_slice().len(), 500);
}

#[test]
fn test_from_entries_round() {
    let regs = [3u64, 1, 4, 1, 5];
    let list = RegList::from_entries(&regs).unwrap();
    assert_eq!(list.as_slice(), &regs);
    assert_eq!(list.as_fam_struct_ref().n, 5);
    assert_eq!(
        RegList::from_entries(&[0u64; 501]).err(),
        Some(Error::SizeLimitExceeded)
    );
}

#[test]
fn test_from_header_checks_count() {
    let empty = RegList::from_header(kvm_reg_list { n: 0 }).unwrap();
    assert_eq!(empty.as_slice().len(), 0);
    assert_eq!(
        RegList::from_header(kvm_reg_list { n: 1 }).err(),
        Some(Error::SizeLimitExceeded)
    );
}

#[test]
fn test_irq_routing_header_eq() {
    let mut a = KvmIrqRouting::new(2).unwrap();
    let b = KvmIrqRouting::new(2).unwrap();
    assert!(a == b);
    // The flags word is part of the header comparison.
    let mut with_flags = KvmIrqRouting::new(2).unwrap();
    assert!(with_flags.as_fam_struct_ref().flags == 0);
    a.as_mut_slice()[0].gsi = 1;
    assert!(a != b);
    with_flags.as_mut_slice()[0].gsi = 1;
    assert!(a == with_flags);
}

#[test]
fn test_cpuid_new_and_clone() {
    let mut cpuid = CpuId::new(4).unwrap();
    assert_eq!(cpuid.as_slice().len(), 4);
    cpuid.as_mut_slice()[0].function = 0x8000_0000;
    cpuid.as_mut_slice()[0].eax = 0x1f;
    let copy = cpuid.clone();
    assert!(copy == cpuid);
    assert_eq!(copy.as_slice()[0].function, 0x8000_0000);
    assert_eq!(CpuId::new(81).err(), Some(Error::SizeLimitExceeded));
}

#[test]
fn test_msr_list_round() {
    let mut list = MsrList::new(2).unwrap();
    list.as_mut_slice()[0] = 0x174;
    list.as_mut_slice()[1] = 0x175;
    let bytes = list.to_bytes();
    // Header: nmsrs == 2, little-endian; then the two indices.
    assert_eq!(bytes.len(), 4 + 8);
    assert_eq!(&bytes[0..4], &[2u8, 0, 0, 0]);
    assert_eq!(&bytes[4..8], &[0x74, 0x01, 0, 0]);
    let back = MsrList::from_bytes(&bytes).unwrap();
    assert!(back == list);
    assert_eq!(MsrList::new(257).err(), Some(Error::SizeLimitExceeded));
}

#[test]
fn test_mut_header_access() {
    let mut table = KvmIrqRouting::new(1).unwrap();
    table.as_mut_fam_struct_ref().flags = 5;
    assert_eq!(table.as_fam_struct_ref().flags, 5);
    assert_eq!(table.as_fam_struct_ref().nr, 1);
    assert_eq!(table.as_slice().len(), 1);
}
