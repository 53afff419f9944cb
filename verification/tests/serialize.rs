use kvm_bindings::fam::FamStructWrapper;
use kvm_bindings::fam_wrappers::{kvm_irq_routing, kvm_irq_routing_entry, RegList};
use kvm_bindings::riscv64::{kvm_mp_state, kvm_one_reg, kvm_riscv_aia_csr, kvm_riscv_config,
    kvm_riscv_core, kvm_riscv_csr, kvm_riscv_sbi_sta, kvm_riscv_smstateen_csr, kvm_riscv_timer,
    user_regs_struct};
use kvm_bindings::serialize::{deserialize, serialize, ByteRepr, FormatError};

fn is_serde<T: ByteRepr + Default>() {
    let serialized = serialize(&T::default());
    let deserialized: T = deserialize(&serialized).unwrap();
    let serialized_again = serialize(&deserialized);
    // Compare the serialized state after a roundtrip, to work around issues with
    // bindings not implementing `PartialEq`.
    assert_eq!(serialized, serialized_again);
}

#[test]
fn static_assert_serde_implementations() {
    // This test statically (= at compile-time) asserts that the kernel
    // structures carried over the serialization adapter all implement it;
    // if one of them loses its implementation, this fails to compile.
    is_serde::<kvm_mp_state>();
    is_serde::<kvm_one_reg>();
    is_serde::<kvm_riscv_config>();
    is_serde::<kvm_riscv_core>();
    is_serde::<user_regs_struct>();
    is_serde::<kvm_riscv_csr>();
    is_serde::<kvm_riscv_aia_csr>();
    is_serde::<kvm_riscv_smstateen_csr>();
    is_serde::<kvm_riscv_timer>();
    is_serde::<kvm_riscv_sbi_sta>();
    is_serde::<kvm_irq_routing>();
    is_serde::<kvm_irq_routing_entry>();
}

fn is_serde_json<T: ByteRepr + Default>() {
    let serialized = serialize(&T::default());
    let deserialized: T = deserialize(&serialized).unwrap();
    let serialized_again = serialize(&deserialized);
    // Compare the serialized state after a roundtrip, to work around issues with
    // bindings not implementing `PartialEq`.
    assert_eq!(serialized, serialized_again);
}

#[test]
fn test_json_serde() {
    is_serde_json::<kvm_mp_state>();
    is_serde_json::<kvm_one_reg>();
    is_serde_json::<kvm_riscv_config>();
    is_serde_json::<kvm_riscv_core>();
    is_serde_json::<user_regs_struct>();
    is_serde_json::<kvm_riscv_csr>();
    is_serde_json::<kvm_riscv_aia_csr>();
    is_serde_json::<kvm_riscv_smstateen_csr>();
    is_serde_json::<kvm_riscv_timer>();
    is_serde_json::<kvm_riscv_sbi_sta>();
    is_serde_json::<kvm_irq_routing>();
    is_serde_json::<kvm_irq_routing_entry>();
}

#[test]
fn test_mp_state_exact_bytes() {
    let x = kvm_mp_state { mp_state: 1 };
    assert_eq!(serialize(&x), vec![1u8, 0, 0, 0]);
    let y: kvm_mp_state = deserialize(&[5u8, 0, 0, 0]).unwrap();
    assert_eq!(y.mp_state, 5);
}

#[test]
fn test_one_reg_exact_bytes() {
    let x = kvm_one_reg { id: 0x0102030405060708, addr: 0x1122334455667788 };
    assert_eq!(
        serialize(&x),
        vec![8u8, 7, 6, 5, 4, 3, 2, 1, 0x88, 0x77, 0x66, 0x55, 0x44, 0x33, 0x22, 0x11]
    );
    let y: kvm_one_reg = deserialize(&serialize(&x)).unwrap();
    assert_eq!(y.id, x.id);
    assert_eq!(y.addr, x.addr);
}

#[test]
fn test_riscv_core_round_trip() {
    let mut x = kvm_riscv_core::default();
    x.regs.pc = 0x8000_0000;
    x.regs.a0 = 7;
    x.regs.t6 = 0xffff_ffff_ffff_ffff;
    x.mode = 1;
    let bytes = serialize(&x);
    assert_eq!(bytes.len(), 264);
    let y: kvm_riscv_core = deserialize(&bytes).unwrap();
    assert_eq!(y.regs.pc, 0x8000_0000);
    assert_eq!(y.regs.a0, 7);
    assert_eq!(y.regs.t6, 0xffff_ffff_ffff_ffff);
    assert_eq!(y.mode, 1);
    assert_eq!(serialize(&y), bytes);
}

#[test]
fn test_deserialize_wrong_length() {
    let r: Result<kvm_mp_state, FormatError> = deserialize(&[1u8, 2, 3]);
    assert_eq!(r.err(), Some(FormatError::SizeMismatch));
    let r: Result<kvm_one_reg, FormatError> = deserialize(&[0u8; 17]);
    assert_eq!(r.err(), Some(FormatError::SizeMismatch));
}

#[test]
fn test_reg_list_to_bytes() {
    let mut list = RegList::new(2).unwrap();
    list.as_mut_slice()[0] = 0x1111_2222_3333_4444;
    list.as_mut_slice()[1] = 0x5555_6666_7777_8888;
    let bytes = list.to_bytes();
    // Header: n == 2, little-endian; then the two registers.
    assert_eq!(bytes.len(), 24);
    assert_eq!(&bytes[0..8], &[2u8, 0, 0, 0, 0, 0, 0, 0]);
    assert_eq!(&bytes[8..16], &[0x44, 0x44, 0x33, 0x33, 0x22, 0x22, 0x11, 0x11]);
    let back = RegList::from_bytes(&bytes).unwrap();
    assert!(back == list);
    assert_eq!(back.to_bytes(), bytes);
}

#[test]
fn test_irq_routing_to_bytes() {
    let mut table = kvm_bindings::fam_wrappers::KvmIrqRouting::new(1).unwrap();
    table.as_mut_slice()[0].gsi = 9;
    table.as_mut_slice()[0].type_ = 2;
    table.as_mut_slice()[0].u.pad[0] = 0xab;
    let bytes = table.to_bytes();
    assert_eq!(bytes.len(), 8 + 48);
    assert_eq!(&bytes[0..4], &[1u8, 0, 0, 0]);
    assert_eq!(&bytes[8..12], &[9u8, 0, 0, 0]);
    assert_eq!(bytes[24], 0xab);
    let back = kvm_bindings::fam_wrappers::KvmIrqRouting::from_bytes(&bytes).unwrap();
    assert!(back == table);
    assert_eq!(back.to_bytes(), bytes);
}

#[test]
fn test_fam_from_bytes_count_too_large() {
    // Header reports three registers, the buffer only holds two.
    let mut bytes = vec![0u8; 8 + 16];
    bytes[0] = 3;
    let r: Result<RegList, FormatError> = FamStructWrapper::from_bytes(&bytes);
    assert_eq!(r.err(), Some(FormatError::CountMismatch));
}

#[test]
fn test_fam_from_bytes_over_max() {
    // A buffer sized for more registers than the declared maximum.
    let mut bytes = vec![0u8; 8 + 501 * 8];
    bytes[0] = 1;
    let r: Result<RegList, FormatError> = FamStructWrapper::from_bytes(&bytes);
    assert_eq!(r.err(), Some(FormatError::CountMismatch));
}

#[test]
fn test_fam_from_bytes_ragged_length() {
    // Not a whole number of entries after the header.
    let bytes = vec![0u8; 8 + 5];
    let r: Result<RegList, FormatError> = FamStructWrapper::from_bytes(&bytes);
    assert_eq!(r.err(), Some(FormatError::SizeMismatch));
    // Shorter than the header itself.
    let bytes = vec![0u8; 4];
    let r: Result<RegList, FormatError> = FamStructWrapper::from_bytes(&bytes);
    assert_eq!(r.err(), Some(FormatError::SizeMismatch));
}

#[test]
fn test_fam_from_bytes_slack_preserved() {
    // A kernel-written image: capacity five, count rewritten to two.
    let mut list = RegList::new(5).unwrap();
    {
        let regs = list.as_mut_slice();
        for (i, reg) in regs.iter_mut().enumerate() {
            *reg = 100 + i as u64;
        }
    }
    let mut bytes = list.to_bytes();
    bytes[0] = 2;
    let back = RegList::from_bytes(&bytes).unwrap();
    assert_eq!(back.as_slice(), &[100, 101]);
    // Serializing again keeps header plus live entries only.
    assert_eq!(back.to_bytes().len(), 8 + 2 * 8);
}
