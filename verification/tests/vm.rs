use kvm_bindings::vm::{dirty_log_bitmap_size, ioeventfd_assign, ioeventfd_deassign, irqfd_assign,
    irqfd_deassign, IoEventAddress, NoDatamatch};

#[test]
fn test_ioeventfd_assign_fields() {
    let req = ioeventfd_assign(5, &IoEventAddress::Mmio(0x1000), 0, 0);
    assert_eq!(req.fd, 5);
    assert_eq!(req.addr, 0x1000);
    assert_eq!(req.datamatch, 0);
    assert_eq!(req.len, 0);
    assert_eq!(req.flags, 0);

    let req = ioeventfd_assign(5, &IoEventAddress::Pio(0xf4), 0x61, 4);
    assert_eq!(req.addr, 0xf4);
    assert_eq!(req.datamatch, 0x61);
    assert_eq!(req.len, 4);
    // Datamatch bit and programmable-I/O bit.
    assert_eq!(req.flags, 0b11);
}

#[test]
fn test_ioeventfd_deassign_fields() {
    let req = ioeventfd_deassign(7, &IoEventAddress::Mmio(0x2000));
    assert_eq!(req.fd, 7);
    assert_eq!(req.addr, 0x2000);
    assert_eq!(req.flags, 0b100);
    assert_eq!(req.len, 0);

    let req = ioeventfd_deassign(7, &IoEventAddress::Pio(0xf4));
    assert_eq!(req.flags, 0b110);
}

#[test]
fn test_no_datamatch_converts_to_zero() {
    let datamatch: u64 = NoDatamatch.into();
    assert_eq!(datamatch, 0);
}

#[test]
fn test_irqfd_fields() {
    let req = irqfd_assign(3, 24);
    assert_eq!(req.fd, 3);
    assert_eq!(req.gsi, 24);
    assert_eq!(req.flags, 0);
    assert_eq!(req.resamplefd, 0);

    let req = irqfd_deassign(3, 24);
    assert_eq!(req.fd, 3);
    assert_eq!(req.gsi, 24);
    assert_eq!(req.flags, 1);
}

#[test]
fn test_dirty_log_bitmap_size_exact() {
    // One 64-bit word covers 64 pages of 4 KiB: 262144 bytes.
    assert_eq!(dirty_log_bitmap_size(0), 0);
    assert_eq!(dirty_log_bitmap_size(1), 1);
    assert_eq!(dirty_log_bitmap_size(0x4000), 1);
    assert_eq!(dirty_log_bitmap_size(262144), 1);
    assert_eq!(dirty_log_bitmap_size(262145), 2);
    assert_eq!(dirty_log_bitmap_size(262144 * 3), 3);
    assert_eq!(dirty_log_bitmap_size(usize::MAX), usize::MAX / 262144 + 1);
}
