//! Argument construction for VM requests.
//!
//! The privileged calls that carry these structures to the kernel are issued
//! by the caller that owns the VM descriptor; what is verified here is the
//! construction of each request from plain values: which flag bits are set,
//! which address is carried, and how large the dirty-page bitmap must be.

use vstd::prelude::*;

verus! {

/// Bit number of the datamatch flag in `kvm_ioeventfd::flags`.
pub const KVM_IOEVENTFD_FLAG_NR_DATAMATCH: u32 = 0;

/// Bit number of the programmable-I/O flag in `kvm_ioeventfd::flags`.
pub const KVM_IOEVENTFD_FLAG_NR_PIO: u32 = 1;

/// Bit number of the deassign flag in `kvm_ioeventfd::flags`.
pub const KVM_IOEVENTFD_FLAG_NR_DEASSIGN: u32 = 2;

/// Flag in `kvm_irqfd::flags` that unregisters the event instead of
/// registering it.
pub const KVM_IRQFD_FLAG_DEASSIGN: u32 = 1;

/// Page size assumed for dirty-page logging, in bytes.
pub const DIRTY_LOG_PAGE_SIZE: usize = 4096;

/// Number of dirty-page bits collected into one `u64` bitmap word.
pub const DIRTY_LOG_BITS_PER_WORD: usize = 64;

/// Bytes of guest memory covered by one `u64` bitmap word.
pub const DIRTY_LOG_BYTES_PER_WORD: usize = 4096 * 64;

/// An address either in programmable I/O space or in memory mapped I/O
/// space, as carried in an ioeventfd request.
pub enum IoEventAddress {
    /// Representation of an programmable I/O address.
    Pio(u64),
    /// Representation of an memory mapped I/O address.
    Mmio(u64),
}

/// Helper structure for disabling datamatch.
///
/// Converting it to the datamatch argument gives zero, and its width is
/// zero, so no datamatch filtering is requested.
pub struct NoDatamatch;

/// The raw address a request carries for either address space.
pub open spec fn spec_io_event_address(addr: &IoEventAddress) -> u64 {
    match *addr {
        IoEventAddress::Pio(p) => p,
        IoEventAddress::Mmio(m) => m,
    }
}

/// The `kvm_ioeventfd` request structure.
#[allow(non_camel_case_types)]
#[derive(Clone, Copy, Debug)]
pub struct kvm_ioeventfd {
    pub datamatch: u64,
    pub addr: u64,
    pub len: u32,
    pub fd: i32,
    pub flags: u32,
    pub pad: [u8; 36],
}

/// The `kvm_irqfd` request structure.
#[allow(non_camel_case_types)]
#[derive(Clone, Copy, Debug)]
pub struct kvm_irqfd {
    pub fd: u32,
    pub gsi: u32,
    pub flags: u32,
    pub resamplefd: u32,
    pub pad: [u8; 16],
}

impl From<NoDatamatch> for u64 {
    /// Disabled datamatch compares against zero (and is never enabled,
    /// since its width is zero).
    fn from(s: NoDatamatch) -> (r: u64) {
        0
    }
}

impl vstd::std_specs::convert::FromSpecImpl<NoDatamatch> for u64 {
    open spec fn obeys_from_spec() -> bool {
        true
    }

    open spec fn from_spec(s: NoDatamatch) -> u64 {
        0
    }
}

impl Default for kvm_ioeventfd {
    /// The all-zero request.
    fn default() -> (r: Self)
        ensures
            r.datamatch == 0,
            r.addr == 0,
            r.len == 0,
            r.fd == 0,
            r.flags == 0,
            r.pad@ == Seq::new(36, |i: int| 0u8),
    {
        let r = kvm_ioeventfd { datamatch: 0, addr: 0, len: 0, fd: 0, flags: 0, pad: [0u8; 36] };
        proof {
            assert(r.pad@ =~= Seq::new(36, |i: int| 0u8));
        }
        r
    }
}

impl Default for kvm_irqfd {
    /// The all-zero request.
    fn default() -> (r: Self)
        ensures
            r.fd == 0,
            r.gsi == 0,
            r.flags == 0,
            r.resamplefd == 0,
            r.pad@ == Seq::new(16, |i: int| 0u8),
    {
        let r = kvm_irqfd { fd: 0, gsi: 0, flags: 0, resamplefd: 0, pad: [0u8; 16] };
        proof {
            assert(r.pad@ =~= Seq::new(16, |i: int| 0u8));
        }
        r
    }
}

/// Build the request that registers `fd` to be signalled whenever `addr` is
/// written: the compute half of `register_ioevent`, whose privileged call is
/// issued by the holder of the VM descriptor.
///
/// The datamatch flag is set if and only if the datamatch width is nonzero,
/// and the programmable-I/O flag if and only if the address lies in that
/// space.
pub fn ioeventfd_assign(fd: i32, addr: &IoEventAddress, datamatch: u64, datamatch_len: u32) -> (r:
    kvm_ioeventfd)
    ensures
        r.datamatch == datamatch,
        r.len == datamatch_len,
        r.addr == spec_io_event_address(addr),
        r.fd == fd,
        r.flags == (if datamatch_len > 0 {
            1u32 << KVM_IOEVENTFD_FLAG_NR_DATAMATCH
        } else {
            0u32
        }) | (if *addr is Pio {
            1u32 << KVM_IOEVENTFD_FLAG_NR_PIO
        } else {
            0u32
        }),
        r.pad@ == Seq::new(36, |i: int| 0u8),
{
    let datamatch_flag: u32 = if datamatch_len > 0 {
        1u32 << KVM_IOEVENTFD_FLAG_NR_DATAMATCH
    } else {
        0u32
    };
    let pio_flag: u32 = match *addr {
        IoEventAddress::Pio(_) => 1u32 << KVM_IOEVENTFD_FLAG_NR_PIO,
        IoEventAddress::Mmio(_) => 0u32,
    };
    let a = match addr {
        IoEventAddress::Pio(p) => *p,
        IoEventAddress::Mmio(m) => *m,
    };
    let r = kvm_ioeventfd {
        datamatch,
        addr: a,
        len: datamatch_len,
        fd,
        flags: datamatch_flag | pio_flag,
        pad: [0u8; 36],
    };
    proof {
        assert(r.pad@ =~= Seq::new(36, |i: int| 0u8));
    }
    r
}

/// Build the request that unregisters `fd` from `addr`: the compute half of
/// `unregister_ioevent`.
///
/// The deassign flag is always set, the programmable-I/O flag if and only
/// if the address lies in that space; no datamatch is carried.
pub fn ioeventfd_deassign(fd: i32, addr: &IoEventAddress) -> (r: kvm_ioeventfd)
    ensures
        r.datamatch == 0,
        r.len == 0,
        r.addr == spec_io_event_address(addr),
        r.fd == fd,
        r.flags == (1u32 << KVM_IOEVENTFD_FLAG_NR_DEASSIGN) | (if *addr is Pio {
            1u32 << KVM_IOEVENTFD_FLAG_NR_PIO
        } else {
            0u32
        }),
        r.pad@ == Seq::new(36, |i: int| 0u8),
{
    let pio_flag: u32 = match *addr {
        IoEventAddress::Pio(_) => 1u32 << KVM_IOEVENTFD_FLAG_NR_PIO,
        IoEventAddress::Mmio(_) => 0u32,
    };
    let a = match addr {
        IoEventAddress::Pio(p) => *p,
        IoEventAddress::Mmio(m) => *m,
    };
    let r = kvm_ioeventfd {
        datamatch: 0,
        addr: a,
        len: 0,
        fd,
        flags: (1u32 << KVM_IOEVENTFD_FLAG_NR_DEASSIGN) | pio_flag,
        pad: [0u8; 36],
    };
    proof {
        assert(r.pad@ =~= Seq::new(36, |i: int| 0u8));
    }
    r
}

/// Build the request that makes signalling `fd` trigger the `gsi` IRQ: the
/// compute half of `register_irqfd`.
pub fn irqfd_assign(fd: u32, gsi: u32) -> (r: kvm_irqfd)
    ensures
        r.fd == fd,
        r.gsi == gsi,
        r.flags == 0,
        r.resamplefd == 0,
        r.pad@ == Seq::new(16, |i: int| 0u8),
{
    let r = kvm_irqfd { fd, gsi, flags: 0, resamplefd: 0, pad: [0u8; 16] };
    proof {
        assert(r.pad@ =~= Seq::new(16, |i: int| 0u8));
    }
    r
}

/// Build the request that detaches `fd` from the `gsi` IRQ: the compute
/// half of `unregister_irqfd`.
pub fn irqfd_deassign(fd: u32, gsi: u32) -> (r: kvm_irqfd)
    ensures
        r.fd == fd,
        r.gsi == gsi,
        r.flags == KVM_IRQFD_FLAG_DEASSIGN,
        r.resamplefd == 0,
        r.pad@ == Seq::new(16, |i: int| 0u8),
{
    let r = kvm_irqfd { fd, gsi, flags: KVM_IRQFD_FLAG_DEASSIGN, resamplefd: 0, pad: [0u8; 16] };
    proof {
        assert(r.pad@ =~= Seq::new(16, |i: int| 0u8));
    }
    r
}

/// Length of the `u64` bitmap that holds one dirty bit for each 4 KiB page
/// of a memory slot of `memory_size` bytes: the size computation of
/// `get_dirty_log`, rounded up so that a partial trailing word still
/// counts every page.
pub fn dirty_log_bitmap_size(memory_size: usize) -> (r: usize)
    ensures
        r == (memory_size + (DIRTY_LOG_BYTES_PER_WORD - 1)) as int / DIRTY_LOG_BYTES_PER_WORD as int,
{
    let whole = memory_size / DIRTY_LOG_BYTES_PER_WORD;
    let r = if memory_size % DIRTY_LOG_BYTES_PER_WORD != 0 {
        whole + 1
    } else {
        whole
    };
    proof {
        vstd::arithmetic::div_mod::lemma_fundamental_div_mod(
            memory_size as int,
            DIRTY_LOG_BYTES_PER_WORD as int,
        );
        vstd::arithmetic::div_mod::lemma_fundamental_div_mod(
            memory_size as int + (DIRTY_LOG_BYTES_PER_WORD - 1),
            DIRTY_LOG_BYTES_PER_WORD as int,
        );
    }
    r
}

} // verus!
