//! Plain RISC-V state structures exchanged with the kernel, each with its
//! byte-exact serialization adapter.
//!
//! These are the structures whose in-memory form is carried over a
//! get-one-register / set-one-register style interface or saved whole for
//! migration; every one of them is trivially copyable, and its portable
//! form is its little-endian field image.

use crate::serialize::{read_u32, read_u64, write_u32, write_u64, ByteRepr};
use vstd::bytes::*;
use vstd::prelude::*;

verus! {

/// Multiprocessing state of a vCPU.
#[allow(non_camel_case_types)]
#[derive(Clone, Copy, Debug)]
pub struct kvm_mp_state {
    pub mp_state: u32,
}

impl Default for kvm_mp_state {
    /// The all-zero structure.
    fn default() -> (r: Self)
        ensures
            r == (kvm_mp_state { mp_state: 0 }),
    {
        kvm_mp_state { mp_state: 0 }
    }
}

/// The ABI image of `kvm_mp_state`: its one field, little-endian.
impl ByteRepr for kvm_mp_state {
    open spec fn spec_size() -> nat {
        4
    }

    open spec fn repr(&self) -> Seq<u8> {
        spec_u32_to_le_bytes(self.mp_state)
    }

    open spec fn spec_from_bytes(b: Seq<u8>) -> Self {
        kvm_mp_state { mp_state: spec_u32_from_le_bytes(b) }
    }

    proof fn lemma_repr_len(&self) {
        lemma_auto_spec_u32_to_from_le_bytes();
    }

    proof fn lemma_from_repr(&self) {
        lemma_auto_spec_u32_to_from_le_bytes();
        assert(spec_u32_to_le_bytes(self.mp_state).len() == 4);
    }

    fn byte_size() -> (r: usize) {
        4
    }

    fn write_bytes(&self, out: &mut Vec<u8>) {
        write_u32(out, self.mp_state);
    }

    fn read_bytes(buf: &[u8], offset: usize) -> (r: Self) {
        kvm_mp_state { mp_state: read_u32(buf, offset) }
    }
}

/// Configuration registers of a RISC-V vCPU.
#[allow(non_camel_case_types)]
#[derive(Clone, Copy, Debug)]
pub struct kvm_riscv_config {
    pub isa: u64,
    pub zicbom_block_size: u64,
    pub mvendorid: u64,
    pub marchid: u64,
    pub mimpid: u64,
    pub zicboz_block_size: u64,
    pub satp_mode: u64,
}

impl Default for kvm_riscv_config {
    /// The all-zero structure.
    fn default() -> (r: Self)
        ensures
            r == (kvm_riscv_config { isa: 0, zicbom_block_size: 0, mvendorid: 0, marchid: 0, mimpid: 0, zicboz_block_size: 0, satp_mode: 0 }),
    {
        kvm_riscv_config { isa: 0, zicbom_block_size: 0, mvendorid: 0, marchid: 0, mimpid: 0, zicboz_block_size: 0, satp_mode: 0 }
    }
}

/// The ABI image of `kvm_riscv_config`: each field little-endian, in order.
impl ByteRepr for kvm_riscv_config {
    open spec fn spec_size() -> nat {
        56
    }

    open spec fn repr(&self) -> Seq<u8> {
        spec_u64_to_le_bytes(self.isa) + spec_u64_to_le_bytes(self.zicbom_block_size) + spec_u64_to_le_bytes(self.mvendorid) + spec_u64_to_le_bytes(self.marchid) + spec_u64_to_le_bytes(self.mimpid) + spec_u64_to_le_bytes(self.zicboz_block_size) + spec_u64_to_le_bytes(self.satp_mode)
    }

    open spec fn spec_from_bytes(b: Seq<u8>) -> Self {
        kvm_riscv_config {
            isa: spec_u64_from_le_bytes(b.subrange(0, 8)),
            zicbom_block_size: spec_u64_from_le_bytes(b.subrange(8, 16)),
            mvendorid: spec_u64_from_le_bytes(b.subrange(16, 24)),
            marchid: spec_u64_from_le_bytes(b.subrange(24, 32)),
            mimpid: spec_u64_from_le_bytes(b.subrange(32, 40)),
            zicboz_block_size: spec_u64_from_le_bytes(b.subrange(40, 48)),
            satp_mode: spec_u64_from_le_bytes(b.subrange(48, 56)),
        }
    }

    proof fn lemma_repr_len(&self) {
        lemma_auto_spec_u64_to_from_le_bytes();
    }

    proof fn lemma_from_repr(&self) {
        lemma_auto_spec_u64_to_from_le_bytes();
        assert(self.repr().subrange(0, 8) =~= spec_u64_to_le_bytes(self.isa));
        assert(self.repr().subrange(8, 16) =~= spec_u64_to_le_bytes(self.zicbom_block_size));
        assert(self.repr().subrange(16, 24) =~= spec_u64_to_le_bytes(self.mvendorid));
        assert(self.repr().subrange(24, 32) =~= spec_u64_to_le_bytes(self.marchid));
        assert(self.repr().subrange(32, 40) =~= spec_u64_to_le_bytes(self.mimpid));
        assert(self.repr().subrange(40, 48) =~= spec_u64_to_le_bytes(self.zicboz_block_size));
        assert(self.repr().subrange(48, 56) =~= spec_u64_to_le_bytes(self.satp_mode));
    }

    fn byte_size() -> (r: usize) {
        56
    }

    fn write_bytes(&self, out: &mut Vec<u8>) {
        write_u64(out, self.isa);
        write_u64(out, self.zicbom_block_size);
        write_u64(out, self.mvendorid);
        write_u64(out, self.marchid);
        write_u64(out, self.mimpid);
        write_u64(out, self.zicboz_block_size);
        write_u64(out, self.satp_mode);
        proof {
            assert(out@ =~= old(out)@ + self.repr());
        }
    }

    fn read_bytes(buf: &[u8], offset: usize) -> (r: Self) {
        proof {
            vstd::slice::axiom_spec_len(buf);
        }
        let isa = read_u64(buf, offset);
        let zicbom_block_size = read_u64(buf, offset + 8);
        let mvendorid = read_u64(buf, offset + 16);
        let marchid = read_u64(buf, offset + 24);
        let mimpid = read_u64(buf, offset + 32);
        let zicboz_block_size = read_u64(buf, offset + 40);
        let satp_mode = read_u64(buf, offset + 48);
        let r = kvm_riscv_config { isa, zicbom_block_size, mvendorid, marchid, mimpid, zicboz_block_size, satp_mode };
        proof {
            let s = buf@.subrange(offset as int, offset + 56);
            assert(s.subrange(0, 8) =~= buf@.subrange(offset as int, offset + 8));
            assert(s.subrange(8, 16) =~= buf@.subrange(offset + 8, offset + 16));
            assert(s.subrange(16, 24) =~= buf@.subrange(offset + 16, offset + 24));
            assert(s.subrange(24, 32) =~= buf@.subrange(offset + 24, offset + 32));
            assert(s.subrange(32, 40) =~= buf@.subrange(offset + 32, offset + 40));
            assert(s.subrange(40, 48) =~= buf@.subrange(offset + 40, offset + 48));
            assert(s.subrange(48, 56) =~= buf@.subrange(offset + 48, offset + 56));
            assert(r.repr() =~= s);
        }
        r
    }
}

/// General-purpose register file of a RISC-V hart.
#[allow(non_camel_case_types)]
#[derive(Clone, Copy, Debug)]
pub struct user_regs_struct {
    pub pc: u64,
    pub ra: u64,
    pub sp: u64,
    pub gp: u64,
    pub tp: u64,
    pub t0: u64,
    pub t1: u64,
    pub t2: u64,
    pub s0: u64,
    pub s1: u64,
    pub a0: u64,
    pub a1: u64,
    pub a2: u64,
    pub a3: u64,
    pub a4: u64,
    pub a5: u64,
    pub a6: u64,
    pub a7: u64,
    pub s2: u64,
    pub s3: u64,
    pub s4: u64,
    pub s5: u64,
    pub s6: u64,
    pub s7: u64,
    pub s8: u64,
    pub s9: u64,
    pub s10: u64,
    pub s11: u64,
    pub t3: u64,
    pub t4: u64,
    pub t5: u64,
    pub t6: u64,
}

impl Default for user_regs_struct {
    /// The all-zero structure.
    fn default() -> (r: Self)
        ensures
            r == (user_regs_struct { pc: 0, ra: 0, sp: 0, gp: 0, tp: 0, t0: 0, t1: 0, t2: 0, s0: 0, s1: 0, a0: 0, a1: 0, a2: 0, a3: 0, a4: 0, a5: 0, a6: 0, a7: 0, s2: 0, s3: 0, s4: 0, s5: 0, s6: 0, s7: 0, s8: 0, s9: 0, s10: 0, s11: 0, t3: 0, t4: 0, t5: 0, t6: 0 }),
    {
        user_regs_struct { pc: 0, ra: 0, sp: 0, gp: 0, tp: 0, t0: 0, t1: 0, t2: 0, s0: 0, s1: 0, a0: 0, a1: 0, a2: 0, a3: 0, a4: 0, a5: 0, a6: 0, a7: 0, s2: 0, s3: 0, s4: 0, s5: 0, s6: 0, s7: 0, s8: 0, s9: 0, s10: 0, s11: 0, t3: 0, t4: 0, t5: 0, t6: 0 }
    }
}

/// The ABI image of `user_regs_struct`: each field little-endian, in order.
impl ByteRepr for user_regs_struct {
    open spec fn spec_size() -> nat {
        256
    }

    open spec fn repr(&self) -> Seq<u8> {
        spec_u64_to_le_bytes(self.pc) + spec_u64_to_le_bytes(self.ra) + spec_u64_to_le_bytes(self.sp) + spec_u64_to_le_bytes(self.gp) + spec_u64_to_le_bytes(self.tp) + spec_u64_to_le_bytes(self.t0) + spec_u64_to_le_bytes(self.t1) + spec_u64_to_le_bytes(self.t2) + spec_u64_to_le_bytes(self.s0) + spec_u64_to_le_bytes(self.s1) + spec_u64_to_le_bytes(self.a0) + spec_u64_to_le_bytes(self.a1) + spec_u64_to_le_bytes(self.a2) + spec_u64_to_le_bytes(self.a3) + spec_u64_to_le_bytes(self.a4) + spec_u64_to_le_bytes(self.a5) + spec_u64_to_le_bytes(self.a6) + spec_u64_to_le_bytes(self.a7) + spec_u64_to_le_bytes(self.s2) + spec_u64_to_le_bytes(self.s3) + spec_u64_to_le_bytes(self.s4) + spec_u64_to_le_bytes(self.s5) + spec_u64_to_le_bytes(self.s6) + spec_u64_to_le_bytes(self.s7) + spec_u64_to_le_bytes(self.s8) + spec_u64_to_le_bytes(self.s9) + spec_u64_to_le_bytes(self.s10) + spec_u64_to_le_bytes(self.s11) + spec_u64_to_le_bytes(self.t3) + spec_u64_to_le_bytes(self.t4) + spec_u64_to_le_bytes(self.t5) + spec_u64_to_le_bytes(self.t6)
    }

    open spec fn spec_from_bytes(b: Seq<u8>) -> Self {
        user_regs_struct {
            pc: spec_u64_from_le_bytes(b.subrange(0, 8)),
            ra: spec_u64_from_le_bytes(b.subrange(8, 16)),
            sp: spec_u64_from_le_bytes(b.subrange(16, 24)),
            gp: spec_u64_from_le_bytes(b.subrange(24, 32)),
            tp: spec_u64_from_le_bytes(b.subrange(32, 40)),
            t0: spec_u64_from_le_bytes(b.subrange(40, 48)),
            t1: spec_u64_from_le_bytes(b.subrange(48, 56)),
            t2: spec_u64_from_le_bytes(b.subrange(56, 64)),
            s0: spec_u64_from_le_bytes(b.subrange(64, 72)),
            s1: spec_u64_from_le_bytes(b.subrange(72, 80)),
            a0: spec_u64_from_le_bytes(b.subrange(80, 88)),
            a1: spec_u64_from_le_bytes(b.subrange(88, 96)),
            a2: spec_u64_from_le_bytes(b.subrange(96, 104)),
            a3: spec_u64_from_le_bytes(b.subrange(104, 112)),
            a4: spec_u64_from_le_bytes(b.subrange(112, 120)),
            a5: spec_u64_from_le_bytes(b.subrange(120, 128)),
            a6: spec_u64_from_le_bytes(b.subrange(128, 136)),
            a7: spec_u64_from_le_bytes(b.subrange(136, 144)),
            s2: spec_u64_from_le_bytes(b.subrange(144, 152)),
            s3: spec_u64_from_le_bytes(b.subrange(152, 160)),
            s4: spec_u64_from_le_bytes(b.subrange(160, 168)),
            s5: spec_u64_from_le_bytes(b.subrange(168, 176)),
            s6: spec_u64_from_le_bytes(b.subrange(176, 184)),
            s7: spec_u64_from_le_bytes(b.subrange(184, 192)),
            s8: spec_u64_from_le_bytes(b.subrange(192, 200)),
            s9: spec_u64_from_le_bytes(b.subrange(200, 208)),
            s10: spec_u64_from_le_bytes(b.subrange(208, 216)),
            s11: spec_u64_from_le_bytes(b.subrange(216, 224)),
            t3: spec_u64_from_le_bytes(b.subrange(224, 232)),
            t4: spec_u64_from_le_bytes(b.subrange(232, 240)),
            t5: spec_u64_from_le_bytes(b.subrange(240, 248)),
            t6: spec_u64_from_le_bytes(b.subrange(248, 256)),
        }
    }

    proof fn lemma_repr_len(&self) {
        lemma_auto_spec_u64_to_from_le_bytes();
    }

    #[verifier::rlimit(100)]
    proof fn lemma_from_repr(&self) {
        lemma_auto_spec_u64_to_from_le_bytes();
        assert(self.repr().subrange(0, 8) =~= spec_u64_to_le_bytes(self.pc));
        assert(self.repr().subrange(8, 16) =~= spec_u64_to_le_bytes(self.ra));
        assert(self.repr().subrange(16, 24) =~= spec_u64_to_le_bytes(self.sp));
        assert(self.repr().subrange(24, 32) =~= spec_u64_to_le_bytes(self.gp));
        assert(self.repr().subrange(32, 40) =~= spec_u64_to_le_bytes(self.tp));
        assert(self.repr().subrange(40, 48) =~= spec_u64_to_le_bytes(self.t0));
        assert(self.repr().subrange(48, 56) =~= spec_u64_to_le_bytes(self.t1));
        assert(self.repr().subrange(56, 64) =~= spec_u64_to_le_bytes(self.t2));
        assert(self.repr().subrange(64, 72) =~= spec_u64_to_le_bytes(self.s0));
        assert(self.repr().subrange(72, 80) =~= spec_u64_to_le_bytes(self.s1));
        assert(self.repr().subrange(80, 88) =~= spec_u64_to_le_bytes(self.a0));
        assert(self.repr().subrange(88, 96) =~= spec_u64_to_le_bytes(self.a1));
        assert(self.repr().subrange(96, 104) =~= spec_u64_to_le_bytes(self.a2));
        assert(self.repr().subrange(104, 112) =~= spec_u64_to_le_bytes(self.a3));
        assert(self.repr().subrange(112, 120) =~= spec_u64_to_le_bytes(self.a4));
        assert(self.repr().subrange(120, 128) =~= spec_u64_to_le_bytes(self.a5));
        assert(self.repr().subrange(128, 136) =~= spec_u64_to_le_bytes(self.a6));
        assert(self.repr().subrange(136, 144) =~= spec_u64_to_le_bytes(self.a7));
        assert(self.repr().subrange(144, 152) =~= spec_u64_to_le_bytes(self.s2));
        assert(self.repr().subrange(152, 160) =~= spec_u64_to_le_bytes(self.s3));
        assert(self.repr().subrange(160, 168) =~= spec_u64_to_le_bytes(self.s4));
        assert(self.repr().subrange(168, 176) =~= spec_u64_to_le_bytes(self.s5));
        assert(self.repr().subrange(176, 184) =~= spec_u64_to_le_bytes(self.s6));
        assert(self.repr().subrange(184, 192) =~= spec_u64_to_le_bytes(self.s7));
        assert(self.repr().subrange(192, 200) =~= spec_u64_to_le_bytes(self.s8));
        assert(self.repr().subrange(200, 208) =~= spec_u64_to_le_bytes(self.s9));
        assert(self.repr().subrange(208, 216) =~= spec_u64_to_le_bytes(self.s10));
        assert(self.repr().subrange(216, 224) =~= spec_u64_to_le_bytes(self.s11));
        assert(self.repr().subrange(224, 232) =~= spec_u64_to_le_bytes(self.t3));
        assert(self.repr().subrange(232, 240) =~= spec_u64_to_le_bytes(self.t4));
        assert(self.repr().subrange(240, 248) =~= spec_u64_to_le_bytes(self.t5));
        assert(self.repr().subrange(248, 256) =~= spec_u64_to_le_bytes(self.t6));
    }

    fn byte_size() -> (r: usize) {
        256
    }

    #[verifier::rlimit(100)]
    fn write_bytes(&self, out: &mut Vec<u8>) {
        write_u64(out, self.pc);
        write_u64(out, self.ra);
        write_u64(out, self.sp);
        write_u64(out, self.gp);
        write_u64(out, self.tp);
        write_u64(out, self.t0);
        write_u64(out, self.t1);
        write_u64(out, self.t2);
        write_u64(out, self.s0);
        write_u64(out, self.s1);
        write_u64(out, self.a0);
        write_u64(out, self.a1);
        write_u64(out, self.a2);
        write_u64(out, self.a3);
        write_u64(out, self.a4);
        write_u64(out, self.a5);
        write_u64(out, self.a6);
        write_u64(out, self.a7);
        write_u64(out, self.s2);
        write_u64(out, self.s3);
        write_u64(out, self.s4);
        write_u64(out, self.s5);
        write_u64(out, self.s6);
        write_u64(out, self.s7);
        write_u64(out, self.s8);
        write_u64(out, self.s9);
        write_u64(out, self.s10);
        write_u64(out, self.s11);
        write_u64(out, self.t3);
        write_u64(out, self.t4);
        write_u64(out, self.t5);
        write_u64(out, self.t6);
        proof {
            assert(out@ =~= old(out)@ + self.repr());
        }
    }

    #[verifier::rlimit(100)]
    fn read_bytes(buf: &[u8], offset: usize) -> (r: Self) {
        proof {
            vstd::slice::axiom_spec_len(buf);
        }
        let pc = read_u64(buf, offset);
        let ra = read_u64(buf, offset + 8);
        let sp = read_u64(buf, offset + 16);
        let gp = read_u64(buf, offset + 24);
        let tp = read_u64(buf, offset + 32);
        let t0 = read_u64(buf, offset + 40);
        let t1 = read_u64(buf, offset + 48);
        let t2 = read_u64(buf, offset + 56);
        let s0 = read_u64(buf, offset + 64);
        let s1 = read_u64(buf, offset + 72);
        let a0 = read_u64(buf, offset + 80);
        let a1 = read_u64(buf, offset + 88);
        let a2 = read_u64(buf, offset + 96);
        let a3 = read_u64(buf, offset + 104);
        let a4 = read_u64(buf, offset + 112);
        let a5 = read_u64(buf, offset + 120);
        let a6 = read_u64(buf, offset + 128);
        let a7 = read_u64(buf, offset + 136);
        let s2 = read_u64(buf, offset + 144);
        let s3 = read_u64(buf, offset + 152);
        let s4 = read_u64(buf, offset + 160);
        let s5 = read_u64(buf, offset + 168);
        let s6 = read_u64(buf, offset + 176);
        let s7 = read_u64(buf, offset + 184);
        let s8 = read_u64(buf, offset + 192);
        let s9 = read_u64(buf, offset + 200);
        let s10 = read_u64(buf, offset + 208);
        let s11 = read_u64(buf, offset + 216);
        let t3 = read_u64(buf, offset + 224);
        let t4 = read_u64(buf, offset + 232);
        let t5 = read_u64(buf, offset + 240);
        let t6 = read_u64(buf, offset + 248);
        let r = user_regs_struct { pc, ra, sp, gp, tp, t0, t1, t2, s0, s1, a0, a1, a2, a3, a4, a5, a6, a7, s2, s3, s4, s5, s6, s7, s8, s9, s10, s11, t3, t4, t5, t6 };
        proof {
            let s = buf@.subrange(offset as int, offset + 256);
            assert(s.subrange(0, 8) =~= buf@.subrange(offset as int, offset + 8));
            assert(s.subrange(8, 16) =~= buf@.subrange(offset + 8, offset + 16));
            assert(s.subrange(16, 24) =~= buf@.subrange(offset + 16, offset + 24));
            assert(s.subrange(24, 32) =~= buf@.subrange(offset + 24, offset + 32));
            assert(s.subrange(32, 40) =~= buf@.subrange(offset + 32, offset + 40));
            assert(s.subrange(40, 48) =~= buf@.subrange(offset + 40, offset + 48));
            assert(s.subrange(48, 56) =~= buf@.subrange(offset + 48, offset + 56));
            assert(s.subrange(56, 64) =~= buf@.subrange(offset + 56, offset + 64));
            assert(s.subrange(64, 72) =~= buf@.subrange(offset + 64, offset + 72));
            assert(s.subrange(72, 80) =~= buf@.subrange(offset + 72, offset + 80));
            assert(s.subrange(80, 88) =~= buf@.subrange(offset + 80, offset + 88));
            assert(s.subrange(88, 96) =~= buf@.subrange(offset + 88, offset + 96));
            assert(s.subrange(96, 104) =~= buf@.subrange(offset + 96, offset + 104));
            assert(s.subrange(104, 112) =~= buf@.subrange(offset + 104, offset + 112));
            assert(s.subrange(112, 120) =~= buf@.subrange(offset + 112, offset + 120));
            assert(s.subrange(120, 128) =~= buf@.subrange(offset + 120, offset + 128));
            assert(s.subrange(128, 136) =~= buf@.subrange(offset + 128, offset + 136));
            assert(s.subrange(136, 144) =~= buf@.subrange(offset + 136, offset + 144));
            assert(s.subrange(144, 152) =~= buf@.subrange(offset + 144, offset + 152));
            assert(s.subrange(152, 160) =~= buf@.subrange(offset + 152, offset + 160));
            assert(s.subrange(160, 168) =~= buf@.subrange(offset + 160, offset + 168));
            assert(s.subrange(168, 176) =~= buf@.subrange(offset + 168, offset + 176));
            assert(s.subrange(176, 184) =~= buf@.subrange(offset + 176, offset + 184));
            assert(s.subrange(184, 192) =~= buf@.subrange(offset + 184, offset + 192));
            assert(s.subrange(192, 200) =~= buf@.subrange(offset + 192, offset + 200));
            assert(s.subrange(200, 208) =~= buf@.subrange(offset + 200, offset + 208));
            assert(s.subrange(208, 216) =~= buf@.subrange(offset + 208, offset + 216));
            assert(s.subrange(216, 224) =~= buf@.subrange(offset + 216, offset + 224));
            assert(s.subrange(224, 232) =~= buf@.subrange(offset + 224, offset + 232));
            assert(s.subrange(232, 240) =~= buf@.subrange(offset + 232, offset + 240));
            assert(s.subrange(240, 248) =~= buf@.subrange(offset + 240, offset + 248));
            assert(s.subrange(248, 256) =~= buf@.subrange(offset + 248, offset + 256));
            assert(r.repr() =~= s);
        }
        r
    }
}

/// Supervisor-mode control and status registers of a RISC-V vCPU.
#[allow(non_camel_case_types)]
#[derive(Clone, Copy, Debug)]
pub struct kvm_riscv_csr {
    pub sstatus: u64,
    pub sie: u64,
    pub stvec: u64,
    pub sscratch: u64,
    pub sepc: u64,
    pub scause: u64,
    pub stval: u64,
    pub sip: u64,
    pub satp: u64,
    pub scounteren: u64,
    pub senvcfg: u64,
}

impl Default for kvm_riscv_csr {
    /// The all-zero structure.
    fn default() -> (r: Self)
        ensures
            r == (kvm_riscv_csr { sstatus: 0, sie: 0, stvec: 0, sscratch: 0, sepc: 0, scause: 0, stval: 0, sip: 0, satp: 0, scounteren: 0, senvcfg: 0 }),
    {
        kvm_riscv_csr { sstatus: 0, sie: 0, stvec: 0, sscratch: 0, sepc: 0, scause: 0, stval: 0, sip: 0, satp: 0, scounteren: 0, senvcfg: 0 }
    }
}

/// The ABI image of `kvm_riscv_csr`: each field little-endian, in order.
impl ByteRepr for kvm_riscv_csr {
    open spec fn spec_size() -> nat {
        88
    }

    open spec fn repr(&self) -> Seq<u8> {
        spec_u64_to_le_bytes(self.sstatus) + spec_u64_to_le_bytes(self.sie) + spec_u64_to_le_bytes(self.stvec) + spec_u64_to_le_bytes(self.sscratch) + spec_u64_to_le_bytes(self.sepc) + spec_u64_to_le_bytes(self.scause) + spec_u64_to_le_bytes(self.stval) + spec_u64_to_le_bytes(self.sip) + spec_u64_to_le_bytes(self.satp) + spec_u64_to_le_bytes(self.scounteren) + spec_u64_to_le_bytes(self.senvcfg)
    }

    open spec fn spec_from_bytes(b: Seq<u8>) -> Self {
        kvm_riscv_csr {
            sstatus: spec_u64_from_le_bytes(b.subrange(0, 8)),
            sie: spec_u64_from_le_bytes(b.subrange(8, 16)),
            stvec: spec_u64_from_le_bytes(b.subrange(16, 24)),
            sscratch: spec_u64_from_le_bytes(b.subrange(24, 32)),
            sepc: spec_u64_from_le_bytes(b.subrange(32, 40)),
            scause: spec_u64_from_le_bytes(b.subrange(40, 48)),
            stval: spec_u64_from_le_bytes(b.subrange(48, 56)),
            sip: spec_u64_from_le_bytes(b.subrange(56, 64)),
            satp: spec_u64_from_le_bytes(b.subrange(64, 72)),
            scounteren: spec_u64_from_le_bytes(b.subrange(72, 80)),
            senvcfg: spec_u64_from_le_bytes(b.subrange(80, 88)),
        }
    }

    proof fn lemma_repr_len(&self) {
        lemma_auto_spec_u64_to_from_le_bytes();
    }

    proof fn lemma_from_repr(&self) {
        lemma_auto_spec_u64_to_from_le_bytes();
        assert(self.repr().subrange(0, 8) =~= spec_u64_to_le_bytes(self.sstatus));
        assert(self.repr().subrange(8, 16) =~= spec_u64_to_le_bytes(self.sie));
        assert(self.repr().subrange(16, 24) =~= spec_u64_to_le_bytes(self.stvec));
        assert(self.repr().subrange(24, 32) =~= spec_u64_to_le_bytes(self.sscratch));
        assert(self.repr().subrange(32, 40) =~= spec_u64_to_le_bytes(self.sepc));
        assert(self.repr().subrange(40, 48) =~= spec_u64_to_le_bytes(self.scause));
        assert(self.repr().subrange(48, 56) =~= spec_u64_to_le_bytes(self.stval));
        assert(self.repr().subrange(56, 64) =~= spec_u64_to_le_bytes(self.sip));
        assert(self.repr().subrange(64, 72) =~= spec_u64_to_le_bytes(self.satp));
        assert(self.repr().subrange(72, 80) =~= spec_u64_to_le_bytes(self.scounteren));
        assert(self.repr().subrange(80, 88) =~= spec_u64_to_le_bytes(self.senvcfg));
    }

    fn byte_size() -> (r: usize) {
        88
    }

    fn write_bytes(&self, out: &mut Vec<u8>) {
        write_u64(out, self.sstatus);
        write_u64(out, self.sie);
        write_u64(out, self.stvec);
        write_u64(out, self.sscratch);
        write_u64(out, self.sepc);
        write_u64(out, self.scause);
        write_u64(out, self.stval);
        write_u64(out, self.sip);
        write_u64(out, self.satp);
        write_u64(out, self.scounteren);
        write_u64(out, self.senvcfg);
        proof {
            assert(out@ =~= old(out)@ + self.repr());
        }
    }

    fn read_bytes(buf: &[u8], offset: usize) -> (r: Self) {
        proof {
            vstd::slice::axiom_spec_len(buf);
        }
        let sstatus = read_u64(buf, offset);
        let sie = read_u64(buf, offset + 8);
        let stvec = read_u64(buf, offset + 16);
        let sscratch = read_u64(buf, offset + 24);
        let sepc = read_u64(buf, offset + 32);
        let scause = read_u64(buf, offset + 40);
        let stval = read_u64(buf, offset + 48);
        let sip = read_u64(buf, offset + 56);
        let satp = read_u64(buf, offset + 64);
        let scounteren = read_u64(buf, offset + 72);
        let senvcfg = read_u64(buf, offset + 80);
        let r = kvm_riscv_csr { sstatus, sie, stvec, sscratch, sepc, scause, stval, sip, satp, scounteren, senvcfg };
        proof {
            let s = buf@.subrange(offset as int, offset + 88);
            assert(s.subrange(0, 8) =~= buf@.subrange(offset as int, offset + 8));
            assert(s.subrange(8, 16) =~= buf@.subrange(offset + 8, offset + 16));
            assert(s.subrange(16, 24) =~= buf@.subrange(offset + 16, offset + 24));
            assert(s.subrange(24, 32) =~= buf@.subrange(offset + 24, offset + 32));
            assert(s.subrange(32, 40) =~= buf@.subrange(offset + 32, offset + 40));
            assert(s.subrange(40, 48) =~= buf@.subrange(offset + 40, offset + 48));
            assert(s.subrange(48, 56) =~= buf@.subrange(offset + 48, offset + 56));
            assert(s.subrange(56, 64) =~= buf@.subrange(offset + 56, offset + 64));
            assert(s.subrange(64, 72) =~= buf@.subrange(offset + 64, offset + 72));
            assert(s.subrange(72, 80) =~= buf@.subrange(offset + 72, offset + 80));
            assert(s.subrange(80, 88) =~= buf@.subrange(offset + 80, offset + 88));
            assert(r.repr() =~= s);
        }
        r
    }
}

/// AIA control and status registers of a RISC-V vCPU.
#[allow(non_camel_case_types)]
#[derive(Clone, Copy, Debug)]
pub struct kvm_riscv_aia_csr {
    pub siselect: u64,
    pub iprio1: u64,
    pub iprio2: u64,
    pub sieh: u64,
    pub siph: u64,
    pub iprio1h: u64,
    pub iprio2h: u64,
}

impl Default for kvm_riscv_aia_csr {
    /// The all-zero structure.
    fn default() -> (r: Self)
        ensures
            r == (kvm_riscv_aia_csr { siselect: 0, iprio1: 0, iprio2: 0, sieh: 0, siph: 0, iprio1h: 0, iprio2h: 0 }),
    {
        kvm_riscv_aia_csr { siselect: 0, iprio1: 0, iprio2: 0, sieh: 0, siph: 0, iprio1h: 0, iprio2h: 0 }
    }
}

/// The ABI image of `kvm_riscv_aia_csr`: each field little-endian, in order.
impl ByteRepr for kvm_riscv_aia_csr {
    open spec fn spec_size() -> nat {
        56
    }

    open spec fn repr(&self) -> Seq<u8> {
        spec_u64_to_le_bytes(self.siselect) + spec_u64_to_le_bytes(self.iprio1) + spec_u64_to_le_bytes(self.iprio2) + spec_u64_to_le_bytes(self.sieh) + spec_u64_to_le_bytes(self.siph) + spec_u64_to_le_bytes(self.iprio1h) + spec_u64_to_le_bytes(self.iprio2h)
    }

    open spec fn spec_from_bytes(b: Seq<u8>) -> Self {
        kvm_riscv_aia_csr {
            siselect: spec_u64_from_le_bytes(b.subrange(0, 8)),
            iprio1: spec_u64_from_le_bytes(b.subrange(8, 16)),
            iprio2: spec_u64_from_le_bytes(b.subrange(16, 24)),
            sieh: spec_u64_from_le_bytes(b.subrange(24, 32)),
            siph: spec_u64_from_le_bytes(b.subrange(32, 40)),
            iprio1h: spec_u64_from_le_bytes(b.subrange(40, 48)),
            iprio2h: spec_u64_from_le_bytes(b.subrange(48, 56)),
        }
    }

    proof fn lemma_repr_len(&self) {
        lemma_auto_spec_u64_to_from_le_bytes();
    }

    proof fn lemma_from_repr(&self) {
        lemma_auto_spec_u64_to_from_le_bytes();
        assert(self.repr().subrange(0, 8) =~= spec_u64_to_le_bytes(self.siselect));
        assert(self.repr().subrange(8, 16) =~= spec_u64_to_le_bytes(self.iprio1));
        assert(self.repr().subrange(16, 24) =~= spec_u64_to_le_bytes(self.iprio2));
        assert(self.repr().subrange(24, 32) =~= spec_u64_to_le_bytes(self.sieh));
        assert(self.repr().subrange(32, 40) =~= spec_u64_to_le_bytes(self.siph));
        assert(self.repr().subrange(40, 48) =~= spec_u64_to_le_bytes(self.iprio1h));
        assert(self.repr().subrange(48, 56) =~= spec_u64_to_le_bytes(self.iprio2h));
    }

    fn byte_size() -> (r: usize) {
        56
    }

    fn write_bytes(&self, out: &mut Vec<u8>) {
        write_u64(out, self.siselect);
        write_u64(out, self.iprio1);
        write_u64(out, self.iprio2);
        write_u64(out, self.sieh);
        write_u64(out, self.siph);
        write_u64(out, self.iprio1h);
        write_u64(out, self.iprio2h);
        proof {
            assert(out@ =~= old(out)@ + self.repr());
        }
    }

    fn read_bytes(buf: &[u8], offset: usize) -> (r: Self) {
        proof {
            vstd::slice::axiom_spec_len(buf);
        }
        let siselect = read_u64(buf, offset);
        let iprio1 = read_u64(buf, offset + 8);
        let iprio2 = read_u64(buf, offset + 16);
        let sieh = read_u64(buf, offset + 24);
        let siph = read_u64(buf, offset + 32);
        let iprio1h = read_u64(buf, offset + 40);
        let iprio2h = read_u64(buf, offset + 48);
        let r = kvm_riscv_aia_csr { siselect, iprio1, iprio2, sieh, siph, iprio1h, iprio2h };
        proof {
            let s = buf@.subrange(offset as int, offset + 56);
            assert(s.subrange(0, 8) =~= buf@.subrange(offset as int, offset + 8));
            assert(s.subrange(8, 16) =~= buf@.subrange(offset + 8, offset + 16));
            assert(s.subrange(16, 24) =~= buf@.subrange(offset + 16, offset + 24));
            assert(s.subrange(24, 32) =~= buf@.subrange(offset + 24, offset + 32));
            assert(s.subrange(32, 40) =~= buf@.subrange(offset + 32, offset + 40));
            assert(s.subrange(40, 48) =~= buf@.subrange(offset + 40, offset + 48));
            assert(s.subrange(48, 56) =~= buf@.subrange(offset + 48, offset + 56));
            assert(r.repr() =~= s);
        }
        r
    }
}

/// Smstateen control and status registers of a RISC-V vCPU.
#[allow(non_camel_case_types)]
#[derive(Clone, Copy, Debug)]
pub struct kvm_riscv_smstateen_csr {
    pub sstateen0: u64,
}

impl Default for kvm_riscv_smstateen_csr {
    /// The all-zero structure.
    fn default() -> (r: Self)
        ensures
            r == (kvm_riscv_smstateen_csr { sstateen0: 0 }),
    {
        kvm_riscv_smstateen_csr { sstateen0: 0 }
    }
}

/// The ABI image of `kvm_riscv_smstateen_csr`: each field little-endian, in order.
impl ByteRepr for kvm_riscv_smstateen_csr {
    open spec fn spec_size() -> nat {
        8
    }

    open spec fn repr(&self) -> Seq<u8> {
        spec_u64_to_le_bytes(self.sstateen0)
    }

    open spec fn spec_from_bytes(b: Seq<u8>) -> Self {
        kvm_riscv_smstateen_csr {
            sstateen0: spec_u64_from_le_bytes(b.subrange(0, 8)),
        }
    }

    proof fn lemma_repr_len(&self) {
        lemma_auto_spec_u64_to_from_le_bytes();
    }

    proof fn lemma_from_repr(&self) {
        lemma_auto_spec_u64_to_from_le_bytes();
        assert(self.repr().subrange(0, 8) =~= spec_u64_to_le_bytes(self.sstateen0));
    }

    fn byte_size() -> (r: usize) {
        8
    }

    fn write_bytes(&self, out: &mut Vec<u8>) {
        write_u64(out, self.sstateen0);
        proof {
            assert(out@ =~= old(out)@ + self.repr());
        }
    }

    fn read_bytes(buf: &[u8], offset: usize) -> (r: Self) {
        proof {
            vstd::slice::axiom_spec_len(buf);
        }
        let sstateen0 = read_u64(buf, offset);
        let r = kvm_riscv_smstateen_csr { sstateen0 };
        proof {
            let s = buf@.subrange(offset as int, offset + 8);
            assert(s.subrange(0, 8) =~= buf@.subrange(offset as int, offset + 8));
            assert(r.repr() =~= s);
        }
        r
    }
}

/// Timer state of a RISC-V vCPU.
#[allow(non_camel_case_types)]
#[derive(Clone, Copy, Debug)]
pub struct kvm_riscv_timer {
    pub frequency: u64,
    pub time: u64,
    pub compare: u64,
    pub state: u64,
}

impl Default for kvm_riscv_timer {
    /// The all-zero structure.
    fn default() -> (r: Self)
        ensures
            r == (kvm_riscv_timer { frequency: 0, time: 0, compare: 0, state: 0 }),
    {
        kvm_riscv_timer { frequency: 0, time: 0, compare: 0, state: 0 }
    }
}

/// The ABI image of `kvm_riscv_timer`: each field little-endian, in order.
impl ByteRepr for kvm_riscv_timer {
    open spec fn spec_size() -> nat {
        32
    }

    open spec fn repr(&self) -> Seq<u8> {
        spec_u64_to_le_bytes(self.frequency) + spec_u64_to_le_bytes(self.time) + spec_u64_to_le_bytes(self.compare) + spec_u64_to_le_bytes(self.state)
    }

    open spec fn spec_from_bytes(b: Seq<u8>) -> Self {
        kvm_riscv_timer {
            frequency: spec_u64_from_le_bytes(b.subrange(0, 8)),
            time: spec_u64_from_le_bytes(b.subrange(8, 16)),
            compare: spec_u64_from_le_bytes(b.subrange(16, 24)),
            state: spec_u64_from_le_bytes(b.subrange(24, 32)),
        }
    }

    proof fn lemma_repr_len(&self) {
        lemma_auto_spec_u64_to_from_le_bytes();
    }

    proof fn lemma_from_repr(&self) {
        lemma_auto_spec_u64_to_from_le_bytes();
        assert(self.repr().subrange(0, 8) =~= spec_u64_to_le_bytes(self.frequency));
        assert(self.repr().subrange(8, 16) =~= spec_u64_to_le_bytes(self.time));
        assert(self.repr().subrange(16, 24) =~= spec_u64_to_le_bytes(self.compare));
        assert(self.repr().subrange(24, 32) =~= spec_u64_to_le_bytes(self.state));
    }

    fn byte_size() -> (r: usize) {
        32
    }

    fn write_bytes(&self, out: &mut Vec<u8>) {
        write_u64(out, self.frequency);
        write_u64(out, self.time);
        write_u64(out, self.compare);
        write_u64(out, self.state);
        proof {
            assert(out@ =~= old(out)@ + self.repr());
        }
    }

    fn read_bytes(buf: &[u8], offset: usize) -> (r: Self) {
        proof {
            vstd::slice::axiom_spec_len(buf);
        }
        let frequency = read_u64(buf, offset);
        let time = read_u64(buf, offset + 8);
        let compare = read_u64(buf, offset + 16);
        let state = read_u64(buf, offset + 24);
        let r = kvm_riscv_timer { frequency, time, compare, state };
        proof {
            let s = buf@.subrange(offset as int, offset + 32);
            assert(s.subrange(0, 8) =~= buf@.subrange(offset as int, offset + 8));
            assert(s.subrange(8, 16) =~= buf@.subrange(offset + 8, offset + 16));
            assert(s.subrange(16, 24) =~= buf@.subrange(offset + 16, offset + 24));
            assert(s.subrange(24, 32) =~= buf@.subrange(offset + 24, offset + 32));
            assert(r.repr() =~= s);
        }
        r
    }
}

/// SBI steal-time accounting shared-memory address of a RISC-V vCPU.
#[allow(non_camel_case_types)]
#[derive(Clone, Copy, Debug)]
pub struct kvm_riscv_sbi_sta {
    pub shmem_lo: u64,
    pub shmem_hi: u64,
}

impl Default for kvm_riscv_sbi_sta {
    /// The all-zero structure.
    fn default() -> (r: Self)
        ensures
            r == (kvm_riscv_sbi_sta { shmem_lo: 0, shmem_hi: 0 }),
    {
        kvm_riscv_sbi_sta { shmem_lo: 0, shmem_hi: 0 }
    }
}

/// The ABI image of `kvm_riscv_sbi_sta`: each field little-endian, in order.
impl ByteRepr for kvm_riscv_sbi_sta {
    open spec fn spec_size() -> nat {
        16
    }

    open spec fn repr(&self) -> Seq<u8> {
        spec_u64_to_le_bytes(self.shmem_lo) + spec_u64_to_le_bytes(self.shmem_hi)
    }

    open spec fn spec_from_bytes(b: Seq<u8>) -> Self {
        kvm_riscv_sbi_sta {
            shmem_lo: spec_u64_from_le_bytes(b.subrange(0, 8)),
            shmem_hi: spec_u64_from_le_bytes(b.subrange(8, 16)),
        }
    }

    proof fn lemma_repr_len(&self) {
        lemma_auto_spec_u64_to_from_le_bytes();
    }

    proof fn lemma_from_repr(&self) {
        lemma_auto_spec_u64_to_from_le_bytes();
        assert(self.repr().subrange(0, 8) =~= spec_u64_to_le_bytes(self.shmem_lo));
        assert(self.repr().subrange(8, 16) =~= spec_u64_to_le_bytes(self.shmem_hi));
    }

    fn byte_size() -> (r: usize) {
        16
    }

    fn write_bytes(&self, out: &mut Vec<u8>) {
        write_u64(out, self.shmem_lo);
        write_u64(out, self.shmem_hi);
        proof {
            assert(out@ =~= old(out)@ + self.repr());
        }
    }

    fn read_bytes(buf: &[u8], offset: usize) -> (r: Self) {
        proof {
            vstd::slice::axiom_spec_len(buf);
        }
        let shmem_lo = read_u64(buf, offset);
        let shmem_hi = read_u64(buf, offset + 8);
        let r = kvm_riscv_sbi_sta { shmem_lo, shmem_hi };
        proof {
            let s = buf@.subrange(offset as int, offset + 16);
            assert(s.subrange(0, 8) =~= buf@.subrange(offset as int, offset + 8));
            assert(s.subrange(8, 16) =~= buf@.subrange(offset + 8, offset + 16));
            assert(r.repr() =~= s);
        }
        r
    }
}

/// One register of a vCPU: its identifier and the address of its value.
#[allow(non_camel_case_types)]
#[derive(Clone, Copy, Debug)]
pub struct kvm_one_reg {
    pub id: u64,
    pub addr: u64,
}

impl Default for kvm_one_reg {
    /// The all-zero structure.
    fn default() -> (r: Self)
        ensures
            r == (kvm_one_reg { id: 0, addr: 0 }),
    {
        kvm_one_reg { id: 0, addr: 0 }
    }
}

/// The ABI image of `kvm_one_reg`: each field little-endian, in order.
impl ByteRepr for kvm_one_reg {
    open spec fn spec_size() -> nat {
        16
    }

    open spec fn repr(&self) -> Seq<u8> {
        spec_u64_to_le_bytes(self.id) + spec_u64_to_le_bytes(self.addr)
    }

    open spec fn spec_from_bytes(b: Seq<u8>) -> Self {
        kvm_one_reg {
            id: spec_u64_from_le_bytes(b.subrange(0, 8)),
            addr: spec_u64_from_le_bytes(b.subrange(8, 16)),
        }
    }

    proof fn lemma_repr_len(&self) {
        lemma_auto_spec_u64_to_from_le_bytes();
    }

    proof fn lemma_from_repr(&self) {
        lemma_auto_spec_u64_to_from_le_bytes();
        assert(self.repr().subrange(0, 8) =~= spec_u64_to_le_bytes(self.id));
        assert(self.repr().subrange(8, 16) =~= spec_u64_to_le_bytes(self.addr));
    }

    fn byte_size() -> (r: usize) {
        16
    }

    fn write_bytes(&self, out: &mut Vec<u8>) {
        write_u64(out, self.id);
        write_u64(out, self.addr);
        proof {
            assert(out@ =~= old(out)@ + self.repr());
        }
    }

    fn read_bytes(buf: &[u8], offset: usize) -> (r: Self) {
        proof {
            vstd::slice::axiom_spec_len(buf);
        }
        let id = read_u64(buf, offset);
        let addr = read_u64(buf, offset + 8);
        let r = kvm_one_reg { id, addr };
        proof {
            let s = buf@.subrange(offset as int, offset + 16);
            assert(s.subrange(0, 8) =~= buf@.subrange(offset as int, offset + 8));
            assert(s.subrange(8, 16) =~= buf@.subrange(offset + 8, offset + 16));
            assert(r.repr() =~= s);
        }
        r
    }
}
/// Core register state of a RISC-V vCPU: the register file and the
/// privilege mode.
#[allow(non_camel_case_types)]
#[derive(Clone, Copy, Debug)]
pub struct kvm_riscv_core {
    pub regs: user_regs_struct,
    pub mode: u64,
}

impl Default for kvm_riscv_core {
    /// The all-zero structure.
    fn default() -> (r: Self)
        ensures
            r.regs == (user_regs_struct { pc: 0, ra: 0, sp: 0, gp: 0, tp: 0, t0: 0, t1: 0, t2: 0, s0: 0, s1: 0, a0: 0, a1: 0, a2: 0, a3: 0, a4: 0, a5: 0, a6: 0, a7: 0, s2: 0, s3: 0, s4: 0, s5: 0, s6: 0, s7: 0, s8: 0, s9: 0, s10: 0, s11: 0, t3: 0, t4: 0, t5: 0, t6: 0 }),
            r.mode == 0,
    {
        kvm_riscv_core { regs: user_regs_struct::default(), mode: 0 }
    }
}

/// The ABI image of `kvm_riscv_core`: the register file image, then the
/// mode, little-endian.
impl ByteRepr for kvm_riscv_core {
    open spec fn spec_size() -> nat {
        264
    }

    open spec fn repr(&self) -> Seq<u8> {
        self.regs.repr() + spec_u64_to_le_bytes(self.mode)
    }

    open spec fn spec_from_bytes(b: Seq<u8>) -> Self {
        kvm_riscv_core {
            regs: user_regs_struct::spec_from_bytes(b.subrange(0, 256)),
            mode: spec_u64_from_le_bytes(b.subrange(256, 264)),
        }
    }

    proof fn lemma_repr_len(&self) {
        lemma_auto_spec_u64_to_from_le_bytes();
        self.regs.lemma_repr_len();
    }

    proof fn lemma_from_repr(&self) {
        lemma_auto_spec_u64_to_from_le_bytes();
        self.regs.lemma_repr_len();
        self.regs.lemma_from_repr();
        assert(self.repr().subrange(0, 256) =~= self.regs.repr());
        assert(self.repr().subrange(256, 264) =~= spec_u64_to_le_bytes(self.mode));
    }

    fn byte_size() -> (r: usize) {
        264
    }

    fn write_bytes(&self, out: &mut Vec<u8>) {
        self.regs.write_bytes(out);
        write_u64(out, self.mode);
        proof {
            assert(out@ =~= old(out)@ + self.repr());
        }
    }

    fn read_bytes(buf: &[u8], offset: usize) -> (r: Self) {
        proof {
            vstd::slice::axiom_spec_len(buf);
        }
        let regs = <user_regs_struct as ByteRepr>::read_bytes(buf, offset);
        let mode = read_u64(buf, offset + 256);
        let r = kvm_riscv_core { regs, mode };
        proof {
            let s = buf@.subrange(offset as int, offset + 264);
            assert(s.subrange(0, 256) =~= buf@.subrange(offset as int, offset + 256));
            assert(s.subrange(256, 264) =~= buf@.subrange(offset + 256, offset + 264));
            assert(r.repr() =~= s);
        }
        r
    }
}

} // verus!
