//! Physical memory protection: the configuration that opens one region to user mode.

use crate::hardware::binary_struct::Byte;
use crate::user_prog::PMP_ENTRIES;
use vstd::prelude::*;

verus! {

/// Read, write, execute and top-of-range addressing: the low four bits of a configuration byte.
pub const RWX_TOR: u8 = 0x0f;

/// The value of the configuration register whose bytes are `bytes`, the first byte lowest.
pub open spec fn le_u64(bytes: Seq<u8>) -> u64 {
    (bytes[0] as u64) | (bytes[1] as u64) << 8 | (bytes[2] as u64) << 16 | (bytes[3] as u64) << 24
        | (bytes[4] as u64) << 32 | (bytes[5] as u64) << 40 | (bytes[6] as u64) << 48 | (
    bytes[7] as u64) << 56
}

/// The eight configuration bytes of the register `pmpcfg0`.
pub struct Pmpcfg([Byte; 8]);

impl View for Pmpcfg {
    type V = Seq<u8>;

    closed spec fn view(&self) -> Seq<u8> {
        Seq::new(8, |i: int| self.0[i]@)
    }
}

impl Pmpcfg {
    /// The value of the register.
    pub fn to_u64(&self) -> (value: u64)
        ensures
            value == le_u64(self@),
    {
        (self.0[0].get() as u64) | (self.0[1].get() as u64) << 8 | (self.0[2].get() as u64) << 16
            | (self.0[3].get() as u64) << 24 | (self.0[4].get() as u64) << 32 | (
        self.0[5].get() as u64) << 40 | (self.0[6].get() as u64) << 48 | (self.0[7].get() as u64)
            << 56
    }

    /// Opens the region of entry `at` to user mode.
    pub fn set_rwx(&mut self, at: usize)
        requires
            at < PMP_ENTRIES,
        ensures
            final(self)@ == old(self)@.update(at as int, old(self)@[at as int] | RWX_TOR),
    {
        let mut reg = self.0[at];
        let ghost before = reg@;
        reg.at(0, true);  // R
        reg.at(1, true);  // W
        reg.at(2, true);  // X
        reg.at(3, true);  // A - top of range
        proof {
            assert((((before | (1u8 << 0u8)) | (1u8 << 1u8)) | (1u8 << 2u8)) | (1u8 << 3u8)
                == before | 0x0fu8) by (bit_vector);
        }
        self.0[at] = reg;
    }

    /// The configuration that opens no region.
    pub fn new() -> (cfg: Pmpcfg)
        ensures
            cfg@ == Seq::new(8, |i: int| 0u8),
    {
        let bytes = [Byte::from(0);8];
        Pmpcfg(bytes)
    }
}

/// The values of the address registers and of the configuration register at setup.
pub struct PmpInit {
    /// The upper ends of the regions: devices, kernel, first user program, second user
    /// program, end. Each is an address without its two lowest bits.
    pub pmpaddr: [u64; 5],
    /// The configuration: no region is open to user mode.
    pub pmpcfg0: u64,
}

/// The registers of the physical memory protection at setup.
pub fn init() -> (regs: PmpInit)
    ensures
        regs.pmpaddr@ == seq![
            0x2000_0000u64,
            0x2004_0000u64,
            0x2008_0000u64,
            0x200c_0000u64,
            0x2010_0000u64,
        ],
        regs.pmpcfg0 == 0,
{
    let pmp_addr_0: u64 = 0x80000000u64 >> 2;  // devices
    let pmp_addr_1: u64 = 0x80100000u64 >> 2;  // kernel
    let pmp_addr_2: u64 = 0x80200000u64 >> 2;  // user1
    let pmp_addr_3: u64 = 0x80300000u64 >> 2;  // user2
    let pmp_addr_4: u64 = 0x80400000u64 >> 2;  // end
    let pmpcfg0: u64 = 0;
    proof {
        assert(0x80000000u64 >> 2 == 0x2000_0000u64) by (bit_vector);
        assert(0x80100000u64 >> 2 == 0x2004_0000u64) by (bit_vector);
        assert(0x80200000u64 >> 2 == 0x2008_0000u64) by (bit_vector);
        assert(0x80300000u64 >> 2 == 0x200c_0000u64) by (bit_vector);
        assert(0x80400000u64 >> 2 == 0x2010_0000u64) by (bit_vector);
    }
    let regs = PmpInit {
        pmpaddr: [pmp_addr_0, pmp_addr_1, pmp_addr_2, pmp_addr_3, pmp_addr_4],
        pmpcfg0,
    };
    assert(regs.pmpaddr@ =~= seq![
        0x2000_0000u64,
        0x2004_0000u64,
        0x2008_0000u64,
        0x200c_0000u64,
        0x2010_0000u64,
    ]);
    regs
}

/// The configuration that opens entry `pmp_idx` alone.
pub open spec fn spec_switch_pmp(pmp_idx: usize) -> u64 {
    (RWX_TOR as u64) << (8 * pmp_idx) as u64
}

/// The value of `pmpcfg0` that gives user mode the region of entry `pmp_idx` and no other.
pub fn switch_pmp(pmp_idx: usize) -> (pmpcfg0: u64)
    requires
        pmp_idx < PMP_ENTRIES,
    ensures
        pmpcfg0 == spec_switch_pmp(pmp_idx),
{
    let mut cfg = Pmpcfg::new();
    cfg.set_rwx(pmp_idx);
    let value = cfg.to_u64();
    proof {
        let s = cfg@;
        let i = pmp_idx as u64;
        assert(0u8 | 0x0fu8 == 0x0fu8) by (bit_vector);
        let b0 = s[0];
        let b1 = s[1];
        let b2 = s[2];
        let b3 = s[3];
        let b4 = s[4];
        let b5 = s[5];
        let b6 = s[6];
        let b7 = s[7];
        assert(i < 8 && b0 == (if i == 0 { 0x0fu8 } else { 0u8 }) && b1 == (if i == 1 { 0x0fu8 } else { 0u8 })
            && b2 == (if i == 2 { 0x0fu8 } else { 0u8 }) && b3 == (if i == 3 { 0x0fu8 } else { 0u8 })
            && b4 == (if i == 4 { 0x0fu8 } else { 0u8 }) && b5 == (if i == 5 { 0x0fu8 } else { 0u8 })
            && b6 == (if i == 6 { 0x0fu8 } else { 0u8 }) && b7 == (if i == 7 { 0x0fu8 } else { 0u8 })
            ==> ((b0 as u64) | (b1 as u64) << 8 | (b2 as u64) << 16 | (b3 as u64) << 24 | (b4 as u64) << 32
            | (b5 as u64) << 40 | (b6 as u64) << 48 | (b7 as u64) << 56) == (0x0fu8 as u64) << (8 * i) as u64)
            by (bit_vector);
    }
    value
}

} // verus!
