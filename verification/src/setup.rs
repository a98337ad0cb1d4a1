//! Global kernel setup.

use crate::hardware::binary_struct::{BinaryOperations, BinaryStruct, Byte};
use crate::hardware::clint;
use crate::hardware::plic;
use crate::hardware::plic::Write;
use crate::hardware::pmp;
use crate::hardware::pmp::PmpInit;
use crate::hardware::uart;
use crate::riscv_utils::{
    MIE_MEIE,
    MIE_MSIE,
    MIE_MTIE,
    MSTATUS_MIE,
    MSTATUS_MPP_U,
};
use vstd::prelude::*;

verus! {

/// What the setup writes to the machine, in the order of the fields.
pub struct Setup {
    /// Machine status: the previous privilege mode is user mode, interrupts are enabled.
    pub mstatus: usize,
    /// The machine-mode trap handler.
    pub mtvec: usize,
    /// Paging: disabled.
    pub satp: usize,
    /// Compare value of the timer.
    pub mtimecmp: u64,
    /// Registers of the interrupt controller.
    pub plic: [Write; 3],
    /// Interrupt enable register of the serial console.
    pub uart_ier: Byte,
    /// Physical memory protection.
    pub pmp: PmpInit,
    /// Machine interrupt enable: software, timer and external interrupts.
    pub mie: usize,
}

/// The machine status for the kernel: of the status read, the previous privilege mode set to
/// user mode and the machine-mode interrupts enabled.
pub open spec fn spec_mstatus(mstatus: usize) -> usize {
    mstatus.spec_at(11, false).spec_at(12, false).spec_at(3, true)
}

/// The interrupt enables for the kernel: of the enables read, those of software, timer and
/// external interrupts set.
pub open spec fn spec_mie(mie: usize) -> usize {
    mie.spec_at(3, true).spec_at(7, true).spec_at(11, true)
}

/// Global kernel setup. It must only be called once.
///
/// Takes the machine status and the interrupt enables as read from the machine, and the
/// address of the trap handler.
pub fn setup(mstatus: usize, mie: usize, trap_handler: usize) -> (setup: Setup)
    ensures
        setup.mstatus == spec_mstatus(mstatus),
        forall|bit: nat|
            bit < usize::BITS ==> #[trigger] setup.mstatus.spec_is_set(bit) == (if bit == 3 {
                true
            } else if bit == 11 || bit == 12 {
                false
            } else {
                mstatus.spec_is_set(bit)
            }),
        setup.mtvec == trap_handler,
        setup.satp == 0,
        setup.mtimecmp == u64::MAX,
        setup.plic@ == seq![
            (0x0c00_0028usize, 5u32),
            (0x0c00_2000usize, 0x400u32),
            (0x0c20_0000usize, 0u32),
        ],
        setup.uart_ier@ == 1,
        setup.pmp.pmpaddr@ == seq![
            0x2000_0000u64,
            0x2004_0000u64,
            0x2008_0000u64,
            0x200c_0000u64,
            0x2010_0000u64,
        ],
        setup.pmp.pmpcfg0 == 0,
        setup.mie == spec_mie(mie),
        forall|bit: nat|
            bit < usize::BITS ==> #[trigger] setup.mie.spec_is_set(bit) == (if bit == 3 || bit
                == 7 || bit == 11 {
                true
            } else {
                mie.spec_is_set(bit)
            }),
{
    // Set previous privilege mode to user so mret returns to user mode.
    let ghost mstatus_read = mstatus;
    let ghost mie_read = mie;
    let mut mstatus = BinaryStruct::from(mstatus);
    mstatus.write_register_entry(MSTATUS_MPP_U.0);
    mstatus.write_register_entry(MSTATUS_MPP_U.1);
    // Enable machine-mode interrupts.
    mstatus.write_register_entry(MSTATUS_MIE);
    // Disable paging for now.
    let paging: usize = 0;
    // Enable software interrupts (ecall) in M mode. Enable timer interrupts.
    let mut mie = BinaryStruct::from(mie);
    mie.write_register_entry(MIE_MSIE);
    mie.write_register_entry(MIE_MTIE);
    mie.write_register_entry(MIE_MEIE);
    proof {
        assert forall|bit: nat| bit < usize::BITS implies #[trigger] mstatus@.spec_is_set(bit) == (
        if bit == 3 {
            true
        } else if bit == 11 || bit == 12 {
            false
        } else {
            mstatus_read.spec_is_set(bit)
        }) by {
            let low = mstatus_read.spec_at(11, false);
            let high = low.spec_at(12, false);
            mstatus_read.lemma_at(11, false, bit);
            low.lemma_at(12, false, bit);
            high.lemma_at(3, true, bit);
        }
        assert forall|bit: nat| bit < usize::BITS implies #[trigger] mie@.spec_is_set(bit) == (
        if bit == 3 || bit == 7 || bit == 11 {
            true
        } else {
            mie_read.spec_is_set(bit)
        }) by {
            let software = mie_read.spec_at(3, true);
            let timer = software.spec_at(7, true);
            mie_read.lemma_at(3, true, bit);
            software.lemma_at(7, true, bit);
            timer.lemma_at(11, true, bit);
        }
    }
    Setup {
        mstatus: mstatus.into_inner(),
        mtvec: trap_handler,
        satp: paging,
        // Init timer interrupt.
        mtimecmp: clint::init(),
        // Init hardware interrupt.
        plic: plic::init(),
        uart_ier: uart::init(),
        // Configure physical memory protection.
        pmp: pmp::init(),
        mie: mie.into_inner(),
    }
}

} // verus!
