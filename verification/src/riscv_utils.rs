//! RISC-V utilities. Shared between the kernel and the user programs.

use crate::enum_matching::Error;
use vstd::prelude::*;
use vstd::std_specs::convert::TryFromSpecImpl;

verus! {

/// A bit of a register and the value to give it.
pub type RegisterEntry = (usize, bool);

/// `mpp`: sets previous privilege mode to user-mode so modules run only in U-mode after the setup.
pub const MSTATUS_MPP_U: (RegisterEntry, RegisterEntry) = ((11, false), (12, false));

/// `mie`: machine-mode interrupt enable
pub const MSTATUS_MIE: RegisterEntry = (3, true);

/// `meie`: external machine-mode interrupt enable
pub const MIE_MEIE: RegisterEntry = (11, true);

/// `mtie`: timer machine-mode interrupt enable
pub const MIE_MTIE: RegisterEntry = (7, true);

/// `msie`: software machine-mode interrupt enable
pub const MIE_MSIE: RegisterEntry = (3, true);

/// `seie`: external supervisor-mode interrupt enable
pub const SIE_SEIE: RegisterEntry = (9, true);

/// `stie`: timer supervisor-mode interrupt enable
pub const SIE_STIE: RegisterEntry = (5, true);

/// `ssie`: software supervisor-mode interrupt enable
pub const SIE_SSIE: RegisterEntry = (1, true);

/// `mcause` value for a timer interrupt.
pub const MCAUSE_INTERRUPT_TIMER: usize = 7;

/// `mcause` value for an extern interrupt, like the plic.
pub const MCAUSE_INTERRUPT_EXTERN: usize = 11;

/// `mcause` value for an instruction access fault exception.
pub const MCAUSE_EXCEPTION_IAF: usize = 1;

/// `mcause` value for an illegal instruction exception.
pub const MCAUSE_EXCEPTION_II: usize = 2;

/// `mcause` value for an load access fault exception.
pub const MCAUSE_EXCEPTION_LAF: usize = 5;

/// `mcause` value for an ecall exception.
pub const MCAUSE_EXCEPTION_ECALL: usize = 8;

/// System calls enum.
/// Required for kernel and user prog to sync the system call index.
#[derive(Clone, Copy, Debug, PartialEq, Eq, Structural)]
pub enum SysCall {
    PrintString,
    PrintChar,
    PrintNum,
    GetChar,
    UartOpen,
    UartClose,
    Yield,
    Exit,
}

impl SysCall {
    /// The number of the system call in the register `a7`.
    pub open spec fn spec_number(self) -> isize {
        match self {
            SysCall::PrintString => 0,
            SysCall::PrintChar => 1,
            SysCall::PrintNum => 2,
            SysCall::GetChar => 3,
            SysCall::UartOpen => 4,
            SysCall::UartClose => 5,
            SysCall::Yield => 23,
            SysCall::Exit => 42,
        }
    }

    /// The system call of the number, where there is one.
    pub open spec fn of(num: isize) -> Option<SysCall> {
        if num == 0 {
            Some(SysCall::PrintString)
        } else if num == 1 {
            Some(SysCall::PrintChar)
        } else if num == 2 {
            Some(SysCall::PrintNum)
        } else if num == 3 {
            Some(SysCall::GetChar)
        } else if num == 4 {
            Some(SysCall::UartOpen)
        } else if num == 5 {
            Some(SysCall::UartClose)
        } else if num == 23 {
            Some(SysCall::Yield)
        } else if num == 42 {
            Some(SysCall::Exit)
        } else {
            None
        }
    }

    /// The number of the system call in the register `a7`.
    #[verifier::when_used_as_spec(spec_number)]
    pub fn number(self) -> (num: isize)
        ensures
            num == self.spec_number(),
    {
        match self {
            SysCall::PrintString => 0,
            SysCall::PrintChar => 1,
            SysCall::PrintNum => 2,
            SysCall::GetChar => 3,
            SysCall::UartOpen => 4,
            SysCall::UartClose => 5,
            SysCall::Yield => 23,
            SysCall::Exit => 42,
        }
    }
}

/// Every system call is the one of its number, and a number has at most one.
pub proof fn law_syscall_numbers(call: SysCall, num: isize)
    ensures
        SysCall::of(call.spec_number()) == Some(call),
        SysCall::of(num) == Some(call) ==> num == call.spec_number(),
{
}

impl TryFrom<isize> for SysCall {
    type Error = Error;

    fn try_from(num: isize) -> (res: Result<SysCall, Error>) {
        match num {
            0 => Ok(SysCall::PrintString),
            1 => Ok(SysCall::PrintChar),
            2 => Ok(SysCall::PrintNum),
            3 => Ok(SysCall::GetChar),
            4 => Ok(SysCall::UartOpen),
            5 => Ok(SysCall::UartClose),
            23 => Ok(SysCall::Yield),
            42 => Ok(SysCall::Exit),
            _ => Err(Error { num }),
        }
    }
}

impl TryFromSpecImpl<isize> for SysCall {
    open spec fn obeys_try_from_spec() -> bool {
        true
    }

    open spec fn try_from_spec(num: isize) -> Result<SysCall, Error> {
        match SysCall::of(num) {
            Some(call) => Ok(call),
            None => Err(Error { num }),
        }
    }
}

} // verus!
