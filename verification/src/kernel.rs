//! The state of the kernel, and what a trap can end in.

use crate::hardware::plic::Irq;
use crate::hardware::pmp::spec_switch_pmp;
use crate::hardware::uart::{Interrupt, Line, Uart};
use crate::scheduler;
use crate::scheduler::{Boot, Prog, ProgData, ProgList, ProgReg, State, Table};
use crate::user_prog::{user1, user2, Id, Info};
use vstd::prelude::*;

verus! {

/// The kernel as a mathematical value.
pub struct Model {
    /// The process table.
    pub progs: Table,
    /// The serial console.
    pub uart: Line,
}

/// The state of the kernel: the process table and the serial console.
pub struct Kernel {
    /// The process table.
    pub progs: ProgList,
    /// The serial console.
    pub uart: Uart,
}

impl View for Kernel {
    type V = Model;

    open spec fn view(&self) -> Model {
        Model { progs: self.progs@, uart: self.uart@ }
    }
}

impl Kernel {
    /// The process table and the console are well formed.
    pub open spec fn wf(&self) -> bool {
        &&& self.progs.wf()
        &&& self.uart.wf()
    }

    /// The kernel with no user program and a free, silent console.
    pub fn new() -> (kernel: Kernel)
        ensures
            kernel.wf(),
            kernel@.progs == Table::empty(),
            kernel@.uart == (Line { holder: None, received: Seq::empty(), sent: Seq::empty() }),
    {
        Kernel { progs: ProgList::new(), uart: Uart::new() }
    }
}

/// The kernel at its start: both user programs are in the table, the first one is running
/// and the second one starts when its turn comes. The console is free and silent.
pub open spec fn spec_kernel_setup() -> Model {
    let first = Info { id: Id::User1, boot_mepc: 0x8010_0000, pmp_idx: 2 };
    let second = Info { id: Id::User2, boot_mepc: 0x8020_0000, pmp_idx: 3 };
    Model {
        progs: Table {
            cur: 0,
            slots: seq![
                Some(ProgData { state: State::Rdy, ..ProgData::fresh(first) }),
                Some(ProgData::fresh(second)),
            ],
        },
        uart: Line { holder: None, received: Seq::empty(), sent: Seq::empty() },
    }
}

/// Puts the user programs into the table and makes the first one run. Returns the kernel and
/// what the entry into the first user program needs.
pub fn kernel_setup() -> (res: (Kernel, Boot))
    ensures
        res.0.wf(),
        res.0@ == spec_kernel_setup(),
        res.1 == (Boot { id: Id::User1, mepc: 0x8010_0000, pmpcfg0: spec_switch_pmp(2) }),
{
    let mut kernel = Kernel::new();
    let user1 = scheduler::init_prog(&mut kernel.progs, user1());
    proof {
        reveal_with_fuel(Table::free_from, 3);
        assert(kernel.progs@.slots[1] is None);
    }
    scheduler::init_prog(&mut kernel.progs, user2());
    let boot = scheduler::boot_prog(&mut kernel.progs, user1);
    assert(kernel@.progs.slots =~= spec_kernel_setup().progs.slots);
    (kernel, boot)
}

/// A condition that the kernel does not survive. The caller reports it and halts.
#[derive(Clone, Copy, PartialEq, Eq, Structural, Debug)]
pub enum Fault {
    /// A trap came from below the user code: it was taken inside the kernel.
    InterruptInException { mepc: usize, mcause: usize },
    /// No user program is running.
    NoCurrentProg,
    /// The user program to return to is not ready.
    NotReady { id: Id, state: State },
    /// No other user program is ready. Idle task not implemented.
    NoNextProg,
    /// An interrupt that the kernel does not handle.
    UnsupportedInterrupt { code: usize },
    /// The interrupt controller named a source that the kernel does not know.
    UnknownIrq { claim: u32 },
    /// An interrupt of the serial console other than received data.
    UnsupportedUartInterrupt { cause: Interrupt },
    /// The user program fetched an instruction from where it may not.
    InstructionAccessFault { id: Id, mepc: usize },
    /// The user program ran an instruction that it may not run.
    IllegalInstruction { id: Id, mepc: usize },
    /// The user program read from where it may not.
    LoadAccessFault { id: Id, mepc: usize },
    /// An exception that the kernel does not handle.
    UnsupportedException { code: usize },
    /// A system call of a number that no system call has.
    IllegalSyscall { number: usize },
    /// The process table does not hold the user program of a handle.
    UnknownProg { prog: Prog },
}

/// A string in the memory of a user program.
#[derive(Clone, Copy, PartialEq, Eq, Structural, Debug)]
pub struct UserString {
    /// Address of the first byte.
    pub ptr: usize,
    /// Number of bytes.
    pub len: usize,
}

/// The return into a user program, and what the machine is to do before it.
#[derive(Clone, Copy, PartialEq, Eq, Structural, Debug)]
pub struct Resume {
    /// Program counter and stack pointer of the user program that goes on.
    pub regs: ProgReg,
    /// Value for the return-value register in the frame at that stack pointer.
    pub ret: Option<usize>,
    /// Memory protection configuration to load, where another user program goes on.
    pub pmpcfg0: Option<u64>,
    /// Whether to arm the next timer interrupt.
    pub timer: bool,
    /// Interrupt request to complete at the interrupt controller.
    pub complete: Option<Irq>,
    /// Received character that was overwritten in the full buffer, to be reported.
    pub lost: Option<char>,
    /// String of the user program to print.
    pub string: Option<UserString>,
}

impl Resume {
    /// The return to the registers with nothing else to do.
    pub open spec fn plain(regs: ProgReg) -> Resume {
        Resume {
            regs,
            ret: None,
            pmpcfg0: None,
            timer: false,
            complete: None,
            lost: None,
            string: None,
        }
    }

    /// The return with nothing to do and no registers yet.
    pub open spec fn blank() -> Resume {
        Resume::plain(ProgReg { sp: 0, mepc: 0 })
    }

    /// The return with nothing to do and no registers yet.
    pub fn new() -> (resume: Resume)
        ensures
            resume == Resume::blank(),
    {
        Resume {
            regs: ProgReg { sp: 0, mepc: 0 },
            ret: None,
            pmpcfg0: None,
            timer: false,
            complete: None,
            lost: None,
            string: None,
        }
    }
}

/// How a step of the trap handler ends.
#[derive(Clone, Copy, PartialEq, Eq, Structural, Debug)]
pub enum Trap {
    /// Return to user mode.
    Resume(Resume),
    /// Enter a user program for the first time. This arms the timer too.
    Boot(Boot),
    /// Halt.
    Fault(Fault),
    /// Read the claim register of the interrupt controller and hand it to `handle_claim`.
    Claim,
    /// Read the interrupt status register of the serial console and hand it to
    /// `handle_uart_cause`.
    UartCause { irq: Irq },
    /// Read the received byte from the serial console and hand it to `handle_uart_char`.
    UartChar { irq: Irq },
}

impl Table {
    /// The end of a trap that returns to the running user program.
    pub open spec fn leave(self, resume: Resume) -> Trap {
        if !self.has_cur() {
            Trap::Fault(Fault::NoCurrentProg)
        } else if self.data(self.cur_prog()).state != State::Rdy {
            Trap::Fault(
                Fault::NotReady {
                    id: self.cur_prog().id,
                    state: self.data(self.cur_prog()).state,
                },
            )
        } else {
            Trap::Resume(Resume { regs: self.restore(), ..resume })
        }
    }
}

} // verus!
