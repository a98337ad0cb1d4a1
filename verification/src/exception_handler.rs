//! The exception handler.
//! Called whenever an exception or interrupt occurs.

use crate::hardware::binary_struct::{BinaryOperations, BinaryStruct};
use crate::hardware::plic;
use crate::hardware::plic::Irq;
use crate::hardware::stack::{Stack, A0, A1, A7};
use crate::hardware::uart;
use crate::hardware::uart::{Interrupt, Line};
use crate::kernel::{spec_kernel_setup, Fault, Kernel, Model, Resume, Trap};
use crate::riscv_utils::{
    SysCall,
    MCAUSE_EXCEPTION_ECALL,
    MCAUSE_EXCEPTION_IAF,
    MCAUSE_EXCEPTION_II,
    MCAUSE_EXCEPTION_LAF,
    MCAUSE_INTERRUPT_EXTERN,
    MCAUSE_INTERRUPT_TIMER,
};
use crate::scheduler;
use crate::scheduler::{Prog, Reason, State, Switch, Table, INSTRUCTION_SIZE, USER_BASE};
use crate::sys_call;
use crate::sys_call::Service;
use vstd::prelude::*;

verus! {

/// The bit of `mcause` that tells an interrupt from an exception: the highest one.
pub open spec fn interrupt_bit() -> nat {
    (usize::BITS - 1) as nat
}

/// Whether the cause is that of an interrupt.
pub open spec fn is_interrupt(mcause: usize) -> bool {
    mcause.spec_is_set(interrupt_bit())
}

/// Whether the cause is that of a system call: the trap for which the trapped program
/// counter must leave room for one instruction.
pub fn ecall(mcause: usize) -> (ecall: bool)
    ensures
        ecall == is_ecall(mcause),
{
    let cause = BinaryStruct::from(mcause);
    !cause.is_set(usize::BITS as usize - 1) && mcause == MCAUSE_EXCEPTION_ECALL
}

/// The code of an interrupt: its cause without the interrupt bit.
pub open spec fn interrupt_code(mcause: usize) -> usize {
    mcause.spec_at(interrupt_bit(), false)
}

/// The number whose only bit is the interrupt bit.
pub open spec fn interrupt_flag() -> usize {
    1usize << ((usize::BITS - 1) as usize)
}

/// The causes of interrupts are the numbers from the interrupt flag on, and the code of an
/// interrupt is its cause less the flag.
pub proof fn law_interrupt_bit(mcause: usize)
    ensures
        is_interrupt(mcause) <==> mcause >= interrupt_flag(),
        is_interrupt(mcause) ==> interrupt_code(mcause) == mcause - interrupt_flag(),
        !is_interrupt(mcause) ==> interrupt_code(mcause) == mcause,
{
    let top = (usize::BITS - 1) as usize;
    assert(top == usize::BITS - 1 ==> ((mcause & (1usize << top) != 0) <==> mcause >= (1usize
        << top))) by (bit_vector);
    assert(top == usize::BITS - 1 && mcause >= (1usize << top) ==> mcause & !(1usize << top)
        == mcause - (1usize << top)) by (bit_vector);
    assert(top == usize::BITS - 1 && mcause < (1usize << top) ==> mcause & !(1usize << top)
        == mcause) by (bit_vector);
}

/// Whether the trap is a system call.
pub open spec fn is_ecall(mcause: usize) -> bool {
    !is_interrupt(mcause) && mcause == MCAUSE_EXCEPTION_ECALL
}

/// How the handling goes on once the interrupt controller named the source.
pub open spec fn spec_handle_claim(claim: u32) -> Trap {
    match Irq::of(claim as isize) {
        Some(irq) => Trap::UartCause { irq },
        None => Trap::Fault(Fault::UnknownIrq { claim }),
    }
}

/// How the handling goes on once the serial console named the cause of its interrupt.
pub open spec fn spec_handle_uart_cause(irq: Irq, isr: u8) -> Trap {
    let cause = uart::spec_interrupt_cause(BinaryStruct(isr));
    if cause == Interrupt::ReceivedDataRdy {
        Trap::UartChar { irq }
    } else {
        Trap::Fault(Fault::UnsupportedUartInterrupt { cause })
    }
}

impl Model {
    /// The kernel after a trap ended with the service of a system call.
    pub open spec fn served(self, service: Service) -> Trap {
        match service {
            Service::Return(ret) => self.progs.leave(Resume { ret, ..Resume::blank() }),
            Service::Print(string) => self.progs.leave(
                Resume { string: Some(string), ..Resume::blank() },
            ),
            Service::Switched(Switch::Resumed { pmpcfg0 }) => self.progs.leave(
                Resume { pmpcfg0: Some(pmpcfg0), ..Resume::blank() },
            ),
            Service::Switched(Switch::Booted(boot)) => Trap::Boot(boot),
            Service::Fault(fault) => Trap::Fault(fault),
        }
    }

    /// A timer interrupt: the next user program after round robin goes on, and the timer is
    /// armed again.
    pub open spec fn timer(self) -> (Model, Trap) {
        match self.progs.next() {
            None => (self, Trap::Fault(Fault::NoNextProg)),
            Some(next) => {
                let progs = self.progs.switch(next);
                (
                    Model { progs, ..self },
                    match self.progs.switched(next) {
                        Switch::Booted(boot) => Trap::Boot(boot),
                        Switch::Resumed { pmpcfg0 } => progs.leave(
                            Resume { pmpcfg0: Some(pmpcfg0), timer: true, ..Resume::blank() },
                        ),
                    },
                )
            },
        }
    }

    /// An interrupt of the given code.
    pub open spec fn interrupt(self, code: usize) -> (Model, Trap) {
        if code == MCAUSE_INTERRUPT_TIMER {
            self.timer()
        } else if code == MCAUSE_INTERRUPT_EXTERN {
            (self, Trap::Claim)
        } else {
            (self, Trap::Fault(Fault::UnsupportedInterrupt { code }))
        }
    }

    /// An exception of the given cause, taken at `mepc` with the registers in `stack`.
    pub open spec fn exception(self, mcause: usize, mepc: usize, stack: Seq<usize>) -> (
        Model,
        Trap,
    ) {
        let id = self.progs.cur_prog().id;
        if mcause == MCAUSE_EXCEPTION_IAF {
            (self, Trap::Fault(Fault::InstructionAccessFault { id, mepc }))
        } else if mcause == MCAUSE_EXCEPTION_II {
            (self, Trap::Fault(Fault::IllegalInstruction { id, mepc }))
        } else if mcause == MCAUSE_EXCEPTION_LAF {
            (self, Trap::Fault(Fault::LoadAccessFault { id, mepc }))
        } else if mcause == MCAUSE_EXCEPTION_ECALL {
            let served = self.sys_call(stack[A7 as int], stack[A0 as int], stack[A1 as int]);
            (served.0, served.0.served(served.1))
        } else {
            (self, Trap::Fault(Fault::UnsupportedException { code: mcause }))
        }
    }

    /// A trap taken at `mepc` for `mcause`, with the registers of the trapped user program in
    /// `stack`, at the address `sp`.
    pub open spec fn trap(self, mepc: usize, mcause: usize, sp: usize, stack: Seq<usize>) -> (
        Model,
        Trap,
    ) {
        if mepc < USER_BASE {
            (self, Trap::Fault(Fault::InterruptInException { mepc, mcause }))
        } else if !self.progs.has_cur() {
            (self, Trap::Fault(Fault::NoCurrentProg))
        } else {
            let saved = Model { progs: self.progs.save(mepc, sp), ..self };
            if is_interrupt(mcause) {
                saved.interrupt(interrupt_code(mcause))
            } else {
                saved.exception(mcause, mepc, stack)
            }
        }
    }

    /// The arrival of a byte at the serial console. While a user program holds the console
    /// open the character is kept. Where that program waits for it, it gets the oldest
    /// character as its return value, becomes ready and goes on at once.
    pub open spec fn uart_char(self, irq: Irq, char: u8) -> (Model, Trap) {
        let uart = self.uart.receive(char as char);
        let kept = Resume {
            complete: Some(irq),
            lost: self.uart.overwritten(),
            ..Resume::blank()
        };
        match self.uart.holder {
            None => (self, self.progs.leave(kept)),
            Some(uart_prog) => if !self.progs.holds(uart_prog) {
                (Model { uart, ..self }, Trap::Fault(Fault::UnknownProg { prog: uart_prog }))
            } else if self.progs.data(uart_prog).state == State::Blocked(Reason::Uart) {
                let progs = self.progs.with_state(uart_prog, State::Rdy).switch(uart_prog);
                (
                    Model { progs, uart: uart.taken() },
                    progs.leave(
                        Resume {
                            ret: Some(uart.received[0] as usize),
                            pmpcfg0: Some(self.progs.switched(uart_prog)->pmpcfg0),
                            ..kept
                        },
                    ),
                )
            } else {
                (Model { uart, ..self }, self.progs.leave(kept))
            },
        }
    }
}

impl Model {
    /// A user program is running: the current slot holds a ready program.
    pub open spec fn running(self) -> bool {
        &&& self.progs.has_cur()
        &&& self.progs.data(self.progs.cur_prog()).state == State::Rdy
    }

    /// The user program that holds the console open is in the table.
    pub open spec fn holder_known(self) -> bool {
        self.uart.holder matches Some(user_prog) ==> self.progs.holds(user_prog)
    }
}

/// At its start the kernel runs a user program, and nobody holds the console.
pub proof fn law_start_is_running()
    ensures
        spec_kernel_setup().progs.wf(),
        spec_kernel_setup().running(),
        spec_kernel_setup().holder_known(),
{
}

/// Whenever a trap ends with the return into a user program or with the first entry into one,
/// that program is the running one and it is ready. A return goes to its saved registers, a
/// first entry to its boot address.
pub proof fn law_trap_leaves_running(
    kernel: Model,
    mepc: usize,
    mcause: usize,
    sp: usize,
    stack: Seq<usize>,
)
    requires
        kernel.progs.wf(),
    ensures
        kernel.trap(mepc, mcause, sp, stack).0.progs.wf(),
        kernel.trap(mepc, mcause, sp, stack).1 matches Trap::Resume(resume) ==> kernel.trap(
            mepc,
            mcause,
            sp,
            stack,
        ).0.running() && resume.regs == kernel.trap(mepc, mcause, sp, stack).0.progs.restore(),
        kernel.trap(mepc, mcause, sp, stack).1 matches Trap::Boot(boot) ==> {
            let after = kernel.trap(mepc, mcause, sp, stack).0;
            &&& after.running()
            &&& boot.id == after.progs.cur_prog().id
            &&& boot.mepc == after.progs.data(after.progs.cur_prog()).info.boot_mepc
        },
        kernel.running() && kernel.trap(mepc, mcause, sp, stack).1 is Claim ==> kernel.trap(
            mepc,
            mcause,
            sp,
            stack,
        ).0.running(),
{
    lemma_trap(kernel, mepc, mcause, sp, stack);
}

/// The same holds once the byte of the serial console was handled.
pub proof fn law_uart_char_leaves_running(kernel: Model, irq: Irq, char: u8)
    requires
        kernel.progs.wf(),
    ensures
        kernel.uart_char(irq, char).0.progs.wf(),
        kernel.uart_char(irq, char).1 matches Trap::Resume(resume) ==> kernel.uart_char(
            irq,
            char,
        ).0.running() && resume.regs == kernel.uart_char(irq, char).0.progs.restore(),
        !(kernel.uart_char(irq, char).1 is Boot),
{
    lemma_uart_char(kernel, irq, char);
}

/// The holder of the console stays in the table over every trap: a user program that ends
/// lets go of the console first.
pub proof fn law_holder_stays_known(
    kernel: Model,
    mepc: usize,
    mcause: usize,
    sp: usize,
    stack: Seq<usize>,
)
    requires
        kernel.progs.wf(),
        kernel.holder_known(),
    ensures
        kernel.trap(mepc, mcause, sp, stack).0.holder_known(),
{
    lemma_trap(kernel, mepc, mcause, sp, stack);
}

/// While the holder of the console is in the table, the arrival of a byte never meets an
/// unknown user program, and the holder stays in the table.
pub proof fn law_uart_char_knows_holder(kernel: Model, irq: Irq, char: u8)
    requires
        kernel.progs.wf(),
        kernel.holder_known(),
    ensures
        kernel.uart_char(irq, char).0.holder_known(),
        !(kernel.uart_char(irq, char).1 matches Trap::Fault(Fault::UnknownProg { .. })),
{
    lemma_uart_char(kernel, irq, char);
}

/// The trap ended with a running user program, where it ended with a return or a first
/// entry.
spec fn ends_running(after: Model, trap: Trap) -> bool {
    &&& trap matches Trap::Resume(resume) ==> after.running() && resume.regs
        == after.progs.restore()
    &&& trap matches Trap::Boot(boot) ==> {
        &&& after.running()
        &&& boot.id == after.progs.cur_prog().id
        &&& boot.mepc == after.progs.data(after.progs.cur_prog()).info.boot_mepc
    }
}

/// A yield keeps the table well formed and every user program in it, and the user program
/// that goes on is ready and running.
proof fn lemma_sys_yield(table: Table, uart: Line)
    requires
        table.wf(),
    ensures
        table.sys_yield().0.wf(),
        forall|prog: Prog| table.holds(prog) ==> #[trigger] table.sys_yield().0.holds(prog),
        ends_running(
            Model { progs: table.sys_yield().0, uart },
            (Model { progs: table.sys_yield().0, uart }).served(table.sys_yield().1),
        ),
{
    reveal_with_fuel(Table::next_from, 3);
}

/// A system call keeps the table well formed and the holder of the console in it, and ends
/// with a running user program.
proof fn lemma_sys_call(kernel: Model, number: usize, param_0: usize, param_1: usize)
    requires
        kernel.progs.wf(),
    ensures
        ({
            let after = kernel.sys_call(number, param_0, param_1).0;
            let service = kernel.sys_call(number, param_0, param_1).1;
            &&& after.progs.wf()
            &&& kernel.holder_known() ==> after.holder_known()
            &&& ends_running(after, after.served(service))
        }),
{
    reveal_with_fuel(Table::free_from, 3);
    let user_prog = kernel.progs.cur_prog();
    if kernel.progs.has_cur() {
        match SysCall::of(number as isize) {
            Some(SysCall::GetChar) => {
                let moved = kernel.advance();
                let blocked = moved.progs.with_state(user_prog, State::Blocked(Reason::Uart));
                lemma_sys_yield(blocked, moved.uart);
            },
            Some(SysCall::Yield) => {
                lemma_sys_yield(kernel.advance().progs, kernel.uart);
            },
            Some(SysCall::Exit) => {
                let again = kernel.progs.end(user_prog).init(kernel.progs.data(user_prog).info);
                lemma_sys_yield(again, kernel.uart.close(user_prog));
            },
            _ => {},
        }
    }
}

/// What the laws on traps say, in one.
proof fn lemma_trap(kernel: Model, mepc: usize, mcause: usize, sp: usize, stack: Seq<usize>)
    requires
        kernel.progs.wf(),
    ensures
        ({
            let after = kernel.trap(mepc, mcause, sp, stack).0;
            let trap = kernel.trap(mepc, mcause, sp, stack).1;
            &&& after.progs.wf()
            &&& kernel.holder_known() ==> after.holder_known()
            &&& ends_running(after, trap)
        }),
{
    if mepc >= USER_BASE && kernel.progs.has_cur() {
        let saved = Model { progs: kernel.progs.save(mepc, sp), ..kernel };
        if is_interrupt(mcause) {
            if interrupt_code(mcause) == MCAUSE_INTERRUPT_TIMER {
                reveal_with_fuel(Table::next_from, 3);
            }
        } else if mcause == MCAUSE_EXCEPTION_ECALL {
            lemma_sys_call(saved, stack[A7 as int], stack[A0 as int], stack[A1 as int]);
        }
    }
}

/// What the laws on the arrival of a byte say, in one.
proof fn lemma_uart_char(kernel: Model, irq: Irq, char: u8)
    requires
        kernel.progs.wf(),
    ensures
        ({
            let after = kernel.uart_char(irq, char).0;
            let trap = kernel.uart_char(irq, char).1;
            &&& after.progs.wf()
            &&& kernel.holder_known() ==> after.holder_known()
            &&& kernel.holder_known() ==> !(trap matches Trap::Fault(Fault::UnknownProg { .. }))
            &&& ends_running(after, trap)
            &&& !(trap is Boot)
        }),
{
}

/// Handles a trap: saves the registers of the running user program, handles the interrupt or
/// the exception, and says how the machine leaves the trap.
pub fn exception_handler(
    kernel: &mut Kernel,
    mepc: usize,
    mcause: usize,
    sp: usize,
    stack: &Stack,
) -> (trap: Trap)
    requires
        old(kernel).wf(),
        is_ecall(mcause) ==> mepc + INSTRUCTION_SIZE <= usize::MAX,
    ensures
        final(kernel).wf(),
        (final(kernel)@, trap) == old(kernel)@.trap(mepc, mcause, sp, stack@),
{
    if mepc < USER_BASE {
        return Trap::Fault(Fault::InterruptInException { mepc, mcause });
    }
    if !kernel.progs.has_cur() {
        return Trap::Fault(Fault::NoCurrentProg);
    }
    scheduler::save_cur_prog(&mut kernel.progs, mepc, sp);
    let mut mcause = BinaryStruct::from(mcause);
    let top = usize::BITS as usize - 1;
    let interrupt = mcause.is_set(top);
    if interrupt {
        mcause.at(top, false);
        handle_interrupt(kernel, mcause.into_inner())
    } else {
        handle_exception(kernel, mcause.into_inner(), mepc, stack)
    }
}

/// Ends a trap with the return to the running user program.
pub fn leave(kernel: &Kernel, resume: Resume) -> (trap: Trap)
    requires
        kernel.wf(),
    ensures
        trap == kernel@.progs.leave(resume),
{
    if !kernel.progs.has_cur() {
        return Trap::Fault(Fault::NoCurrentProg);
    }
    let prog = scheduler::cur(&kernel.progs);
    let state = prog.state(&kernel.progs);
    if state != State::Rdy {
        return Trap::Fault(Fault::NotReady { id: prog.id, state });
    }
    let regs = scheduler::restore_cur_prog(&kernel.progs);
    Trap::Resume(Resume { regs, ..resume })
}

/// Handles the interrupt of the code: on the timer the next user program goes on, an
/// external interrupt asks for the claim register.
pub fn handle_interrupt(kernel: &mut Kernel, mcause: usize) -> (trap: Trap)
    requires
        old(kernel).wf(),
    ensures
        final(kernel).wf(),
        (final(kernel)@, trap) == old(kernel)@.interrupt(mcause),
{
    if mcause == MCAUSE_INTERRUPT_TIMER {
        match scheduler::next(&kernel.progs) {
            None => Trap::Fault(Fault::NoNextProg),
            Some(next) => match scheduler::switch(&mut kernel.progs, next) {
                Switch::Booted(boot) => Trap::Boot(boot),
                Switch::Resumed { pmpcfg0 } => {
                    let mut resume = Resume::new();
                    resume.pmpcfg0 = Some(pmpcfg0);
                    resume.timer = true;
                    leave(kernel, resume)
                },
            },
        }
    } else if mcause == MCAUSE_INTERRUPT_EXTERN {
        Trap::Claim
    } else {
        Trap::Fault(Fault::UnsupportedInterrupt { code: mcause })
    }
}

/// Goes on with an external interrupt once the claim register was read.
pub fn handle_claim(claim: u32) -> (trap: Trap)
    ensures
        trap == spec_handle_claim(claim),
{
    match plic::read_claim(claim) {
        Ok(irq) => Trap::UartCause { irq },
        Err(_) => Trap::Fault(Fault::UnknownIrq { claim }),
    }
}

/// Goes on with an interrupt of the serial console once its status register was read.
pub fn handle_uart_cause(irq: Irq, isr: u8) -> (trap: Trap)
    ensures
        trap == spec_handle_uart_cause(irq, isr),
{
    let cause = uart::get_interrupt_cause(BinaryStruct::from(isr));
    if cause == Interrupt::ReceivedDataRdy {
        Trap::UartChar { irq }
    } else {
        Trap::Fault(Fault::UnsupportedUartInterrupt { cause })
    }
}

/// Ends an interrupt of the serial console once the received byte was read.
pub fn handle_uart_char(kernel: &mut Kernel, irq: Irq, char: u8) -> (trap: Trap)
    requires
        old(kernel).wf(),
    ensures
        final(kernel).wf(),
        (final(kernel)@, trap) == old(kernel)@.uart_char(irq, char),
{
    let received = uart::read_char_to_buffer(&mut kernel.uart, char);
    let mut resume = Resume::new();
    resume.complete = Some(irq);
    resume.lost = received.lost;
    if let Some(uart_prog) = received.prog {
        if !kernel.progs.holds(uart_prog) {
            return Trap::Fault(Fault::UnknownProg { prog: uart_prog });
        }
        if uart_prog.is_blocked(&kernel.progs, Reason::Uart) {
            // The character is present as it was just read.
            let char = uart::get_char(&mut kernel.uart).unwrap();
            resume.ret = Some(char as usize);
            uart_prog.set_rdy(&mut kernel.progs);
            if let Switch::Resumed { pmpcfg0 } = scheduler::switch(&mut kernel.progs, uart_prog) {
                resume.pmpcfg0 = Some(pmpcfg0);
            }
        }
    }
    leave(kernel, resume)
}

/// Handles the exception of the cause: serves a system call with the registers in `stack`,
/// and ends in a fault on every other one.
pub fn handle_exception(kernel: &mut Kernel, mcause: usize, mepc: usize, stack: &Stack) -> (trap:
    Trap)
    requires
        old(kernel).wf(),
        old(kernel)@.progs.has_cur(),
        mcause == MCAUSE_EXCEPTION_ECALL ==> old(kernel)@.can_advance(),
    ensures
        final(kernel).wf(),
        (final(kernel)@, trap) == old(kernel)@.exception(mcause, mepc, stack@),
{
    if mcause == MCAUSE_EXCEPTION_IAF {
        Trap::Fault(
            Fault::InstructionAccessFault { id: scheduler::cur(&kernel.progs).id, mepc },
        )
    } else if mcause == MCAUSE_EXCEPTION_II {
        Trap::Fault(Fault::IllegalInstruction { id: scheduler::cur(&kernel.progs).id, mepc })
    } else if mcause == MCAUSE_EXCEPTION_LAF {
        Trap::Fault(Fault::LoadAccessFault { id: scheduler::cur(&kernel.progs).id, mepc })
    } else if mcause == MCAUSE_EXCEPTION_ECALL {
        let number = stack.a7();
        let param_0 = stack.a0();
        let param_1 = stack.a1();
        let mut resume = Resume::new();
        match sys_call::sys_call(kernel, number, param_0, param_1) {
            Service::Return(ret) => {
                resume.ret = ret;
                leave(kernel, resume)
            },
            Service::Print(string) => {
                resume.string = Some(string);
                leave(kernel, resume)
            },
            Service::Switched(Switch::Resumed { pmpcfg0 }) => {
                resume.pmpcfg0 = Some(pmpcfg0);
                leave(kernel, resume)
            },
            Service::Switched(Switch::Booted(boot)) => Trap::Boot(boot),
            Service::Fault(fault) => Trap::Fault(fault),
        }
    } else {
        // Unsupported exception
        Trap::Fault(Fault::UnsupportedException { code: mcause })
    }
}

} // verus!
