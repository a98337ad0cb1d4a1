//! The kernel side of the system calls.

use crate::hardware::uart;
use crate::hardware::uart::decimal;
use crate::kernel::{Fault, Kernel, Model, UserString};
use crate::riscv_utils::SysCall;
use crate::scheduler;
use crate::scheduler::{ProgList, Reason, State, Switch, Table};
use vstd::prelude::*;

verus! {

/// What a system call leaves to the trap handler.
#[derive(Clone, Copy, PartialEq, Eq, Structural, Debug)]
pub enum Service {
    /// Return to the caller, with a value where the call has one.
    Return(Option<usize>),
    /// Print the string of the caller, then return to it.
    Print(UserString),
    /// Another user program goes on.
    Switched(Switch),
    /// The kernel cannot go on.
    Fault(Fault),
}

impl Table {
    /// The table after the running user program gave up the rest of its turn.
    pub open spec fn sys_yield(self) -> (Table, Service) {
        match self.next() {
            Some(next) => (self.switch(next), Service::Switched(self.switched(next))),
            None => (self, Service::Fault(Fault::NoNextProg)),
        }
    }

    /// The table after the running user program gave up its turn `n` times, each time the
    /// program that had just got it.
    pub open spec fn yields(self, n: nat) -> Table
        decreases n,
    {
        if n == 0 {
            self
        } else {
            self.sys_yield().0.yields((n - 1) as nat)
        }
    }

    /// Every slot holds a user program that is ready or starts.
    pub open spec fn all_runnable(self) -> bool {
        forall|i: int| 0 <= i < self.slots.len() ==> self.runnable(i)
    }
}

/// Two user programs that only yield take turns: after `n` yields the running one is the
/// one that ran at first where `n` is even, the other one where `n` is odd.
pub proof fn law_yields_alternate(table: Table, n: nat)
    requires
        table.wf(),
        table.all_runnable(),
    ensures
        table.yields(n).cur == (table.cur + n) % 2,
        table.yields(n).all_runnable(),
    decreases n,
{
    if n > 0 {
        reveal_with_fuel(Table::next_from, 3);
        let step = table.sys_yield().0;
        assert forall|i: int| 0 <= i < step.slots.len() implies step.runnable(i) by {
            assert(table.runnable(i));
        }
        law_yields_alternate(step, (n - 1) as nat);
    }
}

/// `GetChar` by a user program that does not hold the console open returns 0 and does not
/// block, whatever was received: the call moves the program counter on and nothing else.
pub proof fn law_get_char_not_open(kernel: Model, param_0: usize, param_1: usize)
    requires
        kernel.progs.wf(),
        kernel.progs.has_cur(),
        !kernel.uart.is_open(kernel.progs.cur_prog()),
    ensures
        kernel.sys_call(3, param_0, param_1).1 == Service::Return(Some(0)),
        kernel.sys_call(3, param_0, param_1).0 == kernel.advance(),
        kernel.sys_call(3, param_0, param_1).0.uart == kernel.uart,
        kernel.sys_call(3, param_0, param_1).0.progs.data(kernel.progs.cur_prog()).state
            == kernel.progs.data(kernel.progs.cur_prog()).state,
{
}

/// `Exit` frees the slot of the caller and puts a fresh instance of its program into the
/// first empty slot, which is the same slot where the table was full. The fresh instance
/// has the description of the old one and none of its saved registers. It starts, unless it
/// was the next to run and is running now. The caller no longer holds the console open.
pub proof fn law_exit_restarts(kernel: Model)
    requires
        kernel.progs.wf(),
        kernel.progs.has_cur(),
    ensures
        ({
            let user_prog = kernel.progs.cur_prog();
            let slot = kernel.progs.end(user_prog).free_from(0);
            let after = kernel.exit().0;
            &&& 0 <= slot < kernel.progs.slots.len()
            &&& !kernel.progs.has_free() ==> slot == user_prog.idx
            &&& after.progs.slots[slot] matches Some(data)
            &&& data.info == kernel.progs.data(user_prog).info
            &&& data.mepc == 0
            &&& data.sp == 0
            &&& data.state == State::Starting || (data.state == State::Rdy && after.progs.cur
                == slot)
            &&& !after.uart.is_open(user_prog)
        }),
{
    reveal_with_fuel(Table::free_from, 3);
    reveal_with_fuel(Table::next_from, 3);
}

impl Model {
    /// The kernel with the program counter of the running user program past the `ecall`.
    pub open spec fn advance(self) -> Model {
        Model { progs: self.progs.advance(self.progs.cur_prog()), ..self }
    }

    /// `GetChar`, after the program counter moved on.
    pub open spec fn get_char(self) -> (Model, Service) {
        let user_prog = self.progs.cur_prog();
        if !self.uart.is_open(user_prog) {
            (self, Service::Return(Some(0)))
        } else if let Some(char) = self.uart.first() {
            (Model { uart: self.uart.taken(), ..self }, Service::Return(Some(char as usize)))
        } else {
            let blocked = self.progs.with_state(user_prog, State::Blocked(Reason::Uart));
            (Model { progs: blocked.sys_yield().0, ..self }, blocked.sys_yield().1)
        }
    }

    /// `Exit`: the caller lets go of the console and leaves the table, a fresh instance of
    /// its program takes the first empty slot, and another user program goes on.
    pub open spec fn exit(self) -> (Model, Service) {
        let user_prog = self.progs.cur_prog();
        let again = self.progs.end(user_prog).init(self.progs.data(user_prog).info);
        (
            Model { progs: again.sys_yield().0, uart: self.uart.close(user_prog) },
            again.sys_yield().1,
        )
    }

    /// The kernel after a system call, and what the call leaves to the trap handler.
    pub open spec fn sys_call(self, number: usize, param_0: usize, param_1: usize) -> (
        Model,
        Service,
    ) {
        let user_prog = self.progs.cur_prog();
        match SysCall::of(number as isize) {
            None => (self, Service::Fault(Fault::IllegalSyscall { number })),
            Some(call) => if !self.progs.has_cur() {
                (self, Service::Fault(Fault::NoCurrentProg))
            } else {
                match call {
                    SysCall::PrintString => (
                        self.advance(),
                        Service::Print(UserString { ptr: param_0, len: param_1 }),
                    ),
                    SysCall::PrintChar => (
                        Model { uart: self.uart.send(seq![param_0 as u8]), ..self.advance() },
                        Service::Return(None),
                    ),
                    SysCall::PrintNum => (
                        Model {
                            uart: self.uart.send(decimal(param_0 as nat)),
                            ..self.advance()
                        },
                        Service::Return(None),
                    ),
                    SysCall::GetChar => self.advance().get_char(),
                    SysCall::UartOpen => (
                        Model { uart: self.uart.open(user_prog), ..self.advance() },
                        Service::Return(Some(if self.uart.opens(user_prog) { 1usize } else { 0 })),
                    ),
                    SysCall::UartClose => (
                        Model { uart: self.uart.close(user_prog), ..self.advance() },
                        Service::Return(
                            Some(if self.uart.is_open(user_prog) { 1usize } else { 0 }),
                        ),
                    ),
                    SysCall::Yield => (
                        Model { progs: self.advance().progs.sys_yield().0, ..self },
                        self.advance().progs.sys_yield().1,
                    ),
                    SysCall::Exit => self.exit(),
                }
            },
        }
    }

    /// Whether the program counter of the running user program can move past an `ecall`.
    pub open spec fn can_advance(self) -> bool {
        self.progs.has_cur() ==> self.progs.data(self.progs.cur_prog()).mepc
            + scheduler::INSTRUCTION_SIZE <= usize::MAX
    }
}

/// The system call of the number.
pub fn sys_call_from(number: usize) -> (call: Option<SysCall>)
    ensures
        call == SysCall::of(number as isize),
{
    match SysCall::try_from(number as isize) {
        Ok(call) => Some(call),
        Err(_) => None,
    }
}

/// Serves the system call of the running user program.
pub fn sys_call(kernel: &mut Kernel, number: usize, param_0: usize, param_1: usize) -> (service:
    Service)
    requires
        old(kernel).wf(),
        old(kernel)@.can_advance(),
    ensures
        final(kernel).wf(),
        (final(kernel)@, service) == old(kernel)@.sys_call(number, param_0, param_1),
{
    let call = match sys_call_from(number) {
        Some(call) => call,
        None => {
            return Service::Fault(Fault::IllegalSyscall { number });
        },
    };
    if !kernel.progs.has_cur() {
        return Service::Fault(Fault::NoCurrentProg);
    }
    match call {
        SysCall::PrintString => {
            scheduler::increment_mepc(&mut kernel.progs);
            Service::Print(UserString { ptr: param_0, len: param_1 })
        },
        SysCall::PrintChar => {
            uart::print_char(&mut kernel.uart, param_0 as u8 as char);
            scheduler::increment_mepc(&mut kernel.progs);
            Service::Return(None)
        },
        SysCall::GetChar => {
            scheduler::increment_mepc(&mut kernel.progs);
            get_char(kernel)
        },
        SysCall::PrintNum => {
            uart::print_num(&mut kernel.uart, param_0);
            scheduler::increment_mepc(&mut kernel.progs);
            Service::Return(None)
        },
        SysCall::Exit => exit(kernel),
        SysCall::Yield => {
            scheduler::increment_mepc(&mut kernel.progs);
            sys_yield(&mut kernel.progs)
        },
        SysCall::UartOpen => {
            let cur = scheduler::cur(&kernel.progs);
            let open = uart::open(&mut kernel.uart, cur);
            scheduler::increment_mepc(&mut kernel.progs);
            Service::Return(Some(if open { 1 } else { 0 }))
        },
        SysCall::UartClose => {
            let cur = scheduler::cur(&kernel.progs);
            let close = uart::close(&mut kernel.uart, cur);
            scheduler::increment_mepc(&mut kernel.progs);
            Service::Return(Some(if close { 1 } else { 0 }))
        },
    }
}

/// Gives the caller the oldest received character; 0 where it does not hold the console
/// open. Where nothing was received, blocks the caller and lets another user program go on.
pub fn get_char(kernel: &mut Kernel) -> (service: Service)
    requires
        old(kernel).wf(),
        old(kernel)@.progs.has_cur(),
    ensures
        final(kernel).wf(),
        (final(kernel)@, service) == old(kernel)@.get_char(),
        !old(kernel)@.uart.is_open(old(kernel)@.progs.cur_prog()) ==> service == Service::Return(
            Some(0),
        ) && final(kernel)@ == old(kernel)@,
{
    let user_prog = scheduler::cur(&kernel.progs);
    if !uart::is_open(&kernel.uart, user_prog) {
        return Service::Return(Some(0));
    }
    if let Some(char) = uart::get_char(&mut kernel.uart) {
        return Service::Return(Some(char as usize));
    }
    user_prog.set_blocked(&mut kernel.progs, Reason::Uart);
    sys_yield(&mut kernel.progs)
}

/// Ends the caller, puts a fresh instance of its program into the table, and lets another
/// user program go on.
pub fn exit(kernel: &mut Kernel) -> (service: Service)
    requires
        old(kernel).wf(),
        old(kernel)@.progs.has_cur(),
    ensures
        final(kernel).wf(),
        (final(kernel)@, service) == old(kernel)@.exit(),
{
    let cur = scheduler::cur(&kernel.progs);
    uart::close(&mut kernel.uart, cur);
    let prog_info = cur.prog_info(&kernel.progs);
    scheduler::end_prog(&mut kernel.progs, cur);
    scheduler::init_prog(&mut kernel.progs, prog_info);
    sys_yield(&mut kernel.progs)
}

/// Lets the next user program after round robin go on.
pub fn sys_yield(list: &mut ProgList) -> (service: Service)
    requires
        old(list).wf(),
    ensures
        final(list).wf(),
        (final(list)@, service) == old(list)@.sys_yield(),
{
    match scheduler::next(list) {
        Some(next) => Service::Switched(scheduler::switch(list, next)),
        None => Service::Fault(Fault::NoNextProg),
    }
}

} // verus!
