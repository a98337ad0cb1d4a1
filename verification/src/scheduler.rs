//! The scheduler. Responsible for managing user programs.

use crate::hardware::pmp::{spec_switch_pmp, switch_pmp};
use crate::user_prog::{Id, Info};
use vstd::prelude::*;

verus! {

/// Number of slots of the process table.
pub const PROG_SLOTS: usize = 2;

/// Lowest address of user code. A trap from below it was taken inside the kernel.
pub const USER_BASE: usize = 0x8010_0000;

/// Width of one instruction, by which the program counter advances past an `ecall`.
pub const INSTRUCTION_SIZE: usize = 4;

/// Why a user program waits.
#[derive(Clone, Copy, PartialEq, Eq, Structural, Debug)]
pub enum Reason {
    Uart,
}

/// State of a user program.
#[derive(Clone, Copy, PartialEq, Eq, Structural, Debug)]
pub enum State {
    Rdy,
    Blocked(Reason),
    Starting,
}

/// What the table keeps of one user program.
#[derive(Clone, Copy, PartialEq, Eq, Structural, Debug)]
pub struct ProgData {
    pub info: Info,
    pub mepc: usize,
    pub sp: usize,
    pub state: State,
}

/// Saved registers of a user program.
#[derive(Clone, Copy, PartialEq, Eq, Structural, Debug)]
pub struct ProgReg {
    pub sp: usize,
    pub mepc: usize,
}

/// Handle of a user program: its slot and its identity.
#[derive(Clone, Copy, PartialEq, Eq, Structural, Debug)]
pub struct Prog {
    pub idx: usize,
    pub id: Id,
}

/// First entry of a user program into user mode.
#[derive(Clone, Copy, PartialEq, Eq, Structural, Debug)]
pub struct Boot {
    /// The program that starts.
    pub id: Id,
    /// Address of its first instruction, for the trap-return register.
    pub mepc: usize,
    /// Memory protection configuration that opens its region.
    pub pmpcfg0: u64,
}

/// What a switch asks of the machine.
#[derive(Clone, Copy, PartialEq, Eq, Structural, Debug)]
pub enum Switch {
    /// The program was ready: load the memory protection configuration and go on.
    Resumed { pmpcfg0: u64 },
    /// The program starts: load its boot address and the configuration, arm the timer and
    /// enter user mode at once.
    Booted(Boot),
}

impl ProgData {
    /// A program that has not run yet.
    pub fn new(prog_info: Info) -> (data: ProgData)
        ensures
            data == ProgData::fresh(prog_info),
    {
        ProgData { info: prog_info, sp: 0, mepc: 0, state: State::Starting }
    }

    /// A program that has not run yet.
    pub open spec fn fresh(info: Info) -> ProgData {
        ProgData { info, sp: 0, mepc: 0, state: State::Starting }
    }
}

/// The process table as a mathematical value.
pub struct Table {
    /// Slot of the running program.
    pub cur: int,
    /// The slots, each empty or holding a program.
    pub slots: Seq<Option<ProgData>>,
}

impl Table {
    /// The table has its slots, the running slot is one of them, and every program in it has
    /// a memory protection entry.
    pub open spec fn wf(self) -> bool {
        &&& self.slots.len() == PROG_SLOTS
        &&& 0 <= self.cur < PROG_SLOTS
        &&& forall|i: int|
            0 <= i < self.slots.len() && self.slots[i] is Some ==> (#[trigger] self.slots[i])->0.info.wf()
    }

    /// The table with no program.
    pub open spec fn empty() -> Table {
        Table { cur: 0, slots: seq![None, None] }
    }

    /// The handle names the program in its slot.
    pub open spec fn holds(self, prog: Prog) -> bool {
        &&& prog.idx < self.slots.len()
        &&& self.slots[prog.idx as int] matches Some(data)
        &&& data.info.id == prog.id
    }

    /// What the table keeps of the program.
    pub open spec fn data(self, prog: Prog) -> ProgData {
        self.slots[prog.idx as int]->0
    }

    /// The table with new data for the program.
    pub open spec fn with(self, prog: Prog, data: ProgData) -> Table {
        Table { slots: self.slots.update(prog.idx as int, Some(data)), ..self }
    }

    /// Whether a program is running: the running slot is not empty.
    pub open spec fn has_cur(self) -> bool {
        self.slots[self.cur] is Some
    }

    /// Handle of the running program.
    pub open spec fn cur_prog(self) -> Prog {
        Prog { idx: self.cur as usize, id: self.slots[self.cur]->0.info.id }
    }

    /// The slot holds a program that may run.
    pub open spec fn runnable(self, i: int) -> bool {
        &&& 0 <= i < self.slots.len()
        &&& self.slots[i] matches Some(data)
        &&& (data.state == State::Rdy || data.state == State::Starting)
    }

    /// The slot `d` steps after the running one, in round-robin order.
    pub open spec fn after(self, d: int) -> int {
        (self.cur + d) % (self.slots.len() as int)
    }

    /// The first program that may run at `d` or more steps after the running one, before the
    /// round is over.
    pub open spec fn next_from(self, d: int) -> Option<Prog>
        decreases self.slots.len() - d,
    {
        if d < 1 || d >= self.slots.len() {
            None
        } else if self.runnable(self.after(d)) {
            Some(Prog { idx: self.after(d) as usize, id: self.slots[self.after(d)]->0.info.id })
        } else {
            self.next_from(d + 1)
        }
    }

    /// The next program after round robin: the first other program that may run.
    pub open spec fn next(self) -> Option<Prog> {
        self.next_from(1)
    }

    /// Whether a slot is empty.
    pub open spec fn has_free(self) -> bool {
        exists|i: int| 0 <= i < self.slots.len() && self.slots[i] is None
    }

    /// The first empty slot at or after `i`.
    pub open spec fn free_from(self, i: int) -> int
        decreases self.slots.len() - i,
    {
        if i < 0 || i >= self.slots.len() {
            self.slots.len() as int
        } else if self.slots[i] is None {
            i
        } else {
            self.free_from(i + 1)
        }
    }

    /// The table with a fresh program in the first empty slot.
    pub open spec fn init(self, info: Info) -> Table {
        Table { slots: self.slots.update(self.free_from(0), Some(ProgData::fresh(info))), ..self }
    }

    /// The table without the program.
    pub open spec fn end(self, prog: Prog) -> Table {
        Table { slots: self.slots.update(prog.idx as int, None), ..self }
    }

    /// The table with the program ready and running.
    pub open spec fn switch(self, prog: Prog) -> Table {
        Table {
            cur: prog.idx as int,
            slots: self.slots.update(
                prog.idx as int,
                Some(ProgData { state: State::Rdy, ..self.data(prog) }),
            ),
        }
    }

    /// What the switch to the program asks of the machine.
    pub open spec fn switched(self, prog: Prog) -> Switch {
        let info = self.data(prog).info;
        if self.data(prog).state == State::Starting {
            Switch::Booted(self.booted(prog))
        } else {
            Switch::Resumed { pmpcfg0: spec_switch_pmp(info.pmp_idx) }
        }
    }

    /// The first entry of the program into user mode.
    pub open spec fn booted(self, prog: Prog) -> Boot {
        let info = self.data(prog).info;
        Boot { id: info.id, mepc: info.boot_mepc, pmpcfg0: spec_switch_pmp(info.pmp_idx) }
    }

    /// The table with the program counter of the program moved past one instruction.
    pub open spec fn advance(self, prog: Prog) -> Table {
        self.with(
            prog,
            ProgData {
                mepc: (self.data(prog).mepc + INSTRUCTION_SIZE) as usize,
                ..self.data(prog)
            },
        )
    }

    /// The table with a new state for the program.
    pub open spec fn with_state(self, prog: Prog, state: State) -> Table {
        self.with(prog, ProgData { state, ..self.data(prog) })
    }

    /// The table with the registers saved for the running program.
    pub open spec fn save(self, mepc: usize, sp: usize) -> Table {
        self.with(self.cur_prog(), ProgData { mepc, sp, ..self.data(self.cur_prog()) })
    }

    /// The registers saved for the running program.
    pub open spec fn restore(self) -> ProgReg {
        ProgReg { sp: self.data(self.cur_prog()).sp, mepc: self.data(self.cur_prog()).mepc }
    }
}

/// Round robin: the next user program is another one than the running one, the first that may
/// run in the order of the slots after it, and there is none exactly when every other slot is
/// empty or holds a blocked program.
pub proof fn law_next_round_robin(table: Table)
    requires
        table.wf(),
    ensures
        table.next() is None <==> forall|i: int|
            0 <= i < table.slots.len() && i != table.cur ==> !table.runnable(i),
        table.next() matches Some(prog) ==> {
            &&& prog.idx != table.cur
            &&& table.holds(prog)
            &&& table.runnable(prog.idx as int)
            &&& exists|d: int|
                1 <= d < table.slots.len() && prog.idx == table.after(d) && forall|e: int|
                    1 <= e < d ==> !table.runnable(table.after(e))
        },
{
    reveal_with_fuel(Table::next_from, 3);
    if table.next() is Some {
        assert(1 <= 1 < table.slots.len() && table.next()->0.idx == table.after(1) && forall|e: int|
            1 <= e < 1 ==> !table.runnable(table.after(e)));
    }
}

/// Saving the registers of the running user program and restoring them at once gives the
/// saved program counter and stack pointer back.
pub proof fn law_save_restore(table: Table, mepc: usize, sp: usize)
    requires
        table.wf(),
        table.has_cur(),
    ensures
        table.save(mepc, sp).restore() == (ProgReg { sp, mepc }),
        table.save(mepc, sp).save(mepc, sp) == table.save(mepc, sp),
{
    assert(table.save(mepc, sp).save(mepc, sp).slots =~= table.save(mepc, sp).slots);
}

/// A switch to a ready user program changes what the table keeps of no user program: every
/// saved program counter and stack pointer stays.
pub proof fn law_switch_keeps_saved(table: Table, prog: Prog)
    requires
        table.wf(),
        table.holds(prog),
        table.data(prog).state == State::Rdy,
    ensures
        table.switch(prog).slots == table.slots,
        table.switch(prog).cur == prog.idx,
{
}

/// The process table: the user programs and the slot of the running one.
pub struct ProgList {
    cur_prog_idx: usize,
    progs: [Option<ProgData>; 2],
}

impl View for ProgList {
    type V = Table;

    closed spec fn view(&self) -> Table {
        Table { cur: self.cur_prog_idx as int, slots: self.progs@ }
    }
}

impl ProgList {
    /// The table is well formed.
    pub open spec fn wf(&self) -> bool {
        self@.wf()
    }

    /// The table with no program.
    pub fn new() -> (list: ProgList)
        ensures
            list.wf(),
            list@ == Table::empty(),
    {
        let list = ProgList { cur_prog_idx: 0, progs: [None, None] };
        list
    }

    /// Whether the handle names the program in its slot.
    pub fn holds(&self, prog: Prog) -> (found: bool)
        requires
            self.wf(),
        ensures
            found == self@.holds(prog),
    {
        if prog.idx >= PROG_SLOTS {
            return false;
        }
        match self.progs[prog.idx] {
            Some(cur) => cur.info.id == prog.id,
            None => false,
        }
    }

    /// Whether a program is running.
    pub fn has_cur(&self) -> (found: bool)
        requires
            self.wf(),
        ensures
            found == self@.has_cur(),
    {
        self.progs[self.cur_prog_idx].is_some()
    }

    /// Whether a slot is empty.
    pub fn has_free(&self) -> (found: bool)
        requires
            self.wf(),
        ensures
            found == self@.has_free(),
    {
        self.progs[0].is_none() || self.progs[1].is_none()
    }

    /// Switches the current program.
    pub fn switch(&mut self, prog: Prog) -> (res: Switch)
        requires
            old(self).wf(),
            old(self)@.holds(prog),
            !(old(self)@.data(prog).state is Blocked),
        ensures
            final(self).wf(),
            final(self)@ == old(self)@.switch(prog),
            res == old(self)@.switched(prog),
            forall|i: int|
                0 <= i < PROG_SLOTS && i != prog.idx ==> final(self)@.slots[i] == old(
                    self,
                )@.slots[i],
            final(self)@.data(prog).mepc == old(self)@.data(prog).mepc,
            final(self)@.data(prog).sp == old(self)@.data(prog).sp,
            old(self)@.data(prog).state == State::Rdy ==> final(self)@.slots == old(self)@.slots,
        decreases (if old(self)@.data(prog).state is Starting { 1int } else { 0int }), 1int,
    {
        let prog_data = *self.get(prog);
        match prog_data.state {
            State::Starting => Switch::Booted(self.boot_prog(prog)),
            _ => {
                let pmpcfg0 = switch_pmp(prog_data.info.pmp_idx);
                self.cur_prog_idx = prog.idx;
                assert(self@.slots =~= old(self)@.switch(prog).slots);
                Switch::Resumed { pmpcfg0 }
            },
        }
    }

    /// Makes the program ready and current, for its entry into user mode.
    pub fn boot_prog(&mut self, prog: Prog) -> (boot: Boot)
        requires
            old(self).wf(),
            old(self)@.holds(prog),
        ensures
            final(self).wf(),
            final(self)@ == old(self)@.switch(prog),
            boot == old(self)@.booted(prog),
        decreases 1int, 0int,
    {
        let prog_data = self.get_mut(prog);
        prog_data.state = State::Rdy;
        let info = prog_data.info;
        let switched = self.switch(prog);
        match switched {
            Switch::Resumed { pmpcfg0 } => Boot { id: info.id, mepc: info.boot_mepc, pmpcfg0 },
            Switch::Booted(boot) => boot,
        }
    }

    /// The first empty slot.
    pub fn get_free_idx(&self) -> (idx: usize)
        requires
            self.wf(),
            self@.has_free(),
        ensures
            idx == self@.free_from(0),
            idx < PROG_SLOTS,
            self@.slots[idx as int] is None,
    {
        reveal_with_fuel(Table::free_from, 3);
        if self.progs[0].is_none() {
            0
        } else {
            1
        }
    }

    /// What the table keeps of the running program.
    pub fn cur_prog_data(&mut self) -> (data: &mut ProgData)
        requires
            old(self).wf(),
            old(self)@.has_cur(),
        ensures
            *data == old(self)@.data(old(self)@.cur_prog()),
            final(self)@ == old(self)@.with(old(self)@.cur_prog(), *final(data)),
    {
        self.progs[self.cur_prog_idx].as_mut().unwrap()
    }

    /// Returns the ProgData to a Prog.
    pub fn get(&self, prog: Prog) -> (data: &ProgData)
        requires
            self.wf(),
            self@.holds(prog),
        ensures
            *data == self@.data(prog),
    {
        self.progs[prog.idx].as_ref().unwrap()
    }

    /// Returns the mut ProgData to a Prog.
    pub fn get_mut(&mut self, prog: Prog) -> (data: &mut ProgData)
        requires
            old(self).wf(),
            old(self)@.holds(prog),
        ensures
            *data == old(self)@.data(prog),
            final(self)@ == old(self)@.with(prog, *final(data)),
    {
        self.progs[prog.idx].as_mut().unwrap()
    }
}

impl Prog {
    /// Makes the program ready.
    pub fn set_rdy(&self, list: &mut ProgList)
        requires
            old(list).wf(),
            old(list)@.holds(*self),
        ensures
            final(list).wf(),
            final(list)@ == old(list)@.with_state(*self, State::Rdy),
    {
        list.get_mut(*self).state = State::Rdy;
    }

    /// Whether the program waits for the reason.
    pub fn is_blocked(&self, list: &ProgList, reason: Reason) -> (blocked: bool)
        requires
            list.wf(),
            list@.holds(*self),
        ensures
            blocked == (list@.data(*self).state == State::Blocked(reason)),
    {
        list.get(*self).state == State::Blocked(reason)
    }

    /// Makes the program wait for the reason.
    pub fn set_blocked(&self, list: &mut ProgList, reason: Reason)
        requires
            old(list).wf(),
            old(list)@.holds(*self),
        ensures
            final(list).wf(),
            final(list)@ == old(list)@.with_state(*self, State::Blocked(reason)),
    {
        list.get_mut(*self).state = State::Blocked(reason);
    }

    /// Moves the saved program counter past one instruction.
    pub fn increment_mepc(&self, list: &mut ProgList)
        requires
            old(list).wf(),
            old(list)@.holds(*self),
            old(list)@.data(*self).mepc + INSTRUCTION_SIZE <= usize::MAX,
        ensures
            final(list).wf(),
            final(list)@ == old(list)@.advance(*self),
    {
        let data = list.get_mut(*self);
        data.mepc = data.mepc + INSTRUCTION_SIZE;
    }

    /// The identity of the program.
    pub fn id(&self, list: &ProgList) -> (id: Id)
        requires
            list.wf(),
            list@.holds(*self),
        ensures
            id == list@.data(*self).info.id,
            id == self.id,
    {
        list.get(*self).info.id
    }

    /// The description of the program.
    pub fn prog_info(&self, list: &ProgList) -> (info: Info)
        requires
            list.wf(),
            list@.holds(*self),
        ensures
            info == list@.data(*self).info,
    {
        list.get(*self).info
    }

    /// The saved stack pointer.
    pub fn sp(&self, list: &ProgList) -> (sp: usize)
        requires
            list.wf(),
            list@.holds(*self),
        ensures
            sp == list@.data(*self).sp,
    {
        list.get(*self).sp
    }

    /// The saved program counter.
    pub fn mepc(&self, list: &ProgList) -> (mepc: usize)
        requires
            list.wf(),
            list@.holds(*self),
        ensures
            mepc == list@.data(*self).mepc,
    {
        list.get(*self).mepc
    }

    /// The state of the program.
    pub fn state(&self, list: &ProgList) -> (state: State)
        requires
            list.wf(),
            list@.holds(*self),
        ensures
            state == list@.data(*self).state,
    {
        list.get(*self).state
    }
}

/// Makes the program ready and current, and says what its entry into user mode needs.
pub fn boot_prog(list: &mut ProgList, prog: Prog) -> (boot: Boot)
    requires
        old(list).wf(),
        old(list)@.holds(prog),
    ensures
        final(list).wf(),
        final(list)@ == old(list)@.switch(prog),
        boot == old(list)@.booted(prog),
{
    list.boot_prog(prog)
}

/// Frees the slot of the program.
pub fn end_prog(list: &mut ProgList, prog: Prog)
    requires
        old(list).wf(),
        old(list)@.holds(prog),
    ensures
        final(list).wf(),
        final(list)@ == old(list)@.end(prog),
        !final(list)@.holds(prog),
        final(list)@.has_free(),
{
    list.progs[prog.idx] = None;
}

/// Puts a fresh program into the first empty slot.
pub fn init_prog(list: &mut ProgList, prog_info: Info) -> (prog: Prog)
    requires
        old(list).wf(),
        old(list)@.has_free(),
        prog_info.wf(),
    ensures
        final(list).wf(),
        final(list)@ == old(list)@.init(prog_info),
        prog == (Prog { idx: old(list)@.free_from(0) as usize, id: prog_info.id }),
        final(list)@.holds(prog),
        final(list)@.data(prog) == ProgData::fresh(prog_info),
{
    let idx = list.get_free_idx();
    list.progs[idx] = Some(ProgData::new(prog_info));
    Prog { idx, id: prog_info.id }
}

/// Returns the current user prog.
pub fn cur(list: &ProgList) -> (prog: Prog)
    requires
        list.wf(),
        list@.has_cur(),
    ensures
        prog == list@.cur_prog(),
        list@.holds(prog),
{
    let cur = list.progs[list.cur_prog_idx].as_ref().unwrap();
    Prog { idx: list.cur_prog_idx, id: cur.info.id }
}

/// Returns the next rdy or starting user prog after round robin.
pub fn next(list: &ProgList) -> (prog: Option<Prog>)
    requires
        list.wf(),
    ensures
        prog == list@.next(),
        prog matches Some(next) ==> list@.holds(next) && list@.runnable(next.idx as int)
            && next.idx != list@.cur,
        prog is None <==> forall|i: int|
            0 <= i < PROG_SLOTS && i != list@.cur ==> !list@.runnable(i),
{
    proof {
        law_next_round_robin(list@);
    }
    let start = list.cur_prog_idx + 1;
    let prog_list_len = list.progs.len();
    for i in 0..prog_list_len - 1
        invariant
            list.wf(),
            start == list.cur_prog_idx + 1,
            prog_list_len == PROG_SLOTS,
            list@.next() == list@.next_from(i + 1),
    {
        let idx = (start + i) % prog_list_len;
        if let Some(next) = &list.progs[idx] {
            if next.state == State::Rdy || next.state == State::Starting {
                return Some(Prog { idx, id: next.info.id });
            }
        }
    }
    None
}

/// Switches the current program.
pub fn switch(list: &mut ProgList, prog: Prog) -> (res: Switch)
    requires
        old(list).wf(),
        old(list)@.holds(prog),
        !(old(list)@.data(prog).state is Blocked),
    ensures
        final(list).wf(),
        final(list)@ == old(list)@.switch(prog),
        res == old(list)@.switched(prog),
        forall|i: int|
            0 <= i < PROG_SLOTS && i != prog.idx ==> final(list)@.slots[i] == old(list)@.slots[i],
        final(list)@.data(prog).mepc == old(list)@.data(prog).mepc,
        final(list)@.data(prog).sp == old(list)@.data(prog).sp,
        old(list)@.data(prog).state == State::Rdy ==> final(list)@.slots == old(list)@.slots,
{
    list.switch(prog)
}

/// Safes the user prog.
pub fn save_cur_prog(list: &mut ProgList, mepc: usize, sp: usize)
    requires
        old(list).wf(),
        old(list)@.has_cur(),
        mepc >= USER_BASE,
    ensures
        final(list).wf(),
        final(list)@ == old(list)@.save(mepc, sp),
{
    let prog = list.cur_prog_data();
    prog.mepc = mepc;
    prog.sp = sp;
}

/// Returns the program counter and the stack pointer for restoring.
pub fn restore_cur_prog(list: &ProgList) -> (regs: ProgReg)
    requires
        list.wf(),
        list@.has_cur(),
        list@.data(list@.cur_prog()).state == State::Rdy,
    ensures
        regs == list@.restore(),
{
    let prog = cur(list);
    let data = list.get(prog);
    ProgReg { sp: data.sp, mepc: data.mepc }
}

/// Moves the program counter of the current user prog past the instruction that trapped.
pub fn increment_mepc(list: &mut ProgList)
    requires
        old(list).wf(),
        old(list)@.has_cur(),
        old(list)@.data(old(list)@.cur_prog()).mepc + INSTRUCTION_SIZE <= usize::MAX,
    ensures
        final(list).wf(),
        final(list)@ == old(list)@.advance(old(list)@.cur_prog()),
{
    let prog = cur(list);
    prog.increment_mepc(list);
}

} // verus!
