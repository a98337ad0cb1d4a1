//! The registers of a user program as the trap entry saved them on its stack.

use vstd::prelude::*;

verus! {

/// Number of registers in a frame.
pub const FRAME_SIZE: usize = 32;

/// Place of the register `a0` in a frame: the first argument and the return value.
pub const A0: usize = 9;

/// Place of the register `a1` in a frame: the second argument.
pub const A1: usize = 10;

/// Place of the register `a7` in a frame: the number of the system call.
pub const A7: usize = 16;

/// The saved registers of a user program.
pub struct Stack(pub [usize; 32]);

impl View for Stack {
    type V = Seq<usize>;

    open spec fn view(&self) -> Seq<usize> {
        self.0@
    }
}

impl Stack {
    /// The frame that holds the given registers.
    pub fn new(regs: [usize; 32]) -> (stack: Stack)
        ensures
            stack@ == regs@,
    {
        Stack(regs)
    }

    /// The registers of the frame.
    pub fn into_inner(self) -> (regs: [usize; 32])
        ensures
            regs@ == self@,
    {
        self.0
    }

    /// The first argument of a system call.
    pub fn a0(&self) -> (val: usize)
        ensures
            val == self@[A0 as int],
    {
        self.0[9]
    }

    /// The second argument of a system call.
    pub fn a1(&self) -> (val: usize)
        ensures
            val == self@[A1 as int],
    {
        self.0[10]
    }

    /// The number of a system call.
    pub fn a7(&self) -> (val: usize)
        ensures
            val == self@[A7 as int],
    {
        self.0[16]
    }

    /// Sets the return value.
    pub fn set_ret(&mut self, ret: usize)
        ensures
            final(self)@ == old(self)@.update(A0 as int, ret),
    {
        self.0[9] = ret;
    }
}

} // verus!
