//! The user programs known to the kernel.

use vstd::prelude::*;

verus! {

/// Number of entries of the physical memory protection configuration register.
pub const PMP_ENTRIES: usize = 8;

/// Identity of a user program.
#[derive(Clone, Copy, Debug, PartialEq, Eq, Structural)]
pub enum Id {
    User1,
    User2,
}

/// Static description of a user program.
#[derive(Clone, Copy, Debug, PartialEq, Eq, Structural)]
pub struct Info {
    /// Identity of the program.
    pub id: Id,
    /// Address of the first instruction of the program.
    pub boot_mepc: usize,
    /// Index of the memory protection entry that covers the program.
    pub pmp_idx: usize,
}

impl Info {
    /// The protection entry exists.
    pub open spec fn wf(self) -> bool {
        self.pmp_idx < PMP_ENTRIES
    }
}

/// The first user program.
pub fn user1() -> (info: Info)
    ensures
        info == (Info { id: Id::User1, boot_mepc: 0x8010_0000, pmp_idx: 2 }),
        info.wf(),
{
    Info { id: Id::User1, boot_mepc: 0x8010_0000, pmp_idx: 2 }
}

/// The second user program.
pub fn user2() -> (info: Info)
    ensures
        info == (Info { id: Id::User2, boot_mepc: 0x8020_0000, pmp_idx: 3 }),
        info.wf(),
{
    Info { id: Id::User2, boot_mepc: 0x8020_0000, pmp_idx: 3 }
}

} // verus!
