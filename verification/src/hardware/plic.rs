//!  plic -- Platform-Level Interrupt Controller

use crate::enum_matching::Error;
use crate::hardware::binary_struct::BinaryStruct;
use vstd::prelude::*;
use vstd::std_specs::convert::TryFromSpecImpl;

verus! {

/// Base address for the interrupt priorities.
/// Consists of 32-bit registers. Priorities are unsigned u32.
/// 0 means "never interrupt".
pub const PRIORITY_BASE_ADDR: usize = 0x0c00_0000;

/// Base address for enabling interrupt sources.
/// 1-bit for enabling the interrupt source with ID = bit position.
pub const ENABLE_ADDR: usize = 0x0c00_2000;

/// Base address for setting an interrupt priority threshold.
/// PLIC ignorers all interrupts with priority less than or equal to the given threshold.
pub const THRESHOLD_ADDR: usize = 0x0c20_0000;

/// Base address for the interrupt claim and completion registers.
/// Returns 0 if no interrupt is pending.
pub const CLAIM_COMP_ADDR: usize = 0x0c20_0004;

/// Priority of the interrupts of the serial console.
pub const UART_PRIORITY: u32 = 5;

/// Interrupt request.
#[derive(Clone, Copy, Debug, PartialEq, Eq, Structural)]
pub enum Irq {
    Uart,
}

impl Irq {
    /// The number of the interrupt source.
    pub open spec fn spec_number(self) -> isize {
        match self {
            Irq::Uart => 10,
        }
    }

    /// The interrupt source of the number, where there is one.
    pub open spec fn of(num: isize) -> Option<Irq> {
        if num == 10 {
            Some(Irq::Uart)
        } else {
            None
        }
    }

    /// The number of the interrupt source.
    #[verifier::when_used_as_spec(spec_number)]
    pub fn number(self) -> (num: isize)
        ensures
            num == self.spec_number(),
    {
        match self {
            Irq::Uart => 10,
        }
    }
}

impl TryFrom<isize> for Irq {
    type Error = Error;

    fn try_from(num: isize) -> (res: Result<Irq, Error>) {
        match num {
            10 => Ok(Irq::Uart),
            _ => Err(Error { num }),
        }
    }
}

impl TryFromSpecImpl<isize> for Irq {
    open spec fn obeys_try_from_spec() -> bool {
        true
    }

    open spec fn try_from_spec(num: isize) -> Result<Irq, Error> {
        match Irq::of(num) {
            Some(irq) => Ok(irq),
            None => Err(Error { num }),
        }
    }
}

/// A value to store at an address.
pub type Write = (usize, u32);

/// The writes that set the controller up, in order: the priority of the serial console, its
/// enable bit, and the threshold of the context.
pub fn init() -> (writes: [Write; 3])
    ensures
        writes@ == seq![
            (0x0c00_0028usize, 5u32),
            (0x0c00_2000usize, 0x400u32),
            (0x0c20_0000usize, 0u32),
        ],
{
    let uart_priority_addr = get_priority_addr(Irq::Uart);
    // Enable in context.
    let mut enable_c0 = BinaryStruct::from(0u32);
    let (uart_idx, uart_bit) = group_idx_and_bit_pos(Irq::Uart);
    enable_c0.at(uart_bit, true);
    let enable_addr = get_enable_addr(uart_idx);
    proof {
        assert(0u32 | (1u32 << 10u32) == 0x400u32) by (bit_vector);
    }
    let writes = [
        (uart_priority_addr, UART_PRIORITY),
        (enable_addr, enable_c0.into_inner()),
        // Set thresholds for context.
        (THRESHOLD_ADDR, 0u32),
    ];
    assert(writes@ =~= seq![
        (0x0c00_0028usize, 5u32),
        (0x0c00_2000usize, 0x400u32),
        (0x0c20_0000usize, 0u32),
    ]);
    writes
}

/// The interrupt request that the claim register names.
pub fn read_claim(claim: u32) -> (irq: Result<Irq, Error>)
    ensures
        irq == match Irq::of(claim as isize) {
            Some(irq) => Ok::<Irq, Error>(irq),
            None => Err(Error { num: claim as isize }),
        },
{
    let claim = claim as usize;
    Irq::try_from(claim as isize)
}

/// The value that completes the interrupt request at the claim register.
pub fn write_complete(irq: Irq) -> (claim: u32)
    ensures
        claim == irq.spec_number(),
        Irq::of(claim as isize) == Some(irq),
{
    irq.number() as u32
}

/// The address of the priority register of the interrupt source.
pub fn get_priority_addr(irq: Irq) -> (addr: usize)
    ensures
        addr == PRIORITY_BASE_ADDR + 4 * irq.spec_number(),
{
    PRIORITY_BASE_ADDR + 4 * (irq.number() as usize)
}

/// Returns the (group index, bit position) of an irq if every bit is used as an id for an irq.
pub fn group_idx_and_bit_pos(irq: Irq) -> (pos: (usize, usize))
    ensures
        pos.0 == irq.spec_number() / 32,
        pos.1 == irq.spec_number() % 32,
{
    let irq = irq.number() as usize;
    (irq / 32, (irq % 32))
}

/// The address of the enable register of the group of interrupt sources.
pub fn get_enable_addr(idx: usize) -> (addr: usize)
    requires
        ENABLE_ADDR + 4 * idx <= usize::MAX,
    ensures
        addr == ENABLE_ADDR + 4 * idx,
{
    ENABLE_ADDR + 4 * idx
}

} // verus!
