//! The serial console: what is sent, what was received, and who may read.

use crate::hardware::binary_struct::{BinaryStruct, Byte, MaxDigits};
use crate::hardware::memory_mapping::MemoryMapping;
use crate::hardware::ring_buffer::{lost, written, RingBuffer};
use crate::scheduler::Prog;
use vstd::prelude::*;

verus! {

/// Address of the first register of the serial console.
pub const BASE_ADDR: usize = 0x1000_0000;

/// The bit of the line status register that says that the next byte can be sent.
pub const LSR_THR_EMPTY: usize = 5;

/// The console as a mathematical value.
pub struct Line {
    /// The user program that holds the console open for reading.
    pub holder: Option<Prog>,
    /// The characters received and not yet read, the oldest first.
    pub received: Seq<char>,
    /// The bytes handed to the console for sending, in order.
    pub sent: Seq<u8>,
}

/// A call on the read lock of the console.
pub enum LockCall {
    Open(Prog),
    Close(Prog),
}

impl Line {
    /// Whether the user program holds the console open.
    pub open spec fn is_open(self, user_prog: Prog) -> bool {
        self.holder == Some(user_prog)
    }

    /// Whether `open` by the user program succeeds: the console is free or already its own.
    pub open spec fn opens(self, user_prog: Prog) -> bool {
        self.holder is None || self.holder == Some(user_prog)
    }

    /// The console after `open` by the user program. A free console becomes its own, with
    /// nothing left to read.
    pub open spec fn open(self, user_prog: Prog) -> Line {
        if self.holder is None {
            Line { holder: Some(user_prog), received: Seq::empty(), ..self }
        } else {
            self
        }
    }

    /// The console after `close` by the user program.
    pub open spec fn close(self, user_prog: Prog) -> Line {
        if self.holder == Some(user_prog) {
            Line { holder: None, ..self }
        } else {
            self
        }
    }

    /// The console after one call on its lock.
    pub open spec fn call(self, call: LockCall) -> Line {
        match call {
            LockCall::Open(user_prog) => self.open(user_prog),
            LockCall::Close(user_prog) => self.close(user_prog),
        }
    }

    /// The console after the calls, one after the other.
    pub open spec fn calls(self, calls: Seq<LockCall>) -> Line
        decreases calls.len(),
    {
        if calls.len() == 0 {
            self
        } else {
            self.call(calls[0]).calls(calls.drop_first())
        }
    }

    /// The console after a character arrived. It is kept only while a user program holds the
    /// console open.
    pub open spec fn receive(self, char: char) -> Line {
        if self.holder is Some {
            Line { received: written(self.received, char), ..self }
        } else {
            self
        }
    }

    /// The received character that the arrival of another one overwrites.
    pub open spec fn overwritten(self) -> Option<char> {
        if self.holder is Some {
            lost(self.received)
        } else {
            None
        }
    }

    /// The console with the oldest received character taken out.
    pub open spec fn taken(self) -> Line {
        if self.received.len() > 0 {
            Line { received: self.received.drop_first(), ..self }
        } else {
            self
        }
    }

    /// The oldest received character.
    pub open spec fn first(self) -> Option<char> {
        if self.received.len() > 0 {
            Some(self.received[0])
        } else {
            None
        }
    }

    /// The console with more bytes to send.
    pub open spec fn send(self, bytes: Seq<u8>) -> Line {
        Line { sent: self.sent + bytes, ..self }
    }
}

/// At most one user program holds the console open, whatever was called before.
pub proof fn law_single_holder(line: Line, calls: Seq<LockCall>, a: Prog, b: Prog)
    requires
        a != b,
    ensures
        !(line.calls(calls).is_open(a) && line.calls(calls).is_open(b)),
{
}

/// `open` by the holder succeeds and changes nothing.
pub proof fn law_open_idempotent(line: Line, user_prog: Prog)
    requires
        line.is_open(user_prog),
    ensures
        line.opens(user_prog),
        line.open(user_prog) == line,
{
}

/// `close` by a user program that does not hold the console fails and changes nothing.
pub proof fn law_close_by_other(line: Line, user_prog: Prog)
    requires
        !line.is_open(user_prog),
    ensures
        line.close(user_prog) == line,
{
}

/// The decimal digits of a number, the last one at the end, on `width` places.
pub open spec fn padded(number: nat, width: nat) -> Seq<u8>
    decreases width,
{
    if width == 0 {
        Seq::empty()
    } else {
        padded(number / 10, (width - 1) as nat).push((number % 10) as u8)
    }
}

/// The number in decimal ASCII: the most significant digit first, no leading zero, and "0"
/// for zero.
pub open spec fn decimal(number: nat) -> Seq<u8>
    decreases number,
{
    if number < 10 {
        seq![(0x30 + number) as u8]
    } else {
        decimal(number / 10).push((0x30 + number % 10) as u8)
    }
}

/// The number that decimal digits in ASCII spell.
pub open spec fn number_of(digits: Seq<u8>) -> nat
    decreases digits.len(),
{
    if digits.len() == 0 {
        0
    } else {
        (number_of(digits.drop_last()) * 10 + (digits.last() - 0x30)) as nat
    }
}

/// The decimal form of a number is made of digits and spells the number. It has no leading
/// zero, and it is "0" for zero.
pub proof fn law_decimal(number: nat)
    ensures
        decimal(number).len() >= 1,
        forall|i: int| 0 <= i < decimal(number).len() ==> 0x30 <= #[trigger] decimal(number)[i] <= 0x39,
        number_of(decimal(number)) == number,
        number == 0 ==> decimal(number) == seq![0x30u8],
        number > 0 ==> decimal(number)[0] != 0x30,
    decreases number,
{
    if number < 10 {
        assert(number_of(decimal(number).drop_last()) == 0);
    } else {
        law_decimal(number / 10);
        let front = decimal(number / 10);
        assert(decimal(number).drop_last() =~= front);
    }
}

/// The cause of an interrupt that the status register names.
pub open spec fn spec_interrupt_cause(isr: Byte) -> Interrupt {
    if isr.bit(0) {
        Interrupt::Error
    } else {
        match (isr.bit(3), isr.bit(2), isr.bit(1)) {
            (false, true, true) => Interrupt::LineStatusReg,
            (false, true, false) => Interrupt::ReceivedDataRdy,
            (true, true, false) => Interrupt::ReceivedDataTimeout,
            (false, false, true) => Interrupt::TransHoldRegEmpty,
            (false, false, false) => Interrupt::ModemStatusReg,
            _ => Interrupt::Error,
        }
    }
}

/// The value of the interrupt enable register: receive interrupts alone.
pub fn init() -> (ier: Byte)
    ensures
        ier.bit(0),
        !ier.bit(1),
        !ier.bit(2),
        !ier.bit(3),
        ier@ == 1,
{
    let mut ier = BinaryStruct::from(0u8);
    ier.at(0, true);  // receive interrupt
    ier.at(1, false);  // transmit interrupt
    ier.at(2, false);  // receiver line status interrupt
    ier.at(3, false);  // receiver transmit status interrupt
    proof {
        assert((((0u8 | (1u8 << 0u8)) & !(1u8 << 1u8)) & !(1u8 << 2u8)) & !(1u8 << 3u8) == 1u8)
            by (bit_vector);
    }
    ier
}

/// Decodes the interrupt status register.
pub fn get_interrupt_cause(isr: Byte) -> (cause: Interrupt)
    ensures
        cause == spec_interrupt_cause(isr),
{
    let b0 = isr.is_set(0);
    let b1 = isr.is_set(1);
    let b2 = isr.is_set(2);
    let b3 = isr.is_set(3);
    if b0 {
        return Interrupt::Error;
    }
    if b1 && b2 && !b3 {
        return Interrupt::LineStatusReg;
    }
    if !b1 && b2 && !b3 {
        return Interrupt::ReceivedDataRdy;
    }
    if !b1 && b2 && b3 {
        return Interrupt::ReceivedDataTimeout;
    }
    if b1 && !b2 && !b3 {
        return Interrupt::TransHoldRegEmpty;
    }
    if !b1 && !b2 && !b3 {
        return Interrupt::ModemStatusReg;
    }
    Interrupt::Error
}

/// What the arrival of a character did.
#[derive(Clone, Copy, PartialEq, Eq, Structural, Debug)]
pub struct Received {
    /// The user program that holds the console open.
    pub prog: Option<Prog>,
    /// The character that was overwritten in the full buffer.
    pub lost: Option<char>,
}

/// Only call if an interrupt happened.
/// Puts the received byte into the buffer and returns the blocking user prog.
pub fn read_char_to_buffer(uart: &mut Uart, char: u8) -> (res: Received)
    requires
        old(uart).wf(),
    ensures
        final(uart).wf(),
        final(uart)@ == old(uart)@.receive(char as char),
        res == (Received { prog: old(uart)@.holder, lost: old(uart)@.overwritten() }),
{
    let char = char as char;
    let open_user_prog = uart.open_user_prog;
    let mut lost = None;
    if open_user_prog.is_some() {
        lost = uart.read_char.write(char);
    }
    Received { prog: open_user_prog, lost }
}

/// Takes the oldest received character.
pub fn get_char(uart: &mut Uart) -> (char: Option<char>)
    requires
        old(uart).wf(),
    ensures
        final(uart).wf(),
        final(uart)@ == old(uart)@.taken(),
        char == old(uart)@.first(),
{
    let char = uart.read_char.read();
    char
}

/// Hands the character to the console for sending, as the byte of its code.
pub fn print_char(uart: &mut Uart, char: char)
    requires
        old(uart).wf(),
    ensures
        final(uart).wf(),
        final(uart)@ == old(uart)@.send(seq![char as u8]),
{
    uart.print_char(char as u8);
}

/// Sends the bytes of a string.
pub fn print_string(uart: &mut Uart, string: &[u8])
    requires
        old(uart).wf(),
    ensures
        final(uart).wf(),
        final(uart)@ == old(uart)@.send(string@),
{
    let size = string.len();
    for i in 0..size
        invariant
            size == string@.len(),
            uart.wf(),
            uart@ == old(uart)@.send(string@.take(i as int)),
    {
        let char = string[i] as char;
        print_char(uart, char);
        assert(uart@.sent =~= old(uart)@.sent + string@.take(i + 1));
    }
    assert(string@.take(size as int) =~= string@);
}

/// Opens 'read' and returns true if successful or already blocked by the user_prog.
/// False if blocked by a different user_prog.
pub fn open(uart: &mut Uart, user_prog: Prog) -> (opened: bool)
    requires
        old(uart).wf(),
    ensures
        final(uart).wf(),
        final(uart)@ == old(uart)@.open(user_prog),
        opened == old(uart)@.opens(user_prog),
        opened == final(uart)@.is_open(user_prog),
        old(uart)@.is_open(user_prog) ==> opened && final(uart)@ == old(uart)@,
{
    if let Some(open) = uart.open_user_prog {
        return open == user_prog;
    }
    uart.open_user_prog = Some(user_prog);
    uart.read_char.clear();
    true
}

/// Closes 'read' if it is blocked by the user_prog. Returns true when successful.
pub fn close(uart: &mut Uart, user_prog: Prog) -> (closed: bool)
    requires
        old(uart).wf(),
    ensures
        final(uart).wf(),
        final(uart)@ == old(uart)@.close(user_prog),
        closed == old(uart)@.is_open(user_prog),
        !final(uart)@.is_open(user_prog),
        !old(uart)@.is_open(user_prog) ==> !closed && final(uart)@ == old(uart)@,
{
    if let Some(open) = uart.open_user_prog {
        if open == user_prog {
            uart.open_user_prog = None;
            return true;
        }
    }
    false
}

/// Whether the user program holds 'read' open.
pub fn is_open(uart: &Uart, user_prog: Prog) -> (open: bool)
    requires
        uart.wf(),
    ensures
        open == uart@.is_open(user_prog),
{
    match uart.open_user_prog {
        Some(open) => open == user_prog,
        None => false,
    }
}

/// `padded` on one place more puts the next digit in front.
proof fn lemma_padded_front(number: nat, width: nat)
    ensures
        padded(number, width + 1) == seq![(shifted(number, width) % 10) as u8] + padded(
            number,
            width,
        ),
    decreases width,
{
    if width == 0 {
        assert(padded(number, 1) == padded(number / 10, 0).push((number % 10) as u8));
    } else {
        lemma_padded_front(number / 10, (width - 1) as nat);
        assert(padded(number, width + 1) =~= seq![(shifted(number, width) % 10) as u8] + padded(
            number,
            width,
        ));
    }
}

/// The number without its last `places` digits.
spec fn shifted(number: nat, places: nat) -> nat
    decreases places,
{
    if places == 0 {
        number
    } else {
        shifted(number / 10, (places - 1) as nat)
    }
}

proof fn lemma_shifted_step(number: nat, places: nat)
    ensures
        shifted(number, places + 1) == shifted(number, places) / 10,
    decreases places,
{
    reveal_with_fuel(shifted, 2);
    if places > 0 {
        lemma_shifted_step(number / 10, (places - 1) as nat);
    }
}

/// Every place holds a digit.
proof fn lemma_padded_digits(number: nat, width: nat)
    ensures
        padded(number, width).len() == width,
        forall|k: int| 0 <= k < width ==> padded(number, width)[k] < 10,
    decreases width,
{
    if width > 0 {
        lemma_padded_digits(number / 10, (width - 1) as nat);
    }
}

/// The digits of the number on twenty places, the most significant first.
pub fn to_single_digits(number: usize) -> (digits: [u8; 20])
    ensures
        digits@ == padded(number as nat, 20),
        forall|k: int| 0 <= k < 20 ==> digits@[k] < 10,
{
    proof {
        lemma_padded_digits(number as nat, 20);
    }
    let mut digits = <usize as MaxDigits<20>>::max_digits();
    let ghost given = number as nat;
    let mut number = number;
    for done in 0..20usize
        invariant
            number == shifted(given, done as nat),
            digits@.subrange(20 - done, 20) == padded(given, done as nat),
    {
        let index: usize = 19 - done;
        digits[index] = (number % 10) as u8;
        proof {
            lemma_padded_front(given, done as nat);
            lemma_shifted_step(given, done as nat);
            assert(digits@.subrange(20 - (done + 1), 20) =~= seq![(number % 10) as u8] + padded(
                given,
                done as nat,
            ));
        }
        number = number / 10;
    }
    digits
}

/// The digits without leading zeros, in ASCII; nothing where all are zero.
spec fn significant(digits: Seq<u8>) -> Seq<u8>
    decreases digits.len(),
{
    if digits.len() == 0 {
        Seq::empty()
    } else if significant(digits.drop_last()).len() == 0 && digits.last() == 0 {
        Seq::empty()
    } else {
        significant(digits.drop_last()).push((0x30 + digits.last()) as u8)
    }
}

proof fn lemma_decimal_nonempty(number: nat)
    ensures
        decimal(number).len() > 0,
    decreases number,
{
    if number >= 10 {
        lemma_decimal_nonempty(number / 10);
    }
}

/// On enough places, the significant digits are the decimal form.
proof fn lemma_significant(number: nat, width: nat)
    requires
        shifted(number, width) == 0,
    ensures
        significant(padded(number, width)) == (if number == 0 {
            Seq::<u8>::empty()
        } else {
            decimal(number)
        }),
    decreases width,
{
    if width > 0 {
        lemma_significant(number / 10, (width - 1) as nat);
        assert(padded(number, width).drop_last() =~= padded(number / 10, (width - 1) as nat));
        if number / 10 != 0 {
            lemma_decimal_nonempty(number / 10);
        }
    }
}

/// No number of the machine has more than twenty digits.
proof fn lemma_twenty_places(number: nat)
    requires
        number <= 0xffff_ffff_ffff_ffff,
    ensures
        shifted(number, 20) == 0,
{
    reveal_with_fuel(shifted, 21);
}

/// Sends the number in decimal.
pub fn print_num(uart: &mut Uart, number: usize)
    requires
        old(uart).wf(),
    ensures
        final(uart).wf(),
        final(uart)@ == old(uart)@.send(decimal(number as nat)),
{
    let digits = to_single_digits(number);
    let mut first = false;
    for i in 0..20usize
        invariant
            uart.wf(),
            digits@ == padded(number as nat, 20),
            forall|k: int| 0 <= k < 20 ==> digits@[k] < 10,
            first == (significant(digits@.take(i as int)).len() > 0),
            uart@ == old(uart)@.send(significant(digits@.take(i as int))),
    {
        let byte = digits[i];
        if byte != 0 {
            first = true;
        }
        proof {
            assert(digits@.take(i + 1).drop_last() =~= digits@.take(i as int));
        }
        if first {
            let ascii: u8 = byte + 0x30;
            uart.print_char(ascii);
            assert(uart@.sent =~= old(uart)@.sent + significant(digits@.take(i + 1)));
        }
    }
    proof {
        assert(digits@.take(20) =~= digits@);
        lemma_twenty_places(number as nat);
        lemma_significant(number as nat, 20);
    }
    if !first {
        let ascii: u8 = 0x30;
        uart.print_char(ascii);
    } else {
        proof {
            lemma_decimal_nonempty(number as nat);
        }
    }
}

/// The serial console.
pub struct Uart {
    reg: UartRegister,
    open_user_prog: Option<Prog>,
    read_char: RingBuffer<char>,
    output: Vec<u8>,
}

impl View for Uart {
    type V = Line;

    closed spec fn view(&self) -> Line {
        Line { holder: self.open_user_prog, received: self.read_char@, sent: self.output@ }
    }
}

impl Uart {
    pub closed spec fn wf(&self) -> bool {
        &&& self.read_char.wf()
        &&& self.reg.at(BASE_ADDR)
    }

    /// The console with nobody reading, nothing received and nothing to send.
    pub fn new() -> (uart: Uart)
        ensures
            uart.wf(),
            uart@ == (Line { holder: None, received: Seq::empty(), sent: Seq::empty() }),
    {
        Uart {
            reg: UartRegister::new(BASE_ADDR),
            open_user_prog: None,
            read_char: RingBuffer::new('X'),
            output: Vec::new(),
        }
    }

    /// The registers of the console.
    pub fn reg(&self) -> (reg: &UartRegister)
        requires
            self.wf(),
        ensures
            reg.at(BASE_ADDR),
    {
        &self.reg
    }

    /// Hands one byte to the console for sending.
    pub fn print_char(&mut self, char: u8)
        requires
            old(self).wf(),
        ensures
            final(self).wf(),
            final(self)@ == old(self)@.send(seq![char]),
    {
        self.output.push(char);
        assert(self@.sent =~= old(self)@.sent + seq![char]);
    }

    /// Takes the bytes that wait for sending, in the order in which they were handed over.
    pub fn take_output(&mut self) -> (bytes: Vec<u8>)
        requires
            old(self).wf(),
        ensures
            final(self).wf(),
            bytes@ == old(self)@.sent,
            final(self)@ == (Line { sent: Seq::empty(), ..old(self)@ }),
    {
        let mut bytes = Vec::new();
        core::mem::swap(&mut self.output, &mut bytes);
        bytes
    }
}

/// The registers of the serial console, one byte each, in the order of their addresses.
pub struct UartRegister {
    /// Receive Buffer Register, Transmit Holding Register | LSB of Divisor Latch when enabled.
    pub rbr_thr_dll: MemoryMapping<u8>,
    /// N/A, Interrupt Enable Register | MSB of Divisor Latch when enabled.
    pub ier_dlm: MemoryMapping<Byte>,
    /// Interrupt Status Register, FIFO control Register
    pub isr_fcr: MemoryMapping<Byte>,
    /// N/A, Line Control Register
    pub lcr: MemoryMapping<Byte>,
    /// N/A, Modem Control Register
    pub mcr: MemoryMapping<Byte>,
    /// Line Status Register, N/A
    pub lsr: MemoryMapping<Byte>,
    /// Modem Status Register, N/A
    pub msr: MemoryMapping<Byte>,
    /// Scratchpad Register Read, Scratchpad Register Write
    pub scr: MemoryMapping<Byte>,
}

impl UartRegister {
    /// The registers lie one after the other from `addr` on.
    pub open spec fn at(&self, addr: usize) -> bool {
        &&& self.rbr_thr_dll@ == addr
        &&& self.ier_dlm@ == addr + 1
        &&& self.isr_fcr@ == addr + 2
        &&& self.lcr@ == addr + 3
        &&& self.mcr@ == addr + 4
        &&& self.lsr@ == addr + 5
        &&& self.msr@ == addr + 6
        &&& self.scr@ == addr + 7
    }

    /// The registers of the console whose first register lies at `addr`.
    pub fn new(addr: usize) -> (reg: UartRegister)
        requires
            addr + 7 <= usize::MAX,
        ensures
            reg.at(addr),
    {
        UartRegister {
            rbr_thr_dll: MemoryMapping::new(addr),
            ier_dlm: MemoryMapping::new(addr + 1),
            isr_fcr: MemoryMapping::new(addr + 2),
            lcr: MemoryMapping::new(addr + 3),
            mcr: MemoryMapping::new(addr + 4),
            lsr: MemoryMapping::new(addr + 5),
            msr: MemoryMapping::new(addr + 6),
            scr: MemoryMapping::new(addr + 7),
        }
    }
}

/// Cause of an interrupt of the serial console.
#[derive(Clone, Copy, Debug, PartialEq, Eq, Structural)]
pub enum Interrupt {
    LineStatusReg,
    ReceivedDataRdy,
    ReceivedDataTimeout,
    TransHoldRegEmpty,
    ModemStatusReg,
    Error,
}

} // verus!
