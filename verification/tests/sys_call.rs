use kernel::hardware::uart;
use kernel::kernel::{Fault, Kernel, UserString};
use kernel::scheduler::{
    boot_prog, cur, init_prog, save_cur_prog, Boot, Prog, Reason, State, Switch,
};
use kernel::sys_call::{exit, get_char, sys_call, sys_call_from, sys_yield, Service};
use kernel::riscv_utils::SysCall;
use kernel::user_prog::{user1, user2, Id};

const PRINT_STRING: usize = 0;
const PRINT_CHAR: usize = 1;
const PRINT_NUM: usize = 2;
const GET_CHAR: usize = 3;
const UART_OPEN: usize = 4;
const UART_CLOSE: usize = 5;
const YIELD: usize = 23;
const EXIT: usize = 42;

/// Both programs in the table, the first one running and trapped at 0x8010_0100.
fn running() -> (Kernel, Prog, Prog) {
    let mut kernel = Kernel::new();
    let a = init_prog(&mut kernel.progs, user1());
    let b = init_prog(&mut kernel.progs, user2());
    boot_prog(&mut kernel.progs, a);
    save_cur_prog(&mut kernel.progs, 0x8010_0100, 0x8017_0000);
    (kernel, a, b)
}

#[test]
fn numbers_of_the_system_calls() {
    assert_eq!(sys_call_from(0), Some(SysCall::PrintString));
    assert_eq!(sys_call_from(1), Some(SysCall::PrintChar));
    assert_eq!(sys_call_from(2), Some(SysCall::PrintNum));
    assert_eq!(sys_call_from(3), Some(SysCall::GetChar));
    assert_eq!(sys_call_from(4), Some(SysCall::UartOpen));
    assert_eq!(sys_call_from(5), Some(SysCall::UartClose));
    assert_eq!(sys_call_from(23), Some(SysCall::Yield));
    assert_eq!(sys_call_from(42), Some(SysCall::Exit));
    assert_eq!(sys_call_from(6), None);
    assert_eq!(sys_call_from(24), None);
    assert_eq!(sys_call_from(usize::MAX), None);
    assert_eq!(sys_call_from(1 << 63), None);
}

#[test]
fn an_illegal_number_is_a_fault() {
    let (mut kernel, a, _) = running();
    assert_eq!(
        sys_call(&mut kernel, 6, 1, 2),
        Service::Fault(Fault::IllegalSyscall { number: 6 })
    );
    assert_eq!(
        sys_call(&mut kernel, usize::MAX, 0, 0),
        Service::Fault(Fault::IllegalSyscall { number: usize::MAX })
    );
    assert_eq!(a.mepc(&kernel.progs), 0x8010_0100);
    assert_eq!(kernel.uart.take_output(), Vec::<u8>::new());
}

#[test]
fn a_call_without_a_running_program_is_a_fault() {
    let mut kernel = Kernel::new();
    assert_eq!(
        sys_call(&mut kernel, YIELD, 0, 0),
        Service::Fault(Fault::NoCurrentProg)
    );
    assert_eq!(
        sys_call(&mut kernel, 7, 0, 0),
        Service::Fault(Fault::IllegalSyscall { number: 7 })
    );
}

#[test]
fn print_string_hands_the_string_on() {
    let (mut kernel, a, _) = running();
    assert_eq!(
        sys_call(&mut kernel, PRINT_STRING, 0x8010_2000, 13),
        Service::Print(UserString { ptr: 0x8010_2000, len: 13 })
    );
    assert_eq!(a.mepc(&kernel.progs), 0x8010_0104);
    assert_eq!(kernel.uart.take_output(), Vec::<u8>::new());
}

#[test]
fn print_char_sends_the_low_byte() {
    let (mut kernel, a, _) = running();
    assert_eq!(sys_call(&mut kernel, PRINT_CHAR, 'q' as usize, 0), Service::Return(None));
    assert_eq!(sys_call(&mut kernel, PRINT_CHAR, 0x141, 0), Service::Return(None));
    assert_eq!(kernel.uart.take_output(), vec![b'q', 0x41]);
    assert_eq!(a.mepc(&kernel.progs), 0x8010_0108);
}

#[test]
fn print_num_sends_the_decimal_digits() {
    let (mut kernel, a, _) = running();
    assert_eq!(sys_call(&mut kernel, PRINT_NUM, 0, 0), Service::Return(None));
    assert_eq!(kernel.uart.take_output(), vec![b'0']);
    assert_eq!(sys_call(&mut kernel, PRINT_NUM, 42, 0), Service::Return(None));
    assert_eq!(kernel.uart.take_output(), vec![b'4', b'2']);
    assert_eq!(sys_call(&mut kernel, PRINT_NUM, 4_200_000, 9), Service::Return(None));
    assert_eq!(kernel.uart.take_output(), b"4200000".to_vec());
    assert_eq!(a.mepc(&kernel.progs), 0x8010_010c);
}

#[test]
fn uart_open_and_close_return_one_or_zero() {
    let (mut kernel, a, b) = running();
    assert_eq!(sys_call(&mut kernel, UART_CLOSE, 0, 0), Service::Return(Some(0)));
    assert_eq!(sys_call(&mut kernel, UART_OPEN, 0, 0), Service::Return(Some(1)));
    assert!(uart::is_open(&kernel.uart, a));
    assert_eq!(sys_call(&mut kernel, UART_OPEN, 0, 0), Service::Return(Some(1)));
    assert_eq!(a.mepc(&kernel.progs), 0x8010_010c);
    // the other program gets its turn
    assert!(matches!(
        sys_call(&mut kernel, YIELD, 0, 0),
        Service::Switched(Switch::Booted(_))
    ));
    assert_eq!(cur(&kernel.progs), b);
    assert_eq!(sys_call(&mut kernel, UART_OPEN, 0, 0), Service::Return(Some(0)));
    assert_eq!(sys_call(&mut kernel, UART_CLOSE, 0, 0), Service::Return(Some(0)));
    assert!(uart::is_open(&kernel.uart, a));
    assert!(!uart::is_open(&kernel.uart, b));
    assert_eq!(b.mepc(&kernel.progs), 8);
    // back to the holder
    assert_eq!(
        sys_call(&mut kernel, YIELD, 0, 0),
        Service::Switched(Switch::Resumed { pmpcfg0: 0x0f << 16 })
    );
    assert_eq!(sys_call(&mut kernel, UART_CLOSE, 0, 0), Service::Return(Some(1)));
    assert!(!uart::is_open(&kernel.uart, a));
    assert_eq!(sys_call(&mut kernel, UART_CLOSE, 0, 0), Service::Return(Some(0)));
}

#[test]
fn get_char_without_the_console_returns_zero() {
    let (mut kernel, a, _) = running();
    assert_eq!(sys_call(&mut kernel, GET_CHAR, 0, 0), Service::Return(Some(0)));
    assert_eq!(a.state(&kernel.progs), State::Rdy);
    assert_eq!(cur(&kernel.progs), a);
    assert_eq!(a.mepc(&kernel.progs), 0x8010_0104);
}

#[test]
fn get_char_without_the_console_leaves_what_the_holder_received() {
    let (mut kernel, a, b) = running();
    assert!(uart::open(&mut kernel.uart, b));
    uart::read_char_to_buffer(&mut kernel.uart, b'k');
    assert_eq!(sys_call(&mut kernel, GET_CHAR, 0, 0), Service::Return(Some(0)));
    assert_eq!(get_char(&mut kernel), Service::Return(Some(0)));
    assert_eq!(a.state(&kernel.progs), State::Rdy);
    assert_eq!(cur(&kernel.progs), a);
    assert_eq!(uart::get_char(&mut kernel.uart), Some('k'));
}

#[test]
fn get_char_returns_what_was_received() {
    let (mut kernel, a, _) = running();
    assert_eq!(sys_call(&mut kernel, UART_OPEN, 0, 0), Service::Return(Some(1)));
    uart::read_char_to_buffer(&mut kernel.uart, b'h');
    uart::read_char_to_buffer(&mut kernel.uart, b'i');
    assert_eq!(sys_call(&mut kernel, GET_CHAR, 0, 0), Service::Return(Some('h' as usize)));
    assert_eq!(sys_call(&mut kernel, GET_CHAR, 0, 0), Service::Return(Some('i' as usize)));
    assert_eq!(a.state(&kernel.progs), State::Rdy);
    assert_eq!(a.mepc(&kernel.progs), 0x8010_010c);
}

#[test]
fn get_char_with_nothing_received_blocks_the_caller() {
    let (mut kernel, a, b) = running();
    assert_eq!(sys_call(&mut kernel, UART_OPEN, 0, 0), Service::Return(Some(1)));
    assert_eq!(
        sys_call(&mut kernel, GET_CHAR, 0, 0),
        Service::Switched(Switch::Booted(Boot {
            id: Id::User2,
            mepc: 0x8020_0000,
            pmpcfg0: 0x0f << 24
        }))
    );
    assert_eq!(a.state(&kernel.progs), State::Blocked(Reason::Uart));
    assert!(a.is_blocked(&kernel.progs, Reason::Uart));
    assert_eq!(a.mepc(&kernel.progs), 0x8010_0108);
    assert_eq!(cur(&kernel.progs), b);
    assert_eq!(b.state(&kernel.progs), State::Rdy);
}

#[test]
fn get_char_blocks_and_nobody_else_can_run() {
    let (mut kernel, a, b) = running();
    b.set_blocked(&mut kernel.progs, Reason::Uart);
    assert_eq!(sys_call(&mut kernel, UART_OPEN, 0, 0), Service::Return(Some(1)));
    assert_eq!(
        sys_call(&mut kernel, GET_CHAR, 0, 0),
        Service::Fault(Fault::NoNextProg)
    );
    assert_eq!(a.state(&kernel.progs), State::Blocked(Reason::Uart));
}

#[test]
fn yield_lets_the_other_program_go_on() {
    let (mut kernel, a, b) = running();
    assert_eq!(
        sys_call(&mut kernel, YIELD, 0, 0),
        Service::Switched(Switch::Booted(Boot {
            id: Id::User2,
            mepc: 0x8020_0000,
            pmpcfg0: 0x0f00_0000
        }))
    );
    assert_eq!(cur(&kernel.progs), b);
    assert_eq!(a.mepc(&kernel.progs), 0x8010_0104);
    assert_eq!(a.sp(&kernel.progs), 0x8017_0000);
    assert_eq!(a.state(&kernel.progs), State::Rdy);
    assert_eq!(
        sys_yield(&mut kernel.progs),
        Service::Switched(Switch::Resumed { pmpcfg0: 0x000f_0000 })
    );
    assert_eq!(cur(&kernel.progs), a);
}

#[test]
fn yield_with_no_other_program_ready_is_a_fault() {
    let (mut kernel, a, b) = running();
    b.set_blocked(&mut kernel.progs, Reason::Uart);
    assert_eq!(sys_call(&mut kernel, YIELD, 0, 0), Service::Fault(Fault::NoNextProg));
    assert_eq!(cur(&kernel.progs), a);
    assert_eq!(a.mepc(&kernel.progs), 0x8010_0104);
}

#[test]
fn two_programs_that_yield_take_turns() {
    let (mut kernel, a, b) = running();
    for n in 1..=20 {
        let service = sys_call(&mut kernel, YIELD, 0, 0);
        assert!(matches!(service, Service::Switched(_)));
        if n == 1 {
            assert!(matches!(service, Service::Switched(Switch::Booted(_))));
        } else {
            assert!(matches!(service, Service::Switched(Switch::Resumed { .. })));
        }
        let expected = if n % 2 == 0 { a } else { b };
        assert_eq!(cur(&kernel.progs), expected);
    }
}

#[test]
fn exit_puts_a_fresh_instance_into_the_slot() {
    let (mut kernel, a, b) = running();
    assert_eq!(sys_call(&mut kernel, UART_OPEN, 0, 0), Service::Return(Some(1)));
    assert_eq!(a.mepc(&kernel.progs), 0x8010_0104);
    assert_eq!(a.sp(&kernel.progs), 0x8017_0000);
    assert_eq!(
        sys_call(&mut kernel, EXIT, 0, 0),
        Service::Switched(Switch::Booted(Boot {
            id: Id::User2,
            mepc: 0x8020_0000,
            pmpcfg0: 0x0f << 24
        }))
    );
    assert!(kernel.progs.holds(a));
    assert_eq!(a.state(&kernel.progs), State::Starting);
    assert_eq!(a.mepc(&kernel.progs), 0);
    assert_eq!(a.sp(&kernel.progs), 0);
    assert_eq!(a.prog_info(&kernel.progs), user1());
    assert!(!uart::is_open(&kernel.uart, a));
    assert_eq!(cur(&kernel.progs), b);
    // the fresh instance starts at its boot address when its turn comes
    assert_eq!(
        exit(&mut kernel),
        Service::Switched(Switch::Booted(Boot {
            id: Id::User1,
            mepc: 0x8010_0000,
            pmpcfg0: 0x0f << 16
        }))
    );
    assert_eq!(cur(&kernel.progs), a);
    assert_eq!(b.state(&kernel.progs), State::Starting);
    assert_eq!(b.mepc(&kernel.progs), 0);
}

#[test]
fn exit_of_the_only_program_is_a_fault() {
    let mut kernel = Kernel::new();
    let a = init_prog(&mut kernel.progs, user1());
    boot_prog(&mut kernel.progs, a);
    save_cur_prog(&mut kernel.progs, 0x8010_0100, 0x8017_0000);
    assert_eq!(sys_call(&mut kernel, EXIT, 0, 0), Service::Fault(Fault::NoNextProg));
    assert_eq!(a.state(&kernel.progs), State::Starting);
    assert_eq!(a.mepc(&kernel.progs), 0);
}

#[test]
fn exit_leaves_the_console_of_another_holder_alone() {
    let (mut kernel, a, b) = running();
    assert!(uart::open(&mut kernel.uart, b));
    assert!(matches!(sys_call(&mut kernel, EXIT, 0, 0), Service::Switched(_)));
    assert!(uart::is_open(&kernel.uart, b));
    assert!(!uart::is_open(&kernel.uart, a));
}
