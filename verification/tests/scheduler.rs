use kernel::scheduler::{
    boot_prog, cur, end_prog, increment_mepc, init_prog, next, restore_cur_prog, save_cur_prog,
    switch, Boot, Prog, ProgData, ProgList, ProgReg, Reason, State, Switch,
};
use kernel::user_prog::{user1, user2, Id, Info};

/// Both programs in the table, the first one running.
fn booted() -> (ProgList, Prog, Prog) {
    let mut list = ProgList::new();
    let a = init_prog(&mut list, user1());
    let b = init_prog(&mut list, user2());
    boot_prog(&mut list, a);
    (list, a, b)
}

#[test]
fn the_user_programs() {
    assert_eq!(user1(), Info { id: Id::User1, boot_mepc: 0x8010_0000, pmp_idx: 2 });
    assert_eq!(user2(), Info { id: Id::User2, boot_mepc: 0x8020_0000, pmp_idx: 3 });
}

#[test]
fn an_empty_table() {
    let list = ProgList::new();
    assert!(!list.has_cur());
    assert!(list.has_free());
    assert_eq!(list.get_free_idx(), 0);
    assert_eq!(next(&list), None);
    assert!(!list.holds(Prog { idx: 0, id: Id::User1 }));
    assert!(!list.holds(Prog { idx: 7, id: Id::User1 }));
}

#[test]
fn init_takes_the_first_free_slot() {
    let mut list = ProgList::new();
    let a = init_prog(&mut list, user1());
    assert_eq!(a, Prog { idx: 0, id: Id::User1 });
    assert_eq!(list.get_free_idx(), 1);
    let b = init_prog(&mut list, user2());
    assert_eq!(b, Prog { idx: 1, id: Id::User2 });
    assert!(!list.has_free());
    assert_eq!(a.state(&list), State::Starting);
    assert_eq!(a.mepc(&list), 0);
    assert_eq!(a.sp(&list), 0);
    assert_eq!(*list.get(b), ProgData { info: user2(), mepc: 0, sp: 0, state: State::Starting });
    assert_eq!(ProgData::new(user2()), *list.get(b));
}

#[test]
fn a_handle_names_slot_and_identity() {
    let (list, a, b) = booted();
    assert!(list.holds(a));
    assert!(list.holds(b));
    assert!(!list.holds(Prog { idx: 0, id: Id::User2 }));
    assert!(!list.holds(Prog { idx: 1, id: Id::User1 }));
    assert!(!list.holds(Prog { idx: 2, id: Id::User1 }));
    assert_eq!(a.id(&list), Id::User1);
    assert_eq!(b.prog_info(&list), user2());
}

#[test]
fn first_program_boots_at_its_entry() {
    let mut list = ProgList::new();
    let a = init_prog(&mut list, user1());
    let b = init_prog(&mut list, user2());
    let boot = boot_prog(&mut list, a);
    assert_eq!(boot, Boot { id: Id::User1, mepc: 0x8010_0000, pmpcfg0: 0x0f << 16 });
    assert_eq!(cur(&list), a);
    assert_eq!(a.state(&list), State::Rdy);
    assert_eq!(b.state(&list), State::Starting);
    assert_eq!(next(&list), Some(b));
}

#[test]
fn switch_to_a_starting_program_boots_it() {
    let (mut list, a, b) = booted();
    assert_eq!(
        switch(&mut list, b),
        Switch::Booted(Boot { id: Id::User2, mepc: 0x8020_0000, pmpcfg0: 0x0f << 24 })
    );
    assert_eq!(cur(&list), b);
    assert_eq!(b.state(&list), State::Rdy);
    assert_eq!(a.state(&list), State::Rdy);
    assert_eq!(list.switch(a), Switch::Resumed { pmpcfg0: 0x0f << 16 });
    assert_eq!(cur(&list), a);
}

#[test]
fn switch_to_a_ready_program_keeps_the_saved_registers() {
    let (mut list, a, b) = booted();
    save_cur_prog(&mut list, 0x8010_0040, 0x8017_0000);
    switch(&mut list, b);
    save_cur_prog(&mut list, 0x8020_0080, 0x8027_0000);
    let before_a = *list.get(a);
    let before_b = *list.get(b);
    assert_eq!(switch(&mut list, a), Switch::Resumed { pmpcfg0: 0x0f << 16 });
    assert_eq!(cur(&list), a);
    assert_eq!(*list.get(a), before_a);
    assert_eq!(*list.get(b), before_b);
    assert_eq!(b.mepc(&list), 0x8020_0080);
    assert_eq!(b.sp(&list), 0x8027_0000);
    assert_eq!(a.mepc(&list), 0x8010_0040);
    assert_eq!(a.sp(&list), 0x8017_0000);
}

#[test]
fn next_is_the_other_program_that_may_run() {
    let (mut list, a, b) = booted();
    assert_eq!(next(&list), Some(b));
    switch(&mut list, b);
    assert_eq!(next(&list), Some(a));
    a.set_blocked(&mut list, Reason::Uart);
    assert_eq!(next(&list), None);
    a.set_rdy(&mut list);
    assert_eq!(next(&list), Some(a));
    end_prog(&mut list, a);
    assert_eq!(next(&list), None);
}

#[test]
fn next_is_never_the_running_program() {
    let mut list = ProgList::new();
    let a = init_prog(&mut list, user1());
    boot_prog(&mut list, a);
    assert_eq!(a.state(&list), State::Rdy);
    assert_eq!(next(&list), None);
    let b = init_prog(&mut list, user2());
    b.set_blocked(&mut list, Reason::Uart);
    assert_eq!(next(&list), None);
}

#[test]
fn save_then_restore_gives_the_registers_back() {
    let (mut list, a, b) = booted();
    save_cur_prog(&mut list, 0x8010_0abc, 0x8018_fff0);
    assert_eq!(
        restore_cur_prog(&list),
        ProgReg { sp: 0x8018_fff0, mepc: 0x8010_0abc }
    );
    assert_eq!(a.mepc(&list), 0x8010_0abc);
    assert_eq!(a.sp(&list), 0x8018_fff0);
    assert_eq!(b.mepc(&list), 0);
    assert_eq!(b.sp(&list), 0);
    save_cur_prog(&mut list, 0x8010_0000, 0);
    assert_eq!(restore_cur_prog(&list), ProgReg { sp: 0, mepc: 0x8010_0000 });
    save_cur_prog(&mut list, usize::MAX, usize::MAX);
    assert_eq!(restore_cur_prog(&list), ProgReg { sp: usize::MAX, mepc: usize::MAX });
}

#[test]
fn blocking_and_waking() {
    let (mut list, a, b) = booted();
    assert!(!a.is_blocked(&list, Reason::Uart));
    a.set_blocked(&mut list, Reason::Uart);
    assert!(a.is_blocked(&list, Reason::Uart));
    assert_eq!(a.state(&list), State::Blocked(Reason::Uart));
    assert!(!b.is_blocked(&list, Reason::Uart));
    a.set_rdy(&mut list);
    assert!(!a.is_blocked(&list, Reason::Uart));
    assert_eq!(a.state(&list), State::Rdy);
}

#[test]
fn increment_mepc_moves_past_one_instruction() {
    let (mut list, a, b) = booted();
    save_cur_prog(&mut list, 0x8010_0010, 5);
    a.increment_mepc(&mut list);
    assert_eq!(a.mepc(&list), 0x8010_0014);
    assert_eq!(a.sp(&list), 5);
    increment_mepc(&mut list);
    assert_eq!(a.mepc(&list), 0x8010_0018);
    b.increment_mepc(&mut list);
    assert_eq!(b.mepc(&list), 4);
    assert_eq!(a.mepc(&list), 0x8010_0018);
    save_cur_prog(&mut list, usize::MAX - 4, 5);
    increment_mepc(&mut list);
    assert_eq!(a.mepc(&list), usize::MAX);
}

#[test]
fn end_frees_the_slot() {
    let (mut list, a, b) = booted();
    end_prog(&mut list, a);
    assert!(!list.holds(a));
    assert!(list.holds(b));
    assert!(!list.has_cur());
    assert!(list.has_free());
    assert_eq!(list.get_free_idx(), 0);
    let again = init_prog(&mut list, user1());
    assert_eq!(again, a);
    assert_eq!(again.state(&list), State::Starting);
    assert!(list.has_cur());
}

#[test]
fn a_program_can_take_another_slot() {
    let mut list = ProgList::new();
    let a = init_prog(&mut list, user1());
    let b = init_prog(&mut list, user2());
    end_prog(&mut list, a);
    let c = init_prog(&mut list, user2());
    assert_eq!(c, Prog { idx: 0, id: Id::User2 });
    assert!(list.holds(b));
    assert!(list.holds(c));
    assert!(!list.holds(a));
}

#[test]
fn get_mut_and_cur_prog_data_reach_the_table() {
    let (mut list, a, b) = booted();
    list.get_mut(b).sp = 99;
    assert_eq!(b.sp(&list), 99);
    list.cur_prog_data().mepc = 0x8010_0100;
    assert_eq!(a.mepc(&list), 0x8010_0100);
    assert_eq!(b.mepc(&list), 0);
}
