use rduino::interrupts::{
    begin_interrupt, end_interrupt, inside_isr, Binding, InterruptMode, InterruptServiceRoutine,
    InterruptTable, __enter_isr, __exit_isr,
};
use rduino::io::Error;
use rduino::platform::samd::InterruptModeExt;
use rduino::raw::RawInterruptMode;
use rduino::panic::Outcome;
use rduino::sys::{Avr, CortexM, InterruptControl};

fn ret<T>(o: Outcome<T>) -> T {
    match o {
        Outcome::Returned(v) => v,
        Outcome::Aborted => panic!("aborted"),
    }
}

#[test]
fn attach_binds_line_and_returns_guard() {
    let mut cpu = Avr::new(0x80);
    let mut table = InterruptTable::new(4);
    let guard = ret(InterruptServiceRoutine::__new(7).attach(&mut cpu, &mut table, 3u8, InterruptMode::Rising))
        .unwrap();
    assert_eq!(guard.interrupt(), 3);
    assert_eq!(table.binding(3), Some(Binding { routine: 7, mode: InterruptMode::Rising }));
    assert_eq!(table.binding(2), None);
}

#[test]
fn second_attach_replaces_first_routine() {
    let mut cpu = Avr::new(0x80);
    let mut table = InterruptTable::new(4);
    let first = ret(InterruptServiceRoutine::__new(1).attach(&mut cpu, &mut table, 3u8, InterruptMode::Rising));
    assert!(first.is_ok());
    let second = ret(InterruptServiceRoutine::__new(2).attach(&mut cpu, &mut table, 3u8, InterruptMode::Falling));
    assert!(second.is_ok());
    assert_eq!(table.binding(3), Some(Binding { routine: 2, mode: InterruptMode::Falling }));
    assert_eq!(begin_interrupt(&mut cpu, &table, 3), Some(2));
    end_interrupt(&mut cpu);
    assert_eq!(cpu, Avr::new(0x80));
}

#[test]
fn attach_out_of_range_is_invalid_pin() {
    let mut cpu = CortexM::new(0);
    let mut table = InterruptTable::new(2);
    let r = ret(InterruptServiceRoutine::__new(1).attach(&mut cpu, &mut table, 2u8, InterruptMode::Low));
    assert_eq!(r.err(), Some(Error::InvalidInterruptPin));
    assert_eq!(table.binding(0), None);
    assert_eq!(table.binding(1), None);
    assert_eq!(table.num_lines(), 2);
}

#[test]
fn detach_unbinds_line() {
    let mut cpu = Avr::new(0x80);
    let mut table = InterruptTable::new(4);
    let guard = ret(InterruptServiceRoutine::__new(5).attach(&mut cpu, &mut table, 1u8, InterruptMode::Change))
        .unwrap();
    guard.detach(&mut table);
    assert_eq!(table.binding(1), None);
    assert_eq!(begin_interrupt(&mut cpu, &table, 1), None);
    assert_eq!(cpu, Avr::new(0x80));
}

#[test]
fn detach_of_replaced_binding_leaves_line_disabled() {
    let mut cpu = Avr::new(0x80);
    let mut table = InterruptTable::new(4);
    let a = ret(InterruptServiceRoutine::__new(1).attach(&mut cpu, &mut table, 0u8, InterruptMode::Low)).unwrap();
    let b = ret(InterruptServiceRoutine::__new(2).attach(&mut cpu, &mut table, 0u8, InterruptMode::Low)).unwrap();
    a.detach(&mut table);
    assert_eq!(table.binding(0), None);
    b.detach(&mut table);
    assert_eq!(table.binding(0), None);
}

#[test]
fn masked_interrupt_runs_no_routine() {
    let mut cpu = Avr::new(0x00);
    let mut table = InterruptTable::new(4);
    ret(InterruptServiceRoutine::__new(9).attach(&mut cpu, &mut table, 2u8, InterruptMode::Low)).unwrap();
    assert_eq!(begin_interrupt(&mut cpu, &table, 2), None);
    assert!(!inside_isr(&cpu));
}

#[test]
fn avr_isr_flag_goes_false_true_false() {
    let mut cpu = Avr::new(0x80);
    let mut table = InterruptTable::new(4);
    ret(InterruptServiceRoutine::__new(4).attach(&mut cpu, &mut table, 0u8, InterruptMode::Rising)).unwrap();
    assert!(!inside_isr(&cpu));
    assert_eq!(begin_interrupt(&mut cpu, &table, 0), Some(4));
    assert!(inside_isr(&cpu));
    assert!(!cpu.interrupts_enabled());
    end_interrupt(&mut cpu);
    assert!(!inside_isr(&cpu));
    assert_eq!(cpu, Avr::new(0x80));
}

#[test]
fn cortex_m_handler_is_read_from_ipsr() {
    let mut cpu = CortexM::new(0);
    let mut table = InterruptTable::new(8);
    ret(InterruptServiceRoutine::__new(4).attach(&mut cpu, &mut table, 5u8, InterruptMode::Rising)).unwrap();
    assert!(!inside_isr(&cpu));
    assert_eq!(begin_interrupt(&mut cpu, &table, 5), Some(4));
    assert_eq!(cpu.ipsr, 21);
    assert!(inside_isr(&cpu));
    end_interrupt(&mut cpu);
    assert_eq!(cpu.ipsr, 0);
    assert!(!inside_isr(&cpu));
}

#[test]
fn wrapper_hooks_set_and_clear_avr_flag() {
    let mut cpu = Avr::new(0x80);
    __enter_isr(&mut cpu);
    assert!(cpu.in_isr);
    __exit_isr(&mut cpu);
    assert!(!cpu.in_isr);
}

#[test]
fn interrupt_mode_encodings() {
    assert_eq!(InterruptMode::Low.to_ffi(), RawInterruptMode::Low);
    assert_eq!(InterruptMode::Change.to_ffi(), RawInterruptMode::Change);
    assert_eq!(InterruptMode::Rising.to_ffi(), RawInterruptMode::Rising);
    assert_eq!(InterruptMode::Falling.to_ffi(), RawInterruptMode::Falling);
    let high: InterruptMode = InterruptModeExt::High.into();
    assert_eq!(high.to_ffi(), RawInterruptMode::High);
}
