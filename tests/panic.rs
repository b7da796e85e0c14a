use std::cell::Cell;

use rduino::interrupts::{InterruptMode, InterruptServiceRoutine, InterruptTable};
use rduino::panic::{begin_panic, check_isr, set_panic_hook, take_hook, Location, Outcome, PanicInfo};
use rduino::sync::Mutex;
use rduino::sys::{Avr, CortexM, InterruptControl};

fn info(message: &str, file: &str, line: u32) -> PanicInfo {
    PanicInfo::new(message.to_string(), Location::new(file.to_string(), line))
}

#[test]
fn panic_info_accessors() {
    let i = info("boom", "src/main.rs", 12);
    assert_eq!(i.payload(), "boom");
    let loc = i.location().unwrap();
    assert_eq!(loc.file(), "src/main.rs");
    assert_eq!(loc.line(), 12);
}

#[test]
fn set_and_take_hook() {
    let mut cpu = Avr::new(0x80);
    let mut slot: Mutex<Option<u32>> = Mutex::new(None);
    set_panic_hook(&mut slot, &mut cpu, 1);
    set_panic_hook(&mut slot, &mut cpu, 2);
    assert_eq!(cpu.sreg, 0x80);
    assert_eq!(take_hook(&mut slot, &mut cpu), Some(2));
    assert_eq!(take_hook(&mut slot, &mut cpu), None);
    assert_eq!(cpu.sreg, 0x80);
}

#[test]
fn fault_in_main_flow_hands_out_hook_once_with_interrupts_off() {
    let calls = Cell::new(0u32);
    let seen = Cell::new((String::new(), String::new(), 0u32));
    let hook = |i: &PanicInfo| {
        calls.set(calls.get() + 1);
        let loc = i.location().unwrap();
        seen.set((i.payload().to_string(), loc.file().to_string(), loc.line()));
    };
    let mut cpu = Avr::new(0x80);
    let mut slot = Mutex::new(None);
    set_panic_hook(&mut slot, &mut cpu, hook);
    let handler = begin_panic(&mut cpu, &mut slot);
    assert!(!cpu.interrupts_enabled());
    let handler = handler.expect("a hook is installed");
    handler(&info("overflow", "src/app.rs", 40));
    assert_eq!(calls.get(), 1);
    assert_eq!(seen.take(), ("overflow".to_string(), "src/app.rs".to_string(), 40));
    assert!(slot.into_inner().is_none());
}

#[test]
fn fault_inside_isr_skips_hook() {
    let calls = Cell::new(0u32);
    let hook = |_: &PanicInfo| calls.set(calls.get() + 1);
    let mut cpu = Avr::new(0x80);
    let mut slot = Mutex::new(None);
    set_panic_hook(&mut slot, &mut cpu, hook);
    cpu.enter_isr();
    assert!(begin_panic(&mut cpu, &mut slot).is_none());
    assert_eq!(calls.get(), 0);
    assert!(!cpu.interrupts_enabled());
    assert!(slot.into_inner().is_some());
}

#[test]
fn fault_without_hook_masks_interrupts() {
    let mut cpu = CortexM::new(0);
    let mut slot: Mutex<Option<fn(&PanicInfo)>> = Mutex::new(None);
    assert!(begin_panic(&mut cpu, &mut slot).is_none());
    assert_eq!(cpu.primask, 1);
}

#[test]
fn check_isr_is_fatal_only_inside_isr() {
    let mut cpu = Avr::new(0x80);
    assert!(!check_isr(&mut cpu));
    assert_eq!(cpu, Avr::new(0x80));
    cpu.enter_isr();
    assert!(check_isr(&mut cpu));
    assert!(!cpu.interrupts_enabled());
}

#[test]
fn attach_inside_isr_aborts_instead_of_returning() {
    let mut cpu = Avr::new(0x80);
    let mut table = InterruptTable::new(4);
    cpu.enter_isr();
    let r = InterruptServiceRoutine::__new(1).attach(&mut cpu, &mut table, 2u8, InterruptMode::Low);
    assert!(matches!(r, Outcome::Aborted));
    assert_eq!(table.binding(2), None);
    assert!(!cpu.interrupts_enabled());
    let mut arm = CortexM::new(0);
    arm.take_interrupt(0);
    let bad = InterruptServiceRoutine::__new(1).attach(&mut arm, &mut table, 9u8, InterruptMode::Low);
    assert!(matches!(bad, Outcome::Aborted));
    assert_eq!(arm.primask, 1);
}
