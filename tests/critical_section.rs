use rduino::critical_section::CriticalSection;
use rduino::interrupts::without_interrupts;
use rduino::sys::{Avr, CortexM, InterruptControl};

#[test]
fn avr_disable_clears_only_the_enable_bit() {
    let mut cpu = Avr::new(0x83);
    let prev = cpu.disable_interrupts();
    assert_eq!(prev, 0x83);
    assert_eq!(cpu.sreg, 0x03);
    assert!(!cpu.interrupts_enabled());
    cpu.restore_interrupts(prev);
    assert_eq!(cpu.sreg, 0x83);
    assert!(cpu.interrupts_enabled());
}

#[test]
fn cortex_m_disable_sets_primask() {
    let mut cpu = CortexM::new(0);
    assert!(cpu.interrupts_enabled());
    let prev = cpu.disable_interrupts();
    assert_eq!(prev, 0);
    assert_eq!(cpu.primask, 1);
    assert!(!cpu.interrupts_enabled());
    cpu.restore_interrupts(prev);
    assert_eq!(cpu.primask, 0);
}

#[test]
fn nested_sections_restore_outer_state_avr() {
    let mut cpu = Avr::new(0x81);
    let outer = CriticalSection::enter(&mut cpu);
    assert!(!cpu.interrupts_enabled());
    let middle = CriticalSection::enter(&mut cpu);
    let inner = CriticalSection::enter(&mut cpu);
    assert!(!cpu.interrupts_enabled());
    inner.exit(&mut cpu);
    assert!(!cpu.interrupts_enabled());
    middle.exit(&mut cpu);
    assert!(!cpu.interrupts_enabled());
    outer.exit(&mut cpu);
    assert_eq!(cpu, Avr::new(0x81));
    assert!(cpu.interrupts_enabled());
}

#[test]
fn nested_sections_restore_outer_state_cortex_m() {
    let mut cpu = CortexM::new(0);
    let outer = CriticalSection::enter(&mut cpu);
    let inner = CriticalSection::enter(&mut cpu);
    assert_eq!(cpu.primask, 1);
    inner.exit(&mut cpu);
    assert_eq!(cpu.primask, 1);
    outer.exit(&mut cpu);
    assert_eq!(cpu, CortexM::new(0));
}

#[test]
fn section_entered_with_interrupts_off_leaves_them_off() {
    let mut cpu = Avr::new(0x00);
    let cs = CriticalSection::enter(&mut cpu);
    assert!(!cpu.interrupts_enabled());
    cs.exit(&mut cpu);
    assert!(!cpu.interrupts_enabled());
    assert_eq!(cpu.sreg, 0x00);
}

#[test]
fn without_interrupts_returns_result_and_restores() {
    let mut cpu = Avr::new(0x80);
    let r = without_interrupts(&mut cpu, |c: &Avr| {
        assert!(!c.interrupts_enabled());
        41 + 1
    });
    assert_eq!(r, 42);
    assert_eq!(cpu.sreg, 0x80);
    let mut arm = CortexM::new(1);
    let s = without_interrupts(&mut arm, |c: &CortexM| {
        assert_eq!(c.primask, 1);
        "done"
    });
    assert_eq!(s, "done");
    assert_eq!(arm.primask, 1);
}
