use rduino::interrupts::{InterruptMode, InterruptServiceRoutine, InterruptTable, ToInterrupt};
use rduino::pins::{
    analog_input_pin, analog_output_pin, digital_pin, AnalogOutputKind, AnalogReference, Board,
    Pin, PinCapabilities, PinLevel, PinMode,
};
use rduino::platform::{avr, samd};
use rduino::raw::{byte_from_ffi, RawAnalogReference, RawPinLevel, RawPinMode};
use rduino::serial::SerialPort;
use rduino::panic::Outcome;
use rduino::sys::Avr;

fn ret<T>(o: Outcome<T>) -> T {
    match o {
        Outcome::Returned(v) => v,
        Outcome::Aborted => panic!("aborted"),
    }
}

fn board() -> Board {
    Board {
        digital_pins: vec![
            PinCapabilities { pwm: false, interrupt: -1 },
            PinCapabilities { pwm: false, interrupt: -1 },
            PinCapabilities { pwm: false, interrupt: 0 },
            PinCapabilities { pwm: true, interrupt: 1 },
        ],
        analog_input_pins: vec![14, 15],
        analog_output_pins: vec![26],
        serial_ports: vec![SerialPort::Monitor],
    }
}

#[test]
fn digital_pin_in_range() {
    let mut cpu = Avr::new(0x80);
    let b = board();
    let p = digital_pin(&cpu, &b, 3).unwrap();
    assert_eq!(p.number(), 3);
    assert!(p.has_pwm());
    assert!(digital_pin(&cpu, &b, 4).is_none());
    assert!(digital_pin(&cpu, &b, 255).is_none());
}

#[test]
fn pwm_only_on_capable_pins() {
    let mut cpu = Avr::new(0x80);
    let b = board();
    let out = digital_pin(&cpu, &b, 3).unwrap().to_pwm().unwrap();
    assert_eq!(out.number(), 3);
    assert_eq!(out.kind(), AnalogOutputKind::Software);
    assert!(digital_pin(&cpu, &b, 2).unwrap().to_pwm().is_none());
}

#[test]
fn digital_pin_as_interrupt() {
    let mut cpu = Avr::new(0x80);
    let b = board();
    assert_eq!(digital_pin(&cpu, &b, 2).unwrap().to_interrupt(), Some(0));
    assert_eq!(digital_pin(&cpu, &b, 0).unwrap().to_interrupt(), None);
    let mut table = InterruptTable::new(2);
    let pin = digital_pin(&cpu, &b, 3).unwrap();
    let g = ret(InterruptServiceRoutine::__new(8).attach(&mut cpu, &mut table, pin, InterruptMode::Falling)).unwrap();
    assert_eq!(g.interrupt(), 1);
    let none = digital_pin(&cpu, &b, 1).unwrap();
    assert!(ret(InterruptServiceRoutine::__new(8).attach(&mut cpu, &mut table, none, InterruptMode::Falling)).is_err());
}

#[test]
fn analog_pins_from_board_tables() {
    let mut cpu = Avr::new(0x80);
    let b = board();
    assert_eq!(analog_input_pin(&cpu, &b, 1).unwrap().number(), 15);
    assert!(analog_input_pin(&cpu, &b, 2).is_none());
    let dac = analog_output_pin(&cpu, &b, 0).unwrap();
    assert_eq!(dac.number(), 26);
    assert_eq!(dac.kind(), AnalogOutputKind::Hardware);
    assert!(analog_output_pin(&cpu, &b, 1).is_none());
}

#[test]
fn level_mode_reference_encodings() {
    assert_eq!(PinLevel::High.to_ffi(), RawPinLevel::High);
    assert_eq!(PinLevel::from_ffi(RawPinLevel::Low), PinLevel::Low);
    assert_eq!(PinMode::InputPullup.to_ffi(), RawPinMode::InputPullup);
    let pulldown: PinMode = samd::PinModeExt::InputPulldown.into();
    assert_eq!(pulldown.to_ffi(), RawPinMode::InputPulldown);
    assert_eq!(AnalogReference::default(), AnalogReference::Default);
    assert_eq!(AnalogReference::External.to_ffi(), RawAnalogReference::External);
    let r: AnalogReference = avr::AnalogReferenceExt::Internal2v56.into();
    assert_eq!(r.to_ffi(), RawAnalogReference::Internal2v56);
    let s: AnalogReference = samd::AnalogReferenceExt::Internal1v65.into();
    assert_eq!(s.to_ffi(), RawAnalogReference::Internal1v65);
}

#[test]
fn negative_board_answer_means_none() {
    assert_eq!(byte_from_ffi(-1), None);
    assert_eq!(byte_from_ffi(0), Some(0));
    assert_eq!(byte_from_ffi(200), Some(200));
}
