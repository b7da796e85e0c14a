//! A bare-metal concurrency and interrupt-management core: critical sections, an
//! interrupt-disabling mutex, interrupt service routine bindings and the panic policy,
//! over a model of the processor's interrupt-control state.

pub mod sys;
pub mod critical_section;
pub mod sync;
pub mod raw;
pub mod io;
pub mod interrupts;
pub mod panic;
pub mod pins;
pub mod serial;
pub mod platform;
