//! Extensions that only some platforms offer.

pub mod avr;
pub mod samd;
