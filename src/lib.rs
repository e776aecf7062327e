//! A small word-addressed processor emulator whose fetch, decode and
//! execute steps are specified and proved against a mathematical model.
pub mod isa;
pub mod image;
pub mod cpu;
pub mod laws;
