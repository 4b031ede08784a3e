//! A CHIP-8 virtual machine: interpreter, framebuffer, keypad and timers,
//! each with a mathematical model that its operations are verified against.

pub mod cpu;
pub mod display;
pub mod fonts;
pub mod keypad;
