//! Interrupt and console bring-up layer of a small x86 kernel, modelled as
//! ordinary verified logic: descriptor encoding, interrupt controller
//! programming, keyboard decoding, a text console and a line shell.

pub mod vga;
pub mod gdt;
pub mod text;
pub mod idt;
pub mod pic;
pub mod kb;
pub mod exc;
pub mod nps;
pub mod kernel;
