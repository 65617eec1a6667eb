//! An interpreter core for the CHIP-8 fixed-width bytecode instruction set,
//! with machine-checked contracts.
//!
//! The library covers the fetch-decode-dispatch-execute loop and the full
//! instruction semantics: bit-field decoding ([`decode`]), the mathematical
//! model of the machine and its opcode table ([`semantics`]), the executable
//! machine and its verified handlers ([`cpu`]), the framebuffer grid
//! ([`graphics`]), and laws relating several instructions ([`laws`]).
//! Presenting the framebuffer on a host surface, pumping its events and
//! loading program files are left to the embedder, which drives the machine
//! one [`cpu::CPU::step`] at a time.

pub mod cpu;
pub mod decode;
pub mod graphics;
pub mod laws;
pub mod semantics;
