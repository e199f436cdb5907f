//! A MOS 6502 processor core: registers, status word, addressing modes,
//! instruction semantics and the clocking loop, over a flat 64 KiB memory.
//!
//! The processor is modelled as a mathematical value, `state::State`, with a
//! function for what each operation does to it. The executable processor,
//! `cpu::CPU`, is proved to follow that model step by step, and `laws` holds
//! what follows of the model in every state.

pub mod arith;
pub mod bus;
pub mod constants;
pub mod cpu;
pub mod instructions;
pub mod laws;
pub mod listing;
pub mod state;
pub mod text;
