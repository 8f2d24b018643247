//! Instruction-level model of a Sharp LR35902-style 8-bit CPU core: the
//! fetch/decode/execute loop, condition-flag rules, a fixed-priority
//! interrupt controller, and the flat 64 KiB memory bus it runs against.
//!
//! The executable interpreter is verified against a mathematical model of
//! the machine (`semantics::spec_step`): every `step` call is proved to
//! produce exactly the register, flag, memory and cycle-count effects that
//! the model assigns to the fetched opcode.

pub mod alu;
pub mod executor;
pub mod fault;
pub mod interrupts;
pub mod laws;
pub mod memory;
pub mod registers;
pub mod semantics;
pub mod stack;
