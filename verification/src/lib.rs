//! Instruction-execution core of an emulator for a classic 8-bit
//! microprocessor of the 6502 family.
//!
//! The library reproduces, for a flat 64 KiB memory image, the exact
//! register, flag, and timing effects of executing one machine instruction:
//! operand resolution for every supported addressing mode (including the
//! hardware's page-boundary and zero-page wraparound quirks), the
//! arithmetic and logic instruction semantics (including decimal mode),
//! branch-displacement handling, and per-instruction cycle accounting.
//!
//! Every observable effect of [`emulate_op`] is pinned down by
//! [`step::spec_step`], a mathematical model of one machine step over
//! [`state::Machine`], the ghost view of the system state.

pub mod addressing;
pub mod bcd;
pub mod instructions;
pub mod state;
pub mod step;

pub use crate::bcd::bcd_add;
pub use crate::bcd::bcd_add_digit;

pub use crate::state::CpuState;
pub use crate::state::SystemState;

pub use crate::step::emulate_op;
pub use crate::step::UnsupportedOpcode;
