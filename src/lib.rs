//! A cycle-counting emulator core for the MOS 6502 processor.
//!
//! - `ram`: the memory bus the processor is driven through, and plain 64 KiB memory.
//! - `cpu`: registers, flags, bus and stack accesses, interrupts, reset and stepping.
//! - `instruction`: instruction kinds, addressing modes and their execution.
//! - `semantics`: the dispatch table and what each instruction does, stated over the
//!   registers and the bytes of memory, with the documented cycle counts.
//! - `laws`: properties of the instruction set proved from those statements.
//! - `trace`: trace lines in the layout of the nestest log.
use vstd::prelude::*;

pub mod cpu;
pub mod instruction;
pub mod laws;
pub mod ram;
pub mod semantics;
pub mod trace;

verus! {

} // verus!
