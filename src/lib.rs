//! Bring-up layer of a small multi-core ARM64 kernel: the catalogue of special
//! virtual address ranges and its report, the lock and the per-core job slots,
//! the routing of a core out of reset, the register values that drop a core to
//! kernel privilege, and the register values of the board's drivers.
use vstd::prelude::*;

pub mod arch;
pub mod bsp;
pub mod driver;
pub mod interface;
pub mod memory;
pub mod multi_core;
pub mod sync;
pub mod text;

verus! {

} // verus!
