//! Machine-mode trap routing, supervisor-binary-interface calls and
//! hypervisor-extension lifecycle for a RISC-V hart, stated over an explicit
//! model of the machine.

use vstd::prelude::*;

pub mod boot;
pub mod csr;
pub mod firmware;
pub mod hext;
pub mod hv;
pub mod instructions;
pub mod machine;
pub mod mm;
pub mod sbi;
pub mod timer;
pub mod trap;
pub mod uart;

