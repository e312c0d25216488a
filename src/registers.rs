//! A register file layout: thirteen general-purpose registers, two stack
//! pointers, link register, program counter and program status register.
use vstd::prelude::*;

verus! {

/// The registers of a core, each a 32-bit cell.
#[derive(Debug, Clone, Copy)]
pub struct CpuRegisters {
    /// General-purpose registers r0 to r12.
    pub r: [u32; 13],
    /// Main stack pointer.
    pub sp_main: u32,
    /// Process stack pointer.
    pub sp_process: u32,
    /// Link register, r14.
    pub lr: u32,
    /// Program counter, r15.
    pub pc: u32,
    /// Program status register.
    pub xpsr: u32,
}

impl Default for CpuRegisters {
    /// Every register zero.
    fn default() -> (r: Self)
        ensures
            forall|i: int| 0 <= i < 13 ==> #[trigger] r.r@[i] == 0,
            r.sp_main == 0,
            r.sp_process == 0,
            r.lr == 0,
            r.pc == 0,
            r.xpsr == 0,
    {
        CpuRegisters { r: [0u32; 13], sp_main: 0, sp_process: 0, lr: 0, pc: 0, xpsr: 0 }
    }
}

} // verus!
