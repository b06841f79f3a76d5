//! The authoritative software-maintained register state: program counter,
//! general-purpose registers, and control/status registers.
//!
//! The cosimulation handlers cross-check the circuit model against this
//! state and commit architectural updates to it at writeback.

use vstd::prelude::*;

verus! {

/// Register index 0 is hard-wired to zero; writes to it are accepted and
/// discarded.
pub const GPR_COUNT: u32 = 32;

pub const CSR_COUNT: u32 = 4096;

#[derive(Clone, Copy, Debug, PartialEq, Eq, Structural)]
pub enum RegError {
    OutOfRange,
}

/// The general-purpose register file after writing `data` at index `i`:
/// index 0 stays hard-wired to zero.
pub open spec fn gpr_after_write(g: Seq<u32>, i: u32, data: u32) -> Seq<u32> {
    if i == 0 {
        g
    } else {
        g.update(i as int, data)
    }
}

/// The control/status register file after a write gated by `wen`.
pub open spec fn csr_after_write(c: Seq<u32>, wen: bool, a: u32, d: u32) -> Seq<u32> {
    if wen {
        c.update(a as int, d)
    } else {
        c
    }
}

pub struct RegFile {
    pub pc: u32,
    pub gpr: Vec<u32>,
    pub csr: Vec<u32>,
}

impl RegFile {
    pub open spec fn wf(self) -> bool {
        &&& self.gpr@.len() == GPR_COUNT
        &&& self.csr@.len() == CSR_COUNT
        &&& self.gpr@[0] == 0u32
    }

    /// A register file with every register zeroed and the program counter
    /// at `reset_pc`.
    pub fn new(reset_pc: u32) -> (r: Self)
        ensures
            r.wf(),
            r.pc == reset_pc,
            forall|i: int| 0 <= i < GPR_COUNT ==> r.gpr@[i] == 0u32,
            forall|i: int| 0 <= i < CSR_COUNT ==> r.csr@[i] == 0u32,
    {
        RegFile { pc: reset_pc, gpr: vec![0u32; 32], csr: vec![0u32; 4096] }
    }

    pub fn read_pc(&self) -> (r: u32)
        ensures
            r == self.pc,
    {
        self.pc
    }

    pub fn write_pc(&mut self, pc: u32)
        ensures
            final(self).pc == pc,
            final(self).gpr == old(self).gpr,
            final(self).csr == old(self).csr,
    {
        self.pc = pc;
    }

    pub fn read_gpr(&self, i: u32) -> (r: u32)
        requires
            self.wf(),
            i < GPR_COUNT,
        ensures
            r == self.gpr@[i as int],
    {
        self.gpr[i as usize]
    }

    pub fn read_csr(&self, a: u32) -> (r: u32)
        requires
            self.wf(),
            a < CSR_COUNT,
        ensures
            r == self.csr@[a as int],
    {
        self.csr[a as usize]
    }

    /// Writes a general-purpose register.  An out-of-range destination
    /// index is rejected without mutating anything; a write to index 0 is
    /// accepted but discarded, keeping that register hard-wired to zero.
    pub fn write_gpr(&mut self, i: u32, data: u32) -> (r: Result<(), RegError>)
        requires
            old(self).wf(),
        ensures
            final(self).wf(),
            i < GPR_COUNT ==> r is Ok && final(self).gpr@ == gpr_after_write(
                old(self).gpr@,
                i,
                data,
            ) && final(self).pc == old(self).pc && final(self).csr == old(self).csr,
            i >= GPR_COUNT ==> r == Err::<(), RegError>(RegError::OutOfRange) && *final(self)
                == *old(self),
    {
        if i >= GPR_COUNT {
            return Err(RegError::OutOfRange);
        }
        if i != 0 {
            self.gpr[i as usize] = data;
        }
        Ok(())
    }

    /// Writes a control/status register; an out-of-range address is
    /// rejected without mutating anything.
    pub fn write_csr(&mut self, a: u32, data: u32) -> (r: Result<(), RegError>)
        requires
            old(self).wf(),
        ensures
            final(self).wf(),
            a < CSR_COUNT ==> r is Ok && final(self).csr@ == old(self).csr@.update(a as int, data)
                && final(self).pc == old(self).pc && final(self).gpr == old(self).gpr,
            a >= CSR_COUNT ==> r == Err::<(), RegError>(RegError::OutOfRange) && *final(self)
                == *old(self),
    {
        if a >= CSR_COUNT {
            return Err(RegError::OutOfRange);
        }
        self.csr[a as usize] = data;
        Ok(())
    }
}

} // verus!
