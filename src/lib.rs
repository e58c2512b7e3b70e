//! The instruction-execution core of an 8-bit 6502-family CPU.
//!
//! `cpu::CPU` is the full core: 64 KiB memory, addressing modes, the opcode table
//! and the fetch-decode-execute loop. `CPU` here is a minimal interpreter that runs
//! load-accumulator-immediate and break straight from a byte vector.
use vstd::prelude::*;
use crate::cpu::CpuError;
use crate::flags::{update_zero_and_negative_flags, zero_negative_status};

pub mod cpu;
pub mod flags;
pub mod lemmas;
pub mod opcodes;

verus! {

/// Load-accumulator-immediate opcode.
pub const OP_LDA_IMMEDIATE: u8 = 0xA9;

/// Break opcode.
pub const OP_BRK: u8 = 0x00;

/// A minimal interpreter with an accumulator, a status byte and an 8-bit counter.
pub struct CPU {
    pub register_a: u8,
    pub status: u8,
    pub program_counter: u8,
}

/// Accumulator, status, counter and result after interpreting `program` from counter `pc`.
/// An instruction must lie wholly inside `program`, and the counter after it must fit
/// in 8 bits; otherwise execution stops at it with `ProgramOverrun`.
pub open spec fn interpret_from(a: u8, status: u8, pc: u8, program: Seq<u8>) -> (u8, u8, u8, Result<(), CpuError>)
    decreases 256 - pc,
{
    let overrun = (a, status, pc, Err(CpuError::ProgramOverrun { address: pc as u16 }));
    if pc >= program.len() {
        overrun
    } else if program[pc as int] == OP_LDA_IMMEDIATE {
        if pc + 2 > program.len() || pc + 2 > 255 {
            overrun
        } else {
            let v = program[pc + 1];
            interpret_from(v, zero_negative_status(status, v), (pc + 2) as u8, program)
        }
    } else if program[pc as int] == OP_BRK {
        if pc + 1 > 255 {
            overrun
        } else {
            (a, status, (pc + 1) as u8, Ok(()))
        }
    } else {
        (a, status, pc, Err(CpuError::UnrecognizedOpcode { opcode: program[pc as int], address: pc as u16 }))
    }
}

impl CPU {
    /// Accumulator, status and counter all zero.
    pub fn new() -> (r: CPU)
        ensures
            r.register_a == 0,
            r.status == 0,
            r.program_counter == 0,
    {
        CPU { register_a: 0, status: 0, program_counter: 0 }
    }

    /// Runs `program` from its first byte until a break.
    pub fn interpret(&mut self, program: Vec<u8>) -> (r: Result<(), CpuError>)
        ensures
            (final(self).register_a, final(self).status, final(self).program_counter, r)
                == interpret_from(old(self).register_a, old(self).status, 0, program@),
    {
        self.program_counter = 0;
        loop
            invariant
                interpret_from(self.register_a, self.status, self.program_counter, program@)
                    == interpret_from(old(self).register_a, old(self).status, 0, program@),
            decreases 256 - self.program_counter,
        {
            let pc = self.program_counter as usize;
            if pc >= program.len() {
                return Err(CpuError::ProgramOverrun { address: pc as u16 });
            }
            let ops_code = program[pc];
            if ops_code == OP_LDA_IMMEDIATE {
                if pc + 2 > program.len() || pc + 2 > 255 {
                    return Err(CpuError::ProgramOverrun { address: pc as u16 });
                }
                let param = program[pc + 1];
                self.register_a = param;
                self.status = update_zero_and_negative_flags(self.status, param);
                self.program_counter = (pc + 2) as u8;
            } else if ops_code == OP_BRK {
                if pc + 1 > 255 {
                    return Err(CpuError::ProgramOverrun { address: pc as u16 });
                }
                self.program_counter = (pc + 1) as u8;
                return Ok(());
            } else {
                return Err(CpuError::UnrecognizedOpcode { opcode: ops_code, address: pc as u16 });
            }
        }
    }
}

} // verus!
