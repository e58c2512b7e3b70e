//! The opcode table: what each supported opcode byte means.
use vstd::prelude::*;
use crate::cpu::AddressingMode;

verus! {

/// The instructions this core executes.
#[derive(Debug, Clone, Copy, PartialEq, Eq, Structural)]
pub enum Mnemonic {
    /// Load accumulator.
    LDA,
    /// Store accumulator.
    STA,
    /// Transfer accumulator to index X.
    TAX,
    /// Increment index X.
    INX,
    /// Break: halt execution.
    BRK,
}

/// What the table holds for one opcode byte.
#[derive(Debug, Clone, Copy, PartialEq, Eq, Structural)]
pub struct OpCode {
    pub code: u8,
    pub mnemonic: Mnemonic,
    /// Total instruction length in bytes: the opcode byte and its operands.
    pub len: u8,
    pub mode: AddressingMode,
}

/// The table entry `(mnemonic, length, mode)` built into an `OpCode` for `code`.
pub open spec fn entry(code: u8, mnemonic: Mnemonic, len: u8, mode: AddressingMode) -> Option<OpCode> {
    Some(OpCode { code, mnemonic, len, mode })
}

/// The opcode table; `None` for a byte that no supported instruction uses.
pub open spec fn opcode_table(code: u8) -> Option<OpCode> {
    match code {
        0xA9 => entry(code, Mnemonic::LDA, 2, AddressingMode::Immediate),
        0xA5 => entry(code, Mnemonic::LDA, 2, AddressingMode::ZeroPage),
        0xB5 => entry(code, Mnemonic::LDA, 2, AddressingMode::ZeroPage_X),
        0xAD => entry(code, Mnemonic::LDA, 3, AddressingMode::Absolute),
        0xBD => entry(code, Mnemonic::LDA, 3, AddressingMode::Absolute_X),
        0xB9 => entry(code, Mnemonic::LDA, 3, AddressingMode::Absolute_Y),
        0xA1 => entry(code, Mnemonic::LDA, 2, AddressingMode::Indirect_X),
        0xB1 => entry(code, Mnemonic::LDA, 2, AddressingMode::Indirect_Y),
        0x85 => entry(code, Mnemonic::STA, 2, AddressingMode::ZeroPage),
        0x95 => entry(code, Mnemonic::STA, 2, AddressingMode::ZeroPage_X),
        0x8D => entry(code, Mnemonic::STA, 3, AddressingMode::Absolute),
        0x9D => entry(code, Mnemonic::STA, 3, AddressingMode::Absolute_X),
        0x99 => entry(code, Mnemonic::STA, 3, AddressingMode::Absolute_Y),
        0x81 => entry(code, Mnemonic::STA, 2, AddressingMode::Indirect_X),
        0x91 => entry(code, Mnemonic::STA, 2, AddressingMode::Indirect_Y),
        0xAA => entry(code, Mnemonic::TAX, 1, AddressingMode::NoneAddressing),
        0xE8 => entry(code, Mnemonic::INX, 1, AddressingMode::NoneAddressing),
        0x00 => entry(code, Mnemonic::BRK, 1, AddressingMode::NoneAddressing),
        _ => None,
    }
}

/// Looks `code` up in the opcode table.
pub fn lookup(code: u8) -> (r: Option<OpCode>)
    ensures
        r == opcode_table(code),
{
    let (mnemonic, len, mode) = match code {
        0xA9 => (Mnemonic::LDA, 2u8, AddressingMode::Immediate),
        0xA5 => (Mnemonic::LDA, 2u8, AddressingMode::ZeroPage),
        0xB5 => (Mnemonic::LDA, 2u8, AddressingMode::ZeroPage_X),
        0xAD => (Mnemonic::LDA, 3u8, AddressingMode::Absolute),
        0xBD => (Mnemonic::LDA, 3u8, AddressingMode::Absolute_X),
        0xB9 => (Mnemonic::LDA, 3u8, AddressingMode::Absolute_Y),
        0xA1 => (Mnemonic::LDA, 2u8, AddressingMode::Indirect_X),
        0xB1 => (Mnemonic::LDA, 2u8, AddressingMode::Indirect_Y),
        0x85 => (Mnemonic::STA, 2u8, AddressingMode::ZeroPage),
        0x95 => (Mnemonic::STA, 2u8, AddressingMode::ZeroPage_X),
        0x8D => (Mnemonic::STA, 3u8, AddressingMode::Absolute),
        0x9D => (Mnemonic::STA, 3u8, AddressingMode::Absolute_X),
        0x99 => (Mnemonic::STA, 3u8, AddressingMode::Absolute_Y),
        0x81 => (Mnemonic::STA, 2u8, AddressingMode::Indirect_X),
        0x91 => (Mnemonic::STA, 2u8, AddressingMode::Indirect_Y),
        0xAA => (Mnemonic::TAX, 1u8, AddressingMode::NoneAddressing),
        0xE8 => (Mnemonic::INX, 1u8, AddressingMode::NoneAddressing),
        0x00 => (Mnemonic::BRK, 1u8, AddressingMode::NoneAddressing),
        _ => {
            return None;
        },
    };
    Some(OpCode { code, mnemonic, len, mode })
}

} // verus!
