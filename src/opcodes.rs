//! Opcode byte values and the table that maps every opcode byte to its
//! mnemonic and addressing mode.

use vstd::prelude::*;
use crate::cpu::AddressingMode;

verus! {

pub const LDA_IMM: u8 = 0xA9;
pub const LDA_ZP: u8 = 0xA5;
pub const LDA_ZP_X: u8 = 0xB5;
pub const LDA_ABS: u8 = 0xAD;
pub const LDA_ABS_X: u8 = 0xBD;
pub const LDA_ABS_Y: u8 = 0xB9;
pub const LDA_IND_X: u8 = 0xA1;
pub const LDA_IND_Y: u8 = 0xB1;
pub const STA_ZP: u8 = 0x85;
pub const STA_ZP_X: u8 = 0x95;
pub const STA_ABS: u8 = 0x8D;
pub const STA_ABS_X: u8 = 0x9D;
pub const STA_ABS_Y: u8 = 0x99;
pub const STA_IND_X: u8 = 0x81;
pub const STA_IND_Y: u8 = 0x91;
pub const LDX_IMM: u8 = 0xA2;
pub const LDX_ZP: u8 = 0xA6;
pub const LDX_ZP_Y: u8 = 0xB6;
pub const LDX_ABS: u8 = 0xAE;
pub const LDX_ABS_Y: u8 = 0xBE;
pub const STX_ZP: u8 = 0x86;
pub const STX_ZP_Y: u8 = 0x96;
pub const STX_ABS: u8 = 0x8E;
pub const LDY_IMM: u8 = 0xA0;
pub const LDY_ZP: u8 = 0xA4;
pub const LDY_ZP_X: u8 = 0xB4;
pub const LDY_ABS: u8 = 0xAC;
pub const LDY_ABS_X: u8 = 0xBC;
pub const STY_ZP: u8 = 0x84;
pub const STY_ZP_X: u8 = 0x94;
pub const STY_ABS: u8 = 0x8C;

/// The instruction an opcode byte stands for.
#[derive(Clone, Copy, Debug, PartialEq, Eq, Structural)]
pub enum Mnemonic {
    Lda,
    Sta,
    Ldx,
    Stx,
    Ldy,
    Sty,
    /// An opcode byte with no behaviour yet.
    Unimplemented,
}

/// The table entry of one opcode byte.
#[derive(Clone, Copy, Debug, PartialEq, Eq, Structural)]
pub struct OpcodeEntry {
    pub mnemonic: Mnemonic,
    pub mode: AddressingMode,
}

/// The entry of `opcode`: every byte has one, and a byte outside the load
/// and store families maps to the unimplemented entry.
pub open spec fn opcode_entry(opcode: u8) -> OpcodeEntry {
    if opcode == LDA_IMM {
        OpcodeEntry { mnemonic: Mnemonic::Lda, mode: AddressingMode::Immediate }
    } else if opcode == LDA_ZP {
        OpcodeEntry { mnemonic: Mnemonic::Lda, mode: AddressingMode::ZeroPage }
    } else if opcode == LDA_ZP_X {
        OpcodeEntry { mnemonic: Mnemonic::Lda, mode: AddressingMode::ZeroPageX }
    } else if opcode == LDA_ABS {
        OpcodeEntry { mnemonic: Mnemonic::Lda, mode: AddressingMode::Absolute }
    } else if opcode == LDA_ABS_X {
        OpcodeEntry { mnemonic: Mnemonic::Lda, mode: AddressingMode::AbsoluteX }
    } else if opcode == LDA_ABS_Y {
        OpcodeEntry { mnemonic: Mnemonic::Lda, mode: AddressingMode::AbsoluteY }
    } else if opcode == LDA_IND_X {
        OpcodeEntry { mnemonic: Mnemonic::Lda, mode: AddressingMode::IndirectX }
    } else if opcode == LDA_IND_Y {
        OpcodeEntry { mnemonic: Mnemonic::Lda, mode: AddressingMode::IndirectY }
    } else if opcode == STA_ZP {
        OpcodeEntry { mnemonic: Mnemonic::Sta, mode: AddressingMode::ZeroPage }
    } else if opcode == STA_ZP_X {
        OpcodeEntry { mnemonic: Mnemonic::Sta, mode: AddressingMode::ZeroPageX }
    } else if opcode == STA_ABS {
        OpcodeEntry { mnemonic: Mnemonic::Sta, mode: AddressingMode::Absolute }
    } else if opcode == STA_ABS_X {
        OpcodeEntry { mnemonic: Mnemonic::Sta, mode: AddressingMode::AbsoluteX }
    } else if opcode == STA_ABS_Y {
        OpcodeEntry { mnemonic: Mnemonic::Sta, mode: AddressingMode::AbsoluteY }
    } else if opcode == STA_IND_X {
        OpcodeEntry { mnemonic: Mnemonic::Sta, mode: AddressingMode::IndirectX }
    } else if opcode == STA_IND_Y {
        OpcodeEntry { mnemonic: Mnemonic::Sta, mode: AddressingMode::IndirectY }
    } else if opcode == LDX_IMM {
        OpcodeEntry { mnemonic: Mnemonic::Ldx, mode: AddressingMode::Immediate }
    } else if opcode == LDX_ZP {
        OpcodeEntry { mnemonic: Mnemonic::Ldx, mode: AddressingMode::ZeroPage }
    } else if opcode == LDX_ZP_Y {
        OpcodeEntry { mnemonic: Mnemonic::Ldx, mode: AddressingMode::ZeroPageY }
    } else if opcode == LDX_ABS {
        OpcodeEntry { mnemonic: Mnemonic::Ldx, mode: AddressingMode::Absolute }
    } else if opcode == LDX_ABS_Y {
        OpcodeEntry { mnemonic: Mnemonic::Ldx, mode: AddressingMode::AbsoluteY }
    } else if opcode == STX_ZP {
        OpcodeEntry { mnemonic: Mnemonic::Stx, mode: AddressingMode::ZeroPage }
    } else if opcode == STX_ZP_Y {
        OpcodeEntry { mnemonic: Mnemonic::Stx, mode: AddressingMode::ZeroPageY }
    } else if opcode == STX_ABS {
        OpcodeEntry { mnemonic: Mnemonic::Stx, mode: AddressingMode::Absolute }
    } else if opcode == LDY_IMM {
        OpcodeEntry { mnemonic: Mnemonic::Ldy, mode: AddressingMode::Immediate }
    } else if opcode == LDY_ZP {
        OpcodeEntry { mnemonic: Mnemonic::Ldy, mode: AddressingMode::ZeroPage }
    } else if opcode == LDY_ZP_X {
        OpcodeEntry { mnemonic: Mnemonic::Ldy, mode: AddressingMode::ZeroPageX }
    } else if opcode == LDY_ABS {
        OpcodeEntry { mnemonic: Mnemonic::Ldy, mode: AddressingMode::Absolute }
    } else if opcode == LDY_ABS_X {
        OpcodeEntry { mnemonic: Mnemonic::Ldy, mode: AddressingMode::AbsoluteX }
    } else if opcode == STY_ZP {
        OpcodeEntry { mnemonic: Mnemonic::Sty, mode: AddressingMode::ZeroPage }
    } else if opcode == STY_ZP_X {
        OpcodeEntry { mnemonic: Mnemonic::Sty, mode: AddressingMode::ZeroPageX }
    } else if opcode == STY_ABS {
        OpcodeEntry { mnemonic: Mnemonic::Sty, mode: AddressingMode::Absolute }
    } else {
        OpcodeEntry { mnemonic: Mnemonic::Unimplemented, mode: AddressingMode::Unimplemented }
    }
}

/// Looks up the table entry of `opcode`.
pub fn decode(opcode: u8) -> (r: OpcodeEntry)
    ensures
        r == opcode_entry(opcode),
{
    if opcode == LDA_IMM {
        OpcodeEntry { mnemonic: Mnemonic::Lda, mode: AddressingMode::Immediate }
    } else if opcode == LDA_ZP {
        OpcodeEntry { mnemonic: Mnemonic::Lda, mode: AddressingMode::ZeroPage }
    } else if opcode == LDA_ZP_X {
        OpcodeEntry { mnemonic: Mnemonic::Lda, mode: AddressingMode::ZeroPageX }
    } else if opcode == LDA_ABS {
        OpcodeEntry { mnemonic: Mnemonic::Lda, mode: AddressingMode::Absolute }
    } else if opcode == LDA_ABS_X {
        OpcodeEntry { mnemonic: Mnemonic::Lda, mode: AddressingMode::AbsoluteX }
    } else if opcode == LDA_ABS_Y {
        OpcodeEntry { mnemonic: Mnemonic::Lda, mode: AddressingMode::AbsoluteY }
    } else if opcode == LDA_IND_X {
        OpcodeEntry { mnemonic: Mnemonic::Lda, mode: AddressingMode::IndirectX }
    } else if opcode == LDA_IND_Y {
        OpcodeEntry { mnemonic: Mnemonic::Lda, mode: AddressingMode::IndirectY }
    } else if opcode == STA_ZP {
        OpcodeEntry { mnemonic: Mnemonic::Sta, mode: AddressingMode::ZeroPage }
    } else if opcode == STA_ZP_X {
        OpcodeEntry { mnemonic: Mnemonic::Sta, mode: AddressingMode::ZeroPageX }
    } else if opcode == STA_ABS {
        OpcodeEntry { mnemonic: Mnemonic::Sta, mode: AddressingMode::Absolute }
    } else if opcode == STA_ABS_X {
        OpcodeEntry { mnemonic: Mnemonic::Sta, mode: AddressingMode::AbsoluteX }
    } else if opcode == STA_ABS_Y {
        OpcodeEntry { mnemonic: Mnemonic::Sta, mode: AddressingMode::AbsoluteY }
    } else if opcode == STA_IND_X {
        OpcodeEntry { mnemonic: Mnemonic::Sta, mode: AddressingMode::IndirectX }
    } else if opcode == STA_IND_Y {
        OpcodeEntry { mnemonic: Mnemonic::Sta, mode: AddressingMode::IndirectY }
    } else if opcode == LDX_IMM {
        OpcodeEntry { mnemonic: Mnemonic::Ldx, mode: AddressingMode::Immediate }
    } else if opcode == LDX_ZP {
        OpcodeEntry { mnemonic: Mnemonic::Ldx, mode: AddressingMode::ZeroPage }
    } else if opcode == LDX_ZP_Y {
        OpcodeEntry { mnemonic: Mnemonic::Ldx, mode: AddressingMode::ZeroPageY }
    } else if opcode == LDX_ABS {
        OpcodeEntry { mnemonic: Mnemonic::Ldx, mode: AddressingMode::Absolute }
    } else if opcode == LDX_ABS_Y {
        OpcodeEntry { mnemonic: Mnemonic::Ldx, mode: AddressingMode::AbsoluteY }
    } else if opcode == STX_ZP {
        OpcodeEntry { mnemonic: Mnemonic::Stx, mode: AddressingMode::ZeroPage }
    } else if opcode == STX_ZP_Y {
        OpcodeEntry { mnemonic: Mnemonic::Stx, mode: AddressingMode::ZeroPageY }
    } else if opcode == STX_ABS {
        OpcodeEntry { mnemonic: Mnemonic::Stx, mode: AddressingMode::Absolute }
    } else if opcode == LDY_IMM {
        OpcodeEntry { mnemonic: Mnemonic::Ldy, mode: AddressingMode::Immediate }
    } else if opcode == LDY_ZP {
        OpcodeEntry { mnemonic: Mnemonic::Ldy, mode: AddressingMode::ZeroPage }
    } else if opcode == LDY_ZP_X {
        OpcodeEntry { mnemonic: Mnemonic::Ldy, mode: AddressingMode::ZeroPageX }
    } else if opcode == LDY_ABS {
        OpcodeEntry { mnemonic: Mnemonic::Ldy, mode: AddressingMode::Absolute }
    } else if opcode == LDY_ABS_X {
        OpcodeEntry { mnemonic: Mnemonic::Ldy, mode: AddressingMode::AbsoluteX }
    } else if opcode == STY_ZP {
        OpcodeEntry { mnemonic: Mnemonic::Sty, mode: AddressingMode::ZeroPage }
    } else if opcode == STY_ZP_X {
        OpcodeEntry { mnemonic: Mnemonic::Sty, mode: AddressingMode::ZeroPageX }
    } else if opcode == STY_ABS {
        OpcodeEntry { mnemonic: Mnemonic::Sty, mode: AddressingMode::Absolute }
    } else {
        OpcodeEntry { mnemonic: Mnemonic::Unimplemented, mode: AddressingMode::Unimplemented }
    }
}

} // verus!
