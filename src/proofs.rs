//! Laws of the addressing resolver and the executor, proved over the model.

use vstd::prelude::*;
use crate::cpu::{
    AddressingMode, CpuError, CpuState, Register, add8, advance, effective_address,
    instruction_spec, load_spec, operand, operand_bytes, operand_value, step_spec, store_spec,
};
use crate::flags::{StatusFlag, flag_is_set, lemma_load_flags, sign_bit};
use crate::opcodes::{Mnemonic, opcode_entry};

verus! {

/// Resolving a mode moves the program counter past exactly the mode's
/// operand bytes (0, 1 or 2), whatever those bytes and the rest of memory
/// hold; short of the top of the address space the counter simply grows by
/// that many.
pub proof fn lemma_resolution_advances_pc(
    s: CpuState,
    t: CpuState,
    r: Register,
    mode: AddressingMode,
)
    requires
        s.pc == t.pc,
    ensures
        advance(s, mode).pc == advance(t, mode).pc,
        load_spec(s, r, mode).pc == advance(s, mode).pc,
        store_spec(s, r, mode).pc == advance(s, mode).pc,
        s.pc + operand_bytes(mode) < 0x10000 ==> advance(s, mode).pc == s.pc + operand_bytes(mode),
        mode == AddressingMode::Accumulator || mode == AddressingMode::Implied ==> operand_bytes(
            mode,
        ) == 0,
        mode == AddressingMode::Immediate || mode == AddressingMode::ZeroPage || mode
            == AddressingMode::ZeroPageX || mode == AddressingMode::ZeroPageY || mode
            == AddressingMode::Relative || mode == AddressingMode::IndirectX || mode
            == AddressingMode::IndirectY ==> operand_bytes(mode) == 1,
        mode == AddressingMode::Absolute || mode == AddressingMode::AbsoluteX || mode
            == AddressingMode::AbsoluteY ==> operand_bytes(mode) == 2,
{
}

/// After any load, zero is set exactly when the loaded value is 0 and
/// negative exactly when its bit 7 is set; every other flag keeps its value.
pub proof fn lemma_load_updates_flags(
    s: CpuState,
    r: Register,
    mode: AddressingMode,
    g: StatusFlag,
)
    ensures
        flag_is_set(load_spec(s, r, mode).status, StatusFlag::Zero) == (operand_value(mode, s)
            == 0),
        flag_is_set(load_spec(s, r, mode).status, StatusFlag::Negative) == sign_bit(
            operand_value(mode, s),
        ),
        g != StatusFlag::Zero && g != StatusFlag::Negative ==> flag_is_set(
            load_spec(s, r, mode).status,
            g,
        ) == flag_is_set(s.status, g),
{
    lemma_load_flags(s.status, operand_value(mode, s), g);
}

/// Zero-page indexed addressing stays in page zero: the sum wraps within
/// 8 bits. Absolute indexed addressing adds with 16-bit wrap-around, so the
/// index may carry into the high byte.
pub proof fn lemma_indexed_addressing(s: CpuState)
    ensures
        effective_address(AddressingMode::ZeroPageX, s) < 0x100,
        effective_address(AddressingMode::ZeroPageY, s) < 0x100,
        effective_address(AddressingMode::ZeroPageX, s) == (operand(s, 0) + s.x) % 0x100,
        effective_address(AddressingMode::ZeroPageY, s) == (operand(s, 0) + s.y) % 0x100,
        effective_address(AddressingMode::AbsoluteX, s) == (effective_address(
            AddressingMode::Absolute,
            s,
        ) + s.x) % 0x10000,
        effective_address(AddressingMode::AbsoluteY, s) == (effective_address(
            AddressingMode::Absolute,
            s,
        ) + s.y) % 0x10000,
{
}

/// Where the zero-page pointer of indexed-indirect addressing (operand plus
/// X, wrapped in page zero) holds the low then the high byte of `target`,
/// the effective address is `target`.
pub proof fn lemma_indirect_x_round_trip(s: CpuState, target: u16)
    requires
        s.mem.len() == 0x10000,
        s.mem[add8(operand(s, 0), s.x) as int] == target % 0x100,
        s.mem[add8(operand(s, 0), s.x) + 1] == target / 0x100,
    ensures
        effective_address(AddressingMode::IndirectX, s) == target,
{
}

/// Where the zero-page pointer of indirect-indexed addressing (the operand)
/// holds the low then the high byte of `target`, the effective address is
/// `target` plus Y with 16-bit wrap-around.
pub proof fn lemma_indirect_y_round_trip(s: CpuState, target: u16)
    requires
        s.mem.len() == 0x10000,
        s.mem[operand(s, 0) as int] == target % 0x100,
        s.mem[operand(s, 0) + 1] == target / 0x100,
    ensures
        effective_address(AddressingMode::IndirectY, s) == (target + s.y) % 0x10000,
{
}

/// Stores change no status flag and no register; loads change no memory.
pub proof fn lemma_store_keeps_flags_load_keeps_memory(
    s: CpuState,
    m: Mnemonic,
    mode: AddressingMode,
)
    ensures
        ({
            let res = instruction_spec(s, m, mode);
            res is Ok && (m == Mnemonic::Sta || m == Mnemonic::Stx || m == Mnemonic::Sty) ==> {
                let t = res->Ok_0;
                t.status == s.status && t.a == s.a && t.x == s.x && t.y == s.y
            }
        }),
        ({
            let res = instruction_spec(s, m, mode);
            res is Ok && (m == Mnemonic::Lda || m == Mnemonic::Ldx || m == Mnemonic::Ldy)
                ==> res->Ok_0.mem == s.mem
        }),
{
}

/// A step on an opcode byte whose table entry is unimplemented reports that
/// opcode and its address, and leaves every register and flag unchanged.
pub proof fn lemma_unimplemented_opcode(s: CpuState)
    requires
        opcode_entry(s.mem[s.pc as int]).mnemonic == Mnemonic::Unimplemented,
    ensures
        step_spec(s) == Err::<CpuState, CpuError>(
            CpuError::UnimplementedOpcode { opcode: s.mem[s.pc as int], program_counter: s.pc },
        ),
{
}

} // verus!
