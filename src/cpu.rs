//! Processor state, the addressing resolver and the load/store executor.

use vstd::prelude::*;
use crate::bus::Bus;
use crate::flags::{StatusFlag, flag_is_set, flag_mask, load_flags};
use crate::opcodes::{Mnemonic, decode, opcode_entry};

verus! {

/// How an instruction locates its operand.
#[derive(Clone, Copy, Debug, PartialEq, Eq, Structural)]
pub enum AddressingMode {
    Accumulator,
    Relative,
    Immediate,
    ZeroPage,
    ZeroPageX,
    ZeroPageY,
    Absolute,
    AbsoluteX,
    AbsoluteY,
    /// Used only by jump-style control transfer.
    Indirect,
    IndirectX,
    IndirectY,
    Implied,
    /// Entry of an opcode that has no behaviour yet.
    Unimplemented,
}

/// The three general registers.
#[derive(Clone, Copy, Debug, PartialEq, Eq, Structural)]
pub enum Register {
    A,
    X,
    Y,
}

/// The processor as a mathematical value: registers, status, stack pointer,
/// program counter and the contents of memory, indexed by address.
pub struct CpuState {
    pub a: u8,
    pub x: u8,
    pub y: u8,
    pub status: u8,
    pub sp: u8,
    pub pc: u16,
    pub mem: Seq<u8>,
}

/// Number of operand bytes that follow an opcode in `mode`. A mode with no
/// operand (and the unimplemented entry) has none.
pub open spec fn operand_bytes(mode: AddressingMode) -> nat {
    match mode {
        AddressingMode::Immediate | AddressingMode::ZeroPage | AddressingMode::ZeroPageX
        | AddressingMode::ZeroPageY | AddressingMode::Relative | AddressingMode::IndirectX
        | AddressingMode::IndirectY => 1,
        AddressingMode::Absolute | AddressingMode::AbsoluteX | AddressingMode::AbsoluteY
        | AddressingMode::Indirect => 2,
        _ => 0,
    }
}

/// Modes that yield an effective memory address.
pub open spec fn is_address_mode(mode: AddressingMode) -> bool {
    match mode {
        AddressingMode::ZeroPage | AddressingMode::ZeroPageX | AddressingMode::ZeroPageY
        | AddressingMode::Absolute | AddressingMode::AbsoluteX | AddressingMode::AbsoluteY
        | AddressingMode::IndirectX | AddressingMode::IndirectY => true,
        _ => false,
    }
}

/// Modes that yield an operand value: the accumulator, an immediate byte, or
/// the byte at an effective address.
pub open spec fn is_value_mode(mode: AddressingMode) -> bool {
    mode == AddressingMode::Accumulator || mode == AddressingMode::Immediate || is_address_mode(
        mode,
    )
}

/// `a + n`, wrapping at the 16-bit boundary. The program counter wraps from
/// 0xFFFF to 0x0000.
pub open spec fn add16(a: u16, b: u16) -> u16 {
    if a + b >= 0x10000 {
        (a + b - 0x10000) as u16
    } else {
        (a + b) as u16
    }
}

/// `a + b`, wrapping within 8 bits.
pub open spec fn add8(a: u8, b: u8) -> u8 {
    if a + b >= 0x100 {
        (a + b - 0x100) as u8
    } else {
        (a + b) as u8
    }
}

/// The 16-bit value whose low byte is `low` and high byte is `high`.
pub open spec fn word(low: u8, high: u8) -> u16 {
    (high as int * 0x100 + low as int) as u16
}

/// The little-endian 16-bit value stored at `addr` and `addr + 1`.
pub open spec fn word_at(mem: Seq<u8>, addr: u16) -> u16 {
    word(mem[addr as int], mem[add16(addr, 1) as int])
}

/// Reading the `i`-th operand byte after the program counter.
pub open spec fn operand(s: CpuState, i: u16) -> u8 {
    s.mem[add16(s.pc, i) as int]
}

/// The effective address that `mode` computes in state `s`, reading its
/// operand bytes at the program counter.
pub open spec fn effective_address(mode: AddressingMode, s: CpuState) -> u16 {
    match mode {
        AddressingMode::ZeroPage => operand(s, 0) as u16,
        AddressingMode::ZeroPageX => add8(operand(s, 0), s.x) as u16,
        AddressingMode::ZeroPageY => add8(operand(s, 0), s.y) as u16,
        AddressingMode::Absolute => word(operand(s, 0), operand(s, 1)),
        AddressingMode::AbsoluteX => add16(word(operand(s, 0), operand(s, 1)), s.x as u16),
        AddressingMode::AbsoluteY => add16(word(operand(s, 0), operand(s, 1)), s.y as u16),
        AddressingMode::IndirectX => word_at(s.mem, add8(operand(s, 0), s.x) as u16),
        AddressingMode::IndirectY => add16(word_at(s.mem, operand(s, 0) as u16), s.y as u16),
        _ => 0,
    }
}

/// The operand value that `mode` yields in state `s`.
pub open spec fn operand_value(mode: AddressingMode, s: CpuState) -> u8 {
    match mode {
        AddressingMode::Accumulator => s.a,
        AddressingMode::Immediate => operand(s, 0),
        _ => s.mem[effective_address(mode, s) as int],
    }
}

/// `s` with the program counter moved past the operand bytes of `mode`.
pub open spec fn advance(s: CpuState, mode: AddressingMode) -> CpuState {
    CpuState { pc: add16(s.pc, operand_bytes(mode) as u16), ..s }
}

/// The value of register `r` in `s`.
pub open spec fn reg_value(s: CpuState, r: Register) -> u8 {
    match r {
        Register::A => s.a,
        Register::X => s.x,
        Register::Y => s.y,
    }
}

/// `s` with register `r` set to `v`.
pub open spec fn set_reg(s: CpuState, r: Register, v: u8) -> CpuState {
    match r {
        Register::A => CpuState { a: v, ..s },
        Register::X => CpuState { x: v, ..s },
        Register::Y => CpuState { y: v, ..s },
    }
}

/// Loading register `r` in `mode`: the register takes the operand value,
/// zero and negative follow it, the program counter moves past the operand.
pub open spec fn load_spec(s: CpuState, r: Register, mode: AddressingMode) -> CpuState {
    let v = operand_value(mode, s);
    CpuState { status: load_flags(s.status, v), ..set_reg(advance(s, mode), r, v) }
}

/// Storing register `r` in `mode`: its value is written at the effective
/// address, the program counter moves past the operand, nothing else changes.
pub open spec fn store_spec(s: CpuState, r: Register, mode: AddressingMode) -> CpuState {
    CpuState {
        mem: s.mem.update(effective_address(mode, s) as int, reg_value(s, r)),
        ..advance(s, mode)
    }
}

/// Why an instruction step failed. A failed step leaves the processor as it
/// was before the step.
#[derive(Clone, Copy, Debug, PartialEq, Eq, Structural)]
pub enum CpuError {
    /// The opcode byte at `program_counter` has no behaviour yet.
    UnimplementedOpcode { opcode: u8, program_counter: u16 },
    /// `mnemonic` was asked to run in a mode outside its legal set.
    InvalidAddressingMode { mnemonic: Mnemonic, mode: AddressingMode },
}

/// Whether the processor goes on after a step.
#[derive(Clone, Copy, Debug, PartialEq, Eq, Structural)]
pub enum RunState {
    Running,
    Halted,
}

/// What one successful step reports.
#[derive(Clone, Copy, Debug, PartialEq, Eq, Structural)]
pub struct Step {
    /// Cycles the step took; a fixed placeholder until timing is modelled.
    pub cycles: u8,
    pub state: RunState,
}

/// Cycle count reported for every instruction until timing is modelled.
pub const STEP_CYCLES: u8 = 0;

/// The addressing modes in which `m` may run.
pub open spec fn legal_mode(m: Mnemonic, mode: AddressingMode) -> bool {
    match m {
        Mnemonic::Lda => mode == AddressingMode::Immediate || (is_address_mode(mode) && mode
            != AddressingMode::ZeroPageY),
        Mnemonic::Sta => is_address_mode(mode) && mode != AddressingMode::ZeroPageY,
        Mnemonic::Ldx => mode == AddressingMode::Immediate || mode == AddressingMode::ZeroPage
            || mode == AddressingMode::ZeroPageY || mode == AddressingMode::Absolute || mode
            == AddressingMode::AbsoluteY,
        Mnemonic::Ldy => mode == AddressingMode::Immediate || mode == AddressingMode::ZeroPage
            || mode == AddressingMode::ZeroPageX || mode == AddressingMode::Absolute || mode
            == AddressingMode::AbsoluteX,
        Mnemonic::Stx => mode == AddressingMode::ZeroPage || mode == AddressingMode::ZeroPageY
            || mode == AddressingMode::Absolute,
        Mnemonic::Sty => mode == AddressingMode::ZeroPage || mode == AddressingMode::ZeroPageX
            || mode == AddressingMode::Absolute,
        Mnemonic::Unimplemented => false,
    }
}

/// Running `m` in `mode` from `s`: the load or store it stands for when the
/// mode is legal, an error with `s` untouched otherwise.
pub open spec fn instruction_spec(s: CpuState, m: Mnemonic, mode: AddressingMode) -> Result<
    CpuState,
    CpuError,
> {
    if !legal_mode(m, mode) {
        Err(CpuError::InvalidAddressingMode { mnemonic: m, mode })
    } else {
        match m {
            Mnemonic::Lda => Ok(load_spec(s, Register::A, mode)),
            Mnemonic::Ldx => Ok(load_spec(s, Register::X, mode)),
            Mnemonic::Ldy => Ok(load_spec(s, Register::Y, mode)),
            Mnemonic::Sta => Ok(store_spec(s, Register::A, mode)),
            Mnemonic::Stx => Ok(store_spec(s, Register::X, mode)),
            _ => Ok(store_spec(s, Register::Y, mode)),
        }
    }
}

/// One fetch-decode-execute step from `s`: the opcode byte at the program
/// counter is consumed and its table entry run. An unimplemented opcode is
/// reported with its address, and the state stays `s`.
pub open spec fn step_spec(s: CpuState) -> Result<CpuState, CpuError> {
    let opcode = s.mem[s.pc as int];
    let entry = opcode_entry(opcode);
    if entry.mnemonic == Mnemonic::Unimplemented {
        Err(CpuError::UnimplementedOpcode { opcode, program_counter: s.pc })
    } else {
        instruction_spec(CpuState { pc: add16(s.pc, 1), ..s }, entry.mnemonic, entry.mode)
    }
}

/// Up to `n` steps from `s`: the state reached, or the first error with the
/// state just before the step that failed.
pub open spec fn run_spec(s: CpuState, n: nat) -> Result<CpuState, (CpuState, CpuError)>
    decreases n,
{
    if n == 0 {
        Ok(s)
    } else {
        match run_spec(s, (n - 1) as nat) {
            Ok(t) => match step_spec(t) {
                Ok(u) => Ok(u),
                Err(e) => Err((t, e)),
            },
            Err(f) => Err(f),
        }
    }
}

/// Once a run has failed, a longer run fails the same way.
proof fn lemma_run_error_persists(s: CpuState, k: nat, m: nat)
    requires
        k <= m,
        run_spec(s, k) is Err,
    ensures
        run_spec(s, m) == run_spec(s, k),
    decreases m - k,
{
    if k < m {
        lemma_run_error_persists(s, k, (m - 1) as nat);
    }
}

/// The processor: three general registers, the status byte, the stack
/// pointer, the program counter and the bus it reads and writes.
pub struct CPU {
    pub register_a: u8,
    pub register_x: u8,
    pub register_y: u8,
    pub status: u8,
    pub stkp: u8,
    pub program_counter: u16,
    pub bus: Bus,
}

impl View for CPU {
    type V = CpuState;

    open spec fn view(&self) -> CpuState {
        CpuState {
            a: self.register_a,
            x: self.register_x,
            y: self.register_y,
            status: self.status,
            sp: self.stkp,
            pc: self.program_counter,
            mem: self.bus@,
        }
    }
}

impl CPU {
    /// The bus spans the whole address space.
    pub open spec fn wf(&self) -> bool {
        self.bus.wf()
    }

    /// A processor with every register, the status and the program counter
    /// at zero, attached to `bus`.
    pub fn new(bus: Bus) -> (r: CPU)
        requires
            bus.wf(),
        ensures
            r.wf(),
            r@ == (CpuState { a: 0, x: 0, y: 0, status: 0, sp: 0, pc: 0, mem: bus@ }),
    {
        CPU {
            register_a: 0,
            register_x: 0,
            register_y: 0,
            status: 0,
            stkp: 0,
            program_counter: 0,
            bus,
        }
    }

    /// The byte at `addr`, read through the bus.
    pub fn read(&self, addr: u16, read_only: Option<bool>) -> (r: u8)
        requires
            self.wf(),
        ensures
            r == self@.mem[addr as int],
    {
        self.bus.read(addr, read_only)
    }

    /// Writes `data` at `addr` through the bus.
    pub fn write(&mut self, addr: u16, data: u8)
        requires
            old(self).wf(),
        ensures
            final(self).wf(),
            final(self)@ == (CpuState { mem: old(self)@.mem.update(addr as int, data), ..old(self)@ }),
    {
        self.bus.write(addr, data);
    }

    /// The 16-bit value with low byte `low` and high byte `high`.
    pub fn combine_u8(low: u8, high: u8) -> (r: u16)
        ensures
            r == word(low, high),
    {
        (high as u16) * 0x100 + (low as u16)
    }

    /// The little-endian 16-bit value stored at `addr` and the address after it.
    pub fn get_address_indirect(&self, addr: u16) -> (r: u16)
        requires
            self.wf(),
        ensures
            r == word_at(self@.mem, addr),
    {
        let low = self.read(addr, None);
        let high = self.read(addr.wrapping_add(1), None);
        Self::combine_u8(low, high)
    }

    /// Reads the operand byte at the program counter and moves past it.
    fn fetch_operand(&mut self) -> (r: u8)
        requires
            old(self).wf(),
        ensures
            final(self).wf(),
            r == operand(old(self)@, 0),
            final(self)@ == (CpuState { pc: add16(old(self)@.pc, 1), ..old(self)@ }),
    {
        let value = self.read(self.program_counter, None);
        self.program_counter = self.program_counter.wrapping_add(1);
        value
    }

    /// Resolves the effective address of an address-form mode, consuming its
    /// operand bytes.
    pub fn get_address_from_mode(&mut self, mode: &AddressingMode) -> (r: u16)
        requires
            old(self).wf(),
            is_address_mode(*mode),
        ensures
            final(self).wf(),
            r == effective_address(*mode, old(self)@),
            final(self)@ == advance(old(self)@, *mode),
    {
        match mode {
            AddressingMode::ZeroPage => self.fetch_operand() as u16,
            AddressingMode::ZeroPageX => self.resolve_zero_page_indexed(self.register_x),
            AddressingMode::ZeroPageY => self.resolve_zero_page_indexed(self.register_y),
            AddressingMode::Absolute => self.resolve_absolute_indexed(0),
            AddressingMode::AbsoluteX => self.resolve_absolute_indexed(self.register_x),
            AddressingMode::AbsoluteY => self.resolve_absolute_indexed(self.register_y),
            AddressingMode::IndirectX => {
                let pointer = self.resolve_zero_page_indexed(self.register_x);
                self.get_address_indirect(pointer)
            },
            // IndirectY, the one address-form mode left.
            _ => {
                let pointer = self.fetch_operand();
                self.get_address_indirect(pointer as u16).wrapping_add(self.register_y as u16)
            },
        }
    }

    /// The operand byte plus `index`, wrapped within page zero.
    fn resolve_zero_page_indexed(&mut self, index: u8) -> (r: u16)
        requires
            old(self).wf(),
        ensures
            final(self).wf(),
            r == add8(operand(old(self)@, 0), index) as u16,
            final(self)@ == (CpuState { pc: add16(old(self)@.pc, 1), ..old(self)@ }),
    {
        let base = self.fetch_operand();
        base.wrapping_add(index) as u16
    }

    /// The two operand bytes as a little-endian address, plus `index` with
    /// 16-bit wrap-around.
    fn resolve_absolute_indexed(&mut self, index: u8) -> (r: u16)
        requires
            old(self).wf(),
        ensures
            final(self).wf(),
            r == add16(word(operand(old(self)@, 0), operand(old(self)@, 1)), index as u16),
            final(self)@ == (CpuState { pc: add16(old(self)@.pc, 2), ..old(self)@ }),
    {
        let low = self.fetch_operand();
        let high = self.fetch_operand();
        Self::combine_u8(low, high).wrapping_add(index as u16)
    }

    /// Resolves the operand value of a value-form mode, consuming its
    /// operand bytes.
    pub fn get_addressed_data(&mut self, mode: &AddressingMode) -> (r: u8)
        requires
            old(self).wf(),
            is_value_mode(*mode),
        ensures
            final(self).wf(),
            r == operand_value(*mode, old(self)@),
            final(self)@ == advance(old(self)@, *mode),
    {
        match mode {
            AddressingMode::Accumulator => self.register_a,
            AddressingMode::Immediate => self.fetch_operand(),
            _ => {
                let address = self.get_address_from_mode(mode);
                self.read(address, None)
            },
        }
    }

    /// Whether `mnemonic` may run in `mode`.
    fn mode_is_legal(mnemonic: Mnemonic, mode: AddressingMode) -> (r: bool)
        ensures
            r == legal_mode(mnemonic, mode),
    {
        match mnemonic {
            Mnemonic::Lda => matches!(mode, AddressingMode::Immediate | AddressingMode::ZeroPage
                | AddressingMode::ZeroPageX | AddressingMode::Absolute | AddressingMode::AbsoluteX
                | AddressingMode::AbsoluteY | AddressingMode::IndirectX | AddressingMode::IndirectY),
            Mnemonic::Sta => matches!(mode, AddressingMode::ZeroPage | AddressingMode::ZeroPageX
                | AddressingMode::Absolute | AddressingMode::AbsoluteX | AddressingMode::AbsoluteY
                | AddressingMode::IndirectX | AddressingMode::IndirectY),
            Mnemonic::Ldx => matches!(mode, AddressingMode::Immediate | AddressingMode::ZeroPage
                | AddressingMode::ZeroPageY | AddressingMode::Absolute | AddressingMode::AbsoluteY),
            Mnemonic::Ldy => matches!(mode, AddressingMode::Immediate | AddressingMode::ZeroPage
                | AddressingMode::ZeroPageX | AddressingMode::Absolute | AddressingMode::AbsoluteX),
            Mnemonic::Stx => matches!(mode, AddressingMode::ZeroPage | AddressingMode::ZeroPageY
                | AddressingMode::Absolute),
            Mnemonic::Sty => matches!(mode, AddressingMode::ZeroPage | AddressingMode::ZeroPageX
                | AddressingMode::Absolute),
            Mnemonic::Unimplemented => false,
        }
    }

    /// Sets the bit of `flag` in the status byte.
    pub fn set_status_bit(&mut self, flag: StatusFlag)
        ensures
            final(self)@ == (CpuState { status: old(self)@.status | flag_mask(flag), ..old(self)@ }),
            final(self).wf() == old(self).wf(),
    {
        self.status = self.status | flag.mask();
    }

    /// Whether the bit of `flag` is set in the status byte.
    pub fn test_status_bit(&self, flag: StatusFlag) -> (r: bool)
        ensures
            r == flag_is_set(self.status, flag),
    {
        self.status & flag.mask() != 0
    }

    /// Clears the bit of `flag` in the status byte.
    pub fn clear_status_bit(&mut self, flag: StatusFlag)
        ensures
            final(self)@ == (CpuState { status: old(self)@.status & !flag_mask(flag), ..old(self)@ }),
            final(self).wf() == old(self).wf(),
    {
        self.status = self.status & !flag.mask();
    }

    /// Sets zero and negative from a freshly loaded value.
    fn update_load_flags(&mut self, value: u8)
        ensures
            final(self)@ == (CpuState { status: load_flags(old(self)@.status, value), ..old(self)@ }),
            final(self).wf() == old(self).wf(),
    {
        if value == 0 {
            self.set_status_bit(StatusFlag::Zero);
        } else {
            self.clear_status_bit(StatusFlag::Zero);
        }
        if value & 0x80 != 0 {
            self.set_status_bit(StatusFlag::Negative);
        } else {
            self.clear_status_bit(StatusFlag::Negative);
        }
    }

    /// Loads register `r` from the operand of `mode` and updates the flags.
    fn load(&mut self, r: Register, mode: &AddressingMode)
        requires
            old(self).wf(),
            is_value_mode(*mode),
        ensures
            final(self).wf(),
            final(self)@ == load_spec(old(self)@, r, *mode),
    {
        let value = self.get_addressed_data(mode);
        match r {
            Register::A => self.register_a = value,
            Register::X => self.register_x = value,
            Register::Y => self.register_y = value,
        }
        self.update_load_flags(value);
    }

    /// Writes register `r` at the effective address of `mode`.
    fn store(&mut self, r: Register, mode: &AddressingMode)
        requires
            old(self).wf(),
            is_address_mode(*mode),
        ensures
            final(self).wf(),
            final(self)@ == store_spec(old(self)@, r, *mode),
    {
        let value = match r {
            Register::A => self.register_a,
            Register::X => self.register_x,
            Register::Y => self.register_y,
        };
        let address = self.get_address_from_mode(mode);
        self.write(address, value);
    }

    /// Runs `mnemonic` in `mode`; an illegal mode is refused before any effect.
    fn execute(&mut self, mnemonic: Mnemonic, mode: &AddressingMode) -> (r: Result<(), CpuError>)
        requires
            old(self).wf(),
        ensures
            final(self).wf(),
            match instruction_spec(old(self)@, mnemonic, *mode) {
                Ok(t) => r == Ok::<(), CpuError>(()) && final(self)@ == t,
                Err(e) => r == Err::<(), CpuError>(e) && final(self)@ == old(self)@,
            },
    {
        if !Self::mode_is_legal(mnemonic, *mode) {
            return Err(CpuError::InvalidAddressingMode { mnemonic, mode: *mode });
        }
        match mnemonic {
            Mnemonic::Lda => self.load(Register::A, mode),
            Mnemonic::Ldx => self.load(Register::X, mode),
            Mnemonic::Ldy => self.load(Register::Y, mode),
            Mnemonic::Sta => self.store(Register::A, mode),
            Mnemonic::Stx => self.store(Register::X, mode),
            _ => self.store(Register::Y, mode),
        }
        Ok(())
    }

    /// Load accumulator in `mode`.
    pub fn LDA(&mut self, mode: &AddressingMode) -> (r: Result<(), CpuError>)
        requires
            old(self).wf(),
        ensures
            final(self).wf(),
            match instruction_spec(old(self)@, Mnemonic::Lda, *mode) {
                Ok(t) => r == Ok::<(), CpuError>(()) && final(self)@ == t,
                Err(e) => r == Err::<(), CpuError>(e) && final(self)@ == old(self)@,
            },
    {
        self.execute(Mnemonic::Lda, mode)
    }

    /// Store accumulator in `mode`.
    pub fn STA(&mut self, mode: &AddressingMode) -> (r: Result<(), CpuError>)
        requires
            old(self).wf(),
        ensures
            final(self).wf(),
            match instruction_spec(old(self)@, Mnemonic::Sta, *mode) {
                Ok(t) => r == Ok::<(), CpuError>(()) && final(self)@ == t,
                Err(e) => r == Err::<(), CpuError>(e) && final(self)@ == old(self)@,
            },
    {
        self.execute(Mnemonic::Sta, mode)
    }

    /// Load X in `mode`.
    pub fn LDX(&mut self, mode: &AddressingMode) -> (r: Result<(), CpuError>)
        requires
            old(self).wf(),
        ensures
            final(self).wf(),
            match instruction_spec(old(self)@, Mnemonic::Ldx, *mode) {
                Ok(t) => r == Ok::<(), CpuError>(()) && final(self)@ == t,
                Err(e) => r == Err::<(), CpuError>(e) && final(self)@ == old(self)@,
            },
    {
        self.execute(Mnemonic::Ldx, mode)
    }

    /// Store X in `mode`.
    pub fn STX(&mut self, mode: &AddressingMode) -> (r: Result<(), CpuError>)
        requires
            old(self).wf(),
        ensures
            final(self).wf(),
            match instruction_spec(old(self)@, Mnemonic::Stx, *mode) {
                Ok(t) => r == Ok::<(), CpuError>(()) && final(self)@ == t,
                Err(e) => r == Err::<(), CpuError>(e) && final(self)@ == old(self)@,
            },
    {
        self.execute(Mnemonic::Stx, mode)
    }

    /// Load Y in `mode`.
    pub fn LDY(&mut self, mode: &AddressingMode) -> (r: Result<(), CpuError>)
        requires
            old(self).wf(),
        ensures
            final(self).wf(),
            match instruction_spec(old(self)@, Mnemonic::Ldy, *mode) {
                Ok(t) => r == Ok::<(), CpuError>(()) && final(self)@ == t,
                Err(e) => r == Err::<(), CpuError>(e) && final(self)@ == old(self)@,
            },
    {
        self.execute(Mnemonic::Ldy, mode)
    }

    /// Store Y in `mode`.
    pub fn STY(&mut self, mode: &AddressingMode) -> (r: Result<(), CpuError>)
        requires
            old(self).wf(),
        ensures
            final(self).wf(),
            match instruction_spec(old(self)@, Mnemonic::Sty, *mode) {
                Ok(t) => r == Ok::<(), CpuError>(()) && final(self)@ == t,
                Err(e) => r == Err::<(), CpuError>(e) && final(self)@ == old(self)@,
            },
    {
        self.execute(Mnemonic::Sty, mode)
    }

    /// Runs the opcode byte `operation`, whose address is one before the
    /// program counter, through its table entry and returns the cycles it
    /// took. An unimplemented opcode changes nothing.
    pub fn run_operation(&mut self, operation: u8) -> (r: Result<u8, CpuError>)
        requires
            old(self).wf(),
        ensures
            final(self).wf(),
            opcode_entry(operation).mnemonic == Mnemonic::Unimplemented ==> r == Err::<u8, CpuError>(
                CpuError::UnimplementedOpcode {
                    opcode: operation,
                    program_counter: add16(old(self)@.pc, 0xFFFF),
                },
            ) && final(self)@ == old(self)@,
            opcode_entry(operation).mnemonic != Mnemonic::Unimplemented ==> r == Ok::<u8, CpuError>(
                STEP_CYCLES,
            ) && instruction_spec(old(self)@, opcode_entry(operation).mnemonic, opcode_entry(
                operation,
            ).mode) == Ok::<CpuState, CpuError>(final(self)@),
    {
        let entry = decode(operation);
        if entry.mnemonic == Mnemonic::Unimplemented {
            return Err(
                CpuError::UnimplementedOpcode {
                    opcode: operation,
                    program_counter: self.program_counter.wrapping_sub(1),
                },
            );
        }
        match self.execute(entry.mnemonic, &entry.mode) {
            Ok(()) => Ok(STEP_CYCLES),
            Err(e) => Err(e),
        }
    }

    /// Fetches the opcode byte at the program counter, moves past it and runs
    /// it. On an error the processor is left exactly as it was.
    pub fn step(&mut self) -> (r: Result<Step, CpuError>)
        requires
            old(self).wf(),
        ensures
            final(self).wf(),
            match step_spec(old(self)@) {
                Ok(t) => r == Ok::<Step, CpuError>(Step { cycles: STEP_CYCLES, state: RunState::Running })
                    && final(self)@ == t,
                Err(e) => r == Err::<Step, CpuError>(e) && final(self)@ == old(self)@,
            },
    {
        let at = self.program_counter;
        let opcode = self.read(at, None);
        self.program_counter = at.wrapping_add(1);
        match self.run_operation(opcode) {
            Ok(cycles) => Ok(Step { cycles, state: RunState::Running }),
            Err(e) => {
                self.program_counter = at;
                Err(e)
            },
        }
    }

    /// Runs at most `max_steps` steps, stopping early at the first error or
    /// when a step halts. Returns the number of steps taken.
    pub fn run(&mut self, max_steps: u64) -> (r: Result<u64, CpuError>)
        requires
            old(self).wf(),
        ensures
            final(self).wf(),
            match run_spec(old(self)@, max_steps as nat) {
                Ok(t) => r == Ok::<u64, CpuError>(max_steps) && final(self)@ == t,
                Err((t, e)) => r == Err::<u64, CpuError>(e) && final(self)@ == t,
            },
    {
        let mut taken: u64 = 0;
        while taken < max_steps
            invariant
                self.wf(),
                taken <= max_steps,
                run_spec(old(self)@, taken as nat) == Ok::<CpuState, (CpuState, CpuError)>(self@),
            decreases max_steps - taken,
        {
            match self.step() {
                Ok(outcome) => {
                    taken = taken + 1;
                    if outcome.state == RunState::Halted {
                        return Ok(taken);
                    }
                },
                Err(e) => {
                    proof {
                        lemma_run_error_persists(old(self)@, (taken + 1) as nat, max_steps as nat);
                    }
                    return Err(e);
                },
            }
        }
        Ok(taken)
    }
}

} // verus!
