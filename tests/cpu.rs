use cpu6502::bus::Bus;
use cpu6502::cpu::{AddressingMode, CpuError, RunState, CPU};
use cpu6502::flags::StatusFlag;
use cpu6502::opcodes::{
    decode, Mnemonic, LDA_ABS, LDA_ABS_X, LDA_IMM, LDA_IND_X, LDA_IND_Y, LDA_ZP, LDA_ZP_X,
    LDX_IMM, LDX_ZP_Y, LDY_IMM, STA_ABS_Y, STA_ZP, STX_ZP, STY_ABS,
};

fn cpu_with(program: &[u8]) -> CPU {
    let mut bus = Bus::new();
    for (i, b) in program.iter().enumerate() {
        bus.write(i as u16, *b);
    }
    CPU::new(bus)
}

fn zero(cpu: &CPU) -> bool {
    cpu.test_status_bit(StatusFlag::Zero)
}

fn negative(cpu: &CPU) -> bool {
    cpu.test_status_bit(StatusFlag::Negative)
}

const OTHER_FLAGS: [StatusFlag; 6] = [
    StatusFlag::Carry,
    StatusFlag::InterruptDisable,
    StatusFlag::Decimal,
    StatusFlag::Break,
    StatusFlag::Unused,
    StatusFlag::Overflow,
];

#[test]
fn store_then_reload_program() {
    let mut cpu = cpu_with(&[LDA_IMM, 0x04, STA_ZP, 0x00, LDA_IMM, 0x00, LDA_ZP, 0x00]);
    cpu.step().unwrap();
    assert_eq!(cpu.register_a, 4);
    cpu.step().unwrap();
    assert_eq!(cpu.read(0x00, None), 4);
    cpu.step().unwrap();
    assert_eq!(cpu.register_a, 0);
    assert!(zero(&cpu));
    assert!(!negative(&cpu));
    let step = cpu.step().unwrap();
    assert_eq!(step.state, RunState::Running);
    assert_eq!(cpu.register_a, 4);
    assert_eq!(cpu.read(0x00, None), 4);
    assert!(!zero(&cpu));
    assert_eq!(cpu.program_counter, 8);
}

#[test]
fn immediate_loads_set_flags_for_every_register() {
    for op in [LDA_IMM, LDX_IMM, LDY_IMM] {
        for (value, z, n) in [(0x80u8, false, true), (0x00, true, false), (0x7F, false, false)] {
            let mut cpu = cpu_with(&[op, value]);
            cpu.status = 0xFF & !StatusFlag::Zero.mask() & !StatusFlag::Negative.mask();
            if value != 0 {
                cpu.status |= StatusFlag::Zero.mask();
            }
            cpu.step().unwrap();
            let reg = match op {
                LDA_IMM => cpu.register_a,
                LDX_IMM => cpu.register_x,
                _ => cpu.register_y,
            };
            assert_eq!(reg, value);
            assert_eq!(zero(&cpu), z);
            assert_eq!(negative(&cpu), n);
            for f in OTHER_FLAGS {
                assert!(cpu.test_status_bit(f));
            }
        }
    }
}

#[test]
fn unimplemented_opcode_changes_nothing() {
    let mut cpu = cpu_with(&[0x02]);
    cpu.register_a = 1;
    cpu.register_x = 2;
    cpu.register_y = 3;
    cpu.status = 0x5A;
    let err = cpu.step().unwrap_err();
    assert_eq!(err, CpuError::UnimplementedOpcode { opcode: 0x02, program_counter: 0 });
    assert_eq!(
        (cpu.register_a, cpu.register_x, cpu.register_y, cpu.status, cpu.program_counter),
        (1, 2, 3, 0x5A, 0)
    );
}

#[test]
fn run_stops_at_first_error() {
    let mut cpu = cpu_with(&[LDA_IMM, 0x09, LDX_IMM, 0x03]);
    let err = cpu.run(10).unwrap_err();
    assert_eq!(err, CpuError::UnimplementedOpcode { opcode: 0x00, program_counter: 4 });
    assert_eq!((cpu.register_a, cpu.register_x, cpu.program_counter), (9, 3, 4));
    let mut bounded = cpu_with(&[LDA_IMM, 0x09, LDX_IMM, 0x03]);
    assert_eq!(bounded.run(1), Ok(1));
    assert_eq!((bounded.register_a, bounded.register_x, bounded.program_counter), (9, 0, 2));
}

#[test]
fn resolution_advances_pc_by_operand_length() {
    let cases = [
        (AddressingMode::Accumulator, 0u16),
        (AddressingMode::Immediate, 1),
        (AddressingMode::ZeroPage, 1),
        (AddressingMode::ZeroPageX, 1),
        (AddressingMode::ZeroPageY, 1),
        (AddressingMode::IndirectX, 1),
        (AddressingMode::IndirectY, 1),
        (AddressingMode::Absolute, 2),
        (AddressingMode::AbsoluteX, 2),
        (AddressingMode::AbsoluteY, 2),
    ];
    for (mode, len) in cases {
        for bytes in [[0x00u8, 0x00], [0xFF, 0xFF], [0x12, 0x80]] {
            let mut cpu = cpu_with(&[0xEA, 0xEA, 0xEA, 0xEA]);
            cpu.write(0x10, bytes[0]);
            cpu.write(0x11, bytes[1]);
            cpu.program_counter = 0x10;
            cpu.get_addressed_data(&mode);
            assert_eq!(cpu.program_counter, 0x10 + len);
        }
    }
}

#[test]
fn program_counter_wraps_at_top_of_memory() {
    let mut cpu = cpu_with(&[]);
    cpu.write(0xFFFF, 0x34);
    cpu.write(0x0000, 0x12);
    cpu.program_counter = 0xFFFF;
    let addr = cpu.get_address_from_mode(&AddressingMode::Absolute);
    assert_eq!(addr, 0x1234);
    assert_eq!(cpu.program_counter, 0x0001);
}

#[test]
fn zero_page_indexed_wraps_within_page() {
    let mut cpu = cpu_with(&[LDA_ZP_X, 0xF0, LDX_ZP_Y, 0xFF]);
    cpu.register_x = 0x20;
    cpu.register_y = 0x01;
    cpu.write(0x0010, 0x55);
    cpu.write(0x0110, 0x99);
    cpu.write(0x0000, LDA_ZP_X);
    cpu.step().unwrap();
    assert_eq!(cpu.register_a, 0x55);
    cpu.step().unwrap();
    // 0xFF + 1 wraps to 0x00, which holds the first opcode byte.
    assert_eq!(cpu.register_x, LDA_ZP_X);
}

#[test]
fn absolute_indexed_crosses_page() {
    let mut cpu = cpu_with(&[LDA_ABS_X, 0xF0, 0x12]);
    cpu.register_x = 0x20;
    cpu.write(0x1310, 0x77);
    cpu.step().unwrap();
    assert_eq!(cpu.register_a, 0x77);
    let mut plain = cpu_with(&[0xEA, 0xF0, 0x12]);
    plain.program_counter = 1;
    assert_eq!(plain.get_address_from_mode(&AddressingMode::Absolute), 0x12F0);
    let mut wrap = cpu_with(&[0xEA, 0xFF, 0xFF]);
    wrap.program_counter = 1;
    wrap.register_y = 0x02;
    assert_eq!(wrap.get_address_from_mode(&AddressingMode::AbsoluteY), 0x0001);
}

#[test]
fn indirect_x_round_trip() {
    let target: u16 = 0xBEEF;
    let mut cpu = cpu_with(&[LDA_IND_X, 0x40]);
    cpu.register_x = 0x05;
    cpu.write(0x45, (target & 0xFF) as u8);
    cpu.write(0x46, (target >> 8) as u8);
    cpu.write(target, 0x42);
    cpu.step().unwrap();
    assert_eq!(cpu.register_a, 0x42);
    assert_eq!(cpu.program_counter, 2);
    assert_eq!(cpu.get_address_indirect(0x45), target);
}

#[test]
fn indirect_y_round_trip() {
    let target: u16 = 0x20F0;
    let mut cpu = cpu_with(&[LDA_IND_Y, 0x40]);
    cpu.register_y = 0x20;
    cpu.write(0x40, (target & 0xFF) as u8);
    cpu.write(0x41, (target >> 8) as u8);
    cpu.write(0x2110, 0x33);
    cpu.step().unwrap();
    assert_eq!(cpu.register_a, 0x33);
    assert_eq!(cpu.program_counter, 2);
}

#[test]
fn stores_keep_flags_and_loads_keep_memory() {
    let mut cpu = cpu_with(&[STA_ABS_Y, 0x00, 0x30, STX_ZP, 0x80, STY_ABS, 0x00, 0x40, LDA_ABS, 0x00, 0x30]);
    cpu.register_a = 0x00;
    cpu.register_x = 0x80;
    cpu.register_y = 0x05;
    cpu.status = 0b1010_0101;
    cpu.run(3).unwrap();
    assert_eq!(cpu.status, 0b1010_0101);
    assert_eq!(cpu.read(0x3005, None), 0x00);
    assert_eq!(cpu.read(0x0080, None), 0x80);
    assert_eq!(cpu.read(0x4000, None), 0x05);
    let before: Vec<u8> = (0..=0xFFFFu16).map(|a| cpu.read(a, None)).collect();
    cpu.step().unwrap();
    let after: Vec<u8> = (0..=0xFFFFu16).map(|a| cpu.read(a, None)).collect();
    assert_eq!(before, after);
}

#[test]
fn illegal_mode_is_refused_without_effect() {
    let mut cpu = cpu_with(&[0x40, 0x00]);
    cpu.status = 0x11;
    let err = cpu.LDX(&AddressingMode::IndirectX).unwrap_err();
    assert_eq!(
        err,
        CpuError::InvalidAddressingMode { mnemonic: Mnemonic::Ldx, mode: AddressingMode::IndirectX }
    );
    assert_eq!((cpu.register_x, cpu.status, cpu.program_counter), (0, 0x11, 0));
    assert!(cpu.STA(&AddressingMode::Immediate).is_err());
    assert!(cpu.LDY(&AddressingMode::IndirectY).is_err());
    assert!(cpu.STY(&AddressingMode::AbsoluteX).is_err());
    assert_eq!(cpu.program_counter, 0);
    assert!(cpu.LDA(&AddressingMode::Immediate).is_ok());
    assert_eq!(cpu.register_a, 0x40);
}

#[test]
fn flags_have_distinct_bits() {
    let flags = [
        StatusFlag::Carry,
        StatusFlag::Zero,
        StatusFlag::InterruptDisable,
        StatusFlag::Decimal,
        StatusFlag::Break,
        StatusFlag::Unused,
        StatusFlag::Overflow,
        StatusFlag::Negative,
    ];
    let mut all = 0u8;
    for f in flags {
        assert_eq!(f.mask().count_ones(), 1);
        assert_eq!(all & f.mask(), 0);
        all |= f.mask();
    }
    assert_eq!(all, 0xFF);
    assert_eq!(StatusFlag::Negative.mask(), 0x80);
    assert_eq!(StatusFlag::Carry.mask(), 0x01);
}

#[test]
fn set_and_clear_status_bits() {
    let mut cpu = cpu_with(&[]);
    cpu.set_status_bit(StatusFlag::Overflow);
    cpu.set_status_bit(StatusFlag::Carry);
    assert_eq!(cpu.status, 0x41);
    assert!(cpu.test_status_bit(StatusFlag::Overflow));
    assert!(cpu.test_status_bit(StatusFlag::Carry));
    assert!(!cpu.test_status_bit(StatusFlag::Zero));
    cpu.clear_status_bit(StatusFlag::Carry);
    assert_eq!(cpu.status, 0x40);
    assert!(!cpu.test_status_bit(StatusFlag::Carry));
    assert!(cpu.test_status_bit(StatusFlag::Overflow));
}

#[test]
fn combine_is_little_endian() {
    assert_eq!(CPU::combine_u8(0x34, 0x12), 0x1234);
    assert_eq!(CPU::combine_u8(0xFF, 0x00), 0x00FF);
}

#[test]
fn decode_table_entries() {
    assert_eq!(decode(LDA_IMM).mnemonic, Mnemonic::Lda);
    assert_eq!(decode(LDA_IMM).mode, AddressingMode::Immediate);
    assert_eq!(decode(STY_ABS).mnemonic, Mnemonic::Sty);
    assert_eq!(decode(LDX_ZP_Y).mode, AddressingMode::ZeroPageY);
    assert_eq!(decode(0xFF).mnemonic, Mnemonic::Unimplemented);
    assert_eq!(decode(0xFF).mode, AddressingMode::Unimplemented);
    let implemented = (0..=255u8).filter(|b| decode(*b).mnemonic != Mnemonic::Unimplemented).count();
    assert_eq!(implemented, 31);
}

#[test]
fn run_operation_reports_opcode_address() {
    let mut cpu = cpu_with(&[]);
    cpu.program_counter = 0x0300;
    let err = cpu.run_operation(0xFF).unwrap_err();
    assert_eq!(err, CpuError::UnimplementedOpcode { opcode: 0xFF, program_counter: 0x02FF });
    assert_eq!(cpu.program_counter, 0x0300);
}

#[test]
fn accumulator_refuses_zero_page_y() {
    let mut cpu = cpu_with(&[0x10, 0x00]);
    cpu.register_a = 0x66;
    cpu.register_y = 0x01;
    cpu.status = 0x24;
    cpu.write(0x11, 0x99);
    let err = cpu.LDA(&AddressingMode::ZeroPageY).unwrap_err();
    assert_eq!(
        err,
        CpuError::InvalidAddressingMode { mnemonic: Mnemonic::Lda, mode: AddressingMode::ZeroPageY }
    );
    assert_eq!((cpu.register_a, cpu.status, cpu.program_counter), (0x66, 0x24, 0));
    let err = cpu.STA(&AddressingMode::ZeroPageY).unwrap_err();
    assert_eq!(
        err,
        CpuError::InvalidAddressingMode { mnemonic: Mnemonic::Sta, mode: AddressingMode::ZeroPageY }
    );
    assert_eq!(cpu.read(0x11, None), 0x99);
    assert_eq!(cpu.program_counter, 0);
    for mode in [
        AddressingMode::Accumulator,
        AddressingMode::Relative,
        AddressingMode::Indirect,
        AddressingMode::Implied,
        AddressingMode::Unimplemented,
    ] {
        assert_eq!(
            cpu.LDA(&mode),
            Err(CpuError::InvalidAddressingMode { mnemonic: Mnemonic::Lda, mode })
        );
    }
    assert_eq!((cpu.register_a, cpu.status, cpu.program_counter), (0x66, 0x24, 0));
    assert!(cpu.LDA(&AddressingMode::ZeroPageX).is_ok());
    assert_eq!(cpu.register_a, 0x00);
}
