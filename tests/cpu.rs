use nes_cpu::cpu::{AddressingMode, CpuError, CPU};
use nes_cpu::flags::update_zero_and_negative_flags;
use nes_cpu::opcodes::{lookup, Mnemonic, OpCode};

#[test]
fn cpu_test_0xa9_lda_immediate_load_data() {
    let mut cpu = CPU::new();
    cpu.load_and_run(vec![0xa9, 0x05, 0x00]).unwrap();

    assert_eq!(cpu.register_a, 0x05);
    assert!(cpu.status & 0b0000_0010 == 0);
    assert!(cpu.status & 0b1000_0000 == 0);
}

#[test]
fn cpu_test_0xa9_lda_zero_flag() {
    let mut cpu = CPU::new();
    cpu.load_and_run(vec![0xa9, 0x00, 0x00]).unwrap();

    assert!(cpu.status & 0b0000_0010 == 0b10)
}

#[test]
fn test_0xaa_tax_move_a_to_x() {
    let mut cpu = CPU::new();
    cpu.load_and_run(vec![0xa9, 0x0A, 0xaa, 0x00]).unwrap();

    assert_eq!(cpu.register_x, 10)
}

#[test]
fn test_5_ops_working_together() {
    let mut cpu = CPU::new();
    cpu.load_and_run(vec![0xa9, 0xc0, 0xaa, 0xe8, 0x00]).unwrap();

    assert_eq!(cpu.register_x, 0xc1)
}

#[test]
fn test_inx_overflow() {
    let mut cpu = CPU::new();
    cpu.load_and_run(vec![0xa9, 0xff, 0xaa, 0xe8, 0xe8, 0x00]).unwrap();

    assert_eq!(cpu.register_x, 1)
}

#[test]
fn test_lda_from_memory() {
    let mut cpu = CPU::new();
    cpu.mem_write(0x10, 0x55);

    cpu.load_and_run(vec![0xa5, 0x10, 0x00]).unwrap();

    assert_eq!(cpu.register_a, 0x55);
}

#[test]
fn lda_immediate_sets_flags_for_sample_values() {
    for v in [0x00u8, 0x01, 0x7f, 0x80, 0xc3, 0xff] {
        let mut cpu = CPU::new();
        assert_eq!(cpu.load_and_run(vec![0xa9, v, 0x00]), Ok(()));
        assert_eq!(cpu.register_a, v);
        assert_eq!(cpu.status & 0b0000_0010 != 0, v == 0);
        assert_eq!(cpu.status & 0b1000_0000 != 0, v & 0x80 != 0);
    }
}

#[test]
fn halts_with_counter_after_break() {
    let mut cpu = CPU::new();
    cpu.load_and_run(vec![0xa9, 0x05, 0x00]).unwrap();
    assert_eq!(cpu.program_counter, 0x8003);
}

#[test]
fn sta_stores_accumulator() {
    let mut cpu = CPU::new();
    cpu.load_and_run(vec![0xa9, 0x42, 0x85, 0x10, 0x8d, 0x34, 0x12, 0x00]).unwrap();
    assert_eq!(cpu.mem_read(0x10), 0x42);
    assert_eq!(cpu.mem_read(0x1234), 0x42);
}

#[test]
fn lda_absolute_x_wraps_address() {
    let mut cpu = CPU::new();
    cpu.mem_write(0x0001, 0x99);
    // x = 2; LDA $FFFF,X reads 0x0001
    cpu.load_and_run(vec![0xa9, 0x01, 0xaa, 0xe8, 0xbd, 0xff, 0xff, 0x00]).unwrap();
    assert_eq!(cpu.register_a, 0x99);
}

#[test]
fn unrecognized_opcode_reports_byte_and_address() {
    let mut cpu = CPU::new();
    let r = cpu.load_and_run(vec![0xa9, 0x01, 0x02, 0x00]);
    assert_eq!(r, Err(CpuError::UnrecognizedOpcode { opcode: 0x02, address: 0x8002 }));
    assert_eq!(cpu.program_counter, 0x8002);
    assert_eq!(cpu.register_a, 0x01);
}

#[test]
fn step_limit_stops_run() {
    let mut cpu = CPU::new();
    cpu.load(vec![0xe8, 0xe8, 0x00]);
    cpu.reset();
    assert_eq!(cpu.run_with_limit(2), Err(CpuError::StepLimitReached));
    assert_eq!(cpu.register_x, 2);
    assert_eq!(cpu.run_with_limit(1), Ok(()));
}

#[test]
fn step_reports_halt() {
    let mut cpu = CPU::new();
    cpu.load(vec![0xe8, 0x00]);
    cpu.reset();
    assert_eq!(cpu.step(), Ok(false));
    assert_eq!(cpu.program_counter, 0x8001);
    assert_eq!(cpu.step(), Ok(true));
}

#[test]
fn reserved_status_bits_are_kept() {
    let mut cpu = CPU::new();
    cpu.load(vec![0xa9, 0x00, 0x00]);
    cpu.reset();
    cpu.status = 0b0100_0001;
    assert_eq!(cpu.step(), Ok(false));
    assert_eq!(cpu.status, 0b0100_0011);
}

#[test]
fn reset_twice_gives_same_state() {
    let mut cpu = CPU::new();
    cpu.load(vec![0xa9, 0x80, 0x00]);
    cpu.run_with_limit(0).unwrap_err();
    cpu.register_a = 7;
    cpu.register_x = 8;
    cpu.register_y = 9;
    cpu.status = 0xff;
    cpu.reset();
    assert_eq!((cpu.register_a, cpu.register_x, cpu.register_y, cpu.status), (0, 0, 0, 0));
    assert_eq!(cpu.program_counter, 0x8000);
    cpu.reset();
    assert_eq!((cpu.register_a, cpu.register_x, cpu.register_y, cpu.status), (0, 0, 0, 0));
    assert_eq!(cpu.program_counter, 0x8000);
}

#[test]
fn load_sets_reset_vector() {
    let mut cpu = CPU::new();
    cpu.load(vec![0x01, 0x02]);
    assert_eq!(cpu.mem_read(0xfffc), 0x00);
    assert_eq!(cpu.mem_read(0xfffd), 0x80);
    assert_eq!(cpu.mem_read_u16(0xfffc), 0x8000);
    assert_eq!(cpu.mem_read(0x8001), 0x02);
}

#[test]
fn word_round_trip() {
    let mut cpu = CPU::new();
    for (addr, x) in [(0x0000u16, 0x1234u16), (0x0200, 0xffff), (0x7fff, 0x0001), (0xffff, 0xabcd)] {
        cpu.mem_write_u16(addr, x);
        assert_eq!(cpu.mem_read_u16(addr), x);
    }
}

#[test]
fn word_is_little_endian() {
    let mut cpu = CPU::new();
    cpu.mem_write_u16(0x0300, 0x1234);
    assert_eq!(cpu.mem_read(0x0300), 0x34);
    assert_eq!(cpu.mem_read(0x0301), 0x12);
    cpu.mem_write_u16(0xffff, 0xabcd);
    assert_eq!(cpu.mem_read(0xffff), 0xcd);
    assert_eq!(cpu.mem_read(0x0000), 0xab);
}

#[test]
fn new_cpu_is_zeroed() {
    let cpu = CPU::new();
    assert_eq!((cpu.register_a, cpu.register_x, cpu.register_y, cpu.status, cpu.program_counter), (0, 0, 0, 0, 0));
    assert_eq!(cpu.mem_read(0xffff), 0);
    assert_eq!(cpu.mem_read(0x1234), 0);
}

#[test]
fn operand_addresses() {
    let mut cpu = CPU::new();
    cpu.program_counter = 0x0400;
    cpu.mem_write(0x0400, 0xf0);
    cpu.mem_write(0x0401, 0x12);
    cpu.register_x = 0x20;
    cpu.register_y = 0x30;
    assert_eq!(cpu.get_operand_address(&AddressingMode::Immediate), 0x0400);
    assert_eq!(cpu.get_operand_address(&AddressingMode::ZeroPage), 0x00f0);
    assert_eq!(cpu.get_operand_address(&AddressingMode::ZeroPage_X), 0x0010);
    assert_eq!(cpu.get_operand_address(&AddressingMode::ZeroPage_Y), 0x0020);
    assert_eq!(cpu.get_operand_address(&AddressingMode::Absolute), 0x12f0);
    assert_eq!(cpu.get_operand_address(&AddressingMode::Absolute_X), 0x1310);
    assert_eq!(cpu.get_operand_address(&AddressingMode::Absolute_Y), 0x1320);
}

#[test]
fn indirect_operand_addresses() {
    let mut cpu = CPU::new();
    cpu.program_counter = 0x0400;
    cpu.mem_write(0x0400, 0xfe);
    cpu.register_x = 0x01;
    cpu.register_y = 0x05;
    // Indirect,X: pointer 0xff; high byte wraps to 0x00
    cpu.mem_write(0x00ff, 0x34);
    cpu.mem_write(0x0000, 0x12);
    cpu.mem_write(0x0100, 0x77);
    assert_eq!(cpu.get_operand_address(&AddressingMode::Indirect_X), 0x1234);
    // Indirect,Y: pointer 0xfe holds 0x3400 + y
    cpu.mem_write(0x00fe, 0x00);
    assert_eq!(cpu.get_operand_address(&AddressingMode::Indirect_Y), 0x3405);
}

#[test]
fn opcode_table_lookup() {
    assert_eq!(
        lookup(0xad),
        Some(OpCode { code: 0xad, mnemonic: Mnemonic::LDA, len: 3, mode: AddressingMode::Absolute })
    );
    assert_eq!(
        lookup(0x91),
        Some(OpCode { code: 0x91, mnemonic: Mnemonic::STA, len: 2, mode: AddressingMode::Indirect_Y })
    );
    assert_eq!(lookup(0x00).map(|o| o.mnemonic), Some(Mnemonic::BRK));
    assert_eq!(lookup(0x02), None);
}

#[test]
fn flag_rule_values() {
    assert_eq!(update_zero_and_negative_flags(0x00, 0x00), 0x02);
    assert_eq!(update_zero_and_negative_flags(0x00, 0x80), 0x80);
    assert_eq!(update_zero_and_negative_flags(0xff, 0x01), 0x7d);
    assert_eq!(update_zero_and_negative_flags(0x82, 0x05), 0x00);
}
