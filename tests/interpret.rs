use nes_cpu::cpu::CpuError;
use nes_cpu::CPU;

#[test]
fn lib_test_0xa9_lda_immediate_load_data() {
    let mut cpu = CPU::new();
    cpu.interpret(vec![0xa9, 0x05, 0x00]).unwrap();

    assert_eq!(cpu.register_a, 0x05);
    assert!(cpu.status & 0b0000_0010 == 0b00);
    assert!(cpu.status & 0b1000_0000 == 0);
}

#[test]
fn lib_test_0xa9_lda_zero_flag() {
    let mut cpu = CPU::new();
    cpu.interpret(vec![0xa9, 0x00, 0x00]).unwrap();

    assert!(cpu.status & 0b0000_0010 == 0b10);
}

#[test]
fn interpret_negative_then_positive() {
    let mut cpu = CPU::new();
    cpu.interpret(vec![0xa9, 0x90, 0xa9, 0x01, 0x00]).unwrap();
    assert_eq!(cpu.register_a, 0x01);
    assert_eq!(cpu.status, 0x00);
    assert_eq!(cpu.program_counter, 5);
}

#[test]
fn interpret_errors() {
    let mut cpu = CPU::new();
    assert_eq!(cpu.interpret(vec![]), Err(CpuError::ProgramOverrun { address: 0 }));
    assert_eq!(cpu.interpret(vec![0xa9]), Err(CpuError::ProgramOverrun { address: 0 }));
    assert_eq!(cpu.interpret(vec![0xa9, 0x01]), Err(CpuError::ProgramOverrun { address: 2 }));
    assert_eq!(
        cpu.interpret(vec![0xa9, 0x01, 0xe8]),
        Err(CpuError::UnrecognizedOpcode { opcode: 0xe8, address: 2 })
    );
}
