use yob::addressing::{ImmediateStorage, Storage};
use yob::cartridge::Cartridge;
use yob::cpu::{Cpu, CpuError};
use yob::registers::{Registers, CARRY_FLAG, ZERO_FLAG};

#[test]
fn ld_a_immediate_end_to_end() {
    // 0x3E 0x42 at PC: after one step A holds 0x42 and PC advanced by 2.
    let mut cpu = Cpu::new();
    cpu.store_byte(0x0, 0x3E).unwrap();
    cpu.store_byte(0x1, 0x42).unwrap();
    cpu.step().unwrap();
    assert_eq!(cpu.registers.a, 0x42);
    assert_eq!(cpu.registers.pc, 0x2);
}

#[test]
fn add_a_a_end_to_end() {
    // A = 0xFF, ADD A,A (0x87): A = 0xFE with the carry-out set.
    let mut cpu = Cpu::new();
    cpu.registers.a = 0xFF;
    cpu.execute_instruction(0x87).unwrap();
    assert_eq!(cpu.registers.a, 0xFE);
    assert_eq!(cpu.registers.carry(), 1);
}

#[test]
fn inc_preserves_carry() {
    let mut cpu = Cpu::new();
    cpu.registers.set_carry(true);
    cpu.registers.a = 0xFF;
    cpu.execute_instruction(0x3C).unwrap();
    assert_eq!(cpu.registers.a, 0);
    assert!(cpu.registers.test_flag(ZERO_FLAG));
    assert!(cpu.registers.test_flag(CARRY_FLAG));
}

#[test]
fn adc_carry_in_reaches_256() {
    let mut cpu = Cpu::new();
    cpu.registers.a = 0xFE;
    cpu.registers.b = 0x01;
    cpu.registers.set_carry(true);
    cpu.execute_instruction(0x88).unwrap();
    assert_eq!(cpu.registers.a, 0);
    assert_eq!(cpu.registers.carry(), 1);
}

#[test]
fn swap_nibbles_value() {
    let mut cpu = Cpu::new();
    cpu.registers.a = 0b1101_0000;
    cpu.execute_cb_instruction(0x37).unwrap();
    assert_eq!(cpu.registers.a, 0b0000_1101);
}

#[test]
fn stop_is_unimplemented() {
    let mut cpu = Cpu::new();
    assert_eq!(cpu.execute_instruction(0x10), Err(CpuError::UnimplementedOpcode(0x10)));
}

#[test]
fn daa_is_unimplemented() {
    let mut cpu = Cpu::new();
    assert_eq!(cpu.execute_instruction(0x27), Err(CpuError::UnimplementedOpcode(0x27)));
}

#[test]
fn illegal_opcode_reports_byte() {
    let mut cpu = Cpu::new();
    assert_eq!(cpu.execute_instruction(0xD3), Err(CpuError::IllegalOpcode(0xD3)));
    assert_eq!(cpu.execute_instruction(0xED), Err(CpuError::IllegalOpcode(0xED)));
}

#[test]
fn unimplemented_cb_opcode_reports_byte() {
    let mut cpu = Cpu::new();
    assert_eq!(cpu.execute_cb_instruction(0x00), Err(CpuError::UnimplementedOpcode(0x00)));
}

#[test]
fn immediate_storage_rejects_store() {
    let mut cpu = Cpu::new();
    assert_eq!(ImmediateStorage.store(&mut cpu, 0x42), Err(CpuError::InvalidStorageDirection));
}

#[test]
fn halt_sets_flag_only() {
    let mut cpu = Cpu::new();
    cpu.step().unwrap();
    assert!(!cpu.halt);
    let mut cpu = Cpu::new();
    cpu.store_byte(0x0, 0x76).unwrap();
    cpu.step().unwrap();
    assert!(cpu.halt);
    assert_eq!(cpu.registers.pc, 1);
}

#[test]
fn step_returns_bus_cycles() {
    // A NOP costs only its own fetch; LD A,n costs the fetch plus the operand.
    let mut cpu = Cpu::new();
    assert_eq!(cpu.step().unwrap(), 1);
    let mut cpu = Cpu::new();
    cpu.store_byte(0x0, 0x3E).unwrap();
    cpu.store_byte(0x1, 0x42).unwrap();
    assert_eq!(cpu.step().unwrap(), 2);
}

#[test]
fn interrupt_serviced_by_priority() {
    // With IME set and both V-Blank (bit 0) and LCD status (bit 1) pending,
    // the V-Blank vector wins; its flag bit is cleared and IME drops.
    let mut cpu = Cpu::new();
    cpu.interrupt = true;
    cpu.memory.interrupt_enable = 0x03;
    cpu.memory.interrupt_flags = 0x03;
    cpu.step().unwrap();
    assert_eq!(cpu.registers.pc, 0x40);
    assert_eq!(cpu.memory.interrupt_flags, 0x02);
    assert!(!cpu.interrupt);
    assert_eq!(cpu.pop_word().unwrap(), 0x1);
}

#[test]
fn interrupt_not_serviced_without_master_enable() {
    let mut cpu = Cpu::new();
    cpu.memory.interrupt_enable = 0x01;
    cpu.memory.interrupt_flags = 0x01;
    cpu.step().unwrap();
    assert_eq!(cpu.registers.pc, 0x1);
    assert_eq!(cpu.memory.interrupt_flags, 0x01);
}

#[test]
fn reti_restores_master_enable() {
    let mut cpu = Cpu::new();
    cpu.push_word(0x200).unwrap();
    cpu.store_byte(0x0, 0xD9).unwrap();
    // No interrupt pending, so servicing after the instruction is a no-op.
    cpu.step().unwrap();
    assert_eq!(cpu.registers.pc, 0x200);
    assert!(cpu.interrupt);
}

#[test]
fn reset_approximates_boot_hand_off() {
    let mut cpu = Cpu::new();
    cpu.registers.a = 0x55;
    cpu.registers.pc = 0x1234;
    cpu.reset();
    assert_eq!(cpu.registers.pc, 0x100);
    assert_eq!(cpu.registers.sp, 0xFFFE);
    assert_eq!(cpu.registers.a, 0);
}

#[test]
fn cartridge_rom_is_fetched_after_reset() {
    let mut rom = vec![0u8; 0x8000];
    rom[0x100] = 0x3E; // LD A, n
    rom[0x101] = 0x99;
    let mut cpu = Cpu::with_cartridge(Cartridge::from_rom(rom));
    cpu.reset();
    cpu.step().unwrap();
    assert_eq!(cpu.registers.a, 0x99);
    assert_eq!(cpu.registers.pc, 0x102);
}

#[test]
fn register_pairs_are_computed_from_backing_bytes() {
    let mut regs = Registers::new();
    regs.store_16(yob::registers::Register16::AF, 0xABCD);
    assert_eq!(regs.a, 0xAB);
    assert_eq!(regs.f, 0xCD);
    assert_eq!(regs.af(), 0xABCD);
    regs.b = 0x12;
    regs.c = 0x34;
    assert_eq!(regs.bc(), 0x1234);
    assert_eq!(regs.load_16(yob::registers::Register16::BC), 0x1234);
}

#[test]
fn gpu_step_rasterizes_and_flags_frame() {
    let mut cpu = Cpu::new();
    // One tile row: both bit planes have the high bit set, so the first
    // pixel takes the darkest shade while its neighbour stays lightest.
    cpu.memory.gpu.vram[0] = 0x80;
    cpu.memory.gpu.vram[1] = 0x80;
    cpu.memory.gpu.step(0);
    assert!(cpu.memory.gpu.new_frame);
    assert_eq!(cpu.memory.gpu.frame_content[0], 192);
    assert_eq!(cpu.memory.gpu.frame_content[3], 0);
}

#[test]
fn self_modifying_code_is_seen_on_next_fetch() {
    let mut cpu = Cpu::new();
    // First instruction stores A into the address the third fetch reads.
    cpu.registers.a = 0x3C; // INC A
    cpu.registers.store_16(yob::registers::Register16::HL, 0x0002);
    cpu.store_byte(0x0, 0x77).unwrap(); // LD (HL), A
    cpu.step().unwrap();
    assert_eq!(cpu.load_byte(0x0002).unwrap(), 0x3C);
    cpu.registers.a = 0x7;
    cpu.step().unwrap(); // NOP at 0x0001
    cpu.step().unwrap(); // the freshly written INC A
    assert_eq!(cpu.registers.a, 0x8);
}
