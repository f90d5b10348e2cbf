use yob::cpu::{Cpu, CpuError};

#[test]
fn vram_store_is_observable_via_gpu_not_work_ram() {
    let mut cpu = Cpu::new();
    cpu.store_byte(0x8000, 0xAB).unwrap();
    assert_eq!(cpu.memory.gpu.vram[0], 0xAB);
    assert_eq!(cpu.memory.work_ram[0], 0);
    assert_eq!(cpu.load_byte(0x8000).unwrap(), 0xAB);
}

#[test]
fn work_ram_store_does_not_alias_vram() {
    let mut cpu = Cpu::new();
    cpu.store_byte(0x8000, 0xAB).unwrap();
    cpu.store_byte(0xC000, 0xCD).unwrap();
    assert_eq!(cpu.memory.work_ram[0], 0xCD);
    assert_eq!(cpu.memory.gpu.vram[0], 0xAB);
    assert_eq!(cpu.load_byte(0xC000).unwrap(), 0xCD);
    assert_eq!(cpu.load_byte(0x8000).unwrap(), 0xAB);
}

#[test]
fn echo_range_mirrors_low_rom() {
    let mut cpu = Cpu::new();
    cpu.store_byte(0x0005, 0x77).unwrap();
    assert_eq!(cpu.load_byte(0xE005).unwrap(), 0x77);
    cpu.store_byte(0xE006, 0x66).unwrap();
    assert_eq!(cpu.load_byte(0x0006).unwrap(), 0x66);
}

#[test]
fn unusable_range_reads_zero_and_drops_writes() {
    let mut cpu = Cpu::new();
    cpu.store_byte(0xFEA0, 0x55).unwrap();
    assert_eq!(cpu.load_byte(0xFEA0).unwrap(), 0);
}

#[test]
fn oam_store_round_trips() {
    let mut cpu = Cpu::new();
    cpu.store_byte(0xFE00, 0x99).unwrap();
    assert_eq!(cpu.memory.gpu.oam[0], 0x99);
    assert_eq!(cpu.load_byte(0xFE00).unwrap(), 0x99);
}

#[test]
fn high_ram_round_trips() {
    let mut cpu = Cpu::new();
    cpu.store_byte(0xFF80, 0x21).unwrap();
    cpu.store_byte(0xFFFE, 0x43).unwrap();
    assert_eq!(cpu.load_byte(0xFF80).unwrap(), 0x21);
    assert_eq!(cpu.load_byte(0xFFFE).unwrap(), 0x43);
}

#[test]
fn interrupt_registers_round_trip() {
    let mut cpu = Cpu::new();
    cpu.store_byte(0xFFFF, 0x1F).unwrap();
    cpu.store_byte(0xFF0F, 0x01).unwrap();
    assert_eq!(cpu.memory.interrupt_enable, 0x1F);
    assert_eq!(cpu.memory.interrupt_flags, 0x01);
    assert_eq!(cpu.load_byte(0xFFFF).unwrap(), 0x1F);
    assert_eq!(cpu.load_byte(0xFF0F).unwrap(), 0x01);
}

#[test]
fn scanline_register_resets_on_write() {
    let mut cpu = Cpu::new();
    assert_eq!(cpu.load_byte(0xFF44).unwrap(), 0x91);
    cpu.store_byte(0xFF44, 0x55).unwrap();
    assert_eq!(cpu.memory.gpu.ly, 0);
    assert_eq!(cpu.load_byte(0xFF44).unwrap(), 0);
}

#[test]
fn lcd_registers_round_trip() {
    let mut cpu = Cpu::new();
    cpu.store_byte(0xFF42, 0x12).unwrap();
    cpu.store_byte(0xFF43, 0x34).unwrap();
    cpu.store_byte(0xFF47, 0xE4).unwrap();
    assert_eq!(cpu.load_byte(0xFF42).unwrap(), 0x12);
    assert_eq!(cpu.load_byte(0xFF43).unwrap(), 0x34);
    assert_eq!(cpu.load_byte(0xFF47).unwrap(), 0xE4);
}

#[test]
fn unassigned_io_reads_zero_and_accepts_writes() {
    let mut cpu = Cpu::new();
    assert_eq!(cpu.load_byte(0xFF00).unwrap(), 0);
    cpu.store_byte(0xFF01, 0x7E).unwrap();
    assert_eq!(cpu.load_byte(0xFF01).unwrap(), 0);
}

#[test]
fn decode_gap_load_fails() {
    let mut cpu = Cpu::new();
    assert_eq!(cpu.load_byte(0xA000), Err(CpuError::AddressDecodeGap(0xA000)));
    assert_eq!(cpu.load_byte(0xBFFF), Err(CpuError::AddressDecodeGap(0xBFFF)));
}

#[test]
fn decode_gap_store_fails_and_changes_nothing() {
    let mut cpu = Cpu::new();
    assert_eq!(cpu.store_byte(0xB000, 0x11), Err(CpuError::AddressDecodeGap(0xB000)));
    assert_eq!(cpu.load_byte(0xC000).unwrap(), 0);
    assert_eq!(cpu.load_byte(0x8000).unwrap(), 0);
}

#[test]
fn word_access_is_little_endian() {
    let mut cpu = Cpu::new();
    cpu.store_word(0xC100, 0xBEEF).unwrap();
    assert_eq!(cpu.load_byte(0xC100).unwrap(), 0xEF);
    assert_eq!(cpu.load_byte(0xC101).unwrap(), 0xBE);
    assert_eq!(cpu.load_word(0xC100).unwrap(), 0xBEEF);
}

#[test]
fn pop_byte_advances_sp_by_one() {
    let mut cpu = Cpu::new();
    cpu.registers.sp = 0xC200;
    cpu.store_byte(0xC200, 0x5A).unwrap();
    assert_eq!(cpu.pop_byte().unwrap(), 0x5A);
    assert_eq!(cpu.registers.sp, 0xC201);
}

#[test]
fn push_pop_round_trip() {
    let mut cpu = Cpu::new();
    let sp = cpu.registers.sp;
    cpu.push_word(0xBEEF).unwrap();
    assert_eq!(cpu.registers.sp, sp - 2);
    assert_eq!(cpu.pop_word().unwrap(), 0xBEEF);
    assert_eq!(cpu.registers.sp, sp);
}

#[test]
fn push_pop_round_trip_in_work_ram() {
    let mut cpu = Cpu::new();
    cpu.registers.sp = 0xD000;
    cpu.push_word(0x1234).unwrap();
    assert_eq!(cpu.pop_word().unwrap(), 0x1234);
    assert_eq!(cpu.registers.sp, 0xD000);
}
