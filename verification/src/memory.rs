//! The memory bus: decodes a 16-bit address into one of the backing stores
//! (ROM, work RAM, the video peripheral's VRAM/OAM/registers, high RAM, the
//! interrupt registers) and dispatches loads and stores accordingly.

use vstd::prelude::*;

verus! {

use crate::cpu::CpuError;
use crate::gpu::{byte_vec, filled, gpu_reg_read, gpu_reg_write, initial_gpu, Gpu, GpuSnap};

/// Mathematical view of the bus and everything behind it.
pub struct MemSnap {
    pub gpu: GpuSnap,
    pub rom: Seq<u8>,
    pub work_ram: Seq<u8>,
    pub high_ram: Seq<u8>,
    pub interrupt_enable: u8,
    pub interrupt_flags: u8,
}

pub struct Memory {
    pub gpu: Gpu,
    pub rom: Vec<u8>,
    pub work_ram: Vec<u8>,
    pub high_ram: Vec<u8>,
    pub interrupt_enable: u8,
    pub interrupt_flags: u8,
}

impl View for Memory {
    type V = MemSnap;

    open spec fn view(&self) -> MemSnap {
        MemSnap {
            gpu: self.gpu@,
            rom: self.rom@,
            work_ram: self.work_ram@,
            high_ram: self.high_ram@,
            interrupt_enable: self.interrupt_enable,
            interrupt_flags: self.interrupt_flags,
        }
    }
}

impl MemSnap {
    /// Well-formedness: every backing store has its hardware size.
    pub open spec fn wf(self) -> bool {
        &&& self.rom.len() == 0x8000
        &&& self.work_ram.len() == 0x2000
        &&& self.high_ram.len() == 0x7F
        &&& self.gpu.wf()
    }
}

/// The address range the partition table does not cover; accesses there are
/// an address-decode gap and fail fatally.
pub open spec fn bus_gap(address: u16) -> bool {
    0xA000 <= address && address <= 0xBFFF
}

/// Reading one I/O register, keyed by the low byte of the address: the
/// interrupt-flags register, the video peripheral's registers, and 0 for every
/// unimplemented peripheral.
pub open spec fn io_read(m: MemSnap, low: u8) -> u8 {
    if low == 0x0F {
        m.interrupt_flags
    } else if 0x40 <= low && low <= 0x4B {
        gpu_reg_read(m.gpu, low)
    } else {
        0
    }
}

/// Writing one I/O register, keyed by the low byte of the address; writes to
/// unimplemented peripherals are dropped.
pub open spec fn io_write(m: MemSnap, low: u8, value: u8) -> MemSnap {
    if low == 0x0F {
        MemSnap { interrupt_flags: value, ..m }
    } else if 0x40 <= low && low <= 0x4B {
        MemSnap { gpu: gpu_reg_write(m.gpu, low, value), ..m }
    } else {
        m
    }
}

/// One bus read: the address is matched against the partition table. The
/// unusable range reads as 0; the echo range mirrors the low 8KB of ROM; the
/// one uncovered range is a decode gap.
pub open spec fn bus_read(m: MemSnap, address: u16) -> Result<u8, CpuError> {
    if address < 0x8000 {
        Ok(m.rom[address as int])
    } else if address < 0xA000 {
        Ok(m.gpu.vram[address - 0x8000])
    } else if address < 0xC000 {
        Err(CpuError::AddressDecodeGap(address))
    } else if address < 0xE000 {
        Ok(m.work_ram[address - 0xC000])
    } else if address < 0xFE00 {
        Ok(m.rom[address - 0xE000])
    } else if address < 0xFEA0 {
        Ok(m.gpu.oam[address - 0xFE00])
    } else if address < 0xFF00 {
        Ok(0)
    } else if address < 0xFF80 {
        Ok(io_read(m, (address % 256) as u8))
    } else if address < 0xFFFF {
        Ok(m.high_ram[address - 0xFF80])
    } else {
        Ok(m.interrupt_enable)
    }
}

/// One bus write: the new bus state and the outcome. Writes into the ROM
/// range are deliberately permitted; writes to the unusable range are no-ops;
/// a write into the decode gap fails and changes nothing.
pub open spec fn bus_write(m: MemSnap, address: u16, value: u8) -> (MemSnap, Result<
    (),
    CpuError,
>) {
    if address < 0x8000 {
        (MemSnap { rom: m.rom.update(address as int, value), ..m }, Ok(()))
    } else if address < 0xA000 {
        (
            MemSnap {
                gpu: GpuSnap { vram: m.gpu.vram.update(address - 0x8000, value), ..m.gpu },
                ..m
            },
            Ok(()),
        )
    } else if address < 0xC000 {
        (m, Err(CpuError::AddressDecodeGap(address)))
    } else if address < 0xE000 {
        (MemSnap { work_ram: m.work_ram.update(address - 0xC000, value), ..m }, Ok(()))
    } else if address < 0xFE00 {
        (MemSnap { rom: m.rom.update(address - 0xE000, value), ..m }, Ok(()))
    } else if address < 0xFEA0 {
        (
            MemSnap {
                gpu: GpuSnap { oam: m.gpu.oam.update(address - 0xFE00, value), ..m.gpu },
                ..m
            },
            Ok(()),
        )
    } else if address < 0xFF00 {
        (m, Ok(()))
    } else if address < 0xFF80 {
        (io_write(m, (address % 256) as u8, value), Ok(()))
    } else if address < 0xFFFF {
        (MemSnap { high_ram: m.high_ram.update(address - 0xFF80, value), ..m }, Ok(()))
    } else {
        (MemSnap { interrupt_enable: value, ..m }, Ok(()))
    }
}

/// The bus's state at power-on, around a given ROM image.
pub open spec fn initial_mem(rom: Seq<u8>) -> MemSnap {
    MemSnap {
        gpu: initial_gpu(),
        rom: rom,
        work_ram: filled(0x2000, 0u8),
        high_ram: filled(0x7F, 0u8),
        interrupt_enable: 0u8,
        interrupt_flags: 0u8,
    }
}

impl Memory {
    pub open spec fn wf(&self) -> bool {
        self@.wf()
    }

    /// Build the bus around a cartridge ROM image: fresh peripheral, zeroed
    /// RAM, interrupts all clear.
    pub fn new(rom: Vec<u8>) -> (r: Memory)
        requires
            rom@.len() == 0x8000,
        ensures
            r.wf(),
            r@ == initial_mem(rom@),
    {
        Memory {
            gpu: Gpu::new(),
            rom,
            work_ram: byte_vec(0x2000, 0),
            high_ram: byte_vec(0x7F, 0),
            interrupt_enable: 0,
            interrupt_flags: 0,
        }
    }

    pub fn load(&self, address: u16) -> (r: Result<u8, CpuError>)
        requires
            self.wf(),
        ensures
            r == bus_read(self@, address),
    {
        if address < 0x8000 {
            Ok(self.rom[address as usize])
        } else if address < 0xA000 {
            Ok(self.gpu.vram_load(address - 0x8000))
        } else if address < 0xC000 {
            Err(CpuError::AddressDecodeGap(address))
        } else if address < 0xE000 {
            Ok(self.work_ram[(address - 0xC000) as usize])
        } else if address < 0xFE00 {
            Ok(self.rom[(address - 0xE000) as usize])
        } else if address < 0xFEA0 {
            Ok(self.gpu.oam[(address - 0xFE00) as usize])
        } else if address < 0xFF00 {
            Ok(0)
        } else if address < 0xFF80 {
            Ok(self.read_io(address))
        } else if address < 0xFFFF {
            Ok(self.high_ram[(address - 0xFF80) as usize])
        } else {
            Ok(self.interrupt_enable)
        }
    }

    pub fn store(&mut self, address: u16, value: u8) -> (r: Result<(), CpuError>)
        requires
            old(self).wf(),
        ensures
            final(self).wf(),
            (final(self)@, r) == bus_write(old(self)@, address, value),
    {
        if address < 0x8000 {
            self.rom.set(address as usize, value);
            Ok(())
        } else if address < 0xA000 {
            self.gpu.vram_store(address - 0x8000, value);
            Ok(())
        } else if address < 0xC000 {
            Err(CpuError::AddressDecodeGap(address))
        } else if address < 0xE000 {
            self.work_ram.set((address - 0xC000) as usize, value);
            Ok(())
        } else if address < 0xFE00 {
            self.rom.set((address - 0xE000) as usize, value);
            Ok(())
        } else if address < 0xFEA0 {
            self.gpu.oam.set((address - 0xFE00) as usize, value);
            Ok(())
        } else if address < 0xFF00 {
            Ok(())
        } else if address < 0xFF80 {
            self.write_io(address, value);
            Ok(())
        } else if address < 0xFFFF {
            self.high_ram.set((address - 0xFF80) as usize, value);
            Ok(())
        } else {
            self.interrupt_enable = value;
            Ok(())
        }
    }

    /// Read one memory-mapped I/O register, keyed on the low address byte.
    pub fn read_io(&self, address: u16) -> (r: u8)
        ensures
            r == io_read(self@, (address % 256) as u8),
    {
        let low = (address % 256) as u8;
        if low == 0x0F {
            self.interrupt_flags
        } else if 0x40 <= low && low <= 0x4B {
            self.gpu.load(low)
        } else {
            0
        }
    }

    /// Write one memory-mapped I/O register, keyed on the low address byte.
    pub fn write_io(&mut self, address: u16, value: u8)
        ensures
            final(self)@ == io_write(old(self)@, (address % 256) as u8, value),
            final(self)@.wf() == old(self)@.wf(),
    {
        let low = (address % 256) as u8;
        if low == 0x0F {
            self.interrupt_flags = value;
        } else if 0x40 <= low && low <= 0x4B {
            self.gpu.store(low, value);
        }
    }
}

} // verus!
