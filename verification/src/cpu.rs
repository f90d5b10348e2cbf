//! The CPU aggregate: the register file, the memory bus, the halt and
//! interrupt-master-enable flags, and the cycle counter, together with the
//! byte- and word-level bus helpers every instruction is built from.
//!
//! Each executable operation has a spec-level twin that maps a machine
//! snapshot to the snapshot after the operation, paired with its outcome; the
//! executable code is proved to produce exactly that snapshot.

use vstd::prelude::*;

verus! {

use crate::memory::{bus_read, bus_write, initial_mem, MemSnap, Memory};
use crate::registers::Registers;
use vstd::wrapping::{u16_specs, u64_specs};

/// Every failure is fatal: the session is expected to end when one of these
/// is returned. There is no recoverable-error path inside the core.
#[derive(Clone, Copy, PartialEq, Eq, Structural, Debug)]
pub enum CpuError {
    /// A fetched byte has no table entry; reports the offending byte.
    UnimplementedOpcode(u8),
    /// A byte value the hardware defines as illegal; reports the byte.
    IllegalOpcode(u8),
    /// A store into a load-only storage variant.
    InvalidStorageDirection,
    /// An address the partition table fails to match; reports the address.
    AddressDecodeGap(u16),
}

/// Mathematical view of the whole machine.
pub struct CpuSnap {
    pub regs: Registers,
    pub mem: MemSnap,
    pub halt: bool,
    pub ime: bool,
    pub cycles: u64,
}

impl CpuSnap {
    pub open spec fn wf(self) -> bool {
        self.mem.wf()
    }
}

pub struct Cpu {
    pub registers: Registers,
    pub memory: Memory,
    pub halt: bool,
    /// The interrupt master enable (IME) flag.
    pub interrupt: bool,
    /// Monotonically increasing count of bus cycles, the core's only notion
    /// of time.
    pub cycles: u64,
}

impl View for Cpu {
    type V = CpuSnap;

    open spec fn view(&self) -> CpuSnap {
        CpuSnap {
            regs: self.registers,
            mem: self.memory@,
            halt: self.halt,
            ime: self.interrupt,
            cycles: self.cycles,
        }
    }
}

/// The machine's state at power-on, around a given ROM image.
pub open spec fn initial_cpu(rom: Seq<u8>) -> CpuSnap {
    CpuSnap {
        regs: Registers {
            a: 0u8,
            b: 0u8,
            c: 0u8,
            d: 0u8,
            e: 0u8,
            f: 0u8,
            h: 0u8,
            l: 0u8,
            pc: 0u16,
            sp: 0xFFFEu16,
        },
        mem: initial_mem(rom),
        halt: false,
        ime: false,
        cycles: 0u64,
    }
}

/// A snapshot with one more bus cycle on the counter.
pub open spec fn spec_tick(s: CpuSnap, n: u64) -> CpuSnap {
    CpuSnap { cycles: u64_specs::wrapping_add(s.cycles, n), ..s }
}

/// One byte read through the bus; costs one cycle whether or not the address
/// decodes.
pub open spec fn spec_load_byte(s: CpuSnap, address: u16) -> (CpuSnap, Result<u8, CpuError>) {
    (spec_tick(s, 1), bus_read(s.mem, address))
}

/// One byte write through the bus; costs one cycle whether or not the address
/// decodes.
pub open spec fn spec_store_byte(s: CpuSnap, address: u16, value: u8) -> (CpuSnap, Result<
    (),
    CpuError,
>) {
    let s1 = spec_tick(s, 1);
    let (m2, r) = bus_write(s1.mem, address, value);
    (CpuSnap { mem: m2, ..s1 }, r)
}

/// Fetch the byte at PC, advancing PC by one (wrapping).
pub open spec fn spec_load_byte_inc_pc(s: CpuSnap) -> (CpuSnap, Result<u8, CpuError>) {
    let pc = s.regs.pc;
    let s1 = CpuSnap {
        regs: Registers { pc: u16_specs::wrapping_add(pc, 1), ..s.regs },
        ..s
    };
    spec_load_byte(s1, pc)
}

/// Pop one byte: read at SP, then SP advances by one (wrapping) on success.
pub open spec fn spec_pop_byte(s: CpuSnap) -> (CpuSnap, Result<u8, CpuError>) {
    let (s1, r) = spec_load_byte(s, s.regs.sp);
    match r {
        Ok(b) => (
            CpuSnap {
                regs: Registers { sp: u16_specs::wrapping_add(s1.regs.sp, 1), ..s1.regs },
                ..s1
            },
            Ok(b),
        ),
        Err(e) => (s1, Err(e)),
    }
}

/// One little-endian word read: two bus cycles, low byte at `address`, high
/// byte one above (wrapping). The high byte's address is decoded first.
pub open spec fn spec_load_word(s: CpuSnap, address: u16) -> (CpuSnap, Result<u16, CpuError>) {
    let s1 = spec_tick(s, 2);
    match bus_read(s1.mem, u16_specs::wrapping_add(address, 1)) {
        Err(e) => (s1, Err(e)),
        Ok(hi) => match bus_read(s1.mem, address) {
            Err(e) => (s1, Err(e)),
            Ok(lo) => (s1, Ok(crate::registers::word16(hi, lo))),
        },
    }
}

/// Fetch the word at PC, advancing PC by two (wrapping).
pub open spec fn spec_load_word_inc_pc(s: CpuSnap) -> (CpuSnap, Result<u16, CpuError>) {
    let pc = s.regs.pc;
    let s1 = CpuSnap {
        regs: Registers { pc: u16_specs::wrapping_add(pc, 2), ..s.regs },
        ..s
    };
    spec_load_word(s1, pc)
}

/// One little-endian word write: the low byte at `address`, then the high
/// byte one above (wrapping); one cycle each.
pub open spec fn spec_store_word(s: CpuSnap, address: u16, value: u16) -> (CpuSnap, Result<
    (),
    CpuError,
>) {
    let lo = crate::registers::lo_byte(value);
    let hi = crate::registers::hi_byte(value);
    let (s1, r1) = spec_store_byte(s, address, lo);
    match r1 {
        Err(e) => (s1, Err(e)),
        Ok(u) => spec_store_byte(s1, u16_specs::wrapping_add(address, 1), hi),
    }
}

/// Push: SP moves down by two (wrapping), then the word is stored at the new
/// SP; SP is only updated once the store has succeeded.
pub open spec fn spec_push_word(s: CpuSnap, value: u16) -> (CpuSnap, Result<(), CpuError>) {
    let sp = u16_specs::wrapping_sub(s.regs.sp, 2);
    let (s1, r) = spec_store_word(s, sp, value);
    match r {
        Err(e) => (s1, Err(e)),
        Ok(u) => (CpuSnap { regs: Registers { sp: sp, ..s1.regs }, ..s1 }, Ok(())),
    }
}

/// Pop: the word at SP is read, then SP moves up by two (wrapping) on
/// success.
pub open spec fn spec_pop_word(s: CpuSnap) -> (CpuSnap, Result<u16, CpuError>) {
    let (s1, r) = spec_load_word(s, s.regs.sp);
    match r {
        Err(e) => (s1, Err(e)),
        Ok(w) => (
            CpuSnap {
                regs: Registers { sp: u16_specs::wrapping_add(s1.regs.sp, 2), ..s1.regs },
                ..s1
            },
            Ok(w),
        ),
    }
}

impl Cpu {
    pub open spec fn wf(&self) -> bool {
        self@.wf()
    }

    /// A fresh machine around an all-zero ROM image. The cartridge contract
    /// supplies real ROM bytes through `with_cartridge`.
    pub fn new() -> (r: Cpu)
        ensures
            r.wf(),
            r@ == initial_cpu(crate::gpu::filled(0x8000, 0u8)),
    {
        Cpu {
            registers: Registers::new(),
            memory: Memory::new(crate::gpu::byte_vec(0x8000, 0)),
            halt: false,
            interrupt: false,
            cycles: 0,
        }
    }

    /// A fresh machine around the given cartridge's ROM image.
    pub fn with_cartridge(cartridge: crate::cartridge::Cartridge) -> (r: Cpu)
        requires
            cartridge.rom@.len() == 0x8000,
        ensures
            r.wf(),
            r@ == initial_cpu(cartridge.rom@),
    {
        Cpu {
            registers: Registers::new(),
            memory: Memory::new(cartridge.rom),
            halt: false,
            interrupt: false,
            cycles: 0,
        }
    }

    /// Approximate the post-boot-ROM hand-off: fresh registers with
    /// PC = 0x0100 and SP at the top of high RAM.
    pub fn reset(&mut self)
        ensures
            final(self)@ == (CpuSnap {
                regs: Registers {
                    a: 0u8,
                    b: 0u8,
                    c: 0u8,
                    d: 0u8,
                    e: 0u8,
                    f: 0u8,
                    h: 0u8,
                    l: 0u8,
                    pc: 0x100u16,
                    sp: 0xFFFEu16,
                },
                ..old(self)@
            }),
            final(self).wf() == old(self).wf(),
    {
        self.registers = Registers::new();
        self.registers.pc = 0x100;
    }

    pub fn load_byte_and_inc_pc(&mut self) -> (r: Result<u8, CpuError>)
        requires
            old(self).wf(),
        ensures
            final(self).wf(),
            (final(self)@, r) == spec_load_byte_inc_pc(old(self)@),
    {
        let pc = self.registers.pc;
        self.registers.pc = pc.wrapping_add(1);
        self.load_byte(pc)
    }

    pub fn load_byte(&mut self, address: u16) -> (r: Result<u8, CpuError>)
        requires
            old(self).wf(),
        ensures
            final(self).wf(),
            (final(self)@, r) == spec_load_byte(old(self)@, address),
    {
        self.cycles = self.cycles.wrapping_add(1);
        self.memory.load(address)
    }

    pub fn store_byte(&mut self, address: u16, value: u8) -> (r: Result<(), CpuError>)
        requires
            old(self).wf(),
        ensures
            final(self).wf(),
            (final(self)@, r) == spec_store_byte(old(self)@, address, value),
    {
        self.cycles = self.cycles.wrapping_add(1);
        self.memory.store(address, value)
    }

    pub fn pop_byte(&mut self) -> (r: Result<u8, CpuError>)
        requires
            old(self).wf(),
        ensures
            final(self).wf(),
            (final(self)@, r) == spec_pop_byte(old(self)@),
    {
        let sp = self.registers.sp;
        match self.load_byte(sp) {
            Ok(byte) => {
                self.registers.sp = sp.wrapping_add(1);
                Ok(byte)
            },
            Err(e) => Err(e),
        }
    }

    pub fn load_word_and_inc_pc(&mut self) -> (r: Result<u16, CpuError>)
        requires
            old(self).wf(),
        ensures
            final(self).wf(),
            (final(self)@, r) == spec_load_word_inc_pc(old(self)@),
    {
        let pc = self.registers.pc;
        self.registers.pc = pc.wrapping_add(2);
        self.load_word(pc)
    }

    pub fn load_word(&mut self, address: u16) -> (r: Result<u16, CpuError>)
        requires
            old(self).wf(),
        ensures
            final(self).wf(),
            (final(self)@, r) == spec_load_word(old(self)@, address),
    {
        self.cycles = self.cycles.wrapping_add(2);
        let hi = match self.memory.load(address.wrapping_add(1)) {
            Ok(b) => b,
            Err(e) => {
                return Err(e);
            },
        };
        let lo = match self.memory.load(address) {
            Ok(b) => b,
            Err(e) => {
                return Err(e);
            },
        };
        Ok((hi as u16) * 256 + (lo as u16))
    }

    pub fn store_word(&mut self, address: u16, value: u16) -> (r: Result<(), CpuError>)
        requires
            old(self).wf(),
        ensures
            final(self).wf(),
            (final(self)@, r) == spec_store_word(old(self)@, address, value),
    {
        let lo = (value % 256) as u8;
        let hi = (value / 256) as u8;
        match self.store_byte(address, lo) {
            Ok(u) => self.store_byte(address.wrapping_add(1), hi),
            Err(e) => Err(e),
        }
    }

    pub fn push_word(&mut self, value: u16) -> (r: Result<(), CpuError>)
        requires
            old(self).wf(),
        ensures
            final(self).wf(),
            (final(self)@, r) == spec_push_word(old(self)@, value),
    {
        let sp = self.registers.sp.wrapping_sub(2);
        match self.store_word(sp, value) {
            Ok(u) => {
                self.registers.sp = sp;
                Ok(())
            },
            Err(e) => Err(e),
        }
    }

    pub fn pop_word(&mut self) -> (r: Result<u16, CpuError>)
        requires
            old(self).wf(),
        ensures
            final(self).wf(),
            (final(self)@, r) == spec_pop_word(old(self)@),
    {
        let sp = self.registers.sp;
        match self.load_word(sp) {
            Ok(word) => {
                self.registers.sp = sp.wrapping_add(2);
                Ok(word)
            },
            Err(e) => Err(e),
        }
    }
}

} // verus!
