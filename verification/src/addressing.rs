//! The storage abstraction: a uniform "readable/writable 8-bit location"
//! implemented by immediate operands, single registers, register pairs used
//! as addresses, and the special indirect forms. The executor expresses most
//! of the opcode table as two calls through this interface.
//!
//! Each implementation carries its own snapshot-level meaning (`read_spec`,
//! `write_spec`); the trait's contracts tie every executable access to it.

use vstd::prelude::*;

verus! {

use crate::cpu::{
    spec_load_byte, spec_load_byte_inc_pc, spec_load_word_inc_pc, spec_store_byte, Cpu, CpuError,
    CpuSnap,
};
use crate::registers::{Register16, Register8, Registers};
use vstd::wrapping::u16_specs;

/// A polymorphic 8-bit location. `load` and `store` may consume operand
/// bytes at PC or move HL as a side effect of computing the address; a
/// variant that cannot be stored to fails loudly instead of ignoring the
/// write.
pub trait Storage: Sized {
    /// What `load` does to a machine snapshot, and what it returns.
    spec fn read_spec(&self, pre: CpuSnap) -> (CpuSnap, Result<u8, CpuError>);

    /// What `store` does to a machine snapshot, and whether it is possible.
    spec fn write_spec(&self, pre: CpuSnap, value: u8) -> (CpuSnap, Result<(), CpuError>);

    fn load(&self, cpu: &mut Cpu) -> (r: Result<u8, CpuError>)
        requires
            old(cpu).wf(),
        ensures
            final(cpu).wf(),
            (final(cpu)@, r) == self.read_spec(old(cpu)@),
    ;

    fn store(&self, cpu: &mut Cpu, value: u8) -> (r: Result<(), CpuError>)
        requires
            old(cpu).wf(),
        ensures
            final(cpu).wf(),
            (final(cpu)@, r) == self.write_spec(old(cpu)@, value),
    ;
}

/// The operand byte at PC. Load-only: it consumes one byte at PC and
/// advances PC by one; storing to it is a programming error.
pub struct ImmediateStorage;

impl Storage for ImmediateStorage {
    open spec fn read_spec(&self, pre: CpuSnap) -> (CpuSnap, Result<u8, CpuError>) {
        spec_load_byte_inc_pc(pre)
    }

    open spec fn write_spec(&self, pre: CpuSnap, value: u8) -> (CpuSnap, Result<(), CpuError>) {
        (pre, Err(CpuError::InvalidStorageDirection))
    }

    fn load(&self, cpu: &mut Cpu) -> (r: Result<u8, CpuError>) {
        cpu.load_byte_and_inc_pc()
    }

    fn store(&self, cpu: &mut Cpu, value: u8) -> (r: Result<(), CpuError>) {
        Err(CpuError::InvalidStorageDirection)
    }
}

/// The indirect addressing forms: a register pair as address, the
/// auto-increment and auto-decrement HL forms, the zero-page forms, and an
/// immediate absolute address.
pub enum Indirect {
    BC,
    DE,
    HL,
    /// Indirect HL, incrementing HL as part of the address computation.
    HLI,
    /// Indirect HL, decrementing HL as part of the address computation.
    HLD,
    /// 0xFF00 plus a one-byte immediate offset.
    ZeroPage,
    /// 0xFF00 plus the C register.
    ZeroPageRegC,
    /// A two-byte immediate absolute address.
    Immediate,
}

/// The address an indirect form designates, together with its side effects:
/// the HLI/HLD forms move HL, and the forms with immediate operands consume
/// bytes at PC. The computation is the same whether the access that follows
/// is a load or a store.
pub open spec fn spec_indirect_address(s: CpuSnap, which: Indirect) -> (CpuSnap, Result<
    u16,
    CpuError,
>) {
    match which {
        Indirect::BC => (s, Ok(s.regs.spec_pair(Register16::BC))),
        Indirect::DE => (s, Ok(s.regs.spec_pair(Register16::DE))),
        Indirect::HL => (s, Ok(s.regs.spec_pair(Register16::HL))),
        Indirect::HLI => {
            let hl = s.regs.spec_pair(Register16::HL);
            (
                CpuSnap {
                    regs: s.regs.spec_with_pair(
                        Register16::HL,
                        u16_specs::wrapping_add(hl, 1),
                    ),
                    ..s
                },
                Ok(hl),
            )
        },
        Indirect::HLD => {
            let hl = s.regs.spec_pair(Register16::HL);
            (
                CpuSnap {
                    regs: s.regs.spec_with_pair(
                        Register16::HL,
                        u16_specs::wrapping_sub(hl, 1),
                    ),
                    ..s
                },
                Ok(hl),
            )
        },
        Indirect::ZeroPage => {
            let (s1, r) = spec_load_byte_inc_pc(s);
            match r {
                Ok(offset) => (s1, Ok((0xFF00 + offset) as u16)),
                Err(e) => (s1, Err(e)),
            }
        },
        Indirect::ZeroPageRegC => (s, Ok((0xFF00 + s.regs.c) as u16)),
        Indirect::Immediate => spec_load_word_inc_pc(s),
    }
}

impl Indirect {
    /// Compute the designated address, performing the variant's side effects.
    /// Shared by `load` and `store` so the side effects are identical.
    fn address(&self, cpu: &mut Cpu) -> (r: Result<u16, CpuError>)
        requires
            old(cpu).wf(),
        ensures
            final(cpu).wf(),
            (final(cpu)@, r) == spec_indirect_address(old(cpu)@, *self),
    {
        match self {
            Indirect::BC => Ok(cpu.registers.bc()),
            Indirect::DE => Ok(cpu.registers.de()),
            Indirect::HL => Ok(cpu.registers.hl()),
            Indirect::HLI => {
                let hl = cpu.registers.hl();
                cpu.registers.store_16(Register16::HL, hl.wrapping_add(1));
                Ok(hl)
            },
            Indirect::HLD => {
                let hl = cpu.registers.hl();
                cpu.registers.store_16(Register16::HL, hl.wrapping_sub(1));
                Ok(hl)
            },
            Indirect::ZeroPage => {
                match cpu.load_byte_and_inc_pc() {
                    Ok(offset) => Ok(0xFF00 + offset as u16),
                    Err(e) => Err(e),
                }
            },
            Indirect::ZeroPageRegC => Ok(0xFF00 + cpu.registers.c as u16),
            Indirect::Immediate => cpu.load_word_and_inc_pc(),
        }
    }
}

impl Storage for Indirect {
    open spec fn read_spec(&self, pre: CpuSnap) -> (CpuSnap, Result<u8, CpuError>) {
        let (s1, r) = spec_indirect_address(pre, *self);
        match r {
            Ok(address) => spec_load_byte(s1, address),
            Err(e) => (s1, Err(e)),
        }
    }

    open spec fn write_spec(&self, pre: CpuSnap, value: u8) -> (CpuSnap, Result<(), CpuError>) {
        let (s1, r) = spec_indirect_address(pre, *self);
        match r {
            Ok(address) => spec_store_byte(s1, address, value),
            Err(e) => (s1, Err(e)),
        }
    }

    fn load(&self, cpu: &mut Cpu) -> (r: Result<u8, CpuError>) {
        match self.address(cpu) {
            Ok(address) => cpu.load_byte(address),
            Err(e) => Err(e),
        }
    }

    fn store(&self, cpu: &mut Cpu, value: u8) -> (r: Result<(), CpuError>) {
        match self.address(cpu) {
            Ok(address) => cpu.store_byte(address, value),
            Err(e) => Err(e),
        }
    }
}

impl Storage for Register8 {
    open spec fn read_spec(&self, pre: CpuSnap) -> (CpuSnap, Result<u8, CpuError>) {
        (pre, Ok(pre.regs.spec_reg8(*self)))
    }

    open spec fn write_spec(&self, pre: CpuSnap, value: u8) -> (CpuSnap, Result<(), CpuError>) {
        (CpuSnap { regs: pre.regs.spec_with_reg8(*self, value), ..pre }, Ok(()))
    }

    fn load(&self, cpu: &mut Cpu) -> (r: Result<u8, CpuError>) {
        Ok(
            match self {
                Register8::A => cpu.registers.a,
                Register8::B => cpu.registers.b,
                Register8::C => cpu.registers.c,
                Register8::D => cpu.registers.d,
                Register8::E => cpu.registers.e,
                Register8::F => cpu.registers.f,
                Register8::H => cpu.registers.h,
                Register8::L => cpu.registers.l,
            },
        )
    }

    fn store(&self, cpu: &mut Cpu, value: u8) -> (r: Result<(), CpuError>) {
        match self {
            Register8::A => cpu.registers.a = value,
            Register8::B => cpu.registers.b = value,
            Register8::C => cpu.registers.c = value,
            Register8::D => cpu.registers.d = value,
            Register8::E => cpu.registers.e = value,
            Register8::F => cpu.registers.f = value,
            Register8::H => cpu.registers.h = value,
            Register8::L => cpu.registers.l = value,
        }
        Ok(())
    }
}

/// A register pair used as an address: the byte behind the pair's value.
impl Storage for Register16 {
    open spec fn read_spec(&self, pre: CpuSnap) -> (CpuSnap, Result<u8, CpuError>) {
        spec_load_byte(pre, pre.regs.spec_pair(*self))
    }

    open spec fn write_spec(&self, pre: CpuSnap, value: u8) -> (CpuSnap, Result<(), CpuError>) {
        spec_store_byte(pre, pre.regs.spec_pair(*self), value)
    }

    fn load(&self, cpu: &mut Cpu) -> (r: Result<u8, CpuError>) {
        let address = cpu.registers.load_16(*self);
        cpu.load_byte(address)
    }

    fn store(&self, cpu: &mut Cpu, value: u8) -> (r: Result<(), CpuError>) {
        let address = cpu.registers.load_16(*self);
        cpu.store_byte(address, value)
    }
}

} // verus!
