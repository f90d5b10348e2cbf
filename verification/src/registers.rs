//! The register file: eight 8-bit registers, the two 16-bit pointers, and the
//! flag helpers. Paired reads (AF, BC, DE, HL) are computed from the two
//! backing 8-bit registers on every access; no separate 16-bit storage exists
//! for the pairs.

use vstd::prelude::*;

verus! {

/// Bit position of the Zero flag in the F register.
pub const ZERO_FLAG: u8 = 0x80;
/// Bit position of the Subtract flag (not computed by this core).
pub const SUB_FLAG: u8 = 0x40;
/// Bit position of the Half-Carry flag (not computed by this core).
pub const HALF_CARRY_FLAG: u8 = 0x20;
/// Bit position of the Carry flag in the F register.
pub const CARRY_FLAG: u8 = 0x10;

#[derive(Clone, Copy, PartialEq, Eq, Structural, Debug)]
pub enum Register8 {
    A,
    B,
    C,
    D,
    E,
    F,
    H,
    L,
}

#[derive(Clone, Copy, PartialEq, Eq, Structural, Debug)]
pub enum Register16 {
    AF,
    BC,
    DE,
    HL,
    SP,
}

#[derive(Clone, Copy, PartialEq, Eq, Structural, Debug)]
pub struct Registers {
    pub a: u8,
    pub b: u8,
    pub c: u8,
    pub d: u8,
    pub e: u8,
    pub f: u8,
    pub h: u8,
    pub l: u8,
    pub pc: u16,
    pub sp: u16,
}

/// The F register with `flag` forced to `condition` and all other bits kept.
pub open spec fn flag_set(f: u8, flag: u8, condition: bool) -> u8 {
    if condition {
        f | flag
    } else {
        f & !flag
    }
}

/// Whether `flag` is set in the F register value `f`.
pub open spec fn flag_test(f: u8, flag: u8) -> bool {
    f & flag != 0
}

/// The Carry flag of `f` as the integer 0 or 1.
pub open spec fn carry_of(f: u8) -> u8 {
    if flag_test(f, CARRY_FLAG) {
        1
    } else {
        0
    }
}

/// The 16-bit word whose high byte is `hi` and low byte is `lo`.
pub open spec fn word16(hi: u8, lo: u8) -> u16 {
    (hi * 256 + lo) as u16
}

/// The high byte (bits 8-15) of a 16-bit word.
pub open spec fn hi_byte(w: u16) -> u8 {
    (w / 256) as u8
}

/// The low byte (bits 0-7) of a 16-bit word.
pub open spec fn lo_byte(w: u16) -> u8 {
    (w % 256) as u8
}

impl Registers {
    /// The value of an 8-bit register.
    pub open spec fn spec_reg8(self, register: Register8) -> u8 {
        match register {
            Register8::A => self.a,
            Register8::B => self.b,
            Register8::C => self.c,
            Register8::D => self.d,
            Register8::E => self.e,
            Register8::F => self.f,
            Register8::H => self.h,
            Register8::L => self.l,
        }
    }

    /// The register file with one 8-bit register replaced.
    pub open spec fn spec_with_reg8(self, register: Register8, value: u8) -> Registers {
        match register {
            Register8::A => Registers { a: value, ..self },
            Register8::B => Registers { b: value, ..self },
            Register8::C => Registers { c: value, ..self },
            Register8::D => Registers { d: value, ..self },
            Register8::E => Registers { e: value, ..self },
            Register8::F => Registers { f: value, ..self },
            Register8::H => Registers { h: value, ..self },
            Register8::L => Registers { l: value, ..self },
        }
    }

    /// The value of a 16-bit register pair, computed from its backing bytes.
    pub open spec fn spec_pair(self, register: Register16) -> u16 {
        match register {
            Register16::AF => word16(self.a, self.f),
            Register16::BC => word16(self.b, self.c),
            Register16::DE => word16(self.d, self.e),
            Register16::HL => word16(self.h, self.l),
            Register16::SP => self.sp,
        }
    }

    /// The register file with a 16-bit pair replaced: the high byte goes to the
    /// first-named backing register and the low byte to the second; SP is
    /// replaced directly. No pair is ever partially updated.
    pub open spec fn spec_with_pair(self, register: Register16, value: u16) -> Registers {
        match register {
            Register16::AF => Registers { a: hi_byte(value), f: lo_byte(value), ..self },
            Register16::BC => Registers { b: hi_byte(value), c: lo_byte(value), ..self },
            Register16::DE => Registers { d: hi_byte(value), e: lo_byte(value), ..self },
            Register16::HL => Registers { h: hi_byte(value), l: lo_byte(value), ..self },
            Register16::SP => Registers { sp: value, ..self },
        }
    }

    /// The register file with `flag` forced to `condition` in F.
    pub open spec fn spec_with_flag(self, flag: u8, condition: bool) -> Registers {
        Registers { f: flag_set(self.f, flag, condition), ..self }
    }

    pub fn new() -> (r: Registers)
        ensures
            r == (Registers {
                a: 0u8,
                b: 0u8,
                c: 0u8,
                d: 0u8,
                e: 0u8,
                f: 0u8,
                h: 0u8,
                l: 0u8,
                pc: 0u16,
                sp: 0xFFFEu16,
            }),
    {
        Registers { a: 0, b: 0, c: 0, d: 0, e: 0, f: 0, h: 0, l: 0, pc: 0, sp: 0xFFFE }
    }

    fn set_flag_if(&mut self, flag: u8, condition: bool)
        ensures
            *final(self) == old(self).spec_with_flag(flag, condition),
    {
        if condition {
            self.f = self.f | flag;
        } else {
            self.f = self.f & !flag;
        }
    }

    pub fn set_zero(&mut self, condition: bool)
        ensures
            *final(self) == old(self).spec_with_flag(ZERO_FLAG, condition),
    {
        self.set_flag_if(ZERO_FLAG, condition);
    }

    pub fn set_carry(&mut self, condition: bool)
        ensures
            *final(self) == old(self).spec_with_flag(CARRY_FLAG, condition),
    {
        self.set_flag_if(CARRY_FLAG, condition);
    }

    pub fn carry(&self) -> (r: u8)
        ensures
            r == carry_of(self.f),
    {
        if self.f & CARRY_FLAG != 0 {
            1
        } else {
            0
        }
    }

    pub fn test_flag(&self, flag: u8) -> (r: bool)
        ensures
            r == flag_test(self.f, flag),
    {
        self.f & flag != 0
    }

    pub fn af(&self) -> (r: u16)
        ensures
            r == self.spec_pair(Register16::AF),
    {
        (self.a as u16) * 256 + (self.f as u16)
    }

    pub fn bc(&self) -> (r: u16)
        ensures
            r == self.spec_pair(Register16::BC),
    {
        (self.b as u16) * 256 + (self.c as u16)
    }

    pub fn de(&self) -> (r: u16)
        ensures
            r == self.spec_pair(Register16::DE),
    {
        (self.d as u16) * 256 + (self.e as u16)
    }

    pub fn hl(&self) -> (r: u16)
        ensures
            r == self.spec_pair(Register16::HL),
    {
        (self.h as u16) * 256 + (self.l as u16)
    }

    pub fn load_16(&self, register: Register16) -> (r: u16)
        ensures
            r == self.spec_pair(register),
    {
        match register {
            Register16::AF => self.af(),
            Register16::BC => self.bc(),
            Register16::DE => self.de(),
            Register16::HL => self.hl(),
            Register16::SP => self.sp,
        }
    }

    pub fn store_16(&mut self, register: Register16, value: u16)
        ensures
            *final(self) == old(self).spec_with_pair(register, value),
    {
        let lo = (value % 256) as u8;
        let hi = (value / 256) as u8;
        match register {
            Register16::AF => {
                self.a = hi;
                self.f = lo;
            },
            Register16::BC => {
                self.b = hi;
                self.c = lo;
            },
            Register16::DE => {
                self.d = hi;
                self.e = lo;
            },
            Register16::HL => {
                self.h = hi;
                self.l = lo;
            },
            Register16::SP => {
                self.sp = value;
            },
        }
    }
}

} // verus!
