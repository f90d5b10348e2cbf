//! Laws of the instruction set and of the memory bus, stated over the same
//! spec functions the executable contracts use and proved once and for all:
//! the INC/ADC/CP flag semantics, the push/pop round trip, the conditional
//! relative branch, and the bus's routing of VRAM versus work RAM.

use vstd::prelude::*;

verus! {

use crate::cpu::{spec_pop_word, spec_push_word, CpuError, CpuSnap};
use crate::instructions::{
    spec_add, spec_cp, spec_inc, spec_jr_unless, spec_sign_extend,
};
use crate::memory::{bus_gap, bus_read, bus_write, MemSnap};
use crate::registers::{
    carry_of, flag_set, flag_test, word16, Register8, Registers, CARRY_FLAG, ZERO_FLAG,
};
use vstd::arithmetic::div_mod::{
    lemma_fundamental_div_mod, lemma_fundamental_div_mod_converse,
};
use vstd::wrapping::{u16_specs, u8_specs};

/// Setting one flag changes exactly that flag: the Zero and Carry bits can
/// each be set or cleared without disturbing the other.
pub proof fn lemma_flag_isolation()
    by (bit_vector)
    ensures
        forall|f: u8, c: bool| flag_test(#[trigger] flag_set(f, ZERO_FLAG, c), ZERO_FLAG) == c,
        forall|f: u8, c: bool| flag_test(#[trigger] flag_set(f, CARRY_FLAG, c), CARRY_FLAG) == c,
        forall|f: u8, c: bool|
            flag_test(#[trigger] flag_set(f, ZERO_FLAG, c), CARRY_FLAG) == flag_test(
                f,
                CARRY_FLAG,
            ),
        forall|f: u8, c: bool|
            flag_test(#[trigger] flag_set(f, CARRY_FLAG, c), ZERO_FLAG) == flag_test(
                f,
                ZERO_FLAG,
            ),
{
}

/// Reduction of `% 256` on the small sums the 8-bit ALU produces.
proof fn lemma_mod_256(x: int)
    requires
        0 <= x < 512,
    ensures
        x % 256 == if x < 256 {
            x
        } else {
            x - 256
        },
{
    if x < 256 {
        lemma_fundamental_div_mod_converse(x, 256, 0, x);
    } else {
        lemma_fundamental_div_mod_converse(x, 256, 1, x - 256);
    }
}

/// A 16-bit word is exactly its high byte over its low byte.
proof fn lemma_word16_bytes(w: u16)
    ensures
        crate::registers::hi_byte(w) == w as int / 256,
        crate::registers::lo_byte(w) == w as int % 256,
        word16(crate::registers::hi_byte(w), crate::registers::lo_byte(w)) == w,
{
    lemma_fundamental_div_mod(w as int, 256);
}

/// INC on an 8-bit register stores (x + 1) mod 256, sets Zero exactly when
/// that result is 0, leaves the Carry flag unchanged from before the
/// operation, and touches nothing else. The F register itself is excluded:
/// storing the result into F would overwrite the flags just computed (no
/// opcode uses F as an INC operand).
pub proof fn lemma_inc_register(s: CpuSnap, register: Register8)
    requires
        register != Register8::F,
    ensures
        ({
            let x = s.regs.spec_reg8(register);
            let (s1, r) = spec_inc(s, register);
            &&& r == Ok::<(), CpuError>(())
            &&& s1.regs.spec_reg8(register) == (x + 1) % 256
            &&& (flag_test(s1.regs.f, ZERO_FLAG) <==> (x + 1) % 256 == 0)
            &&& flag_test(s1.regs.f, CARRY_FLAG) == flag_test(s.regs.f, CARRY_FLAG)
            &&& s1.mem == s.mem
            &&& s1.regs.pc == s.regs.pc
            &&& s1.cycles == s.cycles
        }),
{
    let x = s.regs.spec_reg8(register);
    lemma_mod_256(x + 1);
    lemma_flag_isolation();
    assert(u8_specs::wrapping_add(x, 1) == (x + 1) % 256);
}

/// ADC sets A to (a + b + carry-in) mod 256 and the Carry flag to 1 exactly
/// when a + b + carry-in reaches 256, for every accumulator value, operand
/// register and incoming carry.
pub proof fn lemma_adc_register(s: CpuSnap, register: Register8)
    ensures
        ({
            let a = s.regs.a;
            let b = s.regs.spec_reg8(register);
            let cin = carry_of(s.regs.f);
            let (s1, r) = spec_add(s, register, true);
            &&& r == Ok::<(), CpuError>(())
            &&& s1.regs.a == (a + b + cin) % 256
            &&& (flag_test(s1.regs.f, CARRY_FLAG) <==> a + b + cin >= 256)
            &&& s1.mem == s.mem
            &&& s1.regs.pc == s.regs.pc
        }),
{
    let a = s.regs.a;
    let b = s.regs.spec_reg8(register);
    let cin = carry_of(s.regs.f);
    lemma_mod_256(a + b + cin);
    lemma_flag_isolation();
}

/// CP never mutates A, only flags: the comparison leaves every part of the
/// machine unchanged except the flag register, where Zero is set exactly
/// when A equals the operand and Carry exactly when A is below it.
pub proof fn lemma_cp_register(s: CpuSnap, register: Register8)
    ensures
        ({
            let (s1, r) = spec_cp(s, register);
            &&& r == Ok::<(), CpuError>(())
            &&& s1 == (CpuSnap { regs: Registers { f: s1.regs.f, ..s.regs }, ..s })
            &&& (flag_test(s1.regs.f, ZERO_FLAG) <==> s.regs.a == s.regs.spec_reg8(register))
            &&& (flag_test(s1.regs.f, CARRY_FLAG) <==> s.regs.a < s.regs.spec_reg8(register))
        }),
{
    lemma_flag_isolation();
}

/// Addresses whose backing cell hands back the stored byte on the next read:
/// everything except the uncovered decode gap, the unusable range, the
/// unimplemented-peripheral I/O stubs, the read-only current-scanline
/// register, and the DMA stub.
pub open spec fn ram_like(address: u16) -> bool {
    ||| address < 0xA000
    ||| (0xC000 <= address && address < 0xFEA0)
    ||| address == 0xFF0F
    ||| (0xFF40 <= address && address <= 0xFF4B && address != 0xFF44 && address != 0xFF46)
    ||| 0xFF80 <= address
}

/// Two addresses that reach the same backing cell: the same address, or an
/// address and its image in the echo range.
pub open spec fn same_cell(a1: u16, a2: u16) -> bool {
    ||| a1 == a2
    ||| (a1 < 0x1E00 && a2 == a1 + 0xE000)
    ||| (a2 < 0x1E00 && a1 == a2 + 0xE000)
}

/// Reduce the I/O sub-dispatch key to plain subtraction.
proof fn lemma_io_low_byte(address: u16)
    requires
        0xFF00 <= address < 0xFF80,
    ensures
        address % 256 == address - 0xFF00,
{
    lemma_fundamental_div_mod_converse(address as int, 256, 0xFF, address - 0xFF00);
}

/// A store to a ram-like address succeeds, keeps the bus well-formed, and is
/// observable: reading the same address afterwards returns the stored byte.
pub proof fn lemma_store_load_back(m: MemSnap, address: u16, value: u8)
    requires
        m.wf(),
        ram_like(address),
    ensures
        ({
            let (m1, r) = bus_write(m, address, value);
            &&& r == Ok::<(), CpuError>(())
            &&& m1.wf()
            &&& bus_read(m1, address) == Ok::<u8, CpuError>(value)
        }),
{
    if 0xFF00 <= address && address < 0xFF80 {
        lemma_io_low_byte(address);
    }
}

/// A store leaves every other backing cell alone: a read at an address that
/// does not share a cell with the stored one returns what it returned
/// before.
pub proof fn lemma_store_other_cell(m: MemSnap, address: u16, other: u16, value: u8)
    requires
        m.wf(),
        !same_cell(address, other),
    ensures
        bus_read(bus_write(m, other, value).0, address) == bus_read(m, address),
{
    if 0xFF00 <= address && address < 0xFF80 {
        lemma_io_low_byte(address);
    }
    if 0xFF00 <= other && other < 0xFF80 {
        lemma_io_low_byte(other);
    }
}

/// push_word then pop_word round-trips exactly: for a stack whose two bytes
/// sit at ram-like addresses, the pushed word is popped back unchanged and
/// SP returns to its original value.
pub proof fn lemma_push_pop_round_trip(s: CpuSnap, value: u16)
    requires
        s.wf(),
        ram_like(u16_specs::wrapping_sub(s.regs.sp, 2)),
        ram_like(u16_specs::wrapping_sub(s.regs.sp, 1)),
    ensures
        ({
            let (s1, r1) = spec_push_word(s, value);
            let (s2, r2) = spec_pop_word(s1);
            &&& r1 == Ok::<(), CpuError>(())
            &&& r2 == Ok::<u16, CpuError>(value)
            &&& s2.regs.sp == s.regs.sp
            &&& s1.regs.sp == u16_specs::wrapping_sub(s.regs.sp, 2)
        }),
{
    let sp = s.regs.sp;
    let a1 = u16_specs::wrapping_sub(sp, 2);
    let a2 = u16_specs::wrapping_add(a1, 1);
    assert(a2 == u16_specs::wrapping_sub(sp, 1));
    let lo = crate::registers::lo_byte(value);
    let hi = crate::registers::hi_byte(value);
    lemma_word16_bytes(value);
    lemma_store_load_back(s.mem, a1, lo);
    let m1 = bus_write(s.mem, a1, lo).0;
    lemma_store_load_back(m1, a2, hi);
    let m2 = bus_write(m1, a2, hi).0;
    lemma_store_other_cell(m1, a1, a2, hi);
    assert(bus_read(m2, a1) == Ok::<u8, CpuError>(lo));
    assert(bus_read(m2, a2) == Ok::<u8, CpuError>(hi));
}

/// A conditional relative branch with the predicate failing does not alter
/// PC beyond the instruction's own length; with the predicate holding it
/// adds the sign-extended offset to the advanced PC. Stated for JR NZ: the
/// offset byte is always consumed, the flags are untouched, and nothing is
/// written to memory.
pub proof fn lemma_jr_not_zero(s: CpuSnap)
    requires
        s.wf(),
        !bus_gap(s.regs.pc),
    ensures
        ({
            let offset = bus_read(s.mem, s.regs.pc)->Ok_0;
            let (s1, r) = spec_jr_unless(s, ZERO_FLAG);
            &&& r == Ok::<(), CpuError>(())
            &&& s1.regs.pc == if flag_test(s.regs.f, ZERO_FLAG) {
                u16_specs::wrapping_add(s.regs.pc, 1)
            } else {
                u16_specs::wrapping_add(
                    u16_specs::wrapping_add(s.regs.pc, 1),
                    spec_sign_extend(offset),
                )
            }
            &&& s1.regs.f == s.regs.f
            &&& s1.mem == s.mem
        }),
{
}

/// The memory bus partitions the address space: a store to 0x8000 is
/// observable through the video peripheral's VRAM and leaves work RAM
/// untouched, while a store to 0xC000 is observable through work RAM and
/// does not alias VRAM.
pub proof fn lemma_bus_routing(m: MemSnap, value: u8)
    requires
        m.wf(),
    ensures
        ({
            let (m1, r1) = bus_write(m, 0x8000, value);
            &&& r1 == Ok::<(), CpuError>(())
            &&& m1.gpu.vram[0] == value
            &&& m1.work_ram == m.work_ram
        }),
        ({
            let (m2, r2) = bus_write(m, 0xC000, value);
            &&& r2 == Ok::<(), CpuError>(())
            &&& m2.work_ram[0] == value
            &&& m2.gpu.vram == m.gpu.vram
        }),
{
}

} // verus!
