//! The instruction set: each opcode family as one operation on the machine,
//! with a spec-level twin giving its exact effect on a machine snapshot, and
//! the decode/execute dispatch over the primary and CB-prefixed tables.

use vstd::prelude::*;

verus! {

use crate::addressing::{ImmediateStorage, Indirect, Storage};
use crate::cpu::{
    spec_load_byte_inc_pc, spec_load_word_inc_pc, spec_pop_word, spec_push_word, spec_store_word,
    spec_tick, Cpu, CpuError, CpuSnap,
};
use crate::memory::MemSnap;
use crate::registers::{
    carry_of, flag_set, flag_test, Register16, Register8, Registers, CARRY_FLAG, ZERO_FLAG,
};
use crate::registers::Register16::{AF, BC, DE, HL, SP};
use crate::registers::Register8::{A, B, C, D, E, H, L};
use vstd::wrapping::{u16_specs, u64_specs, u8_specs};

/// A signed 8-bit offset widened to 16 bits.
pub open spec fn spec_sign_extend(b: u8) -> u16 {
    if b < 0x80 {
        b as u16
    } else {
        (0xFF00 + b) as u16
    }
}

fn sign_extend(b: u8) -> (r: u16)
    ensures
        r == spec_sign_extend(b),
{
    if b < 0x80 {
        b as u16
    } else {
        0xFF00 + b as u16
    }
}

/// (a + value + carry-in) mod 256.
pub open spec fn add_result(a: u8, value: u8, cin: u8) -> u8 {
    if a + value + cin < 256 {
        (a + value + cin) as u8
    } else {
        (a + value + cin - 256) as u8
    }
}

/// Bit 8 of the unwrapped sum.
pub open spec fn add_carry(a: u8, value: u8, cin: u8) -> bool {
    a + value + cin >= 256
}

/// (a - value - carry-in) mod 256.
pub open spec fn sub_result(a: u8, value: u8, cin: u8) -> u8 {
    if a < value + cin {
        (a + 256 - value - cin) as u8
    } else {
        (a - value - cin) as u8
    }
}

/// The borrow out of the subtraction.
pub open spec fn sub_borrow(a: u8, value: u8, cin: u8) -> bool {
    a < value + cin
}

/// ADD/ADC: A gets the truncated sum; Carry takes bit 8 of the unwrapped
/// sum; Zero reflects the truncated result.
pub open spec fn spec_add_op(s: CpuSnap, value: u8, with_carry: bool) -> CpuSnap {
    let cin = if with_carry {
        carry_of(s.regs.f)
    } else {
        0u8
    };
    let result = add_result(s.regs.a, value, cin);
    let f = flag_set(
        flag_set(s.regs.f, CARRY_FLAG, add_carry(s.regs.a, value, cin)),
        ZERO_FLAG,
        result == 0,
    );
    CpuSnap { regs: Registers { a: result, f: f, ..s.regs }, ..s }
}

/// SUB/SBC/CP: the truncated difference and its flags; Carry takes the
/// borrow. The caller decides whether the result is written back to A.
pub open spec fn spec_sub_op(s: CpuSnap, value: u8, with_carry: bool) -> (CpuSnap, u8) {
    let cin = if with_carry {
        carry_of(s.regs.f)
    } else {
        0u8
    };
    let result = sub_result(s.regs.a, value, cin);
    let f = flag_set(
        flag_set(s.regs.f, CARRY_FLAG, sub_borrow(s.regs.a, value, cin)),
        ZERO_FLAG,
        result == 0,
    );
    (CpuSnap { regs: Registers { f: f, ..s.regs }, ..s }, result)
}

/// 8-bit load: `dst.store(src.load())`.
pub open spec fn spec_ld<In: Storage, Out: Storage>(s: CpuSnap, dst: Out, src: In) -> (
    CpuSnap,
    Result<(), CpuError>,
) {
    let (s1, r) = src.read_spec(s);
    match r {
        Ok(value) => dst.write_spec(s1, value),
        Err(e) => (s1, Err(e)),
    }
}

/// LD SP, HL.
pub open spec fn spec_ld_sp_hl(s: CpuSnap) -> CpuSnap {
    CpuSnap {
        regs: Registers { sp: s.regs.spec_pair(Register16::HL), ..s.regs },
        ..s
    }
}

/// LD HL, SP + signed immediate offset.
pub open spec fn spec_ld_hl_sp(s: CpuSnap) -> (CpuSnap, Result<(), CpuError>) {
    let (s1, r) = spec_load_byte_inc_pc(s);
    match r {
        Ok(offset) => {
            let address = u16_specs::wrapping_add(spec_sign_extend(offset), s1.regs.sp);
            (
                CpuSnap { regs: s1.regs.spec_with_pair(Register16::HL, address), ..s1 },
                Ok(()),
            )
        },
        Err(e) => (s1, Err(e)),
    }
}

/// LD rr, nn: an immediate word into a pair.
pub open spec fn spec_ld_word_immediate(s: CpuSnap, register: Register16) -> (CpuSnap, Result<
    (),
    CpuError,
>) {
    let (s1, r) = spec_load_word_inc_pc(s);
    match r {
        Ok(value) => (
            CpuSnap { regs: s1.regs.spec_with_pair(register, value), ..s1 },
            Ok(()),
        ),
        Err(e) => (s1, Err(e)),
    }
}

/// LD (nn), SP: SP into an absolute immediate address.
pub open spec fn spec_ld_indirect_sp(s: CpuSnap) -> (CpuSnap, Result<(), CpuError>) {
    let (s1, r) = spec_load_word_inc_pc(s);
    match r {
        Ok(address) => spec_store_word(s1, address, s1.regs.sp),
        Err(e) => (s1, Err(e)),
    }
}

/// POP rr.
pub open spec fn spec_pop(s: CpuSnap, register: Register16) -> (CpuSnap, Result<(), CpuError>) {
    let (s1, r) = spec_pop_word(s);
    match r {
        Ok(word) => (
            CpuSnap { regs: s1.regs.spec_with_pair(register, word), ..s1 },
            Ok(()),
        ),
        Err(e) => (s1, Err(e)),
    }
}

/// PUSH rr.
pub open spec fn spec_push(s: CpuSnap, register: Register16) -> (CpuSnap, Result<(), CpuError>) {
    spec_push_word(s, s.regs.spec_pair(register))
}

/// AND: bitwise, flags reset, Zero from the result.
pub open spec fn spec_and<S: Storage>(s: CpuSnap, src: S) -> (CpuSnap, Result<(), CpuError>) {
    let (s1, r) = src.read_spec(s);
    match r {
        Ok(v) => {
            let value = s1.regs.a & v;
            let f = flag_set(0u8, ZERO_FLAG, value == 0);
            (CpuSnap { regs: Registers { a: value, f: f, ..s1.regs }, ..s1 }, Ok(()))
        },
        Err(e) => (s1, Err(e)),
    }
}

/// OR: bitwise, flags reset, Zero from the result.
pub open spec fn spec_or<S: Storage>(s: CpuSnap, src: S) -> (CpuSnap, Result<(), CpuError>) {
    let (s1, r) = src.read_spec(s);
    match r {
        Ok(v) => {
            let value = s1.regs.a | v;
            let f = flag_set(0u8, ZERO_FLAG, value == 0);
            (CpuSnap { regs: Registers { a: value, f: f, ..s1.regs }, ..s1 }, Ok(()))
        },
        Err(e) => (s1, Err(e)),
    }
}

/// XOR: bitwise, flags reset, Zero from the result.
pub open spec fn spec_xor<S: Storage>(s: CpuSnap, src: S) -> (CpuSnap, Result<(), CpuError>) {
    let (s1, r) = src.read_spec(s);
    match r {
        Ok(v) => {
            let value = s1.regs.a ^ v;
            let f = flag_set(0u8, ZERO_FLAG, value == 0);
            (CpuSnap { regs: Registers { a: value, f: f, ..s1.regs }, ..s1 }, Ok(()))
        },
        Err(e) => (s1, Err(e)),
    }
}

/// RLCA: rotate A left by one; Carry takes the bit that wrapped around.
pub open spec fn spec_rlca(s: CpuSnap) -> CpuSnap {
    let value = (s.regs.a << 1) | (s.regs.a >> 7);
    CpuSnap {
        regs: Registers {
            a: value,
            f: flag_set(s.regs.f, CARRY_FLAG, value & 1 != 0),
            ..s.regs
        },
        ..s
    }
}

/// RRCA: rotate A right by one; Carry takes the bit that wrapped around.
pub open spec fn spec_rrca(s: CpuSnap) -> CpuSnap {
    let value = (s.regs.a >> 1) | (s.regs.a << 7);
    CpuSnap {
        regs: Registers {
            a: value,
            f: flag_set(s.regs.f, CARRY_FLAG, value & 0x80 != 0),
            ..s.regs
        },
        ..s
    }
}

/// RLA: 9-bit rotate left through the Carry flag.
pub open spec fn spec_rla(s: CpuSnap) -> CpuSnap {
    let value = (s.regs.a << 1) | carry_of(s.regs.f);
    CpuSnap {
        regs: Registers {
            a: value,
            f: flag_set(s.regs.f, CARRY_FLAG, s.regs.a & 0x80 != 0),
            ..s.regs
        },
        ..s
    }
}

/// RRA: 9-bit rotate right through the Carry flag.
pub open spec fn spec_rra(s: CpuSnap) -> CpuSnap {
    let value = (s.regs.a >> 1) | (carry_of(s.regs.f) << 7);
    CpuSnap {
        regs: Registers {
            a: value,
            f: flag_set(s.regs.f, CARRY_FLAG, s.regs.a & 1 != 0),
            ..s.regs
        },
        ..s
    }
}

/// ADD/ADC with a storage operand.
pub open spec fn spec_add<S: Storage>(s: CpuSnap, src: S, with_carry: bool) -> (CpuSnap, Result<
    (),
    CpuError,
>) {
    let (s1, r) = src.read_spec(s);
    match r {
        Ok(value) => (spec_add_op(s1, value, with_carry), Ok(())),
        Err(e) => (s1, Err(e)),
    }
}

/// SUB/SBC: the difference is written back to A.
pub open spec fn spec_sub<S: Storage>(s: CpuSnap, src: S, with_carry: bool) -> (CpuSnap, Result<
    (),
    CpuError,
>) {
    let (s1, r) = src.read_spec(s);
    match r {
        Ok(value) => {
            let (s2, result) = spec_sub_op(s1, value, with_carry);
            (CpuSnap { regs: Registers { a: result, ..s2.regs }, ..s2 }, Ok(()))
        },
        Err(e) => (s1, Err(e)),
    }
}

/// CP: computes the difference exactly as SUB but discards the result; A is
/// unchanged while the flags are still updated.
pub open spec fn spec_cp<S: Storage>(s: CpuSnap, src: S) -> (CpuSnap, Result<(), CpuError>) {
    let (s1, r) = src.read_spec(s);
    match r {
        Ok(value) => (spec_sub_op(s1, value, false).0, Ok(())),
        Err(e) => (s1, Err(e)),
    }
}

/// ADD HL, rr: wrapping 16-bit add into HL; no flag is computed.
pub open spec fn spec_add_hl(s: CpuSnap, register: Register16) -> CpuSnap {
    let result = u16_specs::wrapping_add(
        s.regs.spec_pair(register),
        s.regs.spec_pair(Register16::HL),
    );
    CpuSnap { regs: s.regs.spec_with_pair(Register16::HL, result), ..s }
}

/// ADD SP, signed immediate: sign-extend the fetched byte before the
/// wrapping 16-bit addition.
pub open spec fn spec_add_sp(s: CpuSnap) -> (CpuSnap, Result<(), CpuError>) {
    let (s1, r) = spec_load_byte_inc_pc(s);
    match r {
        Ok(offset) => {
            let result = u16_specs::wrapping_add(spec_sign_extend(offset), s1.regs.sp);
            (CpuSnap { regs: s1.regs.spec_with_pair(Register16::SP, result), ..s1 }, Ok(()))
        },
        Err(e) => (s1, Err(e)),
    }
}

/// INC: wrapping +1; Zero reflects the result; Carry is explicitly preserved
/// unchanged.
pub open spec fn spec_inc<S: Storage>(s: CpuSnap, storage: S) -> (CpuSnap, Result<(), CpuError>) {
    let (s1, r) = storage.read_spec(s);
    match r {
        Ok(v) => {
            let value = u8_specs::wrapping_add(v, 1);
            let carry = flag_test(s1.regs.f, CARRY_FLAG);
            let f = flag_set(flag_set(s1.regs.f, ZERO_FLAG, value == 0), CARRY_FLAG, carry);
            storage.write_spec(CpuSnap { regs: Registers { f: f, ..s1.regs }, ..s1 }, value)
        },
        Err(e) => (s1, Err(e)),
    }
}

/// DEC: wrapping -1; Zero reflects the result; Carry is preserved.
pub open spec fn spec_dec<S: Storage>(s: CpuSnap, storage: S) -> (CpuSnap, Result<(), CpuError>) {
    let (s1, r) = storage.read_spec(s);
    match r {
        Ok(v) => {
            let value = u8_specs::wrapping_sub(v, 1);
            let carry = flag_test(s1.regs.f, CARRY_FLAG);
            let f = flag_set(flag_set(s1.regs.f, ZERO_FLAG, value == 0), CARRY_FLAG, carry);
            storage.write_spec(CpuSnap { regs: Registers { f: f, ..s1.regs }, ..s1 }, value)
        },
        Err(e) => (s1, Err(e)),
    }
}

/// INC rr: wrapping +1 on the pair; Zero from the 16-bit result; Carry
/// preserved.
pub open spec fn spec_inc_16(s: CpuSnap, register: Register16) -> CpuSnap {
    let value = u16_specs::wrapping_add(s.regs.spec_pair(register), 1);
    let carry = flag_test(s.regs.f, CARRY_FLAG);
    let f = flag_set(flag_set(s.regs.f, ZERO_FLAG, value == 0), CARRY_FLAG, carry);
    CpuSnap {
        regs: Registers { f: f, ..s.regs }.spec_with_pair(register, value),
        ..s
    }
}

/// DEC rr: wrapping -1 on the pair; Zero from the 16-bit result; Carry
/// preserved.
pub open spec fn spec_dec_16(s: CpuSnap, register: Register16) -> CpuSnap {
    let value = u16_specs::wrapping_sub(s.regs.spec_pair(register), 1);
    let carry = flag_test(s.regs.f, CARRY_FLAG);
    let f = flag_set(flag_set(s.regs.f, ZERO_FLAG, value == 0), CARRY_FLAG, carry);
    CpuSnap {
        regs: Registers { f: f, ..s.regs }.spec_with_pair(register, value),
        ..s
    }
}

/// The snapshot after taking a jump to `address`: one extra cycle.
pub open spec fn spec_jump_to(s: CpuSnap, address: u16) -> CpuSnap {
    let s1 = spec_tick(s, 1);
    CpuSnap { regs: Registers { pc: address, ..s1.regs }, ..s1 }
}

/// JP nn: the operand is always consumed; PC then takes it.
pub open spec fn spec_jp(s: CpuSnap) -> (CpuSnap, Result<(), CpuError>) {
    let (s1, r) = spec_load_word_inc_pc(s);
    match r {
        Ok(address) => (spec_jump_to(s1, address), Ok(())),
        Err(e) => (s1, Err(e)),
    }
}

/// JP HL.
pub open spec fn spec_jp_hl(s: CpuSnap) -> CpuSnap {
    spec_jump_to(s, s.regs.spec_pair(Register16::HL))
}

/// JP cc, nn: the operand is always consumed; the jump happens only when the
/// flag is set.
pub open spec fn spec_jp_if(s: CpuSnap, flag: u8) -> (CpuSnap, Result<(), CpuError>) {
    let (s1, r) = spec_load_word_inc_pc(s);
    match r {
        Ok(address) => if flag_test(s1.regs.f, flag) {
            (spec_jump_to(s1, address), Ok(()))
        } else {
            (s1, Ok(()))
        },
        Err(e) => (s1, Err(e)),
    }
}

/// JP cc, nn with the flag clear as the taken polarity.
pub open spec fn spec_jp_unless(s: CpuSnap, flag: u8) -> (CpuSnap, Result<(), CpuError>) {
    let (s1, r) = spec_load_word_inc_pc(s);
    match r {
        Ok(address) => if !flag_test(s1.regs.f, flag) {
            (spec_jump_to(s1, address), Ok(()))
        } else {
            (s1, Ok(()))
        },
        Err(e) => (s1, Err(e)),
    }
}

/// JR e: the signed offset is added to the PC already advanced past the
/// operand.
pub open spec fn spec_jr(s: CpuSnap) -> (CpuSnap, Result<(), CpuError>) {
    let (s1, r) = spec_load_byte_inc_pc(s);
    match r {
        Ok(offset) => (
            spec_jump_to(s1, u16_specs::wrapping_add(s1.regs.pc, spec_sign_extend(offset))),
            Ok(()),
        ),
        Err(e) => (s1, Err(e)),
    }
}

/// JR cc, e: the operand is always consumed; the branch happens only when
/// the flag is set.
pub open spec fn spec_jr_if(s: CpuSnap, flag: u8) -> (CpuSnap, Result<(), CpuError>) {
    let (s1, r) = spec_load_byte_inc_pc(s);
    match r {
        Ok(offset) => if flag_test(s1.regs.f, flag) {
            (
                spec_jump_to(s1, u16_specs::wrapping_add(s1.regs.pc, spec_sign_extend(offset))),
                Ok(()),
            )
        } else {
            (s1, Ok(()))
        },
        Err(e) => (s1, Err(e)),
    }
}

/// JR cc, e with the flag clear as the taken polarity.
pub open spec fn spec_jr_unless(s: CpuSnap, flag: u8) -> (CpuSnap, Result<(), CpuError>) {
    let (s1, r) = spec_load_byte_inc_pc(s);
    match r {
        Ok(offset) => if !flag_test(s1.regs.f, flag) {
            (
                spec_jump_to(s1, u16_specs::wrapping_add(s1.regs.pc, spec_sign_extend(offset))),
                Ok(()),
            )
        } else {
            (s1, Ok(()))
        },
        Err(e) => (s1, Err(e)),
    }
}

/// The call effect: push the return address (the current PC), then jump.
pub open spec fn spec_call_op(s: CpuSnap, address: u16) -> (CpuSnap, Result<(), CpuError>) {
    let (s1, r) = spec_push_word(s, s.regs.pc);
    match r {
        Ok(u) => (spec_jump_to(s1, address), Ok(())),
        Err(e) => (s1, Err(e)),
    }
}

/// CALL nn.
pub open spec fn spec_call(s: CpuSnap) -> (CpuSnap, Result<(), CpuError>) {
    let (s1, r) = spec_load_word_inc_pc(s);
    match r {
        Ok(address) => spec_call_op(s1, address),
        Err(e) => (s1, Err(e)),
    }
}

/// CALL cc, nn: the operand is always consumed.
pub open spec fn spec_call_if(s: CpuSnap, flag: u8) -> (CpuSnap, Result<(), CpuError>) {
    let (s1, r) = spec_load_word_inc_pc(s);
    match r {
        Ok(address) => if flag_test(s1.regs.f, flag) {
            spec_call_op(s1, address)
        } else {
            (s1, Ok(()))
        },
        Err(e) => (s1, Err(e)),
    }
}

/// CALL cc, nn with the flag clear as the taken polarity.
pub open spec fn spec_call_unless(s: CpuSnap, flag: u8) -> (CpuSnap, Result<(), CpuError>) {
    let (s1, r) = spec_load_word_inc_pc(s);
    match r {
        Ok(address) => if !flag_test(s1.regs.f, flag) {
            spec_call_op(s1, address)
        } else {
            (s1, Ok(()))
        },
        Err(e) => (s1, Err(e)),
    }
}

/// RET: pop into PC.
pub open spec fn spec_ret(s: CpuSnap) -> (CpuSnap, Result<(), CpuError>) {
    let (s1, r) = spec_pop_word(s);
    match r {
        Ok(address) => (spec_jump_to(s1, address), Ok(())),
        Err(e) => (s1, Err(e)),
    }
}

/// RET cc: no operand; the return happens only when the flag is set.
pub open spec fn spec_ret_if(s: CpuSnap, flag: u8) -> (CpuSnap, Result<(), CpuError>) {
    if flag_test(s.regs.f, flag) {
        spec_ret(s)
    } else {
        (s, Ok(()))
    }
}

/// RET cc with the flag clear as the taken polarity.
pub open spec fn spec_ret_unless(s: CpuSnap, flag: u8) -> (CpuSnap, Result<(), CpuError>) {
    if !flag_test(s.regs.f, flag) {
        spec_ret(s)
    } else {
        (s, Ok(()))
    }
}

/// RETI: re-enable the interrupt master, then return.
pub open spec fn spec_reti(s: CpuSnap) -> (CpuSnap, Result<(), CpuError>) {
    spec_ret(CpuSnap { ime: true, ..s })
}

/// RST: push the current PC and jump to the fixed vector.
pub open spec fn spec_rst(s: CpuSnap, address: u16) -> (CpuSnap, Result<(), CpuError>) {
    spec_call_op(s, address)
}

/// SWAP: exchange the operand's nibbles; flags reset, Zero from the result.
pub open spec fn spec_swap<S: Storage>(s: CpuSnap, storage: S) -> (CpuSnap, Result<(), CpuError>) {
    let (s1, r) = storage.read_spec(s);
    match r {
        Ok(original) => {
            let value = (original >> 4) | (original << 4);
            let f = flag_set(0u8, ZERO_FLAG, value == 0);
            storage.write_spec(CpuSnap { regs: Registers { f: f, ..s1.regs }, ..s1 }, value)
        },
        Err(e) => (s1, Err(e)),
    }
}

/// BIT n: Zero is set iff bit n of the operand is 0; the operand is not
/// modified.
pub open spec fn spec_bit<S: Storage>(s: CpuSnap, bit: u8, storage: S) -> (CpuSnap, Result<
    (),
    CpuError,
>) {
    let (s1, r) = storage.read_spec(s);
    match r {
        Ok(v) => {
            let value = v & (1u8 << bit);
            (
                CpuSnap {
                    regs: Registers {
                        f: flag_set(s1.regs.f, ZERO_FLAG, value == 0),
                        ..s1.regs
                    },
                    ..s1
                },
                Ok(()),
            )
        },
        Err(e) => (s1, Err(e)),
    }
}

/// RES n: clear bit n of the operand and write it back.
pub open spec fn spec_res<S: Storage>(s: CpuSnap, bit: u8, storage: S) -> (CpuSnap, Result<
    (),
    CpuError,
>) {
    let (s1, r) = storage.read_spec(s);
    match r {
        Ok(v) => storage.write_spec(s1, v & !(1u8 << bit)),
        Err(e) => (s1, Err(e)),
    }
}

/// SET n: set bit n of the operand and write it back.
pub open spec fn spec_set<S: Storage>(s: CpuSnap, bit: u8, storage: S) -> (CpuSnap, Result<
    (),
    CpuError,
>) {
    let (s1, r) = storage.read_spec(s);
    match r {
        Ok(v) => storage.write_spec(s1, v | (1u8 << bit)),
        Err(e) => (s1, Err(e)),
    }
}

impl Cpu {
    fn illegal(&self, instruction: u8) -> (r: Result<(), CpuError>)
        ensures
            r == Err::<(), CpuError>(CpuError::IllegalOpcode(instruction)),
    {
        Err(CpuError::IllegalOpcode(instruction))
    }

    fn ld<In: Storage, Out: Storage>(&mut self, a: Out, b: In) -> (r: Result<(), CpuError>)
        requires
            old(self).wf(),
        ensures
            final(self).wf(),
            (final(self)@, r) == spec_ld(old(self)@, a, b),
    {
        let value = match b.load(self) {
            Ok(v) => v,
            Err(e) => {
                return Err(e);
            },
        };
        a.store(self, value)
    }

    fn ld_sp_hl(&mut self)
        ensures
            final(self)@ == spec_ld_sp_hl(old(self)@),
            final(self).wf() == old(self).wf(),
    {
        let value = self.registers.hl();
        self.registers.sp = value;
    }

    fn ld_hl_sp(&mut self) -> (r: Result<(), CpuError>)
        requires
            old(self).wf(),
        ensures
            final(self).wf(),
            (final(self)@, r) == spec_ld_hl_sp(old(self)@),
    {
        let offset = match self.load_byte_and_inc_pc() {
            Ok(b) => b,
            Err(e) => {
                return Err(e);
            },
        };
        let sp = self.registers.sp;
        let address = sign_extend(offset).wrapping_add(sp);
        self.registers.store_16(Register16::HL, address);
        Ok(())
    }

    fn ld_word_immediate(&mut self, register: Register16) -> (r: Result<(), CpuError>)
        requires
            old(self).wf(),
        ensures
            final(self).wf(),
            (final(self)@, r) == spec_ld_word_immediate(old(self)@, register),
    {
        let value = match self.load_word_and_inc_pc() {
            Ok(w) => w,
            Err(e) => {
                return Err(e);
            },
        };
        self.registers.store_16(register, value);
        Ok(())
    }

    fn ld_indirect_sp(&mut self) -> (r: Result<(), CpuError>)
        requires
            old(self).wf(),
        ensures
            final(self).wf(),
            (final(self)@, r) == spec_ld_indirect_sp(old(self)@),
    {
        let address = match self.load_word_and_inc_pc() {
            Ok(w) => w,
            Err(e) => {
                return Err(e);
            },
        };
        let value = self.registers.sp;
        self.store_word(address, value)
    }

    fn pop(&mut self, register: Register16) -> (r: Result<(), CpuError>)
        requires
            old(self).wf(),
        ensures
            final(self).wf(),
            (final(self)@, r) == spec_pop(old(self)@, register),
    {
        let word = match self.pop_word() {
            Ok(w) => w,
            Err(e) => {
                return Err(e);
            },
        };
        self.registers.store_16(register, word);
        Ok(())
    }

    fn push(&mut self, register: Register16) -> (r: Result<(), CpuError>)
        requires
            old(self).wf(),
        ensures
            final(self).wf(),
            (final(self)@, r) == spec_push(old(self)@, register),
    {
        let value = self.registers.load_16(register);
        self.push_word(value)
    }

    fn and<S: Storage>(&mut self, s: S) -> (r: Result<(), CpuError>)
        requires
            old(self).wf(),
        ensures
            final(self).wf(),
            (final(self)@, r) == spec_and(old(self)@, s),
    {
        let v = match s.load(self) {
            Ok(v) => v,
            Err(e) => {
                return Err(e);
            },
        };
        let value = self.registers.a & v;
        self.registers.a = value;
        self.registers.f = 0;
        self.registers.set_zero(value == 0);
        Ok(())
    }

    fn or<S: Storage>(&mut self, s: S) -> (r: Result<(), CpuError>)
        requires
            old(self).wf(),
        ensures
            final(self).wf(),
            (final(self)@, r) == spec_or(old(self)@, s),
    {
        let v = match s.load(self) {
            Ok(v) => v,
            Err(e) => {
                return Err(e);
            },
        };
        let value = self.registers.a | v;
        self.registers.a = value;
        self.registers.f = 0;
        self.registers.set_zero(value == 0);
        Ok(())
    }

    fn xor<S: Storage>(&mut self, s: S) -> (r: Result<(), CpuError>)
        requires
            old(self).wf(),
        ensures
            final(self).wf(),
            (final(self)@, r) == spec_xor(old(self)@, s),
    {
        let v = match s.load(self) {
            Ok(v) => v,
            Err(e) => {
                return Err(e);
            },
        };
        let value = self.registers.a ^ v;
        self.registers.a = value;
        self.registers.f = 0;
        self.registers.set_zero(value == 0);
        Ok(())
    }

    fn rlca(&mut self)
        ensures
            final(self)@ == spec_rlca(old(self)@),
            final(self).wf() == old(self).wf(),
    {
        let a = self.registers.a;
        let value = (a << 1u8) | (a >> 7u8);
        self.registers.set_carry(value & 1 != 0);
        self.registers.a = value;
    }

    fn rrca(&mut self)
        ensures
            final(self)@ == spec_rrca(old(self)@),
            final(self).wf() == old(self).wf(),
    {
        let a = self.registers.a;
        let value = (a >> 1u8) | (a << 7u8);
        self.registers.set_carry(value & 0x80 != 0);
        self.registers.a = value;
    }

    fn rla(&mut self)
        ensures
            final(self)@ == spec_rla(old(self)@),
            final(self).wf() == old(self).wf(),
    {
        let a = self.registers.a;
        let value = (a << 1u8) | self.registers.carry();
        self.registers.set_carry(a & 0x80 != 0);
        self.registers.a = value;
    }

    fn rra(&mut self)
        ensures
            final(self)@ == spec_rra(old(self)@),
            final(self).wf() == old(self).wf(),
    {
        let a = self.registers.a;
        let value = (a >> 1u8) | (self.registers.carry() << 7u8);
        self.registers.set_carry(a & 1 != 0);
        self.registers.a = value;
    }

    fn add_op(&mut self, value: u8, carry: bool)
        ensures
            final(self)@ == spec_add_op(old(self)@, value, carry),
            final(self).wf() == old(self).wf(),
    {
        let cin: u16 = if carry {
            self.registers.carry() as u16
        } else {
            0
        };
        let sum: u16 = self.registers.a as u16 + value as u16 + cin;
        let result: u8 = if sum >= 256 {
            (sum - 256) as u8
        } else {
            sum as u8
        };
        self.registers.set_carry(sum >= 256);
        self.registers.set_zero(result == 0);
        self.registers.a = result;
    }

    fn add<S: Storage>(&mut self, s: S) -> (r: Result<(), CpuError>)
        requires
            old(self).wf(),
        ensures
            final(self).wf(),
            (final(self)@, r) == spec_add(old(self)@, s, false),
    {
        let value = match s.load(self) {
            Ok(v) => v,
            Err(e) => {
                return Err(e);
            },
        };
        self.add_op(value, false);
        Ok(())
    }

    fn adc<S: Storage>(&mut self, s: S) -> (r: Result<(), CpuError>)
        requires
            old(self).wf(),
        ensures
            final(self).wf(),
            (final(self)@, r) == spec_add(old(self)@, s, true),
    {
        let value = match s.load(self) {
            Ok(v) => v,
            Err(e) => {
                return Err(e);
            },
        };
        self.add_op(value, true);
        Ok(())
    }

    fn add_hl(&mut self, register: Register16)
        ensures
            final(self)@ == spec_add_hl(old(self)@, register),
            final(self).wf() == old(self).wf(),
    {
        let hl = self.registers.hl();
        let value = self.registers.load_16(register);
        let result = value.wrapping_add(hl);
        self.registers.store_16(Register16::HL, result);
    }

    fn add_sp(&mut self) -> (r: Result<(), CpuError>)
        requires
            old(self).wf(),
        ensures
            final(self).wf(),
            (final(self)@, r) == spec_add_sp(old(self)@),
    {
        let sp = self.registers.sp;
        let offset = match self.load_byte_and_inc_pc() {
            Ok(b) => b,
            Err(e) => {
                return Err(e);
            },
        };
        let result = sign_extend(offset).wrapping_add(sp);
        self.registers.store_16(Register16::SP, result);
        Ok(())
    }

    fn sub_op(&mut self, value: u8, carry: bool) -> (r: u8)
        ensures
            (final(self)@, r) == spec_sub_op(old(self)@, value, carry),
            final(self).wf() == old(self).wf(),
    {
        let cin: u16 = if carry {
            self.registers.carry() as u16
        } else {
            0
        };
        let total: u16 = self.registers.a as u16 + 256 - value as u16 - cin;
        let result: u8 = if total >= 256 {
            (total - 256) as u8
        } else {
            total as u8
        };
        self.registers.set_carry(total < 256);
        self.registers.set_zero(result == 0);
        result
    }

    fn sub<S: Storage>(&mut self, s: S) -> (r: Result<(), CpuError>)
        requires
            old(self).wf(),
        ensures
            final(self).wf(),
            (final(self)@, r) == spec_sub(old(self)@, s, false),
    {
        let value = match s.load(self) {
            Ok(v) => v,
            Err(e) => {
                return Err(e);
            },
        };
        self.registers.a = self.sub_op(value, false);
        Ok(())
    }

    fn sbc<S: Storage>(&mut self, s: S) -> (r: Result<(), CpuError>)
        requires
            old(self).wf(),
        ensures
            final(self).wf(),
            (final(self)@, r) == spec_sub(old(self)@, s, true),
    {
        let value = match s.load(self) {
            Ok(v) => v,
            Err(e) => {
                return Err(e);
            },
        };
        self.registers.a = self.sub_op(value, true);
        Ok(())
    }

    fn cp<S: Storage>(&mut self, s: S) -> (r: Result<(), CpuError>)
        requires
            old(self).wf(),
        ensures
            final(self).wf(),
            (final(self)@, r) == spec_cp(old(self)@, s),
    {
        let value = match s.load(self) {
            Ok(v) => v,
            Err(e) => {
                return Err(e);
            },
        };
        let _ = self.sub_op(value, false);
        Ok(())
    }

    fn inc<S: Storage>(&mut self, storage: S) -> (r: Result<(), CpuError>)
        requires
            old(self).wf(),
        ensures
            final(self).wf(),
            (final(self)@, r) == spec_inc(old(self)@, storage),
    {
        let v = match storage.load(self) {
            Ok(v) => v,
            Err(e) => {
                return Err(e);
            },
        };
        let value = v.wrapping_add(1);
        let carry = self.registers.test_flag(CARRY_FLAG);
        self.registers.set_zero(value == 0);
        self.registers.set_carry(carry);
        storage.store(self, value)
    }

    fn inc_16(&mut self, register: Register16)
        ensures
            final(self)@ == spec_inc_16(old(self)@, register),
            final(self).wf() == old(self).wf(),
    {
        let value = self.registers.load_16(register).wrapping_add(1);
        let carry = self.registers.test_flag(CARRY_FLAG);
        self.registers.set_zero(value == 0);
        self.registers.set_carry(carry);
        self.registers.store_16(register, value);
    }

    fn dec<S: Storage>(&mut self, storage: S) -> (r: Result<(), CpuError>)
        requires
            old(self).wf(),
        ensures
            final(self).wf(),
            (final(self)@, r) == spec_dec(old(self)@, storage),
    {
        let v = match storage.load(self) {
            Ok(v) => v,
            Err(e) => {
                return Err(e);
            },
        };
        let value = v.wrapping_sub(1);
        let carry = self.registers.test_flag(CARRY_FLAG);
        self.registers.set_zero(value == 0);
        self.registers.set_carry(carry);
        storage.store(self, value)
    }

    fn dec_16(&mut self, register: Register16)
        ensures
            final(self)@ == spec_dec_16(old(self)@, register),
            final(self).wf() == old(self).wf(),
    {
        let value = self.registers.load_16(register).wrapping_sub(1);
        let carry = self.registers.test_flag(CARRY_FLAG);
        self.registers.set_zero(value == 0);
        self.registers.set_carry(carry);
        self.registers.store_16(register, value);
    }

    fn jp(&mut self) -> (r: Result<(), CpuError>)
        requires
            old(self).wf(),
        ensures
            final(self).wf(),
            (final(self)@, r) == spec_jp(old(self)@),
    {
        let address = match self.load_word_and_inc_pc() {
            Ok(w) => w,
            Err(e) => {
                return Err(e);
            },
        };
        self.registers.pc = address;
        self.cycles = self.cycles.wrapping_add(1);
        Ok(())
    }

    fn jp_hl(&mut self)
        ensures
            final(self)@ == spec_jp_hl(old(self)@),
            final(self).wf() == old(self).wf(),
    {
        let address = self.registers.hl();
        self.registers.pc = address;
        self.cycles = self.cycles.wrapping_add(1);
    }

    fn jp_if(&mut self, flag: u8) -> (r: Result<(), CpuError>)
        requires
            old(self).wf(),
        ensures
            final(self).wf(),
            (final(self)@, r) == spec_jp_if(old(self)@, flag),
    {
        let address = match self.load_word_and_inc_pc() {
            Ok(w) => w,
            Err(e) => {
                return Err(e);
            },
        };
        if self.registers.test_flag(flag) {
            self.registers.pc = address;
            self.cycles = self.cycles.wrapping_add(1);
        }
        Ok(())
    }

    fn jp_unless(&mut self, flag: u8) -> (r: Result<(), CpuError>)
        requires
            old(self).wf(),
        ensures
            final(self).wf(),
            (final(self)@, r) == spec_jp_unless(old(self)@, flag),
    {
        let address = match self.load_word_and_inc_pc() {
            Ok(w) => w,
            Err(e) => {
                return Err(e);
            },
        };
        if !self.registers.test_flag(flag) {
            self.registers.pc = address;
            self.cycles = self.cycles.wrapping_add(1);
        }
        Ok(())
    }

    fn jr(&mut self) -> (r: Result<(), CpuError>)
        requires
            old(self).wf(),
        ensures
            final(self).wf(),
            (final(self)@, r) == spec_jr(old(self)@),
    {
        let offset = match self.load_byte_and_inc_pc() {
            Ok(b) => b,
            Err(e) => {
                return Err(e);
            },
        };
        self.registers.pc = self.registers.pc.wrapping_add(sign_extend(offset));
        self.cycles = self.cycles.wrapping_add(1);
        Ok(())
    }

    fn jr_if(&mut self, flag: u8) -> (r: Result<(), CpuError>)
        requires
            old(self).wf(),
        ensures
            final(self).wf(),
            (final(self)@, r) == spec_jr_if(old(self)@, flag),
    {
        let offset = match self.load_byte_and_inc_pc() {
            Ok(b) => b,
            Err(e) => {
                return Err(e);
            },
        };
        if self.registers.test_flag(flag) {
            self.registers.pc = self.registers.pc.wrapping_add(sign_extend(offset));
            self.cycles = self.cycles.wrapping_add(1);
        }
        Ok(())
    }

    fn jr_unless(&mut self, flag: u8) -> (r: Result<(), CpuError>)
        requires
            old(self).wf(),
        ensures
            final(self).wf(),
            (final(self)@, r) == spec_jr_unless(old(self)@, flag),
    {
        let offset = match self.load_byte_and_inc_pc() {
            Ok(b) => b,
            Err(e) => {
                return Err(e);
            },
        };
        if !self.registers.test_flag(flag) {
            self.registers.pc = self.registers.pc.wrapping_add(sign_extend(offset));
            self.cycles = self.cycles.wrapping_add(1);
        }
        Ok(())
    }

    fn call_op(&mut self, address: u16) -> (r: Result<(), CpuError>)
        requires
            old(self).wf(),
        ensures
            final(self).wf(),
            (final(self)@, r) == spec_call_op(old(self)@, address),
    {
        let return_address = self.registers.pc;
        match self.push_word(return_address) {
            Ok(u) => {},
            Err(e) => {
                return Err(e);
            },
        }
        self.registers.pc = address;
        self.cycles = self.cycles.wrapping_add(1);
        Ok(())
    }

    fn call(&mut self) -> (r: Result<(), CpuError>)
        requires
            old(self).wf(),
        ensures
            final(self).wf(),
            (final(self)@, r) == spec_call(old(self)@),
    {
        let address = match self.load_word_and_inc_pc() {
            Ok(w) => w,
            Err(e) => {
                return Err(e);
            },
        };
        self.call_op(address)
    }

    fn call_if(&mut self, flag: u8) -> (r: Result<(), CpuError>)
        requires
            old(self).wf(),
        ensures
            final(self).wf(),
            (final(self)@, r) == spec_call_if(old(self)@, flag),
    {
        let address = match self.load_word_and_inc_pc() {
            Ok(w) => w,
            Err(e) => {
                return Err(e);
            },
        };
        if self.registers.test_flag(flag) {
            self.call_op(address)
        } else {
            Ok(())
        }
    }

    fn call_unless(&mut self, flag: u8) -> (r: Result<(), CpuError>)
        requires
            old(self).wf(),
        ensures
            final(self).wf(),
            (final(self)@, r) == spec_call_unless(old(self)@, flag),
    {
        let address = match self.load_word_and_inc_pc() {
            Ok(w) => w,
            Err(e) => {
                return Err(e);
            },
        };
        if !self.registers.test_flag(flag) {
            self.call_op(address)
        } else {
            Ok(())
        }
    }

    fn ret(&mut self) -> (r: Result<(), CpuError>)
        requires
            old(self).wf(),
        ensures
            final(self).wf(),
            (final(self)@, r) == spec_ret(old(self)@),
    {
        let address = match self.pop_word() {
            Ok(w) => w,
            Err(e) => {
                return Err(e);
            },
        };
        self.registers.pc = address;
        self.cycles = self.cycles.wrapping_add(1);
        Ok(())
    }

    fn ret_if(&mut self, flag: u8) -> (r: Result<(), CpuError>)
        requires
            old(self).wf(),
        ensures
            final(self).wf(),
            (final(self)@, r) == spec_ret_if(old(self)@, flag),
    {
        if self.registers.test_flag(flag) {
            self.ret()
        } else {
            Ok(())
        }
    }

    fn ret_unless(&mut self, flag: u8) -> (r: Result<(), CpuError>)
        requires
            old(self).wf(),
        ensures
            final(self).wf(),
            (final(self)@, r) == spec_ret_unless(old(self)@, flag),
    {
        if !self.registers.test_flag(flag) {
            self.ret()
        } else {
            Ok(())
        }
    }

    fn reti(&mut self) -> (r: Result<(), CpuError>)
        requires
            old(self).wf(),
        ensures
            final(self).wf(),
            (final(self)@, r) == spec_reti(old(self)@),
    {
        self.interrupt = true;
        self.ret()
    }

    fn ei(&mut self)
        ensures
            final(self)@ == (CpuSnap { ime: true, ..old(self)@ }),
            final(self).wf() == old(self).wf(),
    {
        self.interrupt = true;
    }

    fn di(&mut self)
        ensures
            final(self)@ == (CpuSnap { ime: false, ..old(self)@ }),
            final(self).wf() == old(self).wf(),
    {
        self.interrupt = false;
    }

    fn ccf(&mut self)
        ensures
            final(self)@ == (CpuSnap {
                regs: old(self)@.regs.spec_with_flag(
                    CARRY_FLAG,
                    !flag_test(old(self)@.regs.f, CARRY_FLAG),
                ),
                ..old(self)@
            }),
            final(self).wf() == old(self).wf(),
    {
        let carry = self.registers.test_flag(CARRY_FLAG);
        self.registers.set_carry(!carry);
    }

    fn scf(&mut self)
        ensures
            final(self)@ == (CpuSnap {
                regs: old(self)@.regs.spec_with_flag(CARRY_FLAG, true),
                ..old(self)@
            }),
            final(self).wf() == old(self).wf(),
    {
        self.registers.set_carry(true);
    }

    fn cpl(&mut self)
        ensures
            final(self)@ == (CpuSnap {
                regs: Registers { a: !old(self)@.regs.a, ..old(self)@.regs },
                ..old(self)@
            }),
            final(self).wf() == old(self).wf(),
    {
        self.registers.a = !self.registers.a;
    }

    fn rst(&mut self, address: u16) -> (r: Result<(), CpuError>)
        requires
            old(self).wf(),
        ensures
            final(self).wf(),
            (final(self)@, r) == spec_rst(old(self)@, address),
    {
        let pc = self.registers.pc;
        match self.push_word(pc) {
            Ok(u) => {},
            Err(e) => {
                return Err(e);
            },
        }
        self.registers.pc = address;
        self.cycles = self.cycles.wrapping_add(1);
        Ok(())
    }

    fn swap<S: Storage>(&mut self, register: S) -> (r: Result<(), CpuError>)
        requires
            old(self).wf(),
        ensures
            final(self).wf(),
            (final(self)@, r) == spec_swap(old(self)@, register),
    {
        let original = match register.load(self) {
            Ok(v) => v,
            Err(e) => {
                return Err(e);
            },
        };
        let value = (original >> 4u8) | (original << 4u8);
        self.registers.f = 0;
        self.registers.set_zero(value == 0);
        register.store(self, value)
    }

    fn bit<S: Storage>(&mut self, bit: u8, register: S) -> (r: Result<(), CpuError>)
        requires
            old(self).wf(),
            bit < 8,
        ensures
            final(self).wf(),
            (final(self)@, r) == spec_bit(old(self)@, bit, register),
    {
        let v = match register.load(self) {
            Ok(v) => v,
            Err(e) => {
                return Err(e);
            },
        };
        let value = v & (1u8 << bit);
        self.registers.set_zero(value == 0);
        Ok(())
    }

    fn res<S: Storage>(&mut self, bit: u8, register: S) -> (r: Result<(), CpuError>)
        requires
            old(self).wf(),
            bit < 8,
        ensures
            final(self).wf(),
            (final(self)@, r) == spec_res(old(self)@, bit, register),
    {
        let v = match register.load(self) {
            Ok(v) => v,
            Err(e) => {
                return Err(e);
            },
        };
        register.store(self, v & !(1u8 << bit))
    }

    fn set<S: Storage>(&mut self, bit: u8, register: S) -> (r: Result<(), CpuError>)
        requires
            old(self).wf(),
            bit < 8,
        ensures
            final(self).wf(),
            (final(self)@, r) == spec_set(old(self)@, bit, register),
    {
        let v = match register.load(self) {
            Ok(v) => v,
            Err(e) => {
                return Err(e);
            },
        };
        register.store(self, v | (1u8 << bit))
    }
}



/// CCF: toggle the Carry flag.
pub open spec fn spec_ccf(s: CpuSnap) -> CpuSnap {
    CpuSnap {
        regs: s.regs.spec_with_flag(CARRY_FLAG, !flag_test(s.regs.f, CARRY_FLAG)),
        ..s
    }
}

/// SCF: set the Carry flag unconditionally.
pub open spec fn spec_scf(s: CpuSnap) -> CpuSnap {
    CpuSnap { regs: s.regs.spec_with_flag(CARRY_FLAG, true), ..s }
}

/// CPL: bitwise complement of A; no flag effect in this core.
pub open spec fn spec_cpl(s: CpuSnap) -> CpuSnap {
    CpuSnap { regs: Registers { a: !s.regs.a, ..s.regs }, ..s }
}

/// EI: set the interrupt master enable.
pub open spec fn spec_ei(s: CpuSnap) -> CpuSnap {
    CpuSnap { ime: true, ..s }
}

/// DI: clear the interrupt master enable.
pub open spec fn spec_di(s: CpuSnap) -> CpuSnap {
    CpuSnap { ime: false, ..s }
}

/// Table semantics for the miscellaneous block: 16-bit loads, INC/DEC, rotates, relative branches.
pub open spec fn spec_execute_low(s: CpuSnap, instr: u8) -> (CpuSnap, Result<
    (),
    CpuError,
>) {
    match instr {
        0x00 => (s, Ok(())),
        0x01 => spec_ld_word_immediate(s, BC),
        0x02 => spec_ld(s, BC, A),
        0x03 => (spec_inc_16(s, BC), Ok(())),
        0x04 => spec_inc(s, B),
        0x05 => spec_dec(s, B),
        0x06 => spec_ld(s, B, ImmediateStorage),
        0x07 => (spec_rlca(s), Ok(())),
        0x08 => spec_ld_indirect_sp(s),
        0x09 => (spec_add_hl(s, BC), Ok(())),
        0x0A => spec_ld(s, A, BC),
        0x0B => (spec_dec_16(s, BC), Ok(())),
        0x0C => spec_inc(s, C),
        0x0D => spec_dec(s, C),
        0x0E => spec_ld(s, C, ImmediateStorage),
        0x0F => (spec_rrca(s), Ok(())),
        0x10 => (s, Err(CpuError::UnimplementedOpcode(instr))),
        0x11 => spec_ld_word_immediate(s, DE),
        0x12 => spec_ld(s, DE, A),
        0x13 => (spec_inc_16(s, DE), Ok(())),
        0x14 => spec_inc(s, D),
        0x15 => spec_dec(s, D),
        0x16 => spec_ld(s, D, ImmediateStorage),
        0x17 => (spec_rla(s), Ok(())),
        0x18 => spec_jr(s),
        0x19 => (spec_add_hl(s, DE), Ok(())),
        0x1A => spec_ld(s, A, DE),
        0x1B => (spec_dec_16(s, DE), Ok(())),
        0x1C => spec_inc(s, E),
        0x1D => spec_dec(s, E),
        0x1E => spec_ld(s, E, ImmediateStorage),
        0x1F => (spec_rra(s), Ok(())),
        0x20 => spec_jr_unless(s, ZERO_FLAG),
        0x21 => spec_ld_word_immediate(s, HL),
        0x22 => spec_ld(s, Indirect::HLI, A),
        0x23 => (spec_inc_16(s, HL), Ok(())),
        0x24 => spec_inc(s, H),
        0x25 => spec_dec(s, H),
        0x26 => spec_ld(s, H, ImmediateStorage),
        0x27 => (s, Err(CpuError::UnimplementedOpcode(instr))),
        0x28 => spec_jr_if(s, ZERO_FLAG),
        0x29 => (spec_add_hl(s, HL), Ok(())),
        0x2A => spec_ld(s, A, Indirect::HLI),
        0x2B => (spec_dec_16(s, HL), Ok(())),
        0x2C => spec_inc(s, L),
        0x2D => spec_dec(s, L),
        0x2E => spec_ld(s, L, ImmediateStorage),
        0x2F => (spec_cpl(s), Ok(())),
        0x30 => spec_jr_unless(s, CARRY_FLAG),
        0x31 => spec_ld_word_immediate(s, SP),
        0x32 => spec_ld(s, Indirect::HLD, A),
        0x33 => (spec_inc_16(s, SP), Ok(())),
        0x34 => spec_inc(s, HL),
        0x35 => spec_dec(s, HL),
        0x36 => spec_ld(s, HL, ImmediateStorage),
        0x37 => (spec_scf(s), Ok(())),
        0x38 => spec_jr_if(s, CARRY_FLAG),
        0x39 => (spec_add_hl(s, SP), Ok(())),
        0x3A => spec_ld(s, A, Indirect::HLD),
        0x3B => (spec_dec_16(s, SP), Ok(())),
        0x3C => spec_inc(s, A),
        0x3D => spec_dec(s, A),
        0x3E => spec_ld(s, A, ImmediateStorage),
        0x3F => (spec_ccf(s), Ok(())),
        _ => (s, Err(CpuError::UnimplementedOpcode(instr))),
    }
}

/// Table semantics for the 8-bit register-to-register load block, plus HALT.
pub open spec fn spec_execute_ld_block(s: CpuSnap, instr: u8) -> (CpuSnap, Result<
    (),
    CpuError,
>) {
    match instr {
        0x40 => spec_ld(s, B, B),
        0x41 => spec_ld(s, B, C),
        0x42 => spec_ld(s, B, D),
        0x43 => spec_ld(s, B, E),
        0x44 => spec_ld(s, B, H),
        0x45 => spec_ld(s, B, L),
        0x46 => spec_ld(s, B, HL),
        0x47 => spec_ld(s, B, A),
        0x48 => spec_ld(s, C, B),
        0x49 => spec_ld(s, C, C),
        0x4A => spec_ld(s, C, D),
        0x4B => spec_ld(s, C, E),
        0x4C => spec_ld(s, C, H),
        0x4D => spec_ld(s, C, L),
        0x4E => spec_ld(s, C, HL),
        0x4F => spec_ld(s, C, A),
        0x50 => spec_ld(s, D, B),
        0x51 => spec_ld(s, D, C),
        0x52 => spec_ld(s, D, D),
        0x53 => spec_ld(s, D, E),
        0x54 => spec_ld(s, D, H),
        0x55 => spec_ld(s, D, L),
        0x56 => spec_ld(s, D, HL),
        0x57 => spec_ld(s, D, A),
        0x58 => spec_ld(s, E, B),
        0x59 => spec_ld(s, E, C),
        0x5A => spec_ld(s, E, D),
        0x5B => spec_ld(s, E, E),
        0x5C => spec_ld(s, E, H),
        0x5D => spec_ld(s, E, L),
        0x5E => spec_ld(s, E, HL),
        0x5F => spec_ld(s, E, A),
        0x60 => spec_ld(s, H, B),
        0x61 => spec_ld(s, H, C),
        0x62 => spec_ld(s, H, D),
        0x63 => spec_ld(s, H, E),
        0x64 => spec_ld(s, H, H),
        0x65 => spec_ld(s, H, L),
        0x66 => spec_ld(s, H, HL),
        0x67 => spec_ld(s, H, A),
        0x68 => spec_ld(s, L, B),
        0x69 => spec_ld(s, L, C),
        0x6A => spec_ld(s, L, D),
        0x6B => spec_ld(s, L, E),
        0x6C => spec_ld(s, L, H),
        0x6D => spec_ld(s, L, L),
        0x6E => spec_ld(s, L, HL),
        0x6F => spec_ld(s, L, A),
        0x70 => spec_ld(s, HL, B),
        0x71 => spec_ld(s, HL, C),
        0x72 => spec_ld(s, HL, D),
        0x73 => spec_ld(s, HL, E),
        0x74 => spec_ld(s, HL, H),
        0x75 => spec_ld(s, HL, L),
        0x76 => (CpuSnap { halt: true, ..s }, Ok(())),
        0x77 => spec_ld(s, HL, A),
        0x78 => spec_ld(s, A, B),
        0x79 => spec_ld(s, A, C),
        0x7A => spec_ld(s, A, D),
        0x7B => spec_ld(s, A, E),
        0x7C => spec_ld(s, A, H),
        0x7D => spec_ld(s, A, L),
        0x7E => spec_ld(s, A, HL),
        0x7F => spec_ld(s, A, A),
        _ => (s, Err(CpuError::UnimplementedOpcode(instr))),
    }
}

/// Table semantics for the arithmetic/logic block: ADD/ADC/SUB/SBC/AND/XOR/OR/CP.
pub open spec fn spec_execute_alu_block(s: CpuSnap, instr: u8) -> (CpuSnap, Result<
    (),
    CpuError,
>) {
    match instr {
        0x80 => spec_add(s, B, false),
        0x81 => spec_add(s, C, false),
        0x82 => spec_add(s, D, false),
        0x83 => spec_add(s, E, false),
        0x84 => spec_add(s, H, false),
        0x85 => spec_add(s, L, false),
        0x86 => spec_add(s, HL, false),
        0x87 => spec_add(s, A, false),
        0x88 => spec_add(s, B, true),
        0x89 => spec_add(s, C, true),
        0x8A => spec_add(s, D, true),
        0x8B => spec_add(s, E, true),
        0x8C => spec_add(s, H, true),
        0x8D => spec_add(s, L, true),
        0x8E => spec_add(s, HL, true),
        0x8F => spec_add(s, A, true),
        0x90 => spec_sub(s, B, false),
        0x91 => spec_sub(s, C, false),
        0x92 => spec_sub(s, D, false),
        0x93 => spec_sub(s, E, false),
        0x94 => spec_sub(s, H, false),
        0x95 => spec_sub(s, L, false),
        0x96 => spec_sub(s, HL, false),
        0x97 => spec_sub(s, A, false),
        0x98 => spec_sub(s, B, true),
        0x99 => spec_sub(s, C, true),
        0x9A => spec_sub(s, D, true),
        0x9B => spec_sub(s, E, true),
        0x9C => spec_sub(s, H, true),
        0x9D => spec_sub(s, L, true),
        0x9E => spec_sub(s, HL, true),
        0x9F => spec_sub(s, A, true),
        0xA0 => spec_and(s, B),
        0xA1 => spec_and(s, C),
        0xA2 => spec_and(s, D),
        0xA3 => spec_and(s, E),
        0xA4 => spec_and(s, H),
        0xA5 => spec_and(s, L),
        0xA6 => spec_and(s, HL),
        0xA7 => spec_and(s, A),
        0xA8 => spec_xor(s, B),
        0xA9 => spec_xor(s, C),
        0xAA => spec_xor(s, D),
        0xAB => spec_xor(s, E),
        0xAC => spec_xor(s, H),
        0xAD => spec_xor(s, L),
        0xAE => spec_xor(s, HL),
        0xAF => spec_xor(s, A),
        0xB0 => spec_or(s, B),
        0xB1 => spec_or(s, C),
        0xB2 => spec_or(s, D),
        0xB3 => spec_or(s, E),
        0xB4 => spec_or(s, H),
        0xB5 => spec_or(s, L),
        0xB6 => spec_or(s, HL),
        0xB7 => spec_or(s, A),
        0xB8 => spec_cp(s, B),
        0xB9 => spec_cp(s, C),
        0xBA => spec_cp(s, D),
        0xBB => spec_cp(s, E),
        0xBC => spec_cp(s, H),
        0xBD => spec_cp(s, L),
        0xBE => spec_cp(s, HL),
        0xBF => spec_cp(s, A),
        _ => (s, Err(CpuError::UnimplementedOpcode(instr))),
    }
}

/// Table semantics for the control block: jumps, calls, returns, stack, zero-page loads, CB prefix.
pub open spec fn spec_execute_control_block(s: CpuSnap, instr: u8) -> (CpuSnap, Result<
    (),
    CpuError,
>) {
    match instr {
        0xC0 => spec_ret_unless(s, ZERO_FLAG),
        0xC1 => spec_pop(s, BC),
        0xC2 => spec_jp_unless(s, ZERO_FLAG),
        0xC3 => spec_jp(s),
        0xC4 => spec_call_unless(s, ZERO_FLAG),
        0xC5 => spec_push(s, BC),
        0xC6 => spec_add(s, ImmediateStorage, false),
        0xC7 => spec_rst(s, 0x00),
        0xC8 => spec_ret_if(s, ZERO_FLAG),
        0xC9 => spec_ret(s),
        0xCA => spec_jp_if(s, ZERO_FLAG),
        0xCB => spec_cb(s),
        0xCC => spec_call_if(s, ZERO_FLAG),
        0xCD => spec_call(s),
        0xCE => spec_add(s, ImmediateStorage, true),
        0xCF => spec_rst(s, 0x08),
        0xD0 => spec_ret_unless(s, CARRY_FLAG),
        0xD1 => spec_pop(s, DE),
        0xD2 => spec_jp_unless(s, CARRY_FLAG),
        0xD3 => (s, Err(CpuError::IllegalOpcode(instr))),
        0xD4 => spec_call_unless(s, CARRY_FLAG),
        0xD5 => spec_push(s, DE),
        0xD6 => spec_sub(s, ImmediateStorage, false),
        0xD7 => spec_rst(s, 0x10),
        0xD8 => spec_ret_if(s, CARRY_FLAG),
        0xD9 => spec_reti(s),
        0xDA => spec_jp_if(s, CARRY_FLAG),
        0xDB => (s, Err(CpuError::IllegalOpcode(instr))),
        0xDC => spec_call_if(s, CARRY_FLAG),
        0xDD => (s, Err(CpuError::IllegalOpcode(instr))),
        0xDE => spec_sub(s, ImmediateStorage, true),
        0xDF => spec_rst(s, 0x18),
        0xE0 => spec_ld(s, Indirect::ZeroPage, A),
        0xE1 => spec_pop(s, HL),
        0xE2 => spec_ld(s, Indirect::ZeroPageRegC, A),
        0xE3 => (s, Err(CpuError::IllegalOpcode(instr))),
        0xE4 => (s, Err(CpuError::IllegalOpcode(instr))),
        0xE5 => spec_push(s, HL),
        0xE6 => spec_and(s, ImmediateStorage),
        0xE7 => spec_rst(s, 0x20),
        0xE8 => spec_add_sp(s),
        0xE9 => (spec_jp_hl(s), Ok(())),
        0xEA => spec_ld(s, Indirect::Immediate, A),
        0xEB => (s, Err(CpuError::IllegalOpcode(instr))),
        0xEC => (s, Err(CpuError::IllegalOpcode(instr))),
        0xED => (s, Err(CpuError::IllegalOpcode(instr))),
        0xEE => spec_xor(s, ImmediateStorage),
        0xEF => spec_rst(s, 0x28),
        0xF0 => spec_ld(s, A, Indirect::ZeroPage),
        0xF1 => spec_pop(s, AF),
        0xF2 => spec_ld(s, A, Indirect::ZeroPageRegC),
        0xF3 => (spec_di(s), Ok(())),
        0xF4 => (s, Err(CpuError::IllegalOpcode(instr))),
        0xF5 => spec_push(s, AF),
        0xF6 => spec_or(s, ImmediateStorage),
        0xF7 => spec_rst(s, 0x30),
        0xF8 => spec_ld_hl_sp(s),
        0xF9 => (spec_ld_sp_hl(s), Ok(())),
        0xFA => spec_ld(s, A, Indirect::Immediate),
        0xFB => (spec_ei(s), Ok(())),
        0xFC => (s, Err(CpuError::IllegalOpcode(instr))),
        0xFD => (s, Err(CpuError::IllegalOpcode(instr))),
        0xFE => spec_cp(s, ImmediateStorage),
        0xFF => spec_rst(s, 0x38),
        _ => (s, Err(CpuError::UnimplementedOpcode(instr))),
    }
}

/// The primary opcode table: what one instruction byte does to the machine.
pub open spec fn spec_execute(s: CpuSnap, instr: u8) -> (CpuSnap, Result<(), CpuError>) {
    if instr < 0x40 {
        spec_execute_low(s, instr)
    } else if instr < 0x80 {
        spec_execute_ld_block(s, instr)
    } else if instr < 0xC0 {
        spec_execute_alu_block(s, instr)
    } else {
        spec_execute_control_block(s, instr)
    }
}
/// The CB-prefixed (extended) table: the implemented handful of SWAP, BIT,
/// RES and SET entries; every other entry fails as unimplemented.
pub open spec fn spec_execute_cb(s: CpuSnap, instr: u8) -> (CpuSnap, Result<(), CpuError>) {
    match instr {
        0x30 => spec_swap(s, B),
        0x31 => spec_swap(s, C),
        0x32 => spec_swap(s, D),
        0x33 => spec_swap(s, E),
        0x34 => spec_swap(s, H),
        0x35 => spec_swap(s, L),
        0x37 => spec_swap(s, A),
        0x47 => spec_bit(s, 0, A),
        0x87 => spec_res(s, 0, A),
        0xC7 => spec_set(s, 0, A),
        _ => (s, Err(CpuError::UnimplementedOpcode(instr))),
    }
}

/// The CB prefix: fetch the second opcode byte and dispatch through the
/// extended table.
pub open spec fn spec_cb(s: CpuSnap) -> (CpuSnap, Result<(), CpuError>) {
    let (s1, r) = spec_load_byte_inc_pc(s);
    match r {
        Ok(instruction) => spec_execute_cb(s1, instruction),
        Err(e) => (s1, Err(e)),
    }
}

/// Interrupt servicing: when an enabled interrupt is pending, the lowest-set
/// bit (strictly ascending priority) is serviced: its flag bit is cleared,
/// the master enable is cleared, the current PC is pushed and control jumps
/// to the bit's vector.
pub open spec fn spec_interrupt(s: CpuSnap) -> (CpuSnap, Result<(), CpuError>) {
    let pending = (s.mem.interrupt_enable & s.mem.interrupt_flags) & 0x1F;
    if pending == 0 {
        (s, Ok(()))
    } else {
        let mask: u8 = if pending & 0x01 != 0 {
            0x01
        } else if pending & 0x02 != 0 {
            0x02
        } else if pending & 0x04 != 0 {
            0x04
        } else if pending & 0x08 != 0 {
            0x08
        } else {
            0x10
        };
        let vector: u16 = if pending & 0x01 != 0 {
            0x40
        } else if pending & 0x02 != 0 {
            0x48
        } else if pending & 0x04 != 0 {
            0x50
        } else if pending & 0x08 != 0 {
            0x58
        } else {
            0x60
        };
        let s1 = CpuSnap {
            mem: MemSnap { interrupt_flags: s.mem.interrupt_flags & !mask, ..s.mem },
            ime: false,
            ..s
        };
        spec_rst(s1, vector)
    }
}

/// One full step: fetch the opcode at PC, execute it, then service a pending
/// interrupt if the master enable is set.
pub open spec fn spec_step(s: CpuSnap) -> (CpuSnap, Result<(), CpuError>) {
    let (s1, r1) = spec_load_byte_inc_pc(s);
    match r1 {
        Ok(instruction) => {
            let (s2, r2) = spec_execute(s1, instruction);
            match r2 {
                Ok(u) => if s2.ime {
                    spec_interrupt(s2)
                } else {
                    (s2, Ok(()))
                },
                Err(e) => (s2, Err(e)),
            }
        },
        Err(e) => (s1, Err(e)),
    }
}

/// What `step` returns: the number of bus cycles the step consumed, or the
/// fatal error it ran into.
pub open spec fn spec_step_outcome(s: CpuSnap) -> Result<u64, CpuError> {
    let (s2, r) = spec_step(s);
    match r {
        Ok(u) => Ok(u64_specs::wrapping_sub(s2.cycles, s.cycles)),
        Err(e) => Err(e),
    }
}


impl Cpu {
    /// Execute one instruction byte through the primary table.
    pub fn execute_instruction(&mut self, instr: u8) -> (r: Result<(), CpuError>)
        requires
            old(self).wf(),
        ensures
            final(self).wf(),
            (final(self)@, r) == spec_execute(old(self)@, instr),
    {
        if instr < 0x40 {
            self.execute_low(instr)
        } else if instr < 0x80 {
            self.execute_ld_block(instr)
        } else if instr < 0xC0 {
            self.execute_alu_block(instr)
        } else {
            self.execute_control_block(instr)
        }
    }

    fn execute_low(&mut self, instr: u8) -> (r: Result<(), CpuError>)
        requires
            old(self).wf(),
        ensures
            final(self).wf(),
            (final(self)@, r) == spec_execute_low(old(self)@, instr),
    {
        match instr {
            0x00 => {  Ok(()) },
            0x01 => self.ld_word_immediate(BC),
            0x02 => self.ld(BC, A),
            0x03 => { self.inc_16(BC); Ok(()) },
            0x04 => self.inc(B),
            0x05 => self.dec(B),
            0x06 => self.ld(B, ImmediateStorage),
            0x07 => { self.rlca(); Ok(()) },
            0x08 => self.ld_indirect_sp(),
            0x09 => { self.add_hl(BC); Ok(()) },
            0x0A => self.ld(A, BC),
            0x0B => { self.dec_16(BC); Ok(()) },
            0x0C => self.inc(C),
            0x0D => self.dec(C),
            0x0E => self.ld(C, ImmediateStorage),
            0x0F => { self.rrca(); Ok(()) },
            0x10 => Err(CpuError::UnimplementedOpcode(instr)),
            0x11 => self.ld_word_immediate(DE),
            0x12 => self.ld(DE, A),
            0x13 => { self.inc_16(DE); Ok(()) },
            0x14 => self.inc(D),
            0x15 => self.dec(D),
            0x16 => self.ld(D, ImmediateStorage),
            0x17 => { self.rla(); Ok(()) },
            0x18 => self.jr(),
            0x19 => { self.add_hl(DE); Ok(()) },
            0x1A => self.ld(A, DE),
            0x1B => { self.dec_16(DE); Ok(()) },
            0x1C => self.inc(E),
            0x1D => self.dec(E),
            0x1E => self.ld(E, ImmediateStorage),
            0x1F => { self.rra(); Ok(()) },
            0x20 => self.jr_unless(ZERO_FLAG),
            0x21 => self.ld_word_immediate(HL),
            0x22 => self.ld(Indirect::HLI, A),
            0x23 => { self.inc_16(HL); Ok(()) },
            0x24 => self.inc(H),
            0x25 => self.dec(H),
            0x26 => self.ld(H, ImmediateStorage),
            0x27 => Err(CpuError::UnimplementedOpcode(instr)),
            0x28 => self.jr_if(ZERO_FLAG),
            0x29 => { self.add_hl(HL); Ok(()) },
            0x2A => self.ld(A, Indirect::HLI),
            0x2B => { self.dec_16(HL); Ok(()) },
            0x2C => self.inc(L),
            0x2D => self.dec(L),
            0x2E => self.ld(L, ImmediateStorage),
            0x2F => { self.cpl(); Ok(()) },
            0x30 => self.jr_unless(CARRY_FLAG),
            0x31 => self.ld_word_immediate(SP),
            0x32 => self.ld(Indirect::HLD, A),
            0x33 => { self.inc_16(SP); Ok(()) },
            0x34 => self.inc(HL),
            0x35 => self.dec(HL),
            0x36 => self.ld(HL, ImmediateStorage),
            0x37 => { self.scf(); Ok(()) },
            0x38 => self.jr_if(CARRY_FLAG),
            0x39 => { self.add_hl(SP); Ok(()) },
            0x3A => self.ld(A, Indirect::HLD),
            0x3B => { self.dec_16(SP); Ok(()) },
            0x3C => self.inc(A),
            0x3D => self.dec(A),
            0x3E => self.ld(A, ImmediateStorage),
            0x3F => { self.ccf(); Ok(()) },
            _ => Err(CpuError::UnimplementedOpcode(instr)),
        }
    }

    fn execute_ld_block(&mut self, instr: u8) -> (r: Result<(), CpuError>)
        requires
            old(self).wf(),
        ensures
            final(self).wf(),
            (final(self)@, r) == spec_execute_ld_block(old(self)@, instr),
    {
        match instr {
            0x40 => self.ld(B, B),
            0x41 => self.ld(B, C),
            0x42 => self.ld(B, D),
            0x43 => self.ld(B, E),
            0x44 => self.ld(B, H),
            0x45 => self.ld(B, L),
            0x46 => self.ld(B, HL),
            0x47 => self.ld(B, A),
            0x48 => self.ld(C, B),
            0x49 => self.ld(C, C),
            0x4A => self.ld(C, D),
            0x4B => self.ld(C, E),
            0x4C => self.ld(C, H),
            0x4D => self.ld(C, L),
            0x4E => self.ld(C, HL),
            0x4F => self.ld(C, A),
            0x50 => self.ld(D, B),
            0x51 => self.ld(D, C),
            0x52 => self.ld(D, D),
            0x53 => self.ld(D, E),
            0x54 => self.ld(D, H),
            0x55 => self.ld(D, L),
            0x56 => self.ld(D, HL),
            0x57 => self.ld(D, A),
            0x58 => self.ld(E, B),
            0x59 => self.ld(E, C),
            0x5A => self.ld(E, D),
            0x5B => self.ld(E, E),
            0x5C => self.ld(E, H),
            0x5D => self.ld(E, L),
            0x5E => self.ld(E, HL),
            0x5F => self.ld(E, A),
            0x60 => self.ld(H, B),
            0x61 => self.ld(H, C),
            0x62 => self.ld(H, D),
            0x63 => self.ld(H, E),
            0x64 => self.ld(H, H),
            0x65 => self.ld(H, L),
            0x66 => self.ld(H, HL),
            0x67 => self.ld(H, A),
            0x68 => self.ld(L, B),
            0x69 => self.ld(L, C),
            0x6A => self.ld(L, D),
            0x6B => self.ld(L, E),
            0x6C => self.ld(L, H),
            0x6D => self.ld(L, L),
            0x6E => self.ld(L, HL),
            0x6F => self.ld(L, A),
            0x70 => self.ld(HL, B),
            0x71 => self.ld(HL, C),
            0x72 => self.ld(HL, D),
            0x73 => self.ld(HL, E),
            0x74 => self.ld(HL, H),
            0x75 => self.ld(HL, L),
            0x76 => { self.halt = true; Ok(()) },
            0x77 => self.ld(HL, A),
            0x78 => self.ld(A, B),
            0x79 => self.ld(A, C),
            0x7A => self.ld(A, D),
            0x7B => self.ld(A, E),
            0x7C => self.ld(A, H),
            0x7D => self.ld(A, L),
            0x7E => self.ld(A, HL),
            0x7F => self.ld(A, A),
            _ => Err(CpuError::UnimplementedOpcode(instr)),
        }
    }

    fn execute_alu_block(&mut self, instr: u8) -> (r: Result<(), CpuError>)
        requires
            old(self).wf(),
        ensures
            final(self).wf(),
            (final(self)@, r) == spec_execute_alu_block(old(self)@, instr),
    {
        match instr {
            0x80 => self.add(B),
            0x81 => self.add(C),
            0x82 => self.add(D),
            0x83 => self.add(E),
            0x84 => self.add(H),
            0x85 => self.add(L),
            0x86 => self.add(HL),
            0x87 => self.add(A),
            0x88 => self.adc(B),
            0x89 => self.adc(C),
            0x8A => self.adc(D),
            0x8B => self.adc(E),
            0x8C => self.adc(H),
            0x8D => self.adc(L),
            0x8E => self.adc(HL),
            0x8F => self.adc(A),
            0x90 => self.sub(B),
            0x91 => self.sub(C),
            0x92 => self.sub(D),
            0x93 => self.sub(E),
            0x94 => self.sub(H),
            0x95 => self.sub(L),
            0x96 => self.sub(HL),
            0x97 => self.sub(A),
            0x98 => self.sbc(B),
            0x99 => self.sbc(C),
            0x9A => self.sbc(D),
            0x9B => self.sbc(E),
            0x9C => self.sbc(H),
            0x9D => self.sbc(L),
            0x9E => self.sbc(HL),
            0x9F => self.sbc(A),
            0xA0 => self.and(B),
            0xA1 => self.and(C),
            0xA2 => self.and(D),
            0xA3 => self.and(E),
            0xA4 => self.and(H),
            0xA5 => self.and(L),
            0xA6 => self.and(HL),
            0xA7 => self.and(A),
            0xA8 => self.xor(B),
            0xA9 => self.xor(C),
            0xAA => self.xor(D),
            0xAB => self.xor(E),
            0xAC => self.xor(H),
            0xAD => self.xor(L),
            0xAE => self.xor(HL),
            0xAF => self.xor(A),
            0xB0 => self.or(B),
            0xB1 => self.or(C),
            0xB2 => self.or(D),
            0xB3 => self.or(E),
            0xB4 => self.or(H),
            0xB5 => self.or(L),
            0xB6 => self.or(HL),
            0xB7 => self.or(A),
            0xB8 => self.cp(B),
            0xB9 => self.cp(C),
            0xBA => self.cp(D),
            0xBB => self.cp(E),
            0xBC => self.cp(H),
            0xBD => self.cp(L),
            0xBE => self.cp(HL),
            0xBF => self.cp(A),
            _ => Err(CpuError::UnimplementedOpcode(instr)),
        }
    }

    fn execute_control_block(&mut self, instr: u8) -> (r: Result<(), CpuError>)
        requires
            old(self).wf(),
        ensures
            final(self).wf(),
            (final(self)@, r) == spec_execute_control_block(old(self)@, instr),
    {
        match instr {
            0xC0 => self.ret_unless(ZERO_FLAG),
            0xC1 => self.pop(BC),
            0xC2 => self.jp_unless(ZERO_FLAG),
            0xC3 => self.jp(),
            0xC4 => self.call_unless(ZERO_FLAG),
            0xC5 => self.push(BC),
            0xC6 => self.add(ImmediateStorage),
            0xC7 => self.rst(0x00),
            0xC8 => self.ret_if(ZERO_FLAG),
            0xC9 => self.ret(),
            0xCA => self.jp_if(ZERO_FLAG),
            0xCB => self.cb(),
            0xCC => self.call_if(ZERO_FLAG),
            0xCD => self.call(),
            0xCE => self.adc(ImmediateStorage),
            0xCF => self.rst(0x08),
            0xD0 => self.ret_unless(CARRY_FLAG),
            0xD1 => self.pop(DE),
            0xD2 => self.jp_unless(CARRY_FLAG),
            0xD3 => self.illegal(instr),
            0xD4 => self.call_unless(CARRY_FLAG),
            0xD5 => self.push(DE),
            0xD6 => self.sub(ImmediateStorage),
            0xD7 => self.rst(0x10),
            0xD8 => self.ret_if(CARRY_FLAG),
            0xD9 => self.reti(),
            0xDA => self.jp_if(CARRY_FLAG),
            0xDB => self.illegal(instr),
            0xDC => self.call_if(CARRY_FLAG),
            0xDD => self.illegal(instr),
            0xDE => self.sbc(ImmediateStorage),
            0xDF => self.rst(0x18),
            0xE0 => self.ld(Indirect::ZeroPage, A),
            0xE1 => self.pop(HL),
            0xE2 => self.ld(Indirect::ZeroPageRegC, A),
            0xE3 => self.illegal(instr),
            0xE4 => self.illegal(instr),
            0xE5 => self.push(HL),
            0xE6 => self.and(ImmediateStorage),
            0xE7 => self.rst(0x20),
            0xE8 => self.add_sp(),
            0xE9 => { self.jp_hl(); Ok(()) },
            0xEA => self.ld(Indirect::Immediate, A),
            0xEB => self.illegal(instr),
            0xEC => self.illegal(instr),
            0xED => self.illegal(instr),
            0xEE => self.xor(ImmediateStorage),
            0xEF => self.rst(0x28),
            0xF0 => self.ld(A, Indirect::ZeroPage),
            0xF1 => self.pop(AF),
            0xF2 => self.ld(A, Indirect::ZeroPageRegC),
            0xF3 => { self.di(); Ok(()) },
            0xF4 => self.illegal(instr),
            0xF5 => self.push(AF),
            0xF6 => self.or(ImmediateStorage),
            0xF7 => self.rst(0x30),
            0xF8 => self.ld_hl_sp(),
            0xF9 => { self.ld_sp_hl(); Ok(()) },
            0xFA => self.ld(A, Indirect::Immediate),
            0xFB => { self.ei(); Ok(()) },
            0xFC => self.illegal(instr),
            0xFD => self.illegal(instr),
            0xFE => self.cp(ImmediateStorage),
            0xFF => self.rst(0x38),
            _ => Err(CpuError::UnimplementedOpcode(instr)),
        }
    }
    /// Execute one opcode byte through the CB (extended) table.
    pub fn execute_cb_instruction(&mut self, instr: u8) -> (r: Result<(), CpuError>)
        requires
            old(self).wf(),
        ensures
            final(self).wf(),
            (final(self)@, r) == spec_execute_cb(old(self)@, instr),
    {
        match instr {
            0x30 => self.swap(B),
            0x31 => self.swap(C),
            0x32 => self.swap(D),
            0x33 => self.swap(E),
            0x34 => self.swap(H),
            0x35 => self.swap(L),
            0x37 => self.swap(A),
            0x47 => self.bit(0, A),
            0x87 => self.res(0, A),
            0xC7 => self.set(0, A),
            _ => Err(CpuError::UnimplementedOpcode(instr)),
        }
    }

    fn cb(&mut self) -> (r: Result<(), CpuError>)
        requires
            old(self).wf(),
        ensures
            final(self).wf(),
            (final(self)@, r) == spec_cb(old(self)@),
    {
        let instruction = match self.load_byte_and_inc_pc() {
            Ok(b) => b,
            Err(e) => {
                return Err(e);
            },
        };
        self.execute_cb_instruction(instruction)
    }

    /// Service the highest-priority pending, enabled interrupt, if any.
    fn interrupt(&mut self) -> (r: Result<(), CpuError>)
        requires
            old(self).wf(),
        ensures
            final(self).wf(),
            (final(self)@, r) == spec_interrupt(old(self)@),
    {
        let pending = (self.memory.interrupt_enable & self.memory.interrupt_flags) & 0x1F;
        if pending == 0 {
            return Ok(());
        }
        let mask: u8 = if pending & 0x01 != 0 {
            0x01
        } else if pending & 0x02 != 0 {
            0x02
        } else if pending & 0x04 != 0 {
            0x04
        } else if pending & 0x08 != 0 {
            0x08
        } else {
            0x10
        };
        let vector: u16 = if pending & 0x01 != 0 {
            0x40
        } else if pending & 0x02 != 0 {
            0x48
        } else if pending & 0x04 != 0 {
            0x50
        } else if pending & 0x08 != 0 {
            0x58
        } else {
            0x60
        };
        self.memory.interrupt_flags = self.memory.interrupt_flags & !mask;
        self.interrupt = false;
        self.rst(vector)
    }

    /// One fetch/decode/execute cycle, followed by interrupt servicing when
    /// the master enable is set. Returns the number of bus cycles consumed.
    pub fn step(&mut self) -> (r: Result<u64, CpuError>)
        requires
            old(self).wf(),
        ensures
            final(self).wf(),
            final(self)@ == spec_step(old(self)@).0,
            r == spec_step_outcome(old(self)@),
    {
        let start = self.cycles;
        let instruction = match self.load_byte_and_inc_pc() {
            Ok(b) => b,
            Err(e) => {
                return Err(e);
            },
        };
        match self.execute_instruction(instruction) {
            Ok(u) => {},
            Err(e) => {
                return Err(e);
            },
        }
        if self.interrupt {
            match self.interrupt() {
                Ok(u) => {},
                Err(e) => {
                    return Err(e);
                },
            }
        }
        Ok(self.cycles.wrapping_sub(start))
    }
}

} // verus!
