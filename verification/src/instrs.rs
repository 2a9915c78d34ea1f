//! The arithmetic instruction handlers and the dispatch step around
//! them. Arithmetic is bit-exact to the original 8-bit ALU: results
//! wrap, the zero flag comes from the wrapped result, half-carry from
//! the low nibbles of the pre-wrap operands, and carry from the
//! zero-extended sum or difference.

use vstd::prelude::*;

use crate::cpu::pc_after;
use crate::cpu::get_n;
use crate::cpu::CPU;
use crate::regs::flag_c;
use crate::regs::flag_h;
use crate::regs::flag_n;
use crate::regs::flag_z;
use crate::regs::pair;
use crate::regs::Registers;
use crate::rom::EmuError;

verus! {

/// The byte the instruction stream yields at the program counter.
pub open spec fn operand(cpu: CPU) -> u8 {
    cpu.mem.spec_read(cpu.regs.pc)
}

/// The registers the 8-bit accumulator instructions leave alone.
pub open spec fn others_unchanged_8(pre: CPU, post: CPU) -> bool {
    &&& post.regs.b == pre.regs.b
    &&& post.regs.c == pre.regs.c
    &&& post.regs.d == pre.regs.d
    &&& post.regs.e == pre.regs.e
    &&& post.regs.h == pre.regs.h
    &&& post.regs.l == pre.regs.l
    &&& post.regs.sp == pre.regs.sp
    &&& post.mem == pre.mem
}

/// What `add_a_n` does: the accumulator takes `(a + n) mod 256` for
/// the immediate operand `n`; the zero flag is set iff the wrapped
/// result is 0, the subtract flag is cleared, half-carry is set iff
/// the low nibbles of the operands carry out of bit 3, and carry is
/// set iff the unwrapped sum exceeds 0xFF.
pub open spec fn add_a_n_post(pre: CPU, post: CPU) -> bool {
    let n = operand(pre);
    let sum = pre.regs.a + n;
    &&& post.regs.a == sum % 256
    &&& flag_z(post.regs.f) == (sum % 256 == 0)
    &&& !flag_n(post.regs.f)
    &&& flag_h(post.regs.f) == ((pre.regs.a & 0x0F) + (n & 0x0F) > 0x0F)
    &&& flag_c(post.regs.f) == (sum > 0xFF)
    &&& post.regs.f & 0x0F == pre.regs.f & 0x0F
    &&& post.regs.pc == pc_after(pre.regs.pc)
    &&& others_unchanged_8(pre, post)
}

/// **0xC6** - *ADD a,#* - Add # to a.
pub fn add_a_n(cpu: &mut CPU) -> (cycles: u8)
    requires
        old(cpu).wf(),
    ensures
        final(cpu).wf(),
        add_a_n_post(*old(cpu), *final(cpu)),
        cycles == 8,
{
    let prev_value: u8 = cpu.regs.a;
    let value: u8 = get_n(cpu);
    let sum: u16 = prev_value as u16 + value as u16;
    let new_value: u8 = (sum % 256) as u8;

    cpu.regs.a = new_value;

    cpu.regs.set_flag_z(new_value == 0);
    cpu.regs.set_flag_n(false);
    cpu.regs.set_flag_h(((value & 0x0F) as u16) + ((prev_value & 0x0F) as u16) > 0x0F);
    cpu.regs.set_flag_c(sum > 0xFF);

    8
}

/// What `sub_a_n` does: the accumulator takes `(a - n) mod 256` for
/// the immediate operand `n`; the zero flag is set iff the wrapped
/// result is 0, the subtract flag is set unconditionally, half-carry
/// is set iff the operand's low nibble exceeds the accumulator's, and
/// carry is set iff the operand exceeds the accumulator.
pub open spec fn sub_a_n_post(pre: CPU, post: CPU) -> bool {
    let n = operand(pre);
    let diff = pre.regs.a - n;
    &&& post.regs.a == diff % 256
    &&& flag_z(post.regs.f) == (diff % 256 == 0)
    &&& flag_n(post.regs.f)
    &&& flag_h(post.regs.f) == ((n & 0x0F) > (pre.regs.a & 0x0F))
    &&& flag_c(post.regs.f) == (n > pre.regs.a)
    &&& post.regs.f & 0x0F == pre.regs.f & 0x0F
    &&& post.regs.pc == pc_after(pre.regs.pc)
    &&& others_unchanged_8(pre, post)
}

/// **0xD6** - *SUB a,#* - Subtract # from a.
pub fn sub_a_n(cpu: &mut CPU) -> (cycles: u8)
    requires
        old(cpu).wf(),
    ensures
        final(cpu).wf(),
        sub_a_n_post(*old(cpu), *final(cpu)),
        cycles == 8,
{
    let prev_value: u8 = cpu.regs.a;
    let value: u8 = get_n(cpu);
    let diff: u16 = (256 + prev_value as u16) - value as u16;
    let new_value: u8 = (diff % 256) as u8;
    proof {
        vstd::arithmetic::div_mod::lemma_mod_add_multiples_vanish(
            prev_value - value,
            256,
        );
    }

    cpu.regs.a = new_value;

    cpu.regs.set_flag_z(new_value == 0);
    cpu.regs.set_flag_n(true);
    cpu.regs.set_flag_h((value & 0x0F) > (prev_value & 0x0F));
    cpu.regs.set_flag_c(value > prev_value);

    8
}

/// What `add_hl_x` does: the `hl` pair takes `(hl + x) mod 65536`;
/// the subtract flag is cleared, half-carry is set iff a carry out of
/// bit 11 occurs, carry is set iff the unwrapped sum exceeds 0xFFFF,
/// and the zero flag is left untouched.
pub open spec fn add_hl_x_post(val: u16, pre: CPU, post: CPU) -> bool {
    let hl = pair(pre.regs.h, pre.regs.l);
    let sum = hl + val;
    &&& pair(post.regs.h, post.regs.l) == sum % 0x10000
    &&& flag_z(post.regs.f) == flag_z(pre.regs.f)
    &&& !flag_n(post.regs.f)
    &&& flag_h(post.regs.f) == (hl % 0x1000 + val % 0x1000 > 0x0FFF)
    &&& flag_c(post.regs.f) == (sum > 0xFFFF)
    &&& post.regs.f & 0x0F == pre.regs.f & 0x0F
    &&& post.regs.a == pre.regs.a
    &&& post.regs.b == pre.regs.b
    &&& post.regs.c == pre.regs.c
    &&& post.regs.d == pre.regs.d
    &&& post.regs.e == pre.regs.e
    &&& post.regs.pc == pre.regs.pc
    &&& post.regs.sp == pre.regs.sp
    &&& post.mem == pre.mem
}

/// **0x09 ~ 0x39** - *ADD HL,X* - Add XX to HL.
pub fn add_hl_x(val: u16, cpu: &mut CPU) -> (cycles: u8)
    requires
        old(cpu).wf(),
    ensures
        final(cpu).wf(),
        add_hl_x_post(val, *old(cpu), *final(cpu)),
        cycles == 8,
{
    let prev_value: u16 = cpu.regs.get_hl();
    let sum: u32 = prev_value as u32 + val as u32;
    cpu.regs.set_hl((sum % 0x10000) as u16);

    cpu.regs.set_flag_n(false);
    cpu.regs.set_flag_h((prev_value % 0x1000) + (val % 0x1000) > 0x0FFF);
    cpu.regs.set_flag_c(sum > 0xFFFF);

    8
}

/// What `adc_a_n` does: the accumulator takes `(a + n + carry-in) mod
/// 256`, the incoming carry flag counting as an extra operand before
/// wraparound and before any flag is computed. The flag register is
/// assigned wholesale, so its unused low bits come out cleared.
pub open spec fn adc_a_n_post(pre: CPU, post: CPU) -> bool {
    let n = operand(pre);
    let cin: int = if flag_c(pre.regs.f) {
        1
    } else {
        0
    };
    let sum = pre.regs.a + n + cin;
    &&& post.regs.a == sum % 256
    &&& flag_z(post.regs.f) == (sum % 256 == 0)
    &&& !flag_n(post.regs.f)
    &&& flag_h(post.regs.f) == ((pre.regs.a & 0x0F) + (n & 0x0F) + cin > 0x0F)
    &&& flag_c(post.regs.f) == (sum > 0xFF)
    &&& post.regs.f & 0x0F == 0
    &&& post.regs.pc == pc_after(pre.regs.pc)
    &&& others_unchanged_8(pre, post)
}

/// **0xCE** - *ADC a,#* - Add # + Carry flag to a.
pub fn adc_a_n(cpu: &mut CPU) -> (cycles: u8)
    requires
        old(cpu).wf(),
    ensures
        final(cpu).wf(),
        adc_a_n_post(*old(cpu), *final(cpu)),
        cycles == 8,
{
    let carry: u8 = if cpu.regs.get_flag_c() {
        1
    } else {
        0
    };
    let old_value: u8 = cpu.regs.a;
    let value: u8 = get_n(cpu);
    let sum: u16 = old_value as u16 + value as u16 + carry as u16;
    let new_value: u8 = (sum % 256) as u8;

    cpu.regs.a = new_value;

    cpu.regs.f = 0;
    proof {
        assert(0u8 & 0x80u8 == 0 && 0u8 & 0x40u8 == 0 && 0u8 & 0x20u8 == 0 && 0u8 & 0x10u8 == 0
            && 0u8 & 0x0Fu8 == 0) by (bit_vector);
    }
    cpu.regs.set_flag_z(new_value == 0);
    cpu.regs.set_flag_h(
        ((old_value & 0x0F) as u16) + ((value & 0x0F) as u16) + (carry as u16) > 0x0F,
    );
    cpu.regs.set_flag_c(sum > 0xFF);

    8
}

/// The CPU as it stands once the opcode byte is fetched: the program
/// counter has moved past the opcode and nothing else has changed.
pub open spec fn after_opcode_fetch(pre: CPU) -> CPU {
    CPU { regs: Registers { pc: pc_after(pre.regs.pc) as u16, ..pre.regs }, mem: pre.mem }
}

/// What one dispatch step does, by the fetched opcode: each
/// registered opcode hands the CPU past the opcode byte to its
/// handler and returns that handler's cycle count; an opcode with no
/// registered handler is a fatal error and changes nothing.
pub open spec fn step_post(pre: CPU, post: CPU, r: Result<u8, EmuError>) -> bool {
    let op = operand(pre);
    if op == 0xC6 {
        r == Ok::<u8, EmuError>(8u8) && add_a_n_post(after_opcode_fetch(pre), post)
    } else if op == 0xCE {
        r == Ok::<u8, EmuError>(8u8) && adc_a_n_post(after_opcode_fetch(pre), post)
    } else if op == 0xD6 {
        r == Ok::<u8, EmuError>(8u8) && sub_a_n_post(after_opcode_fetch(pre), post)
    } else if op == 0x09 {
        r == Ok::<u8, EmuError>(8u8) && add_hl_x_post(
            pair(pre.regs.b, pre.regs.c) as u16,
            after_opcode_fetch(pre),
            post,
        )
    } else if op == 0x19 {
        r == Ok::<u8, EmuError>(8u8) && add_hl_x_post(
            pair(pre.regs.d, pre.regs.e) as u16,
            after_opcode_fetch(pre),
            post,
        )
    } else if op == 0x29 {
        r == Ok::<u8, EmuError>(8u8) && add_hl_x_post(
            pair(pre.regs.h, pre.regs.l) as u16,
            after_opcode_fetch(pre),
            post,
        )
    } else if op == 0x39 {
        r == Ok::<u8, EmuError>(8u8) && add_hl_x_post(
            pre.regs.sp,
            after_opcode_fetch(pre),
            post,
        )
    } else {
        r == Err::<u8, EmuError>(EmuError::UnimplementedOpcode(op)) && post == pre
    }
}

/// Fetches the opcode at the program counter, advances past it, and
/// dispatches to the matching handler, returning the handler's cycle
/// count. An opcode with no registered handler cannot safely be run:
/// the step reports it as a fatal error and leaves the CPU untouched.
pub fn step(cpu: &mut CPU) -> (r: Result<u8, EmuError>)
    requires
        old(cpu).wf(),
    ensures
        final(cpu).wf(),
        step_post(*old(cpu), *final(cpu), r),
{
    let op: u8 = cpu.mem.read(cpu.regs.pc);
    match op {
        0xC6 => {
            advance_pc(cpu);
            Ok(add_a_n(cpu))
        },
        0xCE => {
            advance_pc(cpu);
            Ok(adc_a_n(cpu))
        },
        0xD6 => {
            advance_pc(cpu);
            Ok(sub_a_n(cpu))
        },
        0x09 => {
            let val: u16 = cpu.regs.get_bc();
            advance_pc(cpu);
            Ok(add_hl_x(val, cpu))
        },
        0x19 => {
            let val: u16 = cpu.regs.get_de();
            advance_pc(cpu);
            Ok(add_hl_x(val, cpu))
        },
        0x29 => {
            let val: u16 = cpu.regs.get_hl();
            advance_pc(cpu);
            Ok(add_hl_x(val, cpu))
        },
        0x39 => {
            let val: u16 = cpu.regs.sp;
            advance_pc(cpu);
            Ok(add_hl_x(val, cpu))
        },
        _ => Err(EmuError::UnimplementedOpcode(op)),
    }
}

/// Moves the program counter past the byte just fetched.
fn advance_pc(cpu: &mut CPU)
    requires
        old(cpu).wf(),
    ensures
        final(cpu).wf(),
        *final(cpu) == after_opcode_fetch(*old(cpu)),
{
    cpu.regs.pc = if cpu.regs.pc == 0xFFFF {
        0
    } else {
        cpu.regs.pc + 1
    };
}

} // verus!
