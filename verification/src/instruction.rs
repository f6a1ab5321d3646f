//! The instruction handlers, the 256-entry opcode dispatch table, and the
//! fetch-decode-execute loop.

use vstd::prelude::*;

verus! {

use crate::AH;
use crate::AL;
use crate::BL;
use crate::EAX;
use crate::EBP;
use crate::EDX;
use crate::ESP;
use crate::SERIAL_PORT;
use crate::bios::bios_video;
use crate::bios::teletype_bytes;
use crate::emulator::Emulator;
use crate::emulator::Fault;
use crate::emulator::RunExit;
use crate::emulator::StepResult;
use crate::emulator::MEMORY_LIMIT;
use crate::emulator::Notice;
use crate::emulator::same_except_eip;
use crate::emulator::same_flags_memory_output;
use crate::emulator::same_flags_memory_serial;
use crate::emulator::same_flags_serial;
use crate::emulator::same_regs_flags_memory_input;
use crate::emulator::same_regs_memory_serial;
use crate::emulator::same_serial;
use crate::emulator::same_state;
use crate::function::add32;
use crate::function::get_code32;
use crate::function::get_code8;
use crate::function::get_register32;
use crate::function::get_register8;
use crate::function::get_memory32;
use crate::function::get_sign_code32;
use crate::function::get_sign_code8;
use crate::function::mem32_at;
use crate::function::pop32;
use crate::function::push32;
use crate::function::set_register32;
use crate::function::set_register8;
use crate::function::sign8;
use crate::function::sign32;
use crate::function::spec_flags_after_sub;
use crate::function::spec_get_register8;
use crate::function::spec_set_register8;
use crate::function::spec_carry;
use crate::function::spec_overflow;
use crate::function::spec_sign;
use crate::function::spec_zero;
use crate::function::spec_write32;
use crate::function::sign_extend8;
use crate::function::sign_extend8_32;
use crate::function::sub32;
use crate::function::sub_wide;
use crate::modrm::ModRM;
use crate::modrm::get_r32;
use crate::modrm::get_r8;
use crate::modrm::get_rm32;
use crate::modrm::get_rm8;
use crate::modrm::modrm_ok;
use crate::modrm::modrm_size;
use crate::modrm::parse_modrm;
use crate::modrm::rm8_ok;
use crate::modrm::rm32_ok;
use crate::modrm::rm_fault;
use crate::modrm::set_r32;
use crate::modrm::set_r8;
use crate::modrm::set_rm32;
use crate::modrm::set_rm8;
use crate::modrm::spec_modrm_at;
use crate::modrm::spec_rm32;
use crate::modrm::spec_rm8;
use crate::modrm::spec_set_rm32_mem;
use crate::modrm::spec_set_rm32_regs;
use crate::modrm::spec_set_rm8_mem;
use crate::modrm::spec_set_rm8_regs;
use crate::function::is_carry;
use crate::function::is_overflow;
use crate::function::is_sign;
use crate::function::is_zero;
use crate::function::update_eflags_sub;
use crate::io::io_in8;
use crate::io::io_out8;

/// The target of a branch `diff` bytes past the end of an `ilen`-byte
/// instruction at `eip`; a target outside the 32-bit address space is a
/// fault.
fn branch_target(eip: usize, ilen: usize, diff: i32) -> (r: Result<usize, Fault>)
    requires
        eip <= MEMORY_LIMIT,
        ilen <= 8,
    ensures
        0 <= eip + ilen + diff <= 0xFFFF_FFFF ==> r == Ok::<usize, Fault>(
            (eip + ilen + diff) as usize,
        ),
        !(0 <= eip + ilen + diff <= 0xFFFF_FFFF) ==> r == Err::<usize, Fault>(Fault::OutOfRange),
{
    let t: i64 = eip as i64 + ilen as i64 + diff as i64;
    if t < 0 || t > 0xFFFF_FFFF {
        Err(Fault::OutOfRange)
    } else {
        Ok(t as usize)
    }
}

/// The sentinel handler of unmapped opcodes: no state change.  The decode
/// loop stops instead of invoking it.
pub fn undefined(emu: &mut Emulator)
    ensures
        *final(emu) == *old(emu),
{
}

/// The `Result` a step outcome stands for; `NotImplemented` never
/// reaches the handlers and is mapped arbitrarily.
pub open spec fn res_of_step(s: StepResult) -> Result<(), Fault> {
    match s {
        StepResult::Executed => Ok(()),
        StepResult::Faulted(f) => Err(f),
        StepResult::NotImplemented(_) => Ok(()),
    }
}

/// Effect of a conditional short jump with condition `cond`.
pub open spec fn jcc_effect(pre: Emulator, post: Emulator, r: Result<(), Fault>, cond: bool) -> bool {
    let m = pre.memory@;
    let eip = pre.eip as int;
    &&& same_except_eip(pre, post)
    &&& !cond ==> r == Ok::<(), Fault>(()) && post.eip == eip + 2
    &&& cond && eip + 2 <= m.len() && eip + 2 + sign8(m[eip + 1]) >= 0 ==> r == Ok::<(), Fault>(())
        && post.eip == eip + 2 + sign8(m[eip + 1])
    &&& cond && !(eip + 2 <= m.len() && eip + 2 + sign8(m[eip + 1]) >= 0) ==> r == Err::<(), Fault>(
        Fault::OutOfRange,
    ) && post.eip == eip
}

/// Law: a conditional jump whose condition is false advances the
/// instruction pointer by exactly two bytes, whatever the displacement
/// byte holds; a taken jump whose target is a valid address lands at the
/// byte after the two-byte instruction plus the signed displacement.
/// (A taken jump whose target would be negative faults instead, with
/// the instruction pointer unmoved.)
pub proof fn lemma_conditional_jump(pre: Emulator, post: Emulator, r: Result<(), Fault>, cond: bool)
    requires
        jcc_effect(pre, post, r, cond),
        cond ==> pre.eip + 1 < pre.memory@.len() && pre.eip + 2 + sign8(
            pre.memory@[pre.eip as int + 1],
        ) >= 0,
    ensures
        r == Ok::<(), Fault>(()),
        post.eip == pre.eip + 2 + (if cond {
            sign8(pre.memory@[pre.eip as int + 1]) as int
        } else {
            0int
        }),
        same_except_eip(pre, post),
{
}

/// Effect of `mov_r8_imm8`.
pub open spec fn mov_r8_imm8_effect(pre: Emulator, post: Emulator, r: Result<(), Fault>) -> bool {
    let m = pre.memory@;
    let eip = pre.eip as int;
    let reg = m[eip] - 0xB0;
    &&& same_flags_memory_serial(pre, post)
    &&& eip + 2 <= m.len() ==> r == Ok::<(), Fault>(()) && post.registers@ == spec_set_register8(
        pre.registers@,
        reg,
        m[eip + 1],
    ) && post.eip == eip + 2
    &&& eip + 2 > m.len() ==> r == Err::<(), Fault>(Fault::OutOfRange) && same_state(pre, post)
}

/// Effect of `mov_r32_imm32`.
pub open spec fn mov_r32_imm32_effect(pre: Emulator, post: Emulator, r: Result<(), Fault>) -> bool {
    let m = pre.memory@;
    let eip = pre.eip as int;
    let reg = m[eip] - 0xB8;
    &&& same_flags_memory_serial(pre, post)
    &&& eip + 5 <= m.len() ==> r == Ok::<(), Fault>(()) && post.registers@
        == pre.registers@.update(reg as int, mem32_at(m, eip + 1)) && post.eip == eip + 5
    &&& eip + 5 > m.len() ==> r == Err::<(), Fault>(Fault::OutOfRange) && same_state(pre, post)
}

/// Effect of `inc_r32`, which cannot fault.
pub open spec fn inc_r32_effect(pre: Emulator, post: Emulator) -> bool {
    let reg = (pre.memory@[pre.eip as int] - 0x40) as int;
    &&& same_flags_memory_serial(pre, post)
    &&& post.registers@ == pre.registers@.update(reg, add32(pre.registers@[reg], 1))
    &&& post.eip == pre.eip + 1
}

/// Effect of `push_r32`.
pub open spec fn push_r32_effect(pre: Emulator, post: Emulator, r: Result<(), Fault>) -> bool {
    let m = pre.memory@;
    let regs = pre.registers@;
    let reg = (m[pre.eip as int] - 0x50) as int;
    let esp = regs[ESP as int];
    &&& same_flags_serial(pre, post)
    &&& 4 <= esp && esp <= m.len() ==> r == Ok::<(), Fault>(()) && post.registers@ == regs.update(
        ESP as int,
        (esp - 4) as u32,
    ) && post.memory@ == spec_write32(m, esp - 4, regs[reg]) && post.eip == pre.eip + 1
    &&& !(4 <= esp && esp <= m.len()) ==> r == Err::<(), Fault>(Fault::OutOfRange) && same_state(
        pre,
        post,
    )
}

/// Effect of `pop_r32`.
pub open spec fn pop_r32_effect(pre: Emulator, post: Emulator, r: Result<(), Fault>) -> bool {
    let m = pre.memory@;
    let regs = pre.registers@;
    let reg = (m[pre.eip as int] - 0x58) as int;
    let esp = regs[ESP as int];
    &&& same_flags_memory_serial(pre, post)
    &&& esp + 4 <= m.len() ==> r == Ok::<(), Fault>(()) && post.registers@ == regs.update(
        ESP as int,
        (esp + 4) as u32,
    ).update(reg, mem32_at(m, esp as int)) && post.eip == pre.eip + 1
    &&& esp + 4 > m.len() ==> r == Err::<(), Fault>(Fault::OutOfRange) && same_state(pre, post)
}

/// Effect of `push_imm32`.
pub open spec fn push_imm32_effect(pre: Emulator, post: Emulator, r: Result<(), Fault>) -> bool {
    let m = pre.memory@;
    let regs = pre.registers@;
    let eip = pre.eip as int;
    let esp = regs[ESP as int];
    let ok = eip + 5 <= m.len() && 4 <= esp && esp <= m.len();
    &&& same_flags_serial(pre, post)
    &&& ok ==> r == Ok::<(), Fault>(()) && post.registers@ == regs.update(
        ESP as int,
        (esp - 4) as u32,
    ) && post.memory@ == spec_write32(m, esp - 4, mem32_at(m, eip + 1)) && post.eip == eip + 5
    &&& !ok ==> r == Err::<(), Fault>(Fault::OutOfRange) && same_state(pre, post)
}

/// Effect of `push_imm8`.
pub open spec fn push_imm8_effect(pre: Emulator, post: Emulator, r: Result<(), Fault>) -> bool {
    let m = pre.memory@;
    let regs = pre.registers@;
    let eip = pre.eip as int;
    let esp = regs[ESP as int];
    let ok = eip + 2 <= m.len() && 4 <= esp && esp <= m.len();
    &&& same_flags_serial(pre, post)
    &&& ok ==> r == Ok::<(), Fault>(()) && post.registers@ == regs.update(
        ESP as int,
        (esp - 4) as u32,
    ) && post.memory@ == spec_write32(m, esp - 4, sign_extend8_32(sign8(m[eip + 1]))) && post.eip
        == eip + 2
    &&& !ok ==> r == Err::<(), Fault>(Fault::OutOfRange) && same_state(pre, post)
}

/// Effect of `in_al_dx`.
pub open spec fn in_al_dx_effect(pre: Emulator, post: Emulator, r: Result<(), Fault>) -> bool {
    let regs = pre.registers@;
    let port = regs[EDX as int] & 0xffff;
    let input = pre.serial_input@;
    let blocked = port == SERIAL_PORT && input.len() == 0;
    let v = if port == SERIAL_PORT {
        input[0]
    } else {
        0u8
    };
    &&& same_flags_memory_output(pre, post)
    &&& !blocked ==> r == Ok::<(), Fault>(()) && post.registers@ == spec_set_register8(
        regs,
        AL as int,
        v,
    ) && post.eip == pre.eip + 1 && (if port == SERIAL_PORT {
        post.serial_input@ == input.remove(0)
    } else {
        post.serial_input@ == input
    })
    &&& blocked ==> r == Err::<(), Fault>(Fault::InputEmpty) && same_state(pre, post)
}

/// Effect of `out_dx_al`, which cannot fault.
pub open spec fn out_dx_al_effect(pre: Emulator, post: Emulator) -> bool {
    let regs = pre.registers@;
    let port = regs[EDX as int] & 0xffff;
    let al = spec_get_register8(regs, AL as int);
    &&& same_regs_flags_memory_input(pre, post)
    &&& post.notices@ == pre.notices@
    &&& post.eip == pre.eip + 1
    &&& (if port == SERIAL_PORT {
        post.serial_output@ == pre.serial_output@.push(al)
    } else {
        post.serial_output@ == pre.serial_output@
    })
}

/// Effect of `call_rel32`.
pub open spec fn call_rel32_effect(pre: Emulator, post: Emulator, r: Result<(), Fault>) -> bool {
    let m = pre.memory@;
    let regs = pre.registers@;
    let eip = pre.eip as int;
    let esp = regs[ESP as int];
    let diff = sign32(mem32_at(m, eip + 1));
    let ok = eip + 5 <= m.len() && 0 <= eip + 5 + diff <= 0xFFFF_FFFF && 4 <= esp && esp
        <= m.len();
    &&& same_flags_serial(pre, post)
    &&& ok ==> r == Ok::<(), Fault>(()) && post.registers@ == regs.update(
        ESP as int,
        (esp - 4) as u32,
    ) && post.memory@ == spec_write32(m, esp - 4, (eip + 5) as u32) && post.eip == eip + 5 + diff
    &&& !ok ==> r == Err::<(), Fault>(Fault::OutOfRange) && same_state(pre, post)
}

/// Effect of `ret`.
pub open spec fn ret_effect(pre: Emulator, post: Emulator, r: Result<(), Fault>) -> bool {
    let m = pre.memory@;
    let regs = pre.registers@;
    let esp = regs[ESP as int];
    &&& same_flags_memory_serial(pre, post)
    &&& esp + 4 <= m.len() ==> r == Ok::<(), Fault>(()) && post.registers@ == regs.update(
        ESP as int,
        (esp + 4) as u32,
    ) && post.eip == mem32_at(m, esp as int)
    &&& esp + 4 > m.len() ==> r == Err::<(), Fault>(Fault::OutOfRange) && same_state(pre, post)
}

/// Effect of `leave`.
pub open spec fn leave_effect(pre: Emulator, post: Emulator, r: Result<(), Fault>) -> bool {
    let m = pre.memory@;
    let regs = pre.registers@;
    let ebp = regs[EBP as int];
    &&& same_flags_memory_serial(pre, post)
    &&& ebp + 4 <= m.len() ==> r == Ok::<(), Fault>(()) && post.registers@ == regs.update(
        ESP as int,
        (ebp + 4) as u32,
    ).update(EBP as int, mem32_at(m, ebp as int)) && post.eip == pre.eip + 1
    &&& ebp + 4 > m.len() ==> r == Err::<(), Fault>(Fault::OutOfRange) && same_state(pre, post)
}

/// Effect of `short_jump`.
pub open spec fn short_jump_effect(pre: Emulator, post: Emulator, r: Result<(), Fault>) -> bool {
    let m = pre.memory@;
    let eip = pre.eip as int;
    let ok = eip + 2 <= m.len() && eip + 2 + sign8(m[eip + 1]) >= 0;
    &&& same_except_eip(pre, post)
    &&& ok ==> r == Ok::<(), Fault>(()) && post.eip == eip + 2 + sign8(m[eip + 1])
    &&& !ok ==> r == Err::<(), Fault>(Fault::OutOfRange) && post.eip == eip
}

/// Effect of `near_jump`.
pub open spec fn near_jump_effect(pre: Emulator, post: Emulator, r: Result<(), Fault>) -> bool {
    let m = pre.memory@;
    let eip = pre.eip as int;
    let diff = sign32(mem32_at(m, eip + 1));
    let ok = eip + 5 <= m.len() && 0 <= eip + 5 + diff <= 0xFFFF_FFFF;
    &&& same_except_eip(pre, post)
    &&& ok ==> r == Ok::<(), Fault>(()) && post.eip == eip + 5 + diff
    &&& !ok ==> r == Err::<(), Fault>(Fault::OutOfRange) && post.eip == eip
}

/// Effect of `cmp_al_imm8`.
pub open spec fn cmp_al_imm8_effect(pre: Emulator, post: Emulator, r: Result<(), Fault>) -> bool {
    let m = pre.memory@;
    let eip = pre.eip as int;
    let al = spec_get_register8(pre.registers@, AL as int) as u32;
    let v = m[eip + 1] as u32;
    &&& same_regs_memory_serial(pre, post)
    &&& eip + 2 <= m.len() ==> r == Ok::<(), Fault>(()) && post.eflags == spec_flags_after_sub(
        pre.eflags,
        al,
        v,
        sub_wide(al, v),
    ) && post.eip == eip + 2
    &&& eip + 2 > m.len() ==> r == Err::<(), Fault>(Fault::OutOfRange) && same_state(pre, post)
}

/// Effect of `cmp_eax_imm32`.
pub open spec fn cmp_eax_imm32_effect(pre: Emulator, post: Emulator, r: Result<(), Fault>) -> bool {
    let m = pre.memory@;
    let eip = pre.eip as int;
    let eax = pre.registers@[EAX as int];
    let v = mem32_at(m, eip + 1);
    &&& same_regs_memory_serial(pre, post)
    &&& eip + 5 <= m.len() ==> r == Ok::<(), Fault>(()) && post.eflags == spec_flags_after_sub(
        pre.eflags,
        eax,
        v,
        sub_wide(eax, v),
    ) && post.eip == eip + 5
    &&& eip + 5 > m.len() ==> r == Err::<(), Fault>(Fault::OutOfRange) && same_state(pre, post)
}

/// Effect of `swi`: vector 0x10 with the teletype function in AH writes
/// the escape sequence; vector 0x10 with any other function, or any
/// other vector, is reported in the diagnostics queue and changes
/// nothing else.
pub open spec fn swi_effect(pre: Emulator, post: Emulator, r: Result<(), Fault>) -> bool {
    let m = pre.memory@;
    let eip = pre.eip as int;
    let regs = pre.registers@;
    let vector = m[eip + 1];
    let func = spec_get_register8(regs, AH as int);
    let teletype = vector == 0x10 && func == 0x0e;
    &&& same_regs_flags_memory_input(pre, post)
    &&& eip + 2 <= m.len() ==> {
        &&& r == Ok::<(), Fault>(())
        &&& post.eip == eip + 2
        &&& teletype ==> post.serial_output@ == pre.serial_output@ + teletype_bytes(
            spec_get_register8(regs, BL as int) & 0x0f,
            spec_get_register8(regs, AL as int),
        ) && post.notices@ == pre.notices@
        &&& !teletype ==> post.serial_output@ == pre.serial_output@
        &&& vector != 0x10 ==> post.notices@ == pre.notices@.push(
            Notice::UnknownInterrupt(vector),
        )
        &&& vector == 0x10 && func != 0x0e ==> post.notices@ == pre.notices@.push(
            Notice::UnknownVideoFunction(func),
        )
    }
    &&& eip + 2 > m.len() ==> r == Err::<(), Fault>(Fault::OutOfRange) && same_state(pre, post)
}

/// Effect of `mov_rm32_r32`.
pub open spec fn mov_rm32_r32_effect(pre: Emulator, post: Emulator, r: Result<(), Fault>) -> bool {
    let m = pre.memory@;
    let regs = pre.registers@;
    let a = pre.eip + 1;
    let mr = spec_modrm_at(m, a);
    let v = regs[mr.reg_index as int];
    &&& same_flags_serial(pre, post)
    &&& modrm_ok(m, a) && rm32_ok(regs, m, mr) ==> r == Ok::<(), Fault>(()) && post.registers@
        == spec_set_rm32_regs(regs, mr, v) && post.memory@ == spec_set_rm32_mem(regs, m, mr, v)
        && post.eip == a + modrm_size(m, a)
    &&& !modrm_ok(m, a) ==> r == Err::<(), Fault>(Fault::OutOfRange)
    &&& modrm_ok(m, a) && !rm32_ok(regs, m, mr) ==> r == Err::<(), Fault>(rm_fault(mr))
    &&& r is Err ==> post.registers@ == regs && post.memory@ == m
}

/// Effect of `mov_r32_rm32`.
pub open spec fn mov_r32_rm32_effect(pre: Emulator, post: Emulator, r: Result<(), Fault>) -> bool {
    let m = pre.memory@;
    let regs = pre.registers@;
    let a = pre.eip + 1;
    let mr = spec_modrm_at(m, a);
    &&& same_flags_memory_serial(pre, post)
    &&& modrm_ok(m, a) && rm32_ok(regs, m, mr) ==> r == Ok::<(), Fault>(()) && post.registers@
        == regs.update(mr.reg_index as int, spec_rm32(regs, m, mr)) && post.eip == a + modrm_size(
        m,
        a,
    )
    &&& !modrm_ok(m, a) ==> r == Err::<(), Fault>(Fault::OutOfRange)
    &&& modrm_ok(m, a) && !rm32_ok(regs, m, mr) ==> r == Err::<(), Fault>(rm_fault(mr))
    &&& r is Err ==> post.registers@ == regs
}

/// Effect of `mov_rm8_r8`.
pub open spec fn mov_rm8_r8_effect(pre: Emulator, post: Emulator, r: Result<(), Fault>) -> bool {
    let m = pre.memory@;
    let regs = pre.registers@;
    let a = pre.eip + 1;
    let mr = spec_modrm_at(m, a);
    let v = spec_get_register8(regs, mr.reg_index as int);
    &&& same_flags_serial(pre, post)
    &&& modrm_ok(m, a) && rm8_ok(regs, m, mr) ==> r == Ok::<(), Fault>(()) && post.registers@
        == spec_set_rm8_regs(regs, mr, v) && post.memory@ == spec_set_rm8_mem(regs, m, mr, v)
        && post.eip == a + modrm_size(m, a)
    &&& !modrm_ok(m, a) ==> r == Err::<(), Fault>(Fault::OutOfRange)
    &&& modrm_ok(m, a) && !rm8_ok(regs, m, mr) ==> r == Err::<(), Fault>(rm_fault(mr))
    &&& r is Err ==> post.registers@ == regs && post.memory@ == m
}

/// Effect of `mov_r8_rm8`.
pub open spec fn mov_r8_rm8_effect(pre: Emulator, post: Emulator, r: Result<(), Fault>) -> bool {
    let m = pre.memory@;
    let regs = pre.registers@;
    let a = pre.eip + 1;
    let mr = spec_modrm_at(m, a);
    &&& same_flags_memory_serial(pre, post)
    &&& modrm_ok(m, a) && rm8_ok(regs, m, mr) ==> r == Ok::<(), Fault>(()) && post.registers@
        == spec_set_register8(regs, mr.reg_index as int, spec_rm8(regs, m, mr)) && post.eip == a
        + modrm_size(m, a)
    &&& !modrm_ok(m, a) ==> r == Err::<(), Fault>(Fault::OutOfRange)
    &&& modrm_ok(m, a) && !rm8_ok(regs, m, mr) ==> r == Err::<(), Fault>(rm_fault(mr))
    &&& r is Err ==> post.registers@ == regs
}

/// Effect of `mov_rm32_imm32`.
pub open spec fn mov_rm32_imm32_effect(pre: Emulator, post: Emulator, r: Result<(), Fault>) -> bool {
    let m = pre.memory@;
    let regs = pre.registers@;
    let a = pre.eip + 1;
    let mr = spec_modrm_at(m, a);
    let p = a + modrm_size(m, a);
    let v = mem32_at(m, p);
    &&& same_flags_serial(pre, post)
    &&& modrm_ok(m, a) && p + 4 <= m.len() && rm32_ok(regs, m, mr) ==> r == Ok::<(), Fault>(())
        && post.registers@ == spec_set_rm32_regs(regs, mr, v) && post.memory@ == spec_set_rm32_mem(
        regs,
        m,
        mr,
        v,
    ) && post.eip == p + 4
    &&& !modrm_ok(m, a) ==> r == Err::<(), Fault>(Fault::OutOfRange)
    &&& modrm_ok(m, a) && p + 4 > m.len() ==> r == Err::<(), Fault>(Fault::OutOfRange)
    &&& modrm_ok(m, a) && p + 4 <= m.len() && !rm32_ok(regs, m, mr) ==> r == Err::<(), Fault>(
        rm_fault(mr),
    )
    &&& r is Err ==> post.registers@ == regs && post.memory@ == m
}

/// Effect of `add_rm32_r32`.
pub open spec fn add_rm32_r32_effect(pre: Emulator, post: Emulator, r: Result<(), Fault>) -> bool {
    let m = pre.memory@;
    let regs = pre.registers@;
    let a = pre.eip + 1;
    let mr = spec_modrm_at(m, a);
    let v = add32(spec_rm32(regs, m, mr), regs[mr.reg_index as int]);
    &&& same_flags_serial(pre, post)
    &&& modrm_ok(m, a) && rm32_ok(regs, m, mr) ==> r == Ok::<(), Fault>(()) && post.registers@
        == spec_set_rm32_regs(regs, mr, v) && post.memory@ == spec_set_rm32_mem(regs, m, mr, v)
        && post.eip == a + modrm_size(m, a)
    &&& !modrm_ok(m, a) ==> r == Err::<(), Fault>(Fault::OutOfRange)
    &&& modrm_ok(m, a) && !rm32_ok(regs, m, mr) ==> r == Err::<(), Fault>(rm_fault(mr))
    &&& r is Err ==> post.registers@ == regs && post.memory@ == m
}

/// Effect of `cmp_r32_rm32`.
pub open spec fn cmp_r32_rm32_effect(pre: Emulator, post: Emulator, r: Result<(), Fault>) -> bool {
    let m = pre.memory@;
    let regs = pre.registers@;
    let a = pre.eip + 1;
    let mr = spec_modrm_at(m, a);
    let v1 = regs[mr.reg_index as int];
    let v2 = spec_rm32(regs, m, mr);
    &&& same_regs_memory_serial(pre, post)
    &&& modrm_ok(m, a) && rm32_ok(regs, m, mr) ==> r == Ok::<(), Fault>(()) && post.eflags
        == spec_flags_after_sub(pre.eflags, v1, v2, sub_wide(v1, v2)) && post.eip == a
        + modrm_size(m, a)
    &&& !modrm_ok(m, a) ==> r == Err::<(), Fault>(Fault::OutOfRange)
    &&& modrm_ok(m, a) && !rm32_ok(regs, m, mr) ==> r == Err::<(), Fault>(rm_fault(mr))
    &&& r is Err ==> post.eflags == pre.eflags
}

/// Effect of the 0x83 group.
pub open spec fn code_83_effect(pre: Emulator, post: Emulator, r: Result<(), Fault>) -> bool {
    let m = pre.memory@;
    let regs = pre.registers@;
    let f = pre.eflags;
    let a = pre.eip + 1;
    let mr = spec_modrm_at(m, a);
    let p = a + modrm_size(m, a);
    let known = mr.opecode == 0 || mr.opecode == 5 || mr.opecode == 7;
    let v1 = spec_rm32(regs, m, mr);
    let v2 = sign_extend8_32(sign8(m[p]));
    let ok = modrm_ok(m, a) && known && rm32_ok(regs, m, mr) && p + 1 <= m.len();
    &&& same_serial(pre, post)
    &&& ok && mr.opecode == 0 ==> r == Ok::<(), Fault>(()) && post.registers@
        == spec_set_rm32_regs(regs, mr, add32(v1, v2)) && post.memory@ == spec_set_rm32_mem(
        regs,
        m,
        mr,
        add32(v1, v2),
    ) && post.eflags == f && post.eip == p + 1
    &&& ok && mr.opecode == 5 ==> r == Ok::<(), Fault>(()) && post.registers@
        == spec_set_rm32_regs(regs, mr, sub32(v1, v2)) && post.memory@ == spec_set_rm32_mem(
        regs,
        m,
        mr,
        sub32(v1, v2),
    ) && post.eflags == spec_flags_after_sub(f, v1, v2, sub_wide(v1, v2)) && post.eip == p + 1
    &&& ok && mr.opecode == 7 ==> r == Ok::<(), Fault>(()) && post.registers@ == regs
        && post.memory@ == m && post.eflags == spec_flags_after_sub(f, v1, v2, sub_wide(v1, v2))
        && post.eip == p + 1
    &&& !modrm_ok(m, a) ==> r == Err::<(), Fault>(Fault::OutOfRange)
    &&& modrm_ok(m, a) && !known ==> r == Err::<(), Fault>(Fault::GroupOpcode(0x83, mr.opecode))
    &&& modrm_ok(m, a) && known && !rm32_ok(regs, m, mr) ==> r == Err::<(), Fault>(rm_fault(mr))
    &&& modrm_ok(m, a) && known && rm32_ok(regs, m, mr) && p + 1 > m.len() ==> r == Err::<
        (),
        Fault,
    >(Fault::OutOfRange)
    &&& r is Err ==> post.registers@ == regs && post.memory@ == m && post.eflags == f
}

/// Effect of the 0xFF group.
pub open spec fn code_ff_effect(pre: Emulator, post: Emulator, r: Result<(), Fault>) -> bool {
    let m = pre.memory@;
    let regs = pre.registers@;
    let a = pre.eip + 1;
    let mr = spec_modrm_at(m, a);
    let v = add32(spec_rm32(regs, m, mr), 1);
    &&& same_flags_serial(pre, post)
    &&& modrm_ok(m, a) && mr.opecode == 0 && rm32_ok(regs, m, mr) ==> r == Ok::<(), Fault>(())
        && post.registers@ == spec_set_rm32_regs(regs, mr, v) && post.memory@
        == spec_set_rm32_mem(regs, m, mr, v) && post.eip == a + modrm_size(m, a)
    &&& !modrm_ok(m, a) ==> r == Err::<(), Fault>(Fault::OutOfRange)
    &&& modrm_ok(m, a) && mr.opecode != 0 ==> r == Err::<(), Fault>(
        Fault::GroupOpcode(0xFF, mr.opecode),
    )
    &&& modrm_ok(m, a) && mr.opecode == 0 && !rm32_ok(regs, m, mr) ==> r == Err::<(), Fault>(
        rm_fault(mr),
    )
    &&& r is Err ==> post.registers@ == regs && post.memory@ == m
}

/// 0xB0-0xB7: move an 8-bit immediate into the 8-bit register view
/// encoded in the opcode's low three bits.
pub fn mov_r8_imm8(emu: &mut Emulator) -> (r: Result<(), Fault>)
    requires
        old(emu).wf(),
        old(emu).eip < old(emu).memory@.len(),
        0xB0 <= old(emu).memory@[old(emu).eip as int] <= 0xB7,
    ensures
        final(emu).wf(),
        mov_r8_imm8_effect(*old(emu), *final(emu), r),
{
    let op = match get_code8(&*emu, 0) {
        Ok(b) => b,
        Err(f) => return Err(f),
    };
    let reg = op - 0xB0;
    let value = match get_code8(&*emu, 1) {
        Ok(b) => b,
        Err(f) => return Err(f),
    };
    set_register8(emu, reg as usize, value);
    emu.eip = emu.eip + 2;
    Ok(())
}

/// 0xB8-0xBF: move a 32-bit immediate into the register encoded in the
/// opcode's low three bits.
pub fn mov_r32_imm32(emu: &mut Emulator) -> (r: Result<(), Fault>)
    requires
        old(emu).wf(),
        old(emu).eip < old(emu).memory@.len(),
        0xB8 <= old(emu).memory@[old(emu).eip as int] <= 0xBF,
    ensures
        final(emu).wf(),
        mov_r32_imm32_effect(*old(emu), *final(emu), r),
{
    let op = match get_code8(&*emu, 0) {
        Ok(b) => b,
        Err(f) => return Err(f),
    };
    let reg = op - 0xB8;
    let value = match get_code32(&*emu, 1) {
        Ok(v) => v,
        Err(f) => return Err(f),
    };
    set_register32(emu, reg as usize, value);
    emu.eip = emu.eip + 5;
    Ok(())
}

/// 0x40-0x47: increment the 32-bit register encoded in the opcode's low
/// three bits, wrapping at 32 bits; no flags change.
pub fn inc_r32(emu: &mut Emulator)
    requires
        old(emu).wf(),
        old(emu).eip < old(emu).memory@.len(),
        0x40 <= old(emu).memory@[old(emu).eip as int] <= 0x47,
    ensures
        final(emu).wf(),
        inc_r32_effect(*old(emu), *final(emu)),
{
    let op = emu.memory[emu.eip];
    let reg = (op - 0x40) as usize;
    let value = get_register32(&*emu, reg);
    set_register32(emu, reg, value.wrapping_add(1));
    emu.eip = emu.eip + 1;
}

/// 0x50-0x57: push the 32-bit register encoded in the opcode's low three
/// bits.
pub fn push_r32(emu: &mut Emulator) -> (r: Result<(), Fault>)
    requires
        old(emu).wf(),
        old(emu).eip < old(emu).memory@.len(),
        0x50 <= old(emu).memory@[old(emu).eip as int] <= 0x57,
    ensures
        final(emu).wf(),
        push_r32_effect(*old(emu), *final(emu), r),
{
    let op = emu.memory[emu.eip];
    let reg = (op - 0x50) as usize;
    let value = get_register32(&*emu, reg);
    match push32(emu, value) {
        Ok(()) => {
            emu.eip = emu.eip + 1;
            Ok(())
        },
        Err(f) => Err(f),
    }
}

/// 0x58-0x5F: pop into the 32-bit register encoded in the opcode's low
/// three bits.
pub fn pop_r32(emu: &mut Emulator) -> (r: Result<(), Fault>)
    requires
        old(emu).wf(),
        old(emu).eip < old(emu).memory@.len(),
        0x58 <= old(emu).memory@[old(emu).eip as int] <= 0x5F,
    ensures
        final(emu).wf(),
        pop_r32_effect(*old(emu), *final(emu), r),
{
    let op = emu.memory[emu.eip];
    let reg = (op - 0x58) as usize;
    let value = match pop32(emu) {
        Ok(v) => v,
        Err(f) => return Err(f),
    };
    set_register32(emu, reg, value);
    emu.eip = emu.eip + 1;
    Ok(())
}

/// 0x68: push a 32-bit immediate.
pub fn push_imm32(emu: &mut Emulator) -> (r: Result<(), Fault>)
    requires
        old(emu).wf(),
        old(emu).eip < old(emu).memory@.len(),
    ensures
        final(emu).wf(),
        push_imm32_effect(*old(emu), *final(emu), r),
{
    let value = match get_code32(&*emu, 1) {
        Ok(v) => v,
        Err(f) => return Err(f),
    };
    match push32(emu, value) {
        Ok(()) => {
            emu.eip = emu.eip + 5;
            Ok(())
        },
        Err(f) => Err(f),
    }
}

/// 0x6A: push an 8-bit immediate, sign-extended to 32 bits.
pub fn push_imm8(emu: &mut Emulator) -> (r: Result<(), Fault>)
    requires
        old(emu).wf(),
        old(emu).eip < old(emu).memory@.len(),
    ensures
        final(emu).wf(),
        push_imm8_effect(*old(emu), *final(emu), r),
{
    let value = match get_sign_code8(&*emu, 1) {
        Ok(v) => v,
        Err(f) => return Err(f),
    };
    match push32(emu, sign_extend8(value)) {
        Ok(()) => {
            emu.eip = emu.eip + 2;
            Ok(())
        },
        Err(f) => Err(f),
    }
}

/// 0xEC: read a byte from the port named by DX into AL.
pub fn in_al_dx(emu: &mut Emulator) -> (r: Result<(), Fault>)
    requires
        old(emu).wf(),
        old(emu).eip < old(emu).memory@.len(),
    ensures
        final(emu).wf(),
        in_al_dx_effect(*old(emu), *final(emu), r),
{
    let address = get_register32(&*emu, EDX) & 0xffff;
    let value = match io_in8(emu, address) {
        Ok(v) => v,
        Err(f) => return Err(f),
    };
    set_register8(emu, AL, value);
    emu.eip = emu.eip + 1;
    Ok(())
}

/// 0xEE: write AL to the port named by DX.
pub fn out_dx_al(emu: &mut Emulator)
    requires
        old(emu).wf(),
        old(emu).eip < old(emu).memory@.len(),
    ensures
        final(emu).wf(),
        out_dx_al_effect(*old(emu), *final(emu)),
{
    let address = get_register32(&*emu, EDX) & 0xffff;
    let value = get_register8(&*emu, AL);
    io_out8(emu, address, value);
    emu.eip = emu.eip + 1;
}

/// 0xE8: call — push the return address (the byte after the five-byte
/// instruction), then jump by a signed 32-bit displacement.
pub fn call_rel32(emu: &mut Emulator) -> (r: Result<(), Fault>)
    requires
        old(emu).wf(),
        old(emu).eip < old(emu).memory@.len(),
    ensures
        final(emu).wf(),
        call_rel32_effect(*old(emu), *final(emu), r),
{
    let diff = match get_sign_code32(&*emu, 1) {
        Ok(v) => v,
        Err(f) => return Err(f),
    };
    let t = match branch_target(emu.eip, 5, diff) {
        Ok(t) => t,
        Err(f) => return Err(f),
    };
    let ret_addr = (emu.eip + 5) as u32;
    match push32(emu, ret_addr) {
        Ok(()) => {
            emu.eip = t;
            Ok(())
        },
        Err(f) => Err(f),
    }
}

/// 0xC3: return — pop the return address into `eip`.
pub fn ret(emu: &mut Emulator) -> (r: Result<(), Fault>)
    requires
        old(emu).wf(),
    ensures
        final(emu).wf(),
        ret_effect(*old(emu), *final(emu), r),
{
    let value = match pop32(emu) {
        Ok(v) => v,
        Err(f) => return Err(f),
    };
    emu.eip = value as usize;
    Ok(())
}

/// 0xC9: leave — the stack pointer takes EBP's value, then EBP is popped.
pub fn leave(emu: &mut Emulator) -> (r: Result<(), Fault>)
    requires
        old(emu).wf(),
        old(emu).eip < old(emu).memory@.len(),
    ensures
        final(emu).wf(),
        leave_effect(*old(emu), *final(emu), r),
{
    let ebp = get_register32(&*emu, EBP);
    let value = match get_memory32(&*emu, ebp) {
        Ok(v) => v,
        Err(f) => return Err(f),
    };
    set_register32(emu, ESP, ebp + 4);
    set_register32(emu, EBP, value);
    emu.eip = emu.eip + 1;
    Ok(())
}

/// 0xEB: unconditional short jump by a signed 8-bit displacement,
/// relative to the byte after the two-byte instruction.
pub fn short_jump(emu: &mut Emulator) -> (r: Result<(), Fault>)
    requires
        old(emu).wf(),
        old(emu).eip < old(emu).memory@.len(),
    ensures
        final(emu).wf(),
        short_jump_effect(*old(emu), *final(emu), r),
{
    let d = match get_sign_code8(&*emu, 1) {
        Ok(d) => d,
        Err(f) => return Err(f),
    };
    let t = match branch_target(emu.eip, 2, d as i32) {
        Ok(t) => t,
        Err(f) => return Err(f),
    };
    emu.eip = t;
    Ok(())
}

/// 0xE9: unconditional near jump by a signed 32-bit displacement,
/// relative to the byte after the five-byte instruction.
pub fn near_jump(emu: &mut Emulator) -> (r: Result<(), Fault>)
    requires
        old(emu).wf(),
        old(emu).eip < old(emu).memory@.len(),
    ensures
        final(emu).wf(),
        near_jump_effect(*old(emu), *final(emu), r),
{
    let d = match get_sign_code32(&*emu, 1) {
        Ok(d) => d,
        Err(f) => return Err(f),
    };
    let t = match branch_target(emu.eip, 5, d) {
        Ok(t) => t,
        Err(f) => return Err(f),
    };
    emu.eip = t;
    Ok(())
}

/// 0x3C: compare AL against an 8-bit immediate; only the flags change.
pub fn cmp_al_imm8(emu: &mut Emulator) -> (r: Result<(), Fault>)
    requires
        old(emu).wf(),
        old(emu).eip < old(emu).memory@.len(),
    ensures
        final(emu).wf(),
        cmp_al_imm8_effect(*old(emu), *final(emu), r),
{
    let value = match get_code8(&*emu, 1) {
        Ok(v) => v,
        Err(f) => return Err(f),
    };
    let al = get_register8(&*emu, AL);
    let result = (al as u64).wrapping_sub(value as u64);
    update_eflags_sub(emu, al as u32, value as u32, result);
    emu.eip = emu.eip + 2;
    Ok(())
}

/// 0x3D: compare EAX against a 32-bit immediate; only the flags change.
pub fn cmp_eax_imm32(emu: &mut Emulator) -> (r: Result<(), Fault>)
    requires
        old(emu).wf(),
        old(emu).eip < old(emu).memory@.len(),
    ensures
        final(emu).wf(),
        cmp_eax_imm32_effect(*old(emu), *final(emu), r),
{
    let value = match get_code32(&*emu, 1) {
        Ok(v) => v,
        Err(f) => return Err(f),
    };
    let eax = get_register32(&*emu, EAX);
    let result = (eax as u64).wrapping_sub(value as u64);
    update_eflags_sub(emu, eax, value, result);
    emu.eip = emu.eip + 5;
    Ok(())
}

/// 0xCD: software interrupt — vector 0x10 invokes the BIOS video
/// service; any other vector is reported and skipped.
pub fn swi(emu: &mut Emulator) -> (r: Result<(), Fault>)
    requires
        old(emu).wf(),
        old(emu).eip < old(emu).memory@.len(),
    ensures
        final(emu).wf(),
        swi_effect(*old(emu), *final(emu), r),
{
    let index = match get_code8(&*emu, 1) {
        Ok(v) => v,
        Err(f) => return Err(f),
    };
    emu.eip = emu.eip + 2;

    if index == 0x10 {
        bios_video(emu);
    } else {
        emu.notices.push(Notice::UnknownInterrupt(index));
    }
    Ok(())
}

/// 0x78: jump short if the sign flag is set; a not-taken jump advances
/// `eip` by exactly two bytes, whatever the displacement byte holds.
pub fn js(emu: &mut Emulator) -> (r: Result<(), Fault>)
    requires
        old(emu).wf(),
        old(emu).eip < old(emu).memory@.len(),
    ensures
        final(emu).wf(),
        jcc_effect(*old(emu), *final(emu), r, spec_sign(old(emu).eflags)),
{
    if !is_sign(emu) {
        emu.eip = emu.eip + 2;
        return Ok(());
    }
    let d = match get_sign_code8(&*emu, 1) {
        Ok(d) => d,
        Err(f) => return Err(f),
    };
    let t = match branch_target(emu.eip, 2, d as i32) {
        Ok(t) => t,
        Err(f) => return Err(f),
    };
    emu.eip = t;
    Ok(())
}

/// 0x79: jump short if the sign flag is clear.
pub fn jns(emu: &mut Emulator) -> (r: Result<(), Fault>)
    requires
        old(emu).wf(),
        old(emu).eip < old(emu).memory@.len(),
    ensures
        final(emu).wf(),
        jcc_effect(*old(emu), *final(emu), r, !spec_sign(old(emu).eflags)),
{
    if is_sign(emu) {
        emu.eip = emu.eip + 2;
        return Ok(());
    }
    let d = match get_sign_code8(&*emu, 1) {
        Ok(d) => d,
        Err(f) => return Err(f),
    };
    let t = match branch_target(emu.eip, 2, d as i32) {
        Ok(t) => t,
        Err(f) => return Err(f),
    };
    emu.eip = t;
    Ok(())
}

/// 0x72: jump short if the carry flag is set.
pub fn jc(emu: &mut Emulator) -> (r: Result<(), Fault>)
    requires
        old(emu).wf(),
        old(emu).eip < old(emu).memory@.len(),
    ensures
        final(emu).wf(),
        jcc_effect(*old(emu), *final(emu), r, spec_carry(old(emu).eflags)),
{
    if !is_carry(emu) {
        emu.eip = emu.eip + 2;
        return Ok(());
    }
    let d = match get_sign_code8(&*emu, 1) {
        Ok(d) => d,
        Err(f) => return Err(f),
    };
    let t = match branch_target(emu.eip, 2, d as i32) {
        Ok(t) => t,
        Err(f) => return Err(f),
    };
    emu.eip = t;
    Ok(())
}

/// 0x73: jump short if the carry flag is clear.
pub fn jnc(emu: &mut Emulator) -> (r: Result<(), Fault>)
    requires
        old(emu).wf(),
        old(emu).eip < old(emu).memory@.len(),
    ensures
        final(emu).wf(),
        jcc_effect(*old(emu), *final(emu), r, !spec_carry(old(emu).eflags)),
{
    if is_carry(emu) {
        emu.eip = emu.eip + 2;
        return Ok(());
    }
    let d = match get_sign_code8(&*emu, 1) {
        Ok(d) => d,
        Err(f) => return Err(f),
    };
    let t = match branch_target(emu.eip, 2, d as i32) {
        Ok(t) => t,
        Err(f) => return Err(f),
    };
    emu.eip = t;
    Ok(())
}

/// 0x74: jump short if the zero flag is set.
pub fn jz(emu: &mut Emulator) -> (r: Result<(), Fault>)
    requires
        old(emu).wf(),
        old(emu).eip < old(emu).memory@.len(),
    ensures
        final(emu).wf(),
        jcc_effect(*old(emu), *final(emu), r, spec_zero(old(emu).eflags)),
{
    if !is_zero(emu) {
        emu.eip = emu.eip + 2;
        return Ok(());
    }
    let d = match get_sign_code8(&*emu, 1) {
        Ok(d) => d,
        Err(f) => return Err(f),
    };
    let t = match branch_target(emu.eip, 2, d as i32) {
        Ok(t) => t,
        Err(f) => return Err(f),
    };
    emu.eip = t;
    Ok(())
}

/// 0x75: jump short if the zero flag is clear.
pub fn jnz(emu: &mut Emulator) -> (r: Result<(), Fault>)
    requires
        old(emu).wf(),
        old(emu).eip < old(emu).memory@.len(),
    ensures
        final(emu).wf(),
        jcc_effect(*old(emu), *final(emu), r, !spec_zero(old(emu).eflags)),
{
    if is_zero(emu) {
        emu.eip = emu.eip + 2;
        return Ok(());
    }
    let d = match get_sign_code8(&*emu, 1) {
        Ok(d) => d,
        Err(f) => return Err(f),
    };
    let t = match branch_target(emu.eip, 2, d as i32) {
        Ok(t) => t,
        Err(f) => return Err(f),
    };
    emu.eip = t;
    Ok(())
}

/// 0x70: jump short if the overflow flag is set.
pub fn jo(emu: &mut Emulator) -> (r: Result<(), Fault>)
    requires
        old(emu).wf(),
        old(emu).eip < old(emu).memory@.len(),
    ensures
        final(emu).wf(),
        jcc_effect(*old(emu), *final(emu), r, spec_overflow(old(emu).eflags)),
{
    if !is_overflow(emu) {
        emu.eip = emu.eip + 2;
        return Ok(());
    }
    let d = match get_sign_code8(&*emu, 1) {
        Ok(d) => d,
        Err(f) => return Err(f),
    };
    let t = match branch_target(emu.eip, 2, d as i32) {
        Ok(t) => t,
        Err(f) => return Err(f),
    };
    emu.eip = t;
    Ok(())
}

/// 0x71: jump short if the overflow flag is clear.
pub fn jno(emu: &mut Emulator) -> (r: Result<(), Fault>)
    requires
        old(emu).wf(),
        old(emu).eip < old(emu).memory@.len(),
    ensures
        final(emu).wf(),
        jcc_effect(*old(emu), *final(emu), r, !spec_overflow(old(emu).eflags)),
{
    if is_overflow(emu) {
        emu.eip = emu.eip + 2;
        return Ok(());
    }
    let d = match get_sign_code8(&*emu, 1) {
        Ok(d) => d,
        Err(f) => return Err(f),
    };
    let t = match branch_target(emu.eip, 2, d as i32) {
        Ok(t) => t,
        Err(f) => return Err(f),
    };
    emu.eip = t;
    Ok(())
}

/// 0x7C: jump short if less (sign and overflow flags differ).
pub fn jl(emu: &mut Emulator) -> (r: Result<(), Fault>)
    requires
        old(emu).wf(),
        old(emu).eip < old(emu).memory@.len(),
    ensures
        final(emu).wf(),
        jcc_effect(*old(emu), *final(emu), r, spec_sign(old(emu).eflags) != spec_overflow(old(emu).eflags)),
{
    let s = is_sign(emu);
    let o = is_overflow(emu);
    if s == o {
        emu.eip = emu.eip + 2;
        return Ok(());
    }
    let d = match get_sign_code8(&*emu, 1) {
        Ok(d) => d,
        Err(f) => return Err(f),
    };
    let t = match branch_target(emu.eip, 2, d as i32) {
        Ok(t) => t,
        Err(f) => return Err(f),
    };
    emu.eip = t;
    Ok(())
}

/// 0x7E: jump short if less or equal (zero set, or sign and overflow
/// flags differ).
pub fn jle(emu: &mut Emulator) -> (r: Result<(), Fault>)
    requires
        old(emu).wf(),
        old(emu).eip < old(emu).memory@.len(),
    ensures
        final(emu).wf(),
        jcc_effect(
            *old(emu),
            *final(emu),
            r,
            spec_zero(old(emu).eflags) || spec_sign(old(emu).eflags) != spec_overflow(
                old(emu).eflags,
            ),
        ),
{
    let z = is_zero(emu);
    let s = is_sign(emu);
    let o = is_overflow(emu);
    if !(z || s != o) {
        emu.eip = emu.eip + 2;
        return Ok(());
    }
    let d = match get_sign_code8(&*emu, 1) {
        Ok(d) => d,
        Err(f) => return Err(f),
    };
    let t = match branch_target(emu.eip, 2, d as i32) {
        Ok(t) => t,
        Err(f) => return Err(f),
    };
    emu.eip = t;
    Ok(())
}


/// 0x89: move a 32-bit register into a register-or-memory operand.
pub fn mov_rm32_r32(emu: &mut Emulator) -> (r: Result<(), Fault>)
    requires
        old(emu).wf(),
        old(emu).eip < old(emu).memory@.len(),
    ensures
        final(emu).wf(),
        mov_rm32_r32_effect(*old(emu), *final(emu), r),
{
    emu.eip = emu.eip + 1;
    let mut modrm = ModRM::default();
    match parse_modrm(emu, &mut modrm) {
        Ok(()) => (),
        Err(f) => return Err(f),
    }
    let r32 = get_r32(&*emu, &modrm);
    set_rm32(emu, &modrm, r32)
}

/// 0x8B: move a register-or-memory operand into a 32-bit register.
pub fn mov_r32_rm32(emu: &mut Emulator) -> (r: Result<(), Fault>)
    requires
        old(emu).wf(),
        old(emu).eip < old(emu).memory@.len(),
    ensures
        final(emu).wf(),
        mov_r32_rm32_effect(*old(emu), *final(emu), r),
{
    emu.eip = emu.eip + 1;
    let mut modrm = ModRM::default();
    match parse_modrm(emu, &mut modrm) {
        Ok(()) => (),
        Err(f) => return Err(f),
    }
    let rm32 = match get_rm32(emu, &modrm) {
        Ok(v) => v,
        Err(f) => return Err(f),
    };
    set_r32(emu, &modrm, rm32);
    Ok(())
}

/// 0x88: move an 8-bit register view into a register-or-memory operand.
pub fn mov_rm8_r8(emu: &mut Emulator) -> (r: Result<(), Fault>)
    requires
        old(emu).wf(),
        old(emu).eip < old(emu).memory@.len(),
    ensures
        final(emu).wf(),
        mov_rm8_r8_effect(*old(emu), *final(emu), r),
{
    emu.eip = emu.eip + 1;
    let mut modrm = ModRM::default();
    match parse_modrm(emu, &mut modrm) {
        Ok(()) => (),
        Err(f) => return Err(f),
    }
    let r8 = get_r8(&*emu, &modrm);
    set_rm8(emu, &modrm, r8)
}

/// 0x8A: move a register-or-memory operand into an 8-bit register view.
pub fn mov_r8_rm8(emu: &mut Emulator) -> (r: Result<(), Fault>)
    requires
        old(emu).wf(),
        old(emu).eip < old(emu).memory@.len(),
    ensures
        final(emu).wf(),
        mov_r8_rm8_effect(*old(emu), *final(emu), r),
{
    emu.eip = emu.eip + 1;
    let mut modrm = ModRM::default();
    match parse_modrm(emu, &mut modrm) {
        Ok(()) => (),
        Err(f) => return Err(f),
    }
    let rm8 = match get_rm8(emu, &modrm) {
        Ok(v) => v,
        Err(f) => return Err(f),
    };
    set_r8(emu, &modrm, rm8);
    Ok(())
}

/// 0xC7: move a 32-bit immediate into a register-or-memory operand.
pub fn mov_rm32_imm32(emu: &mut Emulator) -> (r: Result<(), Fault>)
    requires
        old(emu).wf(),
        old(emu).eip < old(emu).memory@.len(),
    ensures
        final(emu).wf(),
        mov_rm32_imm32_effect(*old(emu), *final(emu), r),
{
    emu.eip = emu.eip + 1;
    let mut modrm = ModRM::default();
    match parse_modrm(emu, &mut modrm) {
        Ok(()) => (),
        Err(f) => return Err(f),
    }
    let value = match get_code32(&*emu, 0) {
        Ok(v) => v,
        Err(f) => return Err(f),
    };
    match set_rm32(emu, &modrm, value) {
        Ok(()) => {
            emu.eip = emu.eip + 4;
            Ok(())
        },
        Err(f) => Err(f),
    }
}

/// 0x01: add a 32-bit register into a register-or-memory operand,
/// wrapping at 32 bits; no flags change.
pub fn add_rm32_r32(emu: &mut Emulator) -> (r: Result<(), Fault>)
    requires
        old(emu).wf(),
        old(emu).eip < old(emu).memory@.len(),
    ensures
        final(emu).wf(),
        add_rm32_r32_effect(*old(emu), *final(emu), r),
{
    emu.eip = emu.eip + 1;
    let mut modrm = ModRM::default();
    match parse_modrm(emu, &mut modrm) {
        Ok(()) => (),
        Err(f) => return Err(f),
    }
    let rm32 = match get_rm32(emu, &modrm) {
        Ok(v) => v,
        Err(f) => return Err(f),
    };
    let r32 = get_r32(&*emu, &modrm);
    set_rm32(emu, &modrm, rm32.wrapping_add(r32))
}

/// 0x3B: compare a 32-bit register against a register-or-memory operand;
/// only the flags change.
pub fn cmp_r32_rm32(emu: &mut Emulator) -> (r: Result<(), Fault>)
    requires
        old(emu).wf(),
        old(emu).eip < old(emu).memory@.len(),
    ensures
        final(emu).wf(),
        cmp_r32_rm32_effect(*old(emu), *final(emu), r),
{
    emu.eip = emu.eip + 1;
    let mut modrm = ModRM::default();
    match parse_modrm(emu, &mut modrm) {
        Ok(()) => (),
        Err(f) => return Err(f),
    }
    let r32 = get_r32(&*emu, &modrm);
    let rm32 = match get_rm32(emu, &modrm) {
        Ok(v) => v,
        Err(f) => return Err(f),
    };
    let result = (r32 as u64).wrapping_sub(rm32 as u64);
    update_eflags_sub(emu, r32, rm32, result);
    Ok(())
}

/// Group 0x83, sub-opcode 0: add a sign-extended 8-bit immediate into a
/// register-or-memory operand, wrapping at 32 bits; no flags change.  The
/// caller has parsed the ModR/M sequence; `eip` rests on the immediate.
pub fn add_rm32_imm8(emu: &mut Emulator, modrm: &ModRM) -> (r: Result<(), Fault>)
    requires
        old(emu).wf(),
        modrm.wf(),
    ensures
        final(emu).wf(),
        same_flags_serial(*old(emu), *final(emu)),
        ({
            let m = old(emu).memory@;
            let regs = old(emu).registers@;
            let eip = old(emu).eip as int;
            let mr = *modrm;
            let v = add32(spec_rm32(regs, m, mr), sign_extend8_32(sign8(m[eip])));
            &&& rm32_ok(regs, m, mr) && eip + 1 <= m.len() ==> r == Ok::<(), Fault>(())
                && final(emu).registers@ == spec_set_rm32_regs(regs, mr, v)
                && final(emu).memory@ == spec_set_rm32_mem(regs, m, mr, v)
                && final(emu).eip == eip + 1
            &&& !rm32_ok(regs, m, mr) ==> r == Err::<(), Fault>(rm_fault(mr)) && same_state(
                *old(emu),
                *final(emu),
            )
            &&& rm32_ok(regs, m, mr) && eip + 1 > m.len() ==> r == Err::<(), Fault>(
                Fault::OutOfRange,
            ) && same_state(*old(emu), *final(emu))
        }),
{
    let rm32 = match get_rm32(emu, modrm) {
        Ok(v) => v,
        Err(f) => return Err(f),
    };
    let imm8 = match get_sign_code8(&*emu, 0) {
        Ok(v) => v,
        Err(f) => return Err(f),
    };
    match set_rm32(emu, modrm, rm32.wrapping_add(sign_extend8(imm8))) {
        Ok(()) => {
            emu.eip = emu.eip + 1;
            Ok(())
        },
        Err(f) => Err(f),
    }
}

/// Group 0x83, sub-opcode 7: compare a register-or-memory operand against
/// a sign-extended 8-bit immediate; only the flags change.  The caller
/// has parsed the ModR/M sequence; `eip` rests on the immediate.
pub fn cmp_rm32_imm8(emu: &mut Emulator, modrm: &ModRM) -> (r: Result<(), Fault>)
    requires
        old(emu).wf(),
        modrm.wf(),
    ensures
        final(emu).wf(),
        same_regs_memory_serial(*old(emu), *final(emu)),
        ({
            let m = old(emu).memory@;
            let regs = old(emu).registers@;
            let eip = old(emu).eip as int;
            let mr = *modrm;
            let v1 = spec_rm32(regs, m, mr);
            let v2 = sign_extend8_32(sign8(m[eip]));
            &&& rm32_ok(regs, m, mr) && eip + 1 <= m.len() ==> r == Ok::<(), Fault>(())
                && final(emu).eflags == spec_flags_after_sub(
                old(emu).eflags,
                v1,
                v2,
                sub_wide(v1, v2),
            ) && final(emu).eip == eip + 1
            &&& !rm32_ok(regs, m, mr) ==> r == Err::<(), Fault>(rm_fault(mr)) && same_state(
                *old(emu),
                *final(emu),
            )
            &&& rm32_ok(regs, m, mr) && eip + 1 > m.len() ==> r == Err::<(), Fault>(
                Fault::OutOfRange,
            ) && same_state(*old(emu), *final(emu))
        }),
{
    let rm32 = match get_rm32(emu, modrm) {
        Ok(v) => v,
        Err(f) => return Err(f),
    };
    let imm8 = match get_sign_code8(&*emu, 0) {
        Ok(v) => v,
        Err(f) => return Err(f),
    };
    emu.eip = emu.eip + 1;
    let imm = sign_extend8(imm8);
    let result = (rm32 as u64).wrapping_sub(imm as u64);
    update_eflags_sub(emu, rm32, imm, result);
    Ok(())
}

/// Group 0x83, sub-opcode 5: subtract a sign-extended 8-bit immediate
/// from a register-or-memory operand, wrapping at 32 bits, and update the
/// flags.  The caller has parsed the ModR/M sequence; `eip` rests on the
/// immediate.
pub fn sub_rm32_imm8(emu: &mut Emulator, modrm: &ModRM) -> (r: Result<(), Fault>)
    requires
        old(emu).wf(),
        modrm.wf(),
    ensures
        final(emu).wf(),
        same_serial(*old(emu), *final(emu)),
        ({
            let m = old(emu).memory@;
            let regs = old(emu).registers@;
            let eip = old(emu).eip as int;
            let mr = *modrm;
            let v1 = spec_rm32(regs, m, mr);
            let v2 = sign_extend8_32(sign8(m[eip]));
            &&& rm32_ok(regs, m, mr) && eip + 1 <= m.len() ==> r == Ok::<(), Fault>(())
                && final(emu).registers@ == spec_set_rm32_regs(regs, mr, sub32(v1, v2))
                && final(emu).memory@ == spec_set_rm32_mem(regs, m, mr, sub32(v1, v2))
                && final(emu).eflags == spec_flags_after_sub(
                old(emu).eflags,
                v1,
                v2,
                sub_wide(v1, v2),
            ) && final(emu).eip == eip + 1
            &&& !rm32_ok(regs, m, mr) ==> r == Err::<(), Fault>(rm_fault(mr)) && same_state(
                *old(emu),
                *final(emu),
            )
            &&& rm32_ok(regs, m, mr) && eip + 1 > m.len() ==> r == Err::<(), Fault>(
                Fault::OutOfRange,
            ) && same_state(*old(emu), *final(emu))
        }),
{
    let rm32 = match get_rm32(emu, modrm) {
        Ok(v) => v,
        Err(f) => return Err(f),
    };
    let imm8 = match get_sign_code8(&*emu, 0) {
        Ok(v) => v,
        Err(f) => return Err(f),
    };
    let imm = sign_extend8(imm8);
    let result = (rm32 as u64).wrapping_sub(imm as u64);
    match set_rm32(emu, modrm, rm32.wrapping_sub(imm)) {
        Ok(()) => {
            emu.eip = emu.eip + 1;
            update_eflags_sub(emu, rm32, imm, result);
            Ok(())
        },
        Err(f) => Err(f),
    }
}

/// Group 0xFF, sub-opcode 0: increment a register-or-memory operand,
/// wrapping at 32 bits; no flags change.  The caller has parsed the
/// ModR/M sequence; `eip` is not touched.
pub fn inc_rm32(emu: &mut Emulator, modrm: &ModRM) -> (r: Result<(), Fault>)
    requires
        old(emu).wf(),
        modrm.wf(),
    ensures
        final(emu).wf(),
        same_flags_serial(*old(emu), *final(emu)),
        final(emu).eip == old(emu).eip,
        ({
            let m = old(emu).memory@;
            let regs = old(emu).registers@;
            let mr = *modrm;
            let v = add32(spec_rm32(regs, m, mr), 1);
            &&& rm32_ok(regs, m, mr) ==> r == Ok::<(), Fault>(()) && final(emu).registers@
                == spec_set_rm32_regs(regs, mr, v) && final(emu).memory@ == spec_set_rm32_mem(
                regs,
                m,
                mr,
                v,
            )
            &&& !rm32_ok(regs, m, mr) ==> r == Err::<(), Fault>(rm_fault(mr)) && same_state(
                *old(emu),
                *final(emu),
            )
        }),
{
    let value = match get_rm32(emu, modrm) {
        Ok(v) => v,
        Err(f) => return Err(f),
    };
    set_rm32(emu, modrm, value.wrapping_add(1))
}

/// 0x83: the ModR/M-extended group whose `reg` field selects add (0),
/// subtract (5) or compare (7) of a sign-extended 8-bit immediate against
/// a 32-bit register-or-memory operand.  Any other sub-opcode is a fault.
pub fn code_83(emu: &mut Emulator) -> (r: Result<(), Fault>)
    requires
        old(emu).wf(),
        old(emu).eip < old(emu).memory@.len(),
    ensures
        final(emu).wf(),
        code_83_effect(*old(emu), *final(emu), r),
{
    emu.eip = emu.eip + 1;
    let mut modrm = ModRM::default();
    match parse_modrm(emu, &mut modrm) {
        Ok(()) => (),
        Err(f) => return Err(f),
    }

    match modrm.opecode {
        0 => add_rm32_imm8(emu, &modrm),
        5 => sub_rm32_imm8(emu, &modrm),
        7 => cmp_rm32_imm8(emu, &modrm),
        _ => Err(Fault::GroupOpcode(0x83, modrm.opecode)),
    }
}

/// 0xFF: the ModR/M-extended group whose `reg` field selects increment
/// (0) of a 32-bit register-or-memory operand.  Any other sub-opcode is a
/// fault.
pub fn code_ff(emu: &mut Emulator) -> (r: Result<(), Fault>)
    requires
        old(emu).wf(),
        old(emu).eip < old(emu).memory@.len(),
    ensures
        final(emu).wf(),
        code_ff_effect(*old(emu), *final(emu), r),
{
    emu.eip = emu.eip + 1;
    let mut modrm = ModRM::default();
    match parse_modrm(emu, &mut modrm) {
        Ok(()) => (),
        Err(f) => return Err(f),
    }

    match modrm.opecode {
        0 => inc_rm32(emu, &modrm),
        _ => Err(Fault::GroupOpcode(0xFF, modrm.opecode)),
    }
}


/// One entry of the dispatch table: the instruction the opcode byte maps
/// to, or `Undefined` for an opcode with no handler.
#[derive(Clone, Copy, Debug, PartialEq, Eq, Structural)]
pub enum Inst {
    Undefined,
    AddRm32R32,
    CmpR32Rm32,
    CmpAlImm8,
    CmpEaxImm32,
    IncR32,
    PushR32,
    PopR32,
    PushImm32,
    PushImm8,
    Jo,
    Jno,
    Jc,
    Jnc,
    Jz,
    Jnz,
    Js,
    Jns,
    Jl,
    Jle,
    Code83,
    MovRm8R8,
    MovRm32R32,
    MovR8Rm8,
    MovR32Rm32,
    MovR8Imm8,
    MovR32Imm32,
    Ret,
    MovRm32Imm32,
    Leave,
    Swi,
    CallRel32,
    NearJump,
    ShortJump,
    InAlDx,
    OutDxAl,
    CodeFf,
}

/// The instruction each first opcode byte maps to.
pub open spec fn inst_for_opcode(op: u8) -> Inst {
    if op == 0x01 {
        Inst::AddRm32R32
    } else if op == 0x3B {
        Inst::CmpR32Rm32
    } else if op == 0x3C {
        Inst::CmpAlImm8
    } else if op == 0x3D {
        Inst::CmpEaxImm32
    } else if 0x40 <= op && op <= 0x47 {
        Inst::IncR32
    } else if 0x50 <= op && op <= 0x57 {
        Inst::PushR32
    } else if 0x58 <= op && op <= 0x5F {
        Inst::PopR32
    } else if op == 0x68 {
        Inst::PushImm32
    } else if op == 0x6A {
        Inst::PushImm8
    } else if op == 0x70 {
        Inst::Jo
    } else if op == 0x71 {
        Inst::Jno
    } else if op == 0x72 {
        Inst::Jc
    } else if op == 0x73 {
        Inst::Jnc
    } else if op == 0x74 {
        Inst::Jz
    } else if op == 0x75 {
        Inst::Jnz
    } else if op == 0x78 {
        Inst::Js
    } else if op == 0x79 {
        Inst::Jns
    } else if op == 0x7C {
        Inst::Jl
    } else if op == 0x7E {
        Inst::Jle
    } else if op == 0x83 {
        Inst::Code83
    } else if op == 0x88 {
        Inst::MovRm8R8
    } else if op == 0x89 {
        Inst::MovRm32R32
    } else if op == 0x8A {
        Inst::MovR8Rm8
    } else if op == 0x8B {
        Inst::MovR32Rm32
    } else if 0xB0 <= op && op <= 0xB7 {
        Inst::MovR8Imm8
    } else if 0xB8 <= op && op <= 0xBF {
        Inst::MovR32Imm32
    } else if op == 0xC3 {
        Inst::Ret
    } else if op == 0xC7 {
        Inst::MovRm32Imm32
    } else if op == 0xC9 {
        Inst::Leave
    } else if op == 0xCD {
        Inst::Swi
    } else if op == 0xE8 {
        Inst::CallRel32
    } else if op == 0xE9 {
        Inst::NearJump
    } else if op == 0xEB {
        Inst::ShortJump
    } else if op == 0xEC {
        Inst::InAlDx
    } else if op == 0xEE {
        Inst::OutDxAl
    } else if op == 0xFF {
        Inst::CodeFf
    } else {
        Inst::Undefined
    }
}

/// A 256-entry dispatch table that maps every opcode byte to its
/// instruction.
pub open spec fn is_inst_table(t: Seq<Inst>) -> bool {
    &&& t.len() == 256
    &&& forall|i: int| 0 <= i < 256 ==> t[i] == inst_for_opcode(i as u8)
}

/// The table entry for one opcode byte.
pub fn opcode_inst(op: u8) -> (r: Inst)
    ensures
        r == inst_for_opcode(op),
{
    if op == 0x01 {
        Inst::AddRm32R32
    } else if op == 0x3B {
        Inst::CmpR32Rm32
    } else if op == 0x3C {
        Inst::CmpAlImm8
    } else if op == 0x3D {
        Inst::CmpEaxImm32
    } else if 0x40 <= op && op <= 0x47 {
        Inst::IncR32
    } else if 0x50 <= op && op <= 0x57 {
        Inst::PushR32
    } else if 0x58 <= op && op <= 0x5F {
        Inst::PopR32
    } else if op == 0x68 {
        Inst::PushImm32
    } else if op == 0x6A {
        Inst::PushImm8
    } else if op == 0x70 {
        Inst::Jo
    } else if op == 0x71 {
        Inst::Jno
    } else if op == 0x72 {
        Inst::Jc
    } else if op == 0x73 {
        Inst::Jnc
    } else if op == 0x74 {
        Inst::Jz
    } else if op == 0x75 {
        Inst::Jnz
    } else if op == 0x78 {
        Inst::Js
    } else if op == 0x79 {
        Inst::Jns
    } else if op == 0x7C {
        Inst::Jl
    } else if op == 0x7E {
        Inst::Jle
    } else if op == 0x83 {
        Inst::Code83
    } else if op == 0x88 {
        Inst::MovRm8R8
    } else if op == 0x89 {
        Inst::MovRm32R32
    } else if op == 0x8A {
        Inst::MovR8Rm8
    } else if op == 0x8B {
        Inst::MovR32Rm32
    } else if 0xB0 <= op && op <= 0xB7 {
        Inst::MovR8Imm8
    } else if 0xB8 <= op && op <= 0xBF {
        Inst::MovR32Imm32
    } else if op == 0xC3 {
        Inst::Ret
    } else if op == 0xC7 {
        Inst::MovRm32Imm32
    } else if op == 0xC9 {
        Inst::Leave
    } else if op == 0xCD {
        Inst::Swi
    } else if op == 0xE8 {
        Inst::CallRel32
    } else if op == 0xE9 {
        Inst::NearJump
    } else if op == 0xEB {
        Inst::ShortJump
    } else if op == 0xEC {
        Inst::InAlDx
    } else if op == 0xEE {
        Inst::OutDxAl
    } else if op == 0xFF {
        Inst::CodeFf
    } else {
        Inst::Undefined
    }
}

/// Fill the 256-entry dispatch table: every opcode byte gets its
/// instruction, unmapped ones the `Undefined` sentinel.
pub fn init_instructions(instructions: &mut Vec<Inst>)
    requires
        old(instructions)@.len() == 256,
    ensures
        is_inst_table(final(instructions)@),
{
    let mut i: usize = 0;
    while i < 256
        invariant
            instructions@.len() == 256,
            i <= 256,
            forall|j: int| 0 <= j < i ==> instructions@[j] == inst_for_opcode(j as u8),
        decreases 256 - i,
    {
        instructions[i] = opcode_inst(i as u8);
        i = i + 1;
    }
}

/// The transition relation of one decode-loop step: what the fetched
/// opcode does to the state, instruction by instruction.
pub open spec fn step_effect(pre: Emulator, post: Emulator, s: StepResult) -> bool {
    let op = pre.memory@[pre.eip as int];
    let r = res_of_step(s);
    match inst_for_opcode(op) {
        Inst::Undefined => s == StepResult::NotImplemented(op) && same_state(pre, post),
        Inst::AddRm32R32 => !(s is NotImplemented) && add_rm32_r32_effect(pre, post, r),
        Inst::CmpR32Rm32 => !(s is NotImplemented) && cmp_r32_rm32_effect(pre, post, r),
        Inst::CmpAlImm8 => !(s is NotImplemented) && cmp_al_imm8_effect(pre, post, r),
        Inst::CmpEaxImm32 => !(s is NotImplemented) && cmp_eax_imm32_effect(pre, post, r),
        Inst::IncR32 => s == StepResult::Executed && inc_r32_effect(pre, post),
        Inst::PushR32 => !(s is NotImplemented) && push_r32_effect(pre, post, r),
        Inst::PopR32 => !(s is NotImplemented) && pop_r32_effect(pre, post, r),
        Inst::PushImm32 => !(s is NotImplemented) && push_imm32_effect(pre, post, r),
        Inst::PushImm8 => !(s is NotImplemented) && push_imm8_effect(pre, post, r),
        Inst::Jo => !(s is NotImplemented) && jcc_effect(pre, post, r, spec_overflow(pre.eflags)),
        Inst::Jno => !(s is NotImplemented) && jcc_effect(pre, post, r, !spec_overflow(pre.eflags)),
        Inst::Jc => !(s is NotImplemented) && jcc_effect(pre, post, r, spec_carry(pre.eflags)),
        Inst::Jnc => !(s is NotImplemented) && jcc_effect(pre, post, r, !spec_carry(pre.eflags)),
        Inst::Jz => !(s is NotImplemented) && jcc_effect(pre, post, r, spec_zero(pre.eflags)),
        Inst::Jnz => !(s is NotImplemented) && jcc_effect(pre, post, r, !spec_zero(pre.eflags)),
        Inst::Js => !(s is NotImplemented) && jcc_effect(pre, post, r, spec_sign(pre.eflags)),
        Inst::Jns => !(s is NotImplemented) && jcc_effect(pre, post, r, !spec_sign(pre.eflags)),
        Inst::Jl => !(s is NotImplemented) && jcc_effect(
            pre,
            post,
            r,
            spec_sign(pre.eflags) != spec_overflow(pre.eflags),
        ),
        Inst::Jle => !(s is NotImplemented) && jcc_effect(
            pre,
            post,
            r,
            spec_zero(pre.eflags) || spec_sign(pre.eflags) != spec_overflow(pre.eflags),
        ),
        Inst::Code83 => !(s is NotImplemented) && code_83_effect(pre, post, r),
        Inst::MovRm8R8 => !(s is NotImplemented) && mov_rm8_r8_effect(pre, post, r),
        Inst::MovRm32R32 => !(s is NotImplemented) && mov_rm32_r32_effect(pre, post, r),
        Inst::MovR8Rm8 => !(s is NotImplemented) && mov_r8_rm8_effect(pre, post, r),
        Inst::MovR32Rm32 => !(s is NotImplemented) && mov_r32_rm32_effect(pre, post, r),
        Inst::MovR8Imm8 => !(s is NotImplemented) && mov_r8_imm8_effect(pre, post, r),
        Inst::MovR32Imm32 => !(s is NotImplemented) && mov_r32_imm32_effect(pre, post, r),
        Inst::Ret => !(s is NotImplemented) && ret_effect(pre, post, r),
        Inst::MovRm32Imm32 => !(s is NotImplemented) && mov_rm32_imm32_effect(pre, post, r),
        Inst::Leave => !(s is NotImplemented) && leave_effect(pre, post, r),
        Inst::Swi => !(s is NotImplemented) && swi_effect(pre, post, r),
        Inst::CallRel32 => !(s is NotImplemented) && call_rel32_effect(pre, post, r),
        Inst::NearJump => !(s is NotImplemented) && near_jump_effect(pre, post, r),
        Inst::ShortJump => !(s is NotImplemented) && short_jump_effect(pre, post, r),
        Inst::InAlDx => !(s is NotImplemented) && in_al_dx_effect(pre, post, r),
        Inst::OutDxAl => s == StepResult::Executed && out_dx_al_effect(pre, post),
        Inst::CodeFf => !(s is NotImplemented) && code_ff_effect(pre, post, r),
    }
}

fn as_step(r: Result<(), Fault>) -> (s: StepResult)
    ensures
        s == (match r {
            Ok(_) => StepResult::Executed,
            Err(f) => StepResult::Faulted(f),
        }),
{
    match r {
        Ok(()) => StepResult::Executed,
        Err(f) => StepResult::Faulted(f),
    }
}

/// One step of the decode loop: fetch the opcode byte at `eip`, look it
/// up in the dispatch table, and run its handler.  An opcode that maps to
/// the `Undefined` sentinel leaves the state untouched, as does a fault
/// but for the instruction pointer; an `InputEmpty` fault leaves even the
/// instruction pointer in place, so the step can be retried once a byte
/// is queued.
pub fn step(emu: &mut Emulator, instructions: &Vec<Inst>) -> (r: StepResult)
    requires
        old(emu).wf(),
        old(emu).eip < old(emu).memory@.len(),
        is_inst_table(instructions@),
    ensures
        final(emu).wf(),
        final(emu).memory@.len() == old(emu).memory@.len(),
        old(emu).serial_output@.is_prefix_of(final(emu).serial_output@),
        old(emu).notices@.is_prefix_of(final(emu).notices@),
        step_effect(*old(emu), *final(emu), r),
        ({
            let op = old(emu).memory@[old(emu).eip as int];
            &&& (inst_for_opcode(op) is Undefined) <==> r == StepResult::NotImplemented(op)
            &&& r is NotImplemented ==> r == StepResult::NotImplemented(op) && same_state(
                *old(emu),
                *final(emu),
            )
            &&& r is Faulted ==> final(emu).registers@ == old(emu).registers@ && final(emu).eflags
                == old(emu).eflags && final(emu).memory@ == old(emu).memory@ && same_serial(
                *old(emu),
                *final(emu),
            ) && final(emu).notices@ == old(emu).notices@
            &&& r == StepResult::Faulted(Fault::InputEmpty) ==> same_state(*old(emu), *final(emu))
        }),
{
    let op = emu.memory[emu.eip];
    let inst = instructions[op as usize];
    match inst {
        Inst::Undefined => StepResult::NotImplemented(op),
        Inst::AddRm32R32 => as_step(add_rm32_r32(emu)),
        Inst::CmpR32Rm32 => as_step(cmp_r32_rm32(emu)),
        Inst::CmpAlImm8 => as_step(cmp_al_imm8(emu)),
        Inst::CmpEaxImm32 => as_step(cmp_eax_imm32(emu)),
        Inst::IncR32 => {
            inc_r32(emu);
            StepResult::Executed
        },
        Inst::PushR32 => as_step(push_r32(emu)),
        Inst::PopR32 => as_step(pop_r32(emu)),
        Inst::PushImm32 => as_step(push_imm32(emu)),
        Inst::PushImm8 => as_step(push_imm8(emu)),
        Inst::Jo => as_step(jo(emu)),
        Inst::Jno => as_step(jno(emu)),
        Inst::Jc => as_step(jc(emu)),
        Inst::Jnc => as_step(jnc(emu)),
        Inst::Jz => as_step(jz(emu)),
        Inst::Jnz => as_step(jnz(emu)),
        Inst::Js => as_step(js(emu)),
        Inst::Jns => as_step(jns(emu)),
        Inst::Jl => as_step(jl(emu)),
        Inst::Jle => as_step(jle(emu)),
        Inst::Code83 => as_step(code_83(emu)),
        Inst::MovRm8R8 => as_step(mov_rm8_r8(emu)),
        Inst::MovRm32R32 => as_step(mov_rm32_r32(emu)),
        Inst::MovR8Rm8 => as_step(mov_r8_rm8(emu)),
        Inst::MovR32Rm32 => as_step(mov_r32_rm32(emu)),
        Inst::MovR8Imm8 => as_step(mov_r8_imm8(emu)),
        Inst::MovR32Imm32 => as_step(mov_r32_imm32(emu)),
        Inst::Ret => as_step(ret(emu)),
        Inst::MovRm32Imm32 => as_step(mov_rm32_imm32(emu)),
        Inst::Leave => as_step(leave(emu)),
        Inst::Swi => as_step(swi(emu)),
        Inst::CallRel32 => as_step(call_rel32(emu)),
        Inst::NearJump => as_step(near_jump(emu)),
        Inst::ShortJump => as_step(short_jump(emu)),
        Inst::InAlDx => as_step(in_al_dx(emu)),
        Inst::OutDxAl => {
            out_dx_al(emu);
            StepResult::Executed
        },
        Inst::CodeFf => as_step(code_ff(emu)),
    }
}

/// The state `post` arises from `pre` by `n` legal decode-loop steps.
pub open spec fn reachable_in(pre: Emulator, post: Emulator, n: nat) -> bool
    decreases n,
{
    if n == 0 {
        same_state(pre, post)
    } else {
        exists|mid: Emulator, s: StepResult|
            reachable_in(pre, mid, (n - 1) as nat) && #[trigger] step_effect(mid, post, s)
    }
}

/// The state `post` arises from `pre` by `n` executed decode-loop steps:
/// each fetched in bounds and ran its handler to completion.
pub open spec fn executes_in(pre: Emulator, post: Emulator, n: nat) -> bool
    decreases n,
{
    if n == 0 {
        same_state(pre, post)
    } else {
        exists|mid: Emulator|
            executes_in(pre, mid, (n - 1) as nat) && mid.eip < mid.memory@.len()
                && #[trigger] step_effect(mid, post, StepResult::Executed)
    }
}

/// The decode loop: step until the instruction pointer runs past memory,
/// becomes zero after an instruction (end of program), hits an opcode
/// with no handler, an instruction faults, or `max_steps` instructions
/// have run.  The emulated program itself need not stop, so the loop
/// carries a step budget; `StepLimit` means the budget ran out and the
/// caller may resume.
pub fn run(emu: &mut Emulator, instructions: &Vec<Inst>, max_steps: u64) -> (r: RunExit)
    requires
        old(emu).wf(),
        is_inst_table(instructions@),
    ensures
        final(emu).wf(),
        final(emu).memory@.len() == old(emu).memory@.len(),
        old(emu).serial_output@.is_prefix_of(final(emu).serial_output@),
        old(emu).notices@.is_prefix_of(final(emu).notices@),
        exists|n: nat| reachable_in(*old(emu), *final(emu), n),
        r == RunExit::EndOfProgram ==> final(emu).eip == 0,
        r == RunExit::RanOffEnd ==> final(emu).eip >= final(emu).memory@.len(),
        r matches RunExit::NotImplemented(op) ==> final(emu).eip < final(emu).memory@.len()
            && final(emu).memory@[final(emu).eip as int] == op && inst_for_opcode(op) is Undefined,
        r matches RunExit::Faulted(f) ==> exists|mid: Emulator|
            #[trigger] step_effect(mid, *final(emu), StepResult::Faulted(f)),
        r == RunExit::StepLimit ==> executes_in(*old(emu), *final(emu), max_steps as nat),
{
    let mut remaining = max_steps;
    let ghost mut steps: nat = 0;
    while remaining > 0
        invariant
            emu.wf(),
            is_inst_table(instructions@),
            emu.memory@.len() == old(emu).memory@.len(),
            old(emu).serial_output@.is_prefix_of(emu.serial_output@),
            old(emu).notices@.is_prefix_of(emu.notices@),
            remaining <= max_steps,
            steps == max_steps - remaining,
            reachable_in(*old(emu), *emu, steps),
            executes_in(*old(emu), *emu, steps),
        decreases remaining,
    {
        remaining = remaining - 1;
        if emu.eip >= emu.memory.len() {
            return RunExit::RanOffEnd;
        }
        let ghost prev = *emu;
        let res = step(emu, instructions);
        proof {
            lemma_prefix_trans(old(emu).serial_output@, prev.serial_output@, emu.serial_output@);
            lemma_prefix_trans(old(emu).notices@, prev.notices@, emu.notices@);
            assert(reachable_in(*old(emu), prev, steps) && step_effect(prev, *emu, res));
            steps = steps + 1;
            assert(reachable_in(*old(emu), *emu, steps));
        }
        match res {
            StepResult::Executed => {
                if emu.eip == 0 {
                    return RunExit::EndOfProgram;
                }
                proof {
                    assert(executes_in(*old(emu), prev, (steps - 1) as nat) && prev.eip
                        < prev.memory@.len() && step_effect(prev, *emu, StepResult::Executed));
                    assert(executes_in(*old(emu), *emu, steps));
                }
            },
            StepResult::NotImplemented(op) => {
                return RunExit::NotImplemented(op);
            },
            StepResult::Faulted(f) => {
                return RunExit::Faulted(f);
            },
        }
    }
    RunExit::StepLimit
}

proof fn lemma_prefix_trans<T>(a: Seq<T>, b: Seq<T>, c: Seq<T>)
    requires
        a.is_prefix_of(b),
        b.is_prefix_of(c),
    ensures
        a.is_prefix_of(c),
{
    assert(a =~= c.subrange(0, a.len() as int));
}

} // verus!
