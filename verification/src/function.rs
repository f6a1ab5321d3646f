//! The operand access layer: code and memory reads and writes, register
//! access including the 8-bit register views, the stack, and the EFLAGS
//! evaluator for subtraction-style arithmetic.

use vstd::prelude::*;

verus! {

use crate::ESP;
use crate::emulator::Emulator;
use crate::emulator::Fault;
use crate::emulator::same_except_eflags;
use crate::emulator::same_except_memory;
use crate::emulator::same_except_registers;
use crate::emulator::same_state;

pub const CARRY_FLAG: u32 = 1;
pub const ZERO_FLAG: u32 = 1 << 6;
pub const SIGN_FLAG: u32 = 1 << 7;
pub const OVERFLOW_FLAG: u32 = 1 << 11;

/// The bits of the flags word that the emulator models.
pub const STATUS_FLAGS: u32 = CARRY_FLAG | ZERO_FLAG | SIGN_FLAG | OVERFLOW_FLAG;

/// The 32-bit little-endian word formed by the four bytes at `a`.
pub open spec fn mem32_at(m: Seq<u8>, a: int) -> u32 {
    (m[a] + m[a + 1] * 0x100 + m[a + 2] * 0x1_0000 + m[a + 3] * 0x100_0000) as u32
}

/// `m` with the four bytes at `a` replaced by the little-endian
/// decomposition of `v`.
pub open spec fn spec_write32(m: Seq<u8>, a: int, v: u32) -> Seq<u8> {
    m.update(a, (v % 0x100) as u8)
        .update(a + 1, ((v / 0x100) % 0x100) as u8)
        .update(a + 2, ((v / 0x1_0000) % 0x100) as u8)
        .update(a + 3, (v / 0x100_0000) as u8)
}

/// The byte `b` reinterpreted as a signed two's-complement value.
pub open spec fn sign8(b: u8) -> i8 {
    if b < 0x80 {
        b as i8
    } else {
        (b - 0x100) as i8
    }
}

/// The word `v` reinterpreted as a signed two's-complement value.
pub open spec fn sign32(v: u32) -> i32 {
    if v < 0x8000_0000 {
        v as i32
    } else {
        (v - 0x1_0000_0000) as i32
    }
}

/// The signed byte `d` sign-extended to 32 bits.
pub open spec fn sign_extend8_32(d: i8) -> u32 {
    if d >= 0 {
        d as u32
    } else {
        (d + 0x1_0000_0000) as u32
    }
}

/// 32-bit addition that wraps around on overflow.
pub open spec fn add32(a: u32, b: u32) -> u32 {
    if a + b < 0x1_0000_0000 {
        (a + b) as u32
    } else {
        (a + b - 0x1_0000_0000) as u32
    }
}

/// 32-bit subtraction that wraps around on borrow.
pub open spec fn sub32(a: u32, b: u32) -> u32 {
    if a >= b {
        (a - b) as u32
    } else {
        (a - b + 0x1_0000_0000) as u32
    }
}

/// The 64-bit two's-complement difference `v1 - v2`; bit 32 is set exactly
/// when the 32-bit subtraction borrows.
pub open spec fn sub_wide(v1: u32, v2: u32) -> u64 {
    if v1 >= v2 {
        (v1 - v2) as u64
    } else {
        (v1 - v2 + 0x1_0000_0000_0000_0000) as u64
    }
}

/// The low byte of a 32-bit register.
pub open spec fn low_byte(r: u32) -> u8 {
    (r & 0xff) as u8
}

/// The second-lowest byte of a 32-bit register.
pub open spec fn high_byte(r: u32) -> u8 {
    ((r >> 8) & 0xff) as u8
}

/// The register file seen through the 8-bit namespace: indices 0-3 are the
/// low bytes of registers 0-3, indices 4-7 their high bytes.
pub open spec fn spec_get_register8(regs: Seq<u32>, index: int) -> u8 {
    if index < 4 {
        low_byte(regs[index])
    } else {
        high_byte(regs[index - 4])
    }
}

/// The register file after writing `value` through the 8-bit namespace;
/// only the addressed 8 bits of the owning register change.
pub open spec fn spec_set_register8(regs: Seq<u32>, index: int, value: u8) -> Seq<u32> {
    if index < 4 {
        regs.update(index, regs[index] & 0xffff_ff00 | value as u32)
    } else {
        regs.update(index - 4, regs[index - 4] & 0xffff_00ff | (value as u32) << 8)
    }
}

pub open spec fn spec_carry(eflags: u32) -> bool {
    eflags & CARRY_FLAG != 0
}

pub open spec fn spec_zero(eflags: u32) -> bool {
    eflags & ZERO_FLAG != 0
}

pub open spec fn spec_sign(eflags: u32) -> bool {
    eflags & SIGN_FLAG != 0
}

pub open spec fn spec_overflow(eflags: u32) -> bool {
    eflags & OVERFLOW_FLAG != 0
}

/// One flag bit set or cleared, the rest untouched.
pub open spec fn spec_set_flag(eflags: u32, mask: u32, on: bool) -> u32 {
    if on {
        eflags | mask
    } else {
        eflags & !mask
    }
}

/// The flags word after a subtraction `v1 - v2` whose 64-bit
/// two's-complement result is `result`: carry is the borrow (bit 32), zero
/// and sign describe the 32-bit result, and overflow follows the signed
/// overflow rule for subtraction.
pub open spec fn spec_flags_after_sub(eflags: u32, v1: u32, v2: u32, result: u64) -> u32 {
    spec_set_flag(
        spec_set_flag(
            spec_set_flag(
                spec_set_flag(eflags, CARRY_FLAG, result >> 32 != 0),
                ZERO_FLAG,
                result == 0,
            ),
            SIGN_FLAG,
            (result >> 31) & 1 != 0,
        ),
        OVERFLOW_FLAG,
        v1 >> 31 != v2 >> 31 && (v1 >> 31) as u64 != (result >> 31) & 1,
    )
}

/// Law: the flags word after a subtraction reads back each status flag
/// according to its rule — carry is the borrow bit, zero and sign
/// describe the truncated result, overflow follows the two's-complement
/// rule — and every bit outside the four status flags keeps its value.
pub proof fn lemma_flags_after_sub(f: u32, v1: u32, v2: u32, result: u64)
    by (bit_vector)
    ensures
        spec_carry(spec_flags_after_sub(f, v1, v2, result)) == (result >> 32 != 0),
        spec_zero(spec_flags_after_sub(f, v1, v2, result)) == (result == 0),
        spec_sign(spec_flags_after_sub(f, v1, v2, result)) == ((result >> 31) & 1 != 0),
        spec_overflow(spec_flags_after_sub(f, v1, v2, result)) == (v1 >> 31 != v2 >> 31 && (v1
            >> 31) as u64 != (result >> 31) & 1),
        spec_flags_after_sub(f, v1, v2, result) & !STATUS_FLAGS == f & !STATUS_FLAGS,
{
}

/// Law: writing a 32-bit register and reading it back yields the value,
/// and no other register changes.
pub proof fn lemma_register32_round_trip(regs: Seq<u32>, index: int, v: u32)
    requires
        regs.len() == 8,
        0 <= index < 8,
    ensures
        regs.update(index, v)[index] == v,
        forall|j: int| 0 <= j < 8 && j != index ==> regs.update(index, v)[j] == regs[j],
{
}

/// Law: writing an 8-bit low view (index below 4) yields that byte on
/// read-back, leaves the upper 24 bits of the owning register untouched,
/// and leaves every other register unchanged.
pub proof fn lemma_register8_low_round_trip(regs: Seq<u32>, index: int, v: u8)
    requires
        regs.len() == 8,
        0 <= index < 4,
    ensures
        spec_get_register8(spec_set_register8(regs, index, v), index) == v,
        spec_set_register8(regs, index, v)[index] >> 8 == regs[index] >> 8,
        forall|j: int|
            0 <= j < 8 && j != index ==> spec_set_register8(regs, index, v)[j] == regs[j],
{
    let r = regs[index];
    assert(((r & 0xffff_ff00 | v as u32) & 0xff) as u8 == v) by (bit_vector);
    assert((r & 0xffff_ff00 | v as u32) >> 8 == r >> 8) by (bit_vector);
}

/// Law: writing an 8-bit high view (index 4 and up) yields that byte on
/// read-back, leaves the low 8 and upper 16 bits of the owning register
/// untouched, and leaves every other register unchanged.
pub proof fn lemma_register8_high_round_trip(regs: Seq<u32>, index: int, v: u8)
    requires
        regs.len() == 8,
        4 <= index < 8,
    ensures
        spec_get_register8(spec_set_register8(regs, index, v), index) == v,
        spec_set_register8(regs, index, v)[index - 4] & 0xff == regs[index - 4] & 0xff,
        spec_set_register8(regs, index, v)[index - 4] >> 16 == regs[index - 4] >> 16,
        forall|j: int|
            0 <= j < 8 && j != index - 4 ==> spec_set_register8(regs, index, v)[j] == regs[j],
{
    let r = regs[index - 4];
    assert((((r & 0xffff_00ff | (v as u32) << 8) >> 8) & 0xff) as u8 == v) by (bit_vector);
    assert((r & 0xffff_00ff | (v as u32) << 8) & 0xff == r & 0xff) by (bit_vector);
    assert((r & 0xffff_00ff | (v as u32) << 8) >> 16 == r >> 16) by (bit_vector);
}

/// Law: a 32-bit little-endian store followed by a load at the same
/// address yields the value, the four stored bytes are the value's
/// little-endian decomposition, and no other byte changes.
pub proof fn lemma_memory32_round_trip(m: Seq<u8>, a: int, v: u32)
    requires
        0 <= a,
        a + 4 <= m.len(),
    ensures
        mem32_at(spec_write32(m, a, v), a) == v,
        spec_write32(m, a, v)[a] == (v % 0x100) as u8,
        spec_write32(m, a, v)[a + 1] == ((v / 0x100) % 0x100) as u8,
        spec_write32(m, a, v)[a + 2] == ((v / 0x1_0000) % 0x100) as u8,
        spec_write32(m, a, v)[a + 3] == (v / 0x100_0000) as u8,
        spec_write32(m, a, v).len() == m.len(),
        forall|i: int| 0 <= i < m.len() && !(a <= i < a + 4) ==> spec_write32(m, a, v)[i] == m[i],
{
    assert((v % 0x100) + ((v / 0x100) % 0x100) * 0x100 + ((v / 0x1_0000) % 0x100) * 0x1_0000 + (v
        / 0x100_0000) * 0x100_0000 == v) by (bit_vector);
}

/// Law: a push followed by a pop yields the pushed value and restores
/// the register file — the stack pointer in particular — to what it was
/// before the push.
pub proof fn lemma_push_pop_round_trip(emu: Emulator, v: u32)
    requires
        emu.wf(),
        4 <= emu.registers@[ESP as int],
        emu.registers@[ESP as int] <= emu.memory@.len(),
    ensures
        ({
            // The state after `push32(v)`, by its contract:
            let esp = emu.registers@[ESP as int];
            let pushed_regs = emu.registers@.update(ESP as int, (esp - 4) as u32);
            let pushed_mem = spec_write32(emu.memory@, esp - 4, v);
            // `pop32` then returns the word at the new stack pointer and
            // moves the pointer back up by four:
            &&& mem32_at(pushed_mem, pushed_regs[ESP as int] as int) == v
            &&& pushed_regs.update(ESP as int, (pushed_regs[ESP as int] + 4) as u32)
                == emu.registers@
        }),
{
    let esp = emu.registers@[ESP as int];
    lemma_memory32_round_trip(emu.memory@, esp - 4, v);
    assert(emu.registers@.update(ESP as int, (esp - 4) as u32).update(ESP as int, esp)
        =~= emu.registers@);
}

/// The signed byte `d` sign-extended to a 32-bit value.
pub fn sign_extend8(d: i8) -> (r: u32)
    ensures
        r == sign_extend8_32(d),
{
    proof {
        assert(d as u32 == (if d >= 0 {
            d as u32
        } else {
            (d + 0x1_0000_0000) as u32
        })) by (bit_vector);
    }
    d as u32
}

/// The byte of code at `eip + index`, or a fault if it lies outside memory.
pub fn get_code8(emu: &Emulator, index: usize) -> (r: Result<u8, Fault>)
    ensures
        emu.eip + index < emu.memory@.len() ==> r == Ok::<u8, Fault>(
            emu.memory@[emu.eip + index],
        ),
        emu.eip + index >= emu.memory@.len() ==> r == Err::<u8, Fault>(Fault::OutOfRange),
{
    let len = emu.memory.len();
    if emu.eip < len && index < len - emu.eip {
        Ok(emu.memory[emu.eip + index])
    } else {
        Err(Fault::OutOfRange)
    }
}

/// The little-endian 32-bit word of code at `eip + index`, or a fault if
/// any of its four bytes lies outside memory.
pub fn get_code32(emu: &Emulator, index: usize) -> (r: Result<u32, Fault>)
    ensures
        emu.eip + index + 4 <= emu.memory@.len() ==> r == Ok::<u32, Fault>(
            mem32_at(emu.memory@, emu.eip + index),
        ),
        emu.eip + index + 4 > emu.memory@.len() ==> r == Err::<u32, Fault>(Fault::OutOfRange),
{
    let len = emu.memory.len();
    if emu.eip <= len && index <= len - emu.eip && len - emu.eip - index >= 4 {
        let a = emu.eip + index;
        let b0 = emu.memory[a] as u32;
        let b1 = emu.memory[a + 1] as u32;
        let b2 = emu.memory[a + 2] as u32;
        let b3 = emu.memory[a + 3] as u32;
        Ok(b0 + b1 * 0x100 + b2 * 0x1_0000 + b3 * 0x100_0000)
    } else {
        Err(Fault::OutOfRange)
    }
}

/// The byte of code at `eip + index`, read as a signed displacement.
pub fn get_sign_code8(emu: &Emulator, index: usize) -> (r: Result<i8, Fault>)
    ensures
        emu.eip + index < emu.memory@.len() ==> r == Ok::<i8, Fault>(
            sign8(emu.memory@[emu.eip + index]),
        ),
        emu.eip + index >= emu.memory@.len() ==> r == Err::<i8, Fault>(Fault::OutOfRange),
{
    match get_code8(emu, index) {
        Ok(b) => {
            proof {
                assert(b as i8 == sign8(b)) by (bit_vector);
            }
            Ok(b as i8)
        },
        Err(f) => Err(f),
    }
}

/// The 32-bit word of code at `eip + index`, read as a signed displacement.
pub fn get_sign_code32(emu: &Emulator, index: usize) -> (r: Result<i32, Fault>)
    ensures
        emu.eip + index + 4 <= emu.memory@.len() ==> r == Ok::<i32, Fault>(
            sign32(mem32_at(emu.memory@, emu.eip + index)),
        ),
        emu.eip + index + 4 > emu.memory@.len() ==> r == Err::<i32, Fault>(Fault::OutOfRange),
{
    match get_code32(emu, index) {
        Ok(v) => {
            proof {
                assert(v as i32 == sign32(v)) by (bit_vector);
            }
            Ok(v as i32)
        },
        Err(f) => Err(f),
    }
}

/// An 8-bit register read: low bytes of registers 0-3 at indices 0-3,
/// their high bytes at indices 4-7.
pub fn get_register8(emu: &Emulator, index: usize) -> (r: u8)
    requires
        emu.wf(),
        index < 8,
    ensures
        r == spec_get_register8(emu.registers@, index as int),
{
    if index < 4 {
        (emu.registers[index] & 0xff) as u8
    } else {
        ((emu.registers[index - 4] >> 8) & 0xff) as u8
    }
}

/// A 32-bit register read.
pub fn get_register32(emu: &Emulator, index: usize) -> (r: u32)
    requires
        emu.wf(),
        index < 8,
    ensures
        r == emu.registers@[index as int],
{
    emu.registers[index]
}

/// An 8-bit register write; the other 24 bits of the owning 32-bit
/// register keep their value.
pub fn set_register8(emu: &mut Emulator, index: usize, value: u8)
    requires
        old(emu).wf(),
        index < 8,
    ensures
        final(emu).wf(),
        final(emu).registers@ == spec_set_register8(old(emu).registers@, index as int, value),
        same_except_registers(*old(emu), *final(emu)),
{
    if index < 4 {
        let r = emu.registers[index] & 0xffff_ff00;
        emu.registers[index] = r | (value as u32);
    } else {
        let r = emu.registers[index - 4] & 0xffff_00ff;
        emu.registers[index - 4] = r | ((value as u32) << 8);
    }
}

/// A 32-bit register write.
pub fn set_register32(emu: &mut Emulator, index: usize, value: u32)
    requires
        old(emu).wf(),
        index < 8,
    ensures
        final(emu).wf(),
        final(emu).registers@ == old(emu).registers@.update(index as int, value),
        same_except_registers(*old(emu), *final(emu)),
{
    emu.registers[index] = value;
}

/// A byte store; only the low 8 bits of `value` are written.  Faults, with
/// the state untouched, if the address lies outside memory.
pub fn set_memory8(emu: &mut Emulator, address: u32, value: u32) -> (r: Result<(), Fault>)
    requires
        old(emu).wf(),
    ensures
        final(emu).wf(),
        same_except_memory(*old(emu), *final(emu)),
        address < old(emu).memory@.len() ==> r == Ok::<(), Fault>(()) && final(emu).memory@
            == old(emu).memory@.update(address as int, (value % 0x100) as u8),
        address >= old(emu).memory@.len() ==> r == Err::<(), Fault>(Fault::OutOfRange)
            && final(emu).memory@ == old(emu).memory@,
{
    if (address as usize) < emu.memory.len() {
        emu.memory[address as usize] = (value % 0x100) as u8;
        Ok(())
    } else {
        Err(Fault::OutOfRange)
    }
}

/// A little-endian 32-bit store, low byte first.  Faults, with the state
/// untouched, if any of the four addresses lies outside memory.
pub fn set_memory32(emu: &mut Emulator, address: u32, value: u32) -> (r: Result<(), Fault>)
    requires
        old(emu).wf(),
    ensures
        final(emu).wf(),
        same_except_memory(*old(emu), *final(emu)),
        address + 4 <= old(emu).memory@.len() ==> r == Ok::<(), Fault>(()) && final(emu).memory@
            == spec_write32(old(emu).memory@, address as int, value),
        address + 4 > old(emu).memory@.len() ==> r == Err::<(), Fault>(Fault::OutOfRange)
            && final(emu).memory@ == old(emu).memory@,
{
    let len = emu.memory.len();
    if (address as usize) < len && len - (address as usize) >= 4 {
        let a = address as usize;
        emu.memory[a] = (value % 0x100) as u8;
        emu.memory[a + 1] = ((value / 0x100) % 0x100) as u8;
        emu.memory[a + 2] = ((value / 0x1_0000) % 0x100) as u8;
        emu.memory[a + 3] = (value / 0x100_0000) as u8;
        Ok(())
    } else {
        Err(Fault::OutOfRange)
    }
}

/// A byte load, widened to 32 bits.  Faults if the address lies outside
/// memory.
pub fn get_memory8(emu: &Emulator, address: u32) -> (r: Result<u32, Fault>)
    ensures
        address < emu.memory@.len() ==> r == Ok::<u32, Fault>(emu.memory@[address as int] as u32),
        address >= emu.memory@.len() ==> r == Err::<u32, Fault>(Fault::OutOfRange),
{
    if (address as usize) < emu.memory.len() {
        Ok(emu.memory[address as usize] as u32)
    } else {
        Err(Fault::OutOfRange)
    }
}

/// A little-endian 32-bit load, low byte first.  Faults if any of the four
/// addresses lies outside memory.
pub fn get_memory32(emu: &Emulator, address: u32) -> (r: Result<u32, Fault>)
    ensures
        address + 4 <= emu.memory@.len() ==> r == Ok::<u32, Fault>(
            mem32_at(emu.memory@, address as int),
        ),
        address + 4 > emu.memory@.len() ==> r == Err::<u32, Fault>(Fault::OutOfRange),
{
    let len = emu.memory.len();
    if (address as usize) < len && len - (address as usize) >= 4 {
        let a = address as usize;
        let b0 = emu.memory[a] as u32;
        let b1 = emu.memory[a + 1] as u32;
        let b2 = emu.memory[a + 2] as u32;
        let b3 = emu.memory[a + 3] as u32;
        Ok(b0 + b1 * 0x100 + b2 * 0x1_0000 + b3 * 0x100_0000)
    } else {
        Err(Fault::OutOfRange)
    }
}

/// Push: the stack pointer moves down by four, then the value is stored
/// there.  Faults, with the state untouched, unless `4 <= esp <= len`.
pub fn push32(emu: &mut Emulator, value: u32) -> (r: Result<(), Fault>)
    requires
        old(emu).wf(),
    ensures
        final(emu).wf(),
        ({
            let esp = old(emu).registers@[ESP as int];
            &&& 4 <= esp && esp <= old(emu).memory@.len() ==> r == Ok::<(), Fault>(())
                && final(emu).registers@ == old(emu).registers@.update(ESP as int, (esp - 4) as u32)
                && final(emu).memory@ == spec_write32(old(emu).memory@, esp - 4, value)
            &&& !(4 <= esp && esp <= old(emu).memory@.len()) ==> r == Err::<(), Fault>(
                Fault::OutOfRange,
            ) && same_state(*old(emu), *final(emu))
            &&& final(emu).eflags == old(emu).eflags
            &&& final(emu).eip == old(emu).eip
            &&& final(emu).serial_input@ == old(emu).serial_input@
            &&& final(emu).serial_output@ == old(emu).serial_output@
            &&& final(emu).notices@ == old(emu).notices@
        }),
{
    let esp = get_register32(emu, ESP);
    if esp < 4 {
        return Err(Fault::OutOfRange);
    }
    let address = esp - 4;
    match set_memory32(emu, address, value) {
        Ok(()) => {
            set_register32(emu, ESP, address);
            Ok(())
        },
        Err(f) => Err(f),
    }
}

/// Pop: the value at the stack pointer is loaded, then the stack pointer
/// moves up by four.  Faults, with the state untouched, unless
/// `esp + 4 <= len`.
pub fn pop32(emu: &mut Emulator) -> (r: Result<u32, Fault>)
    requires
        old(emu).wf(),
    ensures
        final(emu).wf(),
        ({
            let esp = old(emu).registers@[ESP as int];
            &&& esp + 4 <= old(emu).memory@.len() ==> r == Ok::<u32, Fault>(
                mem32_at(old(emu).memory@, esp as int),
            ) && final(emu).registers@ == old(emu).registers@.update(ESP as int, (esp + 4) as u32)
            &&& esp + 4 > old(emu).memory@.len() ==> r == Err::<u32, Fault>(Fault::OutOfRange)
                && same_state(*old(emu), *final(emu))
            &&& same_except_registers(*old(emu), *final(emu))
        }),
{
    let esp = get_register32(emu, ESP);
    match get_memory32(emu, esp) {
        Ok(value) => {
            set_register32(emu, ESP, esp + 4);
            Ok(value)
        },
        Err(f) => Err(f),
    }
}

pub fn set_carry(emu: &mut Emulator, is_carry: bool)
    requires
        old(emu).wf(),
    ensures
        final(emu).wf(),
        final(emu).eflags == spec_set_flag(old(emu).eflags, CARRY_FLAG, is_carry),
        same_except_eflags(*old(emu), *final(emu)),
{
    if is_carry {
        emu.eflags = emu.eflags | CARRY_FLAG;
    } else {
        emu.eflags = emu.eflags & !CARRY_FLAG;
    }
}

pub fn set_zero(emu: &mut Emulator, is_zero: bool)
    requires
        old(emu).wf(),
    ensures
        final(emu).wf(),
        final(emu).eflags == spec_set_flag(old(emu).eflags, ZERO_FLAG, is_zero),
        same_except_eflags(*old(emu), *final(emu)),
{
    if is_zero {
        emu.eflags = emu.eflags | ZERO_FLAG;
    } else {
        emu.eflags = emu.eflags & !ZERO_FLAG;
    }
}

pub fn set_sign(emu: &mut Emulator, is_sign: bool)
    requires
        old(emu).wf(),
    ensures
        final(emu).wf(),
        final(emu).eflags == spec_set_flag(old(emu).eflags, SIGN_FLAG, is_sign),
        same_except_eflags(*old(emu), *final(emu)),
{
    if is_sign {
        emu.eflags = emu.eflags | SIGN_FLAG;
    } else {
        emu.eflags = emu.eflags & !SIGN_FLAG;
    }
}

pub fn set_overflow(emu: &mut Emulator, is_overflow: bool)
    requires
        old(emu).wf(),
    ensures
        final(emu).wf(),
        final(emu).eflags == spec_set_flag(old(emu).eflags, OVERFLOW_FLAG, is_overflow),
        same_except_eflags(*old(emu), *final(emu)),
{
    if is_overflow {
        emu.eflags = emu.eflags | OVERFLOW_FLAG;
    } else {
        emu.eflags = emu.eflags & !OVERFLOW_FLAG;
    }
}

pub fn is_carry(emu: &mut Emulator) -> (r: bool)
    ensures
        *final(emu) == *old(emu),
        r == spec_carry(old(emu).eflags),
{
    emu.eflags & CARRY_FLAG != 0
}

pub fn is_zero(emu: &mut Emulator) -> (r: bool)
    ensures
        *final(emu) == *old(emu),
        r == spec_zero(old(emu).eflags),
{
    emu.eflags & ZERO_FLAG != 0
}

pub fn is_sign(emu: &mut Emulator) -> (r: bool)
    ensures
        *final(emu) == *old(emu),
        r == spec_sign(old(emu).eflags),
{
    emu.eflags & SIGN_FLAG != 0
}

pub fn is_overflow(emu: &mut Emulator) -> (r: bool)
    ensures
        *final(emu) == *old(emu),
        r == spec_overflow(old(emu).eflags),
{
    emu.eflags & OVERFLOW_FLAG != 0
}

/// Recompute the four status flags from a subtraction `v1 - v2` whose
/// 64-bit two's-complement result is `result`; all other flag bits keep
/// their value.
pub fn update_eflags_sub(emu: &mut Emulator, v1: u32, v2: u32, result: u64)
    requires
        old(emu).wf(),
    ensures
        final(emu).wf(),
        final(emu).eflags == spec_flags_after_sub(old(emu).eflags, v1, v2, result),
        same_except_eflags(*old(emu), *final(emu)),
{
    let sign1 = v1 >> 31;
    let sign2 = v2 >> 31;
    let signr = (result >> 31) & 1;

    set_carry(emu, (result >> 32) != 0);
    set_zero(emu, result == 0);
    set_sign(emu, signr != 0);
    set_overflow(emu, sign1 != sign2 && sign1 as u64 != signr);
}

} // verus!
