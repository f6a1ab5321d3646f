//! The ModR/M operand resolver: decoding of the mode/reg/rm byte with its
//! optional SIB byte and displacement, effective-address computation, and
//! the register-or-memory operand accessors built on it.

use vstd::prelude::*;

verus! {

use crate::emulator::Emulator;
use crate::emulator::Fault;
use crate::emulator::same_except_eip;
use crate::emulator::same_serial;
use crate::emulator::same_state;
use crate::function::add32;
use crate::function::get_code32;
use crate::function::get_code8;
use crate::function::get_memory32;
use crate::function::get_memory8;
use crate::function::get_register32;
use crate::function::get_register8;
use crate::function::get_sign_code8;
use crate::function::mem32_at;
use crate::function::set_memory32;
use crate::function::set_memory8;
use crate::function::set_register32;
use crate::function::set_register8;
use crate::function::sign8;
use crate::function::sign_extend8;
use crate::function::sign_extend8_32;
use crate::function::spec_get_register8;
use crate::function::spec_set_register8;
use crate::function::spec_write32;

/// The decoded ModR/M byte sequence of one instruction: the three bit
/// fields of the ModR/M byte itself (`opecode` and `reg_index` are the
/// same bits in their two roles), the optional SIB byte, and whichever
/// displacement the mode calls for.
#[derive(Clone, Copy, Debug, PartialEq, Eq, Structural)]
pub struct ModRM {
    pub modval: u8,
    pub opecode: u8,
    pub reg_index: u8,
    pub rm: u8,
    pub sib: u8,
    pub disp8: i8,
    pub disp32: u32,
}

impl ModRM {
    /// The three bit fields are in the ranges their widths allow.
    pub open spec fn wf(&self) -> bool {
        &&& self.modval < 4
        &&& self.opecode < 8
        &&& self.reg_index < 8
        &&& self.rm < 8
    }
}

impl Default for ModRM {
    /// An all-zero descriptor, the conventional starting point for the
    /// parser, which writes only the fields the mode calls for.
    fn default() -> (r: ModRM)
        ensures
            r == (ModRM { modval: 0, opecode: 0, reg_index: 0, rm: 0, sib: 0, disp8: 0, disp32: 0 }),
    {
        ModRM { modval: 0, opecode: 0, reg_index: 0, rm: 0, sib: 0, disp8: 0, disp32: 0 }
    }
}

/// How many bytes the ModR/M sequence starting at `a` occupies: the
/// ModR/M byte, a SIB byte when `mod != 3` and `rm == 4`, and a 32-bit
/// displacement when (`mod == 0` and `rm == 5`) or `mod == 2`, or an
/// 8-bit displacement when `mod == 1`.
pub open spec fn modrm_size(m: Seq<u8>, a: int) -> int {
    let code = m[a];
    let modval = (code & 0xC0) >> 6;
    let rm = code & 0x07;
    let sib: int = if modval != 3 && rm == 4 {
        1
    } else {
        0
    };
    let disp: int = if (modval == 0 && rm == 5) || modval == 2 {
        4
    } else if modval == 1 {
        1
    } else {
        0
    };
    1 + sib + disp
}

/// The whole ModR/M byte sequence starting at `a` lies inside memory.
pub open spec fn modrm_ok(m: Seq<u8>, a: int) -> bool {
    &&& 0 <= a < m.len()
    &&& a + modrm_size(m, a) <= m.len()
}

/// The descriptor `prev` after decoding the ModR/M byte sequence
/// starting at `a`: the three bit fields are always filled in; the SIB
/// byte and the displacements are written only when the mode consumes
/// them, and otherwise keep their prior values.
pub open spec fn spec_parse_modrm(m: Seq<u8>, a: int, prev: ModRM) -> ModRM {
    let code = m[a];
    let modval = (code & 0xC0) >> 6;
    let opecode = (code & 0x38) >> 3;
    let rm = code & 0x07;
    let has_sib = modval != 3 && rm == 4;
    let d = a + 1 + (if has_sib {
        1int
    } else {
        0int
    });
    ModRM {
        modval,
        opecode,
        reg_index: opecode,
        rm,
        sib: if has_sib {
            m[a + 1]
        } else {
            prev.sib
        },
        disp8: if modval == 1 {
            sign8(m[d])
        } else {
            prev.disp8
        },
        disp32: if (modval == 0 && rm == 5) || modval == 2 {
            mem32_at(m, d)
        } else {
            prev.disp32
        },
    }
}

/// The descriptor decoded from the ModR/M byte sequence starting at `a`
/// into a fresh all-zero descriptor, as every instruction handler does.
pub open spec fn spec_modrm_at(m: Seq<u8>, a: int) -> ModRM {
    spec_parse_modrm(
        m,
        a,
        ModRM { modval: 0, opecode: 0, reg_index: 0, rm: 0, sib: 0, disp8: 0, disp32: 0 },
    )
}

/// The descriptor names a memory operand whose effective-address rule is
/// implemented: a memory mode, and no SIB-based addressing.
pub open spec fn ea_ok(mr: ModRM) -> bool {
    mr.modval < 3 && mr.rm != 4
}

/// The effective address of a memory operand: the base register or the
/// raw `disp32` (mode 0, rm 5), plus whichever displacement the mode
/// carries, wrapping at 32 bits.
pub open spec fn spec_ea(regs: Seq<u32>, mr: ModRM) -> u32 {
    if mr.modval == 0 {
        if mr.rm == 5 {
            mr.disp32
        } else {
            regs[mr.rm as int]
        }
    } else if mr.modval == 1 {
        add32(regs[mr.rm as int], sign_extend8_32(mr.disp8))
    } else {
        add32(regs[mr.rm as int], mr.disp32)
    }
}

/// The 32-bit register-or-memory operand can be read or written: it is a
/// register, or an implemented memory operand whose four bytes lie inside
/// memory.
pub open spec fn rm32_ok(regs: Seq<u32>, m: Seq<u8>, mr: ModRM) -> bool {
    if mr.modval == 3 {
        true
    } else {
        ea_ok(mr) && spec_ea(regs, mr) + 4 <= m.len()
    }
}

/// The fault reported for an operand that cannot be accessed.
pub open spec fn rm_fault(mr: ModRM) -> Fault {
    if !ea_ok(mr) {
        Fault::Addressing
    } else {
        Fault::OutOfRange
    }
}

/// The value of the 32-bit register-or-memory operand.
pub open spec fn spec_rm32(regs: Seq<u32>, m: Seq<u8>, mr: ModRM) -> u32 {
    if mr.modval == 3 {
        regs[mr.rm as int]
    } else {
        mem32_at(m, spec_ea(regs, mr) as int)
    }
}

/// The register file after writing the 32-bit operand (unchanged for a
/// memory operand).
pub open spec fn spec_set_rm32_regs(regs: Seq<u32>, mr: ModRM, v: u32) -> Seq<u32> {
    if mr.modval == 3 {
        regs.update(mr.rm as int, v)
    } else {
        regs
    }
}

/// The memory after writing the 32-bit operand (unchanged for a register
/// operand).
pub open spec fn spec_set_rm32_mem(regs: Seq<u32>, m: Seq<u8>, mr: ModRM, v: u32) -> Seq<u8> {
    if mr.modval == 3 {
        m
    } else {
        spec_write32(m, spec_ea(regs, mr) as int, v)
    }
}

/// The 8-bit register-or-memory operand can be read or written.
pub open spec fn rm8_ok(regs: Seq<u32>, m: Seq<u8>, mr: ModRM) -> bool {
    if mr.modval == 3 {
        true
    } else {
        ea_ok(mr) && spec_ea(regs, mr) < m.len()
    }
}

/// The value of the 8-bit register-or-memory operand; a register operand
/// goes through the 8-bit register namespace.
pub open spec fn spec_rm8(regs: Seq<u32>, m: Seq<u8>, mr: ModRM) -> u8 {
    if mr.modval == 3 {
        spec_get_register8(regs, mr.rm as int)
    } else {
        m[spec_ea(regs, mr) as int]
    }
}

/// The register file after writing the 8-bit operand.
pub open spec fn spec_set_rm8_regs(regs: Seq<u32>, mr: ModRM, v: u8) -> Seq<u32> {
    if mr.modval == 3 {
        spec_set_register8(regs, mr.rm as int, v)
    } else {
        regs
    }
}

/// The memory after writing the 8-bit operand.
pub open spec fn spec_set_rm8_mem(regs: Seq<u32>, m: Seq<u8>, mr: ModRM, v: u8) -> Seq<u8> {
    if mr.modval == 3 {
        m
    } else {
        m.update(spec_ea(regs, mr) as int, v)
    }
}

/// Law: in mode 0 with `rm == 5` the effective address is the raw
/// 32-bit displacement — no register contributes, whatever the register
/// file holds.
pub proof fn lemma_absolute_addressing(regs1: Seq<u32>, regs2: Seq<u32>, mr: ModRM)
    requires
        mr.modval == 0,
        mr.rm == 5,
    ensures
        spec_ea(regs1, mr) == mr.disp32,
        spec_ea(regs1, mr) == spec_ea(regs2, mr),
{
}

proof fn lemma_modrm_byte_fields(code: u8)
    by (bit_vector)
    ensures
        (code & 0xC0) >> 6 < 4,
        (code & 0x38) >> 3 < 8,
        code & 0x07 < 8,
{
}

/// Decode the ModR/M byte sequence at `eip` into `modrm` and advance
/// `eip` past it; only the fields the mode calls for are written, the
/// rest of the descriptor keeps its prior values.  Faults, with both the
/// state and the descriptor untouched, if the sequence runs past the end
/// of memory.
pub fn parse_modrm(emu: &mut Emulator, modrm: &mut ModRM) -> (r: Result<(), Fault>)
    requires
        old(emu).wf(),
    ensures
        final(emu).wf(),
        same_except_eip(*old(emu), *final(emu)),
        modrm_ok(old(emu).memory@, old(emu).eip as int) ==> {
            &&& r == Ok::<(), Fault>(())
            &&& *final(modrm) == spec_parse_modrm(
                old(emu).memory@,
                old(emu).eip as int,
                *old(modrm),
            )
            &&& final(modrm).wf()
            &&& final(emu).eip == old(emu).eip + modrm_size(old(emu).memory@, old(emu).eip as int)
        },
        !modrm_ok(old(emu).memory@, old(emu).eip as int) ==> {
            &&& r == Err::<(), Fault>(Fault::OutOfRange)
            &&& same_state(*old(emu), *final(emu))
            &&& final(emu).eip == old(emu).eip
            &&& *final(modrm) == *old(modrm)
        },
{
    let len = emu.memory.len();
    if emu.eip >= len {
        return Err(Fault::OutOfRange);
    }
    let code = emu.memory[emu.eip];
    let modval = (code & 0xC0) >> 6;
    let opecode = (code & 0x38) >> 3;
    let rm = code & 0x07;
    proof {
        lemma_modrm_byte_fields(code);
    }

    let has_sib = modval != 3 && rm == 4;
    let has_disp32 = (modval == 0 && rm == 5) || modval == 2;
    let has_disp8 = modval == 1;

    let mut consumed: usize = 1;
    let mut sib: u8 = 0;
    if has_sib {
        sib = match get_code8(&*emu, 1) {
            Ok(b) => b,
            Err(f) => return Err(f),
        };
        consumed = 2;
    }
    let mut disp8: i8 = 0;
    let mut disp32: u32 = 0;
    if has_disp32 {
        disp32 = match get_code32(&*emu, consumed) {
            Ok(v) => v,
            Err(f) => return Err(f),
        };
        consumed = consumed + 4;
    } else if has_disp8 {
        disp8 = match get_sign_code8(&*emu, consumed) {
            Ok(v) => v,
            Err(f) => return Err(f),
        };
        consumed = consumed + 1;
    }
    modrm.modval = modval;
    modrm.opecode = opecode;
    modrm.reg_index = opecode;
    modrm.rm = rm;
    if has_sib {
        modrm.sib = sib;
    }
    if has_disp32 {
        modrm.disp32 = disp32;
    } else if has_disp8 {
        modrm.disp8 = disp8;
    }
    emu.eip = emu.eip + consumed;
    Ok(())
}

/// The effective address a memory-mode descriptor names.  Faults if the
/// descriptor is register-direct (`mod == 3`) or uses the unimplemented
/// SIB addressing (`rm == 4`).
pub fn calc_memory_address(emu: &mut Emulator, modrm: &ModRM) -> (r: Result<u32, Fault>)
    requires
        old(emu).wf(),
        modrm.wf(),
    ensures
        *final(emu) == *old(emu),
        ea_ok(*modrm) ==> r == Ok::<u32, Fault>(spec_ea(old(emu).registers@, *modrm)),
        !ea_ok(*modrm) ==> r == Err::<u32, Fault>(Fault::Addressing),
{
    if modrm.modval == 0 {
        if modrm.rm == 4 {
            Err(Fault::Addressing)
        } else if modrm.rm == 5 {
            Ok(modrm.disp32)
        } else {
            Ok(get_register32(&*emu, modrm.rm as usize))
        }
    } else if modrm.modval == 1 {
        if modrm.rm == 4 {
            Err(Fault::Addressing)
        } else {
            let base = get_register32(&*emu, modrm.rm as usize);
            Ok(base.wrapping_add(sign_extend8(modrm.disp8)))
        }
    } else if modrm.modval == 2 {
        if modrm.rm == 4 {
            Err(Fault::Addressing)
        } else {
            let base = get_register32(&*emu, modrm.rm as usize);
            Ok(base.wrapping_add(modrm.disp32))
        }
    } else {
        Err(Fault::Addressing)
    }
}

/// Write the 32-bit register-or-memory operand: the register named by
/// `rm` in register-direct mode, else the word at the effective address.
pub fn set_rm32(emu: &mut Emulator, modrm: &ModRM, value: u32) -> (r: Result<(), Fault>)
    requires
        old(emu).wf(),
        modrm.wf(),
    ensures
        final(emu).wf(),
        final(emu).eflags == old(emu).eflags,
        final(emu).eip == old(emu).eip,
        same_serial(*old(emu), *final(emu)),
        rm32_ok(old(emu).registers@, old(emu).memory@, *modrm) ==> {
            &&& r == Ok::<(), Fault>(())
            &&& final(emu).registers@ == spec_set_rm32_regs(old(emu).registers@, *modrm, value)
            &&& final(emu).memory@ == spec_set_rm32_mem(
                old(emu).registers@,
                old(emu).memory@,
                *modrm,
                value,
            )
        },
        !rm32_ok(old(emu).registers@, old(emu).memory@, *modrm) ==> {
            &&& r == Err::<(), Fault>(rm_fault(*modrm))
            &&& same_state(*old(emu), *final(emu))
        },
{
    if modrm.modval == 3 {
        set_register32(emu, modrm.rm as usize, value);
        Ok(())
    } else {
        let address = match calc_memory_address(emu, modrm) {
            Ok(a) => a,
            Err(f) => return Err(f),
        };
        set_memory32(emu, address, value)
    }
}

/// Read the 32-bit register-or-memory operand.
pub fn get_rm32(emu: &mut Emulator, modrm: &ModRM) -> (r: Result<u32, Fault>)
    requires
        old(emu).wf(),
        modrm.wf(),
    ensures
        *final(emu) == *old(emu),
        rm32_ok(old(emu).registers@, old(emu).memory@, *modrm) ==> r == Ok::<u32, Fault>(
            spec_rm32(old(emu).registers@, old(emu).memory@, *modrm),
        ),
        !rm32_ok(old(emu).registers@, old(emu).memory@, *modrm) ==> r == Err::<u32, Fault>(
            rm_fault(*modrm),
        ),
{
    if modrm.modval == 3 {
        Ok(get_register32(&*emu, modrm.rm as usize))
    } else {
        let address = match calc_memory_address(emu, modrm) {
            Ok(a) => a,
            Err(f) => return Err(f),
        };
        get_memory32(&*emu, address)
    }
}

/// Write the 32-bit register named by the `reg` field.
pub fn set_r32(emu: &mut Emulator, modrm: &ModRM, value: u32)
    requires
        old(emu).wf(),
        modrm.wf(),
    ensures
        final(emu).wf(),
        final(emu).registers@ == old(emu).registers@.update(modrm.reg_index as int, value),
        crate::emulator::same_except_registers(*old(emu), *final(emu)),
{
    set_register32(emu, modrm.reg_index as usize, value);
}

/// Read the 32-bit register named by the `reg` field.
pub fn get_r32(emu: &Emulator, modrm: &ModRM) -> (r: u32)
    requires
        emu.wf(),
        modrm.wf(),
    ensures
        r == emu.registers@[modrm.reg_index as int],
{
    get_register32(emu, modrm.reg_index as usize)
}

/// Write the 8-bit register-or-memory operand: the 8-bit register view
/// named by `rm` in register-direct mode, else the byte at the effective
/// address.
pub fn set_rm8(emu: &mut Emulator, modrm: &ModRM, value: u8) -> (r: Result<(), Fault>)
    requires
        old(emu).wf(),
        modrm.wf(),
    ensures
        final(emu).wf(),
        final(emu).eflags == old(emu).eflags,
        final(emu).eip == old(emu).eip,
        same_serial(*old(emu), *final(emu)),
        rm8_ok(old(emu).registers@, old(emu).memory@, *modrm) ==> {
            &&& r == Ok::<(), Fault>(())
            &&& final(emu).registers@ == spec_set_rm8_regs(old(emu).registers@, *modrm, value)
            &&& final(emu).memory@ == spec_set_rm8_mem(
                old(emu).registers@,
                old(emu).memory@,
                *modrm,
                value,
            )
        },
        !rm8_ok(old(emu).registers@, old(emu).memory@, *modrm) ==> {
            &&& r == Err::<(), Fault>(rm_fault(*modrm))
            &&& same_state(*old(emu), *final(emu))
        },
{
    if modrm.modval == 3 {
        set_register8(emu, modrm.rm as usize, value);
        Ok(())
    } else {
        let address = match calc_memory_address(emu, modrm) {
            Ok(a) => a,
            Err(f) => return Err(f),
        };
        set_memory8(emu, address, value as u32)
    }
}

/// Read the 8-bit register-or-memory operand.
pub fn get_rm8(emu: &mut Emulator, modrm: &ModRM) -> (r: Result<u8, Fault>)
    requires
        old(emu).wf(),
        modrm.wf(),
    ensures
        *final(emu) == *old(emu),
        rm8_ok(old(emu).registers@, old(emu).memory@, *modrm) ==> r == Ok::<u8, Fault>(
            spec_rm8(old(emu).registers@, old(emu).memory@, *modrm),
        ),
        !rm8_ok(old(emu).registers@, old(emu).memory@, *modrm) ==> r == Err::<u8, Fault>(
            rm_fault(*modrm),
        ),
{
    if modrm.modval == 3 {
        Ok(get_register8(&*emu, modrm.rm as usize))
    } else {
        let address = match calc_memory_address(emu, modrm) {
            Ok(a) => a,
            Err(f) => return Err(f),
        };
        match get_memory8(&*emu, address) {
            Ok(v) => Ok((v % 0x100) as u8),
            Err(f) => Err(f),
        }
    }
}

/// Write the 8-bit register view named by the `reg` field.
pub fn set_r8(emu: &mut Emulator, modrm: &ModRM, value: u8)
    requires
        old(emu).wf(),
        modrm.wf(),
    ensures
        final(emu).wf(),
        final(emu).registers@ == spec_set_register8(
            old(emu).registers@,
            modrm.reg_index as int,
            value,
        ),
        crate::emulator::same_except_registers(*old(emu), *final(emu)),
{
    set_register8(emu, modrm.reg_index as usize, value);
}

/// Read the 8-bit register view named by the `reg` field.
pub fn get_r8(emu: &Emulator, modrm: &ModRM) -> (r: u8)
    requires
        emu.wf(),
        modrm.wf(),
    ensures
        r == spec_get_register8(emu.registers@, modrm.reg_index as int),
{
    get_register8(emu, modrm.reg_index as usize)
}

} // verus!
