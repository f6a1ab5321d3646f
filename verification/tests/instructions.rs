use x86emu::emulator::create_emu;
use x86emu::emulator::Emulator;
use x86emu::emulator::Fault;
use x86emu::emulator::StepResult;
use x86emu::function::get_register32;
use x86emu::function::is_carry;
use x86emu::function::is_overflow;
use x86emu::function::is_sign;
use x86emu::function::is_zero;
use x86emu::function::set_register32;
use x86emu::instruction::init_instructions;
use x86emu::instruction::step;
use x86emu::instruction::undefined;
use x86emu::instruction::Inst;

fn table() -> Vec<Inst> {
    let mut t = vec![Inst::Undefined; 256];
    init_instructions(&mut t);
    t
}

fn emu_with_code(code: Vec<u8>, esp: u32) -> Emulator {
    let mut emu = create_emu(0, esp);
    emu.memory = code;
    emu
}

#[test]
fn table_maps_opcodes_to_their_instructions() {
    let t = table();
    assert_eq!(t[0x01], Inst::AddRm32R32);
    assert_eq!(t[0x3B], Inst::CmpR32Rm32);
    assert_eq!(t[0x3C], Inst::CmpAlImm8);
    assert_eq!(t[0x3D], Inst::CmpEaxImm32);
    for i in 0..8 {
        assert_eq!(t[0x40 + i], Inst::IncR32);
        assert_eq!(t[0x50 + i], Inst::PushR32);
        assert_eq!(t[0x58 + i], Inst::PopR32);
        assert_eq!(t[0xB0 + i], Inst::MovR8Imm8);
        assert_eq!(t[0xB8 + i], Inst::MovR32Imm32);
    }
    assert_eq!(t[0x68], Inst::PushImm32);
    assert_eq!(t[0x6A], Inst::PushImm8);
    assert_eq!(t[0x70], Inst::Jo);
    assert_eq!(t[0x71], Inst::Jno);
    assert_eq!(t[0x72], Inst::Jc);
    assert_eq!(t[0x73], Inst::Jnc);
    assert_eq!(t[0x74], Inst::Jz);
    assert_eq!(t[0x75], Inst::Jnz);
    assert_eq!(t[0x78], Inst::Js);
    assert_eq!(t[0x79], Inst::Jns);
    assert_eq!(t[0x7C], Inst::Jl);
    assert_eq!(t[0x7E], Inst::Jle);
    assert_eq!(t[0x83], Inst::Code83);
    assert_eq!(t[0x88], Inst::MovRm8R8);
    assert_eq!(t[0x89], Inst::MovRm32R32);
    assert_eq!(t[0x8A], Inst::MovR8Rm8);
    assert_eq!(t[0x8B], Inst::MovR32Rm32);
    assert_eq!(t[0xC3], Inst::Ret);
    assert_eq!(t[0xC7], Inst::MovRm32Imm32);
    assert_eq!(t[0xC9], Inst::Leave);
    assert_eq!(t[0xCD], Inst::Swi);
    assert_eq!(t[0xE8], Inst::CallRel32);
    assert_eq!(t[0xE9], Inst::NearJump);
    assert_eq!(t[0xEB], Inst::ShortJump);
    assert_eq!(t[0xEC], Inst::InAlDx);
    assert_eq!(t[0xEE], Inst::OutDxAl);
    assert_eq!(t[0xFF], Inst::CodeFf);
    // A byte with no handler stays on the sentinel.
    assert_eq!(t[0x00], Inst::Undefined);
    assert_eq!(t[0x02], Inst::Undefined);
    assert_eq!(t[0xF4], Inst::Undefined);
}

#[test]
fn mov_r8_imm8_sets_byte_view() {
    let t = table();
    // B3 7F: mov BL, 0x7F.
    let mut emu = emu_with_code(vec![0xB3, 0x7F], 0);
    set_register32(&mut emu, 3, 0xAABB_CCDD);
    assert_eq!(step(&mut emu, &t), StepResult::Executed);
    assert_eq!(get_register32(&emu, 3), 0xAABB_CC7F);
    assert_eq!(emu.eip, 2);
}

#[test]
fn inc_r32_increments_and_wraps() {
    let t = table();
    // 41: inc ECX, twice, the second from the all-ones value.
    let mut emu = emu_with_code(vec![0x41, 0x41], 0);
    set_register32(&mut emu, 1, 7);
    assert_eq!(step(&mut emu, &t), StepResult::Executed);
    assert_eq!(get_register32(&emu, 1), 8);
    set_register32(&mut emu, 1, 0xFFFF_FFFF);
    assert_eq!(step(&mut emu, &t), StepResult::Executed);
    assert_eq!(get_register32(&emu, 1), 0);
    assert_eq!(emu.eip, 2);
}

#[test]
fn push_and_pop_registers() {
    let t = table();
    // 50: push EAX; 5B: pop EBX.
    let mut emu = emu_with_code(vec![0x50, 0x5B, 0, 0, 0, 0, 0, 0, 0, 0, 0, 0], 12);
    set_register32(&mut emu, 0, 0x1357_9BDF);
    assert_eq!(step(&mut emu, &t), StepResult::Executed);
    assert_eq!(get_register32(&emu, 4), 8);
    assert_eq!(step(&mut emu, &t), StepResult::Executed);
    assert_eq!(get_register32(&emu, 3), 0x1357_9BDF);
    assert_eq!(get_register32(&emu, 4), 12);
    assert_eq!(emu.eip, 2);
}

#[test]
fn push_immediates() {
    let t = table();
    // 68 imm32, then 6A imm8 (sign-extended).
    let mut emu = emu_with_code(
        vec![0x68, 0x44, 0x33, 0x22, 0x11, 0x6A, 0xFE, 0, 0, 0, 0, 0, 0, 0, 0, 0],
        16,
    );
    assert_eq!(step(&mut emu, &t), StepResult::Executed);
    assert_eq!(step(&mut emu, &t), StepResult::Executed);
    assert_eq!(get_register32(&emu, 4), 8);
    assert_eq!(&emu.memory[12..16], &[0x44, 0x33, 0x22, 0x11]);
    assert_eq!(&emu.memory[8..12], &[0xFE, 0xFF, 0xFF, 0xFF]);
    assert_eq!(emu.eip, 7);
}

#[test]
fn mov_between_register_and_memory() {
    let t = table();
    // 89 0D disp32: mov [0x10], ECX; 8B 1D disp32: mov EBX, [0x10].
    let mut emu = emu_with_code(
        vec![
            0x89, 0x0D, 0x10, 0x00, 0x00, 0x00, 0x8B, 0x1D, 0x10, 0x00, 0x00, 0x00, 0, 0, 0, 0, 0,
            0, 0, 0,
        ],
        0,
    );
    set_register32(&mut emu, 1, 0x0BAD_F00D);
    assert_eq!(step(&mut emu, &t), StepResult::Executed);
    assert_eq!(&emu.memory[16..20], &[0x0D, 0xF0, 0xAD, 0x0B]);
    assert_eq!(step(&mut emu, &t), StepResult::Executed);
    assert_eq!(get_register32(&emu, 3), 0x0BAD_F00D);
    assert_eq!(emu.eip, 12);
}

#[test]
fn mov_with_base_and_displacement() {
    let t = table();
    // 8B 4B 04: mov ECX, [EBX + 4].
    let mut emu = emu_with_code(vec![0x8B, 0x4B, 0x04, 0, 0, 0, 0, 0, 0, 0, 0, 0], 0);
    set_register32(&mut emu, 3, 4);
    emu.memory[8] = 0xEF;
    emu.memory[9] = 0xBE;
    emu.memory[10] = 0xAD;
    emu.memory[11] = 0xDE;
    assert_eq!(step(&mut emu, &t), StepResult::Executed);
    assert_eq!(get_register32(&emu, 1), 0xDEAD_BEEF);
    assert_eq!(emu.eip, 3);
}

#[test]
fn mov_8bit_between_registers() {
    let t = table();
    // 88 C1: mov CL, AL (register-direct).
    let mut emu = emu_with_code(vec![0x88, 0xC1], 0);
    set_register32(&mut emu, 0, 0x0000_0042);
    set_register32(&mut emu, 1, 0x1111_1111);
    assert_eq!(step(&mut emu, &t), StepResult::Executed);
    assert_eq!(get_register32(&emu, 1), 0x1111_1142);
    assert_eq!(emu.eip, 2);
}

#[test]
fn mov_8bit_from_memory() {
    let t = table();
    // 8A 0D disp32: mov CL, [0x08].
    let mut emu = emu_with_code(vec![0x8A, 0x0D, 0x08, 0x00, 0x00, 0x00, 0, 0, 0x7E, 0], 0);
    assert_eq!(step(&mut emu, &t), StepResult::Executed);
    assert_eq!(get_register32(&emu, 1), 0x7E);
    assert_eq!(emu.eip, 6);
}

#[test]
fn mov_rm32_imm32_to_memory() {
    let t = table();
    // C7 05 disp32 imm32: mov [0x0C], 0x66778899.
    let mut emu = emu_with_code(
        vec![0xC7, 0x05, 0x0C, 0x00, 0x00, 0x00, 0x99, 0x88, 0x77, 0x66, 0, 0, 0, 0, 0, 0],
        0,
    );
    assert_eq!(step(&mut emu, &t), StepResult::Executed);
    assert_eq!(&emu.memory[12..16], &[0x99, 0x88, 0x77, 0x66]);
    assert_eq!(emu.eip, 10);
}

#[test]
fn add_rm32_r32_register_direct() {
    let t = table();
    // 01 C8: add EAX, ECX.
    let mut emu = emu_with_code(vec![0x01, 0xC8], 0);
    set_register32(&mut emu, 0, 40);
    set_register32(&mut emu, 1, 2);
    assert_eq!(step(&mut emu, &t), StepResult::Executed);
    assert_eq!(get_register32(&emu, 0), 42);
    // The addition leaves the flags alone.
    assert_eq!(emu.eflags, 0);
    assert_eq!(emu.eip, 2);
}

#[test]
fn group_83_add_sub_cmp() {
    let t = table();
    // 83 C0 05: add EAX, 5; 83 E8 03: sub EAX, 3; 83 F8 02: cmp EAX, 2.
    let mut emu = emu_with_code(vec![0x83, 0xC0, 0x05, 0x83, 0xE8, 0x03, 0x83, 0xF8, 0x02], 0);
    assert_eq!(step(&mut emu, &t), StepResult::Executed);
    assert_eq!(get_register32(&emu, 0), 5);
    assert_eq!(step(&mut emu, &t), StepResult::Executed);
    assert_eq!(get_register32(&emu, 0), 2);
    assert!(!is_zero(&mut emu));
    assert!(!is_carry(&mut emu));
    assert_eq!(step(&mut emu, &t), StepResult::Executed);
    assert_eq!(get_register32(&emu, 0), 2);
    assert!(is_zero(&mut emu));
    assert!(!is_carry(&mut emu));
    assert_eq!(emu.eip, 9);
}

#[test]
fn group_83_sub_sign_extends_immediate() {
    let t = table();
    // 83 E8 FF: sub EAX, -1, which adds one.
    let mut emu = emu_with_code(vec![0x83, 0xE8, 0xFF], 0);
    set_register32(&mut emu, 0, 10);
    assert_eq!(step(&mut emu, &t), StepResult::Executed);
    assert_eq!(get_register32(&emu, 0), 11);
    // 10 - (-1 as unsigned 0xFFFFFFFF) borrows.
    assert!(is_carry(&mut emu));
}

#[test]
fn group_83_unknown_sub_opcode_faults() {
    let t = table();
    // 83 D0 05: sub-opcode 2 is not implemented.
    let mut emu = emu_with_code(vec![0x83, 0xD0, 0x05], 0);
    assert_eq!(
        step(&mut emu, &t),
        StepResult::Faulted(Fault::GroupOpcode(0x83, 2))
    );
    assert_eq!(get_register32(&emu, 0), 0);
    assert_eq!(emu.eflags, 0);
}

#[test]
fn group_ff_inc_and_unknown() {
    let t = table();
    // FF C1: inc ECX.
    let mut emu = emu_with_code(vec![0xFF, 0xC1], 0);
    set_register32(&mut emu, 1, 41);
    assert_eq!(step(&mut emu, &t), StepResult::Executed);
    assert_eq!(get_register32(&emu, 1), 42);
    assert_eq!(emu.eip, 2);

    // FF C9: sub-opcode 1 is not implemented.
    let mut emu2 = emu_with_code(vec![0xFF, 0xC9], 0);
    assert_eq!(
        step(&mut emu2, &t),
        StepResult::Faulted(Fault::GroupOpcode(0xFF, 1))
    );
}

#[test]
fn cmp_al_and_eax_immediates() {
    let t = table();
    // 3C 05: cmp AL, 5 with AL = 3: borrow.
    let mut emu = emu_with_code(vec![0x3C, 0x05], 0);
    set_register32(&mut emu, 0, 3);
    assert_eq!(step(&mut emu, &t), StepResult::Executed);
    assert!(is_carry(&mut emu));
    assert!(!is_zero(&mut emu));
    assert_eq!(emu.eip, 2);

    // 3D 03 00 00 00: cmp EAX, 3 with EAX = 7: clean difference.
    let mut emu2 = emu_with_code(vec![0x3D, 0x03, 0x00, 0x00, 0x00], 0);
    set_register32(&mut emu2, 0, 7);
    assert_eq!(step(&mut emu2, &t), StepResult::Executed);
    assert!(!is_carry(&mut emu2));
    assert!(!is_zero(&mut emu2));
    assert!(!is_sign(&mut emu2));
    assert_eq!(emu2.eip, 5);
}

#[test]
fn cmp_r32_rm32_register_direct() {
    let t = table();
    // 3B C1: cmp EAX, ECX.
    let mut emu = emu_with_code(vec![0x3B, 0xC1], 0);
    set_register32(&mut emu, 0, 5);
    set_register32(&mut emu, 1, 9);
    assert_eq!(step(&mut emu, &t), StepResult::Executed);
    assert!(is_carry(&mut emu));
    assert!(is_sign(&mut emu));
    assert!(!is_zero(&mut emu));
    assert_eq!(emu.eip, 2);
}

#[test]
fn addressing_with_sib_faults() {
    let t = table();
    // 89 04 ...: mod = 0, rm = 4 asks for SIB addressing.
    let mut emu = emu_with_code(vec![0x89, 0x04, 0x00], 0);
    assert_eq!(step(&mut emu, &t), StepResult::Faulted(Fault::Addressing));
}

#[test]
fn truncated_instruction_faults() {
    let t = table();
    // B8 without its four immediate bytes.
    let mut emu = emu_with_code(vec![0xB8, 0x01], 0);
    assert_eq!(step(&mut emu, &t), StepResult::Faulted(Fault::OutOfRange));
    assert_eq!(get_register32(&emu, 0), 0);
}

#[test]
fn undefined_opcode_reports_not_implemented() {
    let t = table();
    let mut emu = emu_with_code(vec![0xF4], 0);
    assert_eq!(step(&mut emu, &t), StepResult::NotImplemented(0xF4));
    assert_eq!(emu.eip, 0);
}

#[test]
fn undefined_handler_changes_nothing() {
    let mut emu = emu_with_code(vec![0xF4], 9);
    emu.eflags = 0x8C1;
    undefined(&mut emu);
    assert_eq!(emu.eip, 0);
    assert_eq!(emu.eflags, 0x8C1);
    assert_eq!(get_register32(&emu, 4), 9);
    assert_eq!(emu.memory, vec![0xF4]);
}
