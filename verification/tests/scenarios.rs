use x86emu::emulator::create_emu;
use x86emu::emulator::Emulator;
use x86emu::emulator::RunExit;
use x86emu::function::get_register32;
use x86emu::function::is_carry;
use x86emu::function::is_overflow;
use x86emu::function::is_sign;
use x86emu::function::is_zero;
use x86emu::instruction::init_instructions;
use x86emu::instruction::run;
use x86emu::instruction::Inst;

const ENTRY: usize = 0x7c00;

fn table() -> Vec<Inst> {
    let mut t = vec![Inst::Undefined; 256];
    init_instructions(&mut t);
    t
}

/// A processor as the loader leaves it: zero-filled low memory, the
/// image at the entry address, stack pointer and instruction pointer on
/// the entry address.
fn loaded(image: &[u8]) -> Emulator {
    let mut emu = create_emu(ENTRY, ENTRY as u32);
    let mut memory = vec![0u8; ENTRY];
    memory.extend_from_slice(image);
    emu.memory = memory;
    emu
}

#[test]
fn mov_imm32_image_leaves_42_in_eax() {
    let t = table();
    // mov EAX, 42
    let mut emu = loaded(&[0xB8, 0x2A, 0x00, 0x00, 0x00]);
    assert_eq!(run(&mut emu, &t, 1000), RunExit::RanOffEnd);
    assert_eq!(get_register32(&emu, 0), 42);
    assert_eq!(emu.eip, ENTRY + 5);
}

#[test]
fn cmp_equal_sets_only_the_zero_flag() {
    let t = table();
    // mov EAX, 5; cmp EAX, 5
    let mut emu = loaded(&[
        0xB8, 0x05, 0x00, 0x00, 0x00, 0x3D, 0x05, 0x00, 0x00, 0x00,
    ]);
    assert_eq!(run(&mut emu, &t, 1000), RunExit::RanOffEnd);
    assert!(is_zero(&mut emu));
    assert!(!is_carry(&mut emu));
    assert!(!is_sign(&mut emu));
    assert!(!is_overflow(&mut emu));
}

#[test]
fn compare_and_branch_loop_counts_down() {
    let t = table();
    // mov ECX, 3; loop: cmp ECX, 0; jz +5 (to the jump back over it);
    // 83 E9 01: sub ECX, 1; jmp loop; then run off the end.
    let mut emu = loaded(&[
        0xB9, 0x03, 0x00, 0x00, 0x00, // mov ECX, 3
        0x83, 0xF9, 0x00,             // cmp ECX, 0
        0x74, 0x05,                   // jz +5
        0x83, 0xE9, 0x01,             // sub ECX, 1
        0xEB, 0xF6,                   // jmp back to the cmp
    ]);
    assert_eq!(run(&mut emu, &t, 1000), RunExit::RanOffEnd);
    assert_eq!(get_register32(&emu, 1), 0);
    assert_eq!(emu.eip, ENTRY + 15);
}

#[test]
fn call_builds_a_frame_and_returns() {
    let t = table();
    // call f; then halt on an unmapped byte.
    // f: push EBP; mov EBP, ESP (89 E5); mov EAX, 7; pop EBP; ret.
    let mut emu = loaded(&[
        0xE8, 0x01, 0x00, 0x00, 0x00, // call +1 (to offset 6)
        0xF4,                         // halts after the return
        0x55,                         // push EBP
        0x89, 0xE5,                   // mov EBP, ESP
        0xB8, 0x07, 0x00, 0x00, 0x00, // mov EAX, 7
        0x5D,                         // pop EBP
        0xC3,                         // ret
    ]);
    assert_eq!(run(&mut emu, &t, 1000), RunExit::NotImplemented(0xF4));
    assert_eq!(get_register32(&emu, 0), 7);
    assert_eq!(emu.eip, ENTRY + 5);
    // The stack pointer is balanced again.
    assert_eq!(get_register32(&emu, 4), ENTRY as u32);
}
