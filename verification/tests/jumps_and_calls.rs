use x86emu::emulator::create_emu;
use x86emu::emulator::Emulator;
use x86emu::emulator::Fault;
use x86emu::emulator::RunExit;
use x86emu::emulator::StepResult;
use x86emu::function::get_register32;
use x86emu::function::set_register32;
use x86emu::instruction::init_instructions;
use x86emu::instruction::run;
use x86emu::instruction::step;
use x86emu::instruction::Inst;

const ZERO_FLAG: u32 = 1 << 6;
const SIGN_FLAG: u32 = 1 << 7;
const CARRY_FLAG: u32 = 1;
const OVERFLOW_FLAG: u32 = 1 << 11;

fn table() -> Vec<Inst> {
    let mut t = vec![Inst::Undefined; 256];
    init_instructions(&mut t);
    t
}

fn emu_with_code(code: Vec<u8>, esp: u32) -> Emulator {
    let mut emu = create_emu(0, esp);
    emu.memory = code;
    emu
}

#[test]
fn not_taken_jumps_advance_exactly_two() {
    let t = table();
    // Every conditional jump with a false condition advances by two,
    // whatever the displacement byte holds.
    for (opcode, flags) in [
        (0x74u8, 0u32),             // jz with zero clear
        (0x75u8, ZERO_FLAG),        // jnz with zero set
        (0x78u8, 0u32),             // js with sign clear
        (0x79u8, SIGN_FLAG),        // jns with sign set
        (0x72u8, 0u32),             // jc with carry clear
        (0x73u8, CARRY_FLAG),       // jnc with carry set
        (0x70u8, 0u32),             // jo with overflow clear
        (0x71u8, OVERFLOW_FLAG),    // jno with overflow set
        (0x7Cu8, 0u32),             // jl with sign == overflow
        (0x7Eu8, 0u32),             // jle with zero clear, sign == overflow
    ] {
        let mut emu = emu_with_code(vec![opcode, 0x7F], 0);
        emu.eflags = flags;
        assert_eq!(step(&mut emu, &t), StepResult::Executed);
        assert_eq!(emu.eip, 2, "opcode {opcode:#x}");
        assert_eq!(emu.eflags, flags);
    }
}

#[test]
fn taken_jumps_add_the_displacement() {
    let t = table();
    // jz forward by 3.
    let mut emu = emu_with_code(vec![0x74, 0x03, 0, 0, 0, 0], 0);
    emu.eflags = ZERO_FLAG;
    assert_eq!(step(&mut emu, &t), StepResult::Executed);
    assert_eq!(emu.eip, 5);

    // jnz backward by 4 from offset 4.
    let mut emu2 = emu_with_code(vec![0, 0, 0, 0, 0x75, 0xFC], 0);
    emu2.eip = 4;
    assert_eq!(step(&mut emu2, &t), StepResult::Executed);
    assert_eq!(emu2.eip, 2);
}

#[test]
fn jl_and_jle_follow_sign_and_overflow() {
    let t = table();
    // jl taken when sign and overflow differ.
    let mut emu = emu_with_code(vec![0x7C, 0x06, 0, 0, 0, 0, 0, 0], 0);
    emu.eflags = SIGN_FLAG;
    assert_eq!(step(&mut emu, &t), StepResult::Executed);
    assert_eq!(emu.eip, 8);

    // jle taken on zero alone.
    let mut emu2 = emu_with_code(vec![0x7E, 0x02, 0, 0], 0);
    emu2.eflags = ZERO_FLAG;
    assert_eq!(step(&mut emu2, &t), StepResult::Executed);
    assert_eq!(emu2.eip, 4);
}

#[test]
fn short_jump_forward_and_backward() {
    let t = table();
    let mut emu = emu_with_code(vec![0xEB, 0x02, 0, 0, 0xEB, 0xFA, 0, 0], 0);
    assert_eq!(step(&mut emu, &t), StepResult::Executed);
    assert_eq!(emu.eip, 4);
    assert_eq!(step(&mut emu, &t), StepResult::Executed);
    assert_eq!(emu.eip, 0);
}

#[test]
fn near_jump_uses_32_bit_displacement() {
    let t = table();
    let mut emu = emu_with_code(vec![0xE9, 0x03, 0x00, 0x00, 0x00, 0, 0, 0, 0], 0);
    assert_eq!(step(&mut emu, &t), StepResult::Executed);
    assert_eq!(emu.eip, 8);
}

#[test]
fn jump_before_start_of_memory_faults() {
    let t = table();
    // A short jump to a negative address cannot be represented.
    let mut emu = emu_with_code(vec![0xEB, 0x80, 0, 0], 0);
    assert_eq!(step(&mut emu, &t), StepResult::Faulted(Fault::OutOfRange));
    assert_eq!(emu.eip, 0);
}

#[test]
fn call_and_ret_round_trip() {
    let t = table();
    // call +2 (to offset 7), which returns straight away.
    let mut code = vec![0xE8, 0x02, 0x00, 0x00, 0x00, 0xF4, 0xF4, 0xC3];
    code.resize(32, 0);
    let mut emu = emu_with_code(code, 32);
    assert_eq!(step(&mut emu, &t), StepResult::Executed);
    assert_eq!(emu.eip, 7);
    assert_eq!(get_register32(&emu, 4), 28);
    // The pushed return address is the byte after the call.
    assert_eq!(&emu.memory[28..32], &[0x05, 0x00, 0x00, 0x00]);
    assert_eq!(step(&mut emu, &t), StepResult::Executed);
    assert_eq!(emu.eip, 5);
    assert_eq!(get_register32(&emu, 4), 32);
}

#[test]
fn leave_restores_frame() {
    let t = table();
    let mut code = vec![0xC9];
    code.resize(24, 0);
    code[16] = 0x44;
    code[17] = 0x33;
    code[18] = 0x22;
    code[19] = 0x11;
    let mut emu = emu_with_code(code, 8);
    set_register32(&mut emu, 5, 16);
    assert_eq!(step(&mut emu, &t), StepResult::Executed);
    assert_eq!(get_register32(&emu, 4), 20);
    assert_eq!(get_register32(&emu, 5), 0x1122_3344);
    assert_eq!(emu.eip, 1);
}

#[test]
fn run_stops_when_eip_reaches_zero() {
    let t = table();
    // A short jump at offset 5 back to address 0 signals end of program.
    let mut emu = emu_with_code(vec![0, 0, 0, 0, 0, 0xEB, 0xF9], 0);
    emu.eip = 5;
    assert_eq!(run(&mut emu, &t, 1000), RunExit::EndOfProgram);
    assert_eq!(emu.eip, 0);
}

#[test]
fn run_reports_undefined_opcode() {
    let t = table();
    let mut emu = emu_with_code(vec![0x40, 0xF4], 0);
    assert_eq!(run(&mut emu, &t, 1000), RunExit::NotImplemented(0xF4));
    assert_eq!(emu.eip, 1);
    assert_eq!(get_register32(&emu, 0), 1);
}

#[test]
fn run_reports_running_off_the_end() {
    let t = table();
    let mut emu = emu_with_code(vec![0x40], 0);
    assert_eq!(run(&mut emu, &t, 1000), RunExit::RanOffEnd);
    assert_eq!(emu.eip, 1);
}

#[test]
fn run_reports_faults() {
    let t = table();
    // A mov whose immediate runs past the end of memory.
    let mut emu = emu_with_code(vec![0xB8, 0x01], 0);
    assert_eq!(run(&mut emu, &t, 1000), RunExit::Faulted(Fault::OutOfRange));
}

#[test]
fn run_honours_its_step_budget() {
    let t = table();
    // An infinite loop: jmp to itself (at a nonzero address, so the
    // end-of-program convention does not trigger).
    let mut emu = emu_with_code(vec![0x40, 0xEB, 0xFE, 0], 0);
    assert_eq!(run(&mut emu, &t, 10), RunExit::StepLimit);
    assert_eq!(emu.eip, 1);
}
