use x86emu::bios::bios_video;
use x86emu::bios::bios_video_teletype;
use x86emu::bios::put_string;
use x86emu::emulator::create_emu;
use x86emu::emulator::Emulator;
use x86emu::emulator::Fault;
use x86emu::emulator::Notice;
use x86emu::emulator::StepResult;
use x86emu::function::get_register8;
use x86emu::function::set_register32;
use x86emu::instruction::init_instructions;
use x86emu::instruction::step;
use x86emu::instruction::Inst;
use x86emu::io::io_in8;
use x86emu::io::io_out8;

fn table() -> Vec<Inst> {
    let mut t = vec![Inst::Undefined; 256];
    init_instructions(&mut t);
    t
}

fn emu_with_code(code: Vec<u8>, esp: u32) -> Emulator {
    let mut emu = create_emu(0, esp);
    emu.memory = code;
    emu
}

#[test]
fn io_out8_writes_only_the_serial_port() {
    let mut emu = create_emu(0, 0);
    io_out8(&mut emu, 0x03f8, b'a');
    io_out8(&mut emu, 0x1234, b'b');
    io_out8(&mut emu, 0x03f8, b'c');
    assert_eq!(emu.serial_output, vec![b'a', b'c']);
}

#[test]
fn io_in8_reads_queue_or_zero() {
    let mut emu = create_emu(0, 0);
    emu.serial_input = vec![0x11, 0x22];
    assert_eq!(io_in8(&mut emu, 0x03f8), Ok(0x11));
    assert_eq!(io_in8(&mut emu, 0x5555), Ok(0));
    assert_eq!(io_in8(&mut emu, 0x03f8), Ok(0x22));
    assert_eq!(io_in8(&mut emu, 0x03f8), Err(Fault::InputEmpty));
}

#[test]
fn put_string_sends_every_byte() {
    let mut emu = create_emu(0, 0);
    put_string(&mut emu, b"hello");
    assert_eq!(emu.serial_output, b"hello".to_vec());
}

#[test]
fn teletype_renders_character_with_color() {
    let mut emu = create_emu(0, 0);
    // AL = 'A', AH = 0; BL = 2 (green, not bright).
    set_register32(&mut emu, 0, 0x41);
    set_register32(&mut emu, 3, 0x02);
    bios_video_teletype(&mut emu);
    assert_eq!(emu.serial_output, b"\x1b[0;32mA\x1b[0m".to_vec());
}

#[test]
fn teletype_bright_colors() {
    let mut emu = create_emu(0, 0);
    // BL = 0x0C: bright red (color 4 is red, bit 3 is bright).
    set_register32(&mut emu, 0, 0x58);
    set_register32(&mut emu, 3, 0x0C);
    bios_video_teletype(&mut emu);
    assert_eq!(emu.serial_output, b"\x1b[1;31mX\x1b[0m".to_vec());
}

#[test]
fn bios_video_reports_other_functions() {
    let mut emu = create_emu(0, 0);
    // AH = 0x13 is not implemented: nothing is written, and the
    // function number is reported.
    set_register32(&mut emu, 0, 0x1341);
    bios_video(&mut emu);
    assert!(emu.serial_output.is_empty());
    assert_eq!(emu.notices, vec![Notice::UnknownVideoFunction(0x13)]);
}

#[test]
fn software_interrupt_teletype_scenario() {
    let t = table();
    // int 0x10 with AH = 0x0e, AL = 'A', BL = 2: 'A' in green.
    let mut emu = emu_with_code(vec![0xCD, 0x10], 0);
    set_register32(&mut emu, 0, 0x0E41);
    set_register32(&mut emu, 3, 0x02);
    let regs_before = emu.registers.clone();
    assert_eq!(step(&mut emu, &t), StepResult::Executed);
    assert_eq!(emu.serial_output, b"\x1b[0;32mA\x1b[0m".to_vec());
    assert_eq!(emu.registers, regs_before);
    assert!(emu.notices.is_empty());
    assert_eq!(emu.eip, 2);
}

#[test]
fn software_interrupt_unknown_vector_is_reported() {
    let t = table();
    let mut emu = emu_with_code(vec![0xCD, 0x21], 0);
    assert_eq!(step(&mut emu, &t), StepResult::Executed);
    assert!(emu.serial_output.is_empty());
    assert_eq!(emu.notices, vec![Notice::UnknownInterrupt(0x21)]);
    assert_eq!(emu.eip, 2);
}

#[test]
fn repeated_interrupts_accumulate_output() {
    let t = table();
    let mut emu = emu_with_code(vec![0xCD, 0x10, 0xCD, 0x10], 0);
    // AH = 0x0e, AL = 'H'; BL = 7 (white).
    set_register32(&mut emu, 0, 0x0E48);
    set_register32(&mut emu, 3, 0x07);
    assert_eq!(step(&mut emu, &t), StepResult::Executed);
    assert_eq!(step(&mut emu, &t), StepResult::Executed);
    let one = b"\x1b[0;37mH\x1b[0m".to_vec();
    let mut both = one.clone();
    both.extend_from_slice(&one);
    assert_eq!(emu.serial_output, both);
}

#[test]
fn out_dx_al_sends_al_to_serial_port() {
    let t = table();
    let mut emu = emu_with_code(vec![0xEE], 0);
    set_register32(&mut emu, 2, 0x03f8);
    set_register32(&mut emu, 0, b'Q' as u32);
    assert_eq!(step(&mut emu, &t), StepResult::Executed);
    assert_eq!(emu.serial_output, vec![b'Q']);
    assert_eq!(emu.eip, 1);

    // Any other port swallows the byte.
    let mut emu2 = emu_with_code(vec![0xEE], 0);
    set_register32(&mut emu2, 2, 0x42);
    assert_eq!(step(&mut emu2, &t), StepResult::Executed);
    assert!(emu2.serial_output.is_empty());
}

#[test]
fn in_al_dx_reads_serial_queue() {
    let t = table();
    let mut emu = emu_with_code(vec![0xEC], 0);
    set_register32(&mut emu, 2, 0x03f8);
    emu.serial_input = vec![0x5A];
    assert_eq!(step(&mut emu, &t), StepResult::Executed);
    assert_eq!(get_register8(&emu, 0), 0x5A);
    assert!(emu.serial_input.is_empty());
    assert_eq!(emu.eip, 1);
}

#[test]
fn in_al_dx_waits_for_input_and_resumes() {
    let t = table();
    let mut emu = emu_with_code(vec![0xEC], 0);
    set_register32(&mut emu, 2, 0x03f8);
    // No byte queued: the step reports it and leaves the state alone.
    assert_eq!(step(&mut emu, &t), StepResult::Faulted(Fault::InputEmpty));
    assert_eq!(emu.eip, 0);
    // Queue a byte and retry.
    emu.serial_input.push(0x33);
    assert_eq!(step(&mut emu, &t), StepResult::Executed);
    assert_eq!(get_register8(&emu, 0), 0x33);
    assert_eq!(emu.eip, 1);
}

#[test]
fn in_al_dx_other_ports_read_zero() {
    let t = table();
    let mut emu = emu_with_code(vec![0xEC], 0);
    set_register32(&mut emu, 0, 0xFF);
    set_register32(&mut emu, 2, 0x7777);
    assert_eq!(step(&mut emu, &t), StepResult::Executed);
    assert_eq!(get_register8(&emu, 0), 0);
}
