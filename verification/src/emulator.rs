//! The processor state: registers, flags, instruction pointer, RAM, the
//! byte queues of the emulated serial console, and the diagnostics queue.

use vstd::prelude::*;

verus! {

/// Upper bound on the size of the emulated RAM.  Addresses are 32 bits
/// wide; keeping the buffer a little below `2^32` bytes leaves room for
/// instruction-pointer arithmetic without overflowing a 32-bit address.
pub const MEMORY_LIMIT: usize = 0xFFFF_F000;

/// Why an instruction could not run to completion.
#[derive(Clone, Copy, Debug, PartialEq, Eq, Structural)]
pub enum Fault {
    /// A code fetch or data access fell outside the memory buffer, or a
    /// jump target was not a valid address.
    OutOfRange,
    /// A ModR/M addressing combination whose effective-address rule is not
    /// implemented (`rm == 4` outside register-direct mode, or a memory
    /// address requested for a register-direct operand).
    Addressing,
    /// A group opcode (first byte, then unrecognized `reg` sub-opcode).
    GroupOpcode(u8, u8),
    /// An `in` from the serial port found no queued byte.  The state is
    /// left untouched, so execution can resume once a byte is queued.
    InputEmpty,
}

/// A diagnostic the core reports and then carries on from: a software
/// interrupt whose vector has no service, or a BIOS video function that
/// is not implemented.  Neither alters the processor state.
#[derive(Clone, Copy, Debug, PartialEq, Eq, Structural)]
pub enum Notice {
    UnknownInterrupt(u8),
    UnknownVideoFunction(u8),
}

/// What a single fetch-decode-execute step did.
#[derive(Clone, Copy, Debug, PartialEq, Eq, Structural)]
pub enum StepResult {
    /// The handler for the fetched opcode ran to completion.
    Executed,
    /// The fetched opcode maps to no handler; the state is untouched.
    NotImplemented(u8),
    /// The handler stopped with the given fault.
    Faulted(Fault),
}

/// Why the decode loop stopped.
#[derive(Clone, Copy, Debug, PartialEq, Eq, Structural)]
pub enum RunExit {
    /// The instruction pointer became zero after an instruction.
    EndOfProgram,
    /// The instruction pointer ran past the end of memory.
    RanOffEnd,
    /// An opcode with no handler was fetched.
    NotImplemented(u8),
    /// An instruction faulted.
    Faulted(Fault),
    /// The step budget ran out before the program stopped; the caller may
    /// resume with another budget.
    StepLimit,
}

/// The full state of the virtual processor.
///
/// The serial queues stand in for the byte-at-a-time console: `out`
/// instructions to the serial port append to `serial_output`, `in`
/// instructions consume from the front of `serial_input`.  The `notices`
/// queue collects the diagnostics the core reports without stopping.
/// The surrounding program drains and feeds all three.
pub struct Emulator {
    pub registers: Vec<u32>,
    pub eflags: u32,
    pub memory: Vec<u8>,
    pub eip: usize,
    pub serial_input: Vec<u8>,
    pub serial_output: Vec<u8>,
    pub notices: Vec<Notice>,
}

impl Emulator {
    /// Well-formedness: exactly eight registers, and a memory buffer whose
    /// addresses all fit comfortably in 32 bits.
    pub open spec fn wf(&self) -> bool {
        &&& self.registers@.len() == 8
        &&& self.memory@.len() <= MEMORY_LIMIT
    }
}

/// Everything but the registers is equal in the two states.
pub open spec fn same_except_registers(a: Emulator, b: Emulator) -> bool {
    &&& b.eflags == a.eflags
    &&& b.memory@ == a.memory@
    &&& b.eip == a.eip
    &&& b.serial_input@ == a.serial_input@
    &&& b.serial_output@ == a.serial_output@
    &&& b.notices@ == a.notices@
}

/// Everything but the instruction pointer is equal in the two states.
pub open spec fn same_except_eip(a: Emulator, b: Emulator) -> bool {
    &&& b.registers@ == a.registers@
    &&& b.eflags == a.eflags
    &&& b.memory@ == a.memory@
    &&& b.serial_input@ == a.serial_input@
    &&& b.serial_output@ == a.serial_output@
    &&& b.notices@ == a.notices@
}

/// Everything but the flags word is equal in the two states.
pub open spec fn same_except_eflags(a: Emulator, b: Emulator) -> bool {
    &&& b.registers@ == a.registers@
    &&& b.memory@ == a.memory@
    &&& b.eip == a.eip
    &&& b.serial_input@ == a.serial_input@
    &&& b.serial_output@ == a.serial_output@
    &&& b.notices@ == a.notices@
}

/// Everything but the memory contents is equal in the two states.
pub open spec fn same_except_memory(a: Emulator, b: Emulator) -> bool {
    &&& b.registers@ == a.registers@
    &&& b.eflags == a.eflags
    &&& b.eip == a.eip
    &&& b.serial_input@ == a.serial_input@
    &&& b.serial_output@ == a.serial_output@
    &&& b.notices@ == a.notices@
}

/// The two serial queues and the diagnostics are equal in the two
/// states.
pub open spec fn same_serial(a: Emulator, b: Emulator) -> bool {
    &&& b.serial_input@ == a.serial_input@
    &&& b.serial_output@ == a.serial_output@
    &&& b.notices@ == a.notices@
}

/// Flags, memory, the serial queues and the diagnostics are equal in
/// the two states.
pub open spec fn same_flags_memory_serial(a: Emulator, b: Emulator) -> bool {
    &&& b.eflags == a.eflags
    &&& b.memory@ == a.memory@
    &&& b.serial_input@ == a.serial_input@
    &&& b.serial_output@ == a.serial_output@
    &&& b.notices@ == a.notices@
}

/// Flags, the serial queues and the diagnostics are equal in the two
/// states.
pub open spec fn same_flags_serial(a: Emulator, b: Emulator) -> bool {
    &&& b.eflags == a.eflags
    &&& b.serial_input@ == a.serial_input@
    &&& b.serial_output@ == a.serial_output@
    &&& b.notices@ == a.notices@
}

/// Registers, memory, the serial queues and the diagnostics are equal
/// in the two states.
pub open spec fn same_regs_memory_serial(a: Emulator, b: Emulator) -> bool {
    &&& b.registers@ == a.registers@
    &&& b.memory@ == a.memory@
    &&& b.serial_input@ == a.serial_input@
    &&& b.serial_output@ == a.serial_output@
    &&& b.notices@ == a.notices@
}

/// Everything but the instruction pointer and the serial output is equal
/// in the two states.
pub open spec fn same_regs_flags_memory_input(a: Emulator, b: Emulator) -> bool {
    &&& b.registers@ == a.registers@
    &&& b.eflags == a.eflags
    &&& b.memory@ == a.memory@
    &&& b.serial_input@ == a.serial_input@
}

/// Flags, memory, the serial output and the diagnostics are equal in
/// the two states.
pub open spec fn same_flags_memory_output(a: Emulator, b: Emulator) -> bool {
    &&& b.eflags == a.eflags
    &&& b.memory@ == a.memory@
    &&& b.serial_output@ == a.serial_output@
    &&& b.notices@ == a.notices@
}

/// The two states are equal in every component.
pub open spec fn same_state(a: Emulator, b: Emulator) -> bool {
    &&& b.registers@ == a.registers@
    &&& b.eflags == a.eflags
    &&& b.memory@ == a.memory@
    &&& b.eip == a.eip
    &&& b.serial_input@ == a.serial_input@
    &&& b.serial_output@ == a.serial_output@
    &&& b.notices@ == a.notices@
}

/// A fresh processor: all registers zero but for the stack pointer, flags
/// clear, empty memory (the loader fills it in), and the instruction
/// pointer at the entry address.
pub fn create_emu(eip: usize, esp: u32) -> (r: Emulator)
    ensures
        r.wf(),
        r.registers@ == seq![0u32, 0u32, 0u32, 0u32, esp, 0u32, 0u32, 0u32],
        r.eflags == 0,
        r.memory@ == Seq::<u8>::empty(),
        r.eip == eip,
        r.serial_input@ == Seq::<u8>::empty(),
        r.serial_output@ == Seq::<u8>::empty(),
        r.notices@ == Seq::<Notice>::empty(),
{
    let mut registers: Vec<u32> = Vec::new();
    registers.push(0);
    registers.push(0);
    registers.push(0);
    registers.push(0);
    registers.push(esp);
    registers.push(0);
    registers.push(0);
    registers.push(0);
    proof {
        assert(registers@ =~= seq![0u32, 0u32, 0u32, 0u32, esp, 0u32, 0u32, 0u32]);
    }
    Emulator {
        registers,
        eflags: 0,
        memory: Vec::new(),
        eip,
        serial_input: Vec::new(),
        serial_output: Vec::new(),
        notices: Vec::new(),
    }
}

} // verus!
