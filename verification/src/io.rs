//! The I/O port backend.  Only the serial console port is defined; it is
//! backed by the two byte queues of the processor state, which the
//! surrounding program connects to a real terminal.  All other ports read
//! as zero and ignore writes.

use vstd::prelude::*;

verus! {

use crate::SERIAL_PORT;
use crate::emulator::Emulator;
use crate::emulator::Fault;
use crate::emulator::same_state;

/// Read a byte from a port.  The serial port consumes the front of the
/// input queue and reports `InputEmpty`, with the state untouched, when
/// no byte is queued; every other port reads as zero.
pub fn io_in8(emu: &mut Emulator, address: u32) -> (r: Result<u8, Fault>)
    requires
        old(emu).wf(),
    ensures
        final(emu).wf(),
        final(emu).registers@ == old(emu).registers@,
        final(emu).eflags == old(emu).eflags,
        final(emu).memory@ == old(emu).memory@,
        final(emu).eip == old(emu).eip,
        final(emu).serial_output@ == old(emu).serial_output@,
        final(emu).notices@ == old(emu).notices@,
        address == SERIAL_PORT && old(emu).serial_input@.len() > 0 ==> r == Ok::<u8, Fault>(
            old(emu).serial_input@[0],
        ) && final(emu).serial_input@ == old(emu).serial_input@.remove(0),
        address == SERIAL_PORT && old(emu).serial_input@.len() == 0 ==> r == Err::<u8, Fault>(
            Fault::InputEmpty,
        ) && same_state(*old(emu), *final(emu)),
        address != SERIAL_PORT ==> r == Ok::<u8, Fault>(0u8) && same_state(*old(emu), *final(emu)),
{
    if address == SERIAL_PORT {
        if emu.serial_input.len() > 0 {
            Ok(emu.serial_input.remove(0))
        } else {
            Err(Fault::InputEmpty)
        }
    } else {
        Ok(0)
    }
}

/// Write a byte to a port.  The serial port appends to the output queue;
/// every other port ignores the write.
pub fn io_out8(emu: &mut Emulator, address: u32, value: u8)
    requires
        old(emu).wf(),
    ensures
        final(emu).wf(),
        final(emu).registers@ == old(emu).registers@,
        final(emu).eflags == old(emu).eflags,
        final(emu).memory@ == old(emu).memory@,
        final(emu).eip == old(emu).eip,
        final(emu).serial_input@ == old(emu).serial_input@,
        final(emu).notices@ == old(emu).notices@,
        address == SERIAL_PORT ==> final(emu).serial_output@ == old(emu).serial_output@.push(
            value,
        ),
        address != SERIAL_PORT ==> final(emu).serial_output@ == old(emu).serial_output@,
{
    if address == SERIAL_PORT {
        emu.serial_output.push(value);
    }
}

} // verus!
