//! The BIOS video service behind software interrupt 0x10: teletype output
//! of one character with a color attribute, rendered as a terminal escape
//! sequence on the serial console.

use vstd::prelude::*;

verus! {

use crate::AH;
use crate::AL;
use crate::BL;
use crate::SERIAL_PORT;
use crate::emulator::Emulator;
use crate::emulator::Notice;
use crate::function::get_register8;
use crate::function::spec_get_register8;
use crate::io::io_out8;

/// The terminal color code for a BIOS color number 0-7.
pub open spec fn spec_term_color(c: u8) -> u8 {
    let i = c & 7;
    if i == 0 {
        30
    } else if i == 1 {
        34
    } else if i == 2 {
        32
    } else if i == 3 {
        36
    } else if i == 4 {
        31
    } else if i == 5 {
        35
    } else if i == 6 {
        33
    } else {
        37
    }
}

/// The escape sequence the teletype service emits for one character with
/// a 4-bit color attribute: intensity and color selection, the character
/// itself, then an attribute reset.
pub open spec fn teletype_bytes(color: u8, ch: u8) -> Seq<u8> {
    seq![
        0x1bu8,
        0x5bu8,
        if color & 8 != 0 {
            0x31u8
        } else {
            0x30u8
        },
        0x3bu8,
        0x33u8,
        (0x30 + (spec_term_color(color) - 30)) as u8,
        0x6du8,
        ch,
        0x1bu8,
        0x5bu8,
        0x30u8,
        0x6du8,
    ]
}

fn term_color(c: u8) -> (r: u8)
    ensures
        r == spec_term_color(c),
        30 <= r <= 37,
{
    let i = c & 7;
    proof {
        assert(c & 7 < 8) by (bit_vector);
    }
    if i == 0 {
        30
    } else if i == 1 {
        34
    } else if i == 2 {
        32
    } else if i == 3 {
        36
    } else if i == 4 {
        31
    } else if i == 5 {
        35
    } else if i == 6 {
        33
    } else {
        37
    }
}

/// Send each byte of `s` to the serial console in order.
pub fn put_string(emu: &mut Emulator, s: &[u8])
    requires
        old(emu).wf(),
    ensures
        final(emu).wf(),
        final(emu).registers@ == old(emu).registers@,
        final(emu).eflags == old(emu).eflags,
        final(emu).memory@ == old(emu).memory@,
        final(emu).eip == old(emu).eip,
        final(emu).serial_input@ == old(emu).serial_input@,
        final(emu).serial_output@ == old(emu).serial_output@ + s@,
        final(emu).notices@ == old(emu).notices@,
{
    let mut i: usize = 0;
    while i < s.len()
        invariant
            emu.wf(),
            i <= s@.len(),
            emu.registers@ == old(emu).registers@,
            emu.eflags == old(emu).eflags,
            emu.memory@ == old(emu).memory@,
            emu.eip == old(emu).eip,
            emu.serial_input@ == old(emu).serial_input@,
            emu.serial_output@ == old(emu).serial_output@ + s@.subrange(0, i as int),
            emu.notices@ == old(emu).notices@,
        decreases s@.len() - i,
    {
        io_out8(emu, SERIAL_PORT, s[i]);
        i = i + 1;
        proof {
            assert(emu.serial_output@ =~= old(emu).serial_output@ + s@.subrange(0, i as int));
        }
    }
    proof {
        assert(s@.subrange(0, s@.len() as int) =~= s@);
    }
}

/// Teletype output: render the character in AL with the color attribute
/// in BL (low three bits select the color, bit 3 the bright intensity) to
/// the serial console.  Registers, flags and memory are untouched.
pub fn bios_video_teletype(emu: &mut Emulator)
    requires
        old(emu).wf(),
    ensures
        final(emu).wf(),
        final(emu).registers@ == old(emu).registers@,
        final(emu).eflags == old(emu).eflags,
        final(emu).memory@ == old(emu).memory@,
        final(emu).eip == old(emu).eip,
        final(emu).serial_input@ == old(emu).serial_input@,
        final(emu).serial_output@ == old(emu).serial_output@ + teletype_bytes(
            spec_get_register8(old(emu).registers@, BL as int) & 0x0f,
            spec_get_register8(old(emu).registers@, AL as int),
        ),
        final(emu).notices@ == old(emu).notices@,
{
    let color = get_register8(&*emu, BL) & 0x0f;
    let ch = get_register8(&*emu, AL);

    let tc = term_color(color);
    let bright: u8 = if (color & 8) != 0 {
        0x31
    } else {
        0x30
    };

    let mut bytes: Vec<u8> = Vec::new();
    bytes.push(0x1b);
    bytes.push(0x5b);
    bytes.push(bright);
    bytes.push(0x3b);
    bytes.push(0x33);
    bytes.push(0x30 + (tc - 30));
    bytes.push(0x6d);
    bytes.push(ch);
    bytes.push(0x1b);
    bytes.push(0x5b);
    bytes.push(0x30);
    bytes.push(0x6d);
    proof {
        assert(bytes@ =~= teletype_bytes(
            spec_get_register8(old(emu).registers@, BL as int) & 0x0f,
            spec_get_register8(old(emu).registers@, AL as int),
        ));
    }
    put_string(emu, bytes.as_slice());
}

/// The BIOS video service: function 0x0e in AH is teletype output; any
/// other function is reported as unimplemented and changes nothing else.
pub fn bios_video(emu: &mut Emulator)
    requires
        old(emu).wf(),
    ensures
        final(emu).wf(),
        final(emu).registers@ == old(emu).registers@,
        final(emu).eflags == old(emu).eflags,
        final(emu).memory@ == old(emu).memory@,
        final(emu).eip == old(emu).eip,
        final(emu).serial_input@ == old(emu).serial_input@,
        spec_get_register8(old(emu).registers@, AH as int) == 0x0e ==> final(emu).serial_output@
            == old(emu).serial_output@ + teletype_bytes(
            spec_get_register8(old(emu).registers@, BL as int) & 0x0f,
            spec_get_register8(old(emu).registers@, AL as int),
        ) && final(emu).notices@ == old(emu).notices@,
        spec_get_register8(old(emu).registers@, AH as int) != 0x0e ==> final(emu).serial_output@
            == old(emu).serial_output@ && final(emu).notices@ == old(emu).notices@.push(
            Notice::UnknownVideoFunction(spec_get_register8(old(emu).registers@, AH as int)),
        ),
{
    let func = get_register8(&*emu, AH);
    if func == 0x0e {
        bios_video_teletype(emu);
    } else {
        emu.notices.push(Notice::UnknownVideoFunction(func));
    }
}

} // verus!
