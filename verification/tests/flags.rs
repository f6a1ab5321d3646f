use x86emu::emulator::create_emu;
use x86emu::emulator::Emulator;
use x86emu::function::is_carry;
use x86emu::function::is_overflow;
use x86emu::function::is_sign;
use x86emu::function::is_zero;
use x86emu::function::set_carry;
use x86emu::function::set_overflow;
use x86emu::function::set_sign;
use x86emu::function::set_zero;
use x86emu::function::update_eflags_sub;

fn fresh_emu() -> Emulator {
    create_emu(0, 0)
}

#[test]
fn flags_plain_subtraction_clears_all() {
    // 5 - 3 = 2: no borrow, not zero, not negative, no signed overflow.
    let mut emu = fresh_emu();
    update_eflags_sub(&mut emu, 5, 3, 2);
    assert!(!is_carry(&mut emu));
    assert!(!is_zero(&mut emu));
    assert!(!is_sign(&mut emu));
    assert!(!is_overflow(&mut emu));
}

#[test]
fn flags_borrow_sets_carry_and_sign() {
    // 0 - 1 with a 64-bit two's-complement result: bit 32 is the borrow.
    let mut emu = fresh_emu();
    let result = 0u64.wrapping_sub(1);
    update_eflags_sub(&mut emu, 0, 1, result);
    assert!(is_carry(&mut emu));
    assert!(is_sign(&mut emu));
    assert!(!is_zero(&mut emu));
    assert!(!is_overflow(&mut emu));
}

#[test]
fn flags_equal_operands_set_zero() {
    let mut emu = fresh_emu();
    update_eflags_sub(&mut emu, 5, 5, 0);
    assert!(is_zero(&mut emu));
    assert!(!is_carry(&mut emu));
    assert!(!is_sign(&mut emu));
    assert!(!is_overflow(&mut emu));
}

#[test]
fn flags_signed_overflow() {
    // INT_MIN - 1 overflows: the sign of the result differs from the
    // sign of the minuend while the operand signs differ.
    let mut emu = fresh_emu();
    let v1 = 0x8000_0000u32;
    let v2 = 1u32;
    let result = (v1 as u64).wrapping_sub(v2 as u64);
    update_eflags_sub(&mut emu, v1, v2, result);
    assert!(is_overflow(&mut emu));
    assert!(!is_sign(&mut emu));
    assert!(!is_carry(&mut emu));
}

#[test]
fn flag_setters_touch_only_their_bit() {
    let mut emu = fresh_emu();
    emu.eflags = 0xFFFF_FFFF;
    set_carry(&mut emu, false);
    assert_eq!(emu.eflags, 0xFFFF_FFFE);
    set_zero(&mut emu, false);
    assert_eq!(emu.eflags, 0xFFFF_FFBE);
    set_sign(&mut emu, false);
    assert_eq!(emu.eflags, 0xFFFF_FF3E);
    set_overflow(&mut emu, false);
    assert_eq!(emu.eflags, 0xFFFF_F73E);
    set_carry(&mut emu, true);
    assert_eq!(emu.eflags, 0xFFFF_F73F);
}

#[test]
fn update_eflags_sub_keeps_reserved_bits() {
    let mut emu = fresh_emu();
    emu.eflags = 0x0000_0202;
    update_eflags_sub(&mut emu, 5, 3, 2);
    // Bits outside carry/zero/sign/overflow keep their values.
    assert_eq!(emu.eflags & !0x8C1, 0x202 & !0x8C1);
}
