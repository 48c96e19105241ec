use isa_decode::{render_state, Machine, RegisterID, Registers};

#[test]
fn new_machine_state_is_zero() {
    let m = Machine::new();
    assert_eq!(m.state(), "a0:00000000");
}

#[test]
fn registers_start_at_zero() {
    let r = Registers::new();
    assert_eq!(r.get(RegisterID::X0), 0);
    assert_eq!(r.get(RegisterID::A0), 0);
}

#[test]
fn set_a0_is_read_back() {
    let mut r = Registers::new();
    r.set(RegisterID::A0, 0xDEAD_BEEF);
    assert_eq!(r.get(RegisterID::A0), 0xDEAD_BEEF);
    assert_eq!(r.get(RegisterID::X0), 0);
}

#[test]
fn set_x0_is_ignored() {
    let mut r = Registers::new();
    r.set(RegisterID::A0, 7);
    r.set(RegisterID::X0, 42);
    assert_eq!(r.get(RegisterID::X0), 0);
    assert_eq!(r.get(RegisterID::A0), 7);
}

#[test]
fn render_state_pads_to_eight_digits() {
    assert_eq!(render_state(0x2a), "a0:0000002a");
}

#[test]
fn render_state_uses_lower_case_hex() {
    assert_eq!(render_state(0xDEAD_BEEF), "a0:deadbeef");
    assert_eq!(render_state(0x0123_4567), "a0:01234567");
    assert_eq!(render_state(u32::MAX), "a0:ffffffff");
}
