use xkey::poised::{
    init_controller_data, ControllerState, JoyStickData, JoyStickState, TriggerData, TriggerState,
};

fn report(b2: u8, b3: u8, rt: u8, left: (i16, i16)) -> [u8; 20] {
    let mut r = [0u8; 20];
    r[2] = b2;
    r[3] = b3;
    r[5] = rt;
    r[6..8].copy_from_slice(&left.0.to_le_bytes());
    r[8..10].copy_from_slice(&left.1.to_le_bytes());
    r
}

fn state_of(r: [u8; 20]) -> ControllerState {
    let mut d = init_controller_data();
    d.load_from_bytes(&r);
    d.state()
}

#[test]
fn poised_letters() {
    assert_eq!(state_of(report(0, 0x10, 0, (0, 0))), ControllerState::PoisedChar('a'));
    assert_eq!(state_of(report(0, 0, 40, (0, 0))), ControllerState::PoisedChar('y'));
    assert_eq!(state_of(report(0, 0x40, 0, (0, 9000))), ControllerState::PoisedChar('t'));
    assert_eq!(state_of(report(0, 0x02, 0, (0, -9000))), ControllerState::PoisedChar('g'));
    assert_eq!(state_of(report(0, 0x20, 0, (9000, 0))), ControllerState::PoisedChar('w'));
    assert_eq!(state_of(report(0, 0x80, 0, (-9000, 0))), ControllerState::PoisedChar('q'));
    assert_eq!(state_of(report(0, 0x02, 0, (-9000, 0))), ControllerState::Confused);
}

#[test]
fn poised_digits_and_symbols() {
    assert_eq!(state_of(report(0x02, 0x10, 0, (0, 0))), ControllerState::PoisedChar('1'));
    assert_eq!(state_of(report(0x01, 0, 255, (0, 0))), ControllerState::PoisedChar('='));
    assert_eq!(state_of(report(0x04, 0x40, 0, (0, 0))), ControllerState::PoisedChar('('));
    assert_eq!(state_of(report(0x08, 0x80, 0, (0, 0))), ControllerState::PoisedChar('\''));
    assert_eq!(state_of(report(0x08, 0, 1, (0, 0))), ControllerState::PoisedChar('\\'));
    // an arrow with no digit for the button falls through to the letters
    assert_eq!(state_of(report(0x04, 0x02, 0, (0, 0))), ControllerState::PoisedChar('u'));
}

#[test]
fn poised_rest_and_space() {
    assert_eq!(state_of(report(0, 0, 0, (0, 0))), ControllerState::Neutral);
    assert_eq!(state_of(report(0x80, 0, 0, (0, 0))), ControllerState::PoisedChar(' '));
    assert_eq!(state_of(report(0, 0, 0, (20000, 0))), ControllerState::Neutral);
    assert_eq!(state_of(report(0, 0x30, 0, (0, 0))), ControllerState::Confused);
}

#[test]
fn poised_output_on_return_to_rest() {
    let d = init_controller_data();
    assert_eq!(
        d.get_output(&ControllerState::PoisedChar('k'), &ControllerState::Neutral),
        Some("k".to_string())
    );
    assert_eq!(d.get_output(&ControllerState::PoisedChar('k'), &ControllerState::PoisedChar('a')), None);
    assert_eq!(d.get_output(&ControllerState::Neutral, &ControllerState::Neutral), None);
    assert_eq!(d.get_output(&ControllerState::Confused, &ControllerState::Neutral), None);
}

#[test]
fn poised_copy_is_equal() {
    let s = ControllerState::PoisedChar('z');
    assert_eq!(s.copy(), s);
    assert_eq!(ControllerState::Confused.copy(), ControllerState::Confused);
}

#[test]
fn poised_every_report_is_a_change() {
    let mut d = init_controller_data();
    assert!(d.changed());
    assert!(!d.changed());
    d.load_from_bytes(&report(0, 0, 0, (0, 0)));
    assert!(d.changed());
    assert!(!d.changed());
}

#[test]
fn poised_modifiers() {
    let mut d = init_controller_data();
    let mut r = report(0x40, 0x01, 0, (0, 0));
    r[4] = 3;
    d.load_from_bytes(&r);
    assert!(d.is_shift());
    assert!(d.is_ctrl());
    assert!(d.is_alt());
}

#[test]
fn poised_joystick_and_trigger() {
    assert_eq!(JoyStickData { x_pos: -6000, y_pos: 0 }.state(), JoyStickState::Left(false));
    assert_eq!(JoyStickData { x_pos: 0, y_pos: 31001 }.state(), JoyStickState::Up(true));
    assert_eq!(JoyStickData { x_pos: 100, y_pos: -100 }.state(), JoyStickState::Neutral);
    assert_eq!(TriggerData { pos: 255 }.state(), TriggerState::Pressed(true));
    assert_eq!(TriggerData { pos: 0 }.state(), TriggerState::Neutral);
}
