use xkey::reader::{init_controller_data, JoyStickData, JoyStickState, TriggerData, TriggerState};

#[test]
fn reader_fresh_controller() {
    let d = init_controller_data();
    assert!(!d.button_back_pressed());
    assert!(!d.is_A_pressed());
    assert_eq!(d.joystick_L_pos(), (0, 0));
    assert_eq!(d.joystick_L_state(), JoyStickState::Neutral);
    assert_eq!(d.trigger_L_state(), TriggerState::Up);
}

#[test]
fn reader_decodes_a_report() {
    let mut d = init_controller_data();
    let mut r = [0u8; 20];
    r[2] = 0x20; // back
    r[3] = 0x10; // A
    r[4] = 255; // left trigger all the way
    r[6..8].copy_from_slice(&(-12345i16).to_le_bytes());
    r[8..10].copy_from_slice(&(32000i16).to_le_bytes());
    d.load_from_bytes(&r);
    assert!(d.button_back_pressed());
    assert!(d.is_A_pressed());
    assert_eq!(d.joystick_L_pos(), (-12345, 32000));
    assert_eq!(d.joystick_L_state(), JoyStickState::Up(true));
    assert_eq!(d.trigger_L_state(), TriggerState::Down(true));
}

#[test]
fn reader_partial_trigger() {
    let mut d = init_controller_data();
    let mut r = [0u8; 14];
    r[4] = 17;
    d.load_from_bytes(&r);
    assert_eq!(d.trigger_L_state(), TriggerState::Down(false));
    assert!(!d.is_A_pressed());
}

#[test]
fn reader_joystick_and_trigger() {
    assert_eq!(JoyStickData { x_pos: 20000, y_pos: 20001 }.state(), JoyStickState::Up(false));
    assert_eq!(JoyStickData { x_pos: -31001, y_pos: 0 }.state(), JoyStickState::Left(true));
    assert_eq!(TriggerData { pos: 0 }.state(), TriggerState::Up);
    assert_eq!(TriggerData { pos: 128 }.state(), TriggerState::Down(false));
}
