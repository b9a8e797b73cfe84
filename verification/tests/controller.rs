use xkey::xkey::xboxcontroller::{
    get_device_at_address, init_controller_data, XBOX_CONTROLLER_ID, ControllerData, ControllerState, Macro, StickData, StickState,
    TriggerData, TriggerState,
};

/// An input report: button bytes 2 and 3, the triggers, and the sticks.
fn report(b2: u8, b3: u8, lt: u8, rt: u8, left: (i16, i16), right: (i16, i16)) -> [u8; 20] {
    let mut r = [0u8; 20];
    r[2] = b2;
    r[3] = b3;
    r[4] = lt;
    r[5] = rt;
    r[6..8].copy_from_slice(&left.0.to_le_bytes());
    r[8..10].copy_from_slice(&left.1.to_le_bytes());
    r[10..12].copy_from_slice(&right.0.to_le_bytes());
    r[12..14].copy_from_slice(&right.1.to_le_bytes());
    r
}

const A: u8 = 0x10;
const B: u8 = 0x20;
const X: u8 = 0x40;
const Y: u8 = 0x80;
const L_BUMPER: u8 = 0x01;
const R_STICK: u8 = 0x80;
const DPAD_DOWN: u8 = 0x02;
const DPAD_RIGHT: u8 = 0x08;
const DPAD_LEFT: u8 = 0x04;
const START: u8 = 0x10;
const BACK: u8 = 0x20;

fn loaded(r: [u8; 20]) -> ControllerData {
    let mut d = init_controller_data();
    d.load_from_bytes(&r);
    d
}

#[test]
fn stick_centre_is_neutral() {
    assert_eq!(StickData { x_pos: 0, y_pos: 0 }.state(), StickState::Neutral);
    assert_eq!(StickData { x_pos: 5999, y_pos: -5999 }.state(), StickState::Neutral);
}

#[test]
fn stick_tilt_and_smash() {
    assert_eq!(StickData { x_pos: 6000, y_pos: 0 }.state(), StickState::Right(false));
    assert_eq!(StickData { x_pos: 31001, y_pos: 0 }.state(), StickState::Right(true));
    assert_eq!(StickData { x_pos: 31000, y_pos: 0 }.state(), StickState::Right(false));
    assert_eq!(StickData { x_pos: -6000, y_pos: 0 }.state(), StickState::Left(false));
    assert_eq!(StickData { x_pos: -31001, y_pos: 100 }.state(), StickState::Left(true));
    assert_eq!(StickData { x_pos: 0, y_pos: 7000 }.state(), StickState::Up(false));
    assert_eq!(StickData { x_pos: 10, y_pos: -32768 }.state(), StickState::Down(true));
}

#[test]
fn stick_diagonals_follow_the_magnitude_measure() {
    // A negative coordinate counts one less than its distance from zero.
    assert_eq!(StickData { x_pos: -7000, y_pos: 7000 }.state(), StickState::Up(false));
    assert_eq!(StickData { x_pos: 7000, y_pos: -7000 }.state(), StickState::Right(false));
    assert_eq!(StickData { x_pos: 7000, y_pos: 7000 }.state(), StickState::Right(false));
    assert_eq!(StickData { x_pos: -32768, y_pos: -32768 }.state(), StickState::Left(true));
}

#[test]
fn trigger_positions() {
    assert_eq!(TriggerData { pos: 0 }.state(), TriggerState::Neutral);
    assert_eq!(TriggerData { pos: 1 }.state(), TriggerState::Pressed(false));
    assert_eq!(TriggerData { pos: 254 }.state(), TriggerState::Pressed(false));
    assert_eq!(TriggerData { pos: 255 }.state(), TriggerState::Pressed(true));
}

#[test]
fn fresh_controller_is_neutral_and_marked() {
    let mut d = init_controller_data();
    assert_eq!(d.state(), ControllerState::Neutral);
    assert_eq!(d.last_state(), ControllerState::Neutral);
    assert!(!d.is_shift() && !d.is_ctrl() && !d.is_alt() && !d.is_super());
    assert!(d.changed());
    assert!(!d.changed());
}

#[test]
fn vowels_on_the_right_buttons() {
    assert_eq!(loaded(report(0, A, 0, 0, (0, 0), (0, 0))).state(), ControllerState::ModableReady('a'));
    assert_eq!(loaded(report(0, X, 0, 0, (0, 0), (0, 0))).state(), ControllerState::ModableReady('e'));
    assert_eq!(loaded(report(0, Y, 0, 0, (0, 0), (0, 0))).state(), ControllerState::ModableReady('i'));
    assert_eq!(loaded(report(0, B, 0, 0, (0, 0), (0, 0))).state(), ControllerState::ModableReady('o'));
    assert_eq!(loaded(report(0, 0x02, 0, 0, (0, 0), (0, 0))).state(), ControllerState::ModableReady('u'));
    assert_eq!(loaded(report(0, 0, 0, 200, (0, 0), (0, 0))).state(), ControllerState::ModableReady('y'));
}

#[test]
fn consonants_with_the_left_stick() {
    assert_eq!(loaded(report(0, A, 0, 0, (0, 20000), (0, 0))).state(), ControllerState::ModableReady('p'));
    assert_eq!(loaded(report(0, X, 0, 0, (0, -20000), (0, 0))).state(), ControllerState::ModableReady('d'));
    assert_eq!(loaded(report(0, Y, 0, 0, (20000, 0), (0, 0))).state(), ControllerState::ModableReady('r'));
    assert_eq!(loaded(report(0, B, 0, 0, (-20000, 0), (0, 0))).state(), ControllerState::ModableReady('x'));
    assert_eq!(loaded(report(0, 0, 0, 9, (0, 32767), (0, 0))).state(), ControllerState::ModableReady('k'));
    // no letter for the right stick slid with the bumper
    assert_eq!(loaded(report(0, 0x02, 0, 0, (20000, 0), (0, 0))).state(), ControllerState::Confused);
}

#[test]
fn middle_buttons_are_macros() {
    assert_eq!(loaded(report(BACK, 0, 0, 0, (0, 0), (0, 0))).state(), ControllerState::MacroReady(Macro::Undo));
    assert_eq!(loaded(report(START, 0, 0, 0, (0, 0), (0, 0))).state(), ControllerState::MacroReady(Macro::Tab));
}

#[test]
fn right_stick_click_is_space_or_enter() {
    assert_eq!(loaded(report(R_STICK, 0, 0, 0, (0, 0), (0, 0))).state(), ControllerState::ExactReady(' '));
    assert_eq!(
        loaded(report(R_STICK, 0, 1, 0, (0, 0), (0, 0))).state(),
        ControllerState::MacroReady(Macro::Enter)
    );
}

#[test]
fn dpad_digits_and_punctuation() {
    assert_eq!(loaded(report(DPAD_DOWN, A, 0, 0, (0, 0), (0, 0))).state(), ControllerState::ModableReady('1'));
    assert_eq!(loaded(report(DPAD_DOWN, 0, 0, 255, (0, 0), (0, 0))).state(), ControllerState::ModableReady('6'));
    assert_eq!(loaded(report(0x01, B, 0, 0, (0, 0), (0, 0))).state(), ControllerState::ModableReady('0'));
    assert_eq!(loaded(report(0x01, 0x02, 0, 0, (0, 0), (0, 0))).state(), ControllerState::ExactReady('-'));
    assert_eq!(loaded(report(0x01, 0x02, 5, 0, (0, 0), (0, 0))).state(), ControllerState::ExactReady('_'));
    assert_eq!(loaded(report(DPAD_RIGHT, X, 0, 0, (0, 0), (0, 0))).state(), ControllerState::ExactReady('('));
    assert_eq!(
        loaded(report(DPAD_RIGHT, X | L_BUMPER, 0, 0, (0, 0), (0, 0))).state(),
        ControllerState::ExactReady('{')
    );
    assert_eq!(loaded(report(DPAD_RIGHT, B, 0, 0, (0, 0), (0, 0))).state(), ControllerState::ExactReady(')'));
    assert_eq!(loaded(report(DPAD_RIGHT, A, 0, 0, (0, 0), (0, 0))).state(), ControllerState::ExactReady('<'));
    assert_eq!(
        loaded(report(DPAD_RIGHT | 0x40, 0x02, 0, 0, (0, 0), (0, 0))).state(),
        ControllerState::ExactReady('~')
    );
    assert_eq!(loaded(report(DPAD_LEFT, 0, 0, 3, (0, 0), (0, 0))).state(), ControllerState::ExactReady('!'));
    // punctuation under a modifier that has no entry
    assert_eq!(loaded(report(DPAD_LEFT, A, 0, 0, (0, 0), (0, 0))).state(), ControllerState::ExactReady('.'));
    assert_eq!(loaded(report(DPAD_LEFT, A | L_BUMPER, 0, 0, (0, 0), (0, 0))).state(), ControllerState::Confused);
}

#[test]
fn right_stick_navigates_and_deletes() {
    assert_eq!(
        loaded(report(0, 0, 0, 0, (0, 0), (-20000, 0))).state(),
        ControllerState::MacroReady(Macro::CharBack)
    );
    assert_eq!(
        loaded(report(0, 0, 0, 0, (0, 0), (0, 20000))).state(),
        ControllerState::MacroReady(Macro::LineUp)
    );
    assert_eq!(
        loaded(report(DPAD_DOWN, 0, 0, 0, (0, 0), (20000, 0))).state(),
        ControllerState::MacroReady(Macro::DelCharFor)
    );
    assert_eq!(
        loaded(report(DPAD_DOWN, 0, 9, 0, (0, 0), (-20000, 0))).state(),
        ControllerState::MacroReady(Macro::DelWordBack)
    );
    assert_eq!(
        loaded(report(DPAD_DOWN, 0, 9, 0, (0, 0), (0, 20000))).state(),
        ControllerState::MacroReady(Macro::DelParUp)
    );
    assert_eq!(loaded(report(0, 0, 0, 0, (0, 0), (0, 0))).state(), ControllerState::Neutral);
}

#[test]
fn two_right_buttons_are_confused() {
    assert_eq!(loaded(report(0, A | B, 0, 0, (0, 0), (0, 0))).state(), ControllerState::Confused);
}

#[test]
fn modifiers_read_from_the_report() {
    let d = loaded(report(0x40, 0x04 | L_BUMPER, 7, 0, (0, 0), (0, 0)));
    assert!(d.is_shift());
    assert!(d.is_ctrl());
    assert!(d.is_alt());
    assert!(d.is_super());
}

#[test]
fn i_then_v_is_the_if_macro() {
    let mut d = init_controller_data();
    d.load_from_bytes(&report(0, Y, 0, 0, (0, 0), (0, 0)));
    assert_eq!(d.state(), ControllerState::ModableReady('i'));
    d.load_from_bytes(&report(0, Y, 0, 0, (0, -20000), (0, 0)));
    assert_eq!(d.last_state(), ControllerState::ModableReady('i'));
    assert_eq!(d.state(), ControllerState::MacroReady(Macro::If));
}

#[test]
fn a_change_records_the_previous_state() {
    let mut d = init_controller_data();
    assert!(d.changed());
    d.load_from_bytes(&report(0, A, 0, 0, (0, 0), (0, 0)));
    assert!(d.changed());
    assert_eq!(d.last_state(), ControllerState::Neutral);
    d.load_from_bytes(&report(0, 0, 0, 0, (0, 0), (0, 0)));
    assert!(d.changed());
    assert_eq!(d.last_state(), ControllerState::ModableReady('a'));
    assert_eq!(d.state(), ControllerState::Neutral);
}

#[test]
fn a_repeated_report_changes_nothing() {
    let mut d = init_controller_data();
    d.load_from_bytes(&report(0, X, 0, 0, (0, 0), (0, 0)));
    assert!(d.changed());
    d.load_from_bytes(&report(0, X, 0, 0, (0, 0), (0, 0)));
    assert!(!d.changed());
    assert_eq!(d.last_state(), ControllerState::Neutral);
    assert_eq!(d.state(), ControllerState::ModableReady('e'));
}

#[test]
fn stick_bytes_are_little_endian() {
    // 0x8000 little-endian is -32768: smashed down
    let mut r = report(0, A, 0, 0, (0, 0), (0, 0));
    r[8] = 0x00;
    r[9] = 0x80;
    assert_eq!(loaded(r).state(), ControllerState::ModableReady('b'));
    // 0x1770 is 6000: tilted right
    let mut r = report(0, A, 0, 0, (0, 0), (0, 0));
    r[6] = 0x70;
    r[7] = 0x17;
    assert_eq!(loaded(r).state(), ControllerState::ModableReady('h'));
}

#[test]
fn first_device_with_the_controller_id_is_picked() {
    let ids = [0x1234u16, XBOX_CONTROLLER_ID, 7, XBOX_CONTROLLER_ID];
    assert_eq!(get_device_at_address(XBOX_CONTROLLER_ID, &ids), Some(1));
    assert_eq!(get_device_at_address(7, &ids), Some(2));
}

#[test]
fn no_device_with_the_controller_id_is_none() {
    assert_eq!(get_device_at_address(XBOX_CONTROLLER_ID, &[1u16, 2, 3]), None);
    assert_eq!(get_device_at_address(XBOX_CONTROLLER_ID, &[]), None);
}

#[test]
fn right_stick_ignores_right_hand_buttons() {
    let plain = loaded(report(0, 0, 0, 0, (0, 0), (-20000, 0)));
    assert_eq!(plain.state(), ControllerState::MacroReady(Macro::CharBack));
    let with_buttons = loaded(report(BACK, A | Y, 0, 255, (0, 0), (-20000, 0)));
    assert_eq!(with_buttons.state(), ControllerState::MacroReady(Macro::CharBack));
}

#[test]
fn two_right_hand_buttons_confuse() {
    assert_eq!(loaded(report(0, A | B, 0, 0, (0, 0), (0, 0))).state(), ControllerState::Confused);
    assert_eq!(loaded(report(START, X, 0, 0, (0, 0), (0, 0))).state(), ControllerState::Confused);
}

#[test]
fn dpad_and_left_stick_alone_are_rest() {
    let d = loaded(report(DPAD_DOWN | DPAD_LEFT, L_BUMPER, 200, 0, (20000, 0), (100, -100)));
    assert_eq!(d.state(), ControllerState::Neutral);
}
