use xkey::xkey::xboxcontroller::{ControllerState, Macro};
use xkey::xkey::{init_xkey, macro_parts, Key, KeyAction, OutPart, XKey};

fn report(b2: u8, b3: u8, lt: u8, right: (i16, i16)) -> [u8; 20] {
    let mut r = [0u8; 20];
    r[2] = b2;
    r[3] = b3;
    r[4] = lt;
    r[10..12].copy_from_slice(&right.0.to_le_bytes());
    r[12..14].copy_from_slice(&right.1.to_le_bytes());
    r
}

fn releases() -> Vec<KeyAction> {
    vec![
        KeyAction::Up(Key::Shift),
        KeyAction::Up(Key::Control),
        KeyAction::Up(Key::Alt),
        KeyAction::Up(Key::Super),
    ]
}

fn rest() -> [u8; 20] {
    report(0, 0, 0, (0, 0))
}

/// An `XKey` that has already taken the first report at rest.
fn settled() -> XKey {
    let mut x = init_xkey();
    let first = x.process_report(&rest());
    assert_eq!(first, releases());
    x
}

#[test]
fn first_report_at_rest_only_releases_modifiers() {
    let mut x = init_xkey();
    assert_eq!(x.process_report(&rest()), releases());
    assert_eq!(x.process_report(&rest()), vec![]);
}

#[test]
fn a_letter_is_typed_on_release() {
    let mut x = settled();
    assert_eq!(x.process_report(&report(0, 0x10, 0, (0, 0))), vec![]);
    assert_eq!(x.controller_state(), ControllerState::ModableReady('a'));
    let mut expected = vec![KeyAction::Type('a')];
    expected.extend(releases());
    expected.extend(releases());
    assert_eq!(x.process_report(&rest()), expected);
    assert_eq!(x.controller_state(), ControllerState::Neutral);
}

#[test]
fn held_modifiers_apply_to_a_modable_letter() {
    let mut x = settled();
    x.process_report(&report(0x40, 0x10 | 0x01, 200, (0, 0)));
    // the letter is released while shift, ctrl and alt stay held
    let out = x.process_report(&report(0x40, 0x01, 200, (0, 0)));
    let mut expected = vec![
        KeyAction::Down(Key::Shift),
        KeyAction::Down(Key::Control),
        KeyAction::Down(Key::Alt),
        KeyAction::Type('a'),
    ];
    expected.extend(releases());
    expected.extend(releases());
    assert_eq!(out, expected);
}

#[test]
fn holding_a_chord_types_nothing_more() {
    let mut x = settled();
    assert_eq!(x.process_report(&report(0, 0x20, 0, (0, 0))), vec![]);
    assert_eq!(x.process_report(&report(0, 0x20, 0, (0, 0))), vec![]);
    assert_eq!(x.process_report(&report(0, 0x20, 0, (0, 0))), vec![]);
    assert_eq!(x.process_report(&rest()).first(), Some(&KeyAction::Type('o')));
}

#[test]
fn a_macro_is_played_on_release() {
    let mut x = settled();
    x.process_report(&report(0, 0, 0, (-20000, 0)));
    let mut expected = vec![KeyAction::Click(Key::LeftArrow)];
    expected.extend(releases());
    assert_eq!(x.process_report(&rest()), expected);
}

#[test]
fn undo_macro_output() {
    let mut x = settled();
    x.process_report(&report(0x20, 0, 0, (0, 0)));
    let mut expected = vec![
        KeyAction::Down(Key::Control),
        KeyAction::Type('x'),
        KeyAction::Up(Key::Control),
        KeyAction::Type('u'),
    ];
    expected.extend(releases());
    assert_eq!(x.process_report(&rest()), expected);
}

#[test]
fn exact_braces_are_shifted_brackets() {
    let x = init_xkey();
    let mut expected = vec![
        KeyAction::Down(Key::Shift),
        KeyAction::Type(']'),
        KeyAction::Up(Key::Shift),
    ];
    expected.extend(releases());
    assert_eq!(x.execute_output(ControllerState::ExactReady('}')), expected);
    assert_eq!(
        XKey::execute_char('{'),
        vec![KeyAction::Down(Key::Shift), KeyAction::Type('['), KeyAction::Up(Key::Shift)]
    );
    assert_eq!(XKey::execute_char('\n'), vec![KeyAction::Click(Key::Return)]);
    assert_eq!(XKey::execute_char('q'), vec![KeyAction::Type('q')]);
}

#[test]
fn neutral_and_confused_output_only_releases() {
    let x = init_xkey();
    assert_eq!(x.execute_output(ControllerState::Neutral), releases());
    assert_eq!(x.execute_output(ControllerState::Confused), releases());
}

#[test]
fn strings_are_typed_character_by_character() {
    assert_eq!(
        XKey::execute_string("if {\n}"),
        vec![
            KeyAction::Type('i'),
            KeyAction::Type('f'),
            KeyAction::Type(' '),
            KeyAction::Down(Key::Shift),
            KeyAction::Type('['),
            KeyAction::Up(Key::Shift),
            KeyAction::Click(Key::Return),
            KeyAction::Down(Key::Shift),
            KeyAction::Type(']'),
            KeyAction::Up(Key::Shift),
        ]
    );
    assert_eq!(XKey::execute_string(""), vec![]);
}

#[test]
fn macro_parts_are_played_in_order() {
    let parts = vec![
        OutPart::ModifierDown(Key::Alt),
        OutPart::KeySequence("b".to_string()),
        OutPart::ModifierUp(Key::Alt),
        OutPart::SpecialKey(Key::Tab),
    ];
    assert_eq!(
        XKey::execute_macro(parts),
        vec![
            KeyAction::Down(Key::Alt),
            KeyAction::Type('b'),
            KeyAction::Up(Key::Alt),
            KeyAction::Click(Key::Tab),
        ]
    );
}

#[test]
fn macro_table_entries() {
    assert!(macro_parts(Macro::Fn).is_none());
    assert!(macro_parts(Macro::Match).is_none());
    let if_parts = macro_parts(Macro::If).unwrap();
    assert_eq!(if_parts.len(), 9);
    match &if_parts[0] {
        OutPart::KeySequence(s) => assert_eq!(s, "if  {\n\n}"),
        _ => panic!("the if macro starts with its text"),
    }
    assert_eq!(macro_parts(Macro::DelParUp).unwrap().len(), 8);
    assert_eq!(macro_parts(Macro::WordFor).unwrap().len(), 2);
}

#[test]
fn if_macro_output() {
    let x = init_xkey();
    let out = x.execute_output(ControllerState::MacroReady(Macro::If));
    let mut expected = XKey::execute_string("if  {\n\n}");
    expected.extend(vec![
        KeyAction::Down(Key::Control),
        KeyAction::Type('p'),
        KeyAction::Type('p'),
        KeyAction::Type('a'),
        KeyAction::Up(Key::Control),
        KeyAction::Down(Key::Alt),
        KeyAction::Type('f'),
        KeyAction::Up(Key::Alt),
        KeyAction::Down(Key::Control),
        KeyAction::Type('f'),
    ]);
    expected.extend(releases());
    assert_eq!(out, expected);
}

#[test]
fn every_output_ends_by_releasing_modifiers() {
    let x = init_xkey();
    for s in [
        ControllerState::MacroReady(Macro::DelParUp),
        ControllerState::ExactReady('x'),
        ControllerState::ModableReady('z'),
        ControllerState::MacroReady(Macro::Enter),
    ] {
        let out = x.execute_output(s);
        assert_eq!(out[out.len() - 4..].to_vec(), releases());
    }
}

#[test]
fn word_motion_macros_play_from_the_table() {
    let x = init_xkey();
    for (m, c) in [
        (Macro::WordFor, 'f'),
        (Macro::WordBack, 'b'),
        (Macro::ParDown, 'n'),
        (Macro::ParUp, 'p'),
    ] {
        let mut expected = vec![KeyAction::Down(Key::Alt), KeyAction::Type(c)];
        expected.extend(releases());
        assert_eq!(x.execute_output(ControllerState::MacroReady(m)), expected);
    }
}

#[test]
fn a_run_of_reports_types_only_on_return_to_rest() {
    let mut x = settled();
    // hold `e` (X button), then add a second right-hand button: confused
    assert_eq!(x.process_report(&report(0, 0x40, 0, (0, 0))), vec![]);
    assert_eq!(x.process_report(&report(0, 0x40 | 0x20, 0, (0, 0))), vec![]);
    assert_eq!(x.controller_state(), ControllerState::Confused);
    // back to rest from confused: only the releases
    assert_eq!(x.process_report(&rest()), releases());
    // rest again: nothing at all
    assert_eq!(x.process_report(&rest()), vec![]);
    // the right stick to the left, then back: one step back
    assert_eq!(x.process_report(&report(0, 0, 0, (-20000, 0))), vec![]);
    let mut expected = vec![KeyAction::Click(Key::LeftArrow)];
    expected.extend(releases());
    assert_eq!(x.process_report(&rest()), expected);
}
