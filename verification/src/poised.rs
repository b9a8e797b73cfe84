//! A simpler layout for the controller: the held buttons select one
//! character, which is typed once the controller comes back to rest.

use vstd::prelude::*;

verus! {

/// Distance from the centre below which the joystick counts as untouched.
pub const TILT_THRESHHOLD: i16 = 6000;

/// Distance from the centre beyond which the joystick counts as pushed all the way.
pub const SMASH_THRESHHOLD: i16 = 31000;

/// The magnitude measure that classifies joystick directions: `x` for
/// `x >= 0`, and `-x - 1` below zero.
pub open spec fn spec_abs(x: int) -> int {
    if x < 0 { -x - 1 } else { x }
}

fn abs(x: i16) -> (r: i16)
    ensures
        r == spec_abs(x as int),
{
    if x < 0 {
        -1 * (x + 1)
    } else {
        x
    }
}

/// Where a joystick points.
#[derive(Debug, Clone, Copy, PartialEq, Eq, Structural)]
pub enum JoyStickState {
    Neutral,
    /// `true` when pushed all the way (smashed), `false` when only tilted.
    Left(bool),
    Right(bool),
    Up(bool),
    Down(bool),
}

/// The position of one joystick.
#[derive(Debug, Clone, Copy, PartialEq, Eq, Structural)]
pub struct JoyStickData {
    pub x_pos: i16,
    pub y_pos: i16,
}

/// The direction that a joystick at `(x, y)` points to.
pub open spec fn joystick_state_of(x: i16, y: i16) -> JoyStickState {
    if -TILT_THRESHHOLD < x < TILT_THRESHHOLD && -TILT_THRESHHOLD < y < TILT_THRESHHOLD {
        JoyStickState::Neutral
    } else if spec_abs(x as int) >= spec_abs(y as int) {
        if x > 0 {
            JoyStickState::Right(x > SMASH_THRESHHOLD)
        } else {
            JoyStickState::Left(x < -SMASH_THRESHHOLD)
        }
    } else if y > 0 {
        JoyStickState::Up(y > SMASH_THRESHHOLD)
    } else {
        JoyStickState::Down(y < -SMASH_THRESHHOLD)
    }
}

impl JoyStickData {
    /// Classifies the joystick position; every position gets a direction.
    pub fn state(&self) -> (r: JoyStickState)
        ensures
            r == joystick_state_of(self.x_pos, self.y_pos),
    {
        let x = self.x_pos;
        let y = self.y_pos;
        if x < TILT_THRESHHOLD && x > -1 * TILT_THRESHHOLD && y < TILT_THRESHHOLD && y > -1
            * TILT_THRESHHOLD {
            JoyStickState::Neutral
        } else if abs(x) >= abs(y) {
            if x > 0 {
                JoyStickState::Right(x > SMASH_THRESHHOLD)
            } else {
                JoyStickState::Left(x < -1 * SMASH_THRESHHOLD)
            }
        } else {
            if y > 0 {
                JoyStickState::Up(y > SMASH_THRESHHOLD)
            } else {
                JoyStickState::Down(y < -1 * SMASH_THRESHHOLD)
            }
        }
    }
}

/// How far a trigger is pressed.
#[derive(Debug, Clone, Copy, PartialEq, Eq, Structural)]
pub enum TriggerState {
    Neutral,
    /// `true` when squeezed all the way down, `false` when partially pressed.
    Pressed(bool),
}

/// The position of one trigger, from 0 (released) to 255 (fully pressed).
#[derive(Debug, Clone, Copy, PartialEq, Eq, Structural)]
pub struct TriggerData {
    pub pos: u8,
}

pub open spec fn trigger_state_of(pos: u8) -> TriggerState {
    if pos == 0 {
        TriggerState::Neutral
    } else {
        TriggerState::Pressed(pos == 255)
    }
}

impl TriggerData {
    pub fn state(&self) -> (r: TriggerState)
        ensures
            r == trigger_state_of(self.pos),
    {
        match self.pos {
            0 => TriggerState::Neutral,
            255 => TriggerState::Pressed(true),
            _ => TriggerState::Pressed(false),
        }
    }
}

/// What the controller is poised to type.
#[derive(Debug, PartialEq, Eq, Structural)]
pub enum ControllerState {
    Confused,
    Neutral,
    PoisedChar(char),
}

impl ControllerState {
    /// A copy of this state.
    pub fn copy(&self) -> (r: ControllerState)
        ensures
            r == *self,
    {
        match self {
            ControllerState::Confused => ControllerState::Confused,
            ControllerState::Neutral => ControllerState::Neutral,
            ControllerState::PoisedChar(c) => ControllerState::PoisedChar(*c),
        }
    }
}

/// The digits and punctuation: one arrow of the direction pad with one
/// right-hand button (`t` is the right trigger, pressed at all).
pub open spec fn dpad_chord(
    dd: bool,
    dl: bool,
    du: bool,
    dr: bool,
    a: bool,
    x: bool,
    y: bool,
    b: bool,
    rb: bool,
    t: bool,
) -> Option<ControllerState> {
    match (dd, dl, du, dr, a, x, y, b, rb, t) {
        (true, false, false, false, true, false, false, false, false, false) => Some(ControllerState::PoisedChar('1')),
        (true, false, false, false, false, true, false, false, false, false) => Some(ControllerState::PoisedChar('2')),
        (true, false, false, false, false, false, true, false, false, false) => Some(ControllerState::PoisedChar('3')),
        (true, false, false, false, false, false, false, true, false, false) => Some(ControllerState::PoisedChar('4')),
        (true, false, false, false, false, false, false, false, true, false) => Some(ControllerState::PoisedChar('5')),
        (true, false, false, false, false, false, false, false, false, true) => Some(ControllerState::PoisedChar('6')),
        (false, false, true, false, true, false, false, false, false, false) => Some(ControllerState::PoisedChar('7')),
        (false, false, true, false, false, true, false, false, false, false) => Some(ControllerState::PoisedChar('8')),
        (false, false, true, false, false, false, true, false, false, false) => Some(ControllerState::PoisedChar('9')),
        (false, false, true, false, false, false, false, true, false, false) => Some(ControllerState::PoisedChar('0')),
        (false, false, true, false, false, false, false, false, true, false) => Some(ControllerState::PoisedChar('-')),
        (false, false, true, false, false, false, false, false, false, true) => Some(ControllerState::PoisedChar('=')),
        (false, true, false, false, true, false, false, false, false, false) => Some(ControllerState::PoisedChar('[')),
        (false, true, false, false, false, true, false, false, false, false) => Some(ControllerState::PoisedChar('(')),
        (false, true, false, false, false, false, true, false, false, false) => Some(ControllerState::PoisedChar(']')),
        (false, true, false, false, false, false, false, true, false, false) => Some(ControllerState::PoisedChar(')')),
        (false, false, false, true, true, false, false, false, false, false) => Some(ControllerState::PoisedChar(';')),
        (false, false, false, true, false, true, false, false, false, false) => Some(ControllerState::PoisedChar(',')),
        (false, false, false, true, false, false, true, false, false, false) => Some(ControllerState::PoisedChar('\'')),
        (false, false, false, true, false, false, false, true, false, false) => Some(ControllerState::PoisedChar('.')),
        (false, false, false, true, false, false, false, false, true, false) => Some(ControllerState::PoisedChar('/')),
        (false, false, false, true, false, false, false, false, false, true) => Some(ControllerState::PoisedChar('\\')),
        _ => None,
    }
}

/// The letters: the left joystick with one right-hand button; with no
/// right-hand button, a click of the right stick is a space.
pub open spec fn letter_chord(
    ls: JoyStickState,
    a: bool,
    x: bool,
    y: bool,
    b: bool,
    rb: bool,
    t: bool,
    r_stick: bool,
) -> ControllerState {
    match (ls, a, x, y, b, rb, t) {
        (_, false, false, false, false, false, false) => if r_stick {
            ControllerState::PoisedChar(' ')
        } else {
            ControllerState::Neutral
        },
        (JoyStickState::Neutral, true, false, false, false, false, false) => ControllerState::PoisedChar('a'),
        (JoyStickState::Neutral, false, true, false, false, false, false) => ControllerState::PoisedChar('e'),
        (JoyStickState::Neutral, false, false, true, false, false, false) => ControllerState::PoisedChar('i'),
        (JoyStickState::Neutral, false, false, false, true, false, false) => ControllerState::PoisedChar('o'),
        (JoyStickState::Neutral, false, false, false, false, true, false) => ControllerState::PoisedChar('u'),
        (JoyStickState::Neutral, false, false, false, false, false, true) => ControllerState::PoisedChar('y'),
        (JoyStickState::Up(_), true, false, false, false, false, false) => ControllerState::PoisedChar('p'),
        (JoyStickState::Up(_), false, true, false, false, false, false) => ControllerState::PoisedChar('t'),
        (JoyStickState::Up(_), false, false, true, false, false, false) => ControllerState::PoisedChar('f'),
        (JoyStickState::Up(_), false, false, false, true, false, false) => ControllerState::PoisedChar('s'),
        (JoyStickState::Up(_), false, false, false, false, true, false) => ControllerState::PoisedChar('c'),
        (JoyStickState::Up(_), false, false, false, false, false, true) => ControllerState::PoisedChar('k'),
        (JoyStickState::Down(_), true, false, false, false, false, false) => ControllerState::PoisedChar('b'),
        (JoyStickState::Down(_), false, true, false, false, false, false) => ControllerState::PoisedChar('d'),
        (JoyStickState::Down(_), false, false, true, false, false, false) => ControllerState::PoisedChar('v'),
        (JoyStickState::Down(_), false, false, false, true, false, false) => ControllerState::PoisedChar('z'),
        (JoyStickState::Down(_), false, false, false, false, true, false) => ControllerState::PoisedChar('g'),
        (JoyStickState::Down(_), false, false, false, false, false, true) => ControllerState::PoisedChar('j'),
        (JoyStickState::Right(_), true, false, false, false, false, false) => ControllerState::PoisedChar('h'),
        (JoyStickState::Right(_), false, true, false, false, false, false) => ControllerState::PoisedChar('l'),
        (JoyStickState::Right(_), false, false, true, false, false, false) => ControllerState::PoisedChar('r'),
        (JoyStickState::Right(_), false, false, false, true, false, false) => ControllerState::PoisedChar('w'),
        (JoyStickState::Left(_), true, false, false, false, false, false) => ControllerState::PoisedChar('m'),
        (JoyStickState::Left(_), false, true, false, false, false, false) => ControllerState::PoisedChar('n'),
        (JoyStickState::Left(_), false, false, true, false, false, false) => ControllerState::PoisedChar('q'),
        (JoyStickState::Left(_), false, false, false, true, false, false) => ControllerState::PoisedChar('x'),
        _ => ControllerState::Confused,
    }
}

/// Everything that a `ControllerData` holds, as plain values.
pub struct ControllerView {
    pub button_xbox: bool,
    pub button_back: bool,
    pub button_start: bool,
    pub button_a: bool,
    pub button_b: bool,
    pub button_x: bool,
    pub button_y: bool,
    pub button_dpad_left: bool,
    pub button_dpad_right: bool,
    pub button_dpad_up: bool,
    pub button_dpad_down: bool,
    pub button_l_bumper: bool,
    pub button_r_bumper: bool,
    pub button_l_stick: bool,
    pub button_r_stick: bool,
    pub trigger_l: TriggerData,
    pub trigger_r: TriggerData,
    pub joystick_l: JoyStickData,
    pub joystick_r: JoyStickData,
    /// Set by every report; cleared by `changed`.
    pub changed: bool,
}

/// The signed 16-bit value stored little-endian in `lo`, `hi`.
pub open spec fn le_i16(lo: u8, hi: u8) -> int {
    lo as int + 256 * (hi as int) - if hi >= 128 { 65536int } else { 0int }
}

impl ControllerView {
    /// The character that the held buttons select.
    pub open spec fn state(self) -> ControllerState {
        let t = self.trigger_r.pos != 0;
        match dpad_chord(
            self.button_dpad_down,
            self.button_dpad_left,
            self.button_dpad_up,
            self.button_dpad_right,
            self.button_a,
            self.button_x,
            self.button_y,
            self.button_b,
            self.button_r_bumper,
            t,
        ) {
            Some(s) => s,
            None => letter_chord(
                joystick_state_of(self.joystick_l.x_pos, self.joystick_l.y_pos),
                self.button_a,
                self.button_x,
                self.button_y,
                self.button_b,
                self.button_r_bumper,
                t,
                self.button_r_stick,
            ),
        }
    }

    /// The view after the input report `b` has been loaded. Bit 2 of byte 3
    /// is read into the start button, after bit 4 of byte 2 was; the xbox
    /// button keeps its value.
    pub open spec fn after_report(self, b: Seq<u8>) -> ControllerView {
        ControllerView {
            button_xbox: self.button_xbox,
            button_r_stick: 0x80u8 & b[2] != 0,
            button_l_stick: 0x40u8 & b[2] != 0,
            button_back: 0x20u8 & b[2] != 0,
            button_dpad_right: 0x08u8 & b[2] != 0,
            button_dpad_left: 0x04u8 & b[2] != 0,
            button_dpad_down: 0x02u8 & b[2] != 0,
            button_dpad_up: 0x01u8 & b[2] != 0,
            button_y: 0x80u8 & b[3] != 0,
            button_x: 0x40u8 & b[3] != 0,
            button_b: 0x20u8 & b[3] != 0,
            button_a: 0x10u8 & b[3] != 0,
            button_start: 0x04u8 & b[3] != 0,
            button_r_bumper: 0x02u8 & b[3] != 0,
            button_l_bumper: 0x01u8 & b[3] != 0,
            trigger_l: TriggerData { pos: b[4] },
            trigger_r: TriggerData { pos: b[5] },
            joystick_l: JoyStickData { x_pos: le_i16(b[6], b[7]) as i16, y_pos: le_i16(b[8], b[9]) as i16 },
            joystick_r: JoyStickData { x_pos: le_i16(b[10], b[11]) as i16, y_pos: le_i16(b[12], b[13]) as i16 },
            changed: true,
        }
    }
}

/// The view of a freshly initialised controller: nothing held, marked as changed.
pub open spec fn initial_view() -> ControllerView {
    ControllerView {
        button_xbox: false,
        button_back: false,
        button_start: false,
        button_a: false,
        button_b: false,
        button_x: false,
        button_y: false,
        button_dpad_left: false,
        button_dpad_right: false,
        button_dpad_up: false,
        button_dpad_down: false,
        button_l_bumper: false,
        button_r_bumper: false,
        button_l_stick: false,
        button_r_stick: false,
        trigger_l: TriggerData { pos: 0 },
        trigger_r: TriggerData { pos: 0 },
        joystick_l: JoyStickData { x_pos: 0, y_pos: 0 },
        joystick_r: JoyStickData { x_pos: 0, y_pos: 0 },
        changed: true,
    }
}

/// The decoded input of an Xbox 360 controller.
pub struct ControllerData {
    button_xbox: bool,
    button_back: bool,
    button_start: bool,
    button_a: bool,
    button_b: bool,
    button_x: bool,
    button_y: bool,
    button_dpad_left: bool,
    button_dpad_right: bool,
    button_dpad_up: bool,
    button_dpad_down: bool,
    button_l_bumper: bool,
    button_r_bumper: bool,
    button_l_stick: bool,
    button_r_stick: bool,
    trigger_l: TriggerData,
    trigger_r: TriggerData,
    joystick_l: JoyStickData,
    joystick_r: JoyStickData,
    changed: bool,
}

impl View for ControllerData {
    type V = ControllerView;

    closed spec fn view(&self) -> ControllerView {
        ControllerView {
            button_xbox: self.button_xbox,
            button_back: self.button_back,
            button_start: self.button_start,
            button_a: self.button_a,
            button_b: self.button_b,
            button_x: self.button_x,
            button_y: self.button_y,
            button_dpad_left: self.button_dpad_left,
            button_dpad_right: self.button_dpad_right,
            button_dpad_up: self.button_dpad_up,
            button_dpad_down: self.button_dpad_down,
            button_l_bumper: self.button_l_bumper,
            button_r_bumper: self.button_r_bumper,
            button_l_stick: self.button_l_stick,
            button_r_stick: self.button_r_stick,
            trigger_l: self.trigger_l,
            trigger_r: self.trigger_r,
            joystick_l: self.joystick_l,
            joystick_r: self.joystick_r,
            changed: self.changed,
        }
    }
}

/// Decodes the signed little-endian 16-bit value in `lo`, `hi`.
fn decode_axis(lo: u8, hi: u8) -> (r: i16)
    ensures
        r as int == le_i16(lo, hi),
{
    if hi < 128 {
        (hi as i16) * 256 + (lo as i16)
    } else {
        ((hi as i16) - 256) * 256 + (lo as i16)
    }
}

/// `String::from` on a `char`: std documents that it makes a `String` that
/// holds exactly that character.
#[verifier::external_body]
fn char_to_string(c: char) -> (s: String)
    ensures
        s@ == seq![c],
{
    String::from(c)
}

/// The text typed when the controller goes from `last_state` to
/// `new_state`: the poised character, once the controller is back at rest.
pub open spec fn output_of(last_state: ControllerState, new_state: ControllerState) -> Option<Seq<char>> {
    match (last_state, new_state) {
        (ControllerState::PoisedChar(c), ControllerState::Neutral) => Some(seq![c]),
        _ => None,
    }
}

/// A controller with nothing held, marked as changed.
pub fn init_controller_data() -> (r: ControllerData)
    ensures
        r@ == initial_view(),
{
    ControllerData {
        button_xbox: false,
        button_back: false,
        button_start: false,
        button_a: false,
        button_b: false,
        button_x: false,
        button_y: false,
        button_dpad_left: false,
        button_dpad_right: false,
        button_dpad_up: false,
        button_dpad_down: false,
        button_l_bumper: false,
        button_r_bumper: false,
        button_l_stick: false,
        button_r_stick: false,
        trigger_l: TriggerData { pos: 0 },
        trigger_r: TriggerData { pos: 0 },
        joystick_l: JoyStickData { x_pos: 0, y_pos: 0 },
        joystick_r: JoyStickData { x_pos: 0, y_pos: 0 },
        changed: true,
    }
}

impl ControllerData {
    /// The character that the held buttons select.
    pub fn state(&self) -> (r: ControllerState)
        ensures
            r == self@.state(),
    {
        match (
            self.button_dpad_down,
            self.button_dpad_left,
            self.button_dpad_up,
            self.button_dpad_right,
            self.button_a,
            self.button_x,
            self.button_y,
            self.button_b,
            self.button_r_bumper,
            self.trigger_r.state(),
        ) {
            (true, false, false, false, true, false, false, false, false, TriggerState::Neutral) => return ControllerState::PoisedChar('1'),
            (true, false, false, false, false, true, false, false, false, TriggerState::Neutral) => return ControllerState::PoisedChar('2'),
            (true, false, false, false, false, false, true, false, false, TriggerState::Neutral) => return ControllerState::PoisedChar('3'),
            (true, false, false, false, false, false, false, true, false, TriggerState::Neutral) => return ControllerState::PoisedChar('4'),
            (true, false, false, false, false, false, false, false, true, TriggerState::Neutral) => return ControllerState::PoisedChar('5'),
            (true, false, false, false, false, false, false, false, false, TriggerState::Pressed(_)) => return ControllerState::PoisedChar('6'),
            (false, false, true, false, true, false, false, false, false, TriggerState::Neutral) => return ControllerState::PoisedChar('7'),
            (false, false, true, false, false, true, false, false, false, TriggerState::Neutral) => return ControllerState::PoisedChar('8'),
            (false, false, true, false, false, false, true, false, false, TriggerState::Neutral) => return ControllerState::PoisedChar('9'),
            (false, false, true, false, false, false, false, true, false, TriggerState::Neutral) => return ControllerState::PoisedChar('0'),
            (false, false, true, false, false, false, false, false, true, TriggerState::Neutral) => return ControllerState::PoisedChar('-'),
            (false, false, true, false, false, false, false, false, false, TriggerState::Pressed(_)) => return ControllerState::PoisedChar('='),
            (false, true, false, false, true, false, false, false, false, TriggerState::Neutral) => return ControllerState::PoisedChar('['),
            (false, true, false, false, false, true, false, false, false, TriggerState::Neutral) => return ControllerState::PoisedChar('('),
            (false, true, false, false, false, false, true, false, false, TriggerState::Neutral) => return ControllerState::PoisedChar(']'),
            (false, true, false, false, false, false, false, true, false, TriggerState::Neutral) => return ControllerState::PoisedChar(')'),
            (false, false, false, true, true, false, false, false, false, TriggerState::Neutral) => return ControllerState::PoisedChar(';'),
            (false, false, false, true, false, true, false, false, false, TriggerState::Neutral) => return ControllerState::PoisedChar(','),
            (false, false, false, true, false, false, true, false, false, TriggerState::Neutral) => return ControllerState::PoisedChar('\''),
            (false, false, false, true, false, false, false, true, false, TriggerState::Neutral) => return ControllerState::PoisedChar('.'),
            (false, false, false, true, false, false, false, false, true, TriggerState::Neutral) => return ControllerState::PoisedChar('/'),
            (false, false, false, true, false, false, false, false, false, TriggerState::Pressed(_)) => return ControllerState::PoisedChar('\\'),
            _ => {},
        }
        match (
            self.joystick_l.state(),
            self.button_a,
            self.button_x,
            self.button_y,
            self.button_b,
            self.button_r_bumper,
            self.trigger_r.state(),
        ) {
            // no character chosen
            (_, false, false, false, false, false, TriggerState::Neutral) => {
                if self.button_r_stick {
                    return ControllerState::PoisedChar(' ');
                }
                return ControllerState::Neutral;
            },
            (JoyStickState::Neutral, true, false, false, false, false, TriggerState::Neutral) => return ControllerState::PoisedChar('a'),
            (JoyStickState::Neutral, false, true, false, false, false, TriggerState::Neutral) => return ControllerState::PoisedChar('e'),
            (JoyStickState::Neutral, false, false, true, false, false, TriggerState::Neutral) => return ControllerState::PoisedChar('i'),
            (JoyStickState::Neutral, false, false, false, true, false, TriggerState::Neutral) => return ControllerState::PoisedChar('o'),
            (JoyStickState::Neutral, false, false, false, false, true, TriggerState::Neutral) => return ControllerState::PoisedChar('u'),
            (JoyStickState::Neutral, false, false, false, false, false, TriggerState::Pressed(_)) => return ControllerState::PoisedChar('y'),
            (JoyStickState::Up(_), true, false, false, false, false, TriggerState::Neutral) => return ControllerState::PoisedChar('p'),
            (JoyStickState::Up(_), false, true, false, false, false, TriggerState::Neutral) => return ControllerState::PoisedChar('t'),
            (JoyStickState::Up(_), false, false, true, false, false, TriggerState::Neutral) => return ControllerState::PoisedChar('f'),
            (JoyStickState::Up(_), false, false, false, true, false, TriggerState::Neutral) => return ControllerState::PoisedChar('s'),
            (JoyStickState::Up(_), false, false, false, false, true, TriggerState::Neutral) => return ControllerState::PoisedChar('c'),
            (JoyStickState::Up(_), false, false, false, false, false, TriggerState::Pressed(_)) => return ControllerState::PoisedChar('k'),
            (JoyStickState::Down(_), true, false, false, false, false, TriggerState::Neutral) => return ControllerState::PoisedChar('b'),
            (JoyStickState::Down(_), false, true, false, false, false, TriggerState::Neutral) => return ControllerState::PoisedChar('d'),
            (JoyStickState::Down(_), false, false, true, false, false, TriggerState::Neutral) => return ControllerState::PoisedChar('v'),
            (JoyStickState::Down(_), false, false, false, true, false, TriggerState::Neutral) => return ControllerState::PoisedChar('z'),
            (JoyStickState::Down(_), false, false, false, false, true, TriggerState::Neutral) => return ControllerState::PoisedChar('g'),
            (JoyStickState::Down(_), false, false, false, false, false, TriggerState::Pressed(_)) => return ControllerState::PoisedChar('j'),
            (JoyStickState::Right(_), true, false, false, false, false, TriggerState::Neutral) => return ControllerState::PoisedChar('h'),
            (JoyStickState::Right(_), false, true, false, false, false, TriggerState::Neutral) => return ControllerState::PoisedChar('l'),
            (JoyStickState::Right(_), false, false, true, false, false, TriggerState::Neutral) => return ControllerState::PoisedChar('r'),
            (JoyStickState::Right(_), false, false, false, true, false, TriggerState::Neutral) => return ControllerState::PoisedChar('w'),
            (JoyStickState::Left(_), true, false, false, false, false, TriggerState::Neutral) => return ControllerState::PoisedChar('m'),
            (JoyStickState::Left(_), false, true, false, false, false, TriggerState::Neutral) => return ControllerState::PoisedChar('n'),
            (JoyStickState::Left(_), false, false, true, false, false, TriggerState::Neutral) => return ControllerState::PoisedChar('q'),
            (JoyStickState::Left(_), false, false, false, true, false, TriggerState::Neutral) => return ControllerState::PoisedChar('x'),
            _ => return ControllerState::Confused,
        }
    }

    /// Shift is held: the left trigger is pressed at all.
    pub fn is_shift(&self) -> (r: bool)
        ensures
            r == (self@.trigger_l.pos != 0),
    {
        if let TriggerState::Pressed(_) = self.trigger_l.state() {
            return true;
        }
        false
    }

    /// Ctrl is held: the left bumper.
    pub fn is_ctrl(&self) -> (r: bool)
        ensures
            r == self@.button_l_bumper,
    {
        self.button_l_bumper
    }

    /// Alt is held: the left stick is clicked.
    pub fn is_alt(&self) -> (r: bool)
        ensures
            r == self@.button_l_stick,
    {
        self.button_l_stick
    }

    /// Reports whether a report came since the last call, and clears the mark.
    pub fn changed(&mut self) -> (r: bool)
        ensures
            r == old(self)@.changed,
            final(self)@ == (ControllerView { changed: false, ..old(self)@ }),
    {
        if self.changed {
            self.changed = false;
            return true;
        }
        false
    }

    /// The text to type for going from `last_state` to `new_state`: the
    /// poised character when the controller comes back to rest, else nothing.
    pub fn get_output(&self, last_state: &ControllerState, new_state: &ControllerState) -> (r: Option<String>)
        ensures
            r is Some <==> output_of(*last_state, *new_state) is Some,
            r matches Some(s) ==> s@ == output_of(*last_state, *new_state).unwrap(),
    {
        if let ControllerState::PoisedChar(c) = last_state {
            if let ControllerState::Neutral = new_state {
                return Some(char_to_string(*c));
            }
        }
        None
    }

    /// Loads an input report (at least 14 bytes: buttons in bytes 2 and 3,
    /// triggers in 4 and 5, sticks in 6 to 13) and marks the change.
    pub fn load_from_bytes(&mut self, buf: &[u8])
        requires
            buf@.len() >= 14,
        ensures
            final(self)@ == old(self)@.after_report(buf@),
    {
        // byte 2
        self.button_r_stick = 0b10000000 & buf[2] != 0;
        self.button_l_stick = 0b01000000 & buf[2] != 0;
        self.button_back = 0b00100000 & buf[2] != 0;
        self.button_start = 0b00010000 & buf[2] != 0;
        self.button_dpad_right = 0b00001000 & buf[2] != 0;
        self.button_dpad_left = 0b00000100 & buf[2] != 0;
        self.button_dpad_down = 0b00000010 & buf[2] != 0;
        self.button_dpad_up = 0b00000001 & buf[2] != 0;
        // byte 3 (bit 0b00001000 carries no button)
        self.button_y = 0b10000000 & buf[3] != 0;
        self.button_x = 0b01000000 & buf[3] != 0;
        self.button_b = 0b00100000 & buf[3] != 0;
        self.button_a = 0b00010000 & buf[3] != 0;
        self.button_start = 0b00000100 & buf[3] != 0;
        self.button_r_bumper = 0b00000010 & buf[3] != 0;
        self.button_l_bumper = 0b00000001 & buf[3] != 0;
        // bytes 4 and 5
        self.trigger_l.pos = buf[4];
        self.trigger_r.pos = buf[5];
        // bytes 6 to 9
        self.joystick_l.x_pos = decode_axis(buf[6], buf[7]);
        self.joystick_l.y_pos = decode_axis(buf[8], buf[9]);
        // bytes 10 to 13
        self.joystick_r.x_pos = decode_axis(buf[10], buf[11]);
        self.joystick_r.y_pos = decode_axis(buf[12], buf[13]);
        self.changed = true;
    }
}

/// A joystick position well inside the tilt threshold on both axes.
pub open spec fn centred(s: JoyStickData) -> bool {
    -6000 < s.x_pos < 6000 && -6000 < s.y_pos < 6000
}

/// A joystick pushed up, with little sideways travel.
pub open spec fn pushed_up(s: JoyStickData) -> bool {
    -6000 < s.x_pos < 6000 && s.y_pos >= 6000
}

/// A joystick pushed down, with little sideways travel.
pub open spec fn pushed_down(s: JoyStickData) -> bool {
    -6000 < s.x_pos < 6000 && s.y_pos < -6000
}

/// A joystick pushed right, with little vertical travel.
pub open spec fn pushed_right(s: JoyStickData) -> bool {
    s.x_pos >= 6000 && -6000 < s.y_pos < 6000
}

/// A joystick pushed left, with little vertical travel.
pub open spec fn pushed_left(s: JoyStickData) -> bool {
    s.x_pos < -6000 && -6000 < s.y_pos < 6000
}

/// The right-hand inputs held are exactly the ones given (A, X, Y, B, the
/// right bumper, the right trigger).
pub open spec fn right_hand_is(v: ControllerView, a: bool, x: bool, y: bool, b: bool, rb: bool, rt: bool) -> bool {
    &&& v.button_a == a
    &&& v.button_x == x
    &&& v.button_y == y
    &&& v.button_b == b
    &&& v.button_r_bumper == rb
    &&& (v.trigger_r.pos != 0) == rt
}

/// The letters, with no arrow of the direction pad held: the left joystick
/// (centred, up, down, right, left) and one of A, X, Y, B, the right bumper
/// and the right trigger select
/// a e i o u y / p t f s c k / b d v z g j / h l r w / m n q x.
pub proof fn law_poised_letter_chords(v: ControllerView)
    requires
        !v.button_dpad_down,
        !v.button_dpad_left,
        !v.button_dpad_up,
        !v.button_dpad_right,
    ensures
        centred(v.joystick_l) && right_hand_is(v, true, false, false, false, false, false) ==> v.state() == ControllerState::PoisedChar('a'),
        centred(v.joystick_l) && right_hand_is(v, false, true, false, false, false, false) ==> v.state() == ControllerState::PoisedChar('e'),
        centred(v.joystick_l) && right_hand_is(v, false, false, true, false, false, false) ==> v.state() == ControllerState::PoisedChar('i'),
        centred(v.joystick_l) && right_hand_is(v, false, false, false, true, false, false) ==> v.state() == ControllerState::PoisedChar('o'),
        centred(v.joystick_l) && right_hand_is(v, false, false, false, false, true, false) ==> v.state() == ControllerState::PoisedChar('u'),
        centred(v.joystick_l) && right_hand_is(v, false, false, false, false, false, true) ==> v.state() == ControllerState::PoisedChar('y'),
        pushed_up(v.joystick_l) && right_hand_is(v, true, false, false, false, false, false) ==> v.state() == ControllerState::PoisedChar('p'),
        pushed_up(v.joystick_l) && right_hand_is(v, false, true, false, false, false, false) ==> v.state() == ControllerState::PoisedChar('t'),
        pushed_up(v.joystick_l) && right_hand_is(v, false, false, true, false, false, false) ==> v.state() == ControllerState::PoisedChar('f'),
        pushed_up(v.joystick_l) && right_hand_is(v, false, false, false, true, false, false) ==> v.state() == ControllerState::PoisedChar('s'),
        pushed_up(v.joystick_l) && right_hand_is(v, false, false, false, false, true, false) ==> v.state() == ControllerState::PoisedChar('c'),
        pushed_up(v.joystick_l) && right_hand_is(v, false, false, false, false, false, true) ==> v.state() == ControllerState::PoisedChar('k'),
        pushed_down(v.joystick_l) && right_hand_is(v, true, false, false, false, false, false) ==> v.state() == ControllerState::PoisedChar('b'),
        pushed_down(v.joystick_l) && right_hand_is(v, false, true, false, false, false, false) ==> v.state() == ControllerState::PoisedChar('d'),
        pushed_down(v.joystick_l) && right_hand_is(v, false, false, true, false, false, false) ==> v.state() == ControllerState::PoisedChar('v'),
        pushed_down(v.joystick_l) && right_hand_is(v, false, false, false, true, false, false) ==> v.state() == ControllerState::PoisedChar('z'),
        pushed_down(v.joystick_l) && right_hand_is(v, false, false, false, false, true, false) ==> v.state() == ControllerState::PoisedChar('g'),
        pushed_down(v.joystick_l) && right_hand_is(v, false, false, false, false, false, true) ==> v.state() == ControllerState::PoisedChar('j'),
        pushed_right(v.joystick_l) && right_hand_is(v, true, false, false, false, false, false) ==> v.state() == ControllerState::PoisedChar('h'),
        pushed_right(v.joystick_l) && right_hand_is(v, false, true, false, false, false, false) ==> v.state() == ControllerState::PoisedChar('l'),
        pushed_right(v.joystick_l) && right_hand_is(v, false, false, true, false, false, false) ==> v.state() == ControllerState::PoisedChar('r'),
        pushed_right(v.joystick_l) && right_hand_is(v, false, false, false, true, false, false) ==> v.state() == ControllerState::PoisedChar('w'),
        pushed_left(v.joystick_l) && right_hand_is(v, true, false, false, false, false, false) ==> v.state() == ControllerState::PoisedChar('m'),
        pushed_left(v.joystick_l) && right_hand_is(v, false, true, false, false, false, false) ==> v.state() == ControllerState::PoisedChar('n'),
        pushed_left(v.joystick_l) && right_hand_is(v, false, false, true, false, false, false) ==> v.state() == ControllerState::PoisedChar('q'),
        pushed_left(v.joystick_l) && right_hand_is(v, false, false, false, true, false, false) ==> v.state() == ControllerState::PoisedChar('x'),
{
}

/// The digits, whatever the joystick does: the down arrow of the direction
/// pad with A, X, Y, B, the right bumper or the right trigger selects 1 to
/// 6; the up arrow with A, X, Y or B selects 7, 8, 9 or 0.
pub proof fn law_poised_digit_chords(v: ControllerView)
    requires
        !v.button_dpad_left,
        !v.button_dpad_right,
    ensures
        v.button_dpad_down && !v.button_dpad_up && right_hand_is(v, true, false, false, false, false, false) ==> v.state() == ControllerState::PoisedChar('1'),
        v.button_dpad_down && !v.button_dpad_up && right_hand_is(v, false, true, false, false, false, false) ==> v.state() == ControllerState::PoisedChar('2'),
        v.button_dpad_down && !v.button_dpad_up && right_hand_is(v, false, false, true, false, false, false) ==> v.state() == ControllerState::PoisedChar('3'),
        v.button_dpad_down && !v.button_dpad_up && right_hand_is(v, false, false, false, true, false, false) ==> v.state() == ControllerState::PoisedChar('4'),
        v.button_dpad_down && !v.button_dpad_up && right_hand_is(v, false, false, false, false, true, false) ==> v.state() == ControllerState::PoisedChar('5'),
        v.button_dpad_down && !v.button_dpad_up && right_hand_is(v, false, false, false, false, false, true) ==> v.state() == ControllerState::PoisedChar('6'),
        v.button_dpad_up && !v.button_dpad_down && right_hand_is(v, true, false, false, false, false, false) ==> v.state() == ControllerState::PoisedChar('7'),
        v.button_dpad_up && !v.button_dpad_down && right_hand_is(v, false, true, false, false, false, false) ==> v.state() == ControllerState::PoisedChar('8'),
        v.button_dpad_up && !v.button_dpad_down && right_hand_is(v, false, false, true, false, false, false) ==> v.state() == ControllerState::PoisedChar('9'),
        v.button_dpad_up && !v.button_dpad_down && right_hand_is(v, false, false, false, true, false, false) ==> v.state() == ControllerState::PoisedChar('0'),
{
}

/// With nothing held the controller is at rest; a click of the right stick
/// alone selects a space.
pub proof fn law_poised_rest_and_space(v: ControllerView)
    requires
        !v.button_dpad_down,
        !v.button_dpad_left,
        !v.button_dpad_up,
        !v.button_dpad_right,
        right_hand_is(v, false, false, false, false, false, false),
    ensures
        v.button_r_stick ==> v.state() == ControllerState::PoisedChar(' '),
        !v.button_r_stick ==> v.state() == ControllerState::Neutral,
{
}

/// The punctuation, whatever the joystick does: the up arrow with the right
/// bumper or trigger selects - or =; the left arrow with A, X, Y or B selects
/// [ ( ] ); the right arrow with A, X, Y, B, the right bumper or the right
/// trigger selects ; , ' . / and a backslash.
pub proof fn law_poised_punctuation_chords(v: ControllerView)
    ensures
        v.button_dpad_up && !v.button_dpad_down && !v.button_dpad_left && !v.button_dpad_right && right_hand_is(v, false, false, false, false, true, false) ==> v.state() == ControllerState::PoisedChar('-'),
        v.button_dpad_up && !v.button_dpad_down && !v.button_dpad_left && !v.button_dpad_right && right_hand_is(v, false, false, false, false, false, true) ==> v.state() == ControllerState::PoisedChar('='),
        v.button_dpad_left && !v.button_dpad_down && !v.button_dpad_up && !v.button_dpad_right && right_hand_is(v, true, false, false, false, false, false) ==> v.state() == ControllerState::PoisedChar('['),
        v.button_dpad_left && !v.button_dpad_down && !v.button_dpad_up && !v.button_dpad_right && right_hand_is(v, false, true, false, false, false, false) ==> v.state() == ControllerState::PoisedChar('('),
        v.button_dpad_left && !v.button_dpad_down && !v.button_dpad_up && !v.button_dpad_right && right_hand_is(v, false, false, true, false, false, false) ==> v.state() == ControllerState::PoisedChar(']'),
        v.button_dpad_left && !v.button_dpad_down && !v.button_dpad_up && !v.button_dpad_right && right_hand_is(v, false, false, false, true, false, false) ==> v.state() == ControllerState::PoisedChar(')'),
        v.button_dpad_right && !v.button_dpad_down && !v.button_dpad_up && !v.button_dpad_left && right_hand_is(v, true, false, false, false, false, false) ==> v.state() == ControllerState::PoisedChar(';'),
        v.button_dpad_right && !v.button_dpad_down && !v.button_dpad_up && !v.button_dpad_left && right_hand_is(v, false, true, false, false, false, false) ==> v.state() == ControllerState::PoisedChar(','),
        v.button_dpad_right && !v.button_dpad_down && !v.button_dpad_up && !v.button_dpad_left && right_hand_is(v, false, false, true, false, false, false) ==> v.state() == ControllerState::PoisedChar('\''),
        v.button_dpad_right && !v.button_dpad_down && !v.button_dpad_up && !v.button_dpad_left && right_hand_is(v, false, false, false, true, false, false) ==> v.state() == ControllerState::PoisedChar('.'),
        v.button_dpad_right && !v.button_dpad_down && !v.button_dpad_up && !v.button_dpad_left && right_hand_is(v, false, false, false, false, true, false) ==> v.state() == ControllerState::PoisedChar('/'),
        v.button_dpad_right && !v.button_dpad_down && !v.button_dpad_up && !v.button_dpad_left && right_hand_is(v, false, false, false, false, false, true) ==> v.state() == ControllerState::PoisedChar('\\'),
{
}

} // verus!
