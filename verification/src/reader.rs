//! Plain access to the decoded inputs of the controller: buttons, triggers
//! and the left joystick.

#![allow(non_snake_case)]

use vstd::prelude::*;

verus! {

/// Distance from the centre below which the joystick counts as untouched.
pub const TILT_THRESHHOLD: i16 = 6000;

/// Distance from the centre beyond which the joystick counts as pushed all the way.
pub const SMASH_THRESHHOLD: i16 = 31000;

/// The magnitude measure that classifies joystick directions: `x` for
/// `x >= 0`, and `-x - 1` below zero.
pub open spec fn spec_abs(x: int) -> int {
    if x < 0 { -x - 1 } else { x }
}

fn abs(x: i16) -> (r: i16)
    ensures
        r == spec_abs(x as int),
{
    if x < 0 {
        -1 * (x + 1)
    } else {
        x
    }
}

/// Where a joystick points.
#[derive(Debug, Clone, Copy, PartialEq, Eq, Structural)]
pub enum JoyStickState {
    Neutral,
    /// `true` when pushed all the way (smashed), `false` when only tilted.
    Left(bool),
    Right(bool),
    Up(bool),
    Down(bool),
}

/// The position of one joystick.
#[derive(Debug, Clone, Copy, PartialEq, Eq, Structural)]
pub struct JoyStickData {
    pub x_pos: i16,
    pub y_pos: i16,
}

/// The direction that a joystick at `(x, y)` points to.
pub open spec fn joystick_state_of(x: i16, y: i16) -> JoyStickState {
    if -TILT_THRESHHOLD < x < TILT_THRESHHOLD && -TILT_THRESHHOLD < y < TILT_THRESHHOLD {
        JoyStickState::Neutral
    } else if spec_abs(x as int) >= spec_abs(y as int) {
        if x > 0 {
            JoyStickState::Right(x > SMASH_THRESHHOLD)
        } else {
            JoyStickState::Left(x < -SMASH_THRESHHOLD)
        }
    } else if y > 0 {
        JoyStickState::Up(y > SMASH_THRESHHOLD)
    } else {
        JoyStickState::Down(y < -SMASH_THRESHHOLD)
    }
}

impl JoyStickData {
    /// Classifies the joystick position; every position gets a direction.
    pub fn state(&self) -> (r: JoyStickState)
        ensures
            r == joystick_state_of(self.x_pos, self.y_pos),
    {
        let x = self.x_pos;
        let y = self.y_pos;
        if x < TILT_THRESHHOLD && x > -1 * TILT_THRESHHOLD && y < TILT_THRESHHOLD && y > -1
            * TILT_THRESHHOLD {
            JoyStickState::Neutral
        } else if abs(x) >= abs(y) {
            if x > 0 {
                JoyStickState::Right(x > SMASH_THRESHHOLD)
            } else {
                JoyStickState::Left(x < -1 * SMASH_THRESHHOLD)
            }
        } else {
            if y > 0 {
                JoyStickState::Up(y > SMASH_THRESHHOLD)
            } else {
                JoyStickState::Down(y < -1 * SMASH_THRESHHOLD)
            }
        }
    }
}

/// Whether a trigger is pressed.
#[derive(Debug, Clone, Copy, PartialEq, Eq, Structural)]
pub enum TriggerState {
    Up,
    /// `true` when squeezed all the way down, `false` when partially pressed.
    Down(bool),
}

/// The position of one trigger, from 0 (released) to 255 (fully pressed).
#[derive(Debug, Clone, Copy, PartialEq, Eq, Structural)]
pub struct TriggerData {
    pub pos: u8,
}

pub open spec fn trigger_state_of(pos: u8) -> TriggerState {
    if pos == 0 {
        TriggerState::Up
    } else {
        TriggerState::Down(pos == 255)
    }
}

impl TriggerData {
    pub fn state(&self) -> (r: TriggerState)
        ensures
            r == trigger_state_of(self.pos),
    {
        match self.pos {
            0 => TriggerState::Up,
            255 => TriggerState::Down(true),
            _ => TriggerState::Down(false),
        }
    }
}

/// The signed 16-bit value stored little-endian in `lo`, `hi`.
pub open spec fn le_i16(lo: u8, hi: u8) -> int {
    lo as int + 256 * (hi as int) - if hi >= 128 { 65536int } else { 0int }
}

/// Everything that a `ControllerData` holds, as plain values.
pub struct ControllerView {
    pub button_xbox: bool,
    pub button_back: bool,
    pub button_start: bool,
    pub button_A: bool,
    pub button_B: bool,
    pub button_X: bool,
    pub button_Y: bool,
    pub button_Dpad_left: bool,
    pub button_Dpad_right: bool,
    pub button_Dpad_up: bool,
    pub button_Dpad_down: bool,
    pub button_Lbumper: bool,
    pub button_Rbumper: bool,
    pub button_Lstick: bool,
    pub button_Rstick: bool,
    pub trigger_L: TriggerData,
    pub trigger_R: TriggerData,
    pub joystick_L: JoyStickData,
    pub joystick_R: JoyStickData,
}

impl ControllerView {
    /// The view after the input report `b` has been loaded. Bit 2 of byte 3
    /// is read into the start button, after bit 4 of byte 2 was; the xbox
    /// button keeps its value.
    pub open spec fn after_report(self, b: Seq<u8>) -> ControllerView {
        ControllerView {
            button_xbox: self.button_xbox,
            button_Rstick: 0x80u8 & b[2] != 0,
            button_Lstick: 0x40u8 & b[2] != 0,
            button_back: 0x20u8 & b[2] != 0,
            button_Dpad_right: 0x08u8 & b[2] != 0,
            button_Dpad_left: 0x04u8 & b[2] != 0,
            button_Dpad_down: 0x02u8 & b[2] != 0,
            button_Dpad_up: 0x01u8 & b[2] != 0,
            button_Y: 0x80u8 & b[3] != 0,
            button_X: 0x40u8 & b[3] != 0,
            button_B: 0x20u8 & b[3] != 0,
            button_A: 0x10u8 & b[3] != 0,
            button_start: 0x04u8 & b[3] != 0,
            button_Lbumper: 0x02u8 & b[3] != 0,
            button_Rbumper: 0x01u8 & b[3] != 0,
            trigger_L: TriggerData { pos: b[4] },
            trigger_R: TriggerData { pos: b[5] },
            joystick_L: JoyStickData { x_pos: le_i16(b[6], b[7]) as i16, y_pos: le_i16(b[8], b[9]) as i16 },
            joystick_R: JoyStickData { x_pos: le_i16(b[10], b[11]) as i16, y_pos: le_i16(b[12], b[13]) as i16 },
        }
    }
}

/// The view of a freshly initialised controller: nothing held.
pub open spec fn initial_view() -> ControllerView {
    ControllerView {
        button_xbox: false,
        button_back: false,
        button_start: false,
        button_A: false,
        button_B: false,
        button_X: false,
        button_Y: false,
        button_Dpad_left: false,
        button_Dpad_right: false,
        button_Dpad_up: false,
        button_Dpad_down: false,
        button_Lbumper: false,
        button_Rbumper: false,
        button_Lstick: false,
        button_Rstick: false,
        trigger_L: TriggerData { pos: 0 },
        trigger_R: TriggerData { pos: 0 },
        joystick_L: JoyStickData { x_pos: 0, y_pos: 0 },
        joystick_R: JoyStickData { x_pos: 0, y_pos: 0 },
    }
}

/// The decoded input of an Xbox 360 controller.
pub struct ControllerData {
    button_xbox: bool,
    button_back: bool,
    button_start: bool,
    button_A: bool,
    button_B: bool,
    button_X: bool,
    button_Y: bool,
    button_Dpad_left: bool,
    button_Dpad_right: bool,
    button_Dpad_up: bool,
    button_Dpad_down: bool,
    button_Lbumper: bool,
    button_Rbumper: bool,
    button_Lstick: bool,
    button_Rstick: bool,
    trigger_L: TriggerData,
    trigger_R: TriggerData,
    joystick_L: JoyStickData,
    joystick_R: JoyStickData,
}

impl View for ControllerData {
    type V = ControllerView;

    closed spec fn view(&self) -> ControllerView {
        ControllerView {
            button_xbox: self.button_xbox,
            button_back: self.button_back,
            button_start: self.button_start,
            button_A: self.button_A,
            button_B: self.button_B,
            button_X: self.button_X,
            button_Y: self.button_Y,
            button_Dpad_left: self.button_Dpad_left,
            button_Dpad_right: self.button_Dpad_right,
            button_Dpad_up: self.button_Dpad_up,
            button_Dpad_down: self.button_Dpad_down,
            button_Lbumper: self.button_Lbumper,
            button_Rbumper: self.button_Rbumper,
            button_Lstick: self.button_Lstick,
            button_Rstick: self.button_Rstick,
            trigger_L: self.trigger_L,
            trigger_R: self.trigger_R,
            joystick_L: self.joystick_L,
            joystick_R: self.joystick_R,
        }
    }
}

/// Decodes the signed little-endian 16-bit value in `lo`, `hi`.
fn decode_axis(lo: u8, hi: u8) -> (r: i16)
    ensures
        r as int == le_i16(lo, hi),
{
    if hi < 128 {
        (hi as i16) * 256 + (lo as i16)
    } else {
        ((hi as i16) - 256) * 256 + (lo as i16)
    }
}

/// A controller with nothing held.
pub fn init_controller_data() -> (r: ControllerData)
    ensures
        r@ == initial_view(),
{
    ControllerData {
            button_xbox: false,
            button_back: false,
            button_start: false,
            button_A: false,
            button_B: false,
            button_X: false,
            button_Y: false,
            button_Dpad_left: false,
            button_Dpad_right: false,
            button_Dpad_up: false,
            button_Dpad_down: false,
            button_Lbumper: false,
            button_Rbumper: false,
            button_Lstick: false,
            button_Rstick: false,
            trigger_L: TriggerData { pos: 0 },
            trigger_R: TriggerData { pos: 0 },
            joystick_L: JoyStickData { x_pos: 0, y_pos: 0 },
            joystick_R: JoyStickData { x_pos: 0, y_pos: 0 },
    }
}

impl ControllerData {
    /// Loads an input report (at least 14 bytes: buttons in bytes 2 and 3,
    /// triggers in 4 and 5, sticks in 6 to 13).
    pub fn load_from_bytes(&mut self, buf: &[u8])
        requires
            buf@.len() >= 14,
        ensures
            final(self)@ == old(self)@.after_report(buf@),
    {
        // byte 2
        self.button_Rstick = 0b10000000 & buf[2] != 0;
        self.button_Lstick = 0b01000000 & buf[2] != 0;
        self.button_back = 0b00100000 & buf[2] != 0;
        self.button_start = 0b00010000 & buf[2] != 0;
        self.button_Dpad_right = 0b00001000 & buf[2] != 0;
        self.button_Dpad_left = 0b00000100 & buf[2] != 0;
        self.button_Dpad_down = 0b00000010 & buf[2] != 0;
        self.button_Dpad_up = 0b00000001 & buf[2] != 0;
        // byte 3 (bit 0b00001000 carries no button)
        self.button_Y = 0b10000000 & buf[3] != 0;
        self.button_X = 0b01000000 & buf[3] != 0;
        self.button_B = 0b00100000 & buf[3] != 0;
        self.button_A = 0b00010000 & buf[3] != 0;
        self.button_start = 0b00000100 & buf[3] != 0;
        self.button_Lbumper = 0b00000010 & buf[3] != 0;
        self.button_Rbumper = 0b00000001 & buf[3] != 0;
        // bytes 4 and 5
        self.trigger_L.pos = buf[4];
        self.trigger_R.pos = buf[5];
        // bytes 6 to 9
        self.joystick_L.x_pos = decode_axis(buf[6], buf[7]);
        self.joystick_L.y_pos = decode_axis(buf[8], buf[9]);
        // bytes 10 to 13
        self.joystick_R.x_pos = decode_axis(buf[10], buf[11]);
        self.joystick_R.y_pos = decode_axis(buf[12], buf[13]);
    }

    /// Whether the back button is held.
    pub fn button_back_pressed(&self) -> (r: bool)
        ensures
            r == self@.button_back,
    {
        self.button_back
    }

    /// The position of the left joystick, `(x, y)`.
    pub fn joystick_L_pos(&self) -> (r: (i16, i16))
        ensures
            r == (self@.joystick_L.x_pos, self@.joystick_L.y_pos),
    {
        (self.joystick_L.x_pos, self.joystick_L.y_pos)
    }

    /// Where the left joystick points.
    pub fn joystick_L_state(&self) -> (r: JoyStickState)
        ensures
            r == joystick_state_of(self@.joystick_L.x_pos, self@.joystick_L.y_pos),
    {
        self.joystick_L.state()
    }

    /// How far the left trigger is pressed.
    pub fn trigger_L_state(&self) -> (r: TriggerState)
        ensures
            r == trigger_state_of(self@.trigger_L.pos),
    {
        self.trigger_L.state()
    }

    /// Whether the A button is held.
    pub fn is_A_pressed(&self) -> (r: bool)
        ensures
            r == self@.button_A,
    {
        self.button_A
    }
}

} // verus!
