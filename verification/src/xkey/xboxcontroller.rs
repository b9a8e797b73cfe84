use vstd::prelude::*;

verus! {

/// The USB product id of the supported controller.
pub const XBOX_CONTROLLER_ID: u16 = 654;

/// The interface of the controller that carries its input reports.
pub const DATAFLOW_INTERFACE: u8 = 0;

/// The position of the first device, in the order the bus lists them,
/// whose product id is `id`; `None` when no device has it.
pub fn get_device_at_address(id: u16, product_ids: &[u16]) -> (r: Option<usize>)
    ensures
        r is None <==> forall|j: int| 0 <= j < product_ids@.len() ==> product_ids@[j] != id,
        r matches Some(i) ==> i < product_ids@.len() && product_ids@[i as int] == id
            && forall|j: int| 0 <= j < i ==> product_ids@[j] != id,
{
    let mut i: usize = 0;
    while i < product_ids.len()
        invariant
            i <= product_ids@.len(),
            forall|j: int| 0 <= j < i ==> product_ids@[j] != id,
        decreases product_ids@.len() - i,
    {
        if product_ids[i] == id {
            return Some(i);
        }
        i = i + 1;
    }
    None
}

/// Distance from the centre below which a stick counts as untouched.
pub const TILT_THRESHHOLD: i16 = 6000;

/// Distance from the centre beyond which a stick counts as pushed all the way.
pub const SMASH_THRESHHOLD: i16 = 31000;

/// The magnitude measure that classifies stick directions: `x` for
/// `x >= 0`, and `-x - 1` below zero, so that it fits in an `i16`.
pub open spec fn spec_abs(x: int) -> int {
    if x < 0 { -x - 1 } else { x }
}

fn abs(x: i16) -> (r: i16)
    ensures
        r == spec_abs(x as int),
        r >= 0,
{
    if x < 0 {
        -1 * (x + 1)
    } else {
        x
    }
}

/// Where a stick points.
#[derive(Debug, Clone, Copy, PartialEq, Eq, Structural)]
pub enum StickState {
    Neutral,
    /// `true` when the stick is pushed all the way (smashed), `false` when only tilted.
    Left(bool),
    Right(bool),
    Up(bool),
    Down(bool),
}

/// The position of one analog stick.
#[derive(Debug, Clone, Copy, PartialEq, Eq, Structural)]
pub struct StickData {
    pub x_pos: i16,
    pub y_pos: i16,
}

/// The direction that a stick at `(x, y)` points to.
pub open spec fn stick_state_of(x: i16, y: i16) -> StickState {
    if -TILT_THRESHHOLD < x < TILT_THRESHHOLD && -TILT_THRESHHOLD < y < TILT_THRESHHOLD {
        StickState::Neutral
    } else if spec_abs(x as int) >= spec_abs(y as int) {
        if x > 0 {
            StickState::Right(x > SMASH_THRESHHOLD)
        } else {
            StickState::Left(x < -SMASH_THRESHHOLD)
        }
    } else if y > 0 {
        StickState::Up(y > SMASH_THRESHHOLD)
    } else {
        StickState::Down(y < -SMASH_THRESHHOLD)
    }
}

impl StickData {
    /// Classifies the stick position; every position gets a direction.
    pub fn state(&self) -> (r: StickState)
        ensures
            r == stick_state_of(self.x_pos, self.y_pos),
    {
        let x = self.x_pos;
        let y = self.y_pos;
        if x < TILT_THRESHHOLD && x > -1 * TILT_THRESHHOLD && y < TILT_THRESHHOLD && y > -1
            * TILT_THRESHHOLD {
            StickState::Neutral
        } else if abs(x) >= abs(y) {
            if x > 0 {
                StickState::Right(x > SMASH_THRESHHOLD)
            } else {
                StickState::Left(x < -1 * SMASH_THRESHHOLD)
            }
        } else {
            if y > 0 {
                StickState::Up(y > SMASH_THRESHHOLD)
            } else {
                StickState::Down(y < -1 * SMASH_THRESHHOLD)
            }
        }
    }
}

/// How far an analog trigger is pressed.
#[derive(Debug, Clone, Copy, PartialEq, Eq, Structural)]
pub enum TriggerState {
    Neutral,
    /// `true` when squeezed all the way down, `false` when partially pressed.
    Pressed(bool),
}

/// The position of one analog trigger, from 0 (released) to 255 (fully pressed).
#[derive(Debug, Clone, Copy, PartialEq, Eq, Structural)]
pub struct TriggerData {
    pub pos: u8,
}

pub open spec fn trigger_state_of(pos: u8) -> TriggerState {
    if pos == 0 {
        TriggerState::Neutral
    } else {
        TriggerState::Pressed(pos == 255)
    }
}

impl TriggerData {
    pub fn state(&self) -> (r: TriggerState)
        ensures
            r == trigger_state_of(self.pos),
    {
        match self.pos {
            0 => TriggerState::Neutral,
            255 => TriggerState::Pressed(true),
            _ => TriggerState::Pressed(false),
        }
    }
}


/// The direction pad: which single arrow is held, if any.
#[derive(Debug, Clone, Copy, PartialEq, Eq, Structural)]
pub enum DPadState {
    /// none pressed
    Neutral,
    /// several pressed
    Confused,
    Down,
    Left,
    Up,
    Right,
}

/// The right-hand buttons (A, X, Y, B, right bumper, right stick click,
/// right trigger, start, back): which single one is held, if any.
#[derive(Debug, Clone, Copy, PartialEq, Eq, Structural)]
pub enum RButtonState {
    /// none pressed
    Neutral,
    /// several pressed
    Confused,
    Down,
    Left,
    Up,
    Right,
    Bumper,
    Trigger,
    Back,
    Start,
    Xbox,
    Stick,
}

/// The combination of left-hand modifiers held (left trigger = shift,
/// left bumper = ctrl, left stick click = alt, xbox button = super).
#[derive(Debug, Clone, Copy, PartialEq, Eq, Structural)]
pub enum ModifierState {
    Neutral,
    Shift,
    Ctrl,
    Alt,
    AltShift,
    AltCtrl,
    Super,
    SuperCtrl,
}

/// An editing action or a text expansion that a chord can trigger.
#[derive(Debug, Clone, Copy, PartialEq, Eq, Hash, Structural)]
pub enum Macro {
    // navigation
    LineDown,
    LineUp,
    CharFor,
    CharBack,
    WordFor,
    WordBack,
    ParDown,
    ParUp,
    // deletion
    DelLineFor,
    DelLineBack,
    DelCharFor,
    DelCharBack,
    DelWordFor,
    DelWordBack,
    DelParDown,
    DelParUp,
    // other
    Undo,
    // special characters
    Enter,
    Super,
    Tab,
    // key words
    ExternCrate,
    Mod,
    Use,
    Const,
    Pub,
    Let,
    // expansions
    Fn,
    Struct,
    Enum,
    Impl,
    ForIn,
    Match,
    If,
}

/// What the controller is currently poised to type. Returning to `Neutral`
/// from one of the `...Ready` states is what produces output.
#[derive(Debug, Clone, Copy, PartialEq, Eq, Structural)]
pub enum ControllerState {
    Confused,
    Neutral,
    /// A character on which the held modifiers act as on a keyboard.
    ModableReady(char),
    /// A character typed exactly as given, whatever modifiers are held.
    ExactReady(char),
    MacroReady(Macro),
}

/// Chords made with the left stick and a right-hand button, the direction
/// pad released: the letters, space, enter and the middle buttons.
pub open spec fn letter_chord(ls: StickState, rb: RButtonState, m: ModifierState) -> Option<ControllerState> {
    match (ls, rb) {
        (StickState::Neutral, RButtonState::Down) => Some(ControllerState::ModableReady('a')),
        (StickState::Neutral, RButtonState::Left) => Some(ControllerState::ModableReady('e')),
        (StickState::Neutral, RButtonState::Up) => Some(ControllerState::ModableReady('i')),
        (StickState::Neutral, RButtonState::Right) => Some(ControllerState::ModableReady('o')),
        (StickState::Neutral, RButtonState::Bumper) => Some(ControllerState::ModableReady('u')),
        (StickState::Neutral, RButtonState::Trigger) => Some(ControllerState::ModableReady('y')),
        (StickState::Neutral, RButtonState::Back) => Some(ControllerState::MacroReady(Macro::Undo)),
        (StickState::Neutral, RButtonState::Start) => Some(ControllerState::MacroReady(Macro::Tab)),
        (StickState::Neutral, RButtonState::Xbox) => Some(ControllerState::MacroReady(Macro::Super)),
        (StickState::Up(_), RButtonState::Down) => Some(ControllerState::ModableReady('p')),
        (StickState::Up(_), RButtonState::Left) => Some(ControllerState::ModableReady('t')),
        (StickState::Up(_), RButtonState::Up) => Some(ControllerState::ModableReady('f')),
        (StickState::Up(_), RButtonState::Right) => Some(ControllerState::ModableReady('s')),
        (StickState::Up(_), RButtonState::Bumper) => Some(ControllerState::ModableReady('c')),
        (StickState::Up(_), RButtonState::Trigger) => Some(ControllerState::ModableReady('k')),
        (StickState::Down(_), RButtonState::Down) => Some(ControllerState::ModableReady('b')),
        (StickState::Down(_), RButtonState::Left) => Some(ControllerState::ModableReady('d')),
        (StickState::Down(_), RButtonState::Up) => Some(ControllerState::ModableReady('v')),
        (StickState::Down(_), RButtonState::Right) => Some(ControllerState::ModableReady('z')),
        (StickState::Down(_), RButtonState::Bumper) => Some(ControllerState::ModableReady('g')),
        (StickState::Down(_), RButtonState::Trigger) => Some(ControllerState::ModableReady('j')),
        (StickState::Right(_), RButtonState::Down) => Some(ControllerState::ModableReady('h')),
        (StickState::Right(_), RButtonState::Left) => Some(ControllerState::ModableReady('l')),
        (StickState::Right(_), RButtonState::Up) => Some(ControllerState::ModableReady('r')),
        (StickState::Right(_), RButtonState::Right) => Some(ControllerState::ModableReady('w')),
        (StickState::Left(_), RButtonState::Down) => Some(ControllerState::ModableReady('m')),
        (StickState::Left(_), RButtonState::Left) => Some(ControllerState::ModableReady('n')),
        (StickState::Left(_), RButtonState::Up) => Some(ControllerState::ModableReady('q')),
        (StickState::Left(_), RButtonState::Right) => Some(ControllerState::ModableReady('x')),
        (StickState::Neutral, RButtonState::Stick) => Some(
            if m == ModifierState::Shift {
                ControllerState::MacroReady(Macro::Enter)
            } else {
                ControllerState::ExactReady(' ')
            },
        ),
        _ => None,
    }
}

/// Chords made with the direction pad and a right-hand button: digits and
/// punctuation.
pub open spec fn dpad_chord(d: DPadState, rb: RButtonState, m: ModifierState) -> Option<ControllerState> {
    match (d, rb, m) {
        (DPadState::Down, RButtonState::Down, _) => Some(ControllerState::ModableReady('1')),
        (DPadState::Down, RButtonState::Left, _) => Some(ControllerState::ModableReady('2')),
        (DPadState::Down, RButtonState::Up, _) => Some(ControllerState::ModableReady('3')),
        (DPadState::Down, RButtonState::Right, _) => Some(ControllerState::ModableReady('4')),
        (DPadState::Down, RButtonState::Bumper, _) => Some(ControllerState::ModableReady('5')),
        (DPadState::Down, RButtonState::Trigger, _) => Some(ControllerState::ModableReady('6')),
        (DPadState::Up, RButtonState::Down, _) => Some(ControllerState::ModableReady('7')),
        (DPadState::Up, RButtonState::Left, _) => Some(ControllerState::ModableReady('8')),
        (DPadState::Up, RButtonState::Up, _) => Some(ControllerState::ModableReady('9')),
        (DPadState::Up, RButtonState::Right, _) => Some(ControllerState::ModableReady('0')),
        (DPadState::Up, RButtonState::Bumper, ModifierState::Neutral) => Some(ControllerState::ExactReady('-')),
        (DPadState::Up, RButtonState::Trigger, ModifierState::Neutral) => Some(ControllerState::ExactReady('+')),
        (DPadState::Up, RButtonState::Bumper, ModifierState::Shift) => Some(ControllerState::ExactReady('_')),
        (DPadState::Up, RButtonState::Trigger, ModifierState::Shift) => Some(ControllerState::ExactReady('=')),
        (DPadState::Right, RButtonState::Left, ModifierState::Neutral) => Some(ControllerState::ExactReady('(')),
        (DPadState::Right, RButtonState::Right, ModifierState::Neutral) => Some(ControllerState::ExactReady(')')),
        (DPadState::Right, RButtonState::Left, ModifierState::Shift) => Some(ControllerState::ExactReady('[')),
        (DPadState::Right, RButtonState::Right, ModifierState::Shift) => Some(ControllerState::ExactReady(']')),
        (DPadState::Right, RButtonState::Left, ModifierState::Ctrl) => Some(ControllerState::ExactReady('{')),
        (DPadState::Right, RButtonState::Right, ModifierState::Ctrl) => Some(ControllerState::ExactReady('}')),
        (DPadState::Right, RButtonState::Down, ModifierState::Neutral) => Some(ControllerState::ExactReady('<')),
        (DPadState::Right, RButtonState::Up, ModifierState::Neutral) => Some(ControllerState::ExactReady('>')),
        (DPadState::Right, RButtonState::Bumper, ModifierState::Neutral) => Some(ControllerState::ExactReady('\'')),
        (DPadState::Right, RButtonState::Bumper, ModifierState::Shift) => Some(ControllerState::ExactReady('"')),
        (DPadState::Right, RButtonState::Bumper, ModifierState::Ctrl) => Some(ControllerState::ExactReady('`')),
        (DPadState::Right, RButtonState::Bumper, ModifierState::Alt) => Some(ControllerState::ExactReady('~')),
        (DPadState::Right, RButtonState::Trigger, ModifierState::Neutral) => Some(ControllerState::ExactReady('/')),
        (DPadState::Right, RButtonState::Trigger, ModifierState::Shift) => Some(ControllerState::ExactReady('\\')),
        (DPadState::Right, RButtonState::Trigger, ModifierState::Ctrl) => Some(ControllerState::ExactReady('|')),
        (DPadState::Left, RButtonState::Down, ModifierState::Neutral) => Some(ControllerState::ExactReady('.')),
        (DPadState::Left, RButtonState::Left, ModifierState::Neutral) => Some(ControllerState::ExactReady(',')),
        (DPadState::Left, RButtonState::Up, ModifierState::Neutral) => Some(ControllerState::ExactReady(':')),
        (DPadState::Left, RButtonState::Right, ModifierState::Neutral) => Some(ControllerState::ExactReady(';')),
        (DPadState::Left, RButtonState::Bumper, ModifierState::Neutral) => Some(ControllerState::ExactReady('?')),
        (DPadState::Left, RButtonState::Trigger, ModifierState::Neutral) => Some(ControllerState::ExactReady('!')),
        _ => None,
    }
}

/// Chords made with the right stick: cursor movement and deletion.
pub open spec fn navigation_chord(rs: StickState, d: DPadState, m: ModifierState) -> Option<ControllerState> {
    match (rs, d, m) {
        (StickState::Left(_), DPadState::Neutral, ModifierState::Neutral) => Some(ControllerState::MacroReady(Macro::CharBack)),
        (StickState::Right(_), DPadState::Neutral, ModifierState::Neutral) => Some(ControllerState::MacroReady(Macro::CharFor)),
        (StickState::Up(_), DPadState::Neutral, ModifierState::Neutral) => Some(ControllerState::MacroReady(Macro::LineUp)),
        (StickState::Down(_), DPadState::Neutral, ModifierState::Neutral) => Some(ControllerState::MacroReady(Macro::LineDown)),
        (StickState::Right(_), DPadState::Down, ModifierState::Neutral) => Some(ControllerState::MacroReady(Macro::DelCharFor)),
        (StickState::Left(_), DPadState::Down, ModifierState::Neutral) => Some(ControllerState::MacroReady(Macro::DelCharBack)),
        (StickState::Right(_), DPadState::Down, ModifierState::Shift) => Some(ControllerState::MacroReady(Macro::DelWordFor)),
        (StickState::Left(_), DPadState::Down, ModifierState::Shift) => Some(ControllerState::MacroReady(Macro::DelWordBack)),
        (StickState::Down(_), DPadState::Down, ModifierState::Neutral) => Some(ControllerState::MacroReady(Macro::DelLineFor)),
        (StickState::Up(_), DPadState::Down, ModifierState::Neutral) => Some(ControllerState::MacroReady(Macro::DelLineBack)),
        (StickState::Down(_), DPadState::Down, ModifierState::Shift) => Some(ControllerState::MacroReady(Macro::DelParDown)),
        (StickState::Up(_), DPadState::Down, ModifierState::Shift) => Some(ControllerState::MacroReady(Macro::DelParUp)),
        _ => None,
    }
}

/// Combines the previous state with the current chord: `i` followed by `v`
/// expands to the `if` macro; otherwise the current chord stands.
pub open spec fn combine_states(last: ControllerState, raw: ControllerState) -> ControllerState {
    if last == ControllerState::ModableReady('i') && raw == ControllerState::ModableReady('v') {
        ControllerState::MacroReady(Macro::If)
    } else {
        raw
    }
}

/// The macros that some controller state can request.
pub open spec fn is_emitted_macro(m: Macro) -> bool {
    match m {
        Macro::LineDown | Macro::LineUp | Macro::CharFor | Macro::CharBack | Macro::DelLineFor
        | Macro::DelLineBack | Macro::DelCharFor | Macro::DelCharBack | Macro::DelWordFor
        | Macro::DelWordBack | Macro::DelParDown | Macro::DelParUp | Macro::Undo | Macro::Enter
        | Macro::Super | Macro::Tab | Macro::If => true,
        _ => false,
    }
}

/// A state whose macro, if it has one, is one that the chords can request.
pub open spec fn is_emitted(s: ControllerState) -> bool {
    match s {
        ControllerState::MacroReady(m) => is_emitted_macro(m),
        _ => true,
    }
}

/// The signed 16-bit value stored little-endian in `lo`, `hi`.
pub open spec fn le_i16(lo: u8, hi: u8) -> int {
    lo as int + 256 * (hi as int) - if hi >= 128 { 65536int } else { 0int }
}

/// Everything that a `ControllerData` holds, as plain values.
pub struct ControllerView {
    pub button_xbox: bool,
    pub button_back: bool,
    pub button_start: bool,
    pub button_a: bool,
    pub button_b: bool,
    pub button_x: bool,
    pub button_y: bool,
    pub button_dpad_left: bool,
    pub button_dpad_right: bool,
    pub button_dpad_up: bool,
    pub button_dpad_down: bool,
    pub button_l_bumper: bool,
    pub button_r_bumper: bool,
    pub button_l_stick: bool,
    pub button_r_stick: bool,
    pub trigger_l: TriggerData,
    pub trigger_r: TriggerData,
    pub stick_l: StickData,
    pub stick_r: StickData,
    /// Set when the state changes; cleared by `changed`.
    pub changed: bool,
    /// The state before the most recent change of state.
    pub last_state: ControllerState,
}

impl ControllerView {
    pub open spec fn dpad(self) -> DPadState {
        match (self.button_dpad_down, self.button_dpad_left, self.button_dpad_up, self.button_dpad_right) {
            (false, false, false, false) => DPadState::Neutral,
            (true, false, false, false) => DPadState::Down,
            (false, true, false, false) => DPadState::Left,
            (false, false, true, false) => DPadState::Up,
            (false, false, false, true) => DPadState::Right,
            _ => DPadState::Confused,
        }
    }

    pub open spec fn rbutton(self) -> RButtonState {
        match (
            self.button_a,
            self.button_x,
            self.button_y,
            self.button_b,
            self.button_r_bumper,
            self.button_r_stick,
            self.trigger_r.pos != 0,
            self.button_start,
            self.button_back,
        ) {
            (false, false, false, false, false, false, false, false, false) => RButtonState::Neutral,
            (true, false, false, false, false, false, false, false, false) => RButtonState::Down,
            (false, true, false, false, false, false, false, false, false) => RButtonState::Left,
            (false, false, true, false, false, false, false, false, false) => RButtonState::Up,
            (false, false, false, true, false, false, false, false, false) => RButtonState::Right,
            (false, false, false, false, true, false, false, false, false) => RButtonState::Bumper,
            (false, false, false, false, false, true, false, false, false) => RButtonState::Stick,
            (false, false, false, false, false, false, true, false, false) => RButtonState::Trigger,
            (false, false, false, false, false, false, false, true, false) => RButtonState::Start,
            (false, false, false, false, false, false, false, false, true) => RButtonState::Back,
            _ => RButtonState::Confused,
        }
    }

    pub open spec fn modifier(self) -> ModifierState {
        match (self.trigger_l.pos != 0, self.button_l_bumper, self.button_l_stick, self.button_xbox) {
            (false, false, false, false) => ModifierState::Neutral,
            (true, false, false, false) => ModifierState::Shift,
            (false, true, false, false) => ModifierState::Ctrl,
            (false, false, true, false) => ModifierState::Alt,
            (true, false, true, false) => ModifierState::AltShift,
            (false, true, true, false) => ModifierState::AltCtrl,
            (false, false, false, true) => ModifierState::Super,
            (false, false, true, true) => ModifierState::SuperCtrl,
            _ => ModifierState::Neutral,
        }
    }

    pub open spec fn left_stick(self) -> StickState {
        stick_state_of(self.stick_l.x_pos, self.stick_l.y_pos)
    }

    pub open spec fn right_stick(self) -> StickState {
        stick_state_of(self.stick_r.x_pos, self.stick_r.y_pos)
    }

    /// The state that the held inputs alone select.
    #[verifier::opaque]
    pub open spec fn raw_state(self) -> ControllerState {
        let rb = self.rbutton();
        let rs = self.right_stick();
        let d = self.dpad();
        if rb == RButtonState::Neutral && rs == StickState::Neutral {
            ControllerState::Neutral
        } else {
            let chord = if d == DPadState::Neutral && rs == StickState::Neutral {
                letter_chord(self.left_stick(), rb, self.modifier())
            } else if rs == StickState::Neutral {
                dpad_chord(d, rb, self.modifier())
            } else {
                navigation_chord(rs, d, self.modifier())
            };
            match chord {
                Some(s) => s,
                None => ControllerState::Confused,
            }
        }
    }

    /// The controller once its change mark has been read and cleared.
    pub open spec fn cleared(self) -> ControllerView {
        ControllerView { changed: false, ..self }
    }

    /// The state of the controller: the held inputs, read in the light of
    /// the previous state.
    pub open spec fn state(self) -> ControllerState {
        combine_states(self.last_state, self.raw_state())
    }

    /// The inputs of report `b` in place of the held ones; the change mark
    /// and the previous state as they are.
    #[verifier::opaque]
    pub open spec fn with_inputs(self, b: Seq<u8>) -> ControllerView {
        ControllerView {
            button_r_stick: 0x80u8 & b[2] != 0,
            button_l_stick: 0x40u8 & b[2] != 0,
            button_back: 0x20u8 & b[2] != 0,
            button_start: 0x10u8 & b[2] != 0,
            button_dpad_right: 0x08u8 & b[2] != 0,
            button_dpad_left: 0x04u8 & b[2] != 0,
            button_dpad_down: 0x02u8 & b[2] != 0,
            button_dpad_up: 0x01u8 & b[2] != 0,
            button_y: 0x80u8 & b[3] != 0,
            button_x: 0x40u8 & b[3] != 0,
            button_b: 0x20u8 & b[3] != 0,
            button_a: 0x10u8 & b[3] != 0,
            button_xbox: 0x04u8 & b[3] != 0,
            button_r_bumper: 0x02u8 & b[3] != 0,
            button_l_bumper: 0x01u8 & b[3] != 0,
            trigger_l: TriggerData { pos: b[4] },
            trigger_r: TriggerData { pos: b[5] },
            stick_l: StickData { x_pos: le_i16(b[6], b[7]) as i16, y_pos: le_i16(b[8], b[9]) as i16 },
            stick_r: StickData { x_pos: le_i16(b[10], b[11]) as i16, y_pos: le_i16(b[12], b[13]) as i16 },
            changed: self.changed,
            last_state: self.last_state,
        }
    }

    /// The view after the input report `b` has been loaded.
    #[verifier::opaque]
    pub open spec fn after_report(self, b: Seq<u8>) -> ControllerView {
        let n = self.with_inputs(b);
        if n.state() != self.state() {
            ControllerView { changed: true, last_state: self.state(), ..n }
        } else {
            n
        }
    }
}

/// The view of a freshly initialised controller: nothing held, marked as
/// changed, previous state `Neutral`.
pub open spec fn initial_view() -> ControllerView {
    ControllerView {
        button_xbox: false,
        button_back: false,
        button_start: false,
        button_a: false,
        button_b: false,
        button_x: false,
        button_y: false,
        button_dpad_left: false,
        button_dpad_right: false,
        button_dpad_up: false,
        button_dpad_down: false,
        button_l_bumper: false,
        button_r_bumper: false,
        button_l_stick: false,
        button_r_stick: false,
        trigger_l: TriggerData { pos: 0 },
        trigger_r: TriggerData { pos: 0 },
        stick_l: StickData { x_pos: 0, y_pos: 0 },
        stick_r: StickData { x_pos: 0, y_pos: 0 },
        changed: true,
        last_state: ControllerState::Neutral,
    }
}

/// The decoded input of an Xbox 360 controller, with the state it was in
/// before its last change.
pub struct ControllerData {
    button_xbox: bool,
    button_back: bool,
    button_start: bool,
    button_a: bool,
    button_b: bool,
    button_x: bool,
    button_y: bool,
    button_dpad_left: bool,
    button_dpad_right: bool,
    button_dpad_up: bool,
    button_dpad_down: bool,
    button_l_bumper: bool,
    button_r_bumper: bool,
    button_l_stick: bool,
    button_r_stick: bool,
    trigger_l: TriggerData,
    trigger_r: TriggerData,
    stick_l: StickData,
    stick_r: StickData,
    changed: bool,
    last_state: ControllerState,
}

impl View for ControllerData {
    type V = ControllerView;

    closed spec fn view(&self) -> ControllerView {
        ControllerView {
            button_xbox: self.button_xbox,
            button_back: self.button_back,
            button_start: self.button_start,
            button_a: self.button_a,
            button_b: self.button_b,
            button_x: self.button_x,
            button_y: self.button_y,
            button_dpad_left: self.button_dpad_left,
            button_dpad_right: self.button_dpad_right,
            button_dpad_up: self.button_dpad_up,
            button_dpad_down: self.button_dpad_down,
            button_l_bumper: self.button_l_bumper,
            button_r_bumper: self.button_r_bumper,
            button_l_stick: self.button_l_stick,
            button_r_stick: self.button_r_stick,
            trigger_l: self.trigger_l,
            trigger_r: self.trigger_r,
            stick_l: self.stick_l,
            stick_r: self.stick_r,
            changed: self.changed,
            last_state: self.last_state,
        }
    }
}


proof fn lemma_after_report(v: ControllerView, b: Seq<u8>)
    ensures
        v.with_inputs(b).state() != v.state() ==> v.after_report(b) == (ControllerView {
            changed: true,
            last_state: v.state(),
            ..v.with_inputs(b)
        }),
        v.with_inputs(b).state() == v.state() ==> v.after_report(b) == v.with_inputs(b),
{
    reveal(ControllerView::after_report);
}

proof fn lemma_mark_changed(d: ControllerData, l: ControllerState)
    ensures
        (ControllerData { changed: true, last_state: l, ..d })@ == (ControllerView {
            changed: true,
            last_state: l,
            ..d@
        }),
{
}

/// Decodes the signed little-endian 16-bit value in `lo`, `hi`.
fn decode_axis(lo: u8, hi: u8) -> (r: i16)
    ensures
        r as int == le_i16(lo, hi),
{
    if hi < 128 {
        (hi as i16) * 256 + (lo as i16)
    } else {
        ((hi as i16) - 256) * 256 + (lo as i16)
    }
}

/// A controller with nothing held, marked as changed, previous state `Neutral`.
pub fn init_controller_data() -> (r: ControllerData)
    ensures
        r@ == initial_view(),
{
    ControllerData {
        button_xbox: false,
        button_back: false,
        button_start: false,
        button_a: false,
        button_b: false,
        button_x: false,
        button_y: false,
        button_dpad_left: false,
        button_dpad_right: false,
        button_dpad_up: false,
        button_dpad_down: false,
        button_l_bumper: false,
        button_r_bumper: false,
        button_l_stick: false,
        button_r_stick: false,
        trigger_l: TriggerData { pos: 0 },
        trigger_r: TriggerData { pos: 0 },
        stick_l: StickData { x_pos: 0, y_pos: 0 },
        stick_r: StickData { x_pos: 0, y_pos: 0 },
        changed: true,
        last_state: ControllerState::Neutral,
    }
}

impl ControllerData {
    /// The previous state is always one that the chords can produce.
    #[verifier::type_invariant]
    spec fn last_state_is_emitted(self) -> bool {
        is_emitted(self.last_state)
    }

    /// The state of the controller; `i` then `v` makes the `if` macro.
    pub fn state(&self) -> (r: ControllerState)
        ensures
            r == self@.state(),
            is_emitted(r),
    {
        if self.last_state == ControllerState::Neutral {
            return self.raw_state();
        } else {
            let raw = self.raw_state();
            match (&self.last_state, raw) {
                (ControllerState::ModableReady('i'), ControllerState::ModableReady('v')) => {
                    return ControllerState::MacroReady(Macro::If);
                },
                _ => {
                    return raw;
                },
            }
        }
    }

    fn raw_state(&self) -> (r: ControllerState)
        ensures
            r == self@.raw_state(),
            is_emitted(r),
    {
        reveal(ControllerView::raw_state);
        if self.rbutton_state() == RButtonState::Neutral && self.stick_r.state() == StickState::Neutral {
            return ControllerState::Neutral;
        }
        // alphabetic / modable
        if self.dpad_state() == DPadState::Neutral && self.stick_r.state() == StickState::Neutral {
            match (self.stick_l.state(), self.rbutton_state()) {
                // vowels
                (StickState::Neutral, RButtonState::Down) => return ControllerState::ModableReady('a'),
                (StickState::Neutral, RButtonState::Left) => return ControllerState::ModableReady('e'),
                (StickState::Neutral, RButtonState::Up) => return ControllerState::ModableReady('i'),
                (StickState::Neutral, RButtonState::Right) => return ControllerState::ModableReady('o'),
                (StickState::Neutral, RButtonState::Bumper) => return ControllerState::ModableReady('u'),
                (StickState::Neutral, RButtonState::Trigger) => return ControllerState::ModableReady('y'),
                // mid-buttons
                (StickState::Neutral, RButtonState::Back) => return ControllerState::MacroReady(Macro::Undo),
                (StickState::Neutral, RButtonState::Start) => return ControllerState::MacroReady(Macro::Tab),
                (StickState::Neutral, RButtonState::Xbox) => return ControllerState::MacroReady(Macro::Super),
                // non-voiced
                (StickState::Up(_), RButtonState::Down) => return ControllerState::ModableReady('p'),
                (StickState::Up(_), RButtonState::Left) => return ControllerState::ModableReady('t'),
                (StickState::Up(_), RButtonState::Up) => return ControllerState::ModableReady('f'),
                (StickState::Up(_), RButtonState::Right) => return ControllerState::ModableReady('s'),
                (StickState::Up(_), RButtonState::Bumper) => return ControllerState::ModableReady('c'),
                (StickState::Up(_), RButtonState::Trigger) => return ControllerState::ModableReady('k'),
                // voiced
                (StickState::Down(_), RButtonState::Down) => return ControllerState::ModableReady('b'),
                (StickState::Down(_), RButtonState::Left) => return ControllerState::ModableReady('d'),
                (StickState::Down(_), RButtonState::Up) => return ControllerState::ModableReady('v'),
                (StickState::Down(_), RButtonState::Right) => return ControllerState::ModableReady('z'),
                (StickState::Down(_), RButtonState::Bumper) => return ControllerState::ModableReady('g'),
                (StickState::Down(_), RButtonState::Trigger) => return ControllerState::ModableReady('j'),
                // slides
                (StickState::Right(_), RButtonState::Down) => return ControllerState::ModableReady('h'),
                (StickState::Right(_), RButtonState::Left) => return ControllerState::ModableReady('l'),
                (StickState::Right(_), RButtonState::Up) => return ControllerState::ModableReady('r'),
                (StickState::Right(_), RButtonState::Right) => return ControllerState::ModableReady('w'),
                // odds
                (StickState::Left(_), RButtonState::Down) => return ControllerState::ModableReady('m'),
                (StickState::Left(_), RButtonState::Left) => return ControllerState::ModableReady('n'),
                (StickState::Left(_), RButtonState::Up) => return ControllerState::ModableReady('q'),
                (StickState::Left(_), RButtonState::Right) => return ControllerState::ModableReady('x'),
                // white space
                (StickState::Neutral, RButtonState::Stick) => {
                    if self.modifier_state() == ModifierState::Shift {
                        return ControllerState::MacroReady(Macro::Enter);
                    }
                    return ControllerState::ExactReady(' ');
                },
                _ => {},
            }
        } else if self.dpad_state() != DPadState::Neutral && self.stick_r.state() == StickState::Neutral {
            match (self.dpad_state(), self.rbutton_state(), self.modifier_state()) {
                // numbers (low)
                (DPadState::Down, RButtonState::Down, _) => return ControllerState::ModableReady('1'),
                (DPadState::Down, RButtonState::Left, _) => return ControllerState::ModableReady('2'),
                (DPadState::Down, RButtonState::Up, _) => return ControllerState::ModableReady('3'),
                (DPadState::Down, RButtonState::Right, _) => return ControllerState::ModableReady('4'),
                (DPadState::Down, RButtonState::Bumper, _) => return ControllerState::ModableReady('5'),
                (DPadState::Down, RButtonState::Trigger, _) => return ControllerState::ModableReady('6'),
                // numbers (high)
                (DPadState::Up, RButtonState::Down, _) => return ControllerState::ModableReady('7'),
                (DPadState::Up, RButtonState::Left, _) => return ControllerState::ModableReady('8'),
                (DPadState::Up, RButtonState::Up, _) => return ControllerState::ModableReady('9'),
                (DPadState::Up, RButtonState::Right, _) => return ControllerState::ModableReady('0'),
                (DPadState::Up, RButtonState::Bumper, ModifierState::Neutral) => return ControllerState::ExactReady('-'),
                (DPadState::Up, RButtonState::Trigger, ModifierState::Neutral) => return ControllerState::ExactReady('+'),
                (DPadState::Up, RButtonState::Bumper, ModifierState::Shift) => return ControllerState::ExactReady('_'),
                (DPadState::Up, RButtonState::Trigger, ModifierState::Shift) => return ControllerState::ExactReady('='),
                // scoping
                (DPadState::Right, RButtonState::Left, ModifierState::Neutral) => return ControllerState::ExactReady('('),
                (DPadState::Right, RButtonState::Right, ModifierState::Neutral) => return ControllerState::ExactReady(')'),
                (DPadState::Right, RButtonState::Left, ModifierState::Shift) => return ControllerState::ExactReady('['),
                (DPadState::Right, RButtonState::Right, ModifierState::Shift) => return ControllerState::ExactReady(']'),
                (DPadState::Right, RButtonState::Left, ModifierState::Ctrl) => return ControllerState::ExactReady('{'),
                (DPadState::Right, RButtonState::Right, ModifierState::Ctrl) => return ControllerState::ExactReady('}'),
                (DPadState::Right, RButtonState::Down, ModifierState::Neutral) => return ControllerState::ExactReady('<'),
                (DPadState::Right, RButtonState::Up, ModifierState::Neutral) => return ControllerState::ExactReady('>'),
                // quotes
                (DPadState::Right, RButtonState::Bumper, ModifierState::Neutral) => return ControllerState::ExactReady('\''),
                (DPadState::Right, RButtonState::Bumper, ModifierState::Shift) => return ControllerState::ExactReady('"'),
                (DPadState::Right, RButtonState::Bumper, ModifierState::Ctrl) => return ControllerState::ExactReady('`'),
                (DPadState::Right, RButtonState::Bumper, ModifierState::Alt) => return ControllerState::ExactReady('~'),
                // slashes
                (DPadState::Right, RButtonState::Trigger, ModifierState::Neutral) => return ControllerState::ExactReady('/'),
                (DPadState::Right, RButtonState::Trigger, ModifierState::Shift) => return ControllerState::ExactReady('\\'),
                (DPadState::Right, RButtonState::Trigger, ModifierState::Ctrl) => return ControllerState::ExactReady('|'),
                // punctuation
                (DPadState::Left, RButtonState::Down, ModifierState::Neutral) => return ControllerState::ExactReady('.'),
                (DPadState::Left, RButtonState::Left, ModifierState::Neutral) => return ControllerState::ExactReady(','),
                (DPadState::Left, RButtonState::Up, ModifierState::Neutral) => return ControllerState::ExactReady(':'),
                (DPadState::Left, RButtonState::Right, ModifierState::Neutral) => return ControllerState::ExactReady(';'),
                (DPadState::Left, RButtonState::Bumper, ModifierState::Neutral) => return ControllerState::ExactReady('?'),
                (DPadState::Left, RButtonState::Trigger, ModifierState::Neutral) => return ControllerState::ExactReady('!'),
                _ => {},
            }
        } else if self.stick_r.state() != StickState::Neutral {
            match (self.stick_r.state(), self.dpad_state(), self.modifier_state()) {
                // navigation
                (StickState::Left(_), DPadState::Neutral, ModifierState::Neutral) => return ControllerState::MacroReady(Macro::CharBack),
                (StickState::Right(_), DPadState::Neutral, ModifierState::Neutral) => return ControllerState::MacroReady(Macro::CharFor),
                (StickState::Up(_), DPadState::Neutral, ModifierState::Neutral) => return ControllerState::MacroReady(Macro::LineUp),
                (StickState::Down(_), DPadState::Neutral, ModifierState::Neutral) => return ControllerState::MacroReady(Macro::LineDown),
                // deletion
                (StickState::Right(_), DPadState::Down, ModifierState::Neutral) => return ControllerState::MacroReady(Macro::DelCharFor),
                (StickState::Left(_), DPadState::Down, ModifierState::Neutral) => return ControllerState::MacroReady(Macro::DelCharBack),
                (StickState::Right(_), DPadState::Down, ModifierState::Shift) => return ControllerState::MacroReady(Macro::DelWordFor),
                (StickState::Left(_), DPadState::Down, ModifierState::Shift) => return ControllerState::MacroReady(Macro::DelWordBack),
                (StickState::Down(_), DPadState::Down, ModifierState::Neutral) => return ControllerState::MacroReady(Macro::DelLineFor),
                (StickState::Up(_), DPadState::Down, ModifierState::Neutral) => return ControllerState::MacroReady(Macro::DelLineBack),
                (StickState::Down(_), DPadState::Down, ModifierState::Shift) => return ControllerState::MacroReady(Macro::DelParDown),
                (StickState::Up(_), DPadState::Down, ModifierState::Shift) => return ControllerState::MacroReady(Macro::DelParUp),
                _ => {},
            }
        }
        return ControllerState::Confused;
    }

    /// Shift is held: the left trigger is pressed at all.
    pub fn is_shift(&self) -> (r: bool)
        ensures
            r == (self@.trigger_l.pos != 0),
    {
        if let TriggerState::Pressed(_) = self.trigger_l.state() {
            return true;
        }
        false
    }

    /// Ctrl is held: the left bumper.
    pub fn is_ctrl(&self) -> (r: bool)
        ensures
            r == self@.button_l_bumper,
    {
        self.button_l_bumper
    }

    /// Alt is held: the left stick is clicked.
    pub fn is_alt(&self) -> (r: bool)
        ensures
            r == self@.button_l_stick,
    {
        self.button_l_stick
    }

    /// Super is held: the xbox button.
    pub fn is_super(&self) -> (r: bool)
        ensures
            r == self@.button_xbox,
    {
        self.button_xbox
    }

    /// Reports whether the state changed since the last call, and clears the mark.
    pub fn changed(&mut self) -> (r: bool)
        ensures
            r == old(self)@.changed,
            final(self)@ == old(self)@.cleared(),
    {
        proof {
            use_type_invariant(&*self);
        }
        if self.changed {
            self.changed = false;
            return true;
        }
        false
    }

    fn dpad_state(&self) -> (r: DPadState)
        ensures
            r == self@.dpad(),
    {
        match (self.button_dpad_down, self.button_dpad_left, self.button_dpad_up, self.button_dpad_right) {
            (false, false, false, false) => DPadState::Neutral,
            (true, false, false, false) => DPadState::Down,
            (false, true, false, false) => DPadState::Left,
            (false, false, true, false) => DPadState::Up,
            (false, false, false, true) => DPadState::Right,
            _ => DPadState::Confused,
        }
    }

    fn rbutton_state(&self) -> (r: RButtonState)
        ensures
            r == self@.rbutton(),
    {
        match (
            self.button_a,
            self.button_x,
            self.button_y,
            self.button_b,
            self.button_r_bumper,
            self.button_r_stick,
            self.trigger_r.state(),
            self.button_start,
            self.button_back,
        ) {
            (false, false, false, false, false, false, TriggerState::Neutral, false, false) => RButtonState::Neutral,
            (true, false, false, false, false, false, TriggerState::Neutral, false, false) => RButtonState::Down,
            (false, true, false, false, false, false, TriggerState::Neutral, false, false) => RButtonState::Left,
            (false, false, true, false, false, false, TriggerState::Neutral, false, false) => RButtonState::Up,
            (false, false, false, true, false, false, TriggerState::Neutral, false, false) => RButtonState::Right,
            (false, false, false, false, true, false, TriggerState::Neutral, false, false) => RButtonState::Bumper,
            (false, false, false, false, false, true, TriggerState::Neutral, false, false) => RButtonState::Stick,
            (false, false, false, false, false, false, TriggerState::Pressed(_), false, false) => RButtonState::Trigger,
            (false, false, false, false, false, false, TriggerState::Neutral, true, false) => RButtonState::Start,
            (false, false, false, false, false, false, TriggerState::Neutral, false, true) => RButtonState::Back,
            _ => RButtonState::Confused,
        }
    }

    fn modifier_state(&self) -> (r: ModifierState)
        ensures
            r == self@.modifier(),
    {
        match (self.trigger_l.state(), self.button_l_bumper, self.button_l_stick, self.button_xbox) {
            (TriggerState::Neutral, false, false, false) => ModifierState::Neutral,
            (TriggerState::Pressed(_), false, false, false) => ModifierState::Shift,
            (TriggerState::Neutral, true, false, false) => ModifierState::Ctrl,
            (TriggerState::Neutral, false, true, false) => ModifierState::Alt,
            (TriggerState::Pressed(_), false, true, false) => ModifierState::AltShift,
            (TriggerState::Neutral, true, true, false) => ModifierState::AltCtrl,
            (TriggerState::Neutral, false, false, true) => ModifierState::Super,
            (TriggerState::Neutral, false, true, true) => ModifierState::SuperCtrl,
            _ => ModifierState::Neutral,
        }
    }

    /// Loads an input report (at least 14 bytes: buttons in bytes 2 and 3,
    /// triggers in 4 and 5, sticks in 6 to 13). When the state changes, the
    /// previous state is kept as `last_state` and the change is marked.
    pub fn load_from_bytes(&mut self, buf: &[u8])
        requires
            buf@.len() >= 14,
        ensures
            final(self)@ == old(self)@.after_report(buf@),
    {
        *self = self.loaded(buf);
    }

    fn loaded(&self, buf: &[u8]) -> (r: ControllerData)
        requires
            buf@.len() >= 14,
        ensures
            r@ == self@.after_report(buf@),
    {
        proof {
            use_type_invariant(self);
            lemma_after_report(self@, buf@);
        }
        let last_frame_state = self.state();
        let next = self.with_inputs(buf);
        if next.state() != last_frame_state {
            proof {
                lemma_mark_changed(next, last_frame_state);
            }
            ControllerData { changed: true, last_state: last_frame_state, ..next }
        } else {
            next
        }
    }

    /// The inputs of report `buf` in place of the held ones.
    fn with_inputs(&self, buf: &[u8]) -> (r: ControllerData)
        requires
            buf@.len() >= 14,
        ensures
            r@ == self@.with_inputs(buf@),
    {
        proof {
            use_type_invariant(self);
            reveal(ControllerView::with_inputs);
        }
        ControllerData {
            // byte 2
            button_r_stick: 0b10000000 & buf[2] != 0,
            button_l_stick: 0b01000000 & buf[2] != 0,
            button_back: 0b00100000 & buf[2] != 0,
            button_start: 0b00010000 & buf[2] != 0,
            button_dpad_right: 0b00001000 & buf[2] != 0,
            button_dpad_left: 0b00000100 & buf[2] != 0,
            button_dpad_down: 0b00000010 & buf[2] != 0,
            button_dpad_up: 0b00000001 & buf[2] != 0,
            // byte 3 (bit 0b00001000 carries no button)
            button_y: 0b10000000 & buf[3] != 0,
            button_x: 0b01000000 & buf[3] != 0,
            button_b: 0b00100000 & buf[3] != 0,
            button_a: 0b00010000 & buf[3] != 0,
            button_xbox: 0b00000100 & buf[3] != 0,
            button_r_bumper: 0b00000010 & buf[3] != 0,
            button_l_bumper: 0b00000001 & buf[3] != 0,
            // bytes 4 and 5
            trigger_l: TriggerData { pos: buf[4] },
            trigger_r: TriggerData { pos: buf[5] },
            // bytes 6 to 9
            stick_l: StickData { x_pos: decode_axis(buf[6], buf[7]), y_pos: decode_axis(buf[8], buf[9]) },
            // bytes 10 to 13
            stick_r: StickData { x_pos: decode_axis(buf[10], buf[11]), y_pos: decode_axis(buf[12], buf[13]) },
            changed: self.changed,
            last_state: self.last_state,
        }
    }

    /// The state before the most recent change of state.
    pub fn last_state(&self) -> (r: ControllerState)
        ensures
            r == self@.last_state,
            is_emitted(r),
    {
        proof {
            use_type_invariant(self);
        }
        self.last_state
    }
}

/// Loading the same input report twice in a row: the second load changes
/// nothing, neither the inputs, nor the previous state, nor the change mark.
pub proof fn law_repeated_report_is_idle(v: ControllerView, b: Seq<u8>)
    requires
        b.len() >= 14,
    ensures
        v.after_report(b).after_report(b) == v.after_report(b),
{
    reveal(ControllerView::after_report);
    reveal(ControllerView::with_inputs);
    let w = v.after_report(b);
    assert(w.with_inputs(b) == w);
}

/// The inputs of a report are already in place once it has been loaded,
/// whatever the change mark is set to afterwards.
pub proof fn law_loaded_inputs_are_in_place(v: ControllerView, b: Seq<u8>, mark: bool)
    requires
        b.len() >= 14,
    ensures
        (ControllerView { changed: mark, ..v.after_report(b) }).with_inputs(b) == (ControllerView {
            changed: mark,
            ..v.after_report(b)
        }),
{
    let w = v.after_report(b);
    law_repeated_report_is_idle(v, b);
    lemma_with_inputs_ignores_mark(w, b, mark);
    assert(w.with_inputs(b) == w) by {
        reveal(ControllerView::after_report);
        reveal(ControllerView::with_inputs);
    }
}

proof fn lemma_with_inputs_ignores_mark(v: ControllerView, b: Seq<u8>, mark: bool)
    ensures
        (ControllerView { changed: mark, ..v }).with_inputs(b) == (ControllerView {
            changed: mark,
            ..v.with_inputs(b)
        }),
{
    reveal(ControllerView::with_inputs);
}

/// A report whose inputs select the same state as before leaves the
/// previous state and the change mark as they were.
pub proof fn law_unchanged_state_keeps_history(v: ControllerView, b: Seq<u8>)
    requires
        b.len() >= 14,
        v.with_inputs(b).state() == v.state(),
    ensures
        v.after_report(b).last_state == v.last_state,
        v.after_report(b).changed == v.changed,
        v.after_report(b).state() == v.state(),
{
    reveal(ControllerView::after_report);
    reveal(ControllerView::with_inputs);
}

/// A report that changes the state records the state it left as the
/// previous state and marks the change.
pub proof fn law_changed_state_is_recorded(v: ControllerView, b: Seq<u8>)
    requires
        b.len() >= 14,
        v.with_inputs(b).state() != v.state(),
    ensures
        v.after_report(b).last_state == v.state(),
        v.after_report(b).changed,
{
    reveal(ControllerView::after_report);
}

/// A change is reported once: `changed` leaves the controller `cleared`,
/// so a second call returns `false` and leaves the controller as it is.
pub proof fn law_change_is_reported_once(v: ControllerView)
    ensures
        !v.cleared().changed,
        v.cleared().cleared() == v.cleared(),
{
}

/// `i` followed by `v` is the `if` macro, whatever came before the `i`.
pub proof fn law_i_then_v_is_if(last: ControllerState)
    ensures
        combine_states(ControllerState::ModableReady('i'), ControllerState::ModableReady('v'))
            == ControllerState::MacroReady(Macro::If),
        last != ControllerState::ModableReady('i') ==> forall|raw: ControllerState| combine_states(last, raw) == raw,
{
}

/// `abs` measures how far a stick axis is from the centre without
/// overflow: `x` for `x >= 0`, `-(x + 1)` below zero, so every `i16` gives a
/// value from 0 to 32767 (`i16::MIN` gives 32767, `-1` gives 0).
pub proof fn law_abs_fits(x: i16)
    ensures
        spec_abs(x as int) == if x < 0 { -(x + 1) } else { x as int },
        0 <= spec_abs(x as int) <= i16::MAX,
        x == i16::MIN ==> spec_abs(x as int) == 32767,
        x == -1 ==> spec_abs(x as int) == 0,
        x == -6001 ==> spec_abs(x as int) == 6000,
{
}

/// How many of the four arrows of the direction pad are held.
pub open spec fn dpad_held(v: ControllerView) -> int {
    (if v.button_dpad_down { 1int } else { 0int }) + (if v.button_dpad_left { 1int } else { 0int })
        + (if v.button_dpad_up { 1int } else { 0int }) + (if v.button_dpad_right { 1int } else { 0int })
}

/// How many right-hand inputs are held: A, X, Y, B, the right bumper, the
/// right stick click, the right trigger (pressed at all), start and back.
pub open spec fn rbuttons_held(v: ControllerView) -> int {
    (if v.button_a { 1int } else { 0int }) + (if v.button_x { 1int } else { 0int }) + (if v.button_y {
        1int
    } else {
        0int
    }) + (if v.button_b { 1int } else { 0int }) + (if v.button_r_bumper { 1int } else { 0int }) + (
    if v.button_r_stick {
        1int
    } else {
        0int
    }) + (if v.trigger_r.pos != 0 { 1int } else { 0int }) + (if v.button_start { 1int } else { 0int }) + (
    if v.button_back {
        1int
    } else {
        0int
    })
}

/// The direction pad reads as `Neutral` with no arrow held, as the one
/// arrow held when exactly one is, and as `Confused` with two or more.
pub proof fn law_dpad_reads_one_arrow(v: ControllerView)
    ensures
        v.dpad() == DPadState::Neutral <==> dpad_held(v) == 0,
        v.dpad() == DPadState::Confused <==> dpad_held(v) >= 2,
        v.dpad() == DPadState::Down <==> (v.button_dpad_down && dpad_held(v) == 1),
        v.dpad() == DPadState::Left <==> (v.button_dpad_left && dpad_held(v) == 1),
        v.dpad() == DPadState::Up <==> (v.button_dpad_up && dpad_held(v) == 1),
        v.dpad() == DPadState::Right <==> (v.button_dpad_right && dpad_held(v) == 1),
{
}

/// The right-hand inputs read as `Neutral` with none held, as the one held
/// when exactly one is, and as `Confused` with two or more; the xbox button
/// is not among them, so they never read as `Xbox`.
pub proof fn law_rbutton_reads_one_button(v: ControllerView)
    ensures
        v.rbutton() == RButtonState::Neutral <==> rbuttons_held(v) == 0,
        v.rbutton() == RButtonState::Confused <==> rbuttons_held(v) >= 2,
        v.rbutton() != RButtonState::Xbox,
        v.rbutton() == RButtonState::Down <==> (v.button_a && rbuttons_held(v) == 1),
        v.rbutton() == RButtonState::Left <==> (v.button_x && rbuttons_held(v) == 1),
        v.rbutton() == RButtonState::Up <==> (v.button_y && rbuttons_held(v) == 1),
        v.rbutton() == RButtonState::Right <==> (v.button_b && rbuttons_held(v) == 1),
        v.rbutton() == RButtonState::Bumper <==> (v.button_r_bumper && rbuttons_held(v) == 1),
        v.rbutton() == RButtonState::Stick <==> (v.button_r_stick && rbuttons_held(v) == 1),
        v.rbutton() == RButtonState::Trigger <==> (v.trigger_r.pos != 0 && rbuttons_held(v) == 1),
        v.rbutton() == RButtonState::Start <==> (v.button_start && rbuttons_held(v) == 1),
        v.rbutton() == RButtonState::Back <==> (v.button_back && rbuttons_held(v) == 1),
{
}

/// The modifiers held, read from (shift = left trigger, ctrl = left bumper,
/// alt = left stick click, super = xbox button): exactly these seven
/// combinations have a name, and every other one reads as `Neutral`.
pub proof fn law_modifier_combinations(v: ControllerView)
    ensures
        ({
            let s = v.trigger_l.pos != 0;
            let c = v.button_l_bumper;
            let a = v.button_l_stick;
            let x = v.button_xbox;
            &&& v.modifier() == ModifierState::Shift <==> (s && !c && !a && !x)
            &&& v.modifier() == ModifierState::Ctrl <==> (!s && c && !a && !x)
            &&& v.modifier() == ModifierState::Alt <==> (!s && !c && a && !x)
            &&& v.modifier() == ModifierState::AltShift <==> (s && !c && a && !x)
            &&& v.modifier() == ModifierState::AltCtrl <==> (!s && c && a && !x)
            &&& v.modifier() == ModifierState::Super <==> (!s && !c && !a && x)
            &&& v.modifier() == ModifierState::SuperCtrl <==> (!s && !c && a && x)
            &&& v.modifier() == ModifierState::Neutral <==> !((s && !c && !a && !x) || (!s && c && !a && !x)
                || (!s && !c && a && !x) || (s && !c && a && !x) || (!s && c && a && !x) || (!s && !c && !a
                && x) || (!s && !c && a && x))
        }),
{
}

/// The controller is at rest exactly when no right-hand input is held and
/// the right stick is within the tilt threshold on both axes; the direction
/// pad, the left stick and the modifiers play no part in it.
pub proof fn law_rest_is_neutral(v: ControllerView)
    ensures
        v.raw_state() == ControllerState::Neutral <==> (rbuttons_held(v) == 0 && -TILT_THRESHHOLD
            < v.stick_r.x_pos < TILT_THRESHHOLD && -TILT_THRESHHOLD < v.stick_r.y_pos < TILT_THRESHHOLD),
{
    reveal(ControllerView::raw_state);
    law_rbutton_reads_one_button(v);
}

/// The navigation macros that the right stick selects.
pub open spec fn is_navigation_macro(m: Macro) -> bool {
    match m {
        Macro::CharBack | Macro::CharFor | Macro::LineUp | Macro::LineDown | Macro::DelCharFor
        | Macro::DelCharBack | Macro::DelWordFor | Macro::DelWordBack | Macro::DelLineFor
        | Macro::DelLineBack | Macro::DelParDown | Macro::DelParUp => true,
        _ => false,
    }
}

/// With the right stick pushed, the right-hand inputs play no part: two
/// controllers that differ only in them select the same state, and that
/// state is a navigation macro or `Confused`.
pub proof fn law_right_stick_navigates(v: ControllerView, w: ControllerView)
    requires
        v.right_stick() != StickState::Neutral,
        w == (ControllerView {
            button_a: w.button_a,
            button_b: w.button_b,
            button_x: w.button_x,
            button_y: w.button_y,
            button_r_bumper: w.button_r_bumper,
            button_r_stick: w.button_r_stick,
            button_start: w.button_start,
            button_back: w.button_back,
            trigger_r: w.trigger_r,
            ..v
        }),
    ensures
        v.raw_state() == w.raw_state(),
        v.raw_state() == ControllerState::Confused || (v.raw_state() matches ControllerState::MacroReady(m)
            && is_navigation_macro(m)),
{
    reveal(ControllerView::raw_state);
}

/// The characters on which the modifiers act: the lower-case letters and
/// the digits.
pub open spec fn is_letter_or_digit(c: char) -> bool {
    ('a' <= c && c <= 'z') || ('0' <= c && c <= '9')
}

/// Every modable character that a chord selects is a lower-case letter or
/// a digit.
pub proof fn law_modable_chars_are_letters_or_digits(v: ControllerView)
    ensures
        v.raw_state() matches ControllerState::ModableReady(c) ==> is_letter_or_digit(c),
{
    reveal(ControllerView::raw_state);
}

/// A controller with the left stick at `(lx, ly)`, the given arrows of the
/// direction pad, and the one right-hand input `rb` held.
spec fn chord_view(lx: i16, ly: i16, d_down: bool, d_up: bool, rb: RButtonState) -> ControllerView {
    ControllerView {
        button_a: rb == RButtonState::Down,
        button_x: rb == RButtonState::Left,
        button_y: rb == RButtonState::Up,
        button_b: rb == RButtonState::Right,
        button_r_bumper: rb == RButtonState::Bumper,
        trigger_r: TriggerData { pos: if rb == RButtonState::Trigger { 255 } else { 0 } },
        button_dpad_down: d_down,
        button_dpad_up: d_up,
        stick_l: StickData { x_pos: lx, y_pos: ly },
        ..initial_view()
    }
}

proof fn lemma_chord_view(lx: i16, ly: i16, d_down: bool, d_up: bool, rb: RButtonState)
    requires
        rb == RButtonState::Down || rb == RButtonState::Left || rb == RButtonState::Up || rb
            == RButtonState::Right || rb == RButtonState::Bumper || rb == RButtonState::Trigger,
        !(d_down && d_up),
    ensures
        ({
            let v = chord_view(lx, ly, d_down, d_up, rb);
            let d = if d_down { DPadState::Down } else if d_up { DPadState::Up } else { DPadState::Neutral };
            &&& v.raw_state() == (if d == DPadState::Neutral {
                match letter_chord(stick_state_of(lx, ly), rb, ModifierState::Neutral) {
                    Some(s) => s,
                    None => ControllerState::Confused,
                }
            } else {
                match dpad_chord(d, rb, ModifierState::Neutral) {
                    Some(s) => s,
                    None => ControllerState::Confused,
                }
            })
        }),
{
    reveal(ControllerView::raw_state);
}

/// Each lower-case letter and each digit is selected by some chord.
pub proof fn law_every_letter_and_digit_has_a_chord(c: char)
    requires
        is_letter_or_digit(c),
    ensures
        exists|v: ControllerView| v.raw_state() == ControllerState::ModableReady(c),
{
    let up: i16 = 20000;
    let down: i16 = -20000i16;
    let rbs = seq![
        RButtonState::Down,
        RButtonState::Left,
        RButtonState::Up,
        RButtonState::Right,
        RButtonState::Bumper,
        RButtonState::Trigger,
    ];
    // (left stick, arrow, right-hand input) for each character
    let (lx, ly, dd, du, i): (i16, i16, bool, bool, int) = if c == 'a' {
        (0, 0, false, false, 0)
    } else if c == 'e' {
        (0, 0, false, false, 1)
    } else if c == 'i' {
        (0, 0, false, false, 2)
    } else if c == 'o' {
        (0, 0, false, false, 3)
    } else if c == 'u' {
        (0, 0, false, false, 4)
    } else if c == 'y' {
        (0, 0, false, false, 5)
    } else if c == 'p' {
        (0, up, false, false, 0)
    } else if c == 't' {
        (0, up, false, false, 1)
    } else if c == 'f' {
        (0, up, false, false, 2)
    } else if c == 's' {
        (0, up, false, false, 3)
    } else if c == 'c' {
        (0, up, false, false, 4)
    } else if c == 'k' {
        (0, up, false, false, 5)
    } else if c == 'b' {
        (0, down, false, false, 0)
    } else if c == 'd' {
        (0, down, false, false, 1)
    } else if c == 'v' {
        (0, down, false, false, 2)
    } else if c == 'z' {
        (0, down, false, false, 3)
    } else if c == 'g' {
        (0, down, false, false, 4)
    } else if c == 'j' {
        (0, down, false, false, 5)
    } else if c == 'h' {
        (up, 0, false, false, 0)
    } else if c == 'l' {
        (up, 0, false, false, 1)
    } else if c == 'r' {
        (up, 0, false, false, 2)
    } else if c == 'w' {
        (up, 0, false, false, 3)
    } else if c == 'm' {
        (down, 0, false, false, 0)
    } else if c == 'n' {
        (down, 0, false, false, 1)
    } else if c == 'q' {
        (down, 0, false, false, 2)
    } else if c == 'x' {
        (down, 0, false, false, 3)
    } else if c == '1' {
        (0, 0, true, false, 0)
    } else if c == '2' {
        (0, 0, true, false, 1)
    } else if c == '3' {
        (0, 0, true, false, 2)
    } else if c == '4' {
        (0, 0, true, false, 3)
    } else if c == '5' {
        (0, 0, true, false, 4)
    } else if c == '6' {
        (0, 0, true, false, 5)
    } else if c == '7' {
        (0, 0, false, true, 0)
    } else if c == '8' {
        (0, 0, false, true, 1)
    } else if c == '9' {
        (0, 0, false, true, 2)
    } else {
        (0, 0, false, true, 3)
    };
    lemma_chord_view(lx, ly, dd, du, rbs[i]);
    let v = chord_view(lx, ly, dd, du, rbs[i]);
    assert(v.raw_state() == ControllerState::ModableReady(c));
}

/// The previous state changes the reading of the held chord only for `i`
/// followed by `v`: the state is the `if` macro exactly then, and in every
/// other case it is the chord itself (so `i` followed by `f` is `f`).
pub proof fn law_only_i_then_v_combines(v: ControllerView)
    ensures
        v.state() == ControllerState::MacroReady(Macro::If) <==> (v.last_state == ControllerState::ModableReady('i')
            && v.raw_state() == ControllerState::ModableReady('v')),
        !(v.last_state == ControllerState::ModableReady('i') && v.raw_state() == ControllerState::ModableReady(
            'v',
        )) ==> v.state() == v.raw_state(),
{
    reveal(ControllerView::raw_state);
}

/// A stick position well inside the tilt threshold on both axes.
pub open spec fn centred(s: StickData) -> bool {
    -6000 < s.x_pos < 6000 && -6000 < s.y_pos < 6000
}

/// A stick pushed up, with little sideways travel.
pub open spec fn pushed_up(s: StickData) -> bool {
    -6000 < s.x_pos < 6000 && s.y_pos >= 6000
}

/// A stick pushed down, with little sideways travel.
pub open spec fn pushed_down(s: StickData) -> bool {
    -6000 < s.x_pos < 6000 && s.y_pos < -6000
}

/// A stick pushed right, with little vertical travel.
pub open spec fn pushed_right(s: StickData) -> bool {
    s.x_pos >= 6000 && -6000 < s.y_pos < 6000
}

/// A stick pushed left, with little vertical travel.
pub open spec fn pushed_left(s: StickData) -> bool {
    s.x_pos < -6000 && -6000 < s.y_pos < 6000
}

/// The right-hand inputs held are exactly the ones given (A, X, Y, B, the
/// right bumper, the right trigger); the right stick click, start and back
/// are released.
pub open spec fn right_hand_is(v: ControllerView, a: bool, x: bool, y: bool, b: bool, rb: bool, rt: bool) -> bool {
    &&& v.button_a == a
    &&& v.button_x == x
    &&& v.button_y == y
    &&& v.button_b == b
    &&& v.button_r_bumper == rb
    &&& (v.trigger_r.pos != 0) == rt
    &&& !v.button_r_stick
    &&& !v.button_start
    &&& !v.button_back
}

/// No arrow of the direction pad is held and the right stick is centred:
/// the left stick and one right-hand input make a letter.
pub open spec fn letter_hand(v: ControllerView) -> bool {
    &&& !v.button_dpad_down
    &&& !v.button_dpad_left
    &&& !v.button_dpad_up
    &&& !v.button_dpad_right
    &&& centred(v.stick_r)
}

/// The vowels: left stick centred, and A, X, Y, B, the right bumper or the
/// right trigger gives a, e, i, o, u or y, whatever modifiers are held.
pub proof fn law_vowel_chords(v: ControllerView)
    requires
        letter_hand(v),
        centred(v.stick_l),
    ensures
        right_hand_is(v, true, false, false, false, false, false) ==> v.raw_state() == ControllerState::ModableReady('a'),
        right_hand_is(v, false, true, false, false, false, false) ==> v.raw_state() == ControllerState::ModableReady('e'),
        right_hand_is(v, false, false, true, false, false, false) ==> v.raw_state() == ControllerState::ModableReady('i'),
        right_hand_is(v, false, false, false, true, false, false) ==> v.raw_state() == ControllerState::ModableReady('o'),
        right_hand_is(v, false, false, false, false, true, false) ==> v.raw_state() == ControllerState::ModableReady('u'),
        right_hand_is(v, false, false, false, false, false, true) ==> v.raw_state() == ControllerState::ModableReady('y'),
{
    reveal(ControllerView::raw_state);
}

/// Left stick up: A, X, Y, B, the right bumper or the right trigger gives
/// p, t, f, s, c or k.
pub proof fn law_up_chords(v: ControllerView)
    requires
        letter_hand(v),
        pushed_up(v.stick_l),
    ensures
        right_hand_is(v, true, false, false, false, false, false) ==> v.raw_state() == ControllerState::ModableReady('p'),
        right_hand_is(v, false, true, false, false, false, false) ==> v.raw_state() == ControllerState::ModableReady('t'),
        right_hand_is(v, false, false, true, false, false, false) ==> v.raw_state() == ControllerState::ModableReady('f'),
        right_hand_is(v, false, false, false, true, false, false) ==> v.raw_state() == ControllerState::ModableReady('s'),
        right_hand_is(v, false, false, false, false, true, false) ==> v.raw_state() == ControllerState::ModableReady('c'),
        right_hand_is(v, false, false, false, false, false, true) ==> v.raw_state() == ControllerState::ModableReady('k'),
{
    reveal(ControllerView::raw_state);
}

/// Left stick down: A, X, Y, B, the right bumper or the right trigger gives
/// b, d, v, z, g or j.
pub proof fn law_down_chords(v: ControllerView)
    requires
        letter_hand(v),
        pushed_down(v.stick_l),
    ensures
        right_hand_is(v, true, false, false, false, false, false) ==> v.raw_state() == ControllerState::ModableReady('b'),
        right_hand_is(v, false, true, false, false, false, false) ==> v.raw_state() == ControllerState::ModableReady('d'),
        right_hand_is(v, false, false, true, false, false, false) ==> v.raw_state() == ControllerState::ModableReady('v'),
        right_hand_is(v, false, false, false, true, false, false) ==> v.raw_state() == ControllerState::ModableReady('z'),
        right_hand_is(v, false, false, false, false, true, false) ==> v.raw_state() == ControllerState::ModableReady('g'),
        right_hand_is(v, false, false, false, false, false, true) ==> v.raw_state() == ControllerState::ModableReady('j'),
{
    reveal(ControllerView::raw_state);
}

/// Left stick right: A, X, Y or B gives h, l, r or w; left stick left: m,
/// n, q or x.
pub proof fn law_side_chords(v: ControllerView)
    requires
        letter_hand(v),
    ensures
        pushed_right(v.stick_l) && right_hand_is(v, true, false, false, false, false, false) ==> v.raw_state()
            == ControllerState::ModableReady('h'),
        pushed_right(v.stick_l) && right_hand_is(v, false, true, false, false, false, false) ==> v.raw_state()
            == ControllerState::ModableReady('l'),
        pushed_right(v.stick_l) && right_hand_is(v, false, false, true, false, false, false) ==> v.raw_state()
            == ControllerState::ModableReady('r'),
        pushed_right(v.stick_l) && right_hand_is(v, false, false, false, true, false, false) ==> v.raw_state()
            == ControllerState::ModableReady('w'),
        pushed_left(v.stick_l) && right_hand_is(v, true, false, false, false, false, false) ==> v.raw_state()
            == ControllerState::ModableReady('m'),
        pushed_left(v.stick_l) && right_hand_is(v, false, true, false, false, false, false) ==> v.raw_state()
            == ControllerState::ModableReady('n'),
        pushed_left(v.stick_l) && right_hand_is(v, false, false, true, false, false, false) ==> v.raw_state()
            == ControllerState::ModableReady('q'),
        pushed_left(v.stick_l) && right_hand_is(v, false, false, false, true, false, false) ==> v.raw_state()
            == ControllerState::ModableReady('x'),
{
    reveal(ControllerView::raw_state);
}

/// The digits, whatever the left stick and the modifiers do: the down
/// arrow of the direction pad with A, X, Y, B, the right bumper or the
/// right trigger gives 1 to 6; the up arrow with A, X, Y or B gives 7, 8, 9
/// or 0.
pub proof fn law_digit_chords(v: ControllerView)
    requires
        centred(v.stick_r),
        !v.button_dpad_left,
        !v.button_dpad_right,
    ensures
        v.button_dpad_down && !v.button_dpad_up && right_hand_is(v, true, false, false, false, false, false)
            ==> v.raw_state() == ControllerState::ModableReady('1'),
        v.button_dpad_down && !v.button_dpad_up && right_hand_is(v, false, true, false, false, false, false)
            ==> v.raw_state() == ControllerState::ModableReady('2'),
        v.button_dpad_down && !v.button_dpad_up && right_hand_is(v, false, false, true, false, false, false)
            ==> v.raw_state() == ControllerState::ModableReady('3'),
        v.button_dpad_down && !v.button_dpad_up && right_hand_is(v, false, false, false, true, false, false)
            ==> v.raw_state() == ControllerState::ModableReady('4'),
        v.button_dpad_down && !v.button_dpad_up && right_hand_is(v, false, false, false, false, true, false)
            ==> v.raw_state() == ControllerState::ModableReady('5'),
        v.button_dpad_down && !v.button_dpad_up && right_hand_is(v, false, false, false, false, false, true)
            ==> v.raw_state() == ControllerState::ModableReady('6'),
        v.button_dpad_up && !v.button_dpad_down && right_hand_is(v, true, false, false, false, false, false)
            ==> v.raw_state() == ControllerState::ModableReady('7'),
        v.button_dpad_up && !v.button_dpad_down && right_hand_is(v, false, true, false, false, false, false)
            ==> v.raw_state() == ControllerState::ModableReady('8'),
        v.button_dpad_up && !v.button_dpad_down && right_hand_is(v, false, false, true, false, false, false)
            ==> v.raw_state() == ControllerState::ModableReady('9'),
        v.button_dpad_up && !v.button_dpad_down && right_hand_is(v, false, false, false, true, false, false)
            ==> v.raw_state() == ControllerState::ModableReady('0'),
{
    reveal(ControllerView::raw_state);
}

/// No modifier is held: left trigger, left bumper, left stick click and
/// xbox button are all released.
pub open spec fn no_modifier(v: ControllerView) -> bool {
    v.trigger_l.pos == 0 && !v.button_l_bumper && !v.button_l_stick && !v.button_xbox
}

/// The right stick alone moves the cursor the way it points: up, down,
/// right and left select line up, line down, character forward and
/// character back.
pub proof fn law_right_stick_directions(v: ControllerView)
    requires
        dpad_held(v) == 0,
        no_modifier(v),
    ensures
        pushed_up(v.stick_r) ==> v.raw_state() == ControllerState::MacroReady(Macro::LineUp),
        pushed_down(v.stick_r) ==> v.raw_state() == ControllerState::MacroReady(Macro::LineDown),
        pushed_right(v.stick_r) ==> v.raw_state() == ControllerState::MacroReady(Macro::CharFor),
        pushed_left(v.stick_r) ==> v.raw_state() == ControllerState::MacroReady(Macro::CharBack),
{
    reveal(ControllerView::raw_state);
}

/// Only the left trigger among the modifiers is held.
pub open spec fn shift_only(v: ControllerView) -> bool {
    v.trigger_l.pos != 0 && !v.button_l_bumper && !v.button_l_stick && !v.button_xbox
}

/// Only the left bumper among the modifiers is held.
pub open spec fn ctrl_only(v: ControllerView) -> bool {
    v.trigger_l.pos == 0 && v.button_l_bumper && !v.button_l_stick && !v.button_xbox
}

/// Only the left stick click among the modifiers is held.
pub open spec fn alt_only(v: ControllerView) -> bool {
    v.trigger_l.pos == 0 && !v.button_l_bumper && v.button_l_stick && !v.button_xbox
}

/// Only the up arrow of the direction pad is held.
pub open spec fn only_up(v: ControllerView) -> bool {
    v.button_dpad_up && !v.button_dpad_down && !v.button_dpad_left && !v.button_dpad_right
}

/// Only the down arrow of the direction pad is held.
pub open spec fn only_down(v: ControllerView) -> bool {
    v.button_dpad_down && !v.button_dpad_up && !v.button_dpad_left && !v.button_dpad_right
}

/// Only the right arrow of the direction pad is held.
pub open spec fn only_right(v: ControllerView) -> bool {
    v.button_dpad_right && !v.button_dpad_up && !v.button_dpad_left && !v.button_dpad_down
}

/// Only the left arrow of the direction pad is held.
pub open spec fn only_left(v: ControllerView) -> bool {
    v.button_dpad_left && !v.button_dpad_up && !v.button_dpad_right && !v.button_dpad_down
}

/// The punctuation, typed exactly as given: one arrow of the direction pad,
/// one right-hand input and the modifiers held pick the character (up:
/// - + and, with shift, _ =; right: ( ) < > ' / and, with shift, [ ] " \
/// and, with ctrl, { } ` | and, with alt, ~; left: . , : ; ? !).
pub proof fn law_punctuation_chords(v: ControllerView)
    requires
        centred(v.stick_r),
    ensures
        only_up(v) && no_modifier(v) && right_hand_is(v, false, false, false, false, true, false) ==> v.raw_state() == ControllerState::ExactReady('-'),
        only_up(v) && no_modifier(v) && right_hand_is(v, false, false, false, false, false, true) ==> v.raw_state() == ControllerState::ExactReady('+'),
        only_up(v) && shift_only(v) && right_hand_is(v, false, false, false, false, true, false) ==> v.raw_state() == ControllerState::ExactReady('_'),
        only_up(v) && shift_only(v) && right_hand_is(v, false, false, false, false, false, true) ==> v.raw_state() == ControllerState::ExactReady('='),
        only_right(v) && no_modifier(v) && right_hand_is(v, false, true, false, false, false, false) ==> v.raw_state() == ControllerState::ExactReady('('),
        only_right(v) && no_modifier(v) && right_hand_is(v, false, false, false, true, false, false) ==> v.raw_state() == ControllerState::ExactReady(')'),
        only_right(v) && shift_only(v) && right_hand_is(v, false, true, false, false, false, false) ==> v.raw_state() == ControllerState::ExactReady('['),
        only_right(v) && shift_only(v) && right_hand_is(v, false, false, false, true, false, false) ==> v.raw_state() == ControllerState::ExactReady(']'),
        only_right(v) && ctrl_only(v) && right_hand_is(v, false, true, false, false, false, false) ==> v.raw_state() == ControllerState::ExactReady('{'),
        only_right(v) && ctrl_only(v) && right_hand_is(v, false, false, false, true, false, false) ==> v.raw_state() == ControllerState::ExactReady('}'),
        only_right(v) && no_modifier(v) && right_hand_is(v, true, false, false, false, false, false) ==> v.raw_state() == ControllerState::ExactReady('<'),
        only_right(v) && no_modifier(v) && right_hand_is(v, false, false, true, false, false, false) ==> v.raw_state() == ControllerState::ExactReady('>'),
        only_right(v) && no_modifier(v) && right_hand_is(v, false, false, false, false, true, false) ==> v.raw_state() == ControllerState::ExactReady('\''),
        only_right(v) && shift_only(v) && right_hand_is(v, false, false, false, false, true, false) ==> v.raw_state() == ControllerState::ExactReady('"'),
        only_right(v) && ctrl_only(v) && right_hand_is(v, false, false, false, false, true, false) ==> v.raw_state() == ControllerState::ExactReady('`'),
        only_right(v) && alt_only(v) && right_hand_is(v, false, false, false, false, true, false) ==> v.raw_state() == ControllerState::ExactReady('~'),
        only_right(v) && no_modifier(v) && right_hand_is(v, false, false, false, false, false, true) ==> v.raw_state() == ControllerState::ExactReady('/'),
        only_right(v) && shift_only(v) && right_hand_is(v, false, false, false, false, false, true) ==> v.raw_state() == ControllerState::ExactReady('\\'),
        only_right(v) && ctrl_only(v) && right_hand_is(v, false, false, false, false, false, true) ==> v.raw_state() == ControllerState::ExactReady('|'),
        only_left(v) && no_modifier(v) && right_hand_is(v, true, false, false, false, false, false) ==> v.raw_state() == ControllerState::ExactReady('.'),
        only_left(v) && no_modifier(v) && right_hand_is(v, false, true, false, false, false, false) ==> v.raw_state() == ControllerState::ExactReady(','),
        only_left(v) && no_modifier(v) && right_hand_is(v, false, false, true, false, false, false) ==> v.raw_state() == ControllerState::ExactReady(':'),
        only_left(v) && no_modifier(v) && right_hand_is(v, false, false, false, true, false, false) ==> v.raw_state() == ControllerState::ExactReady(';'),
        only_left(v) && no_modifier(v) && right_hand_is(v, false, false, false, false, true, false) ==> v.raw_state() == ControllerState::ExactReady('?'),
        only_left(v) && no_modifier(v) && right_hand_is(v, false, false, false, false, false, true) ==> v.raw_state() == ControllerState::ExactReady('!'),
{
    reveal(ControllerView::raw_state);
}

/// The middle buttons and the right stick click, with the left stick and
/// the direction pad at rest: back is undo, start is tab, the click is a
/// space, or enter with shift held.
pub proof fn law_middle_button_chords(v: ControllerView)
    requires
        letter_hand(v),
        centred(v.stick_l),
        !v.button_a && !v.button_x && !v.button_y && !v.button_b && !v.button_r_bumper && v.trigger_r.pos == 0,
    ensures
        v.button_back && !v.button_start && !v.button_r_stick ==> v.raw_state() == ControllerState::MacroReady(Macro::Undo),
        v.button_start && !v.button_back && !v.button_r_stick ==> v.raw_state() == ControllerState::MacroReady(Macro::Tab),
        v.button_r_stick && !v.button_back && !v.button_start && no_modifier(v) ==> v.raw_state()
            == ControllerState::ExactReady(' '),
        v.button_r_stick && !v.button_back && !v.button_start && shift_only(v) ==> v.raw_state()
            == ControllerState::MacroReady(Macro::Enter),
{
    reveal(ControllerView::raw_state);
}

/// The right stick with the down arrow of the direction pad deletes the
/// way it points: right and left delete a character forward and back (a
/// word with shift), down and up delete a line forward and back (a
/// paragraph with shift).
pub proof fn law_right_stick_deletes(v: ControllerView)
    requires
        only_down(v),
    ensures
        pushed_right(v.stick_r) && no_modifier(v) ==> v.raw_state() == ControllerState::MacroReady(Macro::DelCharFor),
        pushed_left(v.stick_r) && no_modifier(v) ==> v.raw_state() == ControllerState::MacroReady(Macro::DelCharBack),
        pushed_right(v.stick_r) && shift_only(v) ==> v.raw_state() == ControllerState::MacroReady(Macro::DelWordFor),
        pushed_left(v.stick_r) && shift_only(v) ==> v.raw_state() == ControllerState::MacroReady(Macro::DelWordBack),
        pushed_down(v.stick_r) && no_modifier(v) ==> v.raw_state() == ControllerState::MacroReady(Macro::DelLineFor),
        pushed_up(v.stick_r) && no_modifier(v) ==> v.raw_state() == ControllerState::MacroReady(Macro::DelLineBack),
        pushed_down(v.stick_r) && shift_only(v) ==> v.raw_state() == ControllerState::MacroReady(Macro::DelParDown),
        pushed_up(v.stick_r) && shift_only(v) ==> v.raw_state() == ControllerState::MacroReady(Macro::DelParUp),
{
    reveal(ControllerView::raw_state);
}

} // verus!
