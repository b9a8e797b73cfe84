pub mod xboxcontroller;

use vstd::prelude::*;
use crate::xkey::xboxcontroller::{
    ControllerData, ControllerState, ControllerView, Macro, init_controller_data,
    initial_view, is_emitted, is_emitted_macro, law_loaded_inputs_are_in_place,
    law_unchanged_state_keeps_history, law_right_stick_directions, dpad_held, no_modifier,
    pushed_up, pushed_down, pushed_left, pushed_right, shift_only, ctrl_only,
};

verus! {

/// The keys that the output presses.
#[derive(Debug, Clone, Copy, PartialEq, Eq, Structural)]
pub enum Key {
    Alt,
    Backspace,
    Control,
    DownArrow,
    LeftArrow,
    Return,
    RightArrow,
    Shift,
    Super,
    Tab,
    UpArrow,
}

/// One step of keyboard output.
#[derive(Debug, Clone, Copy, PartialEq, Eq, Structural)]
pub enum KeyAction {
    /// Press a key and keep it held.
    Down(Key),
    /// Release a held key.
    Up(Key),
    /// Press and release a key.
    Click(Key),
    /// Type one character as text.
    Type(char),
}

/// One part of a macro's output.
pub enum OutPart {
    ModifierDown(Key),
    ModifierUp(Key),
    KeySequence(String),
    SpecialKey(Key),
}

/// A macro part as plain values.
pub enum PartView {
    ModifierDown(Key),
    ModifierUp(Key),
    KeySequence(Seq<char>),
    SpecialKey(Key),
}

impl View for OutPart {
    type V = PartView;

    open spec fn view(&self) -> PartView {
        match self {
            OutPart::ModifierDown(k) => PartView::ModifierDown(*k),
            OutPart::ModifierUp(k) => PartView::ModifierUp(*k),
            OutPart::KeySequence(s) => PartView::KeySequence(s@),
            OutPart::SpecialKey(k) => PartView::SpecialKey(*k),
        }
    }
}

/// The parts of a macro as plain values.
pub open spec fn parts_view(parts: Seq<OutPart>) -> Seq<PartView> {
    parts.map_values(|p: OutPart| p@)
}

/// The keys that type one character: newline is the return key, and the
/// braces are typed as shifted square brackets.
pub open spec fn char_actions(c: char) -> Seq<KeyAction> {
    if c == '\n' {
        seq![KeyAction::Click(Key::Return)]
    } else if c == '}' {
        seq![KeyAction::Down(Key::Shift), KeyAction::Type(']'), KeyAction::Up(Key::Shift)]
    } else if c == '{' {
        seq![KeyAction::Down(Key::Shift), KeyAction::Type('['), KeyAction::Up(Key::Shift)]
    } else {
        seq![KeyAction::Type(c)]
    }
}

/// The keys that type a string, character by character.
pub open spec fn string_actions(s: Seq<char>) -> Seq<KeyAction>
    decreases s.len(),
{
    if s.len() == 0 {
        seq![]
    } else {
        string_actions(s.drop_last()) + char_actions(s.last())
    }
}

pub open spec fn part_actions(p: PartView) -> Seq<KeyAction> {
    match p {
        PartView::KeySequence(s) => string_actions(s),
        PartView::ModifierDown(k) => seq![KeyAction::Down(k)],
        PartView::ModifierUp(k) => seq![KeyAction::Up(k)],
        PartView::SpecialKey(k) => seq![KeyAction::Click(k)],
    }
}

/// The keys that play a macro, part by part.
pub open spec fn parts_actions(ps: Seq<PartView>) -> Seq<KeyAction>
    decreases ps.len(),
{
    if ps.len() == 0 {
        seq![]
    } else {
        parts_actions(ps.drop_last()) + part_actions(ps.last())
    }
}

/// The table of macros: what each one types. The table is constant, so it
/// is a `match` on the macro rather than a map built at start-up: a map
/// keyed by `Macro` would rest on the derived `Hash` and `Eq` of the enum,
/// which Verus does not read, and `macro_parts` returns exactly these
/// parts for each macro.
pub open spec fn macro_table(m: Macro) -> Option<Seq<PartView>> {
    match m {
        // navigation
        Macro::CharBack => Some(seq![PartView::SpecialKey(Key::LeftArrow)]),
        Macro::CharFor => Some(seq![PartView::SpecialKey(Key::RightArrow)]),
        Macro::LineDown => Some(seq![PartView::SpecialKey(Key::DownArrow)]),
        Macro::LineUp => Some(seq![PartView::SpecialKey(Key::UpArrow)]),
        Macro::WordFor => Some(seq![PartView::ModifierDown(Key::Alt), PartView::KeySequence(seq!['f'])]),
        Macro::WordBack => Some(seq![PartView::ModifierDown(Key::Alt), PartView::KeySequence(seq!['b'])]),
        Macro::ParDown => Some(seq![PartView::ModifierDown(Key::Alt), PartView::KeySequence(seq!['n'])]),
        Macro::ParUp => Some(seq![PartView::ModifierDown(Key::Alt), PartView::KeySequence(seq!['p'])]),
        // deletion
        Macro::DelCharFor => Some(seq![PartView::ModifierDown(Key::Control), PartView::KeySequence(seq!['d'])]),
        Macro::DelCharBack => Some(seq![PartView::ModifierDown(Key::Control), PartView::SpecialKey(Key::Backspace)]),
        Macro::DelWordFor => Some(seq![PartView::ModifierDown(Key::Alt), PartView::KeySequence(seq!['d'])]),
        Macro::DelWordBack => Some(seq![PartView::ModifierDown(Key::Alt), PartView::SpecialKey(Key::Backspace)]),
        Macro::DelLineFor => Some(seq![PartView::ModifierDown(Key::Control), PartView::KeySequence(seq!['k'])]),
        Macro::DelLineBack => Some(seq![PartView::ModifierDown(Key::Control), PartView::KeySequence(seq![' ', 'a', 'w'])]),
        Macro::DelParDown => Some(seq![PartView::ModifierDown(Key::Alt), PartView::KeySequence(seq!['k'])]),
        Macro::DelParUp => Some(
            seq![
                PartView::ModifierDown(Key::Control),
                PartView::KeySequence(seq![' ']),
                PartView::ModifierUp(Key::Control),
                PartView::ModifierDown(Key::Alt),
                PartView::KeySequence(seq!['p']),
                PartView::ModifierUp(Key::Alt),
                PartView::ModifierDown(Key::Control),
                PartView::KeySequence(seq!['w']),
            ],
        ),
        // specials
        Macro::Enter => Some(seq![PartView::SpecialKey(Key::Return)]),
        Macro::Tab => Some(seq![PartView::SpecialKey(Key::Tab)]),
        Macro::Super => Some(seq![PartView::SpecialKey(Key::Super)]),
        // other
        Macro::Undo => Some(
            seq![
                PartView::ModifierDown(Key::Control),
                PartView::KeySequence(seq!['x']),
                PartView::ModifierUp(Key::Control),
                PartView::KeySequence(seq!['u']),
            ],
        ),
        // expansions
        Macro::If => Some(
            seq![
                PartView::KeySequence(seq!['i', 'f', ' ', ' ', '{', '\n', '\n', '}']),
                PartView::ModifierDown(Key::Control),
                PartView::KeySequence(seq!['p', 'p', 'a']),
                PartView::ModifierUp(Key::Control),
                PartView::ModifierDown(Key::Alt),
                PartView::KeySequence(seq!['f']),
                PartView::ModifierUp(Key::Alt),
                PartView::ModifierDown(Key::Control),
                PartView::KeySequence(seq!['f']),
            ],
        ),
        _ => None,
    }
}

fn key_sequence(s: &str) -> (r: OutPart)
    ensures
        r@ == PartView::KeySequence(s@),
{
    OutPart::KeySequence(String::from_str(s))
}

/// The parts of macro `m`, or `None` for a macro without an expansion.
pub fn macro_parts(m: Macro) -> (r: Option<Vec<OutPart>>)
    ensures
        r is Some <==> macro_table(m) is Some,
        r matches Some(parts) ==> parts_view(parts@) == macro_table(m).unwrap(),
{
    match m {
        // navigation
        Macro::CharBack => {
            let parts = vec![
                OutPart::SpecialKey(Key::LeftArrow),
            ];
            assert(parts_view(parts@) =~= macro_table(m).unwrap());
            Some(parts)
        },
        Macro::CharFor => {
            let parts = vec![
                OutPart::SpecialKey(Key::RightArrow),
            ];
            assert(parts_view(parts@) =~= macro_table(m).unwrap());
            Some(parts)
        },
        Macro::LineDown => {
            let parts = vec![
                OutPart::SpecialKey(Key::DownArrow),
            ];
            assert(parts_view(parts@) =~= macro_table(m).unwrap());
            Some(parts)
        },
        Macro::LineUp => {
            let parts = vec![
                OutPart::SpecialKey(Key::UpArrow),
            ];
            assert(parts_view(parts@) =~= macro_table(m).unwrap());
            Some(parts)
        },
        Macro::WordFor => {
            proof {
                reveal_strlit("f");
                assert("f"@ =~= seq!['f']);
            }
            let parts = vec![
                OutPart::ModifierDown(Key::Alt),
                key_sequence("f"),
            ];
            assert(parts_view(parts@) =~= macro_table(m).unwrap());
            Some(parts)
        },
        Macro::WordBack => {
            proof {
                reveal_strlit("b");
                assert("b"@ =~= seq!['b']);
            }
            let parts = vec![
                OutPart::ModifierDown(Key::Alt),
                key_sequence("b"),
            ];
            assert(parts_view(parts@) =~= macro_table(m).unwrap());
            Some(parts)
        },
        Macro::ParDown => {
            proof {
                reveal_strlit("n");
                assert("n"@ =~= seq!['n']);
            }
            let parts = vec![
                OutPart::ModifierDown(Key::Alt),
                key_sequence("n"),
            ];
            assert(parts_view(parts@) =~= macro_table(m).unwrap());
            Some(parts)
        },
        Macro::ParUp => {
            proof {
                reveal_strlit("p");
                assert("p"@ =~= seq!['p']);
            }
            let parts = vec![
                OutPart::ModifierDown(Key::Alt),
                key_sequence("p"),
            ];
            assert(parts_view(parts@) =~= macro_table(m).unwrap());
            Some(parts)
        },
        // deletion
        Macro::DelCharFor => {
            proof {
                reveal_strlit("d");
                assert("d"@ =~= seq!['d']);
            }
            let parts = vec![
                OutPart::ModifierDown(Key::Control),
                key_sequence("d"),
            ];
            assert(parts_view(parts@) =~= macro_table(m).unwrap());
            Some(parts)
        },
        Macro::DelCharBack => {
            let parts = vec![
                OutPart::ModifierDown(Key::Control),
                OutPart::SpecialKey(Key::Backspace),
            ];
            assert(parts_view(parts@) =~= macro_table(m).unwrap());
            Some(parts)
        },
        Macro::DelWordFor => {
            proof {
                reveal_strlit("d");
                assert("d"@ =~= seq!['d']);
            }
            let parts = vec![
                OutPart::ModifierDown(Key::Alt),
                key_sequence("d"),
            ];
            assert(parts_view(parts@) =~= macro_table(m).unwrap());
            Some(parts)
        },
        Macro::DelWordBack => {
            let parts = vec![
                OutPart::ModifierDown(Key::Alt),
                OutPart::SpecialKey(Key::Backspace),
            ];
            assert(parts_view(parts@) =~= macro_table(m).unwrap());
            Some(parts)
        },
        Macro::DelLineFor => {
            proof {
                reveal_strlit("k");
                assert("k"@ =~= seq!['k']);
            }
            let parts = vec![
                OutPart::ModifierDown(Key::Control),
                key_sequence("k"),
            ];
            assert(parts_view(parts@) =~= macro_table(m).unwrap());
            Some(parts)
        },
        Macro::DelLineBack => {
            proof {
                reveal_strlit(" aw");
                assert(" aw"@ =~= seq![' ', 'a', 'w']);
            }
            let parts = vec![
                OutPart::ModifierDown(Key::Control),
                key_sequence(" aw"),
            ];
            assert(parts_view(parts@) =~= macro_table(m).unwrap());
            Some(parts)
        },
        Macro::DelParDown => {
            proof {
                reveal_strlit("k");
                assert("k"@ =~= seq!['k']);
            }
            let parts = vec![
                OutPart::ModifierDown(Key::Alt),
                key_sequence("k"),
            ];
            assert(parts_view(parts@) =~= macro_table(m).unwrap());
            Some(parts)
        },
        Macro::DelParUp => {
            proof {
                reveal_strlit(" ");
                assert(" "@ =~= seq![' ']);
                reveal_strlit("p");
                assert("p"@ =~= seq!['p']);
                reveal_strlit("w");
                assert("w"@ =~= seq!['w']);
            }
            let parts = vec![
                OutPart::ModifierDown(Key::Control),
                key_sequence(" "),
                OutPart::ModifierUp(Key::Control),
                OutPart::ModifierDown(Key::Alt),
                key_sequence("p"),
                OutPart::ModifierUp(Key::Alt),
                OutPart::ModifierDown(Key::Control),
                key_sequence("w"),
            ];
            assert(parts_view(parts@) =~= macro_table(m).unwrap());
            Some(parts)
        },
        // specials
        Macro::Enter => {
            let parts = vec![
                OutPart::SpecialKey(Key::Return),
            ];
            assert(parts_view(parts@) =~= macro_table(m).unwrap());
            Some(parts)
        },
        Macro::Tab => {
            let parts = vec![
                OutPart::SpecialKey(Key::Tab),
            ];
            assert(parts_view(parts@) =~= macro_table(m).unwrap());
            Some(parts)
        },
        Macro::Super => {
            let parts = vec![
                OutPart::SpecialKey(Key::Super),
            ];
            assert(parts_view(parts@) =~= macro_table(m).unwrap());
            Some(parts)
        },
        // other
        Macro::Undo => {
            proof {
                reveal_strlit("u");
                assert("u"@ =~= seq!['u']);
                reveal_strlit("x");
                assert("x"@ =~= seq!['x']);
            }
            let parts = vec![
                OutPart::ModifierDown(Key::Control),
                key_sequence("x"),
                OutPart::ModifierUp(Key::Control),
                key_sequence("u"),
            ];
            assert(parts_view(parts@) =~= macro_table(m).unwrap());
            Some(parts)
        },
        // expansions
        Macro::If => {
            proof {
                reveal_strlit("f");
                assert("f"@ =~= seq!['f']);
                reveal_strlit("if  {\n\n}");
                assert("if  {\n\n}"@ =~= seq!['i', 'f', ' ', ' ', '{', '\n', '\n', '}']);
                reveal_strlit("ppa");
                assert("ppa"@ =~= seq!['p', 'p', 'a']);
            }
            let parts = vec![
                key_sequence("if  {\n\n}"),
                OutPart::ModifierDown(Key::Control),
                key_sequence("ppa"),
                OutPart::ModifierUp(Key::Control),
                OutPart::ModifierDown(Key::Alt),
                key_sequence("f"),
                OutPart::ModifierUp(Key::Alt),
                OutPart::ModifierDown(Key::Control),
                key_sequence("f"),
            ];
            assert(parts_view(parts@) =~= macro_table(m).unwrap());
            Some(parts)
        },
        _ => None,
    }
}

/// The modifier presses for the modifiers held on the controller: shift,
/// ctrl, alt and super, in that order.
pub open spec fn press_mods_actions(v: ControllerView) -> Seq<KeyAction> {
    (if v.trigger_l.pos != 0 { seq![KeyAction::Down(Key::Shift)] } else { seq![] }) + (if v.button_l_bumper {
        seq![KeyAction::Down(Key::Control)]
    } else {
        seq![]
    }) + (if v.button_l_stick { seq![KeyAction::Down(Key::Alt)] } else { seq![] }) + (if v.button_xbox {
        seq![KeyAction::Down(Key::Super)]
    } else {
        seq![]
    })
}

/// The release of every modifier: shift, ctrl, alt, super.
pub open spec fn release_mods_actions() -> Seq<KeyAction> {
    seq![
        KeyAction::Up(Key::Shift),
        KeyAction::Up(Key::Control),
        KeyAction::Up(Key::Alt),
        KeyAction::Up(Key::Super),
    ]
}

/// The keys that the controller `v` types for the state `s` it leaves:
/// a modable character under the held modifiers, an exact character, or a
/// macro; then every modifier is released.
pub open spec fn output_actions(v: ControllerView, s: ControllerState) -> Seq<KeyAction> {
    (match s {
        ControllerState::ModableReady(c) => press_mods_actions(v) + seq![KeyAction::Type(c)]
            + release_mods_actions(),
        ControllerState::ExactReady(c) => char_actions(c),
        ControllerState::MacroReady(m) => match macro_table(m) {
            Some(ps) => parts_actions(ps),
            None => seq![],
        },
        _ => seq![],
    }) + release_mods_actions()
}

/// The controller after report `b`, its change mark consumed.
pub open spec fn report_view(v: ControllerView, b: Seq<u8>) -> ControllerView {
    v.after_report(b).cleared()
}

/// The keys typed when report `b` reaches controller `v`: the output of the
/// state left behind, when the report brings a change back to `Neutral`.
pub open spec fn report_actions(v: ControllerView, b: Seq<u8>) -> Seq<KeyAction> {
    let n = v.after_report(b);
    if n.changed && n.state() == ControllerState::Neutral {
        output_actions(n, n.last_state)
    } else {
        seq![]
    }
}

fn push_char(c: char, out: &mut Vec<KeyAction>)
    ensures
        final(out)@ == old(out)@ + char_actions(c),
{
    if c == '\n' {
        out.push(KeyAction::Click(Key::Return));
    } else if c == '}' {
        out.push(KeyAction::Down(Key::Shift));
        out.push(KeyAction::Type(']'));
        out.push(KeyAction::Up(Key::Shift));
    } else if c == '{' {
        out.push(KeyAction::Down(Key::Shift));
        out.push(KeyAction::Type('['));
        out.push(KeyAction::Up(Key::Shift));
    } else {
        out.push(KeyAction::Type(c));
    }
}

fn push_string(s: &str, out: &mut Vec<KeyAction>)
    ensures
        final(out)@ == old(out)@ + string_actions(s@),
{
    let n = s.unicode_len();
    let mut i: usize = 0;
    assert(s@.take(0) =~= Seq::<char>::empty());
    while i < n
        invariant
            n == s@.len(),
            i <= n,
            out@ == old(out)@ + string_actions(s@.take(i as int)),
        decreases n - i,
    {
        let c = s.get_char(i);
        push_char(c, out);
        assert(s@.take(i + 1).drop_last() =~= s@.take(i as int));
        i = i + 1;
    }
    assert(s@.take(n as int) =~= s@);
}

fn push_parts(parts: &Vec<OutPart>, out: &mut Vec<KeyAction>)
    ensures
        final(out)@ == old(out)@ + parts_actions(parts_view(parts@)),
{
    let mut i: usize = 0;
    assert(parts_view(parts@).take(0) =~= Seq::<PartView>::empty());
    while i < parts.len()
        invariant
            i <= parts.len(),
            out@ == old(out)@ + parts_actions(parts_view(parts@).take(i as int)),
        decreases parts.len() - i,
    {
        match &parts[i] {
            OutPart::KeySequence(s) => push_string(s.as_str(), out),
            OutPart::ModifierDown(k) => out.push(KeyAction::Down(*k)),
            OutPart::ModifierUp(k) => out.push(KeyAction::Up(*k)),
            OutPart::SpecialKey(k) => out.push(KeyAction::Click(*k)),
        }
        assert(parts_view(parts@).take(i + 1).drop_last() =~= parts_view(parts@).take(i as int));
        i = i + 1;
    }
    assert(parts_view(parts@).take(parts.len() as int) =~= parts_view(parts@));
}

fn push_release_mods(out: &mut Vec<KeyAction>)
    ensures
        final(out)@ == old(out)@ + release_mods_actions(),
{
    out.push(KeyAction::Up(Key::Shift));
    out.push(KeyAction::Up(Key::Control));
    out.push(KeyAction::Up(Key::Alt));
    out.push(KeyAction::Up(Key::Super));
}

/// The controller as a keyboard: the decoded controller and its
/// current state.
pub struct XKey {
    controller_data: ControllerData,
    controller_state: ControllerState,
}

/// What an `XKey` holds, as plain values.
pub struct XKeyView {
    pub controller: ControllerView,
    pub state: ControllerState,
}

impl XKey {
    /// Between two reports the change mark is set only with a `Neutral`
    /// previous state.
    #[verifier::type_invariant]
    spec fn keeps_frames(self) -> bool {
        frame_invariant(self.controller_data@)
    }
}

impl View for XKey {
    type V = XKeyView;

    closed spec fn view(&self) -> XKeyView {
        XKeyView { controller: self.controller_data@, state: self.controller_state }
    }
}

/// What holds of the controller between two reports: a change mark left
/// set can only come from the start, when the previous state is `Neutral`.
pub open spec fn frame_invariant(v: ControllerView) -> bool {
    v.changed ==> v.last_state == ControllerState::Neutral
}

/// An `XKey` for a controller at rest.
pub fn init_xkey() -> (r: XKey)
    ensures
        r@.controller == initial_view(),
        r@.state == ControllerState::Neutral,
        frame_invariant(r@.controller),
{
    XKey { controller_data: init_controller_data(), controller_state: ControllerState::Neutral }
}

impl XKey {
    fn press_mods(&self, out: &mut Vec<KeyAction>)
        ensures
            final(out)@ == old(out)@ + press_mods_actions(self@.controller),
    {
        let ghost start = out@;
        if self.controller_data.is_shift() {
            out.push(KeyAction::Down(Key::Shift));
        }
        if self.controller_data.is_ctrl() {
            out.push(KeyAction::Down(Key::Control));
        }
        if self.controller_data.is_alt() {
            out.push(KeyAction::Down(Key::Alt));
        }
        if self.controller_data.is_super() {
            out.push(KeyAction::Down(Key::Super));
        }
        assert(out@ =~= start + press_mods_actions(self@.controller));
    }

    /// The keys typed for the state `cont_state` that the controller leaves.
    pub fn execute_output(&self, cont_state: ControllerState) -> (r: Vec<KeyAction>)
        requires
            cont_state matches ControllerState::MacroReady(m) ==> macro_table(m) is Some,
        ensures
            r@ == output_actions(self@.controller, cont_state),
    {
        let mut out: Vec<KeyAction> = Vec::new();
        match cont_state {
            ControllerState::ModableReady(c) => {
                self.press_mods(&mut out);
                out.push(KeyAction::Type(c));
                push_release_mods(&mut out);
            },
            ControllerState::ExactReady(c) => {
                push_char(c, &mut out);
            },
            ControllerState::MacroReady(m) => {
                let parts = macro_parts(m).unwrap();
                push_parts(&parts, &mut out);
            },
            _ => {},
        }
        push_release_mods(&mut out);
        assert(out@ =~= output_actions(self@.controller, cont_state));
        out
    }

    /// The keys that play the macro parts `parts`.
    pub fn execute_macro(parts: Vec<OutPart>) -> (r: Vec<KeyAction>)
        ensures
            r@ == parts_actions(parts_view(parts@)),
    {
        let mut out: Vec<KeyAction> = Vec::new();
        push_parts(&parts, &mut out);
        assert(out@ =~= parts_actions(parts_view(parts@)));
        out
    }

    /// The keys that type the character `c`.
    pub fn execute_char(c: char) -> (r: Vec<KeyAction>)
        ensures
            r@ == char_actions(c),
    {
        let mut out: Vec<KeyAction> = Vec::new();
        push_char(c, &mut out);
        assert(out@ =~= char_actions(c));
        out
    }

    /// The keys that type the string `s`.
    pub fn execute_string(s: &str) -> (r: Vec<KeyAction>)
        ensures
            r@ == string_actions(s@),
    {
        let mut out: Vec<KeyAction> = Vec::new();
        push_string(s, &mut out);
        assert(out@ =~= string_actions(s@));
        out
    }

    /// Takes one input report from the controller: decodes it, updates the
    /// state, and returns the keys to type, which are the output of the
    /// state left behind when the controller comes back to rest.
    #[verifier::spinoff_prover]
    pub fn process_report(&mut self, report: &[u8]) -> (r: Vec<KeyAction>)
        requires
            report@.len() >= 14,
        ensures
            final(self)@.controller == report_view(old(self)@.controller, report@),
            final(self)@.state == old(self)@.controller.after_report(report@).state(),
            final(self)@.state == final(self)@.controller.state(),
            frame_invariant(final(self)@.controller),
            r@ == report_actions(old(self)@.controller, report@),
            types_the_state_left(old(self)@.controller, report@),
    {
        proof {
            use_type_invariant(&*self);
            law_report_types_the_state_left(self@.controller, report@);
        }
        let mut data = init_controller_data();
        std::mem::swap(&mut self.controller_data, &mut data);
        let (changed, state, last_state) = take_report(&mut data, report);
        self.controller_data = data;
        self.controller_state = state;
        if changed && state == ControllerState::Neutral {
            proof {
                if let ControllerState::MacroReady(m) = last_state {
                    law_emitted_macros_expand(m);
                }
            }
            return self.execute_output(last_state);
        }
        Vec::new()
    }

    /// The state the controller is in.
    pub fn controller_state(&self) -> (r: ControllerState)
        ensures
            r == self@.state,
    {
        self.controller_state
    }
}

/// Loads report `report` into `data` and consumes the change mark: whether
/// the state changed, the new state, and the state before the last change.
#[verifier::spinoff_prover]
fn take_report(data: &mut ControllerData, report: &[u8]) -> (r: (bool, ControllerState, ControllerState))
    requires
        report@.len() >= 14,
    ensures
        final(data)@ == report_view(old(data)@, report@),
        r.0 == old(data)@.after_report(report@).changed,
        r.1 == old(data)@.after_report(report@).state(),
        r.1 == final(data)@.state(),
        r.2 == old(data)@.after_report(report@).last_state,
        is_emitted(r.2),
{
    data.load_from_bytes(report);
    let state = data.state();
    let last_state = data.last_state();
    let changed = data.changed();
    proof {
        lemma_state_ignores_mark(old(data)@.after_report(report@), false);
    }
    (changed, state, last_state)
}

proof fn lemma_state_ignores_mark(v: ControllerView, mark: bool)
    ensures
        (ControllerView { changed: mark, ..v }).state() == v.state(),
{
    reveal(ControllerView::raw_state);
}

/// Every macro that a controller state can request has an expansion, so
/// playing the output of any state never looks up a missing macro.
pub proof fn law_emitted_macros_expand(m: Macro)
    requires
        is_emitted_macro(m),
    ensures
        macro_table(m) is Some,
{
}

/// Whatever state the controller leaves, its output ends by releasing
/// every modifier, so no key stays held.
pub proof fn law_output_releases_modifiers(v: ControllerView, s: ControllerState)
    ensures
        output_actions(v, s).len() >= 4,
        output_actions(v, s).subrange(output_actions(v, s).len() - 4, output_actions(v, s).len() as int)
            == release_mods_actions(),
{
    let o = output_actions(v, s);
    assert(o.subrange(o.len() - 4, o.len() as int) =~= release_mods_actions());
}

/// Holding a chord steady types nothing more: when the same report comes
/// twice in a row, the second one produces no keys.
pub proof fn law_repeated_report_types_nothing(v: ControllerView, b: Seq<u8>)
    requires
        b.len() >= 14,
    ensures
        report_actions(report_view(v, b), b) == Seq::<KeyAction>::empty(),
{
    let w = report_view(v, b);
    law_loaded_inputs_are_in_place(v, b, false);
    law_unchanged_state_keeps_history(w, b);
}

/// The states whose output types something besides the final release of
/// the modifiers: a character, or a macro that has an expansion.
pub open spec fn is_ready(s: ControllerState) -> bool {
    match s {
        ControllerState::ModableReady(_) | ControllerState::ExactReady(_) => true,
        ControllerState::MacroReady(m) => macro_table(m) is Some,
        _ => false,
    }
}

proof fn lemma_char_types(c: char)
    ensures
        char_actions(c).len() >= 1,
{
}

proof fn lemma_part_types(p: PartView)
    requires
        !(p matches PartView::KeySequence(s) && s.len() == 0),
    ensures
        part_actions(p).len() > 0,
{
    if let PartView::KeySequence(s) = p {
        lemma_char_types(s.last());
        assert(string_actions(s) == string_actions(s.drop_last()) + char_actions(s.last()));
    }
}

proof fn lemma_macro_types(m: Macro)
    requires
        macro_table(m) is Some,
    ensures
        parts_actions(macro_table(m).unwrap()).len() > 0,
{
    let ps = macro_table(m).unwrap();
    assert(ps.len() > 0 && !(ps.last() matches PartView::KeySequence(s) && s.len() == 0));
    lemma_part_types(ps.last());
    assert(parts_actions(ps) == parts_actions(ps.drop_last()) + part_actions(ps.last()));
}

/// The output of a state types something besides the release of the
/// modifiers exactly when the state is ready; otherwise it is that release
/// alone.
#[verifier::spinoff_prover]
pub proof fn law_ready_states_type(v: ControllerView, s: ControllerState)
    ensures
        output_actions(v, s).len() > 4 <==> is_ready(s),
        !is_ready(s) ==> output_actions(v, s) == release_mods_actions(),
{
    let o = output_actions(v, s);
    match s {
        ControllerState::ModableReady(c) => {
            assert(o.len() > 4);
        },
        ControllerState::ExactReady(c) => {
            lemma_char_types(c);
            assert(o == char_actions(c) + release_mods_actions());
        },
        ControllerState::MacroReady(m) => {
            if macro_table(m) is Some {
                lemma_macro_types(m);
                assert(o == parts_actions(macro_table(m).unwrap()) + release_mods_actions());
            } else {
                assert(o =~= release_mods_actions());
            }
        },
        _ => {
            assert(o =~= release_mods_actions());
        },
    }
}

/// What one report `b` types when it reaches controller `v`: something
/// besides the release of the modifiers exactly when it brings the
/// controller back to `Neutral` from a ready state; exactly the output of
/// the state left whenever it leaves a state for `Neutral`; otherwise
/// nothing, or only the release of the modifiers.
#[verifier::opaque]
pub open spec fn types_the_state_left(v: ControllerView, b: Seq<u8>) -> bool {
    let s0 = v.state();
    let n = v.after_report(b);
    let s1 = n.state();
    &&& report_actions(v, b).len() > 4 <==> (s1 == ControllerState::Neutral && is_ready(s0))
    &&& (s1 == ControllerState::Neutral && s0 != ControllerState::Neutral) ==> report_actions(v, b)
        == output_actions(n, s0)
    &&& !(s1 == ControllerState::Neutral && s0 != ControllerState::Neutral) ==> (report_actions(v, b)
        == Seq::<KeyAction>::empty() || report_actions(v, b) == release_mods_actions())
}

/// A report that changes the state: it records the state left, and types
/// that state's output if it comes back to `Neutral`.
#[verifier::spinoff_prover]
proof fn lemma_report_changing_state(v: ControllerView, b: Seq<u8>)
    requires
        b.len() >= 14,
        v.with_inputs(b).state() != v.state(),
    ensures
        v.after_report(b).changed,
        v.after_report(b).last_state == v.state(),
        v.after_report(b).state() == ControllerState::Neutral ==> v.state() != ControllerState::Neutral,
{
    let w = v.with_inputs(b);
    lemma_raw_ignores_history(w, true, v.state());
    assert(v.after_report(b) == (ControllerView { changed: true, last_state: v.state(), ..w })) by {
        reveal(ControllerView::after_report);
    }
}

proof fn lemma_raw_ignores_history(v: ControllerView, mark: bool, last: ControllerState)
    ensures
        (ControllerView { changed: mark, last_state: last, ..v }).raw_state() == v.raw_state(),
{
    reveal(ControllerView::raw_state);
}

/// A report that keeps the state: the change mark and the previous state
/// stay as they were.
proof fn lemma_report_keeping_state(v: ControllerView, b: Seq<u8>)
    requires
        b.len() >= 14,
        v.with_inputs(b).state() == v.state(),
    ensures
        v.after_report(b).state() == v.state(),
        v.after_report(b).changed == v.changed,
        v.after_report(b).last_state == v.last_state,
{
    reveal(ControllerView::after_report);
    reveal(ControllerView::with_inputs);
}

/// One report of the read loop. With the frame invariant holding before it,
/// the report keeps it, and what it types is `types_the_state_left`: keys
/// besides the release of the modifiers exactly when it brings the
/// controller back to `Neutral` from a ready state, and then exactly that
/// state's output.
#[verifier::spinoff_prover]
pub proof fn law_report_types_the_state_left(v: ControllerView, b: Seq<u8>)
    requires
        frame_invariant(v),
        b.len() >= 14,
    ensures
        frame_invariant(report_view(v, b)),
        types_the_state_left(v, b),
{
    let s0 = v.state();
    let n = v.after_report(b);
    reveal(types_the_state_left);
    law_ready_states_type(n, s0);
    law_ready_states_type(n, ControllerState::Neutral);
    if v.with_inputs(b).state() != s0 {
        lemma_report_changing_state(v, b);
    } else {
        lemma_report_keeping_state(v, b);
    }
}

/// An exact character is typed as given, whatever modifiers are held: its
/// output is the same for every controller, presses no modifier of the
/// controller, and is the character itself (newline as the return key,
/// braces as shifted square brackets) followed by the release of every
/// modifier.
pub proof fn law_exact_chars_ignore_modifiers(v: ControllerView, w: ControllerView, c: char)
    ensures
        output_actions(v, ControllerState::ExactReady(c)) == output_actions(w, ControllerState::ExactReady(c)),
        c != '\n' && c != '{' && c != '}' ==> output_actions(v, ControllerState::ExactReady(c)) == seq![
            KeyAction::Type(c),
            KeyAction::Up(Key::Shift),
            KeyAction::Up(Key::Control),
            KeyAction::Up(Key::Alt),
            KeyAction::Up(Key::Super),
        ],
        output_actions(v, ControllerState::ExactReady('\n')) == seq![
            KeyAction::Click(Key::Return),
            KeyAction::Up(Key::Shift),
            KeyAction::Up(Key::Control),
            KeyAction::Up(Key::Alt),
            KeyAction::Up(Key::Super),
        ],
        output_actions(v, ControllerState::ExactReady('{')) == seq![
            KeyAction::Down(Key::Shift),
            KeyAction::Type('['),
            KeyAction::Up(Key::Shift),
            KeyAction::Up(Key::Shift),
            KeyAction::Up(Key::Control),
            KeyAction::Up(Key::Alt),
            KeyAction::Up(Key::Super),
        ],
        output_actions(v, ControllerState::ExactReady('}')) == seq![
            KeyAction::Down(Key::Shift),
            KeyAction::Type(']'),
            KeyAction::Up(Key::Shift),
            KeyAction::Up(Key::Shift),
            KeyAction::Up(Key::Control),
            KeyAction::Up(Key::Alt),
            KeyAction::Up(Key::Super),
        ],
{
    assert(output_actions(v, ControllerState::ExactReady(c)) =~= output_actions(w, ControllerState::ExactReady(c)));
    if c != '\n' && c != '{' && c != '}' {
        assert(output_actions(v, ControllerState::ExactReady(c)) =~= seq![
            KeyAction::Type(c),
            KeyAction::Up(Key::Shift),
            KeyAction::Up(Key::Control),
            KeyAction::Up(Key::Alt),
            KeyAction::Up(Key::Super),
        ]);
    }
    assert(output_actions(v, ControllerState::ExactReady('\n')) =~= seq![
        KeyAction::Click(Key::Return),
        KeyAction::Up(Key::Shift),
        KeyAction::Up(Key::Control),
        KeyAction::Up(Key::Alt),
        KeyAction::Up(Key::Super),
    ]);
    assert(output_actions(v, ControllerState::ExactReady('{')) =~= seq![
        KeyAction::Down(Key::Shift),
        KeyAction::Type('['),
        KeyAction::Up(Key::Shift),
        KeyAction::Up(Key::Shift),
        KeyAction::Up(Key::Control),
        KeyAction::Up(Key::Alt),
        KeyAction::Up(Key::Super),
    ]);
    assert(output_actions(v, ControllerState::ExactReady('}')) =~= seq![
        KeyAction::Down(Key::Shift),
        KeyAction::Type(']'),
        KeyAction::Up(Key::Shift),
        KeyAction::Up(Key::Shift),
        KeyAction::Up(Key::Control),
        KeyAction::Up(Key::Alt),
        KeyAction::Up(Key::Super),
    ]);
}

/// A modable character is typed under the modifiers held: with the left
/// trigger held, its output starts by pressing shift.
pub proof fn law_modable_chars_take_shift(v: ControllerView, c: char)
    requires
        v.trigger_l.pos != 0,
    ensures
        output_actions(v, ControllerState::ModableReady(c))[0] == KeyAction::Down(Key::Shift),
{
}

/// The cursor moves the way the right stick points: with no arrow of the
/// direction pad and no modifier held, pushing it up, down, right or left
/// selects a state whose output clicks the up, down, right or left arrow
/// key, then releases every modifier.
pub proof fn law_right_stick_moves_cursor(v: ControllerView)
    requires
        dpad_held(v) == 0,
        no_modifier(v),
    ensures
        pushed_up(v.stick_r) ==> output_actions(v, v.raw_state()) == seq![KeyAction::Click(Key::UpArrow)]
            + release_mods_actions(),
        pushed_down(v.stick_r) ==> output_actions(v, v.raw_state()) == seq![KeyAction::Click(Key::DownArrow)]
            + release_mods_actions(),
        pushed_right(v.stick_r) ==> output_actions(v, v.raw_state()) == seq![KeyAction::Click(Key::RightArrow)]
            + release_mods_actions(),
        pushed_left(v.stick_r) ==> output_actions(v, v.raw_state()) == seq![KeyAction::Click(Key::LeftArrow)]
            + release_mods_actions(),
{
    law_right_stick_directions(v);
    lemma_one_click(Key::UpArrow);
    lemma_one_click(Key::DownArrow);
    lemma_one_click(Key::RightArrow);
    lemma_one_click(Key::LeftArrow);
}

proof fn lemma_one_click(k: Key)
    ensures
        parts_actions(seq![PartView::SpecialKey(k)]) == seq![KeyAction::Click(k)],
{
    let ps = seq![PartView::SpecialKey(k)];
    assert(ps.drop_last() =~= Seq::<PartView>::empty());
    assert(ps.last() == PartView::SpecialKey(k));
    assert(parts_actions(Seq::<PartView>::empty()) =~= Seq::<KeyAction>::empty());
    assert(parts_actions(ps) =~= Seq::<KeyAction>::empty() + seq![KeyAction::Click(k)]);
}

/// The keys that each macro plays, as key actions: the arrows for the
/// cursor, alt and ctrl combinations for word, line and paragraph motion
/// and deletion, undo as ctrl-x then u, and the text of the `if` expansion
/// followed by its cursor moves.
#[verifier::rlimit(50)]
pub proof fn law_macro_keys()
    ensures
        parts_actions(macro_table(Macro::CharBack).unwrap()) == seq![KeyAction::Click(Key::LeftArrow)],
        parts_actions(macro_table(Macro::CharFor).unwrap()) == seq![KeyAction::Click(Key::RightArrow)],
        parts_actions(macro_table(Macro::LineDown).unwrap()) == seq![KeyAction::Click(Key::DownArrow)],
        parts_actions(macro_table(Macro::LineUp).unwrap()) == seq![KeyAction::Click(Key::UpArrow)],
        parts_actions(macro_table(Macro::WordFor).unwrap()) == seq![KeyAction::Down(Key::Alt), KeyAction::Type('f')],
        parts_actions(macro_table(Macro::WordBack).unwrap()) == seq![KeyAction::Down(Key::Alt), KeyAction::Type('b')],
        parts_actions(macro_table(Macro::ParDown).unwrap()) == seq![KeyAction::Down(Key::Alt), KeyAction::Type('n')],
        parts_actions(macro_table(Macro::ParUp).unwrap()) == seq![KeyAction::Down(Key::Alt), KeyAction::Type('p')],
        parts_actions(macro_table(Macro::DelCharFor).unwrap()) == seq![KeyAction::Down(Key::Control), KeyAction::Type('d')],
        parts_actions(macro_table(Macro::DelCharBack).unwrap()) == seq![KeyAction::Down(Key::Control), KeyAction::Click(Key::Backspace)],
        parts_actions(macro_table(Macro::DelWordFor).unwrap()) == seq![KeyAction::Down(Key::Alt), KeyAction::Type('d')],
        parts_actions(macro_table(Macro::DelWordBack).unwrap()) == seq![KeyAction::Down(Key::Alt), KeyAction::Click(Key::Backspace)],
        parts_actions(macro_table(Macro::DelLineFor).unwrap()) == seq![KeyAction::Down(Key::Control), KeyAction::Type('k')],
        parts_actions(macro_table(Macro::DelLineBack).unwrap()) == seq![KeyAction::Down(Key::Control), KeyAction::Type(' '), KeyAction::Type('a'), KeyAction::Type('w')],
        parts_actions(macro_table(Macro::DelParDown).unwrap()) == seq![KeyAction::Down(Key::Alt), KeyAction::Type('k')],
        parts_actions(macro_table(Macro::DelParUp).unwrap()) == seq![KeyAction::Down(Key::Control), KeyAction::Type(' '), KeyAction::Up(Key::Control), KeyAction::Down(Key::Alt), KeyAction::Type('p'), KeyAction::Up(Key::Alt), KeyAction::Down(Key::Control), KeyAction::Type('w')],
        parts_actions(macro_table(Macro::Enter).unwrap()) == seq![KeyAction::Click(Key::Return)],
        parts_actions(macro_table(Macro::Tab).unwrap()) == seq![KeyAction::Click(Key::Tab)],
        parts_actions(macro_table(Macro::Super).unwrap()) == seq![KeyAction::Click(Key::Super)],
        parts_actions(macro_table(Macro::Undo).unwrap()) == seq![KeyAction::Down(Key::Control), KeyAction::Type('x'), KeyAction::Up(Key::Control), KeyAction::Type('u')],
        parts_actions(macro_table(Macro::If).unwrap()) == seq![KeyAction::Type('i'), KeyAction::Type('f'), KeyAction::Type(' '), KeyAction::Type(' '), KeyAction::Down(Key::Shift), KeyAction::Type('['), KeyAction::Up(Key::Shift), KeyAction::Click(Key::Return), KeyAction::Click(Key::Return), KeyAction::Down(Key::Shift), KeyAction::Type(']'), KeyAction::Up(Key::Shift), KeyAction::Down(Key::Control), KeyAction::Type('p'), KeyAction::Type('p'), KeyAction::Type('a'), KeyAction::Up(Key::Control), KeyAction::Down(Key::Alt), KeyAction::Type('f'), KeyAction::Up(Key::Alt), KeyAction::Down(Key::Control), KeyAction::Type('f')],
{
    reveal_with_fuel(parts_actions, 10);
    reveal_with_fuel(string_actions, 9);
    assert(parts_actions(macro_table(Macro::CharBack).unwrap()) =~= seq![KeyAction::Click(Key::LeftArrow)]);
    assert(parts_actions(macro_table(Macro::CharFor).unwrap()) =~= seq![KeyAction::Click(Key::RightArrow)]);
    assert(parts_actions(macro_table(Macro::LineDown).unwrap()) =~= seq![KeyAction::Click(Key::DownArrow)]);
    assert(parts_actions(macro_table(Macro::LineUp).unwrap()) =~= seq![KeyAction::Click(Key::UpArrow)]);
    assert(parts_actions(macro_table(Macro::WordFor).unwrap()) =~= seq![KeyAction::Down(Key::Alt), KeyAction::Type('f')]);
    assert(parts_actions(macro_table(Macro::WordBack).unwrap()) =~= seq![KeyAction::Down(Key::Alt), KeyAction::Type('b')]);
    assert(parts_actions(macro_table(Macro::ParDown).unwrap()) =~= seq![KeyAction::Down(Key::Alt), KeyAction::Type('n')]);
    assert(parts_actions(macro_table(Macro::ParUp).unwrap()) =~= seq![KeyAction::Down(Key::Alt), KeyAction::Type('p')]);
    assert(parts_actions(macro_table(Macro::DelCharFor).unwrap()) =~= seq![KeyAction::Down(Key::Control), KeyAction::Type('d')]);
    assert(parts_actions(macro_table(Macro::DelCharBack).unwrap()) =~= seq![KeyAction::Down(Key::Control), KeyAction::Click(Key::Backspace)]);
    assert(parts_actions(macro_table(Macro::DelWordFor).unwrap()) =~= seq![KeyAction::Down(Key::Alt), KeyAction::Type('d')]);
    assert(parts_actions(macro_table(Macro::DelWordBack).unwrap()) =~= seq![KeyAction::Down(Key::Alt), KeyAction::Click(Key::Backspace)]);
    assert(parts_actions(macro_table(Macro::DelLineFor).unwrap()) =~= seq![KeyAction::Down(Key::Control), KeyAction::Type('k')]);
    assert(parts_actions(macro_table(Macro::DelLineBack).unwrap()) =~= seq![KeyAction::Down(Key::Control), KeyAction::Type(' '), KeyAction::Type('a'), KeyAction::Type('w')]);
    assert(parts_actions(macro_table(Macro::DelParDown).unwrap()) =~= seq![KeyAction::Down(Key::Alt), KeyAction::Type('k')]);
    assert(parts_actions(macro_table(Macro::DelParUp).unwrap()) =~= seq![KeyAction::Down(Key::Control), KeyAction::Type(' '), KeyAction::Up(Key::Control), KeyAction::Down(Key::Alt), KeyAction::Type('p'), KeyAction::Up(Key::Alt), KeyAction::Down(Key::Control), KeyAction::Type('w')]);
    assert(parts_actions(macro_table(Macro::Enter).unwrap()) =~= seq![KeyAction::Click(Key::Return)]);
    assert(parts_actions(macro_table(Macro::Tab).unwrap()) =~= seq![KeyAction::Click(Key::Tab)]);
    assert(parts_actions(macro_table(Macro::Super).unwrap()) =~= seq![KeyAction::Click(Key::Super)]);
    assert(parts_actions(macro_table(Macro::Undo).unwrap()) =~= seq![KeyAction::Down(Key::Control), KeyAction::Type('x'), KeyAction::Up(Key::Control), KeyAction::Type('u')]);
    assert(parts_actions(macro_table(Macro::If).unwrap()) =~= seq![KeyAction::Type('i'), KeyAction::Type('f'), KeyAction::Type(' '), KeyAction::Type(' '), KeyAction::Down(Key::Shift), KeyAction::Type('['), KeyAction::Up(Key::Shift), KeyAction::Click(Key::Return), KeyAction::Click(Key::Return), KeyAction::Down(Key::Shift), KeyAction::Type(']'), KeyAction::Up(Key::Shift), KeyAction::Down(Key::Control), KeyAction::Type('p'), KeyAction::Type('p'), KeyAction::Type('a'), KeyAction::Up(Key::Control), KeyAction::Down(Key::Alt), KeyAction::Type('f'), KeyAction::Up(Key::Alt), KeyAction::Down(Key::Control), KeyAction::Type('f')]);
}

/// A modable character is typed under exactly the modifiers held: alone
/// with none held, after pressing shift with the left trigger alone, after
/// pressing ctrl with the left bumper alone; the modifiers are then released
/// twice over.
pub proof fn law_modable_output(v: ControllerView, c: char)
    ensures
        no_modifier(v) ==> output_actions(v, ControllerState::ModableReady(c)) == seq![KeyAction::Type(c), KeyAction::Up(Key::Shift), KeyAction::Up(Key::Control), KeyAction::Up(Key::Alt), KeyAction::Up(Key::Super), KeyAction::Up(Key::Shift), KeyAction::Up(Key::Control), KeyAction::Up(Key::Alt), KeyAction::Up(Key::Super)],
        shift_only(v) ==> output_actions(v, ControllerState::ModableReady(c)) == seq![KeyAction::Down(Key::Shift), KeyAction::Type(c), KeyAction::Up(Key::Shift), KeyAction::Up(Key::Control), KeyAction::Up(Key::Alt), KeyAction::Up(Key::Super), KeyAction::Up(Key::Shift), KeyAction::Up(Key::Control), KeyAction::Up(Key::Alt), KeyAction::Up(Key::Super)],
        ctrl_only(v) ==> output_actions(v, ControllerState::ModableReady(c)) == seq![KeyAction::Down(Key::Control), KeyAction::Type(c), KeyAction::Up(Key::Shift), KeyAction::Up(Key::Control), KeyAction::Up(Key::Alt), KeyAction::Up(Key::Super), KeyAction::Up(Key::Shift), KeyAction::Up(Key::Control), KeyAction::Up(Key::Alt), KeyAction::Up(Key::Super)],
{
    if no_modifier(v) {
        assert(output_actions(v, ControllerState::ModableReady(c)) =~= seq![KeyAction::Type(c), KeyAction::Up(Key::Shift), KeyAction::Up(Key::Control), KeyAction::Up(Key::Alt), KeyAction::Up(Key::Super), KeyAction::Up(Key::Shift), KeyAction::Up(Key::Control), KeyAction::Up(Key::Alt), KeyAction::Up(Key::Super)]);
    }
    if shift_only(v) {
        assert(output_actions(v, ControllerState::ModableReady(c)) =~= seq![KeyAction::Down(Key::Shift), KeyAction::Type(c), KeyAction::Up(Key::Shift), KeyAction::Up(Key::Control), KeyAction::Up(Key::Alt), KeyAction::Up(Key::Super), KeyAction::Up(Key::Shift), KeyAction::Up(Key::Control), KeyAction::Up(Key::Alt), KeyAction::Up(Key::Super)]);
    }
    if ctrl_only(v) {
        assert(output_actions(v, ControllerState::ModableReady(c)) =~= seq![KeyAction::Down(Key::Control), KeyAction::Type(c), KeyAction::Up(Key::Shift), KeyAction::Up(Key::Control), KeyAction::Up(Key::Alt), KeyAction::Up(Key::Super), KeyAction::Up(Key::Shift), KeyAction::Up(Key::Control), KeyAction::Up(Key::Alt), KeyAction::Up(Key::Super)]);
    }
}

} // verus!
