//! Hotkeys of the graphical front end: the bindings of keys and mouse buttons, with
//! modifiers, to the application's actions.
use vstd::prelude::*;

verus! {

/// A mouse button.
#[derive(Clone, Copy, Debug, PartialEq, Eq, Structural, Hash)]
pub enum PointerButton {
    Primary,
    Secondary,
    Middle,
}

/// A key of the keyboard.
#[derive(Clone, Copy, Debug, PartialEq, Eq, Structural, Hash)]
pub enum Key {
    ArrowDown,
    ArrowLeft,
    ArrowRight,
    ArrowUp,
    Escape,
    Tab,
    Backspace,
    Enter,
    Space,
    Insert,
    Delete,
    Home,
    End,
    PageUp,
    PageDown,
    Num0,
    Num1,
    Num2,
    Num3,
    Num4,
    Num5,
    Num6,
    Num7,
    Num8,
    Num9,
    A,
    B,
    C,
    D,
    E,
    F,
    G,
    H,
    I,
    J,
    K,
    L,
    M,
    N,
    O,
    P,
    Q,
    R,
    S,
    T,
    U,
    V,
    W,
    X,
    Y,
    Z,
    F1,
    F2,
    F3,
    F4,
    F5,
    F6,
    F7,
    F8,
    F9,
    F10,
    F11,
    F12,
    F13,
    F14,
    F15,
    F16,
    F17,
    F18,
    F19,
    F20,
}

/// What a hotkey is bound to: a mouse button or a key.
#[derive(Clone, Copy, Debug, PartialEq, Eq, Structural, Hash)]
pub enum BetterBindVariant {
    Mouse(PointerButton),
    Key(Key),
}

/// The modifier keys held with a hotkey.
#[derive(Clone, Copy, Debug, PartialEq, Eq, Structural, Hash)]
pub struct BetterModifiers {
    pub alt: bool,
    pub ctrl: bool,
    pub shift: bool,
    pub mac_cmd: bool,
    pub command: bool,
}

/// A hotkey: a mouse button or a key, with modifiers.
#[derive(Clone, Copy, Debug, PartialEq, Eq, Structural, Hash)]
pub struct BetterBinding {
    pub variant: BetterBindVariant,
    pub modifiers: BetterModifiers,
}

/// No modifier but those given.
pub open spec fn modifiers_of(alt: bool, ctrl: bool) -> BetterModifiers {
    BetterModifiers { alt, ctrl, shift: false, mac_cmd: false, command: false }
}

impl BetterBinding {
    pub fn new(variant: BetterBindVariant, modifiers: BetterModifiers) -> (b: BetterBinding)
        ensures
            b == (BetterBinding { variant, modifiers }),
    {
        BetterBinding { variant, modifiers }
    }

    /// The input with Ctrl held.
    pub fn with_ctrl(input: BetterBindVariant) -> (b: BetterBinding)
        ensures
            b == (BetterBinding { variant: input, modifiers: modifiers_of(false, true) }),
    {
        BetterBinding::new(
            input,
            BetterModifiers { alt: false, ctrl: true, shift: false, mac_cmd: false, command: false },
        )
    }

    /// The input with Alt held.
    pub fn with_alt(input: BetterBindVariant) -> (b: BetterBinding)
        ensures
            b == (BetterBinding { variant: input, modifiers: modifiers_of(true, false) }),
    {
        BetterBinding::new(
            input,
            BetterModifiers { alt: true, ctrl: false, shift: false, mac_cmd: false, command: false },
        )
    }

    /// The input with Ctrl and Alt held.
    pub fn with_ctrl_alt(input: BetterBindVariant) -> (b: BetterBinding)
        ensures
            b == (BetterBinding { variant: input, modifiers: modifiers_of(true, true) }),
    {
        BetterBinding::new(
            input,
            BetterModifiers { alt: true, ctrl: true, shift: false, mac_cmd: false, command: false },
        )
    }
}

/// The hotkeys of the application's actions; an action may have none.
pub struct Hotkeys {
    new_note: Option<BetterBinding>,
    copy: Option<BetterBinding>,
    cut: Option<BetterBinding>,
    paste: Option<BetterBinding>,
    delete: Option<BetterBinding>,
    save: Option<BetterBinding>,
    close_note_editor: Option<BetterBinding>,
    toggle_settings: Option<BetterBinding>,
    quit: Option<BetterBinding>,
    undo: Option<BetterBinding>,
    redo: Option<BetterBinding>,
}

impl View for Hotkeys {
    /// The bindings in the order: new note, copy, cut, paste, delete, save, close the note
    /// editor, toggle the settings, quit, undo, redo.
    type V = Seq<Option<BetterBinding>>;

    closed spec fn view(&self) -> Seq<Option<BetterBinding>> {
        seq![self.new_note, self.copy, self.cut, self.paste, self.delete, self.save, self.close_note_editor, self.toggle_settings, self.quit, self.undo, self.redo]
    }
}

/// The default bindings: Ctrl with N, C, X, V, D, S, W; Ctrl+Alt+S for the settings;
/// Ctrl with Q, Z, Y.
pub open spec fn default_bindings() -> Seq<Option<BetterBinding>> {
    seq![
        Some(BetterBinding { variant: BetterBindVariant::Key(Key::N), modifiers: BetterModifiers { alt: false, ctrl: true, shift: false, mac_cmd: false, command: false } }),
        Some(BetterBinding { variant: BetterBindVariant::Key(Key::C), modifiers: BetterModifiers { alt: false, ctrl: true, shift: false, mac_cmd: false, command: false } }),
        Some(BetterBinding { variant: BetterBindVariant::Key(Key::X), modifiers: BetterModifiers { alt: false, ctrl: true, shift: false, mac_cmd: false, command: false } }),
        Some(BetterBinding { variant: BetterBindVariant::Key(Key::V), modifiers: BetterModifiers { alt: false, ctrl: true, shift: false, mac_cmd: false, command: false } }),
        Some(BetterBinding { variant: BetterBindVariant::Key(Key::D), modifiers: BetterModifiers { alt: false, ctrl: true, shift: false, mac_cmd: false, command: false } }),
        Some(BetterBinding { variant: BetterBindVariant::Key(Key::S), modifiers: BetterModifiers { alt: false, ctrl: true, shift: false, mac_cmd: false, command: false } }),
        Some(BetterBinding { variant: BetterBindVariant::Key(Key::W), modifiers: BetterModifiers { alt: false, ctrl: true, shift: false, mac_cmd: false, command: false } }),
        Some(BetterBinding { variant: BetterBindVariant::Key(Key::S), modifiers: BetterModifiers { alt: true, ctrl: true, shift: false, mac_cmd: false, command: false } }),
        Some(BetterBinding { variant: BetterBindVariant::Key(Key::Q), modifiers: BetterModifiers { alt: false, ctrl: true, shift: false, mac_cmd: false, command: false } }),
        Some(BetterBinding { variant: BetterBindVariant::Key(Key::Z), modifiers: BetterModifiers { alt: false, ctrl: true, shift: false, mac_cmd: false, command: false } }),
        Some(BetterBinding { variant: BetterBindVariant::Key(Key::Y), modifiers: BetterModifiers { alt: false, ctrl: true, shift: false, mac_cmd: false, command: false } }),
    ]
}

/// Whether no two actions have the same hotkey.
pub open spec fn bindings_distinct(v: Seq<Option<BetterBinding>>) -> bool {
    forall|i: int, j: int|
        0 <= i < j < v.len() && #[trigger] v[i] is Some && #[trigger] v[j] is Some ==> v[i] != v[j]
}

impl Default for Hotkeys {
    fn default() -> (h: Hotkeys)
        ensures
            h@ == default_bindings(),
    {
        Hotkeys {
            new_note: Some(BetterBinding::with_ctrl(BetterBindVariant::Key(Key::N))),
            copy: Some(BetterBinding::with_ctrl(BetterBindVariant::Key(Key::C))),
            cut: Some(BetterBinding::with_ctrl(BetterBindVariant::Key(Key::X))),
            paste: Some(BetterBinding::with_ctrl(BetterBindVariant::Key(Key::V))),
            delete: Some(BetterBinding::with_ctrl(BetterBindVariant::Key(Key::D))),
            save: Some(BetterBinding::with_ctrl(BetterBindVariant::Key(Key::S))),
            close_note_editor: Some(BetterBinding::with_ctrl(BetterBindVariant::Key(Key::W))),
            toggle_settings: Some(BetterBinding::with_ctrl_alt(BetterBindVariant::Key(Key::S))),
            quit: Some(BetterBinding::with_ctrl(BetterBindVariant::Key(Key::Q))),
            undo: Some(BetterBinding::with_ctrl(BetterBindVariant::Key(Key::Z))),
            redo: Some(BetterBinding::with_ctrl(BetterBindVariant::Key(Key::Y))),
        }
    }
}

/// Which actions' hotkeys are pressed.
#[derive(Clone, Copy, Debug, PartialEq, Eq, Structural)]
pub struct HotkeyState {
    pub new_note: bool,
    pub copy: bool,
    pub cut: bool,
    pub paste: bool,
    pub delete: bool,
    pub save: bool,
    pub close_note_editor: bool,
    pub toggle_settings: bool,
    pub quit: bool,
    pub undo: bool,
    pub redo: bool,
}

impl Default for HotkeyState {
    /// Nothing pressed.
    fn default() -> (s: HotkeyState)
        ensures
            !s.new_note,
            !s.copy,
            !s.cut,
            !s.paste,
            !s.delete,
            !s.save,
            !s.close_note_editor,
            !s.toggle_settings,
            !s.quit,
            !s.undo,
            !s.redo,
    {
        HotkeyState {
            new_note: false,
            copy: false,
            cut: false,
            paste: false,
            delete: false,
            save: false,
            close_note_editor: false,
            toggle_settings: false,
            quit: false,
            undo: false,
            redo: false,
        }
    }
}

impl Hotkeys {
    fn bindings(&self) -> (v: Vec<Option<BetterBinding>>)
        ensures
            v@ == self@,
    {
        let mut v = Vec::new();
        v.push(self.new_note);
        v.push(self.copy);
        v.push(self.cut);
        v.push(self.paste);
        v.push(self.delete);
        v.push(self.save);
        v.push(self.close_note_editor);
        v.push(self.toggle_settings);
        v.push(self.quit);
        v.push(self.undo);
        v.push(self.redo);
        v
    }

    /// Puts back the default hotkeys where two actions have the same hotkey.
    pub fn validate_hotkeys(&mut self)
        ensures
            final(self)@ == (if bindings_distinct(old(self)@) {
                old(self)@
            } else {
                default_bindings()
            }),
    {
        let v = self.bindings();
        let mut is_valid = true;
        let mut i: usize = 0;
        while i < v.len()
            invariant
                i <= v@.len(),
                v@ == self@,
                is_valid == (forall|a: int, b: int|
                    0 <= a < b < v@.len() && a < i && #[trigger] v@[a] is Some && #[trigger] v@[b] is Some
                        ==> v@[a] != v@[b]),
            decreases v.len() - i,
        {
            let mut j: usize = i + 1;
            while j < v.len()
                invariant
                    i < j <= v@.len(),
                    v@ == self@,
                    is_valid == ((forall|a: int, b: int|
                        0 <= a < b < v@.len() && a < i && #[trigger] v@[a] is Some
                            && #[trigger] v@[b] is Some ==> v@[a] != v@[b]) && (forall|b: int|
                        i < b < j && v@[i as int] is Some && #[trigger] v@[b] is Some ==> v@[i as int]
                            != v@[b])),
                decreases v.len() - j,
            {
                if v[i].is_some() && v[j].is_some() && v[i] == v[j] {
                    is_valid = false;
                }
                j = j + 1;
            }
            i = i + 1;
        }
        if !is_valid {
            *self = Hotkeys::default();
        }
    }

    /// Which actions' hotkeys `pressed` reports pressed; an action without a hotkey is not
    /// pressed.
    pub fn check_hotkeys(&self, pressed: impl Fn(BetterBinding) -> bool) -> (s: HotkeyState)
        requires
            forall|b: BetterBinding| call_requires(pressed, (b,)),
        ensures
            match self@[0] {
                Some(b) => call_ensures(pressed, (b,), s.new_note),
                None => !s.new_note,
            },
            match self@[1] {
                Some(b) => call_ensures(pressed, (b,), s.copy),
                None => !s.copy,
            },
            match self@[2] {
                Some(b) => call_ensures(pressed, (b,), s.cut),
                None => !s.cut,
            },
            match self@[3] {
                Some(b) => call_ensures(pressed, (b,), s.paste),
                None => !s.paste,
            },
            match self@[4] {
                Some(b) => call_ensures(pressed, (b,), s.delete),
                None => !s.delete,
            },
            match self@[5] {
                Some(b) => call_ensures(pressed, (b,), s.save),
                None => !s.save,
            },
            match self@[6] {
                Some(b) => call_ensures(pressed, (b,), s.close_note_editor),
                None => !s.close_note_editor,
            },
            match self@[7] {
                Some(b) => call_ensures(pressed, (b,), s.toggle_settings),
                None => !s.toggle_settings,
            },
            match self@[8] {
                Some(b) => call_ensures(pressed, (b,), s.quit),
                None => !s.quit,
            },
            match self@[9] {
                Some(b) => call_ensures(pressed, (b,), s.undo),
                None => !s.undo,
            },
            match self@[10] {
                Some(b) => call_ensures(pressed, (b,), s.redo),
                None => !s.redo,
            },
    {
        let new_note = match self.new_note {
            Some(b) => pressed(b),
            None => false,
        };
        let copy = match self.copy {
            Some(b) => pressed(b),
            None => false,
        };
        let cut = match self.cut {
            Some(b) => pressed(b),
            None => false,
        };
        let paste = match self.paste {
            Some(b) => pressed(b),
            None => false,
        };
        let delete = match self.delete {
            Some(b) => pressed(b),
            None => false,
        };
        let save = match self.save {
            Some(b) => pressed(b),
            None => false,
        };
        let close_note_editor = match self.close_note_editor {
            Some(b) => pressed(b),
            None => false,
        };
        let toggle_settings = match self.toggle_settings {
            Some(b) => pressed(b),
            None => false,
        };
        let quit = match self.quit {
            Some(b) => pressed(b),
            None => false,
        };
        let undo = match self.undo {
            Some(b) => pressed(b),
            None => false,
        };
        let redo = match self.redo {
            Some(b) => pressed(b),
            None => false,
        };
        HotkeyState {
            new_note, copy, cut, paste, delete, save, close_note_editor, toggle_settings, quit, undo, redo
        }
    }
}

/// The default hotkeys are all different, so checking them keeps them.
pub proof fn lemma_default_hotkeys_distinct()
    ensures
        bindings_distinct(default_bindings()),
{
    let v = default_bindings();
    assert forall|i: int, j: int|
        0 <= i < j < v.len() && #[trigger] v[i] is Some && #[trigger] v[j] is Some implies v[i] != v[j] by {
        assert(0 <= i < 11 && 0 <= j < 11);
    }
}

} // verus!
