//! The text input screen of the terminal interface: what each key does in each mode. The
//! screen itself (drawing, reading keys, the clipboard) is not part of the library.
use vstd::prelude::*;

use crate::term_ui::components::input::state::{
    backspaced, deleted, grown_left, grown_right, moved_end, moved_home, moved_left,
    moved_right, pasted, searched, selection_removed, text_entered, typed, InputState,
    InputView,
};
use crate::types::bytes::{byte_len, char_index, is_boundary};
use crate::types::text::strings_view;

verus! {

/// Whether keys move around (`Normal`) or type into the box (`Editing`).
#[derive(Clone, Copy, Debug, PartialEq, Eq, Structural)]
pub enum InputMode {
    Normal,
    Editing,
}

/// A key pressed.
#[derive(Clone, Copy, Debug, PartialEq, Eq, Structural)]
pub enum Key {
    Char(char),
    Enter,
    Backspace,
    Delete,
    Esc,
    Left,
    Right,
    Home,
    End,
    Up,
    Other,
}

/// The modifier keys held with a key.
#[derive(Clone, Copy, Debug, PartialEq, Eq, Structural)]
pub struct Modifiers {
    pub shift: bool,
    pub control: bool,
    pub alt: bool,
}

/// What is to be done after a key.
pub enum KeyOutcome {
    /// Go on reading keys.
    Continue,
    /// Leave the screen.
    Quit,
    /// Put this text on the clipboard.
    Copy(String),
    /// Read the clipboard and hand its text to `InputApp::paste`.
    Paste,
}

/// What an outcome says.
pub enum KeyOutcomeView {
    Continue,
    Quit,
    Copy(Seq<char>),
    Paste,
}

impl View for KeyOutcome {
    type V = KeyOutcomeView;

    open spec fn view(&self) -> KeyOutcomeView {
        match self {
            KeyOutcome::Continue => KeyOutcomeView::Continue,
            KeyOutcome::Quit => KeyOutcomeView::Quit,
            KeyOutcome::Copy(t) => KeyOutcomeView::Copy(t@),
            KeyOutcome::Paste => KeyOutcomeView::Paste,
        }
    }
}

/// The state of the screen: the input box, the mode, and the messages entered so far.
pub struct InputApp {
    input: InputState,
    input_mode: InputMode,
    messages: Vec<String>,
}

/// What the screen holds.
pub struct InputAppView {
    pub input: InputView,
    pub mode: InputMode,
    pub messages: Seq<Seq<char>>,
}

impl View for InputApp {
    type V = InputAppView;

    closed spec fn view(&self) -> InputAppView {
        InputAppView { input: self.input@, mode: self.input_mode, messages: strings_view(self.messages@) }
    }
}

/// No modifier but possibly shift.
pub open spec fn plain(m: Modifiers) -> bool {
    !m.control && !m.alt
}

/// Control alone.
pub open spec fn control_only(m: Modifiers) -> bool {
    m.control && !m.shift && !m.alt
}

/// Whether the selection of `v` can be read: see `InputState::get_selected_text`.
pub open spec fn selection_readable(v: InputView) -> bool {
    match v.selection {
        Some((s, e)) => s <= e && is_boundary(v.text, s as int) && is_boundary(v.text, e as int),
        None => true,
    }
}

/// Whether the selection of `v` can be removed: see `InputState::remove_selected`.
pub open spec fn selection_removable(v: InputView) -> bool {
    match v.selection {
        Some((s, e)) => s < e ==> is_boundary(v.text, s as int) && char_index(v.text, s as int) + (
        e - s) <= v.text.len(),
        None => true,
    }
}

/// Whether key `key` with modifiers `m` can be taken in state `v`: typing needs the cursor
/// at a character boundary and room for one more character, a backspace needs the cursor
/// at a boundary, moving right needs room for the cursor, copying and cutting need a
/// selection that can be read or removed.
pub open spec fn key_allowed(v: InputAppView, key: Key, m: Modifiers) -> bool {
    match v.mode {
        InputMode::Normal => true,
        InputMode::Editing => match key {
            Key::Char(c) => if plain(m) {
                is_boundary(v.input.text, v.input.position as int) && byte_len(v.input.text) + 4
                    <= usize::MAX
            } else if control_only(m) && c == 'c' {
                selection_readable(v.input)
            } else if control_only(m) && c == 'x' {
                selection_removable(v.input)
            } else {
                true
            },
            Key::Backspace => is_boundary(v.input.text, v.input.position as int),
            Key::Right => m.control || m.shift || v.input.position < usize::MAX,
            _ => true,
        },
    }
}

/// The text of the selection of `v`, if there is one.
pub open spec fn selected_text(v: InputView) -> KeyOutcomeView {
    match v.selection {
        Some((s, e)) => KeyOutcomeView::Copy(
            v.text.subrange(char_index(v.text, s as int), char_index(v.text, e as int)),
        ),
        None => KeyOutcomeView::Continue,
    }
}

/// The text the selection of `v` spans when removed, if there is one.
pub open spec fn cut_text(v: InputView) -> KeyOutcomeView {
    match v.selection {
        Some((s, e)) => KeyOutcomeView::Copy(
            if e <= s {
                Seq::empty()
            } else {
                v.text.subrange(char_index(v.text, s as int), char_index(v.text, s as int) + (e - s))
            },
        ),
        None => KeyOutcomeView::Continue,
    }
}

/// The screen `o` with its input box replaced by `input`.
pub open spec fn with_input(o: InputAppView, input: InputView) -> InputAppView {
    InputAppView { input, ..o }
}

/// How the screen takes key `key` with modifiers `m` in state `o`: `f` is the state after,
/// `out` what is to be done. In normal mode `e` starts editing and `q` quits. In editing
/// mode, Enter enters the text, plain characters are typed, Control with `a`/`d` moves to
/// the start/end, with `c` copies and with `x` cuts the selection, with `v` pastes;
/// Backspace, Delete, Home, End and Up act on the box, Esc stops editing; Left and Right
/// move the cursor, grow the selection with Shift, or go to the start or end with Control.
pub open spec fn key_handled(
    o: InputAppView,
    key: Key,
    m: Modifiers,
    f: InputAppView,
    out: KeyOutcomeView,
) -> bool {
    match o.mode {
        InputMode::Normal => match key {
            Key::Char('e') => f == (InputAppView { mode: InputMode::Editing, ..o }) && out
                == KeyOutcomeView::Continue,
            Key::Char('q') => f == o && out == KeyOutcomeView::Quit,
            _ => f == o && out == KeyOutcomeView::Continue,
        },
        InputMode::Editing => match key {
            Key::Enter => f == (InputAppView {
                input: text_entered(o.input),
                messages: o.messages.push(o.input.text),
                ..o
            }) && out == KeyOutcomeView::Continue,
            Key::Char(c) => if plain(m) {
                f == with_input(o, typed(o.input, c)) && out == KeyOutcomeView::Continue
            } else if control_only(m) {
                if c == 'a' {
                    f == with_input(o, moved_home(o.input)) && out == KeyOutcomeView::Continue
                } else if c == 'd' {
                    f == with_input(o, moved_end(o.input)) && out == KeyOutcomeView::Continue
                } else if c == 'c' {
                    f == o && out == selected_text(o.input)
                } else if c == 'v' {
                    f == o && out == KeyOutcomeView::Paste
                } else if c == 'x' {
                    f == with_input(o, selection_removed(o.input)) && out == cut_text(o.input)
                } else {
                    f == o && out == KeyOutcomeView::Continue
                }
            } else {
                f == o && out == KeyOutcomeView::Continue
            },
            Key::Backspace => f == with_input(o, backspaced(o.input)) && out
                == KeyOutcomeView::Continue,
            Key::Delete => f == with_input(o, deleted(o.input)) && out == KeyOutcomeView::Continue,
            Key::Esc => f == (InputAppView { mode: InputMode::Normal, ..o }) && out
                == KeyOutcomeView::Continue,
            Key::Left => f == with_input(
                o,
                if m.control {
                    moved_home(o.input)
                } else if m.shift {
                    grown_left(o.input)
                } else {
                    moved_left(o.input)
                },
            ) && out == KeyOutcomeView::Continue,
            Key::Right => f == with_input(
                o,
                if m.control {
                    moved_end(o.input)
                } else if m.shift {
                    grown_right(o.input)
                } else {
                    moved_right(o.input)
                },
            ) && out == KeyOutcomeView::Continue,
            Key::Home => f == with_input(o, moved_home(o.input)) && out
                == KeyOutcomeView::Continue,
            Key::End => f == with_input(o, moved_end(o.input)) && out == KeyOutcomeView::Continue,
            Key::Up => f == with_input(o, searched(o.input)) && out == KeyOutcomeView::Continue,
            Key::Other => f == o && out == KeyOutcomeView::Continue,
        },
    }
}

impl InputApp {
    /// An empty box in normal mode, with no messages.
    pub fn new() -> (app: InputApp)
        ensures
            app@.input.text.len() == 0,
            app@.input.history.len() == 0,
            app@.input.position == 0,
            app@.input.selection is None,
            app@.input.searching is None,
            app@.mode == InputMode::Normal,
            app@.messages.len() == 0,
    {
        let app = InputApp { input: InputState::new(), input_mode: InputMode::Normal, messages: Vec::new() };
        assert(app@.messages =~= Seq::<Seq<char>>::empty());
        app
    }

    /// The input box.
    pub fn input(&self) -> (i: &InputState)
        ensures
            i@ == self@.input,
    {
        &self.input
    }

    /// The mode.
    pub fn mode(&self) -> (m: InputMode)
        ensures
            m == self@.mode,
    {
        self.input_mode
    }

    /// The messages entered so far, oldest first.
    pub fn messages(&self) -> (m: &[String])
        ensures
            strings_view(m@) == self@.messages,
    {
        self.messages.as_slice()
    }

    /// Whether key `key` with modifiers `m` can be taken now (see `key_allowed`).
    pub fn can_take(&self, key: Key, m: Modifiers) -> (b: bool)
        ensures
            b == key_allowed(self@, key, m),
    {
        match self.input_mode {
            InputMode::Normal => true,
            InputMode::Editing => match key {
                Key::Char(c) => {
                    if !m.control && !m.alt {
                        let len = self.input.text_len();
                        self.input.is_boundary_at(self.input.get_pos()) && len <= usize::MAX - 4
                    } else if m.control && !m.shift && !m.alt && c == 'c' {
                        self.input.selection_readable()
                    } else if m.control && !m.shift && !m.alt && c == 'x' {
                        self.input.selection_removable()
                    } else {
                        true
                    }
                },
                Key::Backspace => self.input.is_boundary_at(self.input.get_pos()),
                Key::Right => m.control || m.shift || self.input.get_pos() < usize::MAX,
                _ => true,
            },
        }
    }

    /// Takes one key: changes the screen and says what is to be done.
    pub fn handle_key(&mut self, key: Key, m: Modifiers) -> (out: KeyOutcome)
        requires
            key_allowed(old(self)@, key, m),
        ensures
            key_handled(old(self)@, key, m, final(self)@, out@),
    {
        match self.input_mode {
            InputMode::Normal => match key {
                Key::Char('e') => {
                    self.input_mode = InputMode::Editing;
                    KeyOutcome::Continue
                },
                Key::Char('q') => KeyOutcome::Quit,
                _ => KeyOutcome::Continue,
            },
            InputMode::Editing => self.handle_editing_key(key, m),
        }
    }

    /// Takes one key in editing mode.
    #[verifier::spinoff_prover]
    #[verifier::rlimit(40)]
    fn handle_editing_key(&mut self, key: Key, m: Modifiers) -> (out: KeyOutcome)
        requires
            old(self)@.mode == InputMode::Editing,
            key_allowed(old(self)@, key, m),
        ensures
            key_handled(old(self)@, key, m, final(self)@, out@),
    {
        match key {
            Key::Enter => {
                let ghost prev = self.messages@;
                let text = self.input.enter_current();
                self.messages.push(text);
                assert(strings_view(self.messages@) =~= strings_view(prev).push(old(self)@.input.text));
                KeyOutcome::Continue
            },
            Key::Char(c) => {
                if !m.control && !m.alt {
                    self.input.insert_char(c);
                    KeyOutcome::Continue
                } else if m.control && !m.shift && !m.alt {
                    if c == 'a' {
                        self.input.move_pos_home();
                        KeyOutcome::Continue
                    } else if c == 'd' {
                        self.input.move_pos_end();
                        KeyOutcome::Continue
                    } else if c == 'c' {
                        match self.input.get_selected_text() {
                            Some(text) => KeyOutcome::Copy(text),
                            None => KeyOutcome::Continue,
                        }
                    } else if c == 'v' {
                        KeyOutcome::Paste
                    } else if c == 'x' {
                        match self.input.remove_selected() {
                            Some(text) => {
                                proof {
                                    if let Some((s, e)) = old(self)@.input.selection {
                                        if e <= s {
                                            assert(text@ =~= Seq::<char>::empty());
                                        }
                                    }
                                }
                                KeyOutcome::Copy(text)
                            },
                            None => KeyOutcome::Continue,
                        }
                    } else {
                        KeyOutcome::Continue
                    }
                } else {
                    KeyOutcome::Continue
                }
            },
            Key::Backspace => {
                self.input.backspace_char();
                KeyOutcome::Continue
            },
            Key::Delete => {
                self.input.delete_char();
                KeyOutcome::Continue
            },
            Key::Esc => {
                self.input_mode = InputMode::Normal;
                KeyOutcome::Continue
            },
            Key::Left => {
                if m.control {
                    self.input.move_pos_home();
                } else if m.shift {
                    self.input.grow_selection_left();
                } else {
                    self.input.move_pos_left();
                }
                KeyOutcome::Continue
            },
            Key::Right => {
                if m.control {
                    self.input.move_pos_end();
                } else if m.shift {
                    self.input.grow_selection_right();
                } else {
                    self.input.move_pos_right();
                }
                KeyOutcome::Continue
            },
            Key::Home => {
                self.input.move_pos_home();
                KeyOutcome::Continue
            },
            Key::End => {
                self.input.move_pos_end();
                KeyOutcome::Continue
            },
            Key::Up => {
                self.input.search_history();
                KeyOutcome::Continue
            },
            Key::Other => KeyOutcome::Continue,
        }
    }

    /// Whether `text` can be pasted now: the cursor is at a character boundary and the
    /// text fits.
    pub fn can_paste(&self, text: &str) -> (b: bool)
        requires
            byte_len(text@) <= usize::MAX,
        ensures
            b == (is_boundary(self@.input.text, self@.input.position as int) && byte_len(
                self@.input.text,
            ) + byte_len(text@) <= usize::MAX),
    {
        proof {
            crate::types::bytes::lemma_byte_len_encoding(text@);
        }
        let len = self.input.text_len();
        let extra = text.len();
        let pos = self.input.get_pos();
        let at = self.input.is_boundary_at(pos);
        at && extra <= usize::MAX - len
    }

    /// Inserts the clipboard's text at the cursor (after a `Paste` outcome).
    pub fn paste(&mut self, text: &str)
        requires
            is_boundary(old(self)@.input.text, old(self)@.input.position as int),
            byte_len(old(self)@.input.text) + byte_len(text@) <= usize::MAX,
        ensures
            final(self)@ == with_input(old(self)@, pasted(old(self)@.input, text@)),
    {
        self.input.push_str(text);
    }
}

} // verus!
