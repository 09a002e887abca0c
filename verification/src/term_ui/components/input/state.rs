//! The state of a text input box: the text, the cursor's byte position, the selected
//! byte range and the texts entered before.
use vstd::prelude::*;

use crate::types::bytes::{
    byte_len, ceil_boundary, ceil_char_index, char_index, char_len, char_width, floor_boundary,
    is_boundary, lemma_byte_len_encoding, lemma_byte_len_insert, lemma_byte_len_remove,
    lemma_byte_len_splice, lemma_byte_len_take_le, lemma_byte_len_take_step,
    lemma_byte_len_take_strict, lemma_char_index, lemma_char_index_end, str_display_width,
    string_insert, string_insert_str, string_pop, string_push, string_push_str, string_remove,
    unicode_str_width,
};
use crate::types::text::{chars_of, seq_starts_with, str_starts_with, strings_view};

verus! {

/// What an input box holds.
pub struct InputView {
    pub text: Seq<char>,
    pub history: Seq<Seq<char>>,
    pub position: usize,
    pub searching: Option<usize>,
    pub selection: Option<(usize, usize)>,
}

/// The state of a text input box. Positions count bytes of the text's UTF-8 encoding;
/// the selection is a range of byte positions.
pub struct InputState {
    text: String,
    history: Vec<String>,
    position: usize,
    searching: Option<usize>,
    selection: Option<(usize, usize)>,
}

impl View for InputState {
    type V = InputView;

    closed spec fn view(&self) -> InputView {
        InputView {
            text: self.text@,
            history: strings_view(self.history@),
            position: self.position,
            searching: self.searching,
            selection: self.selection,
        }
    }
}

/// The index of the last text of the history that begins with `t` (there must be one).
pub open spec fn latest_with_prefix(h: Seq<Seq<char>>, t: Seq<char>) -> int {
    choose|j: int|
        0 <= j < h.len() && seq_starts_with(#[trigger] h[j], t) && forall|m: int|
            j < m < h.len() ==> !seq_starts_with(#[trigger] h[m], t)
}

/// Whether some text of the history begins with `t`.
pub open spec fn some_with_prefix(h: Seq<Seq<char>>, t: Seq<char>) -> bool {
    exists|j: int| 0 <= j < h.len() && seq_starts_with(#[trigger] h[j], t)
}

/// The box after typing `c` at the cursor: `c` is inserted there and the cursor moves past
/// it.
pub open spec fn typed(v: InputView, c: char) -> InputView {
    InputView {
        text: v.text.insert(char_index(v.text, v.position as int), c),
        position: (v.position + char_width(c)) as usize,
        ..v
    }
}

/// The box after a backspace: the character before the cursor is removed and the cursor
/// moves back over it; nothing changes at the start.
pub open spec fn backspaced(v: InputView) -> InputView {
    if v.position == 0 {
        v
    } else {
        let k = char_index(v.text, v.position as int);
        InputView { text: v.text.remove(k - 1), position: byte_len(v.text.take(k - 1)) as usize, ..v }
    }
}

/// The box after a delete: the character at or after the cursor is removed (the last one
/// where the cursor is past every character start); nothing changes at the end.
pub open spec fn deleted(v: InputView) -> InputView {
    let t = v.text;
    let k = ceil_char_index(t, v.position as int);
    if v.position == byte_len(t) {
        v
    } else if k == t.len() && t.len() == 0 {
        v
    } else if k == t.len() {
        InputView { text: t.drop_last(), ..v }
    } else {
        InputView { text: t.remove(k), ..v }
    }
}

/// The box after `text` is inserted at the cursor, the cursor moving past it.
pub open spec fn pasted(v: InputView, text: Seq<char>) -> InputView {
    InputView {
        text: v.text.take(char_index(v.text, v.position as int)) + text + v.text.skip(
            char_index(v.text, v.position as int),
        ),
        position: (v.position + byte_len(text)) as usize,
        ..v
    }
}

/// The cursor at byte `p`, or at the end where that is past it.
pub open spec fn clamped(v: InputView, p: int) -> usize {
    if p > byte_len(v.text) {
        byte_len(v.text) as usize
    } else {
        p as usize
    }
}

/// The box after the cursor moves one byte back (not before the start), the selection
/// cleared.
pub open spec fn moved_left(v: InputView) -> InputView {
    if v.position == 0 {
        v
    } else {
        InputView { position: clamped(v, v.position - 1), selection: None, ..v }
    }
}

/// The box after the cursor moves one byte forward (not past the end), the selection
/// cleared.
pub open spec fn moved_right(v: InputView) -> InputView {
    InputView { position: clamped(v, v.position + 1), selection: None, ..v }
}

/// The box after the cursor moves to the end, the selection cleared.
pub open spec fn moved_end(v: InputView) -> InputView {
    InputView { position: byte_len(v.text) as usize, selection: None, ..v }
}

/// The box after the cursor moves to the start, the selection cleared.
pub open spec fn moved_home(v: InputView) -> InputView {
    InputView { position: 0, selection: None, ..v }
}

/// The box after the selection grows one byte to the left (an empty one starting at the
/// cursor where there is none).
pub open spec fn grown_left(v: InputView) -> InputView {
    InputView {
        selection: match v.selection {
            Some((s, e)) => if s > 0 {
                Some(((s - 1) as usize, e))
            } else {
                Some((s, e))
            },
            None => Some((v.position, v.position)),
        },
        ..v
    }
}

/// The box after the selection grows one byte to the right, not past the end (an empty
/// one starting at the cursor where there is none).
pub open spec fn grown_right(v: InputView) -> InputView {
    InputView {
        selection: match v.selection {
            Some((s, e)) => if e < byte_len(v.text) {
                Some((s, (e + 1) as usize))
            } else {
                Some((s, e))
            },
            None => Some((v.position, v.position)),
        },
        ..v
    }
}

/// The box after the selection's text is removed (as many characters as the selection
/// spans bytes), the cursor at the selection's start.
pub open spec fn selection_removed(v: InputView) -> InputView {
    match v.selection {
        None => v,
        Some((s, e)) => if e <= s {
            InputView { position: s, selection: None, ..v }
        } else {
            let k = char_index(v.text, s as int);
            InputView {
                text: v.text.take(k) + v.text.skip(k + (e - s)),
                position: s,
                selection: None,
                ..v
            }
        },
    }
}

/// The box after its text is entered: the text goes to the history and the box is empty,
/// with the cursor at the start and no selection.
pub open spec fn text_entered(v: InputView) -> InputView {
    InputView { text: Seq::empty(), history: v.history.push(v.text), position: 0, selection: None, ..v }
}

/// The box after a search of the history (see `InputState::search_history`).
pub open spec fn searched(v: InputView) -> InputView {
    if v.history.len() == 0 {
        InputView { searching: None, ..v }
    } else if v.text.len() == 0 {
        InputView { text: v.history.last(), position: byte_len(v.history.last()) as usize, ..v }
    } else if some_with_prefix(v.history, v.text) {
        let t = v.history[latest_with_prefix(v.history, v.text)];
        InputView { text: t, position: byte_len(t) as usize, ..v }
    } else {
        v
    }
}

impl InputState {
    /// Texts short enough that their byte lengths fit in a `usize`.
    #[verifier::type_invariant]
    closed spec fn inv(self) -> bool {
        &&& byte_len(self@.text) <= usize::MAX
        &&& forall|i: int|
            0 <= i < self@.history.len() ==> byte_len(#[trigger] self@.history[i]) <= usize::MAX
    }

    /// An empty box with no history.
    pub fn new() -> (s: InputState)
        ensures
            s@.text.len() == 0,
            s@.history.len() == 0,
            s@.position == 0,
            s@.searching is None,
            s@.selection is None,
    {
        InputState {
            text: String::new(),
            history: Vec::new(),
            position: 0,
            searching: None,
            selection: None,
        }
    }

    /// The byte length of the text.
    pub fn text_len(&self) -> (n: usize)
        ensures
            n == byte_len(self@.text),
    {
        proof {
            use_type_invariant(self);
            lemma_byte_len_encoding(self.text@);
        }
        self.text.as_str().len()
    }

    /// Takes the text out of the box, leaving it empty.
    fn take_text(&mut self) -> (t: String)
        ensures
            t@ == old(self)@.text,
            final(self)@ == (InputView { text: Seq::empty(), ..old(self)@ }),
    {
        proof {
            use_type_invariant(&*self);
        }
        let mut t = String::new();
        std::mem::swap(&mut self.text, &mut t);
        t
    }

    /// The number of columns the text takes in a terminal.
    pub fn width(&self) -> (w: usize)
        ensures
            w == unicode_str_width(self@.text),
            self@.text.len() == 0 ==> w == 0,
    {
        str_display_width(self.text.as_str())
    }

    /// Inserts `c` at the cursor and moves the cursor past it.
    pub fn insert_char(&mut self, c: char)
        requires
            is_boundary(old(self)@.text, old(self)@.position as int),
            byte_len(old(self)@.text) + 4 <= usize::MAX,
        ensures
            final(self)@ == typed(old(self)@, c),
    {
        proof {
            use_type_invariant(&*self);
        }
        let ghost t = self.text@;
        let ghost k = char_index(t, self.position as int);
        proof {
            lemma_char_index_end(t);
            lemma_byte_len_take_le(t, k);
            lemma_byte_len_insert(t, k, c);
        }
        let at_end = self.cursor_at_end();
        let mut text = self.take_text();
        if at_end {
            proof {
                assert(t.insert(k, c) =~= t.push(c));
            }
            string_push(&mut text, c);
        } else {
            string_insert(&mut text, self.position, c);
        }
        self.text = text;
        self.position = self.position + char_len(c);
    }

    /// Removes the character before the cursor, if any, and moves the cursor back over it.
    pub fn backspace_char(&mut self) -> (r: Option<char>)
        requires
            is_boundary(old(self)@.text, old(self)@.position as int),
        ensures
            final(self)@ == backspaced(old(self)@),
            old(self)@.position == 0 ==> r is None,
            old(self)@.position > 0 ==> r == Some(
                old(self)@.text[char_index(old(self)@.text, old(self)@.position as int) - 1],
            ),
    {
        proof {
            use_type_invariant(&*self);
        }
        let ghost t = self.text@;
        let ghost k = char_index(t, self.position as int);
        proof {
            lemma_char_index_end(t);
            if k > 0 {
                lemma_byte_len_take_step(t, k - 1);
                lemma_byte_len_remove(t, k - 1);
                lemma_byte_len_take_le(t, k);
            } else {
                assert(t.take(0) =~= Seq::<char>::empty());
            }
        }
        if self.cursor_at_end() {
            let mut text = self.take_text();
            let popped = string_pop(&mut text);
            self.text = text;
            match popped {
                Some(ch) => {
                    proof {
                        assert(t.take(t.len() as int) =~= t);
                        assert(t.drop_last() =~= t.remove(k - 1));
                    }
                    self.position = self.position - char_len(ch);
                    Some(ch)
                },
                None => None,
            }
        } else if self.cursor_at_start() {
            None
        } else {
            let chars = chars_of(self.text.as_str());
            let (j, prev) = floor_boundary(&chars, self.position - 1);
            proof {
                crate::types::bytes::lemma_floor_char_index(
                    t,
                    self.position - 1,
                    k - 1,
                );
                lemma_char_index(t, k - 1);
            }
            let mut text = self.take_text();
            let ch = string_remove(&mut text, prev);
            self.text = text;
            self.position = self.position - char_len(ch);
            Some(ch)
        }
    }

    /// Removes the character at or after the cursor (the last character where the cursor
    /// is past every character start), unless the cursor is at the end. The cursor stays.
    pub fn delete_char(&mut self) -> (r: Option<char>)
        ensures
            final(self)@ == deleted(old(self)@),
            old(self)@.position == byte_len(old(self)@.text) ==> r is None,
            old(self)@.position != byte_len(old(self)@.text) ==> {
                let t = old(self)@.text;
                let k = ceil_char_index(t, old(self)@.position as int);
                &&& k == t.len() && t.len() == 0 ==> r is None
                &&& k == t.len() && t.len() > 0 ==> r == Some(t.last())
                &&& k < t.len() ==> r == Some(t[k])
            },
    {
        proof {
            use_type_invariant(&*self);
        }
        if self.cursor_at_end() {
            return None;
        }
        let ghost t = self.text@;
        let chars = chars_of(self.text.as_str());
        let (k, next) = ceil_boundary(&chars, self.position);
        let len = self.text_len();
        proof {
            lemma_char_index_end(t);
            assert(t.take(t.len() as int) =~= t);
            if k < t.len() {
                lemma_byte_len_take_strict(t, k as int, t.len() as int);
                lemma_char_index(t, k as int);
                lemma_byte_len_remove(t, k as int);
            } else if t.len() > 0 {
                lemma_byte_len_remove(t, t.len() - 1);
                assert(t.drop_last() =~= t.remove(t.len() - 1));
            }
        }
        let mut text = self.take_text();
        let r = if next == len {
            string_pop(&mut text)
        } else {
            Some(string_remove(&mut text, next))
        };
        self.text = text;
        r
    }

    /// Inserts `text` at the cursor and moves the cursor past it.
    pub fn push_str(&mut self, text: &str)
        requires
            is_boundary(old(self)@.text, old(self)@.position as int),
            byte_len(old(self)@.text) + byte_len(text@) <= usize::MAX,
        ensures
            final(self)@ == pasted(old(self)@, text@),
    {
        proof {
            use_type_invariant(&*self);
        }
        let ghost t = self.text@;
        let ghost k = char_index(t, self.position as int);
        proof {
            lemma_char_index_end(t);
            lemma_byte_len_take_le(t, k);
            lemma_byte_len_splice(t, k, text@);
            lemma_byte_len_encoding(text@);
        }
        let at_end = self.cursor_at_end();
        let mut current = self.take_text();
        if at_end {
            proof {
                assert(t.take(k) + text@ + t.skip(k) =~= t + text@);
            }
            string_push_str(&mut current, text);
        } else {
            string_insert_str(&mut current, self.position, text);
        }
        self.text = current;
        self.position = self.position + text.len();
    }

    /// Where a character starts at or before byte `pos`: its index, and whether it starts
    /// exactly at `pos` (so `pos` is a boundary).
    fn boundary_index(&self, pos: usize) -> (r: (usize, bool))
        ensures
            r.1 == is_boundary(self@.text, pos as int),
            r.1 ==> r.0 == char_index(self@.text, pos as int),
            r.0 <= self@.text.len(),
    {
        let chars = chars_of(self.text.as_str());
        let (k, off) = floor_boundary(&chars, pos);
        let ghost t = self@.text;
        proof {
            if off == pos {
                crate::types::bytes::lemma_char_index(t, k as int);
            } else if is_boundary(t, pos as int) {
                let j = choose|j: int| 0 <= j <= t.len() && #[trigger] byte_len(t.take(j)) == pos;
                if j < t.len() {
                    lemma_byte_len_take_strict(t, j, j + 1);
                }
                crate::types::bytes::lemma_floor_char_index(t, pos as int, j);
                assert(false);
            }
        }
        (k, off == pos)
    }

    /// Whether byte `pos` of the text is where a character starts, or its end.
    pub fn is_boundary_at(&self, pos: usize) -> (b: bool)
        ensures
            b == is_boundary(self@.text, pos as int),
    {
        self.boundary_index(pos).1
    }

    /// Whether the selection can be read (see `get_selected_text`): it does not run
    /// backwards and both its ends are boundaries.
    pub fn selection_readable(&self) -> (b: bool)
        ensures
            b == match self@.selection {
                Some((s, e)) => s <= e && is_boundary(self@.text, s as int) && is_boundary(
                    self@.text,
                    e as int,
                ),
                None => true,
            },
    {
        match self.selection {
            Some((s, e)) => s <= e && self.is_boundary_at(s) && self.is_boundary_at(e),
            None => true,
        }
    }

    /// Whether the selection can be removed (see `remove_selected`): a selection that
    /// spans bytes starts at a boundary, and as many characters follow its start.
    pub fn selection_removable(&self) -> (b: bool)
        ensures
            b == match self@.selection {
                Some((s, e)) => s < e ==> is_boundary(self@.text, s as int) && char_index(
                    self@.text,
                    s as int,
                ) + (e - s) <= self@.text.len(),
                None => true,
            },
    {
        match self.selection {
            Some((s, e)) => {
                if s < e {
                    let (k, at) = self.boundary_index(s);
                    let n = self.text.as_str().unicode_len();
                    at && e - s <= n - k
                } else {
                    true
                }
            },
            None => true,
        }
    }

    /// The text.
    pub fn get_text(&self) -> (t: &str)
        ensures
            t@ == self@.text,
    {
        self.text.as_str()
    }

    /// The texts entered before, oldest first.
    pub fn get_history(&self) -> (h: &[String])
        ensures
            strings_view(h@) == self@.history,
    {
        self.history.as_slice()
    }

    /// The cursor's byte position.
    pub fn get_pos(&self) -> (p: usize)
        ensures
            p == self@.position,
    {
        self.position
    }

    /// Moves the cursor to byte position `position`, or to the end where that is past it.
    pub fn set_pos(&mut self, position: usize)
        ensures
            final(self)@ == (InputView {
                position: if position > byte_len(old(self)@.text) {
                    byte_len(old(self)@.text) as usize
                } else {
                    position
                },
                ..old(self)@
            }),
    {
        proof {
            use_type_invariant(&*self);
        }
        let len = self.text_len();
        let pos = if position > len {
            len
        } else {
            position
        };
        self.position = pos;
    }

    /// Moves the cursor one byte back, unless it is at the start, and clears the
    /// selection.
    pub fn move_pos_left(&mut self)
        ensures
            final(self)@ == moved_left(old(self)@),
    {
        proof {
            use_type_invariant(&*self);
        }
        if self.position > 0 {
            self.set_pos(self.position - 1);
            self.selection = None;
        }
    }

    /// Moves the cursor one byte forward, not past the end, and clears the selection.
    pub fn move_pos_right(&mut self)
        requires
            old(self)@.position < usize::MAX,
        ensures
            final(self)@ == moved_right(old(self)@),
    {
        proof {
            use_type_invariant(&*self);
        }
        self.set_pos(self.position + 1);
        self.selection = None;
    }

    /// Moves the cursor to the end and clears the selection.
    pub fn move_pos_end(&mut self)
        ensures
            final(self)@ == moved_end(old(self)@),
    {
        proof {
            use_type_invariant(&*self);
        }
        let len = self.text_len();
        self.set_pos(len);
        self.selection = None;
    }

    /// Moves the cursor to the start and clears the selection.
    pub fn move_pos_home(&mut self)
        ensures
            final(self)@ == moved_home(old(self)@),
    {
        proof {
            use_type_invariant(&*self);
        }
        self.set_pos(0);
        self.selection = None;
    }

    /// Grows the selection one byte to the left; starts an empty selection at the cursor
    /// where there is none.
    pub fn grow_selection_left(&mut self)
        ensures
            final(self)@ == grown_left(old(self)@),
    {
        proof {
            use_type_invariant(&*self);
        }
        match self.selection {
            Some((s, e)) => {
                if s > 0 {
                    self.selection = Some((s - 1, e));
                }
            },
            None => {
                self.selection = Some((self.position, self.position));
            },
        }
    }

    /// Grows the selection one byte to the right, not past the end; starts an empty
    /// selection at the cursor where there is none.
    pub fn grow_selection_right(&mut self)
        ensures
            final(self)@ == grown_right(old(self)@),
    {
        proof {
            use_type_invariant(&*self);
        }
        match self.selection {
            Some((s, e)) => {
                let len = self.text_len();
                if e < len {
                    self.selection = Some((s, e + 1));
                }
            },
            None => {
                self.selection = Some((self.position, self.position));
            },
        }
    }

    /// Clears the selection.
    pub fn clear_selection(&mut self)
        ensures
            final(self)@ == (InputView { selection: None, ..old(self)@ }),
    {
        proof {
            use_type_invariant(&*self);
        }
        self.selection = None;
    }

    /// Removes the selection's text and hands it out, with the cursor put at the
    /// selection's start; as many characters are removed as the selection spans bytes.
    /// `None` where nothing is selected.
    pub fn remove_selected(&mut self) -> (r: Option<String>)
        requires
            match old(self)@.selection {
                Some((s, e)) => s < e ==> is_boundary(old(self)@.text, s as int) && char_index(
                    old(self)@.text,
                    s as int,
                ) + (e - s) <= old(self)@.text.len(),
                None => true,
            },
        ensures
            final(self)@ == selection_removed(old(self)@),
            match old(self)@.selection {
                None => r is None,
                Some((s, e)) => if e <= s {
                    r matches Some(t) && t@.len() == 0
                } else {
                    let t = old(self)@.text;
                    let k = char_index(t, s as int);
                    r matches Some(removed) && removed@ == t.subrange(k, k + (e - s))
                },
            },
    {
        proof {
            use_type_invariant(&*self);
        }
        match self.selection {
            Some((s, e)) => {
                let ghost t = self.text@;
                let ghost k = char_index(t, s as int);
                let mut removed = String::new();
                let mut text = self.take_text();
                let mut i: usize = s;
                while i < e
                    invariant
                        s <= i,
                        s < e ==> i <= e,
                        s < e ==> is_boundary(t, s as int) && k + (e - s) <= t.len(),
                        k == char_index(t, s as int),
                        s < e ==> text@ == t.take(k) + t.skip(k + (i - s)),
                        s < e ==> removed@ == t.subrange(k, k + (i - s)),
                        e <= s ==> text@ == t && removed@.len() == 0,
                        byte_len(text@) <= byte_len(t),
                    decreases e - i,
                {
                    proof {
                        let cur = text@;
                        assert(cur.take(k) =~= t.take(k));
                        lemma_char_index(cur, k);
                        lemma_char_index(t, k);
                        assert(cur[k] == t[k + (i - s)]);
                        lemma_byte_len_remove(cur, k);
                        assert(cur.remove(k) =~= t.take(k) + t.skip(k + (i - s) + 1));
                        assert(t.subrange(k, k + (i - s) + 1) =~= t.subrange(k, k + (i - s)).push(
                            cur[k],
                        ));
                    }
                    let c = string_remove(&mut text, s);
                    string_push(&mut removed, c);
                    i = i + 1;
                }
                proof {
                    if e <= s {
                    } else {
                        assert(i == e);
                    }
                }
                self.text = text;
                self.position = s;
                self.selection = None;
                Some(removed)
            },
            None => None,
        }
    }

    /// The selection's text, if anything is selected.
    pub fn get_selected_text(&self) -> (r: Option<String>)
        requires
            match self@.selection {
                Some((s, e)) => s <= e && is_boundary(self@.text, s as int) && is_boundary(
                    self@.text,
                    e as int,
                ),
                None => true,
            },
        ensures
            match self@.selection {
                None => r is None,
                Some((s, e)) => r matches Some(t) && t@ == self@.text.subrange(
                    char_index(self@.text, s as int),
                    char_index(self@.text, e as int),
                ),
            },
    {
        match self.selection {
            Some((s, e)) => {
                let ghost t = self.text@;
                let chars = chars_of(self.text.as_str());
                let (ks, _) = floor_boundary(&chars, s);
                let (ke, _) = floor_boundary(&chars, e);
                proof {
                    let a = char_index(t, s as int);
                    let b = char_index(t, e as int);
                    crate::types::bytes::lemma_boundary(t, s as int);
                    crate::types::bytes::lemma_boundary(t, e as int);
                    if a < t.len() {
                        lemma_byte_len_take_strict(t, a, a + 1);
                    }
                    if b < t.len() {
                        lemma_byte_len_take_strict(t, b, b + 1);
                    }
                    crate::types::bytes::lemma_floor_char_index(t, s as int, a);
                    crate::types::bytes::lemma_floor_char_index(t, e as int, b);
                    if b < a {
                        lemma_byte_len_take_strict(t, b, a);
                    }
                }
                let mut out = String::new();
                let mut j: usize = ks;
                while j < ke
                    invariant
                        ks <= j <= ke <= chars@.len(),
                        chars@ == t,
                        out@ == t.subrange(ks as int, j as int),
                    decreases ke - j,
                {
                    string_push(&mut out, chars[j]);
                    assert(t.subrange(ks as int, j + 1) =~= t.subrange(ks as int, j as int).push(
                        t[j as int],
                    ));
                    j = j + 1;
                }
                Some(out)
            },
            None => None,
        }
    }

    /// Empties the text; the cursor stays where it was.
    pub fn clear(&mut self)
        ensures
            final(self)@ == (InputView { text: Seq::empty(), ..old(self)@ }),
    {
        proof {
            use_type_invariant(&*self);
        }
        self.text = String::new();
    }

    /// Hands out the text and records it in the history; the box is then empty, with the
    /// cursor at the start and no selection.
    pub fn enter_current(&mut self) -> (entered: String)
        ensures
            entered@ == old(self)@.text,
            final(self)@ == text_entered(old(self)@),
    {
        proof {
            use_type_invariant(&*self);
        }
        let text = self.text.clone();
        let ghost h = self.history@;
        let mut history: Vec<String> = Vec::new();
        std::mem::swap(&mut self.history, &mut history);
        history.push(text.clone());
        proof {
            assert(strings_view(history@) =~= strings_view(h).push(text@));
            assert forall|i: int| 0 <= i < history@.len() implies byte_len(
                #[trigger] strings_view(history@)[i],
            ) <= usize::MAX by {
                if i < h.len() {
                    assert(strings_view(history@)[i] == strings_view(h)[i]);
                }
            }
        }
        self.history = history;
        self.text = String::new();
        self.position = 0;
        self.selection = None;
        text
    }

    /// Whether the cursor is at the start.
    pub fn cursor_at_start(&self) -> (b: bool)
        ensures
            b == (self@.position == 0),
    {
        self.position == 0
    }

    /// Whether the cursor is at the end.
    pub fn cursor_at_end(&self) -> (b: bool)
        ensures
            b == (self@.position == byte_len(self@.text)),
    {
        self.position == self.text_len()
    }

    /// Fills the box from the history: with the last text entered where the box is empty,
    /// else with the last text entered that begins with the box's text (the cursor then
    /// goes to the end). With no history, only the search state is reset.
    pub fn search_history(&mut self)
        ensures
            final(self)@ == searched(old(self)@),
    {
        proof {
            use_type_invariant(&*self);
        }
        let ghost h = strings_view(self.history@);
        if self.history.len() == 0 {
            self.searching = None;
            return;
        }
        if self.text.as_str().is_empty() {
            let n = self.history.len();
            assert(h[n - 1] == self.history@[n - 1]@);
            self.text = self.history[n - 1].clone();
            let len = self.text_len();
            self.set_pos(len);
            return;
        }
        let mut i: usize = self.history.len();
        while i > 0
            invariant
                i <= self.history@.len(),
                self@ == old(self)@,
                h == strings_view(self.history@),
                old(self)@.text.len() > 0,
                forall|m: int| 0 <= m < h.len() ==> byte_len(#[trigger] h[m]) <= usize::MAX,
                forall|m: int| i <= m < h.len() ==> !seq_starts_with(#[trigger] h[m], self@.text),
            decreases i,
        {
            i = i - 1;
            assert(h[i as int] == self.history@[i as int]@);
            if str_starts_with(self.history[i].as_str(), self.text.as_str()) {
                proof {
                    let j = latest_with_prefix(h, old(self)@.text);
                    assert(seq_starts_with(h[i as int], old(self)@.text));
                    if j < i {
                        assert(!seq_starts_with(h[i as int], old(self)@.text));
                    }
                }
                self.text = self.history[i].clone();
                let len = self.text_len();
                self.set_pos(len);
                return;
            }
        }
        proof {
            if some_with_prefix(h, old(self)@.text) {
                let j = choose|j: int| 0 <= j < h.len() && seq_starts_with(#[trigger] h[j], old(self)@.text);
                assert(!seq_starts_with(h[j], old(self)@.text));
            }
        }
    }
}

/// Backspace undoes typing a character: after `insert_char(c)` at a character boundary,
/// the cursor is at a boundary past `c`, `backspace_char` there gives `c` back, and the
/// box is as it was before (the room for four more bytes is what `insert_char` asks).
pub proof fn lemma_backspace_undoes_insert(s: InputView, c: char)
    requires
        is_boundary(s.text, s.position as int),
        byte_len(s.text) + 4 <= usize::MAX,
    ensures
        typed(s, c).position > 0,
        is_boundary(typed(s, c).text, typed(s, c).position as int),
        typed(s, c).text[char_index(typed(s, c).text, typed(s, c).position as int) - 1] == c,
        backspaced(typed(s, c)) == s,
{
    let k = char_index(s.text, s.position as int);
    crate::types::bytes::lemma_boundary(s.text, s.position as int);
    let t2 = s.text.insert(k, c);
    assert(t2.take(k) =~= s.text.take(k));
    assert(t2.take(k + 1) =~= s.text.take(k).push(c));
    lemma_byte_len_take_step(t2, k);
    lemma_char_index(t2, k + 1);
    assert(t2.remove(k) =~= s.text);
    lemma_char_index_end(s.text);
    lemma_byte_len_take_le(s.text, k);
}

/// Entering a text and then searching the history from the emptied box gives the text
/// back: the history then ends with it and the box is empty.
pub proof fn lemma_search_recalls_last_entry(s: InputView)
    ensures
        ({
            let entered = InputView {
                text: Seq::empty(),
                history: s.history.push(s.text),
                position: 0,
                selection: None,
                ..s
            };
            &&& entered.history.len() > 0
            &&& entered.text.len() == 0
            &&& entered.history.last() == s.text
        }),
{
}

/// Where an entry before place `n` begins with `t` and none from `n` on does, there is a
/// newest entry that begins with `t`.
proof fn lemma_newest_with_prefix_exists(h: Seq<Seq<char>>, t: Seq<char>, n: int)
    requires
        0 <= n <= h.len(),
        exists|j: int| 0 <= j < n && seq_starts_with(#[trigger] h[j], t),
        forall|m: int| n <= m < h.len() ==> !seq_starts_with(#[trigger] h[m], t),
    ensures
        exists|j: int|
            0 <= j < h.len() && seq_starts_with(#[trigger] h[j], t) && forall|m: int|
                j < m < h.len() ==> !seq_starts_with(#[trigger] h[m], t),
    decreases n,
{
    if seq_starts_with(h[n - 1], t) {
        assert(0 <= n - 1 < h.len() && seq_starts_with(h[n - 1], t) && forall|m: int|
            n - 1 < m < h.len() ==> !seq_starts_with(#[trigger] h[m], t));
    } else {
        let j = choose|j: int| 0 <= j < n && seq_starts_with(#[trigger] h[j], t);
        assert(j < n - 1);
        lemma_newest_with_prefix_exists(h, t, n - 1);
    }
}

/// Where some entry begins with `t`, `latest_with_prefix` is the newest one.
proof fn lemma_latest_with_prefix(h: Seq<Seq<char>>, t: Seq<char>)
    requires
        some_with_prefix(h, t),
    ensures
        0 <= latest_with_prefix(h, t) < h.len(),
        seq_starts_with(h[latest_with_prefix(h, t)], t),
        forall|m: int|
            latest_with_prefix(h, t) < m < h.len() ==> !seq_starts_with(#[trigger] h[m], t),
{
    lemma_newest_with_prefix_exists(h, t, h.len() as int);
}

/// A history search from a text that some entry of the history begins with recalls the
/// newest such entry: the box then holds an entry that begins with the text, no entry
/// entered after it begins with the text, the cursor is at its end and the history is
/// kept. Where no entry begins with the text, the box is left as it was; from an empty
/// box, the search recalls the newest entry.
pub proof fn lemma_search_recalls_newest_match(v: InputView)
    requires
        v.history.len() > 0,
    ensures
        v.text.len() == 0 ==> searched(v).text == v.history[v.history.len() - 1]
            && searched(v).history == v.history,
        v.text.len() > 0 && some_with_prefix(v.history, v.text) ==> exists|j: int|
            0 <= j < v.history.len() && searched(v).text == #[trigger] v.history[j]
                && seq_starts_with(v.history[j], v.text) && forall|m: int|
                j < m < v.history.len() ==> !seq_starts_with(#[trigger] v.history[m], v.text),
        v.text.len() > 0 && some_with_prefix(v.history, v.text) ==> searched(v).history
            == v.history && searched(v).position == byte_len(searched(v).text) as usize,
        v.text.len() > 0 && !some_with_prefix(v.history, v.text) ==> searched(v) == v,
{
    if v.text.len() > 0 && some_with_prefix(v.history, v.text) {
        lemma_latest_with_prefix(v.history, v.text);
        let j = latest_with_prefix(v.history, v.text);
        assert(searched(v).text == v.history[j]);
    }
}

} // verus!
