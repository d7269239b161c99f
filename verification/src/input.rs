//! The one-line text field in which a file path is typed.

use vstd::prelude::*;
use crossterm::event::{Event, KeyCode as TermCode, KeyEvent, KeyModifiers};
use tui_input::backend::crossterm::EventHandler;
use tui_input::Input;
use crate::key::{Key, KeyCode};

verus! {

/// `tui_input::Input`, a line of text with a cursor. Its fields stay hidden.
#[verifier::external_type_specification]
#[verifier::external_body]
pub struct ExInput(tui_input::Input);

/// The text that a field holds.
pub uninterp spec fn input_value(input: Input) -> Seq<char>;

/// The number of characters that stand before the cursor of a field.
pub uninterp spec fn input_cursor(input: Input) -> nat;

/// The number of columns that the first `cursor` characters of `text` take on the
/// screen, as `tui_input` counts them.
pub uninterp spec fn visual_cursor_of(text: Seq<char>, cursor: nat) -> usize;

/// The number of columns that `tui_input` scrolls out of a field of `width` columns
/// that holds `text` with `cursor` characters before the cursor.
pub uninterp spec fn visual_scroll_of(text: Seq<char>, cursor: nat, width: usize) -> usize;

/// A text field as plain values: its text, and the number of characters before its
/// cursor.
pub struct PathField {
    pub text: Seq<char>,
    pub cursor: nat,
}

/// The field that an `Input` stands for.
pub open spec fn field_of(input: Input) -> PathField {
    PathField { text: input_value(input), cursor: input_cursor(input) }
}

/// True for the keys that a text field may react to: presses only, and among them
/// not enter, escape, the up and down arrows and the keys that the library does not
/// tell apart.
pub open spec fn may_edit(key: Key) -> bool {
    key.kind is Press && !(key.code == KeyCode::Enter || key.code == KeyCode::Esc || key.code
        == KeyCode::Up || key.code == KeyCode::Down || key.code == KeyCode::Other)
}

/// What a key asks of a text field.
pub enum Edit {
    /// Put the character in at the cursor.
    Insert(char),
    /// Remove the character before the cursor.
    DeletePrevious,
    /// Remove the character behind the cursor.
    DeleteNext,
    /// Move the cursor one character back.
    Previous,
    /// Move the cursor one character on.
    Next,
    /// Move the cursor to the start of the text.
    Start,
    /// Move the cursor to the end of the text.
    End,
    /// Remove the whole text.
    Clear,
    /// Remove the text from the cursor on.
    CutToEnd,
}

/// What a press asks of a text field, for the keys stated here. A character with no
/// modifier, or with shift alone, is typed. With no modifier, backspace and delete
/// remove one character, left and right move by one, home and end move to the ends.
/// With control alone, `h` is backspace, `b` left, `f` right, `a` home, `e` end, `u`
/// removes the text and `k` what stands from the cursor on.
pub open spec fn edit_of(key: Key) -> Option<Edit> {
    let plain = key.modifiers == 0;
    let control = key.modifiers == crate::key::CONTROL;
    if !(key.kind is Press) {
        None
    } else if key.code is Char && (plain || key.modifiers == crate::key::SHIFT) {
        Some(Edit::Insert(key.code->Char_0))
    } else if (plain && key.code == KeyCode::Backspace) || (control && key.code == KeyCode::Char(
        'h',
    )) {
        Some(Edit::DeletePrevious)
    } else if plain && key.code == KeyCode::Delete {
        Some(Edit::DeleteNext)
    } else if (plain && key.code == KeyCode::Left) || (control && key.code == KeyCode::Char('b')) {
        Some(Edit::Previous)
    } else if (plain && key.code == KeyCode::Right) || (control && key.code == KeyCode::Char('f')) {
        Some(Edit::Next)
    } else if (plain && key.code == KeyCode::Home) || (control && key.code == KeyCode::Char('a')) {
        Some(Edit::Start)
    } else if (plain && key.code == KeyCode::End) || (control && key.code == KeyCode::Char('e')) {
        Some(Edit::End)
    } else if control && key.code == KeyCode::Char('u') {
        Some(Edit::Clear)
    } else if control && key.code == KeyCode::Char('k') {
        Some(Edit::CutToEnd)
    } else {
        None
    }
}

/// True for the keys that put their character into a text field.
pub open spec fn types(key: Key) -> bool {
    edit_of(key) is Some && edit_of(key)->Some_0 is Insert
}

/// True for the chords that move or delete by a word: control with left, right,
/// delete or `w`, and meta with `b`, `f`, `d` or backspace.
pub open spec fn word_chord(key: Key) -> bool {
    ||| key.modifiers == crate::key::CONTROL && (key.code == KeyCode::Left || key.code
        == KeyCode::Right || key.code == KeyCode::Delete || key.code == KeyCode::Char('w'))
    ||| key.modifiers == crate::key::META && (key.code == KeyCode::Char('b') || key.code
        == KeyCode::Char('f') || key.code == KeyCode::Char('d') || key.code
        == KeyCode::Backspace)
}

/// True for the keys whose effect on a text field [`PathField::pressed`] states:
/// those that never reach the text, those of [`edit_of`], and, among the keys whose
/// modifiers are all known, every other key but the word chords.
pub open spec fn fixed(key: Key) -> bool {
    !may_edit(key) || edit_of(key) is Some || (key.modifiers < 64 && !word_chord(key))
}

impl PathField {
    /// A field without text.
    pub open spec fn empty() -> PathField {
        PathField { text: Seq::empty(), cursor: 0 }
    }

    /// The cursor stands inside the text or at its end.
    pub open spec fn inside(self) -> bool {
        self.cursor <= self.text.len()
    }

    /// The field after `c` was typed: `c` stands where the cursor was, and the
    /// cursor behind it.
    pub open spec fn typed(self, c: char) -> PathField {
        PathField { text: self.text.insert(self.cursor as int, c), cursor: self.cursor + 1 }
    }

    /// The field after an edit, and whether the field reacted. An edit that has
    /// nothing to remove, or nowhere to move, gets no reaction and changes nothing;
    /// cutting to the end always gets one.
    pub open spec fn apply(self, edit: Edit) -> (PathField, bool) {
        let at_start = self.cursor == 0;
        let at_end = self.cursor == self.text.len();
        match edit {
            Edit::Insert(c) => (self.typed(c), true),
            Edit::DeletePrevious => if at_start {
                (self, false)
            } else {
                (
                    PathField {
                        text: self.text.remove(self.cursor - 1),
                        cursor: (self.cursor - 1) as nat,
                    },
                    true,
                )
            },
            Edit::DeleteNext => if at_end {
                (self, false)
            } else {
                (PathField { text: self.text.remove(self.cursor as int), ..self }, true)
            },
            Edit::Previous => if at_start {
                (self, false)
            } else {
                (PathField { cursor: (self.cursor - 1) as nat, ..self }, true)
            },
            Edit::Next => if at_end {
                (self, false)
            } else {
                (PathField { cursor: self.cursor + 1, ..self }, true)
            },
            Edit::Start => if at_start {
                (self, false)
            } else {
                (PathField { cursor: 0, ..self }, true)
            },
            Edit::End => if at_end {
                (self, false)
            } else {
                (PathField { cursor: self.text.len(), ..self }, true)
            },
            Edit::Clear => if self.text.len() == 0 {
                (self, false)
            } else {
                (PathField::empty(), true)
            },
            Edit::CutToEnd => (
                PathField { text: self.text.subrange(0, self.cursor as int), ..self },
                true,
            ),
        }
    }

    /// The field after a key whose effect is fixed, and whether the field reacted: a
    /// key that asks for an edit has it applied, a key that never reaches the text
    /// changes nothing.
    pub open spec fn pressed(self, key: Key) -> (PathField, bool) {
        match edit_of(key) {
            Some(edit) => self.apply(edit),
            None => (self, false),
        }
    }
}

/// `tui_input::Input::from` on the empty string: a field that holds no text, with
/// the cursor at its start.
#[verifier::external_body]
pub(crate) fn input_empty() -> (input: Input)
    ensures
        field_of(input) == PathField::empty(),
{
    Input::from("")
}

/// `tui_input::Input::value`: a copy of the text that the field holds.
#[verifier::external_body]
pub(crate) fn input_text(input: &Input) -> (text: String)
    ensures
        text@ == input_value(*input),
{
    input.value().to_string()
}

/// `handle_event` of `tui_input::backend::crossterm::EventHandler`, on a press of
/// `key`: true when the field reacted. The crate maps a key to a request and then
/// carries the request out. Enter, escape, the up and down arrows and the null key
/// map to no request: the field returns false and stays as it is. The keys of
/// [`edit_of`] map to the requests named there, whose effect [`PathField::apply`]
/// states as the crate carries them out. Every other key whose modifier bits the
/// crate knows maps to no request, but for the chords that move or delete by a word.
/// Whatever the key, a cursor that stood inside the text or at its end still does.
/// Of the field after a word chord, or after a key with unknown modifier bits,
/// nothing more is claimed.
#[verifier::external_body]
pub(crate) fn input_handle_key(input: &mut Input, key: Key) -> (consumed: bool)
    requires
        key.kind is Press,
        field_of(*old(input)).inside(),
    ensures
        fixed(key) ==> (field_of(*final(input)), consumed) == field_of(*old(input)).pressed(key),
        field_of(*final(input)).inside(),
{
    let code = match key.code {
        KeyCode::Char(c) => TermCode::Char(c),
        KeyCode::Enter => TermCode::Enter,
        KeyCode::Esc => TermCode::Esc,
        KeyCode::Up => TermCode::Up,
        KeyCode::Down => TermCode::Down,
        KeyCode::Left => TermCode::Left,
        KeyCode::Right => TermCode::Right,
        KeyCode::Backspace => TermCode::Backspace,
        KeyCode::Delete => TermCode::Delete,
        KeyCode::Home => TermCode::Home,
        KeyCode::End => TermCode::End,
        KeyCode::Other => TermCode::Null,
    };
    input.handle_event(&Event::Key(KeyEvent::new(code, KeyModifiers::from_bits_truncate(key.modifiers)))).is_some()
}

/// `tui_input::Input::visual_cursor`: the number of columns that the text before
/// the cursor takes, which depends on the text and the cursor alone.
#[verifier::external_body]
pub(crate) fn input_visual_cursor(input: &Input) -> (columns: usize)
    ensures
        columns == visual_cursor_of(input_value(*input), input_cursor(*input)),
{
    input.visual_cursor()
}

/// `tui_input::Input::visual_scroll`: the number of columns scrolled out of a field
/// that is `width` columns wide, which depends on the text, the cursor and the
/// width alone.
#[verifier::external_body]
pub(crate) fn input_visual_scroll(input: &Input, width: usize) -> (columns: usize)
    ensures
        columns == visual_scroll_of(input_value(*input), input_cursor(*input), width),
{
    input.visual_scroll(width)
}

/// The column of the cursor inside a field: the columns before the cursor that are
/// not scrolled out, cut to sixteen bits.
pub open spec fn spec_cursor_offset(cursor: usize, scroll: usize) -> u16 {
    if cursor > scroll {
        ((cursor - scroll) % 0x10000) as u16
    } else {
        0
    }
}

/// The column of the cursor inside a field, from the columns before the cursor and
/// the columns scrolled out.
pub fn cursor_offset(cursor: usize, scroll: usize) -> (column: u16)
    ensures
        column == spec_cursor_offset(cursor, scroll),
{
    if cursor > scroll {
        ((cursor - scroll) % 0x10000) as u16
    } else {
        0
    }
}

} // verus!
