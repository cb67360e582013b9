//! The single-line text editor behind the two fields of the transfer form.
//!
//! The editor is `tui_input::Input`. It is opaque here: what the contracts
//! know of a value is its text and its cursor, and what a typed character does
//! to both.

use crate::keys::{Key, KeyCode, CONTROL, MODIFIER_BITS};
use crossterm::event::{self, Event, KeyEvent, KeyModifiers};
use tui_input::backend::crossterm::EventHandler;
use tui_input::Input;
use vstd::prelude::*;

verus! {

/// `tui_input::Input`, the editor of one line of text. Nothing of its inside
/// is visible here.
#[verifier::external_type_specification]
#[verifier::external_body]
pub struct ExInput(Input);

/// The text that the editor holds.
pub uninterp spec fn input_text(input: Input) -> Seq<char>;

/// The number of characters of the text that stand before the cursor.
pub uninterp spec fn input_cursor(input: Input) -> nat;

/// `text` with `c` put in at `cursor`, or at the end if the cursor is beyond it.
pub open spec fn inserted(text: Seq<char>, cursor: nat, c: char) -> Seq<char> {
    let at = if cursor <= text.len() { cursor as int } else { text.len() as int };
    text.subrange(0, at) + seq![c] + text.subrange(at, text.len() as int)
}

/// What the editor makes of a field that holds `text` with the cursor at
/// `cursor` when it handles `key`: the text and the cursor afterwards. This
/// holds for every key but the one that pastes what was cut before, whose
/// result depends on more than the field.
pub uninterp spec fn edited(text: Seq<char>, cursor: nat, key: Key) -> (Seq<char>, nat);

/// The key that pastes what was cut before: `y` with control as the only
/// modifier among the six that the terminal knows.
pub open spec fn is_paste(key: Key) -> bool {
    key.code == KeyCode::Char('y') && key.modifiers & MODIFIER_BITS == CONTROL
}

/// What is known of a field that held `text` with the cursor at `cursor` once
/// it has handled `key`: it is what the editor makes of the field and the key,
/// and where the key types a character, the character has gone in at the
/// cursor and the cursor has moved past it.
pub open spec fn typed_into(
    text: Seq<char>,
    cursor: nat,
    key: Key,
    text_after: Seq<char>,
    cursor_after: nat,
) -> bool {
    &&& !is_paste(key) ==> (text_after, cursor_after) == edited(text, cursor, key)
    &&& key.typed_char() matches Some(c) ==> {
        &&& text_after == inserted(text, cursor, c)
        &&& cursor_after == cursor + 1
    }
}

/// What is known of an editor `after` it has handled `key` in state `before`.
pub open spec fn edits(before: Input, key: Key, after: Input) -> bool {
    typed_into(
        input_text(before),
        input_cursor(before),
        key,
        input_text(after),
        input_cursor(after),
    )
}

/// Calls `Input::default`. Trusted: the new editor holds no text and its
/// cursor is at the start.
#[verifier::external_body]
pub(crate) fn input_empty() -> (input: Input)
    ensures
        input_text(input) == Seq::<char>::empty(),
        input_cursor(input) == 0,
{
    Input::default()
}

/// Calls `Input::new`. Trusted: the new editor holds `text`, with the cursor
/// behind its last character.
#[verifier::external_body]
pub(crate) fn input_from(text: String) -> (input: Input)
    ensures
        input_text(input) == text@,
        input_cursor(input) == text@.len(),
{
    Input::new(text)
}

/// Calls `Input::value`. Trusted: the result is the editor's text.
#[verifier::external_body]
pub(crate) fn input_value(input: &Input) -> (text: &str)
    ensures
        text@ == input_text(*input),
{
    input.value()
}

/// Calls `Input::cursor`. Trusted: the result is the editor's cursor.
#[verifier::external_body]
pub(crate) fn input_position(input: &Input) -> (cursor: usize)
    ensures
        cursor == input_cursor(*input),
{
    input.cursor()
}

/// Calls `EventHandler::handle_event` of `tui_input` with `key` as a key press
/// of the terminal; a key that the terminal has no name for goes as its null
/// key. Trusted: but for control-y, the text and the cursor afterwards depend
/// on the text, the cursor and the key alone; and a character key pressed
/// alone, with shift, or with control and alt is inserted at the cursor,
/// which moves one to the right.
#[verifier::external_body]
pub(crate) fn input_handle_key(input: &mut Input, key: Key)
    ensures
        !is_paste(key) ==> (input_text(*final(input)), input_cursor(*final(input))) == edited(
            input_text(*old(input)),
            input_cursor(*old(input)),
            key,
        ),
        edits(*old(input), key, *final(input)),
{
    let code = match key.code {
        KeyCode::Backspace => event::KeyCode::Backspace,
        KeyCode::Delete => event::KeyCode::Delete,
        KeyCode::Left => event::KeyCode::Left, KeyCode::Right => event::KeyCode::Right,
        KeyCode::Up => event::KeyCode::Up, KeyCode::Down => event::KeyCode::Down,
        KeyCode::Home => event::KeyCode::Home, KeyCode::End => event::KeyCode::End,
        KeyCode::Tab => event::KeyCode::Tab,
        KeyCode::Enter => event::KeyCode::Enter,
        KeyCode::Esc => event::KeyCode::Esc,
        KeyCode::Char(c) => event::KeyCode::Char(c),
        KeyCode::Other => event::KeyCode::Null,
    };
    let modifiers = KeyModifiers::from_bits_truncate(key.modifiers);
    input.handle_event(&Event::Key(KeyEvent::new(code, modifiers)));
}

} // verus!
