//! Keys and characters as edits of the text being entered.

use crate::input::{Key, Modifiers, Platform};
use vstd::prelude::*;

verus! {

/// One operation on the state of the text input.
#[derive(Clone, Copy, Debug, PartialEq, Eq, Structural)]
pub enum TextStep {
    /// Insert one character.
    AddCharacter(char),
    /// Move a line up, selecting or not.
    MoveUp { select: bool },
    /// Move a line down, selecting or not.
    MoveDown { select: bool },
    /// Delete before the cursor.
    Backspace,
    /// Delete after the cursor.
    Delete,
    /// Move left, by word or character, selecting or not.
    MoveLeft { by_word: bool, select: bool },
    /// Move right, by word or character, selecting or not.
    MoveRight { by_word: bool, select: bool },
    /// Move to the beginning, selecting or not.
    MoveToBeginning { select: bool },
    /// Move to the end, selecting or not.
    MoveToEnd { select: bool },
    /// Select everything.
    SelectAll,
    /// Put the selected text on the clipboard.
    CopySelected,
    /// Delete the selected text.
    DeleteSelected,
    /// Perform what `paste` says of the contents of the clipboard.
    PasteClipboard,
}

/// The steps of one edit. They are applied in order to the state of the text
/// input, and the changes are notified once after the last one.
#[derive(Clone, Copy, Debug, PartialEq, Eq, Structural)]
pub struct TextEdit {
    pub first: TextStep,
    pub second: Option<TextStep>,
}

/// What a paste does.
#[derive(Debug)]
pub enum Paste {
    /// Insert this text.
    AddCharacters(String),
    /// The clipboard holds no text: leave the state as it is.
    NotText,
}

pub open spec fn single(step: TextStep) -> TextEdit {
    TextEdit { first: step, second: None }
}

/// The edit bound to `key` when it is pressed or repeats with `modifiers` held.
pub open spec fn bound_edit(platform: Platform, key: Key, modifiers: Modifiers) -> Option<TextEdit> {
    let select = modifiers.includes(platform.select_key());
    let by_word = modifiers.includes(platform.by_word_key());
    let command = modifiers.includes(platform.function_key());
    match key {
        Key::Enter => Some(single(TextStep::AddCharacter('\n'))),
        Key::Up => Some(single(TextStep::MoveUp { select })),
        Key::Down => Some(single(TextStep::MoveDown { select })),
        Key::Backspace => Some(single(TextStep::Backspace)),
        Key::Delete => Some(single(TextStep::Delete)),
        Key::Left => Some(single(TextStep::MoveLeft { by_word, select })),
        Key::Right => Some(single(TextStep::MoveRight { by_word, select })),
        Key::Home => Some(single(TextStep::MoveToBeginning { select })),
        Key::End => Some(single(TextStep::MoveToEnd { select })),
        Key::A if command => Some(single(TextStep::SelectAll)),
        Key::X if command => Some(
            TextEdit { first: TextStep::CopySelected, second: Some(TextStep::DeleteSelected) },
        ),
        Key::C if command => Some(single(TextStep::CopySelected)),
        Key::V if command => Some(single(TextStep::PasteClipboard)),
        _ => None,
    }
}

fn one_step(step: TextStep) -> (edit: TextEdit)
    ensures
        edit == single(step),
{
    TextEdit { first: step, second: None }
}

/// Returns the edit bound to a key that is pressed or repeats, if there is one.
pub fn key_edit(platform: Platform, key: Key, modifiers: Modifiers) -> (edit: Option<TextEdit>)
    ensures
        edit == bound_edit(platform, key, modifiers),
{
    let select = modifiers.contains(platform.select_modifier_key());
    let by_word = modifiers.contains(platform.by_word_modifier_key());
    let command = modifiers.contains(platform.function_modifier_key());
    match key {
        Key::Enter => Some(one_step(TextStep::AddCharacter('\n'))),
        Key::Up => Some(one_step(TextStep::MoveUp { select })),
        Key::Down => Some(one_step(TextStep::MoveDown { select })),
        Key::Backspace => Some(one_step(TextStep::Backspace)),
        Key::Delete => Some(one_step(TextStep::Delete)),
        Key::Left => Some(one_step(TextStep::MoveLeft { by_word, select })),
        Key::Right => Some(one_step(TextStep::MoveRight { by_word, select })),
        Key::Home => Some(one_step(TextStep::MoveToBeginning { select })),
        Key::End => Some(one_step(TextStep::MoveToEnd { select })),
        Key::A => if command {
            Some(one_step(TextStep::SelectAll))
        } else {
            None
        },
        Key::X => if command {
            Some(
                TextEdit { first: TextStep::CopySelected, second: Some(TextStep::DeleteSelected) },
            )
        } else {
            None
        },
        Key::C => if command {
            Some(one_step(TextStep::CopySelected))
        } else {
            None
        },
        Key::V => if command {
            Some(one_step(TextStep::PasteClipboard))
        } else {
            None
        },
        Key::Other(_) => None,
    }
}

/// Returns the edit of a typed character.
pub fn char_edit(character: char) -> (edit: TextEdit)
    ensures
        edit == single(TextStep::AddCharacter(character)),
{
    one_step(TextStep::AddCharacter(character))
}

/// Decides a paste by what the clipboard held: its text, or `None` where it
/// held no text.
pub fn paste(clipboard: Option<String>) -> (decision: Paste)
    ensures
        match clipboard {
            Some(text) => decision == Paste::AddCharacters(text),
            None => decision is NotText,
        },
{
    match clipboard {
        Some(text) => Paste::AddCharacters(text),
        None => Paste::NotText,
    }
}

} // verus!
