//! Keys typed into the comment composer: editing, moving the cursor, and
//! the keys that close it.
use vstd::prelude::*;

use crate::app::composer::{
    backspace_spec, delete_spec, insert_char_spec, move_left_spec, move_right_spec, move_vertical_spec, newline_spec,
    normalize_newlines, type_text, wrap_width, CommentComposer, EditorState,
};
use crate::app::update::{KeyCode, KeyPress};

verus! {

/// What a Tab key types into the composer.
pub const COMPOSER_TAB: &'static str = "    ";

/// How many display rows a page key moves: the viewport's height.
pub open spec fn page_rows(height: usize) -> int {
    if height < 1 { 1 } else { height as int }
}

/// Whether `key` changes the composer's text, which also drops a pending
/// discard: Enter, Backspace, Delete, Tab, and a char typed without Alt.
pub open spec fn edits_text(key: KeyPress) -> bool {
    match key.code {
        KeyCode::Enter | KeyCode::Backspace | KeyCode::Delete | KeyCode::Tab => true,
        KeyCode::Char(_) => !key.alt,
        _ => false,
    }
}

/// The lines and cursor after an edit key, in a viewport `width` columns
/// wide and `height` rows high: Enter breaks the line, Backspace and Delete
/// remove a char, the arrows, Home, End and the page keys move the cursor
/// (up and down by display rows), Tab types four spaces, a char typed
/// without Alt is inserted; any other key changes nothing.
pub open spec fn composer_edit_spec(s: EditorState, key: KeyPress, width: usize, height: usize) -> EditorState {
    match key.code {
        KeyCode::Enter => newline_spec(s),
        KeyCode::Backspace => backspace_spec(s),
        KeyCode::Delete => delete_spec(s),
        KeyCode::Left => move_left_spec(s),
        KeyCode::Right => move_right_spec(s),
        KeyCode::Up => move_vertical_spec(s, wrap_width(width), -1),
        KeyCode::Down => move_vertical_spec(s, wrap_width(width), 1),
        KeyCode::Home => EditorState { col: 0, ..s },
        KeyCode::End => EditorState { col: s.lines[s.line].len() as int, ..s },
        KeyCode::PageUp => move_vertical_spec(s, wrap_width(width), -page_rows(height)),
        KeyCode::PageDown => move_vertical_spec(s, wrap_width(width), page_rows(height)),
        KeyCode::Tab => type_text(s, normalize_newlines(COMPOSER_TAB@)),
        KeyCode::Char(c) => if key.alt { s } else { insert_char_spec(s, c) },
        _ => s,
    }
}

/// Applies an edit key (Control not held) to the composer, in its recorded
/// viewport (see `composer_edit_spec`); Escape changes nothing and asks for
/// the composer to close, which the result says.
pub fn apply_composer_edit_key(composer: &mut CommentComposer, key: KeyPress) -> (close: bool)
    requires
        old(composer).wf(),
    ensures
        final(composer).wf(),
        close == (key.code is Esc),
        final(composer).state() == if close {
            old(composer).state()
        } else {
            composer_edit_spec(
                old(composer).state(),
                key,
                if old(composer).viewport_view().0 == 0 { 1 } else { old(composer).viewport_view().0 as usize },
                if old(composer).viewport_view().1 == 0 { 1 } else { old(composer).viewport_view().1 as usize },
            )
        },
        final(composer).discard_pending() == if !close && edits_text(key) { false } else { old(composer).discard_pending() },
        final(composer).scroll_view() == old(composer).scroll_view(),
        final(composer).viewport_view() == old(composer).viewport_view(),
{
    let width = composer.viewport_width();
    let height = composer.viewport_height();
    let page = height as isize;
    match key.code {
        KeyCode::Esc => {
            return true;
        },
        KeyCode::Enter => composer.newline(),
        KeyCode::Backspace => composer.backspace(),
        KeyCode::Delete => composer.delete(),
        KeyCode::Left => composer.move_left(),
        KeyCode::Right => composer.move_right(),
        KeyCode::Up => composer.move_vertical(width, -1),
        KeyCode::Down => composer.move_vertical(width, 1),
        KeyCode::Home => composer.move_home(),
        KeyCode::End => composer.move_end(),
        KeyCode::PageUp => composer.move_vertical(width, -page),
        KeyCode::PageDown => composer.move_vertical(width, page),
        KeyCode::Tab => composer.insert_str(COMPOSER_TAB),
        KeyCode::Char(ch) => {
            if !key.alt {
                composer.insert_char(ch);
            }
        },
        _ => {},
    }
    false
}

} // verus!
