//! The composer's text buffer, backed by `edtui`.

use vstd::prelude::*;
use edtui::{EditorMode, EditorState, Index2, Lines};

verus! {

#[verifier::external_type_specification]
#[verifier::external_body]
pub struct ExEditorState(edtui::EditorState);

/// The text an editor holds, rows joined by line feeds: what
/// `editor.lines.to_string()` gives back.
pub uninterp spec fn editor_text(editor: EditorState) -> Seq<char>;

/// The `(row, col)` of an editor's cursor.
pub uninterp spec fn editor_cursor(editor: EditorState) -> (usize, usize);

/// Calls `EditorState::new(Lines::from(text))`.
///
/// `Lines::from` splits `text` with `str::lines` (and adds an empty last row
/// when `text` ends with a line feed) and `Lines::to_string` joins the rows
/// with line feeds, so for a text without carriage returns the editor gives
/// the same text back. A fresh editor has its cursor at `(0, 0)`. What the
/// editor holds for a text with carriage returns is left unsaid.
#[verifier::external_body]
pub(crate) fn new_editor(text: &str) -> (editor: EditorState)
    ensures
        !text@.contains('\r') ==> editor_text(editor) == text@,
        editor_cursor(editor) == (0usize, 0usize),
{
    EditorState::new(Lines::from(text))
}

/// Calls `editor.lines.to_string()`.
#[verifier::external_body]
pub(crate) fn editor_contents(editor: &EditorState) -> (text: String)
    ensures
        text@ == editor_text(*editor),
{
    editor.lines.to_string()
}

/// Sets `editor.mode` to `EditorMode::Insert`; the text and the cursor stay.
#[verifier::external_body]
pub(crate) fn editor_enter_insert_mode(editor: &mut EditorState)
    ensures
        editor_text(*final(editor)) == editor_text(*old(editor)),
        editor_cursor(*final(editor)) == editor_cursor(*old(editor)),
{
    editor.mode = EditorMode::Insert;
}

/// Sets `editor.cursor` to `Index2::new(row, col)`; the text stays.
#[verifier::external_body]
pub(crate) fn editor_move_cursor(editor: &mut EditorState, row: usize, col: usize)
    ensures
        editor_text(*final(editor)) == editor_text(*old(editor)),
        editor_cursor(*final(editor)) == (row, col),
{
    editor.cursor = Index2::new(row, col);
}

} // verus!
