//! What holds across several operations on the interface state.

use vstd::prelude::*;

use crate::app::{lemma_cycle_next_value, App, BottomPanelMode, ComposeTemplate, Dialog, Panel};
use crate::editor::editor_text;

verus! {

/// Moving down then up in a list comes back to the same row, and
/// scrolling a message down then up comes back to the same line.
pub proof fn law_next_then_previous(a: &App, b: &App, c: &App)
    requires
        a.wf(),
        a.active_panel == Panel::Message ==> a.message_scroll < u16::MAX,
        App::next_item_post(a, b),
        App::previous_item_post(b, c),
    ensures
        c.mailbox_index == a.mailbox_index,
        c.envelope_index == a.envelope_index,
        c.message_scroll == a.message_scroll,
{
    if a.active_panel == Panel::Mailboxes && a.mailboxes@.len() > 0 {
        lemma_cycle_next_value(a.mailbox_index as int, a.mailboxes@.len() as int);
    }
    if a.active_panel == Panel::Envelopes && a.envelopes@.len() > 0 {
        lemma_cycle_next_value(a.envelope_index as int, a.envelopes@.len() as int);
    }
}

/// Moving up then down in a list comes back to the same row, and
/// scrolling a message up then down comes back to the same line.
pub proof fn law_previous_then_next(a: &App, b: &App, c: &App)
    requires
        a.wf(),
        a.active_panel == Panel::Message ==> a.message_scroll > 0,
        App::previous_item_post(a, b),
        App::next_item_post(b, c),
    ensures
        c.mailbox_index == a.mailbox_index,
        c.envelope_index == a.envelope_index,
        c.message_scroll == a.message_scroll,
{
    if a.active_panel == Panel::Mailboxes && a.mailboxes@.len() > 0 {
        lemma_cycle_next_value(b.mailbox_index as int, b.mailboxes@.len() as int);
    }
    if a.active_panel == Panel::Envelopes && a.envelopes@.len() > 0 {
        lemma_cycle_next_value(b.envelope_index as int, b.envelopes@.len() as int);
    }
}

/// Moving down then up in a dialog comes back to the same entry.
pub proof fn law_dialog_next_then_previous(a: &App, b: &App, c: &App)
    requires
        a.dialog_index < a.dialog_count(),
        App::dialog_next_post(a, b),
        App::dialog_previous_post(b, c),
    ensures
        c.dialog_index == a.dialog_index,
        c.dialog == a.dialog,
{
    lemma_cycle_next_value(a.dialog_index as int, a.dialog_count() as int);
}

/// Moving up then down in a dialog comes back to the same entry.
pub proof fn law_dialog_previous_then_next(a: &App, b: &App, c: &App)
    requires
        a.dialog_index < a.dialog_count(),
        App::dialog_previous_post(a, b),
        App::dialog_next_post(b, c),
    ensures
        c.dialog_index == a.dialog_index,
        c.dialog == a.dialog,
{
    lemma_cycle_next_value(b.dialog_index as int, b.dialog_count() as int);
}

/// The cursor of a dialog never leaves the dialog's entries.
pub proof fn law_dialog_cursor_in_range(a: &App, b: &App, c: &App)
    requires
        a.dialog_index < a.dialog_count(),
        App::dialog_next_post(a, b),
        App::dialog_previous_post(a, c),
    ensures
        b.dialog_index < b.dialog_count(),
        c.dialog_index < c.dialog_count(),
{
    lemma_cycle_next_value(a.dialog_index as int, a.dialog_count() as int);
}

/// Closing a preview returns to the very draft that was previewed.
pub proof fn law_preview_then_close(a: &App, b: &App, c: &App, content: String)
    requires
        App::preview_compose_post(a, b, content),
        App::close_preview_post(b, c),
    ensures
        c.editor_state == a.editor_state,
        c.active_panel == Panel::Compose,
        c.bottom_panel_mode == BottomPanelMode::Compose,
        !c.previewing_compose,
        c.message_content is None,
        c.same_lists(a),
        c.same_account(a),
        c.same_dialog(a),
        c.status_message == a.status_message,
{
}

/// Setting then clearing the status line leaves no status and nothing
/// else changed.
pub proof fn law_status_set_then_clear(a: &App, b: &App, c: &App, message: String)
    requires
        App::set_status_post(a, b, message),
        App::clear_status_post(b, c),
    ensures
        c.status_message is None,
        c.same_but_status(a),
{
}

/// Opening then closing a dialog leaves no dialog and the rest of the
/// interface as it was.
pub proof fn law_dialog_open_then_close(a: &App, b: &App, c: &App, dialog: Dialog)
    requires
        App::open_dialog_post(a, b, dialog),
        App::close_dialog_post(b, c),
    ensures
        c.dialog is None,
        c.running == a.running,
        c.active_panel == a.active_panel,
        c.same_lists(a),
        c.same_account(a),
        c.same_bottom(a),
        c.status_message == a.status_message,
{
}

/// Showing a message then closing the bottom panel hands the focus back to
/// the envelopes, with no message left.
pub proof fn law_show_then_close(a: &App, b: &App, c: &App, content: String)
    requires
        App::show_message_post(a, b, content),
        c.bottom_closed(b),
    ensures
        c.active_panel == Panel::Envelopes,
        c.bottom_panel_mode == BottomPanelMode::Closed,
        c.message_content is None,
        c.same_lists(a),
        c.same_account(a),
        c.status_message == a.status_message,
{
}

/// Whatever panel has the focus, at most three presses of the panel key
/// bring the focus back to the mailboxes.
pub proof fn law_toggle_reaches_mailboxes(panel: Panel, mode: BottomPanelMode)
    ensures
        ({
            let p1 = App::next_panel(panel, mode);
            let p2 = App::next_panel(p1, mode);
            let p3 = App::next_panel(p2, mode);
            panel == Panel::Mailboxes || p1 == Panel::Mailboxes || p2 == Panel::Mailboxes || p3
                == Panel::Mailboxes
        }),
        App::next_panel(Panel::Mailboxes, mode) == Panel::Envelopes,
{
}

/// Pressing the panel key from the mailboxes goes through the envelopes,
/// then through the bottom panel when one is open, the message or the
/// composer, and then back to the mailboxes.
pub proof fn law_tab_cycle_shows_every_panel(mode: BottomPanelMode)
    ensures
        ({
            let p1 = App::next_panel(Panel::Mailboxes, mode);
            let p2 = App::next_panel(p1, mode);
            let p3 = App::next_panel(p2, mode);
            &&& p1 == Panel::Envelopes
            &&& (mode == BottomPanelMode::Message ==> p2 == Panel::Message && p3 == Panel::Mailboxes)
            &&& (mode == BottomPanelMode::Compose ==> p2 == Panel::Compose && p3 == Panel::Mailboxes)
            &&& (mode == BottomPanelMode::Closed ==> p2 == Panel::Mailboxes)
        }),
{
}

/// A draft opened in the composer reads back as the same text.
pub proof fn law_draft_reads_back(a: &App, b: &App, template: ComposeTemplate)
    requires
        !template.content@.contains('\r'),
        b.composing(a, template.content@, template.cursor_row, template.cursor_col),
    ensures
        editor_text(b.editor_state) == template.content@,
{
}

/// Setting the same flag twice on the selected envelope is the same as
/// setting it once.
pub proof fn law_flag_twice_is_once(a: &App, b: &App, c: &App, flag: Seq<char>)
    requires
        a.envelope_index < a.envelopes@.len(),
        App::flag_selected_post(a, b, flag),
        App::flag_selected_post(b, c, flag),
    ensures
        c.envelopes@[a.envelope_index as int].flag_set() == b.envelopes@[a.envelope_index as int].flag_set(),
        c.envelopes@[a.envelope_index as int].flag_set().contains(flag),
{
    let i = a.envelope_index as int;
    assert(b.envelopes@[i].flag_set().insert(flag) =~= b.envelopes@[i].flag_set()) by {
        assert(b.envelopes@[i].flag_set() == a.envelopes@[i].flag_set().insert(flag));
    }
}

/// Setting a flag on the selected envelope and then clearing it leaves the
/// envelope with its other flags and without that one.
pub proof fn law_flag_then_unflag(a: &App, b: &App, c: &App, flag: Seq<char>)
    requires
        a.envelope_index < a.envelopes@.len(),
        App::flag_selected_post(a, b, flag),
        App::unflag_selected_post(b, c, flag),
    ensures
        c.envelopes@[a.envelope_index as int].flag_set() == a.envelopes@[a.envelope_index as int].flag_set().remove(flag),
        !c.envelopes@[a.envelope_index as int].flag_set().contains(flag),
{
    let i = a.envelope_index as int;
    assert(a.envelopes@[i].flag_set().insert(flag).remove(flag) =~= a.envelopes@[i].flag_set().remove(flag));
}

} // verus!
