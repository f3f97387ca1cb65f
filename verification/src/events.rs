//! What a key press does to the interface, and which backend work it asks
//! for. The caller performs that work and hands the outcome back to one of
//! the `finish_*` methods.

use vstd::prelude::*;

use crate::app::{
    opt_view, App, BottomPanelMode, ComposeAction, Dialog, Envelope, EnvelopeAction, FlagAction, Mailbox, Panel,
    COMPOSE_ACTION_COUNT, ENVELOPE_ACTION_COUNT, FLAG_ACTION_COUNT,
};
use crate::mime::{
    body_to_show, dedup, extract_envelope, list_view, message_recipients, message_sender,
    parsed_address_headers, DecodeError, SendError, decode_message_body,
};
use crate::editor::editor_text;
use crate::keys::{translate_key, translated, KeyCode, KeyEvent, Keybinds};
use vstd::utf8::encode_utf8;

verus! {

/// Why a message is fetched.
#[derive(Debug, Clone, Copy, PartialEq, Eq, Structural)]
pub enum FetchPurpose {
    Read,
    Reply,
    ReplyAll,
    Forward,
}

/// What the draft is compiled for.
#[derive(Debug, Clone, Copy, PartialEq, Eq, Structural)]
pub enum CompilePurpose {
    Send,
    Preview,
}

/// Backend work a key press asks for.
#[allow(inconsistent_fields)]
pub enum Effect {
    Nothing,
    /// List a page of the envelopes of a mailbox (pages counted from zero).
    LoadEnvelopes { mailbox: String, page: usize, page_size: usize },
    /// Fetch the raw message `id` of `mailbox`.
    FetchMessage { mailbox: String, id: String, purpose: FetchPurpose },
    /// Copy the message `id` of `mailbox` to another mailbox.
    CopyMessage { mailbox: String, id: String, target_id: Option<String>, target_name: String },
    /// Move the message `id` of `mailbox` to another mailbox.
    MoveMessage { mailbox: String, id: String, target_id: Option<String>, target_name: String },
    /// Set (`add`) or clear the flag of `action` on the message `id` of
    /// `mailbox`.
    UpdateFlag { mailbox: String, id: String, action: FlagAction, add: bool },
    /// Build a new draft and open the composer on it.
    NewDraft,
    /// The key belongs to the composer's editor.
    EditorInput,
    /// Hand the draft to the system editor.
    OpenSystemEditor,
    /// Compile the draft to MIME.
    CompileDraft { content: String, purpose: CompilePurpose },
    /// Store a raw message in the drafts mailbox.
    SaveDraft { raw: Vec<u8> },
}

/// The text of a draft as it is stored in the drafts mailbox.
pub open spec fn draft_message(content: Seq<char>) -> Seq<char> {
    "From: \r\nTo: \r\nSubject: Draft\r\nContent-Type: text/plain; charset=utf-8\r\n\r\n"@ + content
}

fn clone_opt(s: &Option<String>) -> (c: Option<String>)
    ensures
        c == *s,
{
    match s {
        Some(t) => Some(t.clone()),
        None => None,
    }
}

impl App {
    /// The opened mailbox and the id of the envelope under the cursor, when
    /// both exist.
    pub open spec fn selection(&self) -> Option<(Seq<char>, Seq<char>)> {
        if self.envelope_index < self.envelopes@.len() && self.selected_mailbox is Some {
            Some((self.selected_mailbox->0@, self.envelopes@[self.envelope_index as int].id@))
        } else {
            None
        }
    }

    /// Only the dialog (and its cursor) and the status line may differ.
    pub open spec fn same_but_dialog_status(&self, other: &App) -> bool {
        &&& self.running == other.running
        &&& self.active_panel == other.active_panel
        &&& self.same_lists(other)
        &&& self.same_account(other)
        &&& self.same_bottom(other)
    }

    /// A message fetch for `purpose` was asked for the selection of `pre`,
    /// or nothing when there is no selection.
    pub open spec fn fetch_post(pre: &App, post: &App, purpose: FetchPurpose, effect: &Effect) -> bool {
        match pre.selection() {
            None => effect is Nothing && post.status_message == pre.status_message,
            Some((mailbox, id)) => {
                &&& effect matches Effect::FetchMessage { mailbox: m, id: i, purpose: p } && m@
                    == mailbox && i@ == id && p == purpose
                &&& opt_view(post.status_message) == Some("Loading message "@ + id + "..."@)
            },
        }
    }

    fn selection_strings(&self) -> (sel: Option<(String, String)>)
        ensures
            match self.selection() {
                None => sel is None,
                Some((m, i)) => sel matches Some((sm, si)) && sm@ == m && si@ == i,
            },
    {
        if self.envelope_index < self.envelopes.len() {
            match &self.selected_mailbox {
                Some(m) => Some((m.clone(), self.envelopes[self.envelope_index].id.clone())),
                None => None,
            }
        } else {
            None
        }
    }

    fn fetch_selected(&mut self, purpose: FetchPurpose) -> (effect: Effect)
        ensures
            App::fetch_post(old(self), final(self), purpose, &effect),
            final(self).dialog == old(self).dialog,
            final(self).dialog_index == old(self).dialog_index,
            final(self).same_but_dialog_status(old(self)),
    {
        match self.selection_strings() {
            None => Effect::Nothing,
            Some((mailbox, id)) => {
                let mut status = String::from_str("Loading message ");
                status.append(id.as_str());
                status.append("...");
                self.set_status(status);
                Effect::FetchMessage { mailbox, id, purpose }
            },
        }
    }

    /// The dialog an envelope action opens, if it opens one.
    pub open spec fn dialog_of_action(action: EnvelopeAction) -> Option<Dialog> {
        match action {
            EnvelopeAction::Copy => Some(Dialog::CopyTo),
            EnvelopeAction::Move => Some(Dialog::MoveTo),
            EnvelopeAction::AddFlag => Some(Dialog::FlagAdd),
            EnvelopeAction::RemoveFlag => Some(Dialog::FlagRemove),
            _ => None,
        }
    }

    /// The fetch an envelope action asks for, if it asks for one.
    pub open spec fn purpose_of_action(action: EnvelopeAction) -> Option<FetchPurpose> {
        match action {
            EnvelopeAction::Read => Some(FetchPurpose::Read),
            EnvelopeAction::Reply => Some(FetchPurpose::Reply),
            EnvelopeAction::ReplyAll => Some(FetchPurpose::ReplyAll),
            EnvelopeAction::Forward => Some(FetchPurpose::Forward),
            _ => None,
        }
    }

    /// What a key does in the envelope dialog.
    pub open spec fn envelope_dialog_post(pre: &App, post: &App, code: KeyCode, effect: &Effect) -> bool {
        match code {
            KeyCode::Down => App::dialog_next_post(pre, post) && effect is Nothing,
            KeyCode::Up => App::dialog_previous_post(pre, post) && effect is Nothing,
            KeyCode::Esc => App::close_dialog_post(pre, post) && effect is Nothing,
            KeyCode::Enter => {
                let action = EnvelopeAction::nth(pre.dialog_index as int);
                &&& post.same_but_dialog_status(pre)
                &&& post.dialog == App::dialog_of_action(action)
                &&& post.dialog_index == (if App::dialog_of_action(action) is Some {
                    0
                } else {
                    pre.dialog_index
                })
                &&& match App::purpose_of_action(action) {
                    Some(purpose) => App::fetch_post(pre, post, purpose, effect),
                    None => effect is Nothing && post.status_message == pre.status_message,
                }
            },
            _ => *post == *pre && effect is Nothing,
        }
    }

    fn handle_envelope_dialog(&mut self, code: KeyCode) -> (effect: Effect)
        requires
            old(self).dialog_index < ENVELOPE_ACTION_COUNT,
        ensures
            App::envelope_dialog_post(old(self), final(self), code, &effect),
    {
        match code {
            KeyCode::Down => {
                self.dialog_next();
                Effect::Nothing
            },
            KeyCode::Up => {
                self.dialog_previous();
                Effect::Nothing
            },
            KeyCode::Enter => {
                let action = self.get_selected_envelope_action();
                self.close_dialog();
                match action {
                    EnvelopeAction::Read => self.fetch_selected(FetchPurpose::Read),
                    EnvelopeAction::Reply => self.fetch_selected(FetchPurpose::Reply),
                    EnvelopeAction::ReplyAll => self.fetch_selected(FetchPurpose::ReplyAll),
                    EnvelopeAction::Forward => self.fetch_selected(FetchPurpose::Forward),
                    EnvelopeAction::Copy => {
                        self.open_dialog(Dialog::CopyTo);
                        Effect::Nothing
                    },
                    EnvelopeAction::Move => {
                        self.open_dialog(Dialog::MoveTo);
                        Effect::Nothing
                    },
                    EnvelopeAction::AddFlag => {
                        self.open_dialog(Dialog::FlagAdd);
                        Effect::Nothing
                    },
                    EnvelopeAction::RemoveFlag => {
                        self.open_dialog(Dialog::FlagRemove);
                        Effect::Nothing
                    },
                }
            },
            KeyCode::Esc => {
                self.close_dialog();
                Effect::Nothing
            },
            _ => Effect::Nothing,
        }
    }

    /// What a key does in the compose dialog.
    pub open spec fn compose_dialog_post(pre: &App, post: &App, code: KeyCode, effect: &Effect) -> bool {
        match code {
            KeyCode::Down => App::dialog_next_post(pre, post) && effect is Nothing,
            KeyCode::Up => App::dialog_previous_post(pre, post) && effect is Nothing,
            KeyCode::Esc => post.bottom_closed(pre) && effect is Nothing,
            KeyCode::Enter => match ComposeAction::nth(pre.dialog_index as int) {
                ComposeAction::Send => {
                    &&& effect matches Effect::CompileDraft { content, purpose } && content@
                        == editor_text(pre.editor_state) && purpose == CompilePurpose::Send
                    &&& opt_view(post.status_message) == Some("Compiling message..."@)
                    &&& post.same_but_status(pre)
                },
                ComposeAction::Preview => {
                    &&& effect matches Effect::CompileDraft { content, purpose } && content@
                        == editor_text(pre.editor_state) && purpose == CompilePurpose::Preview
                    &&& *post == *pre
                },
                ComposeAction::SaveToDrafts => {
                    &&& effect matches Effect::SaveDraft { raw } && raw@ == encode_utf8(
                        draft_message(editor_text(pre.editor_state)),
                    )
                    &&& opt_view(post.status_message) == Some("Saving to Drafts..."@)
                    &&& post.same_but_status(pre)
                },
                ComposeAction::Cancel => App::close_dialog_post(pre, post) && effect is Nothing,
            },
            _ => *post == *pre && effect is Nothing,
        }
    }

    fn handle_compose_dialog(&mut self, code: KeyCode) -> (effect: Effect)
        requires
            old(self).dialog_index < COMPOSE_ACTION_COUNT,
        ensures
            App::compose_dialog_post(old(self), final(self), code, &effect),
    {
        match code {
            KeyCode::Down => {
                self.dialog_next();
                Effect::Nothing
            },
            KeyCode::Up => {
                self.dialog_previous();
                Effect::Nothing
            },
            KeyCode::Enter => {
                let action = self.get_selected_compose_action();
                match action {
                    ComposeAction::Send => {
                        let content = self.get_compose_content();
                        self.set_status(String::from_str("Compiling message..."));
                        Effect::CompileDraft { content, purpose: CompilePurpose::Send }
                    },
                    ComposeAction::Preview => {
                        let content = self.get_compose_content();
                        Effect::CompileDraft { content, purpose: CompilePurpose::Preview }
                    },
                    ComposeAction::SaveToDrafts => {
                        let content = self.get_compose_content();
                        let mut raw = String::from_str(
                            "From: \r\nTo: \r\nSubject: Draft\r\nContent-Type: text/plain; charset=utf-8\r\n\r\n",
                        );
                        raw.append(content.as_str());
                        let bytes = raw.as_str().as_bytes_vec();
                        self.set_status(String::from_str("Saving to Drafts..."));
                        Effect::SaveDraft { raw: bytes }
                    },
                    ComposeAction::Cancel => {
                        self.close_dialog();
                        Effect::Nothing
                    },
                }
            },
            KeyCode::Esc => {
                self.cancel_compose();
                Effect::Nothing
            },
            _ => Effect::Nothing,
        }
    }

    /// What a key does in the dialog that picks the mailbox to copy
    /// (`moving == false`) or move (`moving == true`) a message to.
    pub open spec fn target_dialog_post(
        pre: &App,
        post: &App,
        code: KeyCode,
        moving: bool,
        effect: &Effect,
    ) -> bool {
        match code {
            KeyCode::Down => App::dialog_next_post(pre, post) && effect is Nothing,
            KeyCode::Up => App::dialog_previous_post(pre, post) && effect is Nothing,
            KeyCode::Esc => App::close_dialog_post(pre, post) && effect is Nothing,
            KeyCode::Enter => {
                &&& post.dialog is None
                &&& post.dialog_index == pre.dialog_index
                &&& post.same_but_dialog_status(pre)
                &&& if pre.dialog_index < pre.mailboxes@.len() && pre.selection() is Some {
                    let target = pre.mailboxes@[pre.dialog_index as int];
                    let (mailbox, id) = pre.selection()->0;
                    &&& opt_view(post.status_message) == Some(
                        (if moving {
                            "Moving to "@
                        } else {
                            "Copying to "@
                        }) + target.name@ + "..."@,
                    )
                    &&& if moving {
                        effect matches Effect::MoveMessage { mailbox: m, id: i, target_id, target_name }
                            && m@ == mailbox && i@ == id && target_id == target.id && target_name
                            == target.name
                    } else {
                        effect matches Effect::CopyMessage { mailbox: m, id: i, target_id, target_name }
                            && m@ == mailbox && i@ == id && target_id == target.id && target_name
                            == target.name
                    }
                } else {
                    effect is Nothing && post.status_message == pre.status_message
                }
            },
            _ => *post == *pre && effect is Nothing,
        }
    }

    fn handle_target_dialog(&mut self, code: KeyCode, moving: bool) -> (effect: Effect)
        requires
            old(self).dialog_index < usize::MAX,
        ensures
            App::target_dialog_post(old(self), final(self), code, moving, &effect),
    {
        match code {
            KeyCode::Down => {
                self.dialog_next();
                Effect::Nothing
            },
            KeyCode::Up => {
                self.dialog_previous();
                Effect::Nothing
            },
            KeyCode::Enter => {
                self.close_dialog();
                if self.dialog_index >= self.mailboxes.len() {
                    return Effect::Nothing;
                }
                let target: &Mailbox = &self.mailboxes[self.dialog_index];
                let target_id = clone_opt(&target.id);
                let target_name = target.name.clone();
                match self.selection_strings() {
                    None => Effect::Nothing,
                    Some((mailbox, id)) => {
                        let mut status = if moving {
                            String::from_str("Moving to ")
                        } else {
                            String::from_str("Copying to ")
                        };
                        status.append(target_name.as_str());
                        status.append("...");
                        self.set_status(status);
                        if moving {
                            Effect::MoveMessage { mailbox, id, target_id, target_name }
                        } else {
                            Effect::CopyMessage { mailbox, id, target_id, target_name }
                        }
                    },
                }
            },
            KeyCode::Esc => {
                self.close_dialog();
                Effect::Nothing
            },
            _ => Effect::Nothing,
        }
    }

    /// The status line while a flag is being set or cleared.
    pub open spec fn flag_progress(action: FlagAction, add: bool) -> Seq<char> {
        (if add {
            "Adding flag "@
        } else {
            "Removing flag "@
        }) + action.label_text() + "..."@
    }

    /// What a key does in the dialog that picks the flag to set (`add`) or
    /// to clear on the selected message.
    pub open spec fn flag_dialog_post(pre: &App, post: &App, code: KeyCode, add: bool, effect: &Effect) -> bool {
        match code {
            KeyCode::Down => App::dialog_next_post(pre, post) && effect is Nothing,
            KeyCode::Up => App::dialog_previous_post(pre, post) && effect is Nothing,
            KeyCode::Esc => App::close_dialog_post(pre, post) && effect is Nothing,
            KeyCode::Enter => {
                let action = FlagAction::nth(pre.dialog_index as int);
                &&& post.dialog is None
                &&& post.dialog_index == pre.dialog_index
                &&& post.same_but_dialog_status(pre)
                &&& match pre.selection() {
                    Some((mailbox, id)) => {
                        &&& effect matches Effect::UpdateFlag { mailbox: m, id: i, action: a, add: d }
                            && m@ == mailbox && i@ == id && a == action && d == add
                        &&& opt_view(post.status_message) == Some(App::flag_progress(action, add))
                    },
                    None => effect is Nothing && post.status_message == pre.status_message,
                }
            },
            _ => *post == *pre && effect is Nothing,
        }
    }

    fn handle_flag_dialog(&mut self, code: KeyCode, add: bool) -> (effect: Effect)
        requires
            old(self).dialog_index < FLAG_ACTION_COUNT,
        ensures
            App::flag_dialog_post(old(self), final(self), code, add, &effect),
    {
        match code {
            KeyCode::Down => {
                self.dialog_next();
                Effect::Nothing
            },
            KeyCode::Up => {
                self.dialog_previous();
                Effect::Nothing
            },
            KeyCode::Enter => {
                let action = self.get_selected_flag_action();
                self.close_dialog();
                match self.selection_strings() {
                    None => Effect::Nothing,
                    Some((mailbox, id)) => {
                        let mut status = if add {
                            String::from_str("Adding flag ")
                        } else {
                            String::from_str("Removing flag ")
                        };
                        status.append(action.label());
                        status.append("...");
                        self.set_status(status);
                        Effect::UpdateFlag { mailbox, id, action, add }
                    },
                }
            },
            KeyCode::Esc => {
                self.close_dialog();
                Effect::Nothing
            },
            _ => Effect::Nothing,
        }
    }

    /// The envelope list of the opened mailbox is to be loaded, if a
    /// mailbox is open.
    pub open spec fn load_post(pre: &App, effect: &Effect) -> bool {
        match pre.selected_mailbox {
            None => effect is Nothing,
            Some(m) => effect matches Effect::LoadEnvelopes { mailbox, page, page_size } && mailbox@
                == m@ && page == pre.envelope_page && page_size == pre.envelope_page_size,
        }
    }

    fn load_envelopes(&self) -> (effect: Effect)
        ensures
            App::load_post(self, &effect),
    {
        match &self.selected_mailbox {
            None => Effect::Nothing,
            Some(m) => Effect::LoadEnvelopes {
                mailbox: m.clone(),
                page: self.envelope_page,
                page_size: self.envelope_page_size,
            },
        }
    }

    /// What `Enter` does outside dialogs and the composer.
    pub open spec fn enter_post(pre: &App, post: &App, effect: &Effect) -> bool {
        match pre.active_panel {
            Panel::Mailboxes => {
                &&& (pre.mailbox_index >= pre.mailboxes@.len() ==> *post == *pre)
                &&& (pre.mailbox_index < pre.mailboxes@.len() ==> {
                    let name = pre.mailboxes@[pre.mailbox_index as int].name@;
                    &&& opt_view(post.selected_mailbox) == Some(name)
                    &&& post.envelopes@.len() == 0
                    &&& post.envelope_index == 0
                    &&& post.active_panel == Panel::Envelopes
                    &&& post.dialog is None
                    &&& opt_view(post.status_message) == Some(
                        "Loading envelopes from "@ + name + "..."@,
                    )
                    &&& post.mailboxes == pre.mailboxes
                    &&& post.mailbox_index == pre.mailbox_index
                    &&& post.same_account(pre)
                })
                &&& App::load_post(post, effect)
            },
            Panel::Envelopes => {
                &&& effect is Nothing
                &&& if pre.envelope_index < pre.envelopes@.len() {
                    App::open_dialog_post(pre, post, Dialog::Envelope)
                } else {
                    *post == *pre
                }
            },
            Panel::Message => post.bottom_closed(pre) && effect is Nothing,
            Panel::Compose => *post == *pre && effect is Nothing,
        }
    }

    fn handle_enter(&mut self) -> (effect: Effect)
        ensures
            App::enter_post(old(self), final(self), &effect),
    {
        match self.active_panel {
            Panel::Mailboxes => {
                self.select_mailbox();
                self.load_envelopes()
            },
            Panel::Envelopes => {
                if self.get_selected_envelope().is_some() {
                    self.open_dialog(Dialog::Envelope);
                }
                Effect::Nothing
            },
            Panel::Message => {
                self.close_bottom_panel();
                Effect::Nothing
            },
            Panel::Compose => Effect::Nothing,
        }
    }

    /// What `Esc` does outside dialogs and the composer: leave a preview,
    /// else close what has the focus, else quit.
    pub open spec fn escape_post(pre: &App, post: &App) -> bool {
        if pre.previewing_compose {
            App::close_preview_post(pre, post)
        } else if pre.active_panel == Panel::Mailboxes {
            !post.running && post.active_panel == pre.active_panel && post.same_lists(pre)
                && post.same_account(pre) && post.same_bottom(pre) && post.same_dialog(pre)
                && post.status_message == pre.status_message
        } else if pre.active_panel == Panel::Envelopes && pre.bottom_panel_mode
            == crate::app::BottomPanelMode::Closed {
            &&& post.selected_mailbox is None
            &&& post.envelopes@.len() == 0
            &&& post.envelope_index == 0
            &&& post.active_panel == Panel::Mailboxes
            &&& post.dialog is None
            &&& post.mailboxes == pre.mailboxes
            &&& post.mailbox_index == pre.mailbox_index
            &&& post.same_account(pre)
            &&& post.status_message == pre.status_message
        } else {
            post.bottom_closed(pre)
        }
    }

    /// The key as the interface reads it: raw in the composer, translated
    /// through the navigation flavor elsewhere.
    pub open spec fn effective_key(&self, raw: KeyEvent, keybinds: Option<Keybinds>) -> KeyEvent {
        if self.dialog is None && self.active_panel == Panel::Compose {
            raw
        } else {
            translated(raw, keybinds)
        }
    }

    /// A dialog's cursor is on one of its entries (the envelope and
    /// compose dialogs), or at least not at the end of the index range.
    pub open spec fn dialog_cursor_ok(&self) -> bool {
        &&& self.dialog_index < usize::MAX
        &&& (self.dialog == Some(Dialog::Envelope) ==> self.dialog_index < ENVELOPE_ACTION_COUNT)
        &&& (self.dialog == Some(Dialog::Compose) ==> self.dialog_index < COMPOSE_ACTION_COUNT)
        &&& (self.dialog == Some(Dialog::FlagAdd) ==> self.dialog_index < FLAG_ACTION_COUNT)
        &&& (self.dialog == Some(Dialog::FlagRemove) ==> self.dialog_index < FLAG_ACTION_COUNT)
    }

    /// What a key press does.
    pub open spec fn key_post(
        pre: &App,
        post: &App,
        raw: KeyEvent,
        keybinds: Option<Keybinds>,
        effect: &Effect,
    ) -> bool {
        let key = pre.effective_key(raw, keybinds);
        match pre.dialog {
            Some(Dialog::Envelope) => App::envelope_dialog_post(pre, post, key.code, effect),
            Some(Dialog::Compose) => App::compose_dialog_post(pre, post, key.code, effect),
            Some(Dialog::CopyTo) => App::target_dialog_post(pre, post, key.code, false, effect),
            Some(Dialog::MoveTo) => App::target_dialog_post(pre, post, key.code, true, effect),
            Some(Dialog::FlagAdd) => App::flag_dialog_post(pre, post, key.code, true, effect),
            Some(Dialog::FlagRemove) => App::flag_dialog_post(pre, post, key.code, false, effect),
            None => if pre.active_panel == Panel::Compose {
                if key.code == KeyCode::Esc {
                    App::open_dialog_post(pre, post, Dialog::Compose) && effect is Nothing
                } else if key.code == KeyCode::Char('e') && key.modifiers.alt {
                    *post == *pre && effect is OpenSystemEditor
                } else {
                    *post == *pre && effect is EditorInput
                }
            } else if key.code == KeyCode::Char('c') && key.modifiers.control {
                *post == *pre && effect is NewDraft
            } else {
                match key.code {
                    KeyCode::Esc => App::escape_post(pre, post) && effect is Nothing,
                    KeyCode::Tab => {
                        &&& post.active_panel == App::next_panel(
                            pre.active_panel,
                            pre.bottom_panel_mode,
                        )
                        &&& post.running == pre.running
                        &&& post.same_lists(pre)
                        &&& post.same_account(pre)
                        &&& post.same_bottom(pre)
                        &&& post.same_dialog(pre)
                        &&& post.status_message == pre.status_message
                        &&& effect is Nothing
                    },
                    KeyCode::Down => App::next_item_post(pre, post) && effect is Nothing,
                    KeyCode::Up => App::previous_item_post(pre, post) && effect is Nothing,
                    KeyCode::Enter => App::enter_post(pre, post, effect),
                    KeyCode::PageDown => if pre.active_panel == Panel::Envelopes
                        && pre.has_next_page() {
                        *post == pre.on_page(pre.envelope_page + 1) && App::load_post(post, effect)
                    } else {
                        *post == *pre && effect is Nothing
                    },
                    KeyCode::PageUp => if pre.active_panel == Panel::Envelopes
                        && pre.has_previous_page() {
                        *post == pre.on_page(pre.envelope_page - 1) && App::load_post(post, effect)
                    } else {
                        *post == *pre && effect is Nothing
                    },
                    _ => *post == *pre && effect is Nothing,
                }
            },
        }
    }

    /// Reacts to a key press: updates the interface and says which backend
    /// work, if any, the key asks for.
    pub fn handle_key(&mut self, raw: KeyEvent, keybinds: Option<Keybinds>) -> (effect: Effect)
        requires
            old(self).dialog_cursor_ok(),
            old(self).active_panel == Panel::Mailboxes ==> old(self).mailbox_index < usize::MAX,
            old(self).active_panel == Panel::Envelopes ==> old(self).envelope_index < usize::MAX,
        ensures
            App::key_post(old(self), final(self), raw, keybinds, &effect),
    {
        let in_composer = self.dialog.is_none() && self.active_panel == Panel::Compose;
        let key = if in_composer {
            raw
        } else {
            translate_key(raw, keybinds)
        };
        match self.dialog {
            Some(Dialog::Envelope) => return self.handle_envelope_dialog(key.code),
            Some(Dialog::Compose) => return self.handle_compose_dialog(key.code),
            Some(Dialog::CopyTo) => return self.handle_target_dialog(key.code, false),
            Some(Dialog::MoveTo) => return self.handle_target_dialog(key.code, true),
            Some(Dialog::FlagAdd) => return self.handle_flag_dialog(key.code, true),
            Some(Dialog::FlagRemove) => return self.handle_flag_dialog(key.code, false),
            None => {},
        }
        if in_composer {
            if key.code == KeyCode::Esc {
                self.open_dialog(Dialog::Compose);
                return Effect::Nothing;
            }
            if key.code == KeyCode::Char('e') && key.modifiers.alt {
                return Effect::OpenSystemEditor;
            }
            return Effect::EditorInput;
        }
        if key.code == KeyCode::Char('c') && key.modifiers.control {
            return Effect::NewDraft;
        }
        match key.code {
            KeyCode::Esc => {
                if self.previewing_compose {
                    self.close_preview();
                } else if !self.close_current() {
                    self.quit();
                }
                Effect::Nothing
            },
            KeyCode::Tab => {
                self.toggle_panel();
                Effect::Nothing
            },
            KeyCode::Down => {
                self.next_item();
                Effect::Nothing
            },
            KeyCode::Up => {
                self.previous_item();
                Effect::Nothing
            },
            KeyCode::Enter => self.handle_enter(),
            KeyCode::PageDown => {
                if self.active_panel == Panel::Envelopes && self.next_envelope_page() {
                    self.load_envelopes()
                } else {
                    Effect::Nothing
                }
            },
            KeyCode::PageUp => {
                if self.active_panel == Panel::Envelopes && self.prev_envelope_page() {
                    self.load_envelopes()
                } else {
                    Effect::Nothing
                }
            },
            _ => Effect::Nothing,
        }
    }
}


/// Why a draft could not be compiled to MIME, with the compiler's message.
pub enum CompileError {
    /// The draft's MML could not be parsed.
    Parse(String),
    /// The parsed draft could not be compiled.
    Compile(String),
    /// The compiled message could not be written out.
    Encode(String),
}

impl CompileError {
    /// The status line for this failure.
    pub open spec fn status_text(&self) -> Seq<char> {
        match self {
            CompileError::Parse(e) => "Parse error: "@ + e@,
            CompileError::Compile(e) => "Compile error: "@ + e@,
            CompileError::Encode(e) => "Error: "@ + e@,
        }
    }

    pub fn status(&self) -> (text: String)
        ensures
            text@ == self.status_text(),
    {
        let (prefix, e) = match self {
            CompileError::Parse(e) => ("Parse error: ", e),
            CompileError::Compile(e) => ("Compile error: ", e),
            CompileError::Encode(e) => ("Error: ", e),
        };
        let mut text = String::from_str(prefix);
        text.append(e.as_str());
        text
    }
}

/// A compiled message ready for the transport, with its envelope.
pub struct Submission {
    pub raw: Vec<u8>,
    pub from: String,
    pub to: Vec<String>,
}

fn prefixed(prefix: &str, message: &str) -> (text: String)
    ensures
        text@ == prefix@ + message@,
{
    let mut text = String::from_str(prefix);
    text.append(message);
    text
}

impl App {
    /// Takes the listed mailboxes: opens the first one and asks for its
    /// envelopes; on a failure, reports it.
    pub fn finish_load_mailboxes(&mut self, result: Result<Vec<Mailbox>, String>) -> (effect: Effect)
        ensures
            result matches Ok(m) ==> App::set_mailboxes_post(old(self), final(self), m)
                && App::load_post(final(self), &effect),
            result matches Err(e) ==> opt_view(final(self).status_message) == Some("Error: "@ + e@)
                && final(self).same_but_status(old(self)) && effect is Nothing,
    {
        match result {
            Ok(mailboxes) => {
                self.set_mailboxes(mailboxes);
                self.load_envelopes()
            },
            Err(e) => {
                self.set_status(prefixed("Error: ", e.as_str()));
                Effect::Nothing
            },
        }
    }

    /// Takes the listed envelopes, or reports the failure.
    pub fn finish_load_envelopes(&mut self, result: Result<Vec<Envelope>, String>)
        ensures
            result matches Ok(list) ==> *final(self) == (App {
                envelopes: list,
                envelope_index: 0,
                status_message: None,
                ..*old(self)
            }),
            result matches Err(e) ==> opt_view(final(self).status_message) == Some("Error: "@ + e@)
                && final(self).same_but_status(old(self)),
    {
        match result {
            Ok(list) => self.set_envelopes(list),
            Err(e) => self.set_status(prefixed("Error: ", e.as_str())),
        }
    }

    /// Shows a fetched message, or reports why it cannot be shown. It
    /// returns when the HTML renderer returns on the message's HTML body
    /// (see `html_to_text`).
    pub fn finish_read(&mut self, result: Result<Vec<u8>, String>)
        ensures
            result matches Err(e) ==> opt_view(final(self).status_message) == Some("Error: "@ + e@)
                && final(self).same_but_status(old(self)),
            result matches Ok(raw) ==> match body_to_show(raw@) {
                Some(Ok(text)) => final(self).message_content matches Some(c) && c@ == text
                    && App::show_message_post(old(self), final(self), c),
                Some(Err(msg)) => opt_view(final(self).status_message) == Some("Error: "@ + msg)
                    && final(self).same_but_status(old(self)),
                None => opt_view(final(self).status_message) == Some(
                    "Error: "@ + "Failed to parse message"@,
                ) && final(self).same_but_status(old(self)),
            },
    {
        match result {
            Ok(raw) => match decode_message_body(raw.as_slice()) {
                Ok(content) => self.show_message(content),
                Err(err) => {
                    let msg = err.message();
                    self.set_status(prefixed("Error: ", msg.as_str()));
                },
            },
            Err(e) => self.set_status(prefixed("Error: ", e.as_str())),
        }
    }

    /// Reports how a copy went.
    pub fn finish_copy(&mut self, result: Result<(), String>)
        ensures
            opt_view(final(self).status_message) == Some(
                match result {
                    Ok(_) => "Copied"@,
                    Err(e) => "Error: "@ + e@,
                },
            ),
            final(self).same_but_status(old(self)),
    {
        match result {
            Ok(()) => self.set_status(String::from_str("Copied")),
            Err(e) => self.set_status(prefixed("Error: ", e.as_str())),
        }
    }

    /// Takes a moved message out of the list, or reports the failure.
    pub fn finish_move(&mut self, result: Result<(), String>)
        ensures
            opt_view(final(self).status_message) == Some(
                match result {
                    Ok(_) => "Moved"@,
                    Err(e) => "Error: "@ + e@,
                },
            ),
            result is Err ==> final(self).same_but_status(old(self)),
            result is Ok ==> App::remove_selected_post(
                old(self),
                &final(self).with_status(old(self).status_message),
            ),
    {
        match result {
            Ok(()) => {
                self.remove_selected_envelope();
                self.set_status(String::from_str("Moved"));
            },
            Err(e) => self.set_status(prefixed("Error: ", e.as_str())),
        }
    }

    /// The status line once a flag is set or cleared.
    pub open spec fn flag_done(action: FlagAction, add: bool) -> Seq<char> {
        "Flag "@ + action.label_text() + (if add {
            " added"@
        } else {
            " removed"@
        })
    }

    /// Sets (`add`) or clears the flag on the selected envelope once the
    /// backend did so, or reports the failure.
    pub fn finish_update_flag(&mut self, action: FlagAction, add: bool, result: Result<(), String>)
        ensures
            result matches Err(e) ==> opt_view(final(self).status_message) == Some("Error: "@ + e@)
                && final(self).same_but_status(old(self)),
            result is Ok ==> opt_view(final(self).status_message) == Some(App::flag_done(action, add)),
            result is Ok && add ==> App::flag_selected_post(
                old(self),
                &final(self).with_status(old(self).status_message),
                action.flag_text(),
            ),
            result is Ok && !add ==> App::unflag_selected_post(
                old(self),
                &final(self).with_status(old(self).status_message),
                action.flag_text(),
            ),
    {
        match result {
            Ok(()) => {
                let mut status = String::from_str("Flag ");
                status.append(action.label());
                if add {
                    self.flag_selected_envelope(action.flag());
                    status.append(" added");
                } else {
                    self.unflag_selected_envelope(action.flag());
                    status.append(" removed");
                }
                self.set_status(status);
            },
            Err(e) => self.set_status(prefixed("Error: ", e.as_str())),
        }
    }

    /// Takes a draft compiled for sending: finds its envelope and hands the
    /// message to the transport, or reports why it cannot be sent.
    pub fn finish_compile_for_send(&mut self, result: Result<Vec<u8>, CompileError>) -> (submission:
        Option<Submission>)
        ensures
            result matches Err(err) ==> submission is None && opt_view(final(self).status_message)
                == Some(err.status_text()) && final(self).same_but_status(old(self)),
            result matches Ok(raw) ==> match parsed_address_headers(raw@) {
                Some(hs) if message_sender(hs) is Some && message_recipients(hs).len() > 0 => {
                    &&& submission matches Some(sub) && sub.raw == raw && sub.from@ == message_sender(
                        hs,
                    )->0 && list_view(sub.to) == dedup(message_recipients(hs))
                    &&& opt_view(final(self).status_message) == Some("Sending message..."@)
                    &&& final(self).same_but_status(old(self))
                },
                parsed => {
                    let err = match parsed {
                        None => SendError::InvalidMessage,
                        Some(hs) => if message_sender(hs) is None {
                            SendError::NoSender
                        } else {
                            SendError::NoRecipient
                        },
                    };
                    &&& submission is None
                    &&& opt_view(final(self).status_message) == Some(
                        "Send error: "@ + err.message_text(),
                    )
                    &&& final(self).same_but_status(old(self))
                },
            },
    {
        match result {
            Err(err) => {
                self.set_status(err.status());
                None
            },
            Ok(raw) => match extract_envelope(raw.as_slice()) {
                Ok((from, to)) => {
                    self.set_status(String::from_str("Sending message..."));
                    Some(Submission { raw, from, to })
                },
                Err(err) => {
                    let msg = err.message();
                    self.set_status(prefixed("Send error: ", msg.as_str()));
                    None
                },
            },
        }
    }

    /// Shows a draft compiled for previewing, or reports the failure.
    pub fn finish_preview(&mut self, result: Result<String, CompileError>)
        ensures
            result matches Err(err) ==> opt_view(final(self).status_message) == Some(err.status_text())
                && final(self).same_but_status(old(self)),
            result matches Ok(mime) ==> App::preview_compose_post(
                &old(self).without_dialog(),
                final(self),
                mime,
            ),
    {
        match result {
            Err(err) => self.set_status(err.status()),
            Ok(mime) => {
                self.close_dialog();
                self.preview_compose(mime);
            },
        }
    }

    /// Closes the sent draft, or reports the failure.
    pub fn finish_send(&mut self, result: Result<(), String>)
        ensures
            result matches Err(e) ==> opt_view(final(self).status_message) == Some(
                "Send error: "@ + e@,
            ) && final(self).same_but_status(old(self)),
            result is Ok ==> opt_view(final(self).status_message) == Some("Message sent"@)
                && final(self).bottom_closed(&old(self).with_status(final(self).status_message)),
    {
        match result {
            Ok(()) => {
                self.set_status(String::from_str("Message sent"));
                self.cancel_compose();
            },
            Err(e) => self.set_status(prefixed("Send error: ", e.as_str())),
        }
    }

    /// Closes the saved draft, or reports the failure.
    pub fn finish_save_draft(&mut self, result: Result<(), String>)
        ensures
            result matches Err(e) ==> opt_view(final(self).status_message) == Some("Error: "@ + e@)
                && final(self).same_but_status(old(self)),
            result is Ok ==> opt_view(final(self).status_message) == Some("Saved to Drafts"@)
                && final(self).bottom_closed(&old(self).with_status(final(self).status_message)),
    {
        match result {
            Ok(()) => {
                self.set_status(String::from_str("Saved to Drafts"));
                self.cancel_compose();
            },
            Err(e) => self.set_status(prefixed("Error: ", e.as_str())),
        }
    }
}


/// No key press changes the account the interface works for.
pub proof fn law_keys_keep_account(
    pre: &App,
    post: &App,
    raw: KeyEvent,
    keybinds: Option<Keybinds>,
    effect: &Effect,
)
    requires
        App::key_post(pre, post, raw, keybinds, effect),
    ensures
        post.same_account(pre),
{
}

/// Key presses keep the cursors of the mailbox and envelope lists inside
/// their lists.
pub proof fn law_keys_keep_cursors_in_lists(
    pre: &App,
    post: &App,
    raw: KeyEvent,
    keybinds: Option<Keybinds>,
    effect: &Effect,
)
    requires
        pre.wf(),
        App::key_post(pre, post, raw, keybinds, effect),
    ensures
        post.wf(),
{
}

/// Backend work is only asked for the opened mailbox and the envelope
/// under the cursor.
pub proof fn law_fetches_target_the_selection(
    pre: &App,
    post: &App,
    raw: KeyEvent,
    keybinds: Option<Keybinds>,
    effect: &Effect,
)
    requires
        App::key_post(pre, post, raw, keybinds, effect),
    ensures
        effect matches Effect::FetchMessage { mailbox, id, purpose } ==> pre.selection() == Some(
            (mailbox@, id@),
        ),
        effect matches Effect::UpdateFlag { mailbox, id, action: _, add: _ } ==> pre.selection()
            == Some((mailbox@, id@)),
        effect matches Effect::CopyMessage { mailbox, id, target_id: _, target_name: _ }
            ==> pre.selection() == Some((mailbox@, id@)),
        effect matches Effect::MoveMessage { mailbox, id, target_id: _, target_name: _ }
            ==> pre.selection() == Some((mailbox@, id@)),
        effect matches Effect::LoadEnvelopes { mailbox, page: _, page_size: _ } ==> opt_view(post.selected_mailbox)
            == Some(mailbox@),
{
}


/// Enter on the envelope dialog does what the entry under the cursor says:
/// `Copy` opens the picker of the mailbox to copy the message to, `Move`
/// the picker of the mailbox to move it to, `Add flag` and `Remove flag`
/// their flag pickers, each with its cursor on the first row and no
/// backend work asked; `Read`, `Reply`, `Reply All` and `Forward` close the
/// dialog and, with a message selected, fetch it for that purpose.
pub proof fn law_envelope_entries_open_their_pickers(
    pre: &App,
    post: &App,
    raw: KeyEvent,
    keybinds: Option<Keybinds>,
    effect: &Effect,
)
    requires
        App::key_post(pre, post, raw, keybinds, effect),
        pre.dialog == Some(Dialog::Envelope),
        pre.effective_key(raw, keybinds).code == KeyCode::Enter,
    ensures
        ({
            let entry = EnvelopeAction::nth(pre.dialog_index as int);
            &&& (entry == EnvelopeAction::Copy ==> post.dialog == Some(Dialog::CopyTo)
                && post.dialog_index == 0)
            &&& (entry == EnvelopeAction::Move ==> post.dialog == Some(Dialog::MoveTo)
                && post.dialog_index == 0)
            &&& (entry == EnvelopeAction::AddFlag ==> post.dialog == Some(Dialog::FlagAdd)
                && post.dialog_index == 0)
            &&& (entry == EnvelopeAction::RemoveFlag ==> post.dialog == Some(Dialog::FlagRemove)
                && post.dialog_index == 0)
            &&& (entry == EnvelopeAction::Read || entry == EnvelopeAction::Reply || entry
                == EnvelopeAction::ReplyAll || entry == EnvelopeAction::Forward ==> post.dialog is None)
            &&& (pre.selection() is Some ==> {
                &&& (entry == EnvelopeAction::Read ==> (effect matches Effect::FetchMessage {
                    purpose,
                    ..
                } && purpose == FetchPurpose::Read))
                &&& (entry == EnvelopeAction::Reply ==> (effect matches Effect::FetchMessage {
                    purpose,
                    ..
                } && purpose == FetchPurpose::Reply))
                &&& (entry == EnvelopeAction::ReplyAll ==> (effect matches Effect::FetchMessage {
                    purpose,
                    ..
                } && purpose == FetchPurpose::ReplyAll))
                &&& (entry == EnvelopeAction::Forward ==> (effect matches Effect::FetchMessage {
                    purpose,
                    ..
                } && purpose == FetchPurpose::Forward))
            })
            &&& (entry == EnvelopeAction::Copy || entry == EnvelopeAction::Move || entry
                == EnvelopeAction::AddFlag || entry == EnvelopeAction::RemoveFlag ==> effect is Nothing)
        }),
{
}

/// The copy picker never moves a message and the move picker never copies
/// one: picking a mailbox in the first leaves the message where it is.
pub proof fn law_copy_and_move_pickers_differ(
    pre: &App,
    post: &App,
    raw: KeyEvent,
    keybinds: Option<Keybinds>,
    effect: &Effect,
)
    requires
        App::key_post(pre, post, raw, keybinds, effect),
    ensures
        pre.dialog == Some(Dialog::CopyTo) ==> !(effect is MoveMessage),
        pre.dialog == Some(Dialog::MoveTo) ==> !(effect is CopyMessage),
        effect is CopyMessage ==> pre.dialog == Some(Dialog::CopyTo),
        effect is MoveMessage ==> pre.dialog == Some(Dialog::MoveTo),
{
}

/// From the envelope list, the panel key moves the focus to the bottom
/// panel when one is open, the message or the composer, and back to the
/// mailboxes when none is: every panel on the screen is reached.
pub proof fn law_tab_from_envelopes_reaches_bottom_panel(
    pre: &App,
    post: &App,
    raw: KeyEvent,
    keybinds: Option<Keybinds>,
    effect: &Effect,
)
    requires
        App::key_post(pre, post, raw, keybinds, effect),
        pre.dialog is None,
        pre.active_panel == Panel::Envelopes,
        pre.effective_key(raw, keybinds).code == KeyCode::Tab,
    ensures
        pre.bottom_panel_mode == BottomPanelMode::Compose ==> post.active_panel == Panel::Compose,
        pre.bottom_panel_mode == BottomPanelMode::Message ==> post.active_panel == Panel::Message,
        pre.bottom_panel_mode == BottomPanelMode::Closed ==> post.active_panel == Panel::Mailboxes,
        effect is Nothing,
{
}

} // verus!
