//! The state of the user interface: which panel has the focus, the lists
//! it shows, the message or draft open at the bottom, and the dialog on top.

use vstd::prelude::*;
use edtui::EditorState;

use crate::config::{AccountConfig, ImapConfig, SmtpConfig};
use crate::editor::{
    editor_contents, editor_cursor, editor_enter_insert_mode, editor_move_cursor, editor_text,
    new_editor,
};

verus! {

#[derive(Debug, Clone, Copy, PartialEq, Eq, Structural)]
pub enum Panel {
    Mailboxes,
    Envelopes,
    Message,
    Compose,
}

#[derive(Debug, Clone, Copy, PartialEq, Eq, Structural)]
pub enum BottomPanelMode {
    Closed,
    Message,
    Compose,
}

#[derive(Debug, Clone, Copy, PartialEq, Eq, Structural)]
pub enum EnvelopeAction {
    Read,
    Reply,
    ReplyAll,
    Forward,
    Copy,
    Move,
    AddFlag,
    RemoveFlag,
}

/// How many actions the envelope dialog offers.
pub const ENVELOPE_ACTION_COUNT: usize = 8;

impl EnvelopeAction {
    pub open spec fn label_text(self) -> Seq<char> {
        match self {
            EnvelopeAction::Read => "Read"@,
            EnvelopeAction::Reply => "Reply"@,
            EnvelopeAction::ReplyAll => "Reply All"@,
            EnvelopeAction::Forward => "Forward"@,
            EnvelopeAction::Copy => "Copy"@,
            EnvelopeAction::Move => "Move"@,
            EnvelopeAction::AddFlag => "Add flag"@,
            EnvelopeAction::RemoveFlag => "Remove flag"@,
        }
    }

    /// The action at a position of the dialog, top to bottom.
    pub open spec fn nth(index: int) -> EnvelopeAction {
        if index == 0 {
            EnvelopeAction::Read
        } else if index == 1 {
            EnvelopeAction::Reply
        } else if index == 2 {
            EnvelopeAction::ReplyAll
        } else if index == 3 {
            EnvelopeAction::Forward
        } else if index == 4 {
            EnvelopeAction::Copy
        } else if index == 5 {
            EnvelopeAction::Move
        } else if index == 6 {
            EnvelopeAction::AddFlag
        } else {
            EnvelopeAction::RemoveFlag
        }
    }

    pub fn label(&self) -> (label: &'static str)
        ensures
            label@ == self.label_text(),
    {
        match self {
            EnvelopeAction::Read => "Read",
            EnvelopeAction::Reply => "Reply",
            EnvelopeAction::ReplyAll => "Reply All",
            EnvelopeAction::Forward => "Forward",
            EnvelopeAction::Copy => "Copy",
            EnvelopeAction::Move => "Move",
            EnvelopeAction::AddFlag => "Add flag",
            EnvelopeAction::RemoveFlag => "Remove flag",
        }
    }

    pub fn at(index: usize) -> (action: EnvelopeAction)
        requires
            index < ENVELOPE_ACTION_COUNT,
        ensures
            action == EnvelopeAction::nth(index as int),
    {
        match index {
            0 => EnvelopeAction::Read,
            1 => EnvelopeAction::Reply,
            2 => EnvelopeAction::ReplyAll,
            3 => EnvelopeAction::Forward,
            4 => EnvelopeAction::Copy,
            5 => EnvelopeAction::Move,
            6 => EnvelopeAction::AddFlag,
            _ => EnvelopeAction::RemoveFlag,
        }
    }
}

#[derive(Debug, Clone, Copy, PartialEq, Eq, Structural)]
pub enum ComposeAction {
    Send,
    Preview,
    SaveToDrafts,
    Cancel,
}

/// How many actions the compose dialog offers.
pub const COMPOSE_ACTION_COUNT: usize = 4;

impl ComposeAction {
    pub open spec fn label_text(self) -> Seq<char> {
        match self {
            ComposeAction::Send => "Send"@,
            ComposeAction::Preview => "Preview"@,
            ComposeAction::SaveToDrafts => "Save to Drafts"@,
            ComposeAction::Cancel => "Cancel"@,
        }
    }

    pub open spec fn nth(index: int) -> ComposeAction {
        if index == 0 {
            ComposeAction::Send
        } else if index == 1 {
            ComposeAction::Preview
        } else if index == 2 {
            ComposeAction::SaveToDrafts
        } else {
            ComposeAction::Cancel
        }
    }

    pub fn label(&self) -> (label: &'static str)
        ensures
            label@ == self.label_text(),
    {
        match self {
            ComposeAction::Send => "Send",
            ComposeAction::Preview => "Preview",
            ComposeAction::SaveToDrafts => "Save to Drafts",
            ComposeAction::Cancel => "Cancel",
        }
    }

    pub fn at(index: usize) -> (action: ComposeAction)
        requires
            index < COMPOSE_ACTION_COUNT,
        ensures
            action == ComposeAction::nth(index as int),
    {
        match index {
            0 => ComposeAction::Send,
            1 => ComposeAction::Preview,
            2 => ComposeAction::SaveToDrafts,
            _ => ComposeAction::Cancel,
        }
    }
}

#[derive(Debug, Clone, Copy, PartialEq, Eq, Structural)]
pub enum Dialog {
    Envelope,
    Compose,
    CopyTo,
    MoveTo,
    FlagAdd,
    FlagRemove,
}

/// The flags the flag dialogs offer, each a system flag of IMAP.
#[derive(Debug, Clone, Copy, PartialEq, Eq, Structural)]
pub enum FlagAction {
    Seen,
    Answered,
    Flagged,
    Draft,
    Deleted,
}

/// How many flags the flag dialogs offer.
pub const FLAG_ACTION_COUNT: usize = 5;

impl FlagAction {
    pub open spec fn label_text(self) -> Seq<char> {
        match self {
            FlagAction::Seen => "Seen"@,
            FlagAction::Answered => "Answered"@,
            FlagAction::Flagged => "Flagged"@,
            FlagAction::Draft => "Draft"@,
            FlagAction::Deleted => "Deleted"@,
        }
    }

    /// The flag as it is stored on a message.
    pub open spec fn flag_text(self) -> Seq<char> {
        match self {
            FlagAction::Seen => "\\Seen"@,
            FlagAction::Answered => "\\Answered"@,
            FlagAction::Flagged => "\\Flagged"@,
            FlagAction::Draft => "\\Draft"@,
            FlagAction::Deleted => "\\Deleted"@,
        }
    }

    /// The flag at a position of the dialog, top to bottom.
    pub open spec fn nth(index: int) -> FlagAction {
        if index == 0 {
            FlagAction::Seen
        } else if index == 1 {
            FlagAction::Answered
        } else if index == 2 {
            FlagAction::Flagged
        } else if index == 3 {
            FlagAction::Draft
        } else {
            FlagAction::Deleted
        }
    }

    pub fn label(&self) -> (label: &'static str)
        ensures
            label@ == self.label_text(),
    {
        match self {
            FlagAction::Seen => "Seen",
            FlagAction::Answered => "Answered",
            FlagAction::Flagged => "Flagged",
            FlagAction::Draft => "Draft",
            FlagAction::Deleted => "Deleted",
        }
    }

    pub fn flag(&self) -> (flag: &'static str)
        ensures
            flag@ == self.flag_text(),
    {
        match self {
            FlagAction::Seen => "\\Seen",
            FlagAction::Answered => "\\Answered",
            FlagAction::Flagged => "\\Flagged",
            FlagAction::Draft => "\\Draft",
            FlagAction::Deleted => "\\Deleted",
        }
    }

    pub fn at(index: usize) -> (action: FlagAction)
        requires
            index < FLAG_ACTION_COUNT,
        ensures
            action == FlagAction::nth(index as int),
    {
        match index {
            0 => FlagAction::Seen,
            1 => FlagAction::Answered,
            2 => FlagAction::Flagged,
            3 => FlagAction::Draft,
            _ => FlagAction::Deleted,
        }
    }
}

pub struct Mailbox {
    /// The backend's identifier for the mailbox, where it has one.
    pub id: Option<String>,
    pub name: String,
    pub delimiter: Option<char>,
    pub subscribed: bool,
}

pub struct Envelope {
    pub id: String,
    pub date: String,
    pub from: String,
    pub subject: String,
    /// The flags (or keywords) set on the message, each once.
    pub flags: Vec<String>,
}

impl Envelope {
    pub open spec fn flag_seq(&self) -> Seq<Seq<char>> {
        self.flags@.map_values(|f: String| f@)
    }

    pub open spec fn flag_set(&self) -> Set<Seq<char>> {
        self.flag_seq().to_set()
    }

    pub open spec fn flags_distinct(&self) -> bool {
        self.flag_seq().no_duplicates()
    }

    pub fn has_flag(&self, flag: &str) -> (found: bool)
        ensures
            found == self.flag_set().contains(flag@),
    {
        let wanted = String::from_str(flag);
        let mut i: usize = 0;
        while i < self.flags.len()
            invariant
                i <= self.flags@.len(),
                wanted@ == flag@,
                forall|j: int| 0 <= j < i ==> self.flags@[j]@ != flag@,
            decreases self.flags@.len() - i,
        {
            if self.flags[i] == wanted {
                assert(self.flag_seq()[i as int] == flag@);
                return true;
            }
            i = i + 1;
        }
        proof {
            if self.flag_set().contains(flag@) {
                let k = choose|k: int| 0 <= k < self.flag_seq().len() && self.flag_seq()[k] == flag@;
                assert(self.flags@[k]@ == flag@);
            }
        }
        false
    }

    /// Sets a flag; a flag already set stays set once.
    pub fn add_flag(&mut self, flag: &str)
        ensures
            final(self).flag_set() == old(self).flag_set().insert(flag@),
            old(self).flags_distinct() ==> final(self).flags_distinct(),
            final(self).id == old(self).id,
            final(self).date == old(self).date,
            final(self).from == old(self).from,
            final(self).subject == old(self).subject,
    {
        if !self.has_flag(flag) {
            let ghost before = self.flag_seq();
            self.flags.push(String::from_str(flag));
            proof {
                assert(self.flag_seq() =~= before.push(flag@));
                assert(self.flag_set() =~= before.to_set().insert(flag@)) by {
                    before.lemma_push_to_set_commute(flag@);
                }
                if old(self).flags_distinct() {
                    assert forall|i: int, j: int|
                        0 <= i < j < self.flag_seq().len() implies self.flag_seq()[i]
                        != self.flag_seq()[j] by {
                        if j == before.len() {
                            assert(before.contains(before[i]));
                            assert(before.to_set().contains(before[i]));
                        }
                    }
                }
            }
        } else {
            assert(old(self).flag_set().insert(flag@) =~= old(self).flag_set());
        }
    }
}

impl Envelope {
    /// Clears a flag; the other flags stay, in their order.
    pub fn remove_flag(&mut self, flag: &str)
        ensures
            final(self).flag_set() == old(self).flag_set().remove(flag@),
            old(self).flags_distinct() ==> final(self).flags_distinct(),
            final(self).id == old(self).id,
            final(self).date == old(self).date,
            final(self).from == old(self).from,
            final(self).subject == old(self).subject,
    {
        let wanted = String::from_str(flag);
        let mut kept: Vec<String> = Vec::new();
        let ghost mut idx: Seq<int> = Seq::empty();
        let mut i: usize = 0;
        while i < self.flags.len()
            invariant
                i <= self.flags@.len(),
                self.flags == old(self).flags,
                wanted@ == flag@,
                kept@.len() == idx.len(),
                forall|k: int|
                    0 <= k < idx.len() ==> 0 <= #[trigger] idx[k] < i && kept@[k]@
                        == self.flags@[idx[k]]@ && kept@[k]@ != flag@,
                forall|k: int, l: int| 0 <= k < l < idx.len() ==> idx[k] < idx[l],
                forall|j: int|
                    0 <= j < i && #[trigger] self.flags@[j]@ != flag@ ==> exists|k: int|
                        0 <= k < idx.len() && idx[k] == j,
            decreases self.flags@.len() - i,
        {
            let ghost before_idx = idx;
            if self.flags[i] != wanted {
                let copy = self.flags[i].clone();
                kept.push(copy);
                proof {
                    idx = idx.push(i as int);
                }
            } else {
                assert(self.flags@[i as int]@ == flag@);
            }
            proof {
                assert forall|j: int|
                    0 <= j < i + 1 && #[trigger] self.flags@[j]@ != flag@ implies exists|k: int|
                        0 <= k < idx.len() && idx[k] == j by {
                    if j == i {
                        assert(idx[idx.len() - 1] == j);
                    } else {
                        let k = choose|k: int| 0 <= k < before_idx.len() && before_idx[k] == j;
                        assert(idx[k] == j);
                    }
                }
            }
            i = i + 1;
        }
        let ghost before = old(self).flag_seq();
        let ghost after = kept@.map_values(|f: String| f@);
        proof {
            assert forall|x: Seq<char>|
                after.to_set().contains(x) <==> before.to_set().remove(flag@).contains(x) by {
                if after.to_set().contains(x) {
                    let k = choose|k: int| 0 <= k < after.len() && after[k] == x;
                    assert(before[idx[k]] == x);
                    assert(before.contains(x));
                }
                if before.to_set().remove(flag@).contains(x) {
                    let j = choose|j: int| 0 <= j < before.len() && before[j] == x;
                    assert(self.flags@[j]@ != flag@);
                    let k = choose|k: int| 0 <= k < idx.len() && idx[k] == j;
                    assert(after[k] == x);
                    assert(after.contains(x));
                }
            }
            assert(after.to_set() =~= before.to_set().remove(flag@));
            if old(self).flags_distinct() {
                assert forall|k: int, l: int| 0 <= k < l < after.len() implies after[k] != after[l] by {
                    assert(after[k] == before[idx[k]]);
                    assert(after[l] == before[idx[l]]);
                }
            }
        }
        self.flags = kept;
        assert(self.flag_seq() =~= after);
    }
}

/// How many envelopes a page of the list holds.
pub const ENVELOPE_PAGE_SIZE: usize = 50;

/// A draft to open in the composer: its text, and where the cursor goes
/// (the row counted from one, the column from zero).
pub struct ComposeTemplate {
    pub content: String,
    pub cursor_row: usize,
    pub cursor_col: usize,
}

/// Why the user interface could not be set up for an account.
#[derive(Debug, Clone, Copy, PartialEq, Eq, Structural)]
pub enum AppError {
    /// The account has no IMAP section.
    MissingImap,
}

impl AppError {
    pub open spec fn message_text(self) -> Seq<char> {
        "IMAP config is missing for this account"@
    }

    pub fn message(&self) -> (text: String)
        ensures
            text@ == self.message_text(),
    {
        String::from_str("IMAP config is missing for this account")
    }
}

pub struct App {
    pub running: bool,
    pub active_panel: Panel,
    pub mailboxes: Vec<Mailbox>,
    pub mailbox_index: usize,
    pub envelopes: Vec<Envelope>,
    pub envelope_index: usize,
    /// The page of the envelope list on show, counted from zero.
    pub envelope_page: usize,
    /// How many envelopes a page holds.
    pub envelope_page_size: usize,
    pub selected_mailbox: Option<String>,
    pub account_name: String,
    pub email: String,
    pub display_name: String,
    pub signature: String,
    pub imap_config: ImapConfig,
    pub smtp_config: Option<SmtpConfig>,
    pub status_message: Option<String>,
    // Message viewing
    pub bottom_panel_mode: BottomPanelMode,
    pub message_content: Option<String>,
    pub message_scroll: u16,
    pub previewing_compose: bool,
    // Message composition
    pub editor_state: EditorState,
    // Dialog
    pub dialog: Option<Dialog>,
    pub dialog_index: usize,
}

/// The view of an optional string.
pub open spec fn opt_view(s: Option<String>) -> Option<Seq<char>> {
    match s {
        Some(t) => Some(t@),
        None => None,
    }
}

/// The first of two optional strings that is set, or the empty string.
pub open spec fn first_or_empty(a: Option<String>, b: Option<String>) -> Seq<char> {
    match a {
        Some(t) => t@,
        None => match b {
            Some(t) => t@,
            None => Seq::empty(),
        },
    }
}

/// The index that follows `index` in a cyclic list of `len` items.
pub open spec fn cycle_next(index: int, len: int) -> int {
    if len > 0 {
        (index + 1) % len
    } else {
        index
    }
}

/// The index that precedes `index` in a cyclic list of `len` items.
pub open spec fn cycle_prev(index: int, len: int) -> int {
    if len > 0 {
        if index > 0 {
            index - 1
        } else {
            len - 1
        }
    } else {
        index
    }
}

/// Inside a list, the index after `index` is the next row, or the first row
/// after the last.
pub proof fn lemma_cycle_next_value(index: int, len: int)
    requires
        0 <= index < len,
    ensures
        cycle_next(index, len) == (if index + 1 < len { index + 1 } else { 0 }),
{
    if index + 1 < len {
        vstd::arithmetic::div_mod::lemma_small_mod((index + 1) as nat, len as nat);
    } else {
        vstd::arithmetic::div_mod::lemma_mod_self_0(len);
    }
}

fn take_or_other(a: Option<String>, b: Option<String>) -> (s: String)
    ensures
        s@ == first_or_empty(a, b),
{
    match a {
        Some(t) => t,
        None => match b {
            Some(t) => t,
            None => String::new(),
        },
    }
}

impl App {
    /// An index is valid for a list: inside it, or zero for an empty list.
    pub open spec fn index_ok(index: usize, len: nat) -> bool {
        if len == 0 {
            index == 0
        } else {
            index < len
        }
    }

    /// The selection indices point into their lists.
    pub open spec fn wf(&self) -> bool {
        &&& App::index_ok(self.mailbox_index, self.mailboxes@.len())
        &&& App::index_ok(self.envelope_index, self.envelopes@.len())
    }

    pub open spec fn same_lists(&self, other: &App) -> bool {
        &&& self.mailboxes == other.mailboxes
        &&& self.mailbox_index == other.mailbox_index
        &&& self.envelopes == other.envelopes
        &&& self.envelope_index == other.envelope_index
        &&& self.envelope_page == other.envelope_page
        &&& self.envelope_page_size == other.envelope_page_size
        &&& self.selected_mailbox == other.selected_mailbox
    }

    pub open spec fn same_account(&self, other: &App) -> bool {
        &&& self.account_name == other.account_name
        &&& self.email == other.email
        &&& self.display_name == other.display_name
        &&& self.signature == other.signature
        &&& self.imap_config == other.imap_config
        &&& self.smtp_config == other.smtp_config
    }

    pub open spec fn same_bottom(&self, other: &App) -> bool {
        &&& self.bottom_panel_mode == other.bottom_panel_mode
        &&& self.message_content == other.message_content
        &&& self.message_scroll == other.message_scroll
        &&& self.previewing_compose == other.previewing_compose
        &&& self.editor_state == other.editor_state
    }

    pub open spec fn same_dialog(&self, other: &App) -> bool {
        &&& self.dialog == other.dialog
        &&& self.dialog_index == other.dialog_index
    }

    /// Everything but the status line is the same.
    pub open spec fn same_but_status(&self, other: &App) -> bool {
        &&& self.running == other.running
        &&& self.active_panel == other.active_panel
        &&& self.same_lists(other)
        &&& self.same_account(other)
        &&& self.same_bottom(other)
        &&& self.same_dialog(other)
    }

    /// The same state with another status line.
    pub open spec fn with_status(self, status: Option<String>) -> App {
        App { status_message: status, ..self }
    }

    /// The same state with no dialog open.
    pub open spec fn without_dialog(self) -> App {
        App { dialog: None, ..self }
    }

    /// The panel that has the focus once the bottom panel is closed.
    pub open spec fn panel_after_close(panel: Panel) -> Panel {
        if panel == Panel::Message || panel == Panel::Compose {
            Panel::Envelopes
        } else {
            panel
        }
    }

    /// What closing the bottom panel makes of a state.
    pub open spec fn bottom_closed(&self, pre: &App) -> bool {
        &&& self.bottom_panel_mode == BottomPanelMode::Closed
        &&& self.message_content is None
        &&& self.previewing_compose == false
        &&& self.dialog is None
        &&& self.active_panel == App::panel_after_close(pre.active_panel)
        &&& self.message_scroll == pre.message_scroll
        &&& self.editor_state == pre.editor_state
        &&& self.dialog_index == pre.dialog_index
        &&& self.running == pre.running
        &&& self.same_lists(pre)
        &&& self.same_account(pre)
        &&& self.status_message == pre.status_message
    }

    /// The number of entries the open dialog lists.
    pub open spec fn dialog_count(&self) -> nat {
        match self.dialog {
            Some(Dialog::Envelope) => ENVELOPE_ACTION_COUNT as nat,
            Some(Dialog::Compose) => COMPOSE_ACTION_COUNT as nat,
            Some(Dialog::CopyTo) => self.mailboxes@.len(),
            Some(Dialog::MoveTo) => self.mailboxes@.len(),
            Some(Dialog::FlagAdd) => FLAG_ACTION_COUNT as nat,
            Some(Dialog::FlagRemove) => FLAG_ACTION_COUNT as nat,
            None => 0,
        }
    }

    /// Sets up the interface for the account `account_name`: the account's
    /// own display name and signature win over the global ones. An account
    /// without an IMAP section is refused.
    pub fn new(
        account_name: String,
        account: AccountConfig,
        config_display_name: Option<String>,
        config_signature: Option<String>,
    ) -> (result: Result<App, AppError>)
        ensures
            account.imap is None <==> result is Err,
            result matches Err(e) ==> e == AppError::MissingImap,
            result matches Ok(app) ==> {
                &&& app.running
                &&& app.active_panel == Panel::Mailboxes
                &&& app.mailboxes@.len() == 0
                &&& app.mailbox_index == 0
                &&& app.envelopes@.len() == 0
                &&& app.envelope_index == 0
                &&& app.envelope_page == 0
                &&& app.envelope_page_size == ENVELOPE_PAGE_SIZE
                &&& app.selected_mailbox is None
                &&& app.account_name == account_name
                &&& app.email == account.email
                &&& app.display_name@ == first_or_empty(account.display_name, config_display_name)
                &&& app.signature@ == first_or_empty(account.signature, config_signature)
                &&& Some(app.imap_config) == account.imap
                &&& app.smtp_config == account.smtp
                &&& opt_view(app.status_message) == Some("Loading mailboxes..."@)
                &&& app.bottom_panel_mode == BottomPanelMode::Closed
                &&& app.message_content is None
                &&& app.message_scroll == 0
                &&& !app.previewing_compose
                &&& editor_text(app.editor_state) == Seq::<char>::empty()
                &&& app.dialog is None
                &&& app.dialog_index == 0
                &&& app.wf()
            },
    {
        let imap_config = match account.imap {
            Some(imap) => imap,
            None => return Err(AppError::MissingImap),
        };
        let display_name = take_or_other(account.display_name, config_display_name);
        let signature = take_or_other(account.signature, config_signature);
        proof {
            reveal_strlit("");
        }
        let editor_state = new_editor("");
        Ok(App {
            running: true,
            active_panel: Panel::Mailboxes,
            mailboxes: Vec::new(),
            mailbox_index: 0,
            envelopes: Vec::new(),
            envelope_index: 0,
            envelope_page: 0,
            envelope_page_size: ENVELOPE_PAGE_SIZE,
            selected_mailbox: None,
            account_name,
            email: account.email,
            display_name,
            signature,
            imap_config,
            smtp_config: account.smtp,
            status_message: Some(String::from_str("Loading mailboxes...")),
            bottom_panel_mode: BottomPanelMode::Closed,
            message_content: None,
            message_scroll: 0,
            previewing_compose: false,
            editor_state,
            dialog: None,
            dialog_index: 0,
        })
    }

    pub fn quit(&mut self)
        ensures
            !final(self).running,
            final(self).active_panel == old(self).active_panel,
            final(self).same_lists(old(self)),
            final(self).same_account(old(self)),
            final(self).same_bottom(old(self)),
            final(self).same_dialog(old(self)),
            final(self).status_message == old(self).status_message,
    {
        self.running = false;
    }

    /// Closes the bottom panel: no message, no draft, no dialog; the focus
    /// leaves the bottom panel for the envelopes.
    pub fn close_bottom_panel(&mut self)
        ensures
            final(self).bottom_closed(old(self)),
    {
        self.bottom_panel_mode = BottomPanelMode::Closed;
        self.message_content = None;
        self.previewing_compose = false;
        self.dialog = None;
        if self.active_panel == Panel::Message || self.active_panel == Panel::Compose {
            self.active_panel = Panel::Envelopes;
        }
    }

    /// Leaves the selected mailbox: its envelopes go, the bottom panel
    /// closes and the focus returns to the mailboxes.
    pub fn unselect_mailbox(&mut self)
        ensures
            final(self).selected_mailbox is None,
            final(self).envelopes@.len() == 0,
            final(self).envelope_index == 0,
            final(self).active_panel == Panel::Mailboxes,
            final(self).bottom_panel_mode == BottomPanelMode::Closed,
            final(self).message_content is None,
            !final(self).previewing_compose,
            final(self).dialog is None,
            final(self).mailboxes == old(self).mailboxes,
            final(self).mailbox_index == old(self).mailbox_index,
            final(self).running == old(self).running,
            final(self).same_account(old(self)),
            final(self).message_scroll == old(self).message_scroll,
            final(self).editor_state == old(self).editor_state,
            final(self).dialog_index == old(self).dialog_index,
            final(self).status_message == old(self).status_message,
    {
        self.selected_mailbox = None;
        self.envelopes.clear();
        self.envelope_index = 0;
        self.close_bottom_panel();
        self.active_panel = Panel::Mailboxes;
    }

    /// Closes what has the focus; says whether anything was closed. From
    /// the bottom panel it closes the bottom panel; from the envelopes it
    /// closes the bottom panel if one is open, else leaves the mailbox.
    pub fn close_current(&mut self) -> (closed: bool)
        ensures
            closed == (old(self).active_panel != Panel::Mailboxes),
            !closed ==> *final(self) == *old(self),
            (old(self).active_panel == Panel::Message || old(self).active_panel == Panel::Compose
                || (old(self).active_panel == Panel::Envelopes && old(self).bottom_panel_mode
                != BottomPanelMode::Closed)) ==> final(self).bottom_closed(old(self)),
            (old(self).active_panel == Panel::Envelopes && old(self).bottom_panel_mode
                == BottomPanelMode::Closed) ==> {
                &&& final(self).selected_mailbox is None
                &&& final(self).envelopes@.len() == 0
                &&& final(self).envelope_index == 0
                &&& final(self).active_panel == Panel::Mailboxes
                &&& final(self).dialog is None
                &&& final(self).mailboxes == old(self).mailboxes
                &&& final(self).mailbox_index == old(self).mailbox_index
                &&& final(self).same_account(old(self))
                &&& final(self).status_message == old(self).status_message
            },
    {
        match self.active_panel {
            Panel::Message | Panel::Compose => {
                self.close_bottom_panel();
                true
            },
            Panel::Envelopes => {
                if self.bottom_panel_mode != BottomPanelMode::Closed {
                    self.close_bottom_panel();
                } else {
                    self.unselect_mailbox();
                }
                true
            },
            _ => false,
        }
    }

    /// The panel that `toggle_panel` moves the focus to.
    pub open spec fn next_panel(panel: Panel, mode: BottomPanelMode) -> Panel {
        match panel {
            Panel::Mailboxes => Panel::Envelopes,
            Panel::Envelopes => match mode {
                BottomPanelMode::Message => Panel::Message,
                BottomPanelMode::Compose => Panel::Compose,
                BottomPanelMode::Closed => Panel::Mailboxes,
            },
            Panel::Message => Panel::Mailboxes,
            Panel::Compose => Panel::Mailboxes,
        }
    }

    /// Moves the focus to the next panel: mailboxes, envelopes, then the
    /// bottom panel when one is open, and back to the mailboxes.
    pub fn toggle_panel(&mut self)
        ensures
            final(self).active_panel == App::next_panel(
                old(self).active_panel,
                old(self).bottom_panel_mode,
            ),
            final(self).running == old(self).running,
            final(self).same_lists(old(self)),
            final(self).same_account(old(self)),
            final(self).same_bottom(old(self)),
            final(self).same_dialog(old(self)),
            final(self).status_message == old(self).status_message,
    {
        self.active_panel = match self.active_panel {
            Panel::Mailboxes => Panel::Envelopes,
            Panel::Envelopes => {
                if self.bottom_panel_mode == BottomPanelMode::Message {
                    Panel::Message
                } else if self.bottom_panel_mode == BottomPanelMode::Compose {
                    Panel::Compose
                } else {
                    Panel::Mailboxes
                }
            },
            Panel::Message => Panel::Mailboxes,
            Panel::Compose => Panel::Mailboxes,
        };
    }

    pub open spec fn next_item_post(pre: &App, post: &App) -> bool {
        &&& post.mailbox_index == (if pre.active_panel == Panel::Mailboxes {
                    cycle_next(pre.mailbox_index as int, pre.mailboxes@.len() as int)
                } else {
                    pre.mailbox_index as int
                })
        &&& post.envelope_index == (if pre.active_panel == Panel::Envelopes {
                    cycle_next(pre.envelope_index as int, pre.envelopes@.len() as int)
                } else {
                    pre.envelope_index as int
                })
        &&& post.message_scroll == (if pre.active_panel == Panel::Message {
                    if pre.message_scroll < u16::MAX {
                        pre.message_scroll + 1
                    } else {
                        u16::MAX as int
                    }
                } else {
                    pre.message_scroll as int
                })
        &&& pre.wf() ==> post.wf()
        &&& post.running == pre.running
        &&& post.active_panel == pre.active_panel
        &&& post.mailboxes == pre.mailboxes
        &&& post.envelopes == pre.envelopes
        &&& post.selected_mailbox == pre.selected_mailbox
        &&& post.same_account(pre)
        &&& post.bottom_panel_mode == pre.bottom_panel_mode
        &&& post.message_content == pre.message_content
        &&& post.previewing_compose == pre.previewing_compose
        &&& post.editor_state == pre.editor_state
        &&& post.same_dialog(pre)
        &&& post.status_message == pre.status_message
    }

    /// Moves down in the focused list (wrapping around), or scrolls the
    /// message down.
    pub fn next_item(&mut self)
        requires
            old(self).active_panel == Panel::Mailboxes ==> old(self).mailbox_index < usize::MAX,
            old(self).active_panel == Panel::Envelopes ==> old(self).envelope_index < usize::MAX,
        ensures
            App::next_item_post(old(self), final(self)),
    {
        match self.active_panel {
            Panel::Mailboxes => {
                if self.mailboxes.len() > 0 {
                    self.mailbox_index = (self.mailbox_index + 1) % self.mailboxes.len();
                }
            },
            Panel::Envelopes => {
                if self.envelopes.len() > 0 {
                    self.envelope_index = (self.envelope_index + 1) % self.envelopes.len();
                }
            },
            Panel::Message => {
                self.message_scroll = self.message_scroll.saturating_add(1);
            },
            Panel::Compose => {},
        }
    }

    pub open spec fn previous_item_post(pre: &App, post: &App) -> bool {
        &&& post.mailbox_index == (if pre.active_panel == Panel::Mailboxes {
                    cycle_prev(pre.mailbox_index as int, pre.mailboxes@.len() as int)
                } else {
                    pre.mailbox_index as int
                })
        &&& post.envelope_index == (if pre.active_panel == Panel::Envelopes {
                    cycle_prev(pre.envelope_index as int, pre.envelopes@.len() as int)
                } else {
                    pre.envelope_index as int
                })
        &&& post.message_scroll == (if pre.active_panel == Panel::Message {
                    if pre.message_scroll > 0 {
                        pre.message_scroll - 1
                    } else {
                        0
                    }
                } else {
                    pre.message_scroll as int
                })
        &&& pre.wf() ==> post.wf()
        &&& post.running == pre.running
        &&& post.active_panel == pre.active_panel
        &&& post.mailboxes == pre.mailboxes
        &&& post.envelopes == pre.envelopes
        &&& post.selected_mailbox == pre.selected_mailbox
        &&& post.same_account(pre)
        &&& post.bottom_panel_mode == pre.bottom_panel_mode
        &&& post.message_content == pre.message_content
        &&& post.previewing_compose == pre.previewing_compose
        &&& post.editor_state == pre.editor_state
        &&& post.same_dialog(pre)
        &&& post.status_message == pre.status_message
    }

    /// Moves up in the focused list (wrapping around), or scrolls the
    /// message up.
    pub fn previous_item(&mut self)
        ensures
            App::previous_item_post(old(self), final(self)),
    {
        match self.active_panel {
            Panel::Mailboxes => {
                if self.mailboxes.len() > 0 {
                    self.mailbox_index = if self.mailbox_index > 0 {
                        self.mailbox_index - 1
                    } else {
                        self.mailboxes.len() - 1
                    };
                }
            },
            Panel::Envelopes => {
                if self.envelopes.len() > 0 {
                    self.envelope_index = if self.envelope_index > 0 {
                        self.envelope_index - 1
                    } else {
                        self.envelopes.len() - 1
                    };
                }
            },
            Panel::Message => {
                self.message_scroll = self.message_scroll.saturating_sub(1);
            },
            Panel::Compose => {},
        }
    }

    /// Opens the mailbox under the cursor, if there is one: its envelopes
    /// are to be loaded, so the list is emptied and the status says so.
    pub fn select_mailbox(&mut self)
        ensures
            old(self).mailbox_index >= old(self).mailboxes@.len() ==> *final(self) == *old(self),
            old(self).mailbox_index < old(self).mailboxes@.len() ==> {
                let name = old(self).mailboxes@[old(self).mailbox_index as int].name@;
                &&& opt_view(final(self).selected_mailbox) == Some(name)
                &&& final(self).envelopes@.len() == 0
                &&& final(self).envelope_index == 0
                &&& final(self).envelope_page == 0
                &&& final(self).envelope_page_size == old(self).envelope_page_size
                &&& final(self).active_panel == Panel::Envelopes
                &&& final(self).bottom_panel_mode == BottomPanelMode::Closed
                &&& final(self).message_content is None
                &&& !final(self).previewing_compose
                &&& final(self).dialog is None
                &&& opt_view(final(self).status_message) == Some(
                    "Loading envelopes from "@ + name + "..."@,
                )
                &&& final(self).mailboxes == old(self).mailboxes
                &&& final(self).mailbox_index == old(self).mailbox_index
                &&& final(self).running == old(self).running
                &&& final(self).same_account(old(self))
                &&& final(self).message_scroll == old(self).message_scroll
                &&& final(self).editor_state == old(self).editor_state
                &&& final(self).dialog_index == old(self).dialog_index
            },
    {
        if self.mailbox_index < self.mailboxes.len() {
            let name = self.mailboxes[self.mailbox_index].name.clone();
            let mut status = String::from_str("Loading envelopes from ");
            status.append(name.as_str());
            status.append("...");
            self.selected_mailbox = Some(name);
            self.envelope_index = 0;
            self.envelope_page = 0;
            self.envelopes.clear();
            self.close_bottom_panel();
            self.active_panel = Panel::Envelopes;
            self.status_message = Some(status);
        }
    }

    pub open spec fn set_mailboxes_post(pre: &App, post: &App, mailboxes: Vec<Mailbox>) -> bool {
        &&& post.mailboxes == mailboxes
        &&& post.mailbox_index == 0
        &&& post.status_message is None
        &&& post.envelope_page_size == pre.envelope_page_size
        &&& mailboxes@.len() == 0 ==> {
            &&& post.envelopes == pre.envelopes
            &&& post.envelope_index == pre.envelope_index
            &&& post.envelope_page == pre.envelope_page
            &&& post.selected_mailbox == pre.selected_mailbox
            &&& post.active_panel == pre.active_panel
            &&& post.same_bottom(pre)
            &&& post.same_dialog(pre)
        }
        &&& mailboxes@.len() > 0 ==> {
            &&& opt_view(post.selected_mailbox) == Some(mailboxes@[0].name@)
            &&& post.envelopes@.len() == 0
            &&& post.envelope_index == 0
            &&& post.envelope_page == 0
            &&& post.active_panel == Panel::Envelopes
            &&& post.bottom_panel_mode == BottomPanelMode::Closed
            &&& post.message_content is None
            &&& !post.previewing_compose
            &&& post.dialog is None
            &&& post.message_scroll == pre.message_scroll
            &&& post.editor_state == pre.editor_state
            &&& post.dialog_index == pre.dialog_index
        }
        &&& pre.wf() ==> post.wf()
        &&& post.running == pre.running
        &&& post.same_account(pre)
    }

    /// Replaces the mailbox list and opens its first mailbox.
    pub fn set_mailboxes(&mut self, mailboxes: Vec<Mailbox>)
        ensures
            App::set_mailboxes_post(old(self), final(self), mailboxes),
    {
        self.mailboxes = mailboxes;
        self.mailbox_index = 0;
        if self.mailboxes.len() > 0 {
            self.select_mailbox();
        }
        self.status_message = None;
    }

    /// A next page may hold envelopes: a mailbox is open and the page on
    /// show is full.
    pub open spec fn has_next_page(&self) -> bool {
        &&& self.selected_mailbox is Some
        &&& self.envelope_page_size > 0
        &&& self.envelopes@.len() == self.envelope_page_size
        &&& self.envelope_page < usize::MAX
    }

    /// There is a page before the one on show.
    pub open spec fn has_previous_page(&self) -> bool {
        &&& self.selected_mailbox is Some
        &&& self.envelope_page > 0
    }

    /// The same state on another page of the envelope list.
    pub open spec fn on_page(self, page: int) -> App {
        App { envelope_page: page as usize, ..self }
    }

    /// Turns to the next page when there may be one; says whether it did.
    pub fn next_envelope_page(&mut self) -> (moved: bool)
        ensures
            moved == old(self).has_next_page(),
            moved ==> *final(self) == old(self).on_page(old(self).envelope_page + 1),
            !moved ==> *final(self) == *old(self),
    {
        if self.selected_mailbox.is_some() && self.envelope_page_size > 0 && self.envelopes.len()
            == self.envelope_page_size && self.envelope_page < usize::MAX {
            self.envelope_page = self.envelope_page + 1;
            true
        } else {
            false
        }
    }

    /// Turns to the previous page when there is one; says whether it did.
    pub fn prev_envelope_page(&mut self) -> (moved: bool)
        ensures
            moved == old(self).has_previous_page(),
            moved ==> *final(self) == old(self).on_page(old(self).envelope_page - 1),
            !moved ==> *final(self) == *old(self),
    {
        if self.selected_mailbox.is_some() && self.envelope_page > 0 {
            self.envelope_page = self.envelope_page - 1;
            true
        } else {
            false
        }
    }

    /// Replaces the envelope list; the cursor goes to its top.
    pub fn set_envelopes(&mut self, envelopes: Vec<Envelope>)
        ensures
            final(self).envelopes == envelopes,
            final(self).envelope_index == 0,
            final(self).status_message is None,
            old(self).wf() ==> final(self).wf(),
            final(self).running == old(self).running,
            final(self).active_panel == old(self).active_panel,
            final(self).mailboxes == old(self).mailboxes,
            final(self).mailbox_index == old(self).mailbox_index,
            final(self).selected_mailbox == old(self).selected_mailbox,
            final(self).envelope_page == old(self).envelope_page,
            final(self).envelope_page_size == old(self).envelope_page_size,
            final(self).same_account(old(self)),
            final(self).same_bottom(old(self)),
            final(self).same_dialog(old(self)),
    {
        self.envelopes = envelopes;
        self.envelope_index = 0;
        self.status_message = None;
    }

    pub open spec fn set_status_post(pre: &App, post: &App, message: String) -> bool {
        &&& post.status_message == Some(message)
        &&& post.same_but_status(pre)
    }

    pub fn set_status(&mut self, message: String)
        ensures
            App::set_status_post(old(self), final(self), message),
    {
        self.status_message = Some(message);
    }

    pub open spec fn clear_status_post(pre: &App, post: &App) -> bool {
        &&& post.status_message is None
        &&& post.same_but_status(pre)
    }

    pub fn clear_status(&mut self)
        ensures
            App::clear_status_post(old(self), final(self)),
    {
        self.status_message = None;
    }

    pub open spec fn show_message_post(pre: &App, post: &App, content: String) -> bool {
        &&& post.message_content == Some(content)
        &&& post.message_scroll == 0
        &&& post.bottom_panel_mode == BottomPanelMode::Message
        &&& post.active_panel == Panel::Message
        &&& post.previewing_compose == pre.previewing_compose
        &&& post.editor_state == pre.editor_state
        &&& post.running == pre.running
        &&& post.same_lists(pre)
        &&& post.same_account(pre)
        &&& post.same_dialog(pre)
        &&& post.status_message == pre.status_message
    }

    /// Shows a message in the bottom panel, scrolled to its top, and moves
    /// the focus there.
    pub fn show_message(&mut self, content: String)
        ensures
            App::show_message_post(old(self), final(self), content),
    {
        self.message_content = Some(content);
        self.message_scroll = 0;
        self.bottom_panel_mode = BottomPanelMode::Message;
        self.active_panel = Panel::Message;
    }

    pub open spec fn preview_compose_post(pre: &App, post: &App, content: String) -> bool {
        &&& post.message_content == Some(content)
        &&& post.message_scroll == 0
        &&& post.bottom_panel_mode == BottomPanelMode::Message
        &&& post.active_panel == Panel::Message
        &&& post.previewing_compose
        &&& post.editor_state == pre.editor_state
        &&& post.running == pre.running
        &&& post.same_lists(pre)
        &&& post.same_account(pre)
        &&& post.same_dialog(pre)
        &&& post.status_message == pre.status_message
    }

    /// Shows the compiled draft in the bottom panel, marked as a preview.
    pub fn preview_compose(&mut self, content: String)
        ensures
            App::preview_compose_post(old(self), final(self), content),
    {
        self.message_content = Some(content);
        self.message_scroll = 0;
        self.bottom_panel_mode = BottomPanelMode::Message;
        self.active_panel = Panel::Message;
        self.previewing_compose = true;
    }

    pub open spec fn close_preview_post(pre: &App, post: &App) -> bool {
        &&& post.message_content is None
        &&& post.message_scroll == 0
        &&& !post.previewing_compose
        &&& post.bottom_panel_mode == BottomPanelMode::Compose
        &&& post.active_panel == Panel::Compose
        &&& post.editor_state == pre.editor_state
        &&& post.running == pre.running
        &&& post.same_lists(pre)
        &&& post.same_account(pre)
        &&& post.same_dialog(pre)
        &&& post.status_message == pre.status_message
    }

    /// Leaves the preview for the draft it was made from.
    pub fn close_preview(&mut self)
        ensures
            App::close_preview_post(old(self), final(self)),
    {
        self.message_content = None;
        self.message_scroll = 0;
        self.previewing_compose = false;
        self.bottom_panel_mode = BottomPanelMode::Compose;
        self.active_panel = Panel::Compose;
    }

    /// What opening the composer on a draft makes of a state.
    pub open spec fn composing(&self, pre: &App, content: Seq<char>, row: usize, col: usize) -> bool {
        &&& (!content.contains('\r') ==> editor_text(self.editor_state) == content)
        &&& editor_cursor(self.editor_state) == (
            (if row > 0 { (row - 1) as usize } else { 0usize }),
            col,
        )
        &&& self.bottom_panel_mode == BottomPanelMode::Compose
        &&& self.active_panel == Panel::Compose
        &&& self.dialog is None
        &&& self.message_content == pre.message_content
        &&& self.message_scroll == pre.message_scroll
        &&& self.previewing_compose == pre.previewing_compose
        &&& self.dialog_index == pre.dialog_index
        &&& self.running == pre.running
        &&& self.same_lists(pre)
        &&& self.same_account(pre)
        &&& self.status_message == pre.status_message
    }

    fn open_editor_with_template(&mut self, content: &str, row: usize, col: usize)
        ensures
            final(self).composing(old(self), content@, row, col),
    {
        let mut state = new_editor(content);
        editor_enter_insert_mode(&mut state);
        editor_move_cursor(&mut state, row.saturating_sub(1), col);
        self.editor_state = state;
        self.bottom_panel_mode = BottomPanelMode::Compose;
        self.active_panel = Panel::Compose;
        self.dialog = None;
    }

    /// The status line for a draft that could not be built.
    pub open spec fn template_failure(prefix: Seq<char>, err: Seq<char>) -> Seq<char> {
        prefix + err
    }

    fn apply_template(&mut self, template: Result<ComposeTemplate, String>, prefix: &str)
        ensures
            template matches Ok(t) ==> final(self).composing(
                old(self),
                t.content@,
                t.cursor_row,
                t.cursor_col,
            ),
            template matches Err(e) ==> {
                &&& opt_view(final(self).status_message) == Some(prefix@ + e@)
                &&& final(self).same_but_status(old(self))
            },
    {
        match template {
            Ok(t) => self.open_editor_with_template(t.content.as_str(), t.cursor_row, t.cursor_col),
            Err(e) => {
                let mut status = String::from_str(prefix);
                status.append(e.as_str());
                self.set_status(status);
            },
        }
    }

    /// Opens the composer on a new draft, or reports why the draft could
    /// not be built.
    pub fn start_compose(&mut self, template: Result<ComposeTemplate, String>)
        ensures
            template matches Ok(t) ==> final(self).composing(
                old(self),
                t.content@,
                t.cursor_row,
                t.cursor_col,
            ),
            template matches Err(e) ==> {
                &&& opt_view(final(self).status_message) == Some(
                    "Error building template: "@ + e@,
                )
                &&& final(self).same_but_status(old(self))
            },
    {
        self.apply_template(template, "Error building template: ");
    }

    /// Opens the composer on a reply. `None` stands for a message that
    /// could not be parsed.
    pub fn start_reply(&mut self, template: Option<Result<ComposeTemplate, String>>)
        ensures
            template is None ==> {
                &&& opt_view(final(self).status_message) == Some(
                    "Error: failed to parse message"@,
                )
                &&& final(self).same_but_status(old(self))
            },
            template matches Some(Ok(t)) ==> final(self).composing(
                old(self),
                t.content@,
                t.cursor_row,
                t.cursor_col,
            ),
            template matches Some(Err(e)) ==> {
                &&& opt_view(final(self).status_message) == Some(
                    "Error building reply template: "@ + e@,
                )
                &&& final(self).same_but_status(old(self))
            },
    {
        match template {
            None => self.set_status(String::from_str("Error: failed to parse message")),
            Some(t) => self.apply_template(t, "Error building reply template: "),
        }
    }

    /// Opens the composer on a forward. `None` stands for a message that
    /// could not be parsed.
    pub fn start_forward(&mut self, template: Option<Result<ComposeTemplate, String>>)
        ensures
            template is None ==> {
                &&& opt_view(final(self).status_message) == Some(
                    "Error: failed to parse message"@,
                )
                &&& final(self).same_but_status(old(self))
            },
            template matches Some(Ok(t)) ==> final(self).composing(
                old(self),
                t.content@,
                t.cursor_row,
                t.cursor_col,
            ),
            template matches Some(Err(e)) ==> {
                &&& opt_view(final(self).status_message) == Some(
                    "Error building forward template: "@ + e@,
                )
                &&& final(self).same_but_status(old(self))
            },
    {
        match template {
            None => self.set_status(String::from_str("Error: failed to parse message")),
            Some(t) => self.apply_template(t, "Error building forward template: "),
        }
    }

    /// The text of the draft in the composer.
    pub fn get_compose_content(&self) -> (content: String)
        ensures
            content@ == editor_text(self.editor_state),
    {
        editor_contents(&self.editor_state)
    }

    /// Drops the draft view: closes the dialog and the bottom panel.
    pub fn cancel_compose(&mut self)
        ensures
            final(self).bottom_closed(old(self)),
    {
        self.dialog = None;
        self.close_bottom_panel();
    }

    /// The envelope under the cursor, if any.
    pub fn get_selected_envelope(&self) -> (envelope: Option<&Envelope>)
        ensures
            self.envelope_index < self.envelopes@.len() ==> envelope == Some(
                &self.envelopes@[self.envelope_index as int],
            ),
            self.envelope_index >= self.envelopes@.len() ==> envelope is None,
    {
        if self.envelope_index < self.envelopes.len() {
            Some(&self.envelopes[self.envelope_index])
        } else {
            None
        }
    }

    pub open spec fn remove_selected_post(pre: &App, post: &App) -> bool {
        &&& pre.envelope_index >= pre.envelopes@.len() ==> *post == *pre
        &&& pre.envelope_index < pre.envelopes@.len() ==> {
            &&& post.envelopes@ == pre.envelopes@.remove(pre.envelope_index as int)
            &&& post.envelope_index == (if pre.envelope_index >= post.envelopes@.len()
                && pre.envelope_index > 0 {
                pre.envelope_index - 1
            } else {
                pre.envelope_index as int
            })
        }
        &&& pre.wf() ==> post.wf()
        &&& post.running == pre.running
        &&& post.active_panel == pre.active_panel
        &&& post.mailboxes == pre.mailboxes
        &&& post.mailbox_index == pre.mailbox_index
        &&& post.selected_mailbox == pre.selected_mailbox
        &&& post.same_account(pre)
        &&& post.same_bottom(pre)
        &&& post.same_dialog(pre)
        &&& post.status_message == pre.status_message
    }

    /// Takes the envelope under the cursor out of the list; the cursor
    /// stays on the same row, or moves up when it was on the last one.
    pub fn remove_selected_envelope(&mut self)
        ensures
            App::remove_selected_post(old(self), final(self)),
    {
        if self.envelope_index < self.envelopes.len() {
            self.envelopes.remove(self.envelope_index);
            if self.envelope_index >= self.envelopes.len() && self.envelope_index > 0 {
                self.envelope_index = self.envelope_index - 1;
            }
        }
    }

    pub open spec fn flag_selected_post(pre: &App, post: &App, flag: Seq<char>) -> bool {
        &&& post.envelopes@.len() == pre.envelopes@.len()
        &&& forall|i: int|
            0 <= i < pre.envelopes@.len() && i != pre.envelope_index
                ==> post.envelopes@[i] == pre.envelopes@[i]
        &&& pre.envelope_index < pre.envelopes@.len() ==> {
            let before = pre.envelopes@[pre.envelope_index as int];
            let after = post.envelopes@[pre.envelope_index as int];
            &&& after.flag_set() == before.flag_set().insert(flag)
            &&& (before.flags_distinct() ==> after.flags_distinct())
            &&& after.id == before.id
            &&& after.date == before.date
            &&& after.from == before.from
            &&& after.subject == before.subject
        }
        &&& post.envelope_index == pre.envelope_index
        &&& post.running == pre.running
        &&& post.active_panel == pre.active_panel
        &&& post.mailboxes == pre.mailboxes
        &&& post.mailbox_index == pre.mailbox_index
        &&& post.selected_mailbox == pre.selected_mailbox
        &&& post.same_account(pre)
        &&& post.same_bottom(pre)
        &&& post.same_dialog(pre)
        &&& post.status_message == pre.status_message
    }

    /// Sets a flag on the envelope under the cursor, if any.
    pub fn flag_selected_envelope(&mut self, flag: &str)
        ensures
            App::flag_selected_post(old(self), final(self), flag@),
    {
        if self.envelope_index < self.envelopes.len() {
            let index = self.envelope_index;
            let mut envelope = self.envelopes.remove(index);
            envelope.add_flag(flag);
            self.envelopes.insert(index, envelope);
            proof {
                assert forall|i: int|
                    0 <= i < old(self).envelopes@.len() && i != index implies self.envelopes@[i]
                    == old(self).envelopes@[i] by {
                    if i < index {
                    } else {
                    }
                }
            }
        }
    }

    pub open spec fn unflag_selected_post(pre: &App, post: &App, flag: Seq<char>) -> bool {
        &&& post.envelopes@.len() == pre.envelopes@.len()
        &&& forall|i: int|
            0 <= i < pre.envelopes@.len() && i != pre.envelope_index
                ==> post.envelopes@[i] == pre.envelopes@[i]
        &&& pre.envelope_index < pre.envelopes@.len() ==> {
            let before = pre.envelopes@[pre.envelope_index as int];
            let after = post.envelopes@[pre.envelope_index as int];
            &&& after.flag_set() == before.flag_set().remove(flag)
            &&& (before.flags_distinct() ==> after.flags_distinct())
            &&& after.id == before.id
            &&& after.date == before.date
            &&& after.from == before.from
            &&& after.subject == before.subject
        }
        &&& post.envelope_index == pre.envelope_index
        &&& post.running == pre.running
        &&& post.active_panel == pre.active_panel
        &&& post.mailboxes == pre.mailboxes
        &&& post.mailbox_index == pre.mailbox_index
        &&& post.selected_mailbox == pre.selected_mailbox
        &&& post.same_account(pre)
        &&& post.same_bottom(pre)
        &&& post.same_dialog(pre)
        &&& post.status_message == pre.status_message
    }

    /// Clears a flag on the envelope under the cursor, if any.
    pub fn unflag_selected_envelope(&mut self, flag: &str)
        ensures
            App::unflag_selected_post(old(self), final(self), flag@),
    {
        if self.envelope_index < self.envelopes.len() {
            let index = self.envelope_index;
            let mut envelope = self.envelopes.remove(index);
            envelope.remove_flag(flag);
            self.envelopes.insert(index, envelope);
            proof {
                assert forall|i: int|
                    0 <= i < old(self).envelopes@.len() && i != index implies self.envelopes@[i]
                    == old(self).envelopes@[i] by {
                    if i < index {
                    } else {
                    }
                }
            }
        }
    }

    pub open spec fn open_dialog_post(pre: &App, post: &App, dialog: Dialog) -> bool {
        &&& post.dialog == Some(dialog)
        &&& post.dialog_index == 0
        &&& post.running == pre.running
        &&& post.active_panel == pre.active_panel
        &&& post.same_lists(pre)
        &&& post.same_account(pre)
        &&& post.same_bottom(pre)
        &&& post.status_message == pre.status_message
    }

    /// Opens a dialog, with its first entry under the cursor.
    pub fn open_dialog(&mut self, dialog: Dialog)
        ensures
            App::open_dialog_post(old(self), final(self), dialog),
    {
        self.dialog = Some(dialog);
        self.dialog_index = 0;
    }

    pub open spec fn close_dialog_post(pre: &App, post: &App) -> bool {
        &&& post.dialog is None
        &&& post.dialog_index == pre.dialog_index
        &&& post.running == pre.running
        &&& post.active_panel == pre.active_panel
        &&& post.same_lists(pre)
        &&& post.same_account(pre)
        &&& post.same_bottom(pre)
        &&& post.status_message == pre.status_message
    }

    pub fn close_dialog(&mut self)
        ensures
            App::close_dialog_post(old(self), final(self)),
    {
        self.dialog = None;
    }

    /// The number of entries the open dialog lists.
    pub fn dialog_item_count(&self) -> (count: usize)
        ensures
            count == self.dialog_count(),
    {
        match self.dialog {
            Some(Dialog::Envelope) => ENVELOPE_ACTION_COUNT,
            Some(Dialog::Compose) => COMPOSE_ACTION_COUNT,
            Some(Dialog::CopyTo) | Some(Dialog::MoveTo) => self.mailboxes.len(),
            Some(Dialog::FlagAdd) | Some(Dialog::FlagRemove) => FLAG_ACTION_COUNT,
            None => 0,
        }
    }

    pub open spec fn dialog_next_post(pre: &App, post: &App) -> bool {
        &&& post.dialog_index == cycle_next(
                    pre.dialog_index as int,
                    pre.dialog_count() as int,
                )
        &&& post.dialog == pre.dialog
        &&& post.running == pre.running
        &&& post.active_panel == pre.active_panel
        &&& post.same_lists(pre)
        &&& post.same_account(pre)
        &&& post.same_bottom(pre)
        &&& post.status_message == pre.status_message
    }

    /// Moves down in the dialog, wrapping around.
    pub fn dialog_next(&mut self)
        requires
            old(self).dialog_index < usize::MAX,
        ensures
            App::dialog_next_post(old(self), final(self)),
    {
        let count = self.dialog_item_count();
        if count > 0 {
            self.dialog_index = (self.dialog_index + 1) % count;
        }
    }

    pub open spec fn dialog_previous_post(pre: &App, post: &App) -> bool {
        &&& post.dialog_index == cycle_prev(
                    pre.dialog_index as int,
                    pre.dialog_count() as int,
                )
        &&& post.dialog == pre.dialog
        &&& post.running == pre.running
        &&& post.active_panel == pre.active_panel
        &&& post.same_lists(pre)
        &&& post.same_account(pre)
        &&& post.same_bottom(pre)
        &&& post.status_message == pre.status_message
    }

    /// Moves up in the dialog, wrapping around.
    pub fn dialog_previous(&mut self)
        ensures
            App::dialog_previous_post(old(self), final(self)),
    {
        let count = self.dialog_item_count();
        if count > 0 {
            self.dialog_index = if self.dialog_index > 0 {
                self.dialog_index - 1
            } else {
                count - 1
            };
        }
    }

    /// The envelope action under the dialog's cursor.
    pub fn get_selected_envelope_action(&self) -> (action: EnvelopeAction)
        requires
            self.dialog_index < ENVELOPE_ACTION_COUNT,
        ensures
            action == EnvelopeAction::nth(self.dialog_index as int),
    {
        EnvelopeAction::at(self.dialog_index)
    }

    /// The flag under the dialog's cursor.
    pub fn get_selected_flag_action(&self) -> (action: FlagAction)
        requires
            self.dialog_index < FLAG_ACTION_COUNT,
        ensures
            action == FlagAction::nth(self.dialog_index as int),
    {
        FlagAction::at(self.dialog_index)
    }

    /// The compose action under the dialog's cursor.
    pub fn get_selected_compose_action(&self) -> (action: ComposeAction)
        requires
            self.dialog_index < COMPOSE_ACTION_COUNT,
        ensures
            action == ComposeAction::nth(self.dialog_index as int),
    {
        ComposeAction::at(self.dialog_index)
    }
}

} // verus!
