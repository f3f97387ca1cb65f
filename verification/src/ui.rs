//! What the panels show: the text of their cells and titles and how their
//! rows are highlighted. Drawing them is left to the terminal front end.

use vstd::prelude::*;

use crate::app::{App, Envelope, Panel};

verus! {

/// A text cut to at most `max_len` characters: kept whole when it fits,
/// else its first `max_len - 3` characters followed by `...`.
pub open spec fn truncated(s: Seq<char>, max_len: nat) -> Seq<char> {
    if s.len() <= max_len {
        s
    } else {
        s.subrange(0, max_len - 3) + "..."@
    }
}

/// Cuts a text to `max_len` characters, marking the cut with `...`. A text
/// that does not fit needs room for the mark.
pub fn truncate(s: &str, max_len: usize) -> (t: String)
    requires
        s@.len() <= max_len || max_len >= 3,
    ensures
        t@ == truncated(s@, max_len as nat),
{
    let count = s.unicode_len();
    if count <= max_len {
        String::from_str(s)
    } else {
        let mut t = String::from_str(s.substring_char(0, max_len - 3));
        t.append("...");
        t
    }
}

/// A truncated text never exceeds its limit, and a text that fits is kept.
pub proof fn law_truncate_fits(s: Seq<char>, max_len: nat)
    requires
        s.len() <= max_len || max_len >= 3,
    ensures
        truncated(s, max_len).len() <= max_len,
        s.len() <= max_len ==> truncated(s, max_len) == s,
        s.len() > max_len ==> truncated(s, max_len).subrange(0, max_len - 3) == s.subrange(
            0,
            max_len - 3,
        ),
{
    reveal_strlit("...");
    if s.len() > max_len {
        assert(truncated(s, max_len).subrange(0, max_len - 3) =~= s.subrange(0, max_len - 3));
    }
}

/// The system flags the envelope list marks.
#[derive(Debug, Clone, Copy, PartialEq, Eq, Structural)]
pub enum SystemFlag {
    Seen,
    Answered,
    Flagged,
    Draft,
}

impl SystemFlag {
    /// The IMAP spelling of the flag.
    pub open spec fn imap_name(self) -> Seq<char> {
        match self {
            SystemFlag::Seen => "\\Seen"@,
            SystemFlag::Answered => "\\Answered"@,
            SystemFlag::Flagged => "\\Flagged"@,
            SystemFlag::Draft => "\\Draft"@,
        }
    }

    /// The JMAP keyword of the flag.
    pub open spec fn jmap_name(self) -> Seq<char> {
        match self {
            SystemFlag::Seen => "$seen"@,
            SystemFlag::Answered => "$answered"@,
            SystemFlag::Flagged => "$flagged"@,
            SystemFlag::Draft => "$draft"@,
        }
    }

    fn names(self) -> (names: (&'static str, &'static str))
        ensures
            names.0@ == self.imap_name(),
            names.1@ == self.jmap_name(),
    {
        match self {
            SystemFlag::Seen => ("\\Seen", "$seen"),
            SystemFlag::Answered => ("\\Answered", "$answered"),
            SystemFlag::Flagged => ("\\Flagged", "$flagged"),
            SystemFlag::Draft => ("\\Draft", "$draft"),
        }
    }
}

/// An envelope carries a system flag under either spelling.
pub open spec fn has_system_flag(envelope: Envelope, flag: SystemFlag) -> bool {
    envelope.flag_set().contains(flag.imap_name()) || envelope.flag_set().contains(flag.jmap_name())
}

pub fn envelope_has(envelope: &Envelope, flag: SystemFlag) -> (found: bool)
    ensures
        found == has_system_flag(*envelope, flag),
{
    let (imap, jmap) = flag.names();
    envelope.has_flag(imap) || envelope.has_flag(jmap)
}

/// The flags column: unread `*`, answered `↩`, flagged `!`, draft `D`, a
/// blank where the flag is not set.
pub open spec fn flags_column(envelope: Envelope) -> Seq<char> {
    (if has_system_flag(envelope, SystemFlag::Seen) {
        " "@
    } else {
        "*"@
    }) + (if has_system_flag(envelope, SystemFlag::Answered) {
        "↩"@
    } else {
        " "@
    }) + (if has_system_flag(envelope, SystemFlag::Flagged) {
        "!"@
    } else {
        " "@
    }) + (if has_system_flag(envelope, SystemFlag::Draft) {
        "D"@
    } else {
        " "@
    })
}

pub fn format_flags(envelope: &Envelope) -> (s: String)
    ensures
        s@ == flags_column(*envelope),
{
    let mut s = String::new();
    s.append(if envelope_has(envelope, SystemFlag::Seen) { " " } else { "*" });
    s.append(if envelope_has(envelope, SystemFlag::Answered) { "↩" } else { " " });
    s.append(if envelope_has(envelope, SystemFlag::Flagged) { "!" } else { " " });
    s.append(if envelope_has(envelope, SystemFlag::Draft) { "D" } else { " " });
    s
}

/// The flags column is always four characters wide.
pub proof fn law_flags_column_width(envelope: Envelope)
    ensures
        flags_column(envelope).len() == 4,
{
    reveal_strlit(" ");
    reveal_strlit("*");
    reveal_strlit("↩");
    reveal_strlit("!");
    reveal_strlit("D");
}

/// Each column of the flags column marks one system flag, set under either
/// its IMAP spelling or its JMAP keyword: the first is `*` exactly when the
/// message is unread, the second `↩` exactly when it is answered, the third
/// `!` exactly when it is flagged, the fourth `D` exactly when it is a
/// draft; a column without its mark is blank.
pub proof fn law_flags_column_marks(envelope: Envelope)
    ensures
        ({
            let col = flags_column(envelope);
            let set = envelope.flag_set();
            &&& col.len() == 4
            &&& (col[0] == '*' <==> !(set.contains("\\Seen"@) || set.contains("$seen"@)))
            &&& (col[0] == '*' || col[0] == ' ')
            &&& (col[1] == '↩' <==> (set.contains("\\Answered"@) || set.contains("$answered"@)))
            &&& (col[1] == '↩' || col[1] == ' ')
            &&& (col[2] == '!' <==> (set.contains("\\Flagged"@) || set.contains("$flagged"@)))
            &&& (col[2] == '!' || col[2] == ' ')
            &&& (col[3] == 'D' <==> (set.contains("\\Draft"@) || set.contains("$draft"@)))
            &&& (col[3] == 'D' || col[3] == ' ')
        }),
{
    reveal_strlit(" ");
    reveal_strlit("*");
    reveal_strlit("↩");
    reveal_strlit("!");
    reveal_strlit("D");
}

/// How a row of a list is drawn.
#[derive(Debug, Clone, Copy, PartialEq, Eq, Structural)]
pub enum RowStyle {
    /// Under the cursor of the focused list.
    Highlighted,
    /// An envelope already read, or the opened mailbox.
    Dimmed,
    /// An envelope not read yet.
    Bold,
    Plain,
}

pub open spec fn envelope_row(app: &App, index: int) -> RowStyle {
    if index == app.envelope_index && app.active_panel == Panel::Envelopes {
        RowStyle::Highlighted
    } else if has_system_flag(app.envelopes@[index], SystemFlag::Seen) {
        RowStyle::Dimmed
    } else {
        RowStyle::Bold
    }
}

/// How the envelope at `index` is drawn.
pub fn envelope_row_style(app: &App, index: usize) -> (style: RowStyle)
    requires
        index < app.envelopes@.len(),
    ensures
        style == envelope_row(app, index as int),
{
    if index == app.envelope_index && app.active_panel == Panel::Envelopes {
        RowStyle::Highlighted
    } else if envelope_has(&app.envelopes[index], SystemFlag::Seen) {
        RowStyle::Dimmed
    } else {
        RowStyle::Bold
    }
}

pub open spec fn mailbox_row(app: &App, index: int) -> RowStyle {
    if index == app.mailbox_index && app.active_panel == Panel::Mailboxes {
        RowStyle::Highlighted
    } else if app.selected_mailbox matches Some(m) && m@ == app.mailboxes@[index].name@ {
        RowStyle::Dimmed
    } else {
        RowStyle::Plain
    }
}

/// How the mailbox at `index` is drawn: the opened one stands out.
pub fn mailbox_row_style(app: &App, index: usize) -> (style: RowStyle)
    requires
        index < app.mailboxes@.len(),
    ensures
        style == mailbox_row(app, index as int),
{
    if index == app.mailbox_index && app.active_panel == Panel::Mailboxes {
        RowStyle::Highlighted
    } else {
        match &app.selected_mailbox {
            Some(m) => if *m == app.mailboxes[index].name {
                RowStyle::Dimmed
            } else {
                RowStyle::Plain
            },
            None => RowStyle::Plain,
        }
    }
}

/// At most one row of a list is highlighted: the one under the cursor.
pub proof fn law_single_highlight(app: &App, i: int, j: int)
    requires
        0 <= i < app.envelopes@.len(),
        0 <= j < app.envelopes@.len(),
        envelope_row(app, i) == RowStyle::Highlighted,
        envelope_row(app, j) == RowStyle::Highlighted,
    ensures
        i == j,
        i == app.envelope_index,
{
}

pub open spec fn envelopes_title_text(app: &App) -> Seq<char> {
    match app.selected_mailbox {
        Some(m) => " Envelopes - "@ + m@ + " "@,
        None => " Envelopes "@,
    }
}

/// The title of the envelope panel, naming the opened mailbox.
pub fn envelopes_title(app: &App) -> (title: String)
    ensures
        title@ == envelopes_title_text(app),
{
    match &app.selected_mailbox {
        Some(m) => {
            let mut t = String::from_str(" Envelopes - ");
            t.append(m.as_str());
            t.append(" ");
            t
        },
        None => String::from_str(" Envelopes "),
    }
}

/// A secret as the form shows it: one bullet per character.
pub fn masked(secret: &str) -> (shown: String)
    ensures
        shown@ == Seq::new(secret@.len(), |i: int| '•'),
{
    let count = secret.unicode_len();
    let mut shown = String::new();
    let mut i: usize = 0;
    proof {
        reveal_strlit("•");
    }
    while i < count
        invariant
            i <= count,
            count == secret@.len(),
            shown@ == Seq::new(i as nat, |k: int| '•'),
        decreases count - i,
    {
        proof {
            reveal_strlit("•");
        }
        shown.append("•");
        i = i + 1;
        assert(shown@ =~= Seq::new(i as nat, |k: int| '•'));
    }
    shown
}

/// The text of a form field: the focused one shows a block cursor at its end.
pub fn field_display(value: &str, active: bool) -> (shown: String)
    ensures
        shown@ == (if active {
            value@ + "█"@
        } else {
            value@
        }),
{
    let mut shown = String::from_str(value);
    if active {
        shown.append("█");
    }
    shown
}

/// The left edge and the width of a box of `width` columns centred in an
/// area that starts at column `x` and is `area_width` columns wide.
pub fn centered_span(x: u16, area_width: u16, width: u16) -> (span: (u16, u16))
    requires
        area_width >= width ==> x + (area_width - width) / 2 <= u16::MAX,
    ensures
        span.0 == x + (if area_width >= width {
            (area_width - width) / 2
        } else {
            0
        }),
        span.1 == (if width <= area_width {
            width
        } else {
            area_width
        }),
{
    let left = x + area_width.saturating_sub(width) / 2;
    let actual = if width <= area_width {
        width
    } else {
        area_width
    };
    (left, actual)
}

// ---------------------------------------------------------------------------
// The envelope table

/// The column headers of the envelope table.
pub const ENVELOPE_HEADER: [&'static str; 4] = ["Flags", "Subject", "From", "Date"];

/// One row of the envelope table: its cells (flags, subject, sender,
/// date) and whether it is the highlighted row.
pub struct EnvelopeRow {
    pub cells: Vec<String>,
    pub style: RowStyle,
}

/// The cells of an envelope's row: its flags column, its subject, its
/// sender cut to 20 characters and its date cut to 6.
pub open spec fn row_cells(e: Envelope) -> Seq<Seq<char>> {
    seq![flags_column(e), e.subject@, truncated(e.from@, 20), truncated(e.date@, 6)]
}

/// The rows of the envelope table: one per envelope, in list order, each
/// with its cells and its style; only the row under the cursor of the
/// focused list is highlighted.
pub fn envelope_rows(app: &App) -> (rows: Vec<EnvelopeRow>)
    ensures
        rows@.len() == app.envelopes@.len(),
        forall|i: int|
            0 <= i < rows@.len() ==> (#[trigger] rows@[i]).cells@.map_values(|c: String| c@)
                == row_cells(app.envelopes@[i]) && rows@[i].style == envelope_row(app, i),
        forall|i: int|
            0 <= i < rows@.len() ==> ((#[trigger] rows@[i]).style == RowStyle::Highlighted <==> (i
                == app.envelope_index && app.active_panel == Panel::Envelopes)),
{
    let mut rows: Vec<EnvelopeRow> = Vec::new();
    let mut i: usize = 0;
    while i < app.envelopes.len()
        invariant
            i <= app.envelopes@.len(),
            rows@.len() == i,
            forall|k: int|
                0 <= k < i ==> (#[trigger] rows@[k]).cells@.map_values(|c: String| c@) == row_cells(
                    app.envelopes@[k],
                ) && rows@[k].style == envelope_row(app, k),
        decreases app.envelopes@.len() - i,
    {
        let e = &app.envelopes[i];
        let cells = vec![
            format_flags(e),
            e.subject.clone(),
            truncate(e.from.as_str(), 20),
            truncate(e.date.as_str(), 6),
        ];
        assert(cells@.map_values(|c: String| c@) =~= row_cells(*e));
        let style = envelope_row_style(app, i);
        rows.push(EnvelopeRow { cells, style });
        i = i + 1;
    }
    rows
}

// ---------------------------------------------------------------------------
// The first-run wizard screen

/// The fields of the wizard form.
#[derive(Debug, Clone, Copy, PartialEq, Eq, Structural)]
pub enum WizardField {
    Uri,
    Username,
    Password,
}

/// What the wizard form holds.
pub struct WizardState {
    pub uri: String,
    pub username: String,
    pub password: String,
    pub active_field: WizardField,
    /// A connection with the typed settings is under way.
    pub connecting: bool,
    /// Why the last attempt failed.
    pub error: Option<String>,
}

pub const WIZARD_TITLE: &'static str = " himalaya-tui — first run ";
pub const WIZARD_DESCRIPTION: &'static str = "No configuration found. Enter your server details to connect.";
pub const WIZARD_HINT: &'static str = "Supported: imaps://user@host  imap://user@host  https://host  jmaps://host";
pub const WIZARD_KEYS: &'static str = "Tab next field   Enter connect   Esc quit";

/// One field of the form as drawn: its label, its text, and whether it has
/// the focus.
pub struct WizardLine {
    pub label: String,
    pub text: String,
    pub active: bool,
}

/// The text a field shows: its value (the password masked), with the
/// cursor mark when it has the focus.
pub open spec fn wizard_field_text(value: Seq<char>, active: bool) -> Seq<char> {
    if active {
        value + "█"@
    } else {
        value
    }
}

pub open spec fn wizard_line_ok(line: WizardLine, label: Seq<char>, value: Seq<char>, active: bool) -> bool {
    &&& line.label@ == label
    &&& line.text@ == wizard_field_text(value, active)
    &&& line.active == active
}

/// The three fields of the form, in order: URI, username, and the
/// password shown masked; exactly the active field carries the cursor.
pub fn wizard_lines(w: &WizardState) -> (lines: Vec<WizardLine>)
    ensures
        lines@.len() == 3,
        wizard_line_ok(lines@[0], "URI"@, w.uri@, w.active_field == WizardField::Uri),
        wizard_line_ok(
            lines@[1],
            "Username"@,
            w.username@,
            w.active_field == WizardField::Username,
        ),
        wizard_line_ok(
            lines@[2],
            "Password"@,
            Seq::new(w.password@.len(), |i: int| '•'),
            w.active_field == WizardField::Password,
        ),
{
    let on_uri = w.active_field == WizardField::Uri;
    let on_user = w.active_field == WizardField::Username;
    let on_password = w.active_field == WizardField::Password;
    let uri = WizardLine {
        label: String::from_str("URI"),
        text: field_display(w.uri.as_str(), on_uri),
        active: on_uri,
    };
    let user = WizardLine {
        label: String::from_str("Username"),
        text: field_display(w.username.as_str(), on_user),
        active: on_user,
    };
    let hidden = masked(w.password.as_str());
    let password = WizardLine {
        label: String::from_str("Password"),
        text: field_display(hidden.as_str(), on_password),
        active: on_password,
    };
    vec![uri, user, password]
}

/// The status line under the form.
pub enum WizardStatus {
    /// Nothing to say.
    Empty,
    /// "Connecting…", drawn as a notice.
    Connecting,
    /// The last error, drawn as an error.
    Error(String),
}

/// The status line: "Connecting…" while a connection is under way, else
/// the last error, else nothing.
pub fn wizard_status(w: &WizardState) -> (status: WizardStatus)
    ensures
        w.connecting ==> status is Connecting,
        !w.connecting ==> match w.error {
            Some(e) => status matches WizardStatus::Error(t) && t == e,
            None => status is Empty,
        },
{
    if w.connecting {
        WizardStatus::Connecting
    } else {
        match &w.error {
            Some(e) => WizardStatus::Error(e.clone()),
            None => WizardStatus::Empty,
        }
    }
}

/// The text of a status line.
pub fn wizard_status_text(status: &WizardStatus) -> (text: String)
    ensures
        text@ == match status {
            WizardStatus::Empty => Seq::<char>::empty(),
            WizardStatus::Connecting => "Connecting…"@,
            WizardStatus::Error(e) => e@,
        },
{
    match status {
        WizardStatus::Empty => String::new(),
        WizardStatus::Connecting => String::from_str("Connecting…"),
        WizardStatus::Error(e) => e.clone(),
    }
}

impl WizardState {
    /// Tab: the focus moves from the URI to the username, to the password,
    /// and back to the URI.
    pub fn next_field(&mut self)
        ensures
            final(self).active_field == match old(self).active_field {
                WizardField::Uri => WizardField::Username,
                WizardField::Username => WizardField::Password,
                WizardField::Password => WizardField::Uri,
            },
            final(self).uri == old(self).uri,
            final(self).username == old(self).username,
            final(self).password == old(self).password,
            final(self).connecting == old(self).connecting,
            final(self).error == old(self).error,
    {
        self.active_field = match self.active_field {
            WizardField::Uri => WizardField::Username,
            WizardField::Username => WizardField::Password,
            WizardField::Password => WizardField::Uri,
        };
    }
}

} // verus!
