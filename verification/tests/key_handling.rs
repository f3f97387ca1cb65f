use himalaya_tui::app::{App, BottomPanelMode, ComposeTemplate, Dialog, Envelope, FlagAction, Mailbox, Panel};
use himalaya_tui::config::{AccountConfig, ImapConfig, SaslConfig, TlsConfig};
use himalaya_tui::events::{CompileError, CompilePurpose, Effect, FetchPurpose};
use himalaya_tui::ui::{envelope_rows, RowStyle, ENVELOPE_HEADER};
use himalaya_tui::keys::{translate_key, KeyCode, KeyEvent, KeyModifiers, Keybinds};

fn new_app() -> App {
    let account = AccountConfig {
        default: true,
        imap: Some(ImapConfig {
            url: "imaps://imap.example.org".to_string(),
            tls: TlsConfig::new(),
            starttls: false,
            sasl: SaslConfig::new(),
        }),
        smtp: None,
        jmap: None,
        email: "me@example.org".to_string(),
        display_name: None,
        signature: None,
        signature_delim: None,
        downloads_dir: None,
    };
    match App::new("default".to_string(), account, None, None) {
        Ok(app) => app,
        Err(_) => panic!("account with IMAP"),
    }
}

fn mods(control: bool, alt: bool) -> KeyModifiers {
    KeyModifiers { shift: false, control, alt, other: false }
}

fn key(code: KeyCode) -> KeyEvent {
    KeyEvent { code, modifiers: KeyModifiers::none() }
}

fn envelope(id: &str) -> Envelope {
    Envelope {
        id: id.to_string(),
        date: String::new(),
        from: String::new(),
        subject: String::new(),
        flags: Vec::new(),
    }
}

fn mailbox(name: &str, id: Option<&str>) -> Mailbox {
    Mailbox { id: id.map(|s| s.to_string()), name: name.to_string(), delimiter: None, subscribed: true }
}

fn app_with_mailbox() -> App {
    let mut app = new_app();
    app.set_mailboxes(vec![mailbox("INBOX", Some("m1")), mailbox("Archive", Some("m2"))]);
    app.set_envelopes(vec![envelope("7"), envelope("8")]);
    app
}

#[test]
fn vim_aliases() {
    let kb = Some(Keybinds::Vim);
    assert_eq!(translate_key(key(KeyCode::Char('j')), kb).code, KeyCode::Down);
    assert_eq!(translate_key(key(KeyCode::Char('k')), kb).code, KeyCode::Up);
    assert_eq!(translate_key(key(KeyCode::Char('q')), kb).code, KeyCode::Esc);
    let ctrl_d = KeyEvent { code: KeyCode::Char('d'), modifiers: mods(true, false) };
    assert_eq!(translate_key(ctrl_d, kb), key(KeyCode::PageDown));
    let ctrl_u = KeyEvent { code: KeyCode::Char('u'), modifiers: mods(true, false) };
    assert_eq!(translate_key(ctrl_u, kb), key(KeyCode::PageUp));
    assert_eq!(translate_key(key(KeyCode::Char('x')), kb), key(KeyCode::Char('x')));
}

#[test]
fn emacs_aliases() {
    let kb = Some(Keybinds::Emacs);
    let ctrl = |c| KeyEvent { code: KeyCode::Char(c), modifiers: mods(true, false) };
    assert_eq!(translate_key(ctrl('n'), kb), key(KeyCode::Down));
    assert_eq!(translate_key(ctrl('p'), kb), key(KeyCode::Up));
    assert_eq!(translate_key(ctrl('v'), kb), key(KeyCode::PageDown));
    assert_eq!(translate_key(ctrl('g'), kb), key(KeyCode::Esc));
    let alt_v = KeyEvent { code: KeyCode::Char('v'), modifiers: mods(false, true) };
    assert_eq!(translate_key(alt_v, kb), key(KeyCode::PageUp));
    assert_eq!(translate_key(key(KeyCode::Char('n')), kb), key(KeyCode::Char('n')));
}

#[test]
fn without_flavor_keys_pass_through() {
    let j = key(KeyCode::Char('j'));
    assert_eq!(translate_key(j, None), j);
    let ctrl_n = KeyEvent { code: KeyCode::Char('n'), modifiers: mods(true, false) };
    assert_eq!(translate_key(ctrl_n, None), ctrl_n);
}

#[test]
fn translating_twice_is_translating_once() {
    let kb = Some(Keybinds::Vim);
    let once = translate_key(key(KeyCode::Char('j')), kb);
    assert_eq!(translate_key(once, kb), once);
}

#[test]
fn enter_on_mailbox_asks_for_envelopes() {
    let mut app = new_app();
    app.mailboxes = vec![mailbox("INBOX", None), mailbox("Sent", None)];
    app.mailbox_index = 1;
    match app.handle_key(key(KeyCode::Enter), None) {
        Effect::LoadEnvelopes { mailbox, page, page_size } => {
            assert_eq!(mailbox, "Sent");
            assert_eq!((page, page_size), (0, 50));
        }
        _ => panic!("expected an envelope load"),
    }
    assert_eq!(app.active_panel, Panel::Envelopes);
    assert_eq!(app.status_message.as_deref(), Some("Loading envelopes from Sent..."));
}

#[test]
fn reading_a_message_goes_through_the_envelope_dialog() {
    let mut app = app_with_mailbox();
    assert!(matches!(app.handle_key(key(KeyCode::Enter), None), Effect::Nothing));
    assert_eq!(app.dialog, Some(Dialog::Envelope));
    match app.handle_key(key(KeyCode::Enter), None) {
        Effect::FetchMessage { mailbox, id, purpose } => {
            assert_eq!(mailbox, "INBOX");
            assert_eq!(id, "7");
            assert_eq!(purpose, FetchPurpose::Read);
        }
        _ => panic!("expected a fetch"),
    }
    assert_eq!(app.dialog, None);
    assert_eq!(app.status_message.as_deref(), Some("Loading message 7..."));
    app.finish_read(Ok(b"Subject: hi\r\n\r\nHello there".to_vec()));
    assert_eq!(app.active_panel, Panel::Message);
    assert_eq!(app.message_content.as_deref(), Some("Hello there"));
    assert!(matches!(app.handle_key(key(KeyCode::Esc), None), Effect::Nothing));
    assert_eq!(app.active_panel, Panel::Envelopes);
}

#[test]
fn reply_all_is_the_third_action() {
    let mut app = app_with_mailbox();
    app.handle_key(key(KeyCode::Enter), None);
    app.handle_key(key(KeyCode::Down), None);
    app.handle_key(key(KeyCode::Down), None);
    match app.handle_key(key(KeyCode::Enter), None) {
        Effect::FetchMessage { purpose, .. } => assert_eq!(purpose, FetchPurpose::ReplyAll),
        _ => panic!("expected a fetch"),
    }
}

#[test]
fn moving_a_message_picks_the_target_mailbox() {
    let mut app = app_with_mailbox();
    app.handle_key(key(KeyCode::Enter), None);
    for _ in 0..5 {
        app.handle_key(key(KeyCode::Down), None);
    }
    assert!(matches!(app.handle_key(key(KeyCode::Enter), None), Effect::Nothing));
    assert_eq!(app.dialog, Some(Dialog::MoveTo));
    app.handle_key(key(KeyCode::Down), None);
    match app.handle_key(key(KeyCode::Enter), None) {
        Effect::MoveMessage { mailbox, id, target_id, target_name } => {
            assert_eq!(mailbox, "INBOX");
            assert_eq!(id, "7");
            assert_eq!(target_id.as_deref(), Some("m2"));
            assert_eq!(target_name, "Archive");
        }
        _ => panic!("expected a move"),
    }
    assert_eq!(app.status_message.as_deref(), Some("Moving to Archive..."));
    app.finish_move(Ok(()));
    assert_eq!(app.envelopes.len(), 1);
    assert_eq!(app.envelopes[0].id, "8");
    assert_eq!(app.status_message.as_deref(), Some("Moved"));
}

#[test]
fn copying_reports_failures() {
    let mut app = app_with_mailbox();
    app.open_dialog(Dialog::CopyTo);
    match app.handle_key(key(KeyCode::Enter), None) {
        Effect::CopyMessage { target_name, .. } => assert_eq!(target_name, "INBOX"),
        _ => panic!("expected a copy"),
    }
    assert_eq!(app.status_message.as_deref(), Some("Copying to INBOX..."));
    app.finish_copy(Err("denied".to_string()));
    assert_eq!(app.status_message.as_deref(), Some("Error: denied"));
    app.finish_copy(Ok(()));
    assert_eq!(app.status_message.as_deref(), Some("Copied"));
}

#[test]
fn flags_are_added_and_removed_through_their_dialogs() {
    let mut app = app_with_mailbox();
    app.open_dialog(Dialog::Envelope);
    for _ in 0..6 {
        app.handle_key(key(KeyCode::Down), None);
    }
    assert!(matches!(app.handle_key(key(KeyCode::Enter), None), Effect::Nothing));
    assert_eq!(app.dialog, Some(Dialog::FlagAdd));
    app.handle_key(key(KeyCode::Down), None);
    app.handle_key(key(KeyCode::Down), None);
    match app.handle_key(key(KeyCode::Enter), None) {
        Effect::UpdateFlag { mailbox, id, action, add } => {
            assert_eq!(mailbox, "INBOX");
            assert_eq!(id, "7");
            assert_eq!(action, FlagAction::Flagged);
            assert!(add);
        }
        _ => panic!("expected a flag update"),
    }
    assert_eq!(app.status_message.as_deref(), Some("Adding flag Flagged..."));
    app.finish_update_flag(FlagAction::Flagged, true, Ok(()));
    assert_eq!(app.envelopes[0].flags, vec!["\\Flagged".to_string()]);
    assert_eq!(app.status_message.as_deref(), Some("Flag Flagged added"));

    app.open_dialog(Dialog::FlagRemove);
    app.handle_key(key(KeyCode::Down), None);
    app.handle_key(key(KeyCode::Down), None);
    assert!(matches!(
        app.handle_key(key(KeyCode::Enter), None),
        Effect::UpdateFlag { action: FlagAction::Flagged, add: false, .. }
    ));
    assert_eq!(app.status_message.as_deref(), Some("Removing flag Flagged..."));
    app.finish_update_flag(FlagAction::Flagged, false, Err("no".to_string()));
    assert_eq!(app.envelopes[0].flags, vec!["\\Flagged".to_string()]);
    assert_eq!(app.status_message.as_deref(), Some("Error: no"));
    app.finish_update_flag(FlagAction::Flagged, false, Ok(()));
    assert!(app.envelopes[0].flags.is_empty());
    assert_eq!(app.status_message.as_deref(), Some("Flag Flagged removed"));
}

#[test]
fn ctrl_c_asks_for_a_new_draft_and_esc_in_composer_opens_dialog() {
    let mut app = app_with_mailbox();
    let ctrl_c = KeyEvent { code: KeyCode::Char('c'), modifiers: mods(true, false) };
    assert!(matches!(app.handle_key(ctrl_c, None), Effect::NewDraft));
    app.start_compose(Ok(ComposeTemplate { content: "To: x@y\n\nBody".to_string(), cursor_row: 1, cursor_col: 4 }));
    assert!(matches!(app.handle_key(key(KeyCode::Char('a')), Some(Keybinds::Vim)), Effect::EditorInput));
    assert!(matches!(app.handle_key(key(KeyCode::Char('q')), Some(Keybinds::Vim)), Effect::EditorInput));
    let alt_e = KeyEvent { code: KeyCode::Char('e'), modifiers: mods(false, true) };
    assert!(matches!(app.handle_key(alt_e, None), Effect::OpenSystemEditor));
    assert!(matches!(app.handle_key(key(KeyCode::Esc), None), Effect::Nothing));
    assert_eq!(app.dialog, Some(Dialog::Compose));
    match app.handle_key(key(KeyCode::Enter), None) {
        Effect::CompileDraft { content, purpose } => {
            assert_eq!(content, "To: x@y\n\nBody");
            assert_eq!(purpose, CompilePurpose::Send);
        }
        _ => panic!("expected a compile"),
    }
    assert_eq!(app.status_message.as_deref(), Some("Compiling message..."));
}

#[test]
fn saving_a_draft_builds_a_plain_message() {
    let mut app = app_with_mailbox();
    app.start_compose(Ok(ComposeTemplate { content: "Notes".to_string(), cursor_row: 1, cursor_col: 0 }));
    app.open_dialog(Dialog::Compose);
    app.handle_key(key(KeyCode::Down), None);
    app.handle_key(key(KeyCode::Down), None);
    match app.handle_key(key(KeyCode::Enter), None) {
        Effect::SaveDraft { raw } => assert_eq!(
            raw,
            b"From: \r\nTo: \r\nSubject: Draft\r\nContent-Type: text/plain; charset=utf-8\r\n\r\nNotes".to_vec()
        ),
        _ => panic!("expected a draft"),
    }
    assert_eq!(app.status_message.as_deref(), Some("Saving to Drafts..."));
    app.finish_save_draft(Ok(()));
    assert_eq!(app.status_message.as_deref(), Some("Saved to Drafts"));
    assert_eq!(app.bottom_panel_mode, BottomPanelMode::Closed);
}

#[test]
fn compiled_draft_is_routed_by_its_headers() {
    let mut app = app_with_mailbox();
    let raw = b"From: Me <me@example.org>\r\nTo: a@example.org, b@example.org\r\nCc: a@example.org\r\nSubject: x\r\n\r\nbody".to_vec();
    match app.finish_compile_for_send(Ok(raw.clone())) {
        Some(sub) => {
            assert_eq!(sub.raw, raw);
            assert_eq!(sub.from, "me@example.org");
            assert_eq!(sub.to, vec!["a@example.org".to_string(), "b@example.org".to_string()]);
        }
        None => panic!("expected a submission"),
    }
    assert_eq!(app.status_message.as_deref(), Some("Sending message..."));
    app.finish_send(Ok(()));
    assert_eq!(app.status_message.as_deref(), Some("Message sent"));
}

#[test]
fn compile_failures_are_reported() {
    let mut app = app_with_mailbox();
    assert!(app.finish_compile_for_send(Err(CompileError::Parse("oops".to_string()))).is_none());
    assert_eq!(app.status_message.as_deref(), Some("Parse error: oops"));
    app.finish_preview(Err(CompileError::Compile("bad".to_string())));
    assert_eq!(app.status_message.as_deref(), Some("Compile error: bad"));
    let no_rcpt = b"From: me@example.org\r\nSubject: x\r\n\r\nbody".to_vec();
    assert!(app.finish_compile_for_send(Ok(no_rcpt)).is_none());
    assert_eq!(
        app.status_message.as_deref(),
        Some("Send error: The message does not contain any recipient")
    );
    app.finish_send(Err("smtp down".to_string()));
    assert_eq!(app.status_message.as_deref(), Some("Send error: smtp down"));
}

#[test]
fn preview_shows_the_compiled_message() {
    let mut app = app_with_mailbox();
    app.start_compose(Ok(ComposeTemplate { content: "x".to_string(), cursor_row: 1, cursor_col: 0 }));
    app.open_dialog(Dialog::Compose);
    app.handle_key(key(KeyCode::Down), None);
    match app.handle_key(key(KeyCode::Enter), None) {
        Effect::CompileDraft { purpose, .. } => assert_eq!(purpose, CompilePurpose::Preview),
        _ => panic!("expected a compile"),
    }
    app.finish_preview(Ok("MIME-Version: 1.0".to_string()));
    assert!(app.previewing_compose);
    assert_eq!(app.dialog, None);
    assert!(matches!(app.handle_key(key(KeyCode::Esc), None), Effect::Nothing));
    assert_eq!(app.active_panel, Panel::Compose);
    assert_eq!(app.get_compose_content(), "x");
}

#[test]
fn esc_from_mailboxes_quits() {
    let mut app = new_app();
    app.handle_key(key(KeyCode::Esc), None);
    assert!(!app.running);
}

#[test]
fn loading_results_update_the_lists() {
    let mut app = new_app();
    match app.finish_load_mailboxes(Ok(vec![mailbox("INBOX", None)])) {
        Effect::LoadEnvelopes { mailbox, page: 0, .. } => assert_eq!(mailbox, "INBOX"),
        _ => panic!("expected an envelope load"),
    }
    app.finish_load_envelopes(Ok(vec![envelope("1")]));
    assert_eq!(app.envelopes.len(), 1);
    app.finish_load_envelopes(Err("timeout".to_string()));
    assert_eq!(app.status_message.as_deref(), Some("Error: timeout"));
    let mut other = new_app();
    assert!(matches!(other.finish_load_mailboxes(Err("refused".to_string())), Effect::Nothing));
    assert_eq!(other.status_message.as_deref(), Some("Error: refused"));
}

#[test]
fn unreadable_fetch_is_reported() {
    let mut app = app_with_mailbox();
    app.finish_read(Err("gone".to_string()));
    assert_eq!(app.status_message.as_deref(), Some("Error: gone"));
}

#[test]
fn paging_loads_the_next_and_previous_pages() {
    let mut app = app_with_mailbox();
    app.envelope_page_size = 2;
    assert!(matches!(app.handle_key(key(KeyCode::PageUp), None), Effect::Nothing));
    match app.handle_key(key(KeyCode::PageDown), None) {
        Effect::LoadEnvelopes { mailbox, page, page_size } => {
            assert_eq!((mailbox.as_str(), page, page_size), ("INBOX", 1, 2));
        }
        _ => panic!("a full page has a next page"),
    }
    app.finish_load_envelopes(Ok(vec![envelope("9")]));
    assert!(matches!(app.handle_key(key(KeyCode::PageDown), None), Effect::Nothing));
    assert_eq!(app.envelope_page, 1);
    let ctrl_u = KeyEvent { code: KeyCode::Char('u'), modifiers: mods(true, false) };
    match app.handle_key(ctrl_u, Some(Keybinds::Vim)) {
        Effect::LoadEnvelopes { page: 0, .. } => {}
        _ => panic!("Ctrl-u goes back a page"),
    }
    app.active_panel = Panel::Mailboxes;
    assert!(matches!(app.handle_key(key(KeyCode::PageUp), None), Effect::Nothing));
}

#[test]
fn envelope_table_rows() {
    let mut app = app_with_mailbox();
    app.envelopes[1].flags.push("\\Seen".to_string());
    app.envelopes[0].from = "A very long sender name indeed".to_string();
    app.envelopes[0].date = "2025-01-02".to_string();
    let rows = envelope_rows(&app);
    assert_eq!(ENVELOPE_HEADER, ["Flags", "Subject", "From", "Date"]);
    assert_eq!(rows.len(), 2);
    assert_eq!(rows[0].cells[1], app.envelopes[0].subject);
    assert_eq!(rows[0].cells[2], "A very long sende...");
    assert_eq!(rows[0].cells[3], "202...");
    assert_eq!(rows[0].cells[0], "*   ");
    assert_eq!(rows[1].cells[0], "    ");
    assert_eq!(rows[0].style, RowStyle::Highlighted);
    assert_eq!(rows[1].style, RowStyle::Dimmed);
    app.active_panel = Panel::Mailboxes;
    assert_eq!(envelope_rows(&app)[0].style, RowStyle::Bold);
}
