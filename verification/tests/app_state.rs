use himalaya_tui::app::{
    App, AppError, BottomPanelMode, ComposeAction, ComposeTemplate, Dialog, Envelope,
    EnvelopeAction, FlagAction, Mailbox, Panel,
};
use himalaya_tui::config::{AccountConfig, ImapConfig, SaslConfig, TlsConfig};

fn imap() -> ImapConfig {
    ImapConfig {
        url: "imaps://imap.example.org".to_string(),
        tls: TlsConfig::new(),
        starttls: false,
        sasl: SaslConfig::new(),
    }
}

fn account(with_imap: bool) -> AccountConfig {
    AccountConfig {
        default: true,
        imap: if with_imap { Some(imap()) } else { None },
        smtp: None,
        jmap: None,
        email: "me@example.org".to_string(),
        display_name: None,
        signature: Some("-- me".to_string()),
        signature_delim: None,
        downloads_dir: None,
    }
}

fn new_app() -> App {
    match App::new("work".to_string(), account(true), Some("Me".to_string()), Some("global".to_string())) {
        Ok(app) => app,
        Err(_) => panic!("an account with IMAP is accepted"),
    }
}

fn mailbox(name: &str) -> Mailbox {
    Mailbox { id: None, name: name.to_string(), delimiter: Some('/'), subscribed: true }
}

fn envelope(id: &str, flags: &[&str]) -> Envelope {
    Envelope {
        id: id.to_string(),
        date: "2025-01-01".to_string(),
        from: "Alice".to_string(),
        subject: format!("Subject {id}"),
        flags: flags.iter().map(|f| f.to_string()).collect(),
    }
}

#[test]
fn labels_of_actions() {
    assert_eq!(EnvelopeAction::Read.label(), "Read");
    assert_eq!(EnvelopeAction::ReplyAll.label(), "Reply All");
    let labels: Vec<&str> = (0..8).map(|i| EnvelopeAction::at(i).label()).collect();
    assert_eq!(
        labels,
        vec!["Read", "Reply", "Reply All", "Forward", "Copy", "Move", "Add flag", "Remove flag"]
    );
    let flags: Vec<(&str, &str)> = (0..5).map(|i| (FlagAction::at(i).label(), FlagAction::at(i).flag())).collect();
    assert_eq!(
        flags,
        vec![
            ("Seen", "\\Seen"),
            ("Answered", "\\Answered"),
            ("Flagged", "\\Flagged"),
            ("Draft", "\\Draft"),
            ("Deleted", "\\Deleted"),
        ]
    );
    assert_eq!(ComposeAction::SaveToDrafts.label(), "Save to Drafts");
    assert_eq!(ComposeAction::Cancel.label(), "Cancel");
    assert_eq!(EnvelopeAction::at(4), EnvelopeAction::Copy);
    assert_eq!(ComposeAction::at(1), ComposeAction::Preview);
}

#[test]
fn new_app_takes_account_then_global_settings() {
    let app = new_app();
    assert!(app.running);
    assert_eq!(app.active_panel, Panel::Mailboxes);
    assert_eq!(app.display_name, "Me");
    assert_eq!(app.signature, "-- me");
    assert_eq!(app.status_message.as_deref(), Some("Loading mailboxes..."));
    assert_eq!(app.get_compose_content(), "");
}

#[test]
fn new_app_without_imap_is_refused() {
    match App::new("work".to_string(), account(false), None, None) {
        Err(err) => {
            assert_eq!(err, AppError::MissingImap);
            assert_eq!(err.message(), "IMAP config is missing for this account");
        }
        Ok(_) => panic!("an account without IMAP must be refused"),
    }
}

#[test]
fn set_mailboxes_opens_the_first_one() {
    let mut app = new_app();
    app.set_mailboxes(vec![mailbox("INBOX"), mailbox("Sent")]);
    assert_eq!(app.selected_mailbox.as_deref(), Some("INBOX"));
    assert_eq!(app.active_panel, Panel::Envelopes);
    assert_eq!(app.status_message, None);
}

#[test]
fn select_mailbox_reports_loading() {
    let mut app = new_app();
    app.mailboxes = vec![mailbox("INBOX"), mailbox("Archive")];
    app.mailbox_index = 1;
    app.select_mailbox();
    assert_eq!(app.selected_mailbox.as_deref(), Some("Archive"));
    assert_eq!(app.status_message.as_deref(), Some("Loading envelopes from Archive..."));
}

#[test]
fn next_and_previous_wrap_around() {
    let mut app = new_app();
    app.mailboxes = vec![mailbox("A"), mailbox("B"), mailbox("C")];
    app.previous_item();
    assert_eq!(app.mailbox_index, 2);
    app.next_item();
    assert_eq!(app.mailbox_index, 0);
    app.next_item();
    app.previous_item();
    assert_eq!(app.mailbox_index, 0);
}

#[test]
fn message_scroll_saturates() {
    let mut app = new_app();
    app.show_message("body".to_string());
    app.previous_item();
    assert_eq!(app.message_scroll, 0);
    app.message_scroll = u16::MAX;
    app.next_item();
    assert_eq!(app.message_scroll, u16::MAX);
}

#[test]
fn toggle_panel_cycles_through_open_panels() {
    let mut app = new_app();
    app.toggle_panel();
    assert_eq!(app.active_panel, Panel::Envelopes);
    app.toggle_panel();
    assert_eq!(app.active_panel, Panel::Mailboxes);
    app.show_message("x".to_string());
    app.active_panel = Panel::Mailboxes;
    app.toggle_panel();
    app.toggle_panel();
    assert_eq!(app.active_panel, Panel::Message);
    app.toggle_panel();
    assert_eq!(app.active_panel, Panel::Mailboxes);
}

#[test]
fn close_current_from_each_panel() {
    let mut app = new_app();
    assert!(!app.close_current());
    app.set_mailboxes(vec![mailbox("INBOX")]);
    app.set_envelopes(vec![envelope("1", &[])]);
    app.show_message("hello".to_string());
    assert!(app.close_current());
    assert_eq!(app.active_panel, Panel::Envelopes);
    assert_eq!(app.bottom_panel_mode, BottomPanelMode::Closed);
    assert!(app.close_current());
    assert_eq!(app.active_panel, Panel::Mailboxes);
    assert_eq!(app.selected_mailbox, None);
    assert!(app.envelopes.is_empty());
}

#[test]
fn preview_then_close_returns_to_the_draft() {
    let mut app = new_app();
    app.start_compose(Ok(ComposeTemplate {
        content: "To: bob@example.org\nSubject: hi\n\nHello".to_string(),
        cursor_row: 2,
        cursor_col: 9,
    }));
    assert_eq!(app.active_panel, Panel::Compose);
    app.preview_compose("MIME".to_string());
    assert!(app.previewing_compose);
    assert_eq!(app.active_panel, Panel::Message);
    app.close_preview();
    assert_eq!(app.active_panel, Panel::Compose);
    assert_eq!(app.bottom_panel_mode, BottomPanelMode::Compose);
    assert_eq!(app.get_compose_content(), "To: bob@example.org\nSubject: hi\n\nHello");
}

#[test]
fn compose_template_reads_back() {
    let mut app = new_app();
    let text = "From: me@example.org\n\n\n-- me\n";
    app.start_compose(Ok(ComposeTemplate { content: text.to_string(), cursor_row: 0, cursor_col: 0 }));
    assert_eq!(app.get_compose_content(), text);
}

#[test]
fn template_errors_are_reported() {
    let mut app = new_app();
    app.start_compose(Err("bad".to_string()));
    assert_eq!(app.status_message.as_deref(), Some("Error building template: bad"));
    app.start_reply(None);
    assert_eq!(app.status_message.as_deref(), Some("Error: failed to parse message"));
    app.start_reply(Some(Err("x".to_string())));
    assert_eq!(app.status_message.as_deref(), Some("Error building reply template: x"));
    app.start_forward(Some(Err("y".to_string())));
    assert_eq!(app.status_message.as_deref(), Some("Error building forward template: y"));
    assert_eq!(app.active_panel, Panel::Mailboxes);
}

#[test]
fn remove_selected_envelope_keeps_cursor_in_list() {
    let mut app = new_app();
    app.set_envelopes(vec![envelope("1", &[]), envelope("2", &[]), envelope("3", &[])]);
    app.envelope_index = 2;
    app.remove_selected_envelope();
    assert_eq!(app.envelopes.len(), 2);
    assert_eq!(app.envelope_index, 1);
    app.envelope_index = 0;
    app.remove_selected_envelope();
    assert_eq!(app.envelopes.len(), 1);
    assert_eq!(app.envelopes[0].id, "2");
    assert_eq!(app.envelope_index, 0);
}

#[test]
fn flagging_twice_sets_the_flag_once() {
    let mut app = new_app();
    app.set_envelopes(vec![envelope("1", &["\\Seen"])]);
    app.flag_selected_envelope("\\Flagged");
    app.flag_selected_envelope("\\Flagged");
    assert_eq!(app.envelopes[0].flags, vec!["\\Seen".to_string(), "\\Flagged".to_string()]);
}

#[test]
fn dialog_navigation_wraps() {
    let mut app = new_app();
    app.open_dialog(Dialog::Envelope);
    assert_eq!(app.dialog_item_count(), 8);
    app.dialog_previous();
    assert_eq!(app.dialog_index, 7);
    assert_eq!(app.get_selected_envelope_action(), EnvelopeAction::RemoveFlag);
    app.dialog_next();
    assert_eq!(app.dialog_index, 0);
    app.open_dialog(Dialog::Compose);
    app.dialog_next();
    assert_eq!(app.get_selected_compose_action(), ComposeAction::Preview);
    app.open_dialog(Dialog::FlagRemove);
    assert_eq!(app.dialog_item_count(), 5);
    app.dialog_previous();
    assert_eq!(app.get_selected_flag_action(), FlagAction::Deleted);
    app.close_dialog();
    assert_eq!(app.dialog_item_count(), 0);
}

#[test]
fn status_set_and_clear() {
    let mut app = new_app();
    app.set_status("Working".to_string());
    assert_eq!(app.status_message.as_deref(), Some("Working"));
    app.clear_status();
    assert_eq!(app.status_message, None);
}

#[test]
fn quit_stops_the_loop() {
    let mut app = new_app();
    app.quit();
    assert!(!app.running);
}
