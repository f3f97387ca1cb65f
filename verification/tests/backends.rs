use himalaya_tui::app::Envelope;
use himalaya_tui::handlers::{EmailProperty, EmailSort, SubmissionEnvelope};
use himalaya_tui::jmap_steps::{
    jmap_save_step, jmap_send_step, JmapSaveAction, JmapSaveEvent, JmapSaveState, JmapSendAction,
    JmapSendEvent, JmapSendState,
};
use himalaya_tui::handlers::{
    parse_uid, upload_url, ImapEnvelopeListHandler, ImapMailboxListHandler, ImapMailboxName,
    ImapMessageGetRawHandler, JmapAddress, JmapEmail, JmapEnvelopeListHandler, JmapError,
    JmapMailboxListHandler, JmapMessage, JmapMessageGetHandler, JmapMessageSaveHandler,
    JmapMessageSendHandler, PagePlan, UidError, fill_account,
};

fn lister(page: usize, page_size: usize) -> ImapEnvelopeListHandler {
    ImapEnvelopeListHandler { mailbox: "INBOX".to_string(), page, page_size }
}

#[test]
fn imap_pages_newest_first() {
    assert_eq!(lister(0, 10).plan(0), PagePlan::Empty { total: 0 });
    assert_eq!(lister(0, 10).plan(25), PagePlan::Fetch { start: 16, end: 25, total: 25 });
    assert_eq!(lister(1, 10).plan(25), PagePlan::Fetch { start: 6, end: 15, total: 25 });
    assert_eq!(lister(2, 10).plan(25), PagePlan::Fetch { start: 1, end: 5, total: 25 });
    assert_eq!(lister(3, 10).plan(25), PagePlan::Empty { total: 25 });
    assert_eq!(lister(0, 1).plan(3), PagePlan::Fetch { start: 3, end: 3, total: 3 });
}

#[test]
fn uid_parsing() {
    assert_eq!(parse_uid("42"), Ok(42));
    assert_eq!(parse_uid("+7"), Ok(7));
    assert_eq!(parse_uid("0"), Err(UidError::Zero));
    assert_eq!(parse_uid("4294967296"), Err(UidError::NotANumber));
    assert_eq!(parse_uid("abc"), Err(UidError::NotANumber));
    assert_eq!(parse_uid(""), Err(UidError::NotANumber));
    let h = ImapMessageGetRawHandler { mailbox: "INBOX".to_string(), id: "12".to_string() };
    assert_eq!(h.uid(), Ok(12));
}

#[test]
fn imap_mailbox_names() {
    let inbox = ImapMailboxListHandler::mailbox(&ImapMailboxName::Inbox, Some('/'));
    assert_eq!(inbox.name, "INBOX");
    assert!(inbox.subscribed && inbox.id.is_none());
    let other = ImapMailboxListHandler::mailbox(&ImapMailboxName::Other(b"Archive/2024".to_vec()), Some('/'));
    assert_eq!(other.name, "Archive/2024");
    assert_eq!(other.delimiter, Some('/'));
}

#[test]
fn raw_message_is_the_first_body_with_data() {
    let items = vec![None, Some(None), Some(Some(b"raw".to_vec())), Some(Some(b"later".to_vec()))];
    assert_eq!(ImapMessageGetRawHandler::raw_message(items), Some(b"raw".to_vec()));
    assert_eq!(ImapMessageGetRawHandler::raw_message(vec![None, Some(None)]), None);
}

fn env(id: &str) -> Envelope {
    Envelope { id: id.to_string(), date: String::new(), from: String::new(), subject: String::new(), flags: Vec::new() }
}

#[test]
fn envelopes_sorted_greatest_uid_first() {
    let sorted = ImapEnvelopeListHandler::newest_first(vec![
        env("10"),
        env("9"),
        env("x"),
        env("11"),
        env("10"),
        env("100"),
    ]);
    let ids: Vec<&str> = sorted.iter().map(|e| e.id.as_str()).collect();
    assert_eq!(ids, vec!["100", "11", "10", "10", "9", "x"]);
}

#[test]
fn jmap_window_and_total() {
    let h = JmapEnvelopeListHandler { mailbox_id: "m".to_string(), page: 3, page_size: 20 };
    assert_eq!(h.query_window(), (60, 20));
    assert_eq!(JmapEnvelopeListHandler::total(Some(5)), 5);
    assert_eq!(JmapEnvelopeListHandler::total(None), 0);
    assert_eq!(JmapEnvelopeListHandler::total(Some(1u64 << 32 | 3)), 3);
}

#[test]
fn jmap_envelope_mapping() {
    let email = JmapEmail {
        id: Some("e1".to_string()),
        from: Some(vec![
            JmapAddress { name: Some(String::new()), email: "bob@x.org".to_string() },
            JmapAddress { name: Some("Carol".to_string()), email: "carol@x.org".to_string() },
        ]),
        subject: Some("Hi".to_string()),
        received_at: Some("2025-03-04T10:11:12Z".to_string()),
        keywords: Some(vec![("$seen".to_string(), true), ("$flagged".to_string(), false)]),
    };
    let e = JmapEnvelopeListHandler::envelope(&email);
    assert_eq!(e.id, "e1");
    assert_eq!(e.from, "bob@x.org");
    assert_eq!(e.subject, "Hi");
    assert_eq!(e.date, "2025-03-04");
    assert_eq!(e.flags, vec!["$seen".to_string()]);
    let bare = JmapEmail { id: None, from: None, subject: None, received_at: Some("today".to_string()), keywords: None };
    let e = JmapEnvelopeListHandler::envelope(&bare);
    assert_eq!(e.id, "");
    assert_eq!(e.date, "today");
    assert!(e.flags.is_empty());
}

#[test]
fn jmap_mailboxes() {
    let m = JmapMailboxListHandler::mailbox(Some("id1".to_string()), None, false);
    assert_eq!(m.name, "");
    assert_eq!(m.id.as_deref(), Some("id1"));
    assert!(!m.subscribed);
}

fn message(text: Option<&str>, html: Option<&str>, preview: Option<&str>) -> JmapMessage {
    let mut values = Vec::new();
    if let Some(t) = text {
        values.push(("t".to_string(), t.to_string()));
    }
    if let Some(h) = html {
        values.push(("h".to_string(), h.to_string()));
    }
    JmapMessage {
        text_body: Some(vec![Some("t".to_string())]),
        html_body: Some(vec![Some("h".to_string())]),
        body_values: Some(values),
        preview: preview.map(|p| p.to_string()),
    }
}

#[test]
fn jmap_message_text() {
    match JmapMessageGetHandler::text(&vec![message(Some("plain"), Some("<p>x</p>"), None)]) {
        Ok(t) => assert_eq!(t, "plain"),
        Err(_) => panic!("plain text"),
    }
    match JmapMessageGetHandler::text(&vec![message(None, Some("<p>rendered</p>"), None)]) {
        Ok(t) => assert!(t.contains("rendered")),
        Err(_) => panic!("html text"),
    }
    match JmapMessageGetHandler::text(&vec![message(None, None, Some("preview"))]) {
        Ok(t) => assert_eq!(t, "preview"),
        Err(_) => panic!("preview"),
    }
    match JmapMessageGetHandler::text(&vec![]) {
        Err(e) => assert_eq!(e.message(), "Email not found"),
        Ok(_) => panic!("no e-mail"),
    }
}

#[test]
fn upload_url_fills_the_account() {
    assert_eq!(
        fill_account("https://x.org/upload/{accountId}/{accountId}", "u1"),
        "https://x.org/upload/u1/u1"
    );
    assert_eq!(fill_account("https://x.org/{account}", "u1"), "https://x.org/{account}");
    match upload_url("https://x.org/upload/{accountId}/", Some("abc")) {
        Ok(url) => assert_eq!(url.as_str(), "https://x.org/upload/abc/"),
        Err(_) => panic!("valid URL"),
    }
    assert!(matches!(upload_url("upload/{accountId}", None), Err(JmapError::InvalidUploadUrl(None))));
}

#[test]
fn jmap_send_steps() {
    let h = JmapMessageSendHandler { raw: Vec::new(), sent_mailbox_id: None, envelope: None };
    match h.import_mailbox() {
        Err(e) => assert_eq!(e.message(), "No Sent mailbox ID available; cannot import message before JMAP submission"),
        Ok(_) => panic!("no sent mailbox"),
    }
    assert!(matches!(JmapMessageSendHandler::identity(&vec![]), Err(JmapError::NoIdentity)));
    assert!(matches!(JmapMessageSendHandler::identity(&vec!["i1".to_string()]), Ok(i) if i == "i1"));
    match JmapMessageSendHandler::imported_id(&Some(None), &None) {
        Err(e) => assert_eq!(e.message(), "JMAP Email/import failed: unknown error"),
        Ok(_) => panic!("refused"),
    }
    assert!(matches!(JmapMessageSendHandler::imported_id(&None, &Some(Some("m9".to_string()))), Ok(i) if i == "m9"));
    assert!(matches!(JmapMessageSendHandler::imported_id(&None, &Some(None)), Err(JmapError::NoEmailId)));
    match JmapMessageSendHandler::submitted(&Some(Some("quota".to_string()))) {
        Err(e) => assert_eq!(e.message(), "JMAP EmailSubmission/set failed: quota"),
        Ok(_) => panic!("refused"),
    }
    match JmapMessageSaveHandler::saved(&Some(Some("full".to_string()))) {
        Err(e) => assert_eq!(e.message(), "JMAP Email/import (draft) failed: full"),
        Ok(_) => panic!("refused"),
    }
    assert!(JmapMessageSaveHandler::saved(&None).is_ok());
}

#[test]
fn jmap_send_exchange_runs_in_order() {
    let h = JmapMessageSendHandler {
        raw: b"Subject: hi\r\n\r\nbody".to_vec(),
        sent_mailbox_id: Some("sent".to_string()),
        envelope: Some(SubmissionEnvelope { mail_from: "a@x.org".to_string(), rcpt_to: vec!["b@y.org".to_string()] }),
    };
    let session = JmapSendEvent::Session {
        upload_url: "https://x.org/upload/{accountId}/".to_string(),
        mail_account: Some("u1".to_string()),
    };
    let (state, action) = jmap_send_step(&h, JmapSendState::Start, session);
    match action {
        JmapSendAction::Upload { url, content_type, raw } => {
            assert_eq!(url.as_str(), "https://x.org/upload/u1/");
            assert_eq!(content_type, "message/rfc822");
            assert_eq!(raw, h.raw);
        }
        _ => panic!("upload first"),
    }
    let (state, action) = jmap_send_step(&h, state, JmapSendEvent::Uploaded { blob_id: "b1".to_string() });
    assert!(matches!(action, JmapSendAction::GetIdentities));
    let ids = vec!["id1".to_string(), "id2".to_string()];
    let (state, action) = jmap_send_step(&h, state, JmapSendEvent::Identities { ids });
    match action {
        JmapSendAction::Import { blob_id, mailbox_id, keyword } => {
            assert_eq!((blob_id.as_str(), mailbox_id.as_str(), keyword.as_str()), ("b1", "sent", "$seen"));
        }
        _ => panic!("import next"),
    }
    let imported = JmapSendEvent::Imported { refused: None, created: Some(Some("e1".to_string())) };
    let (state, action) = jmap_send_step(&h, state, imported);
    match action {
        JmapSendAction::Submit { identity_id, email_id, envelope } => {
            assert_eq!((identity_id.as_str(), email_id.as_str()), ("id1", "e1"));
            let envelope = envelope.expect("the handler's envelope");
            assert_eq!(envelope.mail_from, "a@x.org");
            assert_eq!(envelope.rcpt_to, vec!["b@y.org".to_string()]);
        }
        _ => panic!("submit next"),
    }
    let (state, action) = jmap_send_step(&h, state, JmapSendEvent::Submitted { refused: None });
    assert!(matches!(state, JmapSendState::Done));
    assert!(matches!(action, JmapSendAction::Finish { result: Ok(()) }));
    let (_, action) = jmap_send_step(&h, state, JmapSendEvent::Uploaded { blob_id: "b2".to_string() });
    assert!(matches!(action, JmapSendAction::Finish { result: Err(JmapError::Unexpected) }));
}

#[test]
fn jmap_send_exchange_stops_on_errors() {
    let h = JmapMessageSendHandler { raw: Vec::new(), sent_mailbox_id: None, envelope: None };
    let (_, action) = jmap_send_step(
        &h,
        JmapSendState::AwaitingIdentity { blob_id: "b".to_string() },
        JmapSendEvent::Identities { ids: vec!["i".to_string()] },
    );
    assert!(matches!(action, JmapSendAction::Finish { result: Err(JmapError::NoSentMailbox) }));
    let (_, action) = jmap_send_step(
        &h,
        JmapSendState::AwaitingIdentity { blob_id: "b".to_string() },
        JmapSendEvent::Identities { ids: vec![] },
    );
    assert!(matches!(action, JmapSendAction::Finish { result: Err(JmapError::NoIdentity) }));
    let (_, action) = jmap_send_step(&h, JmapSendState::Uploading, JmapSendEvent::Failed { message: "down".to_string() });
    match action {
        JmapSendAction::Finish { result: Err(e) } => assert_eq!(e.message(), "down"),
        _ => panic!("failure ends"),
    }
    let bad = JmapSendEvent::Session { upload_url: "upload/{accountId}".to_string(), mail_account: None };
    let (_, action) = jmap_send_step(&h, JmapSendState::Start, bad);
    assert!(matches!(action, JmapSendAction::Finish { result: Err(JmapError::InvalidUploadUrl(None)) }));
}

#[test]
fn jmap_save_exchange_runs_in_order() {
    let h = JmapMessageSaveHandler { mailbox_id: "drafts".to_string(), raw: b"x".to_vec() };
    let session = JmapSaveEvent::Session { upload_url: "https://x.org/up".to_string(), mail_account: None };
    let (state, action) = jmap_save_step(&h, JmapSaveState::Start, session);
    assert!(matches!(action, JmapSaveAction::Upload { .. }));
    let (state, action) = jmap_save_step(&h, state, JmapSaveEvent::Uploaded { blob_id: "b".to_string() });
    match action {
        JmapSaveAction::Import { blob_id, mailbox_id, keyword } => {
            assert_eq!((blob_id.as_str(), mailbox_id.as_str(), keyword.as_str()), ("b", "drafts", "$draft"));
        }
        _ => panic!("import next"),
    }
    let (state, action) = jmap_save_step(&h, state, JmapSaveEvent::Imported { refused: Some(Some("full".to_string())) });
    assert!(matches!(state, JmapSaveState::Done));
    match action {
        JmapSaveAction::Finish { result: Err(e) } => assert_eq!(e.message(), "JMAP Email/import (draft) failed: full"),
        _ => panic!("refused"),
    }
}

#[test]
fn jmap_envelope_query_and_page() {
    let h = JmapEnvelopeListHandler { mailbox_id: "mb1".to_string(), page: 2, page_size: 25 };
    let q = h.envelope_query();
    assert_eq!(q.in_mailbox, "mb1");
    assert_eq!(q.sort, vec![EmailSort::ReceivedAtDescending]);
    assert_eq!((q.position, q.limit), (50, 25));
    assert_eq!(
        q.properties,
        vec![EmailProperty::Id, EmailProperty::From, EmailProperty::Subject, EmailProperty::ReceivedAt, EmailProperty::Keywords]
    );
    let email = |id: &str| JmapEmail {
        id: Some(id.to_string()),
        from: None,
        subject: Some(format!("s{id}")),
        received_at: None,
        keywords: None,
    };
    let envs = JmapEnvelopeListHandler::envelopes(&vec![email("a"), email("b")]);
    let ids: Vec<(&str, &str)> = envs.iter().map(|e| (e.id.as_str(), e.subject.as_str())).collect();
    assert_eq!(ids, vec![("a", "sa"), ("b", "sb")]);
}

#[test]
fn imap_mailbox_list_keeps_order() {
    let listed = vec![
        (ImapMailboxName::Other(b"Sent".to_vec()), Some('/')),
        (ImapMailboxName::Inbox, None),
    ];
    let boxes = ImapMailboxListHandler::mailboxes(&listed);
    let names: Vec<(&str, Option<char>)> = boxes.iter().map(|m| (m.name.as_str(), m.delimiter)).collect();
    assert_eq!(names, vec![("Sent", Some('/')), ("INBOX", None)]);
    assert!(boxes.iter().all(|m| m.subscribed && m.id.is_none()));
}
