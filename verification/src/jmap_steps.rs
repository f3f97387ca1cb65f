//! Sending and saving a message over JMAP, as exchanges of requests and
//! answers: each step takes the state and the answer that came back, and
//! gives the next state and the request to make (or the outcome). The
//! requests themselves are made outside.

use vstd::prelude::*;
use url::Url;

use crate::app::opt_view;
use crate::handlers::{
    description_text, replaced, upload_url, JmapError, JmapMessageSaveHandler,
    JmapMessageSendHandler, SubmissionEnvelope,
};
use crate::wizard::parsed_url;

verus! {

/// Where the session says blobs are uploaded: its template with the mail
/// account filled in, parsed.
pub open spec fn upload_target(template: Seq<char>, account: Option<Seq<char>>) -> Result<
    Url,
    Option<Seq<char>>,
> {
    parsed_url(
        replaced(
            template,
            "{accountId}"@,
            match account {
                Some(a) => a,
                None => Seq::empty(),
            },
        ),
    )
}

/// The view of an optional submission envelope: sender and recipients.
pub open spec fn envelope_view(e: Option<SubmissionEnvelope>) -> Option<(Seq<char>, Seq<Seq<char>>)> {
    match e {
        Some(v) => Some((v.mail_from@, v.rcpt_to@.map_values(|r: String| r@))),
        None => None,
    }
}

fn clone_envelope(e: &Option<SubmissionEnvelope>) -> (c: Option<SubmissionEnvelope>)
    ensures
        envelope_view(c) == envelope_view(*e),
{
    match e {
        None => None,
        Some(v) => {
            let mut to: Vec<String> = Vec::new();
            let mut i: usize = 0;
            while i < v.rcpt_to.len()
                invariant
                    i <= v.rcpt_to@.len(),
                    to@.len() == i,
                    forall|k: int| 0 <= k < i ==> to@[k]@ == v.rcpt_to@[k]@,
                decreases v.rcpt_to@.len() - i,
            {
                to.push(v.rcpt_to[i].clone());
                i = i + 1;
            }
            let c = SubmissionEnvelope { mail_from: v.mail_from.clone(), rcpt_to: to };
            assert(c.rcpt_to@.map_values(|r: String| r@) =~= v.rcpt_to@.map_values(|r: String| r@));
            Some(c)
        },
    }
}

fn account_str(account: &Option<String>) -> (a: Option<&str>)
    ensures
        match a {
            Some(s) => *account matches Some(t) && s@ == t@,
            None => account is None,
        },
{
    match account {
        Some(t) => Some(t.as_str()),
        None => None,
    }
}

// ---------------------------------------------------------------------------
// Sending

/// Where an exchange that sends a message stands.
pub enum JmapSendState {
    /// Nothing asked yet.
    Start,
    /// The raw message is being uploaded.
    Uploading,
    /// The identities are being listed; the uploaded blob is kept.
    AwaitingIdentity { blob_id: String },
    /// The blob is being imported; the identity to submit with is kept.
    Importing { identity_id: String },
    /// The imported message is being submitted.
    Submitting,
    /// The exchange is over.
    Done,
}

/// What came back from the last request.
pub enum JmapSendEvent {
    /// The session: its upload URL template and its mail account, if any.
    Session { upload_url: String, mail_account: Option<String> },
    /// The blob the raw message was stored as.
    Uploaded { blob_id: String },
    /// The ids of the identities, in the order the server listed them.
    Identities { ids: Vec<String> },
    /// The import's answer for the message: whether it was refused (with
    /// the server's description, if any), and the id it was created with.
    Imported { refused: Option<Option<String>>, created: Option<Option<String>> },
    /// The submission's answer: whether it was refused.
    Submitted { refused: Option<Option<String>> },
    /// The request failed on its way.
    Failed { message: String },
}

/// The request to make next, or the outcome.
pub enum JmapSendAction {
    /// Upload `raw` as a blob of type `content_type` to `url`.
    Upload { url: Url, content_type: String, raw: Vec<u8> },
    /// List the identities (`Identity/get`).
    GetIdentities,
    /// Import the blob into a mailbox with a keyword (`Email/import`).
    Import { blob_id: String, mailbox_id: String, keyword: String },
    /// Submit the imported message (`EmailSubmission/set`).
    Submit { identity_id: String, email_id: String, envelope: Option<SubmissionEnvelope> },
    /// The exchange is over, with its outcome.
    Finish { result: Result<(), JmapError> },
}

/// The exchange ends with `result`.
pub open spec fn send_finished(next: (JmapSendState, JmapSendAction), result: Result<(), JmapError>) -> bool {
    &&& next.0 is Done
    &&& next.1 matches JmapSendAction::Finish { result: r } && r == result
}

/// What one step of sending does.
pub open spec fn send_step_post(
    h: &JmapMessageSendHandler,
    state: JmapSendState,
    event: JmapSendEvent,
    next: (JmapSendState, JmapSendAction),
) -> bool {
    match event {
        JmapSendEvent::Failed { message } => send_finished(
            next,
            Err(JmapError::Transport(message)),
        ),
        JmapSendEvent::Session { upload_url, mail_account } => match state {
            JmapSendState::Start => match upload_target(upload_url@, opt_view(mail_account)) {
                Ok(u) => {
                    &&& next.0 is Uploading
                    &&& next.1 matches JmapSendAction::Upload { url, content_type, raw } && url == u
                        && content_type@ == "message/rfc822"@ && raw@ == h.raw@
                },
                Err(e) => {
                    &&& next.0 is Done
                    &&& next.1 matches JmapSendAction::Finish {
                        result: Err(JmapError::InvalidUploadUrl(m)),
                    } && opt_view(m) == e
                },
            },
            _ => send_finished(next, Err(JmapError::Unexpected)),
        },
        JmapSendEvent::Uploaded { blob_id } => match state {
            JmapSendState::Uploading => {
                &&& next.0 matches JmapSendState::AwaitingIdentity { blob_id: b } && b == blob_id
                &&& next.1 is GetIdentities
            },
            _ => send_finished(next, Err(JmapError::Unexpected)),
        },
        JmapSendEvent::Identities { ids } => match state {
            JmapSendState::AwaitingIdentity { blob_id } => if ids@.len() == 0 {
                send_finished(next, Err(JmapError::NoIdentity))
            } else {
                match h.sent_mailbox_id {
                    None => send_finished(next, Err(JmapError::NoSentMailbox)),
                    Some(mailbox) => {
                        &&& next.0 matches JmapSendState::Importing { identity_id } && identity_id
                            == ids@[0]
                        &&& next.1 matches JmapSendAction::Import { blob_id: b, mailbox_id, keyword }
                            && b == blob_id && mailbox_id == mailbox && keyword@ == "$seen"@
                    },
                }
            },
            _ => send_finished(next, Err(JmapError::Unexpected)),
        },
        JmapSendEvent::Imported { refused, created } => match state {
            JmapSendState::Importing { identity_id } => match refused {
                Some(d) => {
                    &&& next.0 is Done
                    &&& next.1 matches JmapSendAction::Finish {
                        result: Err(JmapError::ImportFailed(m)),
                    } && m@ == description_text(d)
                },
                None => match created {
                    Some(Some(email)) => {
                        &&& next.0 is Submitting
                        &&& next.1 matches JmapSendAction::Submit { identity_id: i, email_id, envelope }
                            && i == identity_id && email_id == email && envelope_view(envelope)
                            == envelope_view(h.envelope)
                    },
                    _ => send_finished(next, Err(JmapError::NoEmailId)),
                },
            },
            _ => send_finished(next, Err(JmapError::Unexpected)),
        },
        JmapSendEvent::Submitted { refused } => match state {
            JmapSendState::Submitting => match refused {
                Some(d) => {
                    &&& next.0 is Done
                    &&& next.1 matches JmapSendAction::Finish {
                        result: Err(JmapError::SubmissionFailed(m)),
                    } && m@ == description_text(d)
                },
                None => send_finished(next, Ok(())),
            },
            _ => send_finished(next, Err(JmapError::Unexpected)),
        },
    }
}

/// One step of sending `h.raw`: upload it, find the identity, import the
/// blob into the sent mailbox as seen, submit it, and report how the
/// submission went; any failure ends the exchange with its error.
pub fn jmap_send_step(h: &JmapMessageSendHandler, state: JmapSendState, event: JmapSendEvent) -> (next: (
    JmapSendState,
    JmapSendAction,
))
    ensures
        send_step_post(h, state, event, next),
{
    match event {
        JmapSendEvent::Failed { message } => (
            JmapSendState::Done,
            JmapSendAction::Finish { result: Err(JmapError::Transport(message)) },
        ),
        JmapSendEvent::Session { upload_url: template, mail_account } => match state {
            JmapSendState::Start => {
                let account = account_str(&mail_account);
                match upload_url(template.as_str(), account) {
                    Ok(url) => {
                        let raw = h.raw.clone();
                        assert(raw@ =~= h.raw@);
                        (
                            JmapSendState::Uploading,
                            JmapSendAction::Upload {
                                url,
                                content_type: String::from_str("message/rfc822"),
                                raw,
                            },
                        )
                    },
                    Err(err) => (JmapSendState::Done, JmapSendAction::Finish { result: Err(err) }),
                }
            },
            _ => (JmapSendState::Done, JmapSendAction::Finish { result: Err(JmapError::Unexpected) }),
        },
        JmapSendEvent::Uploaded { blob_id } => match state {
            JmapSendState::Uploading => (
                JmapSendState::AwaitingIdentity { blob_id },
                JmapSendAction::GetIdentities,
            ),
            _ => (JmapSendState::Done, JmapSendAction::Finish { result: Err(JmapError::Unexpected) }),
        },
        JmapSendEvent::Identities { ids } => match state {
            JmapSendState::AwaitingIdentity { blob_id } => {
                match JmapMessageSendHandler::identity(&ids) {
                    Err(err) => (JmapSendState::Done, JmapSendAction::Finish { result: Err(err) }),
                    Ok(identity_id) => match h.import_mailbox() {
                        Err(err) => (JmapSendState::Done, JmapSendAction::Finish { result: Err(err) }),
                        Ok(mailbox_id) => (
                            JmapSendState::Importing { identity_id },
                            JmapSendAction::Import {
                                blob_id,
                                mailbox_id,
                                keyword: String::from_str("$seen"),
                            },
                        ),
                    },
                }
            },
            _ => (JmapSendState::Done, JmapSendAction::Finish { result: Err(JmapError::Unexpected) }),
        },
        JmapSendEvent::Imported { refused, created } => match state {
            JmapSendState::Importing { identity_id } => {
                match JmapMessageSendHandler::imported_id(&refused, &created) {
                    Err(err) => (JmapSendState::Done, JmapSendAction::Finish { result: Err(err) }),
                    Ok(email_id) => (
                        JmapSendState::Submitting,
                        JmapSendAction::Submit {
                            identity_id,
                            email_id,
                            envelope: clone_envelope(&h.envelope),
                        },
                    ),
                }
            },
            _ => (JmapSendState::Done, JmapSendAction::Finish { result: Err(JmapError::Unexpected) }),
        },
        JmapSendEvent::Submitted { refused } => match state {
            JmapSendState::Submitting => (
                JmapSendState::Done,
                JmapSendAction::Finish { result: JmapMessageSendHandler::submitted(&refused) },
            ),
            _ => (JmapSendState::Done, JmapSendAction::Finish { result: Err(JmapError::Unexpected) }),
        },
    }
}

// ---------------------------------------------------------------------------
// Saving a draft

/// Where an exchange that saves a draft stands.
pub enum JmapSaveState {
    Start,
    Uploading,
    Importing,
    Done,
}

/// What came back from the last request.
pub enum JmapSaveEvent {
    /// The session: its upload URL template and its mail account, if any.
    Session { upload_url: String, mail_account: Option<String> },
    /// The blob the draft was stored as.
    Uploaded { blob_id: String },
    /// The import's answer for the draft: whether it was refused.
    Imported { refused: Option<Option<String>> },
    /// The request failed on its way.
    Failed { message: String },
}

/// The request to make next, or the outcome.
pub enum JmapSaveAction {
    /// Upload `raw` as a blob of type `content_type` to `url`.
    Upload { url: Url, content_type: String, raw: Vec<u8> },
    /// Import the blob into a mailbox with a keyword (`Email/import`).
    Import { blob_id: String, mailbox_id: String, keyword: String },
    /// The exchange is over, with its outcome.
    Finish { result: Result<(), JmapError> },
}

pub open spec fn save_finished(next: (JmapSaveState, JmapSaveAction), result: Result<(), JmapError>) -> bool {
    &&& next.0 is Done
    &&& next.1 matches JmapSaveAction::Finish { result: r } && r == result
}

/// What one step of saving does.
pub open spec fn save_step_post(
    h: &JmapMessageSaveHandler,
    state: JmapSaveState,
    event: JmapSaveEvent,
    next: (JmapSaveState, JmapSaveAction),
) -> bool {
    match event {
        JmapSaveEvent::Failed { message } => save_finished(
            next,
            Err(JmapError::Transport(message)),
        ),
        JmapSaveEvent::Session { upload_url, mail_account } => match state {
            JmapSaveState::Start => match upload_target(upload_url@, opt_view(mail_account)) {
                Ok(u) => {
                    &&& next.0 is Uploading
                    &&& next.1 matches JmapSaveAction::Upload { url, content_type, raw } && url == u
                        && content_type@ == "message/rfc822"@ && raw@ == h.raw@
                },
                Err(e) => {
                    &&& next.0 is Done
                    &&& next.1 matches JmapSaveAction::Finish {
                        result: Err(JmapError::InvalidUploadUrl(m)),
                    } && opt_view(m) == e
                },
            },
            _ => save_finished(next, Err(JmapError::Unexpected)),
        },
        JmapSaveEvent::Uploaded { blob_id } => match state {
            JmapSaveState::Uploading => {
                &&& next.0 is Importing
                &&& next.1 matches JmapSaveAction::Import { blob_id: b, mailbox_id, keyword } && b
                    == blob_id && mailbox_id == h.mailbox_id && keyword@ == "$draft"@
            },
            _ => save_finished(next, Err(JmapError::Unexpected)),
        },
        JmapSaveEvent::Imported { refused } => match state {
            JmapSaveState::Importing => match refused {
                Some(d) => {
                    &&& next.0 is Done
                    &&& next.1 matches JmapSaveAction::Finish {
                        result: Err(JmapError::DraftImportFailed(m)),
                    } && m@ == description_text(d)
                },
                None => save_finished(next, Ok(())),
            },
            _ => save_finished(next, Err(JmapError::Unexpected)),
        },
    }
}

/// One step of saving `h.raw` as a draft: upload it, import the blob into
/// the drafts mailbox with the draft keyword, and report how the import
/// went; any failure ends the exchange with its error.
pub fn jmap_save_step(h: &JmapMessageSaveHandler, state: JmapSaveState, event: JmapSaveEvent) -> (next: (
    JmapSaveState,
    JmapSaveAction,
))
    ensures
        save_step_post(h, state, event, next),
{
    match event {
        JmapSaveEvent::Failed { message } => (
            JmapSaveState::Done,
            JmapSaveAction::Finish { result: Err(JmapError::Transport(message)) },
        ),
        JmapSaveEvent::Session { upload_url: template, mail_account } => match state {
            JmapSaveState::Start => {
                let account = account_str(&mail_account);
                match upload_url(template.as_str(), account) {
                    Ok(url) => {
                        let raw = h.raw.clone();
                        assert(raw@ =~= h.raw@);
                        (
                            JmapSaveState::Uploading,
                            JmapSaveAction::Upload {
                                url,
                                content_type: String::from_str("message/rfc822"),
                                raw,
                            },
                        )
                    },
                    Err(err) => (JmapSaveState::Done, JmapSaveAction::Finish { result: Err(err) }),
                }
            },
            _ => (JmapSaveState::Done, JmapSaveAction::Finish { result: Err(JmapError::Unexpected) }),
        },
        JmapSaveEvent::Uploaded { blob_id } => match state {
            JmapSaveState::Uploading => (
                JmapSaveState::Importing,
                JmapSaveAction::Import {
                    blob_id,
                    mailbox_id: h.mailbox_id.clone(),
                    keyword: String::from_str("$draft"),
                },
            ),
            _ => (JmapSaveState::Done, JmapSaveAction::Finish { result: Err(JmapError::Unexpected) }),
        },
        JmapSaveEvent::Imported { refused } => match state {
            JmapSaveState::Importing => (
                JmapSaveState::Done,
                JmapSaveAction::Finish { result: JmapMessageSaveHandler::saved(&refused) },
            ),
            _ => (JmapSaveState::Done, JmapSaveAction::Finish { result: Err(JmapError::Unexpected) }),
        },
    }
}

} // verus!
