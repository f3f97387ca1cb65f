use himalaya_tui::app::Envelope;
use himalaya_tui::keys::Keybinds;
use himalaya_tui::config::{
    effective_keybinds, AccountConfig, AccountError, Config, JmapAuthConfig, SaslAnonymousConfig, SaslConfig, SaslLoginConfig, SaslMechanismConfig,
    Secret,
};
use himalaya_tui::mime::{
    body_of, decode_message_body, envelope_of, extract_envelope, valid_email, AddressHeader,
    DecodeError, SendError,
};
use himalaya_tui::text::{
    contains_str, count_char, eq_ignore_ascii_case, rsplit_once_char, to_ascii_lowercase,
    u16_to_decimal,
};
use himalaya_tui::ui::{
    field_display, format_flags, masked, truncate, centered_span, wizard_lines, wizard_status,
    wizard_status_text, WizardField, WizardState, WizardStatus,
};
use himalaya_tui::wizard::{
    classify, discovery_order, discovery_resolver, next_discovery_step, DiscoveryStep, extract_discovery_domain, first_discovery, plan_account, url_plan,
    account_from_plan, AccountPlan, DiscoveryResult, WizardAuth, Input, JmapEndpoint, MailEndpoint, Probe, UrlPlan, WizardError,
};

fn envelope(flags: &[&str]) -> Envelope {
    Envelope {
        id: "1".to_string(),
        date: String::new(),
        from: String::new(),
        subject: String::new(),
        flags: flags.iter().map(|f| f.to_string()).collect(),
    }
}

#[test]
fn valid_email_trims_and_drops_blanks() {
    assert_eq!(valid_email(&Some("  a@b.c \t".to_string())).as_deref(), Some("a@b.c"));
    assert_eq!(valid_email(&Some(" \u{3000} ".to_string())), None);
    assert_eq!(valid_email(&None), None);
}

#[test]
fn extract_envelope_errors() {
    assert_eq!(
        extract_envelope(b"To: a@example.org\r\n\r\nx").err(),
        Some(SendError::NoSender)
    );
    assert_eq!(
        extract_envelope(b"From: a@example.org\r\n\r\nx").err(),
        Some(SendError::NoRecipient)
    );
    assert_eq!(SendError::NoSender.message(), "The message does not contain any sender");
}

#[test]
fn extract_envelope_reads_groups_and_bcc() {
    let raw = b"From: Team: Boss <boss@example.org>;\r\nTo: Friends: x@example.org, y@example.org;\r\nBcc: z@example.org\r\n\r\nhi";
    match extract_envelope(raw) {
        Ok((from, to)) => {
            assert_eq!(from, "boss@example.org");
            assert_eq!(to, vec!["x@example.org".to_string(), "y@example.org".to_string(), "z@example.org".to_string()]);
        }
        Err(_) => panic!("the message names a sender and recipients"),
    }
}

#[test]
fn decode_prefers_plain_text_then_html() {
    match decode_message_body(b"Content-Type: text/plain\r\n\r\nplain body") {
        Ok(text) => assert_eq!(text, "plain body"),
        Err(_) => panic!("plain body"),
    }
    let html = b"Content-Type: text/html\r\n\r\n<p>Hello <b>world</b></p>";
    match decode_message_body(html) {
        Ok(text) => assert!(text.contains("Hello")),
        Err(_) => panic!("html body"),
    }
    match DecodeError::Unparsable.message().as_str() {
        "Failed to parse message" => {}
        other => panic!("unexpected {other}"),
    }
}

#[test]
fn truncate_cuts_with_an_ellipsis() {
    assert_eq!(truncate("Alice", 20), "Alice");
    assert_eq!(truncate("A very long sender name indeed", 10), "A very ...");
    assert_eq!(truncate("éèàùçéèàùç!", 6), "éèà...");
    assert_eq!(truncate("abc", 3), "abc");
}

#[test]
fn flags_column() {
    assert_eq!(format_flags(&envelope(&[])), "*   ");
    assert_eq!(format_flags(&envelope(&["\\Seen", "\\Answered"])), " ↩  ");
    assert_eq!(format_flags(&envelope(&["$seen", "$flagged", "$draft"])), "  !D");
    assert_eq!(format_flags(&envelope(&["\\Flagged"])).chars().count(), 4);
}

#[test]
fn form_field_helpers() {
    assert_eq!(masked("pässword"), "••••••••");
    assert_eq!(masked(""), "");
    assert_eq!(field_display("uri", true), "uri█");
    assert_eq!(field_display("uri", false), "uri");
    assert_eq!(centered_span(10, 100, 62), (29, 62));
    assert_eq!(centered_span(0, 40, 62), (0, 40));
}

#[test]
fn text_helpers() {
    assert_eq!(count_char("imap.mail.example.org", '.'), 3);
    assert!(contains_str("imaps://host", "://"));
    assert!(!contains_str("user@host", "://"));
    assert!(eq_ignore_ascii_case("FiLe", "file"));
    assert!(!eq_ignore_ascii_case("files", "file"));
    assert_eq!(to_ascii_lowercase("IMAPS"), "imaps");
    assert_eq!(rsplit_once_char("a@b@c.org", '@'), Some(("a@b".to_string(), "c.org".to_string())));
    assert_eq!(rsplit_once_char("abc", '@'), None);
    assert_eq!(u16_to_decimal(993), "993");
    assert_eq!(u16_to_decimal(0), "0");
    assert_eq!(u16_to_decimal(65535), "65535");
}

#[test]
fn classify_inputs() {
    match classify("jane.doe@example.org") {
        Ok(Input::Email { local, domain }) => {
            assert_eq!(local, "jane.doe");
            assert_eq!(domain, "example.org");
        }
        _ => panic!("an e-mail address"),
    }
    assert!(matches!(classify("example.org"), Ok(Input::Domain(d)) if d == "example.org"));
    assert!(matches!(classify("imaps://user@imap.example.org"), Ok(Input::Url(_))));
    assert!(matches!(classify("file:///var/mail"), Ok(Input::FileUrl(_))));
    assert!(matches!(classify(""), Err(WizardError::EmptyInput)));
    assert!(matches!(classify("http://[::1"), Err(WizardError::InvalidUrl(_))));
}

#[test]
fn discovery_domain_drops_one_label() {
    assert_eq!(extract_discovery_domain("imap.example.org"), "example.org");
    assert_eq!(extract_discovery_domain("mail.eu.example.org"), "eu.example.org");
    assert_eq!(extract_discovery_domain("example.org"), "example.org");
    assert_eq!(extract_discovery_domain("localhost"), "localhost");
}

fn plan_of(text: &str) -> Result<UrlPlan, WizardError> {
    match url::Url::parse(text) {
        Ok(url) => url_plan(&url),
        Err(_) => panic!("valid URL"),
    }
}

#[test]
fn url_plans() {
    assert!(matches!(plan_of("imaps://imap.example.org"), Ok(UrlPlan::Discover { domain }) if domain == "example.org"));
    assert!(matches!(plan_of("SMTP://smtp.example.org:587"), Ok(UrlPlan::Discover { domain }) if domain == "example.org"));
    assert!(matches!(plan_of("https://jmap.example.org/session"), Ok(UrlPlan::Jmap { server }) if server == "https://jmap.example.org/session"));
    assert!(matches!(plan_of("pop3://mail.example.org"), Err(WizardError::UnsupportedScheme(s)) if s == "pop3"));
    match plan_of("jmap:opaque") {
        Err(e) => assert_eq!(e.message(), "URL `jmap:opaque` is missing a host"),
        Ok(_) => panic!("no host"),
    }
}

fn endpoint(host: &str, port: u16, starttls: bool) -> MailEndpoint {
    MailEndpoint { host: host.to_string(), port, starttls }
}

#[test]
fn discovery_keeps_the_first_answer() {
    assert_eq!(discovery_order(false), vec![Probe::Pacc, Probe::AutoconfigIspFallback, Probe::AutoconfigIspdb, Probe::Srv]);
    assert_eq!(discovery_order(true).len(), 5);
    let answers = vec![
        None,
        Some(DiscoveryResult::new()),
        Some(DiscoveryResult { jmap: None, imap: Some(endpoint("imap.x.org", 993, false)), smtp: None }),
        Some(DiscoveryResult { jmap: Some(JmapEndpoint { server: "https://j".to_string() }), imap: None, smtp: None }),
    ];
    let first = first_discovery(answers);
    assert!(first.jmap.is_none());
    assert_eq!(first.imap.map(|e| e.host), Some("imap.x.org".to_string()));
    assert!(first_discovery(vec![None, None]).is_empty());
}

#[test]
fn discovery_stops_at_the_first_answer() {
    assert_eq!(next_discovery_step(true, &vec![]), DiscoveryStep::Run(Probe::Pacc));
    assert_eq!(next_discovery_step(true, &vec![None]), DiscoveryStep::Run(Probe::AutoconfigIsp));
    assert_eq!(
        next_discovery_step(false, &vec![None, Some(DiscoveryResult::new())]),
        DiscoveryStep::Run(Probe::AutoconfigIspdb)
    );
    let hit = Some(DiscoveryResult { jmap: None, imap: Some(endpoint("imap.x.org", 993, false)), smtp: None });
    assert_eq!(next_discovery_step(false, &vec![None, hit]), DiscoveryStep::Found(1));
    assert_eq!(next_discovery_step(false, &vec![None, None, None, None]), DiscoveryStep::Exhausted);
}

#[test]
fn wizard_and_uid_errors_read_well() {
    assert_eq!(WizardError::EmptyInput.message(), "Empty input");
    assert_eq!(WizardError::UnsupportedScheme("pop3".to_string()).message(), "Unsupported URL scheme `pop3`");
    assert_eq!(WizardError::NoImapEndpoint.message(), "Discovery returned no IMAP endpoint");
    assert_eq!(
        WizardError::FilePath("file://host/x".to_string()).message(),
        "Cannot resolve filesystem path from `file://host/x`"
    );
    assert_eq!(himalaya_tui::handlers::UidError::Zero.message(), "UID must be non-zero");
}

#[test]
fn account_plans() {
    let found = DiscoveryResult {
        jmap: None,
        imap: Some(endpoint("imap.x.org", 993, false)),
        smtp: Some(endpoint("smtp.x.org", 587, true)),
    };
    match plan_account(found, Some("jane"), "x.org") {
        Ok(AccountPlan::Imap { imap_server, imap_starttls, smtp, login }) => {
            assert_eq!(imap_server, "imaps://imap.x.org:993");
            assert!(!imap_starttls);
            assert_eq!(smtp, Some(("smtp://smtp.x.org:587".to_string(), true)));
            assert_eq!(login.as_deref(), Some("jane@x.org"));
        }
        _ => panic!("an IMAP account"),
    }
    let jmap = DiscoveryResult {
        jmap: Some(JmapEndpoint { server: "https://api.x.org".to_string() }),
        imap: Some(endpoint("imap.x.org", 143, true)),
        smtp: None,
    };
    assert!(matches!(plan_account(jmap, None, "x.org"), Ok(AccountPlan::Jmap { server, login: None }) if server == "https://api.x.org"));
    match plan_account(DiscoveryResult::new(), None, "x.org") {
        Err(e) => assert_eq!(
            e.message(),
            "No configuration could be discovered for `x.org`. Try giving an `imap[s]://`, `smtp[s]://` or `https://` URL instead."
        ),
        Ok(_) => panic!("nothing discovered"),
    }
    let smtp_only = DiscoveryResult { jmap: None, imap: None, smtp: Some(endpoint("s", 25, true)) };
    assert!(matches!(plan_account(smtp_only, None, "x.org"), Err(WizardError::NoImapEndpoint)));
}

fn account(default: bool) -> AccountConfig {
    AccountConfig {
        default,
        imap: None,
        smtp: None,
        jmap: None,
        email: String::new(),
        display_name: None,
        signature: None,
        signature_delim: None,
        downloads_dir: None,
    }
}

#[test]
fn account_lookup() {
    let config = Config {
        display_name: None,
        signature: None,
        signature_delim: None,
        downloads_dir: None,
        accounts: vec![
            ("work".to_string(), account(false)),
            ("home".to_string(), account(true)),
            ("old".to_string(), account(true)),
        ],
        keybinds: Some(Keybinds::Vim),
    };
    assert_eq!(config.find_default_account().map(|(n, _)| n.clone()), Some("home".to_string()));
    assert_eq!(config.find_account("work").map(|(n, _)| n.clone()), Some("work".to_string()));
    assert!(config.find_account("none").is_none());
    let empty = Config { display_name: None, signature: None, signature_delim: None, downloads_dir: None, accounts: vec![("a".to_string(), account(false))], keybinds: None };
    assert!(empty.find_default_account().is_none());
    assert_eq!(config.take_account(None).map(|(n, _)| n.clone()), Ok("home".to_string()));
    assert_eq!(config.take_account(Some("")).map(|(n, _)| n.clone()), Ok("home".to_string()));
    assert_eq!(config.take_account(Some("default")).map(|(n, _)| n.clone()), Ok("home".to_string()));
    assert_eq!(config.take_account(Some("old")).map(|(n, _)| n.clone()), Ok("old".to_string()));
    match empty.take_account(None) {
        Err(e) => assert_eq!(e.message(), "Account not found"),
        Ok(_) => panic!("no default account"),
    }
    assert!(matches!(config.take_account(Some("nope")), Err(AccountError::NotFound)));
    assert_eq!(effective_keybinds(Some(Keybinds::Emacs), config.keybinds), Some(Keybinds::Emacs));
    assert_eq!(effective_keybinds(None, config.keybinds), Some(Keybinds::Vim));
    assert_eq!(effective_keybinds(None, None), None);
}

#[test]
fn wizard_account_from_plan() {
    let jmap = AccountPlan::Jmap { server: "https://api.x.org".to_string(), login: None };
    let auth = WizardAuth::Jmap(JmapAuthConfig::Bearer { token: Secret::Raw("t".to_string()) });
    let acc = account_from_plan(jmap, auth).expect("a JMAP account");
    assert!(acc.default && acc.imap.is_none() && acc.smtp.is_none() && acc.email.is_empty());
    let j = acc.jmap.expect("JMAP section");
    assert_eq!(j.server, "https://api.x.org");
    assert!(j.tls.provider.is_none() && j.tls.cert.is_none());

    let imap = AccountPlan::Imap {
        imap_server: "imaps://imap.x.org:993".to_string(),
        imap_starttls: false,
        smtp: Some(("smtp://smtp.x.org:587".to_string(), true)),
        login: Some("me@x.org".to_string()),
    };
    let mut sasl = SaslConfig::new();
    sasl.login = Some(SaslLoginConfig { username: "me@x.org".to_string(), password: Secret::Raw("pw".to_string()) });
    let acc = account_from_plan(imap, WizardAuth::Sasl(sasl)).expect("an IMAP account");
    assert!(acc.default && acc.jmap.is_none());
    let i = acc.imap.expect("IMAP section");
    assert_eq!(i.url, "imaps://imap.x.org:993");
    assert!(!i.starttls);
    assert_eq!(i.sasl.login.map(|l| l.username), Some("me@x.org".to_string()));
    let o = acc.smtp.expect("SMTP section");
    assert_eq!(o.url, "smtp://smtp.x.org:587");
    assert!(o.starttls);
    assert!(o.sasl.login.is_some());

    let mismatch = AccountPlan::Jmap { server: "https://j".to_string(), login: None };
    assert!(account_from_plan(mismatch, WizardAuth::Sasl(SaslConfig::new())).is_none());
}

#[test]
fn sasl_mechanism_is_the_first_with_credentials() {
    let mut sasl = SaslConfig::new();
    assert_eq!(sasl.chosen_mechanism(), None);
    sasl.anonymous = Some(SaslAnonymousConfig { message: None });
    assert_eq!(sasl.chosen_mechanism(), Some(SaslMechanismConfig::Anonymous));
    sasl.login = Some(SaslLoginConfig {
        username: "me".to_string(),
        password: Secret::Raw("pw".to_string()),
    });
    assert_eq!(sasl.chosen_mechanism(), Some(SaslMechanismConfig::Login));
    sasl.mechanisms = Some(vec![SaslMechanismConfig::Plain, SaslMechanismConfig::Anonymous]);
    assert_eq!(sasl.chosen_mechanism(), Some(SaslMechanismConfig::Anonymous));
    assert_eq!(sasl.usable_mechanisms(), vec![SaslMechanismConfig::Anonymous]);
    sasl.mechanisms = None;
    assert_eq!(
        sasl.usable_mechanisms(),
        vec![SaslMechanismConfig::Login, SaslMechanismConfig::Anonymous]
    );
    sasl.mechanisms = Some(vec![SaslMechanismConfig::Plain]);
    assert_eq!(sasl.chosen_mechanism(), None);
    assert!(sasl.usable_mechanisms().is_empty());
}

#[test]
fn resolver_is_cloudflare_over_tcp() {
    let url = discovery_resolver().expect("the resolver address parses");
    assert_eq!(url.scheme(), "tcp");
    assert_eq!(url.host_str(), Some("1.1.1.1"));
    assert_eq!(url.port(), Some(53));
}

#[test]
fn wizard_screen_lines() {
    let mut w = WizardState {
        uri: "imaps://me@x.org".to_string(),
        username: "me".to_string(),
        password: "abc".to_string(),
        active_field: WizardField::Uri,
        connecting: false,
        error: Some("refused".to_string()),
    };
    let lines = wizard_lines(&w);
    let shown: Vec<(&str, &str, bool)> = lines.iter().map(|l| (l.label.as_str(), l.text.as_str(), l.active)).collect();
    assert_eq!(
        shown,
        vec![("URI", "imaps://me@x.org█", true), ("Username", "me", false), ("Password", "•••", false)]
    );
    assert_eq!(wizard_status_text(&wizard_status(&w)), "refused");
    w.next_field();
    w.next_field();
    assert_eq!(w.active_field, WizardField::Password);
    assert_eq!(wizard_lines(&w)[2].text, "•••█");
    w.connecting = true;
    assert!(matches!(wizard_status(&w), WizardStatus::Connecting));
    assert_eq!(wizard_status_text(&wizard_status(&w)), "Connecting…");
    w.next_field();
    assert_eq!(w.active_field, WizardField::Uri);
}

#[test]
fn headers_and_bodies_after_parsing() {
    let from = AddressHeader { name: "From".to_string(), groups: vec![vec![Some(" a@x.org ".to_string())]] };
    let to = AddressHeader { name: "To".to_string(), groups: vec![vec![Some("b@y.org".to_string()), None, Some("b@y.org".to_string())]] };
    match envelope_of(vec![from, to]) {
        Ok((f, rcpt)) => {
            assert_eq!(f, "a@x.org");
            assert_eq!(rcpt, vec!["b@y.org".to_string()]);
        }
        Err(_) => panic!("sender and recipient"),
    }
    let subject = AddressHeader { name: "Subject".to_string(), groups: vec![] };
    assert!(matches!(envelope_of(vec![subject]), Err(SendError::NoSender)));
    assert!(matches!(body_of(None, b"x"), Err(DecodeError::Unparsable)));
    assert_eq!(body_of(Some((Some("plain".to_string()), Some("<b>x</b>".to_string()))), b"x").ok(), Some("plain".to_string()));
    assert_eq!(body_of(Some((None, None)), b"raw text").ok(), Some("raw text".to_string()));
    let html = body_of(Some((None, Some("<p>hello</p>".to_string()))), b"").ok().unwrap_or_default();
    assert!(html.contains("hello"));
}
