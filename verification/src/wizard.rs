//! The decisions of the setup wizard: what the user typed (an e-mail
//! address, a server URL or a bare domain), which endpoints a discovery
//! probe found, and which account to build from them. Prompting the user
//! and probing the network happen outside.

use vstd::prelude::*;
use std::path::PathBuf;
use url::Url;

use crate::text::{
    after_first_char, ascii_lower, count_char, count_of, contains_str, decimal,
    eq_ignore_ascii_case, eq_ignore_case, first_index_of, has_substring, last_index_of,
    rsplit_once_char, to_ascii_lowercase, u16_to_decimal,
};

use crate::config::{AccountConfig, ImapConfig, JmapAuthConfig, JmapConfig, SaslConfig, SmtpConfig, TlsConfig};

verus! {

#[verifier::external_type_specification]
#[verifier::external_body]
pub struct ExUrl(url::Url);

#[verifier::external_type_specification]
#[verifier::external_body]
pub struct ExPathBuf(std::path::PathBuf);

/// What `Url::parse` gives for a text: the URL, or the error, where `None`
/// stands for `ParseError::RelativeUrlWithoutBase` and `Some` holds the
/// display text of any other error.
pub uninterp spec fn parsed_url(input: Seq<char>) -> Result<Url, Option<Seq<char>>>;

/// What `Url::scheme` gives for a URL.
pub uninterp spec fn url_scheme(url: Url) -> Seq<char>;

/// What `Url::host_str` gives for a URL.
pub uninterp spec fn url_host(url: Url) -> Option<Seq<char>>;

/// What `Url::as_str` gives for a URL: its serialisation.
pub uninterp spec fn url_text(url: Url) -> Seq<char>;

/// What `Url::to_file_path` gives for a URL, `None` for its error.
pub uninterp spec fn url_file_path(url: Url) -> Option<PathBuf>;

/// Calls `Url::parse(input)`.
#[verifier::external_body]
pub(crate) fn parse_url(input: &str) -> (url: Result<Url, Option<String>>)
    ensures
        match url {
            Ok(u) => parsed_url(input@) == Ok::<Url, Option<Seq<char>>>(u),
            Err(None) => parsed_url(input@) == Err::<Url, Option<Seq<char>>>(None),
            Err(Some(m)) => parsed_url(input@) == Err::<Url, Option<Seq<char>>>(Some(m@)),
        },
{
    match Url::parse(input) {
        Ok(u) => Ok(u),
        Err(url::ParseError::RelativeUrlWithoutBase) => Err(None),
        Err(err) => Err(Some(err.to_string())),
    }
}

/// Calls `url.scheme()`.
#[verifier::external_body]
fn scheme_of(url: &Url) -> (scheme: &str)
    ensures
        scheme@ == url_scheme(*url),
{
    url.scheme()
}

/// Calls `url.host_str()`.
#[verifier::external_body]
fn host_of(url: &Url) -> (host: Option<&str>)
    ensures
        match host {
            Some(h) => url_host(*url) == Some(h@),
            None => url_host(*url) is None,
        },
{
    url.host_str()
}

/// Calls `url.as_str()`.
#[verifier::external_body]
fn text_of(url: &Url) -> (text: &str)
    ensures
        text@ == url_text(*url),
{
    url.as_str()
}

/// Calls `url.to_file_path()`.
#[verifier::external_body]
fn file_path_of(url: &Url) -> (path: Option<PathBuf>)
    ensures
        path == url_file_path(*url),
{
    url.to_file_path().ok()
}

/// What the user typed.
pub enum Input {
    Email { local: String, domain: String },
    Url(Url),
    FileUrl(PathBuf),
    Domain(String),
}

/// Why the wizard cannot go on.
pub enum WizardError {
    EmptyInput,
    /// A `file://` URL with no usable filesystem path; the typed text.
    FilePath(String),
    /// The text is not a URL; the parser's message.
    InvalidUrl(String),
    /// The URL names no host; the URL.
    MissingHost(String),
    /// The URL's scheme names no supported protocol; the scheme.
    UnsupportedScheme(String),
    /// No probe found any endpoint for the domain; the domain.
    NothingDiscovered(String),
    /// A probe found endpoints, but no IMAP one.
    NoImapEndpoint,
}

impl WizardError {
    pub open spec fn message_text(&self) -> Seq<char> {
        match self {
            WizardError::EmptyInput => "Empty input"@,
            WizardError::FilePath(input) => "Cannot resolve filesystem path from `"@ + input@ + "`"@,
            WizardError::InvalidUrl(m) => m@,
            WizardError::MissingHost(url) => "URL `"@ + url@ + "` is missing a host"@,
            WizardError::UnsupportedScheme(s) => "Unsupported URL scheme `"@ + s@ + "`"@,
            WizardError::NothingDiscovered(domain) => "No configuration could be discovered for `"@
                + domain@
                + "`. Try giving an `imap[s]://`, `smtp[s]://` or `https://` URL instead."@,
            WizardError::NoImapEndpoint => "Discovery returned no IMAP endpoint"@,
        }
    }

    /// What to tell the user.
    pub fn message(&self) -> (text: String)
        ensures
            text@ == self.message_text(),
    {
        match self {
            WizardError::EmptyInput => String::from_str("Empty input"),
            WizardError::FilePath(input) => {
                let mut t = String::from_str("Cannot resolve filesystem path from `");
                t.append(input.as_str());
                t.append("`");
                t
            },
            WizardError::InvalidUrl(m) => m.clone(),
            WizardError::MissingHost(url) => {
                let mut t = String::from_str("URL `");
                t.append(url.as_str());
                t.append("` is missing a host");
                t
            },
            WizardError::UnsupportedScheme(scheme) => {
                let mut t = String::from_str("Unsupported URL scheme `");
                t.append(scheme.as_str());
                t.append("`");
                t
            },
            WizardError::NothingDiscovered(domain) => {
                let mut t = String::from_str("No configuration could be discovered for `");
                t.append(domain.as_str());
                t.append(
                    "`. Try giving an `imap[s]://`, `smtp[s]://` or `https://` URL instead.",
                );
                t
            },
            WizardError::NoImapEndpoint => String::from_str("Discovery returned no IMAP endpoint"),
        }
    }
}

/// The text reads as an e-mail address: it has an `@` and is not a URL.
pub open spec fn looks_like_email(input: Seq<char>) -> bool {
    input.contains('@') && !has_substring(input, "://"@)
}

/// How a typed text is read.
pub open spec fn classified(input: Seq<char>) -> Option<InputKind> {
    if input.len() == 0 {
        None
    } else if looks_like_email(input) {
        Some(InputKind::Email)
    } else {
        match parsed_url(input) {
            Ok(u) => if eq_ignore_case(url_scheme(u), "file"@) {
                Some(InputKind::FileUrl)
            } else {
                Some(InputKind::Url)
            },
            Err(None) => Some(InputKind::Domain),
            Err(Some(_)) => Some(InputKind::Invalid),
        }
    }
}

/// The ways a typed text can be read.
#[derive(Debug, Clone, Copy, PartialEq, Eq, Structural)]
pub enum InputKind {
    Email,
    Url,
    FileUrl,
    Domain,
    Invalid,
}

/// Reads what the user typed: an e-mail address (split at its last `@`),
/// a `file://` URL (a local mail directory), another URL, or, for a text
/// that is no URL at all, a bare domain.
pub fn classify(input: &str) -> (result: Result<Input, WizardError>)
    ensures
        input@.len() == 0 <==> result matches Err(WizardError::EmptyInput),
        classified(input@) == Some(InputKind::Email) ==> {
            let at = last_index_of(input@, '@')->0;
            &&& result matches Ok(Input::Email { local, domain })
            &&& local@ == input@.subrange(0, at)
            &&& domain@ == input@.subrange(at + 1, input@.len() as int)
        },
        classified(input@) == Some(InputKind::FileUrl) ==> match url_file_path(
            parsed_url(input@)->Ok_0,
        ) {
            Some(p) => result matches Ok(Input::FileUrl(q)) && q == p,
            None => result matches Err(WizardError::FilePath(t)) && t@ == input@,
        },
        classified(input@) == Some(InputKind::Url) ==> (result matches Ok(Input::Url(u)) && u
            == parsed_url(input@)->Ok_0),
        classified(input@) == Some(InputKind::Domain) ==> (result matches Ok(Input::Domain(d))
            && d@ == input@),
        classified(input@) == Some(InputKind::Invalid) ==> (result matches Err(
            WizardError::InvalidUrl(m),
        ) && parsed_url(input@) == Err::<Url, Option<Seq<char>>>(Some(m@))),
{
    if input.is_empty() {
        return Err(WizardError::EmptyInput);
    }
    let has_at = find_at(input);
    if has_at && !contains_str(input, "://") {
        match rsplit_once_char(input, '@') {
            Some((local, domain)) => return Ok(Input::Email { local, domain }),
            None => {
                proof {
                    crate::text::lemma_last_index(input@, '@');
                }
                return Err(WizardError::EmptyInput);
            },
        }
    }
    match parse_url(input) {
        Ok(url) => {
            if eq_ignore_ascii_case(scheme_of(&url), "file") {
                match file_path_of(&url) {
                    Some(path) => Ok(Input::FileUrl(path)),
                    None => Err(WizardError::FilePath(String::from_str(input))),
                }
            } else {
                Ok(Input::Url(url))
            }
        },
        Err(None) => Ok(Input::Domain(String::from_str(input))),
        Err(Some(message)) => Err(WizardError::InvalidUrl(message)),
    }
}

fn find_at(input: &str) -> (found: bool)
    ensures
        found == input@.contains('@'),
{
    let r = crate::text::find_first(input, '@');
    proof {
        crate::text::lemma_first_index(input@, '@');
        if input@.contains('@') {
            let k = choose|k: int| 0 <= k < input@.len() && input@[k] == '@';
        }
    }
    r.is_some()
}

/// The domain the discovery probes target for a server host: a host with
/// three labels or more loses its first one (`imap.example.org` becomes
/// `example.org`); a shorter host is kept.
pub open spec fn discovery_domain(host: Seq<char>) -> Seq<char> {
    if count_of(host, '.') >= 2 {
        match first_index_of(host, '.') {
            Some(i) => host.subrange(i + 1, host.len() as int),
            None => host,
        }
    } else {
        host
    }
}

/// The DNS resolver that the discovery probes query, as `Url::parse` reads
/// `tcp://1.1.1.1:53`.
pub fn discovery_resolver() -> (url: Result<Url, Option<String>>)
    ensures
        match url {
            Ok(u) => parsed_url("tcp://1.1.1.1:53"@) == Ok::<Url, Option<Seq<char>>>(u),
            Err(None) => parsed_url("tcp://1.1.1.1:53"@) == Err::<Url, Option<Seq<char>>>(None),
            Err(Some(m)) => parsed_url("tcp://1.1.1.1:53"@) == Err::<Url, Option<Seq<char>>>(
                Some(m@),
            ),
        },
{
    parse_url("tcp://1.1.1.1:53")
}

/// Strips a leading `imap.` / `smtp.` / `mail.` style label from a host,
/// so that discovery targets the apex domain.
pub fn extract_discovery_domain(host: &str) -> (domain: String)
    ensures
        domain@ == discovery_domain(host@),
{
    if count_char(host, '.') >= 2 {
        match after_first_char(host, '.') {
            Some(tail) => tail,
            None => String::from_str(host),
        }
    } else {
        String::from_str(host)
    }
}

/// The discovery domain is the host itself or a proper suffix of it, and
/// it has one dot fewer when the host had two or more.
pub proof fn law_discovery_domain_is_suffix(host: Seq<char>)
    ensures
        ({
            let d = discovery_domain(host);
            exists|i: int|
                0 <= i <= host.len() && d == host.subrange(i, host.len() as int)
        }),
        count_of(host, '.') >= 2 ==> discovery_domain(host).len() < host.len(),
{
    crate::text::lemma_first_index(host, '.');
    crate::text::lemma_count_positive(host, '.');
    let d = discovery_domain(host);
    if count_of(host, '.') >= 2 {
        match first_index_of(host, '.') {
            Some(i) => {
                assert(d == host.subrange(i + 1, host.len() as int));
            },
            None => {
                assert(d == host.subrange(0, host.len() as int));
            },
        }
    } else {
        assert(d == host.subrange(0, host.len() as int));
    }
}

/// What a server URL asks the wizard to do.
pub enum UrlPlan {
    /// Discover IMAP and SMTP endpoints for a domain.
    Discover { domain: String },
    /// Use a JMAP server at this address.
    Jmap { server: String },
}

pub open spec fn lower(s: Seq<char>) -> Seq<char> {
    s.map_values(|c: char| ascii_lower(c))
}

pub open spec fn is_imap_or_smtp_scheme(s: Seq<char>) -> bool {
    s == "imap"@ || s == "imaps"@ || s == "smtp"@ || s == "smtps"@
}

pub open spec fn is_jmap_scheme(s: Seq<char>) -> bool {
    s == "jmap"@ || s == "jmaps"@ || s == "https"@
}

fn equals(a: &String, b: &str) -> (same: bool)
    ensures
        same == (a@ == b@),
{
    *a == String::from_str(b)
}

/// Reads a server URL: `imap[s]://` and `smtp[s]://` ask for discovery on
/// the host's domain, `jmap[s]://` and `https://` name a JMAP server; a URL
/// without a host, or with another scheme, is refused.
pub fn url_plan(url: &Url) -> (plan: Result<UrlPlan, WizardError>)
    ensures
        match url_host(*url) {
            None => plan matches Err(WizardError::MissingHost(u)) && u@ == url_text(*url),
            Some(host) => {
                let scheme = lower(url_scheme(*url));
                if is_imap_or_smtp_scheme(scheme) {
                    plan matches Ok(UrlPlan::Discover { domain }) && domain@ == discovery_domain(
                        host,
                    )
                } else if is_jmap_scheme(scheme) {
                    plan matches Ok(UrlPlan::Jmap { server }) && server@ == url_text(*url)
                } else {
                    plan matches Err(WizardError::UnsupportedScheme(s)) && s@ == scheme
                }
            },
        },
{
    let scheme = to_ascii_lowercase(scheme_of(url));
    let host = match host_of(url) {
        Some(h) => h,
        None => return Err(WizardError::MissingHost(String::from_str(text_of(url)))),
    };
    if equals(&scheme, "imap") || equals(&scheme, "imaps") || equals(&scheme, "smtp") || equals(
        &scheme,
        "smtps",
    ) {
        Ok(UrlPlan::Discover { domain: extract_discovery_domain(host) })
    } else if equals(&scheme, "jmap") || equals(&scheme, "jmaps") || equals(&scheme, "https") {
        Ok(UrlPlan::Jmap { server: String::from_str(text_of(url)) })
    } else {
        Err(WizardError::UnsupportedScheme(scheme))
    }
}

/// A JMAP endpoint a probe reported.
pub struct JmapEndpoint {
    pub server: String,
}

/// An IMAP or SMTP endpoint a probe reported.
pub struct MailEndpoint {
    pub host: String,
    pub port: u16,
    pub starttls: bool,
}

/// What one discovery probe reported.
pub struct DiscoveryResult {
    pub jmap: Option<JmapEndpoint>,
    pub imap: Option<MailEndpoint>,
    pub smtp: Option<MailEndpoint>,
}

impl DiscoveryResult {
    pub open spec fn spec_is_empty(&self) -> bool {
        self.imap is None && self.smtp is None && self.jmap is None
    }

    pub fn new() -> (r: DiscoveryResult)
        ensures
            r.spec_is_empty(),
    {
        DiscoveryResult { jmap: None, imap: None, smtp: None }
    }

    /// The probe found nothing.
    pub fn is_empty(&self) -> (empty: bool)
        ensures
            empty == self.spec_is_empty(),
    {
        self.imap.is_none() && self.smtp.is_none() && self.jmap.is_none()
    }
}

/// The discovery sources, in the order they are probed.
#[derive(Debug, Clone, Copy, PartialEq, Eq, Structural)]
pub enum Probe {
    /// PACC.
    Pacc,
    /// The provider's own autoconfiguration, which needs the local part.
    AutoconfigIsp,
    /// The provider's fallback autoconfiguration address.
    AutoconfigIspFallback,
    /// The Thunderbird ISP database.
    AutoconfigIspdb,
    /// RFC 6186 SRV records.
    Srv,
}

/// The probes to run, in order: the provider's own autoconfiguration only
/// when an e-mail address (and so a local part) was given.
pub fn discovery_order(has_local_part: bool) -> (order: Vec<Probe>)
    ensures
        order@ == (if has_local_part {
            seq![Probe::Pacc, Probe::AutoconfigIsp, Probe::AutoconfigIspFallback, Probe::AutoconfigIspdb, Probe::Srv]
        } else {
            seq![Probe::Pacc, Probe::AutoconfigIspFallback, Probe::AutoconfigIspdb, Probe::Srv]
        }),
{
    let mut order = Vec::new();
    order.push(Probe::Pacc);
    if has_local_part {
        order.push(Probe::AutoconfigIsp);
    }
    order.push(Probe::AutoconfigIspFallback);
    order.push(Probe::AutoconfigIspdb);
    order.push(Probe::Srv);
    order
}

/// A probe answer found something.
pub open spec fn found(answer: Option<DiscoveryResult>) -> bool {
    answer is Some && !answer->0.spec_is_empty()
}

/// The first probe answer that found something.
pub open spec fn first_found(answers: Seq<Option<DiscoveryResult>>) -> Option<int> {
    if exists|i: int| 0 <= i < answers.len() && found(answers[i]) {
        Some(
            choose|i: int|
                0 <= i < answers.len() && found(answers[i]) && forall|j: int|
                    0 <= j < i ==> !found(answers[j]),
        )
    } else {
        None
    }
}

/// The probes in the order they run.
pub open spec fn probe_order(has_local_part: bool) -> Seq<Probe> {
    if has_local_part {
        seq![Probe::Pacc, Probe::AutoconfigIsp, Probe::AutoconfigIspFallback, Probe::AutoconfigIspdb, Probe::Srv]
    } else {
        seq![Probe::Pacc, Probe::AutoconfigIspFallback, Probe::AutoconfigIspdb, Probe::Srv]
    }
}

/// What discovery does next.
#[derive(Debug, Clone, Copy, PartialEq, Eq, Structural)]
pub enum DiscoveryStep {
    /// Run this probe and hand its answer back.
    Run(Probe),
    /// The answer at this position found something: it is the result.
    Found(usize),
    /// Every probe ran and none found anything.
    Exhausted,
}

/// The next move of discovery, from the answers of the probes run so far
/// (one per probe, in the order they ran; `None` for a probe that failed):
/// stop at the first answer that found something, else run the next
/// probe, else give up. No probe runs once one has found something.
pub fn next_discovery_step(has_local_part: bool, answers: &Vec<Option<DiscoveryResult>>) -> (step:
    DiscoveryStep)
    ensures
        match first_found(answers@) {
            Some(i) => step == DiscoveryStep::Found(i as usize),
            None => if answers@.len() < probe_order(has_local_part).len() {
                step == DiscoveryStep::Run(probe_order(has_local_part)[answers@.len() as int])
            } else {
                step == DiscoveryStep::Exhausted
            },
        },
{
    let mut i: usize = 0;
    while i < answers.len()
        invariant
            i <= answers@.len(),
            forall|j: int| 0 <= j < i ==> !found(#[trigger] answers@[j]),
        decreases answers@.len() - i,
    {
        let hit = match &answers[i] {
            Some(r) => !r.is_empty(),
            None => false,
        };
        if hit {
            proof {
                assert(found(answers@[i as int]));
                let k = first_found(answers@)->0;
                assert(first_found(answers@) is Some);
                if k < i {
                    assert(!found(answers@[k]));
                } else if k > i {
                    assert(!found(answers@[i as int]));
                }
            }
            return DiscoveryStep::Found(i);
        }
        i = i + 1;
    }
    proof {
        assert(first_found(answers@) is None);
    }
    let order = discovery_order(has_local_part);
    assert(order@ == probe_order(has_local_part));
    if answers.len() < order.len() {
        DiscoveryStep::Run(order[answers.len()])
    } else {
        DiscoveryStep::Exhausted
    }
}

/// Keeps the first probe answer that found something, or an empty result
/// when none did; a probe that failed answers `None`.
pub fn first_discovery(answers: Vec<Option<DiscoveryResult>>) -> (result: DiscoveryResult)
    ensures
        match first_found(answers@) {
            Some(i) => Some(result) == answers@[i],
            None => result.spec_is_empty(),
        },
{
    let ghost all = answers@;
    let mut pending = answers;
    let mut rest: Vec<Option<DiscoveryResult>> = Vec::new();
    // Walk the answers front to back by taking them off a reversed copy.
    let n = pending.len();
    let mut i: usize = 0;
    while i < n
        invariant
            i <= n,
            n == all.len(),
            pending@ == all.subrange(0, n - i),
            rest@ == all.subrange(n - i, n as int).reverse(),
        decreases n - i,
    {
        let last = pending.pop().unwrap();
        rest.push(last);
        i = i + 1;
        assert(pending@ =~= all.subrange(0, n - i));
        assert(rest@ =~= all.subrange(n - i, n as int).reverse());
    }
    assert(rest@ =~= all.reverse());
    let mut k: usize = 0;
    while k < n
        invariant
            k <= n,
            n == all.len(),
            rest@ == all.subrange(k as int, n as int).reverse(),
            all == answers@,
            forall|j: int| 0 <= j < k ==> !found(all[j]),
        decreases n - k,
    {
        let answer = rest.pop().unwrap();
        assert(answer == all[k as int]);
        k = k + 1;
        assert(rest@ =~= all.subrange(k as int, n as int).reverse());
        match answer {
            Some(r) => {
                if !r.is_empty() {
                    proof {
                        assert(found(all[k - 1]));
                        assert(exists|i: int| 0 <= i < all.len() && found(all[i]));
                        let c = first_found(all)->0;
                        assert(0 <= c < all.len() && found(all[c]));
                        if c < k - 1 {
                            assert(!found(all[c]));
                        } else if c > k - 1 {
                            assert(!found(all[k - 1]));
                        }
                        assert(c == k - 1);
                        assert(Some(r) == all[c]);
                    }
                    return r;
                }
            },
            None => {},
        }
    }
    proof {
        if first_found(all) is Some {
            let c = first_found(all)->0;
            assert(found(all[c]));
        }
    }
    DiscoveryResult::new()
}

/// The account the wizard builds from a discovery answer.
pub enum AccountPlan {
    /// A JMAP-only account; the login to offer, if any.
    Jmap { server: String, login: Option<String> },
    /// An IMAP account, with SMTP when one was found; the login to offer.
    Imap { imap_server: String, imap_starttls: bool, smtp: Option<(String, bool)>, login: Option<String> },
}

/// The server URL for an IMAP or SMTP endpoint: `<scheme>://<host>:<port>`,
/// with the plain scheme for STARTTLS and the `s` one for implicit TLS.
pub open spec fn server_url(plain: Seq<char>, secure: Seq<char>, e: MailEndpoint) -> Seq<char> {
    (if e.starttls {
        plain
    } else {
        secure
    }) + "://"@ + e.host@ + ":"@ + decimal(e.port as nat)
}

pub fn endpoint_url(plain: &str, secure: &str, e: &MailEndpoint) -> (url: String)
    ensures
        url@ == server_url(plain@, secure@, *e),
{
    let mut url = String::from_str(if e.starttls {
        plain
    } else {
        secure
    });
    url.append("://");
    url.append(e.host.as_str());
    url.append(":");
    let port = u16_to_decimal(e.port);
    url.append(port.as_str());
    url
}

/// The login offered by default: the e-mail address the user typed.
pub open spec fn default_login(local: Option<Seq<char>>, domain: Seq<char>) -> Option<Seq<char>> {
    match local {
        Some(l) => Some(l + "@"@ + domain),
        None => None,
    }
}

/// Builds the account from the first discovery answer: JMAP when the
/// answer has a JMAP endpoint, else IMAP (with SMTP when found).
pub fn plan_account(result: DiscoveryResult, local_part: Option<&str>, domain: &str) -> (plan:
    Result<AccountPlan, WizardError>)
    ensures
        result.spec_is_empty() ==> (plan matches Err(WizardError::NothingDiscovered(d)) && d@
            == domain@),
        !result.spec_is_empty() && result.jmap is Some ==> (plan matches Ok(
            AccountPlan::Jmap { server, login },
        ) && server == result.jmap->0.server && crate::app::opt_view(login) == default_login(
            match local_part {
                Some(l) => Some(l@),
                None => None,
            },
            domain@,
        )),
        !result.spec_is_empty() && result.jmap is None && result.imap is None ==> plan matches Err(
            WizardError::NoImapEndpoint,
        ),
        !result.spec_is_empty() && result.jmap is None && result.imap is Some ==> (plan matches Ok(
            AccountPlan::Imap { imap_server, imap_starttls, smtp, login },
        ) && imap_server@ == server_url("imap"@, "imaps"@, result.imap->0) && imap_starttls
            == result.imap->0.starttls && crate::app::opt_view(login) == default_login(
            match local_part {
                Some(l) => Some(l@),
                None => None,
            },
            domain@,
        ) && match result.smtp {
            None => smtp is None,
            Some(e) => smtp matches Some((u, s)) && u@ == server_url("smtp"@, "smtps"@, e) && s
                == e.starttls,
        }),
{
    if result.is_empty() {
        return Err(WizardError::NothingDiscovered(String::from_str(domain)));
    }
    let login = match local_part {
        Some(l) => {
            let mut login = String::from_str(l);
            login.append("@");
            login.append(domain);
            Some(login)
        },
        None => None,
    };
    let DiscoveryResult { jmap, imap, smtp } = result;
    if let Some(endpoint) = jmap {
        return Ok(AccountPlan::Jmap { server: endpoint.server, login });
    }
    let imap = match imap {
        Some(e) => e,
        None => return Err(WizardError::NoImapEndpoint),
    };
    let imap_server = endpoint_url("imap", "imaps", &imap);
    let smtp = match smtp {
        Some(e) => Some((endpoint_url("smtp", "smtps", &e), e.starttls)),
        None => None,
    };
    Ok(AccountPlan::Imap { imap_server, imap_starttls: imap.starttls, smtp, login })
}

/// The credentials the user gave for a planned account: the HTTP
/// authentication of a JMAP server, or the SASL settings shared by the IMAP
/// and SMTP servers.
pub enum WizardAuth {
    Jmap(JmapAuthConfig),
    Sasl(SaslConfig),
}

/// An account with no settings of its own beyond its servers: the default
/// account, no e-mail address, name, signature or downloads directory.
pub open spec fn bare_account(acc: AccountConfig) -> bool {
    &&& acc.default
    &&& acc.email@ == Seq::<char>::empty()
    &&& acc.display_name is None
    &&& acc.signature is None
    &&& acc.signature_delim is None
    &&& acc.downloads_dir is None
}

/// Builds the account the wizard keeps for the session: a JMAP plan gives a
/// JMAP-only account with the given HTTP authentication; an IMAP plan gives
/// an IMAP account, with SMTP when the plan has it, both with the given SASL
/// settings. Every section has the default TLS settings. Credentials of the
/// other kind than the plan needs give nothing.
pub fn account_from_plan(plan: AccountPlan, auth: WizardAuth) -> (acc: Option<AccountConfig>)
    ensures
        match (plan, auth) {
            (AccountPlan::Jmap { server, login: _ }, WizardAuth::Jmap(a)) => acc matches Some(acc) && {
                &&& bare_account(acc)
                &&& acc.imap is None
                &&& acc.smtp is None
                &&& acc.jmap matches Some(j) && j.server == server && j.tls.is_default() && j.auth == a
            },
            (
                AccountPlan::Imap { imap_server, imap_starttls, smtp, login: _ },
                WizardAuth::Sasl(sasl),
            ) => acc matches Some(acc) && {
                &&& bare_account(acc)
                &&& acc.jmap is None
                &&& acc.imap matches Some(i) && i.url == imap_server && i.starttls == imap_starttls
                    && i.tls.is_default() && i.sasl.same_as(&sasl)
                &&& match smtp {
                    None => acc.smtp is None,
                    Some((url, starttls)) => acc.smtp matches Some(o) && o.url == url && o.starttls
                        == starttls && o.tls.is_default() && o.sasl.same_as(&sasl),
                }
            },
            _ => acc is None,
        },
{
    match (plan, auth) {
        (AccountPlan::Jmap { server, login: _ }, WizardAuth::Jmap(a)) => Some(
            AccountConfig {
                default: true,
                imap: None,
                smtp: None,
                jmap: Some(JmapConfig { server, tls: TlsConfig::new(), auth: a }),
                email: String::new(),
                display_name: None,
                signature: None,
                signature_delim: None,
                downloads_dir: None,
            },
        ),
        (AccountPlan::Imap { imap_server, imap_starttls, smtp, login: _ }, WizardAuth::Sasl(sasl)) => {
            let smtp = match smtp {
                None => None,
                Some((url, starttls)) => Some(
                    SmtpConfig { url, tls: TlsConfig::new(), starttls, sasl: sasl.duplicate() },
                ),
            };
            let imap = ImapConfig {
                url: imap_server,
                tls: TlsConfig::new(),
                starttls: imap_starttls,
                sasl: sasl.duplicate(),
            };
            Some(
                AccountConfig {
                    default: true,
                    imap: Some(imap),
                    smtp,
                    jmap: None,
                    email: String::new(),
                    display_name: None,
                    signature: None,
                    signature_delim: None,
                    downloads_dir: None,
                },
            )
        },
        _ => None,
    }
}

} // verus!
