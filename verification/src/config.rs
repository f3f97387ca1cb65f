//! The account configuration, as plain values.
//!
//! A configuration file is read and deserialised outside the library; what
//! lands here is the data the client decides on. Paths and URLs are kept as
//! the text the user wrote, and secrets as the recipe that yields them.

use vstd::prelude::*;

use crate::keys::Keybinds;

verus! {

/// Where a password or a token comes from.
pub enum Secret {
    /// The secret itself.
    Raw(String),
    /// A shell command whose output is the secret.
    Command(String),
    /// The name of an entry in the system keyring.
    Keyring(String),
}

/// The whole configuration: global defaults and the named accounts.
pub struct Config {
    pub display_name: Option<String>,
    pub signature: Option<String>,
    pub signature_delim: Option<String>,
    pub downloads_dir: Option<String>,
    /// The accounts, each under its name, in the order the table was read.
    pub accounts: Vec<(String, AccountConfig)>,
    /// The navigation aliases, when the file names a flavor.
    pub keybinds: Option<Keybinds>,
}

/// Why no account could be used.
#[derive(Debug, Clone, Copy, PartialEq, Eq, Structural)]
pub enum AccountError {
    NotFound,
}

impl AccountError {
    pub open spec fn message_text(&self) -> Seq<char> {
        "Account not found"@
    }

    pub fn message(&self) -> (text: String)
        ensures
            text@ == self.message_text(),
    {
        String::from_str("Account not found")
    }
}

/// The navigation aliases in force: those of the command line, else those
/// of the configuration, else none.
pub fn effective_keybinds(cli: Option<Keybinds>, config: Option<Keybinds>) -> (kb: Option<Keybinds>)
    ensures
        kb == match cli {
            Some(k) => Some(k),
            None => config,
        },
{
    match cli {
        Some(k) => Some(k),
        None => config,
    }
}

pub struct AccountConfig {
    pub default: bool,
    pub imap: Option<ImapConfig>,
    pub smtp: Option<SmtpConfig>,
    pub jmap: Option<JmapConfig>,
    pub email: String,
    pub display_name: Option<String>,
    pub signature: Option<String>,
    pub signature_delim: Option<String>,
    pub downloads_dir: Option<String>,
}

pub struct SmtpConfig {
    pub url: String,
    pub tls: TlsConfig,
    pub starttls: bool,
    pub sasl: SaslConfig,
}

pub struct ImapConfig {
    pub url: String,
    pub tls: TlsConfig,
    pub starttls: bool,
    pub sasl: SaslConfig,
}

pub struct JmapConfig {
    pub server: String,
    pub tls: TlsConfig,
    pub auth: JmapAuthConfig,
}

pub enum JmapAuthConfig {
    Bearer { token: Secret },
    Basic { username: String, password: Secret },
    Header { value: Secret },
}

pub struct TlsConfig {
    pub provider: Option<TlsProviderConfig>,
    pub rustls: RustlsConfig,
    pub cert: Option<String>,
}

#[derive(Clone, Copy, Debug, PartialEq, Eq, Structural)]
pub enum TlsProviderConfig {
    Rustls,
    NativeTls,
}

pub struct RustlsConfig {
    pub crypto: Option<RustlsCryptoConfig>,
}

#[derive(Clone, Copy, Debug, PartialEq, Eq, Structural)]
pub enum RustlsCryptoConfig {
    Aws,
    Ring,
}

pub struct SaslConfig {
    pub mechanisms: Option<Vec<SaslMechanismConfig>>,
    pub login: Option<SaslLoginConfig>,
    pub plain: Option<SaslPlainConfig>,
    pub anonymous: Option<SaslAnonymousConfig>,
}

#[derive(Clone, Copy, Debug, PartialEq, Eq, Structural)]
pub enum SaslMechanismConfig {
    Login,
    Plain,
    Anonymous,
}

pub struct SaslLoginConfig {
    pub username: String,
    pub password: Secret,
}

pub struct SaslPlainConfig {
    pub authzid: Option<String>,
    pub authcid: String,
    pub passwd: Secret,
}

pub struct SaslAnonymousConfig {
    pub message: Option<String>,
}

impl TlsConfig {
    /// The TLS settings a section gets when it names none.
    pub fn new() -> (tls: TlsConfig)
        ensures
            tls.provider is None,
            tls.rustls.crypto is None,
            tls.cert is None,
    {
        TlsConfig { provider: None, rustls: RustlsConfig { crypto: None }, cert: None }
    }
}

impl SaslConfig {
    /// The SASL settings a section gets when it names none.
    pub fn new() -> (sasl: SaslConfig)
        ensures
            sasl.mechanisms is None,
            sasl.login is None,
            sasl.plain is None,
            sasl.anonymous is None,
    {
        SaslConfig { mechanisms: None, login: None, plain: None, anonymous: None }
    }
}

impl TlsConfig {
    /// The settings of a section that names none.
    pub open spec fn is_default(&self) -> bool {
        &&& self.provider is None
        &&& self.rustls.crypto is None
        &&& self.cert is None
    }
}

fn clone_secret(s: &Secret) -> (c: Secret)
    ensures
        c == *s,
{
    match s {
        Secret::Raw(v) => Secret::Raw(v.clone()),
        Secret::Command(v) => Secret::Command(v.clone()),
        Secret::Keyring(v) => Secret::Keyring(v.clone()),
    }
}

impl SaslConfig {
    /// The same settings: the same mechanism list and the same credentials.
    pub open spec fn same_as(&self, other: &SaslConfig) -> bool {
        &&& match (self.mechanisms, other.mechanisms) {
            (Some(a), Some(b)) => a@ == b@,
            (None, None) => true,
            _ => false,
        }
        &&& self.login == other.login
        &&& self.plain == other.plain
        &&& self.anonymous == other.anonymous
    }

    /// A copy of the settings.
    pub fn duplicate(&self) -> (c: SaslConfig)
        ensures
            c.same_as(self),
    {
        let mechanisms = match &self.mechanisms {
            Some(v) => {
                let c = v.clone();
                assert(c@ =~= v@);
                Some(c)
            },
            None => None,
        };
        let login = match &self.login {
            Some(l) => Some(
                SaslLoginConfig { username: l.username.clone(), password: clone_secret(&l.password) },
            ),
            None => None,
        };
        let plain = match &self.plain {
            Some(p) => Some(
                SaslPlainConfig {
                    authzid: match &p.authzid {
                        Some(a) => Some(a.clone()),
                        None => None,
                    },
                    authcid: p.authcid.clone(),
                    passwd: clone_secret(&p.passwd),
                },
            ),
            None => None,
        };
        let anonymous = match &self.anonymous {
            Some(a) => Some(
                SaslAnonymousConfig {
                    message: match &a.message {
                        Some(m) => Some(m.clone()),
                        None => None,
                    },
                },
            ),
            None => None,
        };
        SaslConfig { mechanisms, login, plain, anonymous }
    }
}

impl SaslConfig {
    /// Whether the section holds the credentials that mechanism `m` sends.
    pub open spec fn has_credentials(&self, m: SaslMechanismConfig) -> bool {
        match m {
            SaslMechanismConfig::Login => self.login is Some,
            SaslMechanismConfig::Plain => self.plain is Some,
            SaslMechanismConfig::Anonymous => self.anonymous is Some,
        }
    }

    /// The mechanisms to try, in order: those listed, or else login, plain
    /// and anonymous.
    pub open spec fn candidates(&self) -> Seq<SaslMechanismConfig> {
        match self.mechanisms {
            Some(listed) => listed@,
            None => seq![
                SaslMechanismConfig::Login,
                SaslMechanismConfig::Plain,
                SaslMechanismConfig::Anonymous,
            ],
        }
    }

    /// The first of `ms` whose credentials the section holds.
    pub open spec fn first_usable(&self, ms: Seq<SaslMechanismConfig>) -> Option<SaslMechanismConfig>
        decreases ms.len(),
    {
        if ms.len() == 0 {
            None
        } else if self.has_credentials(ms[0]) {
            Some(ms[0])
        } else {
            self.first_usable(ms.drop_first())
        }
    }

    /// The mechanisms of `ms` whose credentials the section holds, in order.
    pub open spec fn usable(&self, ms: Seq<SaslMechanismConfig>) -> Seq<SaslMechanismConfig>
        decreases ms.len(),
    {
        if ms.len() == 0 {
            Seq::empty()
        } else if self.has_credentials(ms[0]) {
            seq![ms[0]] + self.usable(ms.drop_first())
        } else {
            self.usable(ms.drop_first())
        }
    }

    /// Every mechanism to try, in order: the candidates whose credentials
    /// are configured. The first of them is `chosen_mechanism`.
    pub fn usable_mechanisms(&self) -> (ms: Vec<SaslMechanismConfig>)
        ensures
            ms@ == self.usable(self.candidates()),
    {
        let defaults = vec![
            SaslMechanismConfig::Login,
            SaslMechanismConfig::Plain,
            SaslMechanismConfig::Anonymous,
        ];
        let list: &Vec<SaslMechanismConfig> = match &self.mechanisms {
            Some(listed) => listed,
            None => &defaults,
        };
        let mut out: Vec<SaslMechanismConfig> = Vec::new();
        let mut i: usize = 0;
        assert(list@.skip(0) =~= list@);
        assert(out@ + self.usable(list@.skip(0)) =~= self.usable(list@));
        while i < list.len()
            invariant
                i <= list@.len(),
                list@ == self.candidates(),
                self.usable(list@) == out@ + self.usable(list@.skip(i as int)),
            decreases list@.len() - i,
        {
            let m = list[i];
            assert(list@.skip(i as int)[0] == m);
            assert(list@.skip(i as int).drop_first() =~= list@.skip(i + 1));
            if self.has_credentials_for(m) {
                let ghost before = out@;
                out.push(m);
                assert(before + (seq![m] + self.usable(list@.skip(i + 1))) =~= out@ + self.usable(
                    list@.skip(i + 1),
                ));
            }
            i = i + 1;
        }
        assert(list@.skip(i as int).len() == 0);
        assert(out@ + self.usable(list@.skip(i as int)) =~= out@);
        out
    }

    fn has_credentials_for(&self, m: SaslMechanismConfig) -> (b: bool)
        ensures
            b == self.has_credentials(m),
    {
        match m {
            SaslMechanismConfig::Login => self.login.is_some(),
            SaslMechanismConfig::Plain => self.plain.is_some(),
            SaslMechanismConfig::Anonymous => self.anonymous.is_some(),
        }
    }

    /// The mechanism to authenticate with: the first candidate whose
    /// credentials are configured, or none when no candidate has any.
    pub fn chosen_mechanism(&self) -> (m: Option<SaslMechanismConfig>)
        ensures
            m == self.first_usable(self.candidates()),
    {
        let defaults = vec![
            SaslMechanismConfig::Login,
            SaslMechanismConfig::Plain,
            SaslMechanismConfig::Anonymous,
        ];
        let list: &Vec<SaslMechanismConfig> = match &self.mechanisms {
            Some(listed) => listed,
            None => &defaults,
        };
        proof {
            assert(list@ == self.candidates());
            assert(list@.skip(0) =~= list@);
        }
        let mut i: usize = 0;
        while i < list.len()
            invariant
                i <= list@.len(),
                list@ == self.candidates(),
                self.first_usable(list@) == self.first_usable(list@.skip(i as int)),
            decreases list@.len() - i,
        {
            let m = list[i];
            proof {
                assert(list@.skip(i as int)[0] == m);
                assert(list@.skip(i as int).drop_first() =~= list@.skip(i + 1));
            }
            if self.has_credentials_for(m) {
                return Some(m);
            }
            i = i + 1;
        }
        proof {
            assert(list@.skip(i as int).len() == 0);
        }
        None
    }
}

/// What `first_usable` picks is in the list and has its credentials; when
/// it picks nothing, no mechanism of the list has them.
pub proof fn lemma_first_usable(sasl: &SaslConfig, ms: Seq<SaslMechanismConfig>)
    ensures
        sasl.first_usable(ms) matches Some(m) ==> ms.contains(m) && sasl.has_credentials(m),
        sasl.first_usable(ms) is None ==> forall|i: int|
            0 <= i < ms.len() ==> !sasl.has_credentials(#[trigger] ms[i]),
    decreases ms.len(),
{
    if ms.len() > 0 && !sasl.has_credentials(ms[0]) {
        lemma_first_usable(sasl, ms.drop_first());
        if let Some(m) = sasl.first_usable(ms) {
            let k = choose|k: int| 0 <= k < ms.drop_first().len() && ms.drop_first()[k] == m;
            assert(ms[k + 1] == m);
        } else {
            assert forall|i: int| 0 <= i < ms.len() implies !sasl.has_credentials(#[trigger] ms[i]) by {
                if i > 0 {
                    assert(ms[i] == ms.drop_first()[i - 1]);
                }
            }
        }
    }
}

/// The chosen mechanism is the first of those to try, and none is chosen
/// exactly when there is none to try.
pub proof fn law_chosen_is_first_usable(sasl: &SaslConfig, ms: Seq<SaslMechanismConfig>)
    ensures
        sasl.usable(ms).len() == 0 <==> sasl.first_usable(ms) is None,
        sasl.usable(ms).len() > 0 ==> sasl.first_usable(ms) == Some(sasl.usable(ms)[0]),
    decreases ms.len(),
{
    if ms.len() > 0 && !sasl.has_credentials(ms[0]) {
        law_chosen_is_first_usable(sasl, ms.drop_first());
    }
}

/// The mechanism a section authenticates with is one it lists (or one of
/// the defaults) and has credentials for; no mechanism is picked only when
/// none of them has credentials.
pub proof fn law_chosen_mechanism_is_usable(sasl: &SaslConfig)
    ensures
        sasl.first_usable(sasl.candidates()) matches Some(m) ==> sasl.candidates().contains(m)
            && sasl.has_credentials(m),
        sasl.first_usable(sasl.candidates()) is None ==> forall|i: int|
            0 <= i < sasl.candidates().len() ==> !sasl.has_credentials(
                #[trigger] sasl.candidates()[i],
            ),
{
    lemma_first_usable(sasl, sasl.candidates());
}

impl Config {
    /// The account names, in order.
    pub open spec fn names(&self) -> Seq<Seq<char>> {
        self.accounts@.map_values(|entry: (String, AccountConfig)| entry.0@)
    }

    /// No two accounts share a name (they come from the keys of a table).
    pub open spec fn wf(&self) -> bool {
        forall|i: int, j: int|
            0 <= i < j < self.accounts@.len() ==> self.accounts@[i].0@ != self.accounts@[j].0@
    }

    /// The index of the first account marked as the default, if any.
    pub open spec fn default_position(&self) -> Option<int> {
        if exists|i: int| 0 <= i < self.accounts@.len() && self.accounts@[i].1.default {
            Some(
                choose|i: int|
                    0 <= i < self.accounts@.len() && self.accounts@[i].1.default && forall|j: int|
                        0 <= j < i ==> !self.accounts@[j].1.default,
            )
        } else {
            None
        }
    }

    /// The index of the account called `name`, if any.
    pub open spec fn position_of(&self, name: Seq<char>) -> Option<int> {
        if exists|i: int| 0 <= i < self.accounts@.len() && self.accounts@[i].0@ == name {
            Some(
                choose|i: int|
                    0 <= i < self.accounts@.len() && self.accounts@[i].0@ == name && forall|j: int|
                        0 <= j < i ==> self.accounts@[j].0@ != name,
            )
        } else {
            None
        }
    }

    /// The first account marked `default`, with its name.
    pub fn find_default_account(&self) -> (found: Option<(&String, &AccountConfig)>)
        ensures
            match self.default_position() {
                None => found is None,
                Some(i) => found == Some((&self.accounts@[i].0, &self.accounts@[i].1)),
            },
    {
        let mut i: usize = 0;
        while i < self.accounts.len()
            invariant
                i <= self.accounts@.len(),
                forall|j: int| 0 <= j < i ==> !self.accounts@[j].1.default,
            decreases self.accounts@.len() - i,
        {
            if self.accounts[i].1.default {
                proof {
                    let k = self.default_position().unwrap();
                    assert(self.accounts@[i as int].1.default);
                    if k < i {
                        assert(!self.accounts@[k].1.default);
                    } else if k > i {
                        assert(!self.accounts@[i as int].1.default);
                    }
                }
                return Some((&self.accounts[i].0, &self.accounts[i].1));
            }
            i = i + 1;
        }
        None
    }

    /// Which account a name asks for: no name, an empty one or `default`
    /// ask for the default account; another name asks for the account
    /// called so.
    pub open spec fn picked_position(&self, name: Option<Seq<char>>) -> Option<int> {
        match name {
            Some(n) => if n.len() == 0 || n == "default"@ {
                self.default_position()
            } else {
                self.position_of(n)
            },
            None => self.default_position(),
        }
    }

    /// The account a name asks for, with its name, or `NotFound`.
    pub fn take_account(&self, name: Option<&str>) -> (found: Result<
        (&String, &AccountConfig),
        AccountError,
    >)
        ensures
            match self.picked_position(
                match name {
                    Some(n) => Some(n@),
                    None => None,
                },
            ) {
                None => found == Err::<(&String, &AccountConfig), AccountError>(AccountError::NotFound),
                Some(i) => found == Ok::<(&String, &AccountConfig), AccountError>(
                    (&self.accounts@[i].0, &self.accounts@[i].1),
                ),
            },
    {
        let by_default = match name {
            None => true,
            Some(n) => n.unicode_len() == 0 || String::from_str(n) == String::from_str("default"),
        };
        let found = if by_default {
            self.find_default_account()
        } else {
            match name {
                Some(n) => self.find_account(n),
                None => None,
            }
        };
        match found {
            Some(pair) => Ok(pair),
            None => Err(AccountError::NotFound),
        }
    }

    /// The account called `name`, with its name.
    pub fn find_account(&self, name: &str) -> (found: Option<(&String, &AccountConfig)>)
        ensures
            match self.position_of(name@) {
                None => found is None,
                Some(i) => found == Some((&self.accounts@[i].0, &self.accounts@[i].1)),
            },
    {
        let wanted = String::from_str(name);
        let mut i: usize = 0;
        while i < self.accounts.len()
            invariant
                i <= self.accounts@.len(),
                wanted@ == name@,
                forall|j: int| 0 <= j < i ==> self.accounts@[j].0@ != name@,
            decreases self.accounts@.len() - i,
        {
            if self.accounts[i].0 == wanted {
                proof {
                    let k = self.position_of(name@).unwrap();
                    assert(self.accounts@[i as int].0@ == name@);
                    if k < i {
                        assert(self.accounts@[k].0@ != name@);
                    } else if k > i {
                        assert(self.accounts@[i as int].0@ != name@);
                    }
                }
                return Some((&self.accounts[i].0, &self.accounts[i].1));
            }
            i = i + 1;
        }
        None
    }
}

} // verus!
