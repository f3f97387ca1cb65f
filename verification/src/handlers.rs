//! The requests sent to IMAP and JMAP servers and how their answers become
//! mailboxes, envelopes and message texts. The exchanges themselves run
//! outside; what is decided on either side of them is here.

use vstd::prelude::*;

use crate::app::{opt_view, Envelope, Mailbox};
use vstd::string::StringSliceAdditionalSpecFns;
use crate::mime::{html_to_text, rendered_html, utf8_lossy, lossy_text, HTML_WIDTH};

verus! {

// ---------------------------------------------------------------------------
// IMAP

/// Lists one page of envelopes of a mailbox, newest first.
pub struct ImapEnvelopeListHandler {
    pub mailbox: String,
    /// The page, counted from zero.
    pub page: usize,
    pub page_size: usize,
}

/// Removes flags from a message.
pub struct ImapFlagRemoveHandler {
    pub mailbox: String,
    pub id: String,
    pub flags: Vec<String>,
}

/// Lists the subscribed mailboxes.
pub struct ImapMailboxListHandler;

/// Fetches a raw message.
pub struct ImapMessageGetRawHandler {
    pub mailbox: String,
    pub id: String,
}

/// Moves a message to another mailbox.
pub struct ImapMessageMoveHandler {
    pub mailbox: String,
    pub id: String,
    pub target: String,
}

/// Appends a raw message to a mailbox.
pub struct ImapMessageSaveHandler {
    pub mailbox: String,
    pub raw: Vec<u8>,
    pub flags: Vec<String>,
}

/// Which messages a page of the envelope list covers.
#[derive(Debug, Clone, Copy, PartialEq, Eq, Structural)]
pub enum PagePlan {
    /// The page is past the end of the mailbox; nothing to fetch.
    Empty { total: u32 },
    /// Fetch the sequence numbers `start..=end`.
    Fetch { start: u32, end: u32, total: u32 },
}

/// The sequence range of a page, newest messages first: page zero ends at
/// the last message, and every page holds at most `page_size` messages.
pub open spec fn page_plan(total: nat, page: nat, page_size: nat) -> PagePlan {
    if total == 0 || page * page_size >= total {
        PagePlan::Empty { total: total as u32 }
    } else {
        let end = total - page * page_size;
        let start = if end > page_size - 1 {
            end - (page_size - 1)
        } else {
            0
        };
        PagePlan::Fetch {
            start: (if start >= 1 {
                start
            } else {
                1
            }) as u32,
            end: end as u32,
            total: total as u32,
        }
    }
}

impl ImapEnvelopeListHandler {
    /// The page fits the 32-bit sequence numbers IMAP uses.
    pub open spec fn fits(&self) -> bool {
        &&& 1 <= self.page_size <= u32::MAX
        &&& self.page * self.page_size <= u32::MAX
    }

    /// Which messages to fetch once the mailbox is known to hold `total`.
    pub fn plan(&self, total: u32) -> (plan: PagePlan)
        requires
            self.fits(),
        ensures
            plan == page_plan(total as nat, self.page as nat, self.page_size as nat),
    {
        if total == 0 {
            return PagePlan::Empty { total: 0 };
        }
        assert(self.page <= u32::MAX) by (nonlinear_arith)
            requires
                self.page * self.page_size <= u32::MAX,
                self.page_size >= 1,
        ;
        let page_size = self.page_size as u32;
        let page = self.page as u32;
        assert(page * page_size == self.page * self.page_size);
        let offset = page * page_size;
        if offset >= total {
            return PagePlan::Empty { total };
        }
        let end = total - offset;
        let start = end.saturating_sub(page_size - 1);
        let start = if start >= 1 {
            start
        } else {
            1
        };
        PagePlan::Fetch { start, end, total }
    }
}

/// A page holds at most `page_size` messages, all of them in the mailbox,
/// and the next page ends right before it starts: pages never overlap and
/// leave no gap.
pub proof fn law_pages_tile(total: nat, page: nat, page_size: nat)
    requires
        page_size >= 1,
        total <= u32::MAX,
        (page + 1) * page_size <= u32::MAX,
    ensures
        page_plan(total, page, page_size) matches PagePlan::Fetch { start, end, total: t } ==> {
            &&& 1 <= start <= end <= total
            &&& t == total
            &&& end - start + 1 <= page_size
            &&& (start > 1 ==> (page_plan(total, page + 1, page_size) matches PagePlan::Fetch {
                start: _,
                end: next_end,
                total: _,
            } && next_end == start - 1))
            &&& (start == 1 ==> page_plan(total, page + 1, page_size) is Empty)
        },
{
    assert((page + 1) * page_size == page * page_size + page_size) by (nonlinear_arith);
    assert(page * page_size <= (page + 1) * page_size) by (nonlinear_arith)
        requires
            page_size >= 1,
    ;
}

/// What `str::parse::<u32>` accepts: an optional `+` and one or more ASCII
/// digits, for a value that fits in 32 bits.
pub open spec fn digits_value(s: Seq<char>) -> nat
    decreases s.len(),
{
    if s.len() == 0 {
        0
    } else {
        digits_value(s.drop_last()) * 10 + ((s.last() as u32) - 48) as nat
    }
}

pub open spec fn all_digits(s: Seq<char>) -> bool {
    s.len() > 0 && forall|i: int| 0 <= i < s.len() ==> '0' <= s[i] && s[i] <= '9'
}

pub open spec fn parsed_u32(s: Seq<char>) -> Option<u32> {
    let digits = if s.len() > 0 && s[0] == '+' {
        s.drop_first()
    } else {
        s
    };
    if all_digits(digits) && digits_value(digits) <= u32::MAX {
        Some(digits_value(digits) as u32)
    } else {
        None
    }
}

/// A longer run of digits is worth at least as much as its prefix.
proof fn lemma_digits_prefix(s: Seq<char>, k: int)
    requires
        0 <= k <= s.len(),
        forall|i: int| 0 <= i < s.len() ==> '0' <= #[trigger] s[i] && s[i] <= '9',
    ensures
        digits_value(s.subrange(0, k)) <= digits_value(s),
    decreases s.len() - k,
{
    if k < s.len() {
        lemma_digits_prefix(s, k + 1);
        let t = s.subrange(0, k + 1);
        assert(t.drop_last() =~= s.subrange(0, k));
        assert('0' <= t.last() && t.last() <= '9');
    } else {
        assert(s.subrange(0, k) =~= s);
    }
}

/// Reads a 32-bit number the way `str::parse::<u32>` does: an optional `+`
/// then decimal digits, and nothing else, for a value that fits.
fn parse_u32(s: &str) -> (n: Option<u32>)
    ensures
        n == parsed_u32(s@),
{
    let len = s.unicode_len();
    let start: usize = if len > 0 && s.get_char(0) == '+' {
        1
    } else {
        0
    };
    let ghost digits = if s@.len() > 0 && s@[0] == '+' {
        s@.drop_first()
    } else {
        s@
    };
    assert(digits =~= s@.subrange(start as int, len as int));
    if start == len {
        return None;
    }
    let mut value: u64 = 0;
    let mut i: usize = start;
    while i < len
        invariant
            start <= i <= len,
            len == s@.len(),
            digits == s@.subrange(start as int, len as int),
            digits == (if s@.len() > 0 && s@[0] == '+' {
                s@.drop_first()
            } else {
                s@
            }),
            forall|k: int| 0 <= k < i - start ==> '0' <= #[trigger] digits[k] && digits[k] <= '9',
            value == digits_value(digits.subrange(0, i - start)),
            value <= u32::MAX,
        decreases len - i,
    {
        let c = s.get_char(i);
        assert(digits[i - start] == c);
        if c < '0' || c > '9' {
            return None;
        }
        let d = (c as u32 - 48) as u64;
        let ghost prefix = digits.subrange(0, i - start + 1);
        assert(prefix.drop_last() =~= digits.subrange(0, i - start));
        assert(prefix.last() == c);
        let next = value * 10 + d;
        assert(next == digits_value(prefix));
        if next > 0xffff_ffff {
            proof {
                if all_digits(digits) {
                    lemma_digits_prefix(digits, i - start + 1);
                }
            }
            return None;
        }
        value = next;
        i = i + 1;
    }
    assert(digits.subrange(0, len - start) =~= digits);
    Some(value as u32)
}

/// Why a message id does not name an IMAP message.
#[derive(Debug, Clone, Copy, PartialEq, Eq, Structural)]
pub enum UidError {
    NotANumber,
    Zero,
}

impl UidError {
    pub open spec fn message_text(&self) -> Seq<char> {
        match self {
            UidError::NotANumber => "UID must be a 32-bit number"@,
            UidError::Zero => "UID must be non-zero"@,
        }
    }

    /// What to tell the user.
    pub fn message(&self) -> (text: String)
        ensures
            text@ == self.message_text(),
    {
        match self {
            UidError::NotANumber => String::from_str("UID must be a 32-bit number"),
            UidError::Zero => String::from_str("UID must be non-zero"),
        }
    }
}

/// The UID an id stands for: a non-zero 32-bit number.
pub fn parse_uid(id: &str) -> (uid: Result<u32, UidError>)
    ensures
        match parsed_u32(id@) {
            None => uid == Err::<u32, UidError>(UidError::NotANumber),
            Some(0) => uid == Err::<u32, UidError>(UidError::Zero),
            Some(n) => uid == Ok::<u32, UidError>(n),
        },
{
    match parse_u32(id) {
        None => Err(UidError::NotANumber),
        Some(0) => Err(UidError::Zero),
        Some(n) => Ok(n),
    }
}

impl ImapFlagRemoveHandler {
    pub fn uid(&self) -> (uid: Result<u32, UidError>)
        ensures
            uid == match parsed_u32(self.id@) {
                None => Err(UidError::NotANumber),
                Some(0) => Err(UidError::Zero),
                Some(n) => Ok::<u32, UidError>(n),
            },
    {
        parse_uid(self.id.as_str())
    }
}

impl ImapMessageGetRawHandler {
    pub fn uid(&self) -> (uid: Result<u32, UidError>)
        ensures
            uid == match parsed_u32(self.id@) {
                None => Err(UidError::NotANumber),
                Some(0) => Err(UidError::Zero),
                Some(n) => Ok::<u32, UidError>(n),
            },
    {
        parse_uid(self.id.as_str())
    }
}

impl ImapMessageMoveHandler {
    pub fn uid(&self) -> (uid: Result<u32, UidError>)
        ensures
            uid == match parsed_u32(self.id@) {
                None => Err(UidError::NotANumber),
                Some(0) => Err(UidError::Zero),
                Some(n) => Ok::<u32, UidError>(n),
            },
    {
        parse_uid(self.id.as_str())
    }
}

/// A mailbox name as an IMAP server lists it.
pub enum ImapMailboxName {
    Inbox,
    Other(Vec<u8>),
}

pub open spec fn imap_mailbox_name(name: &ImapMailboxName) -> Seq<char> {
    match name {
        ImapMailboxName::Inbox => "INBOX"@,
        ImapMailboxName::Other(bytes) => lossy_text(bytes@),
    }
}

impl ImapMailboxListHandler {
    /// A listed mailbox: the inbox under its canonical name, any other
    /// under its name read as UTF-8; IMAP gives no id, and only subscribed
    /// mailboxes are listed.
    pub fn mailbox(name: &ImapMailboxName, delimiter: Option<char>) -> (mailbox: Mailbox)
        ensures
            mailbox.id is None,
            mailbox.name@ == imap_mailbox_name(name),
            mailbox.delimiter == delimiter,
            mailbox.subscribed,
    {
        let name = match name {
            ImapMailboxName::Inbox => String::from_str("INBOX"),
            ImapMailboxName::Other(bytes) => utf8_lossy(bytes.as_slice()),
        };
        Mailbox { id: None, name, delimiter, subscribed: true }
    }

    /// The listed mailboxes, one per listed name with its delimiter, in the
    /// order the server gave them.
    pub fn mailboxes(listed: &Vec<(ImapMailboxName, Option<char>)>) -> (v: Vec<Mailbox>)
        ensures
            v@.len() == listed@.len(),
            forall|i: int|
                0 <= i < v@.len() ==> {
                    let m = #[trigger] v@[i];
                    &&& m.id is None
                    &&& m.name@ == imap_mailbox_name(&listed@[i].0)
                    &&& m.delimiter == listed@[i].1
                    &&& m.subscribed
                },
    {
        let mut v: Vec<Mailbox> = Vec::new();
        let mut i: usize = 0;
        while i < listed.len()
            invariant
                i <= listed@.len(),
                v@.len() == i,
                forall|k: int|
                    0 <= k < i ==> {
                        let m = #[trigger] v@[k];
                        &&& m.id is None
                        &&& m.name@ == imap_mailbox_name(&listed@[k].0)
                        &&& m.delimiter == listed@[k].1
                        &&& m.subscribed
                    },
            decreases listed@.len() - i,
        {
            let (name, delimiter) = &listed[i];
            v.push(ImapMailboxListHandler::mailbox(name, *delimiter));
            i = i + 1;
        }
        v
    }
}

/// The first body section among the items a fetch returned, if any.
pub open spec fn first_body(items: Seq<Option<Option<Seq<u8>>>>) -> Option<Seq<u8>>
    decreases items.len(),
{
    if items.len() == 0 {
        None
    } else {
        match items[0] {
            Some(Some(data)) => Some(data),
            _ => first_body(items.drop_first()),
        }
    }
}

pub open spec fn items_view(items: Vec<Option<Option<Vec<u8>>>>) -> Seq<Option<Option<Seq<u8>>>> {
    items@.map_values(
        |item: Option<Option<Vec<u8>>>|
            match item {
                Some(Some(d)) => Some(Some(d@)),
                Some(None) => Some(None),
                None => None,
            },
    )
}

impl ImapMessageGetRawHandler {
    /// The raw message among the fetched items, each of which is a body
    /// section (`Some`, with its data when the server sent any) or another
    /// item (`None`): the data of the first body section that has some.
    pub fn raw_message(items: Vec<Option<Option<Vec<u8>>>>) -> (raw: Option<Vec<u8>>)
        ensures
            match first_body(items_view(items)) {
                None => raw is None,
                Some(data) => raw matches Some(r) && r@ == data,
            },
    {
        let ghost all = items_view(items);
        let n = items.len();
        let mut i: usize = 0;
        assert(all.subrange(0, n as int) =~= all);
        while i < n
            invariant
                i <= n,
                n == all.len(),
                items_view(items) == all,
                first_body(all) == first_body(all.subrange(i as int, n as int)),
            decreases n - i,
        {
            let ghost rest = all.subrange(i as int, n as int);
            assert(rest.drop_first() =~= all.subrange(i + 1, n as int));
            assert(rest[0] == all[i as int]);
            match &items[i] {
                Some(Some(data)) => {
                    let copy = data.clone();
                    assert(copy@ =~= data@);
                    return Some(copy);
                },
                _ => {},
            }
            i = i + 1;
        }
        assert(all.subrange(n as int, n as int).len() == 0);
        None
    }
}

/// The number an envelope id stands for as a UID; an id that is not a
/// number comes after every UID.
pub open spec fn uid_key(id: Seq<char>) -> int {
    match parsed_u32(id) {
        Some(n) => n as int,
        None => -1,
    }
}

fn uid_key_of(id: &String) -> (k: i64)
    ensures
        k == uid_key(id@),
{
    match parse_u32(id.as_str()) {
        Some(n) => n as i64,
        None => -1,
    }
}

/// Newest first: the UIDs never grow along the list.
pub open spec fn newest_first(s: Seq<Envelope>) -> bool {
    forall|i: int, j: int| 0 <= i < j < s.len() ==> uid_key(s[j].id@) <= uid_key(s[i].id@)
}

/// Inserting an envelope before the first one whose UID is not greater
/// keeps a newest-first list newest first.
pub proof fn lemma_insert_newest_first(before: Seq<Envelope>, p: int, e: Envelope)
    requires
        newest_first(before),
        0 <= p <= before.len(),
        forall|i: int| 0 <= i < p ==> uid_key(before[i].id@) > uid_key(e.id@),
        p < before.len() ==> uid_key(before[p].id@) <= uid_key(e.id@),
    ensures
        newest_first(before.insert(p, e)),
{
    let sorted = before.insert(p, e);
    assert forall|i: int, j: int| 0 <= i < j < sorted.len() implies uid_key(sorted[j].id@)
        <= uid_key(sorted[i].id@) by {
        if i < p && j == p {
        } else if i < p && j > p {
            assert(sorted[j] == before[j - 1]);
        } else if i == p {
            assert(sorted[j] == before[j - 1]);
        } else if j < p {
        } else {
            assert(sorted[j] == before[j - 1]);
            assert(sorted[i] == before[i - 1]);
        }
    }
}

impl ImapEnvelopeListHandler {
    /// The fetched envelopes ordered by UID, greatest first (the same
    /// envelopes, each as often as given).
    pub fn newest_first(envelopes: Vec<Envelope>) -> (sorted: Vec<Envelope>)
        ensures
            newest_first(sorted@),
            sorted@.to_multiset() == envelopes@.to_multiset(),
    {
        let ghost all = envelopes@;
        let n = envelopes.len();
        let mut rest = envelopes;
        let mut sorted: Vec<Envelope> = Vec::new();
        let mut k: usize = n;
        assert(all.subrange(n as int, n as int) =~= Seq::<Envelope>::empty());
        while k > 0
            invariant
                k <= n,
                n == all.len(),
                rest@ == all.subrange(0, k as int),
                newest_first(sorted@),
                sorted@.to_multiset() == all.subrange(k as int, n as int).to_multiset(),
            decreases k,
        {
            let e = rest.pop().unwrap();
            assert(e == all[k - 1]);
            let key = uid_key_of(&e.id);
            let ghost before = sorted@;
            let mut p: usize = 0;
            let mut placed = false;
            while p < sorted.len() && !placed
                invariant
                    p <= sorted@.len(),
                    sorted@ == before,
                    key == uid_key(e.id@),
                    forall|i: int| 0 <= i < p ==> uid_key(before[i].id@) > uid_key(e.id@),
                    placed ==> p < before.len() && uid_key(before[p as int].id@) <= uid_key(e.id@),
                decreases sorted@.len() - p, (if placed { 0int } else { 1int }),
            {
                if uid_key_of(&sorted[p].id) <= key {
                    placed = true;
                } else {
                    p = p + 1;
                }
            }
            proof {
                lemma_insert_newest_first(before, p as int, e);
            }
            sorted.insert(p, e);
            proof {
                assert(sorted@ == before.insert(p as int, e));
                assert(all.subrange(k - 1, n as int) =~= all.subrange(k as int, n as int).insert(0, e));
                vstd::seq_lib::to_multiset_insert(before, p as int, e);
                vstd::seq_lib::to_multiset_insert(all.subrange(k as int, n as int), 0, e);
                assert(sorted@.to_multiset() == before.to_multiset().insert(e));
                assert(all.subrange(k - 1, n as int).to_multiset() == all.subrange(
                    k as int,
                    n as int,
                ).to_multiset().insert(e));
                assert(rest@ =~= all.subrange(0, k - 1));
            }
            k = k - 1;
        }
        assert(all.subrange(0, n as int) =~= all);
        sorted
    }
}

// ---------------------------------------------------------------------------
// JMAP

/// Lists one page of envelopes of a mailbox, newest first.
pub struct JmapEnvelopeListHandler {
    pub mailbox_id: String,
    pub page: usize,
    pub page_size: usize,
}

/// Sets and unsets keywords of a message.
pub struct JmapFlagUpdateHandler {
    pub id: String,
    pub add: Vec<String>,
    pub remove: Vec<String>,
}

/// Lists the mailboxes.
pub struct JmapMailboxListHandler;

/// Destroys a message.
pub struct JmapMessageDeleteHandler {
    pub id: String,
}

/// Fetches the text of a message.
pub struct JmapMessageGetHandler {
    pub id: String,
}

/// Moves a message to another mailbox.
pub struct JmapMessageMoveHandler {
    pub id: String,
    pub target_mailbox_id: String,
}

/// Stores a raw message as a draft.
pub struct JmapMessageSaveHandler {
    pub mailbox_id: String,
    pub raw: Vec<u8>,
}

/// The SMTP envelope of a submission.
pub struct SubmissionEnvelope {
    pub mail_from: String,
    pub rcpt_to: Vec<String>,
}

/// Sends a raw message and keeps it in the sent mailbox.
pub struct JmapMessageSendHandler {
    pub raw: Vec<u8>,
    /// The sent mailbox the message is imported into before submission.
    pub sent_mailbox_id: Option<String>,
    /// An explicit envelope; `None` lets the server read the headers.
    pub envelope: Option<SubmissionEnvelope>,
}

impl JmapEnvelopeListHandler {
    /// The position of the first message of the page, and the page size.
    pub fn query_window(&self) -> (window: (u64, u64))
        requires
            self.page * self.page_size <= usize::MAX,
        ensures
            window.0 == self.page * self.page_size,
            window.1 == self.page_size,
    {
        ((self.page * self.page_size) as u64, self.page_size as u64)
    }
}

/// A sender of an e-mail as a JMAP server gives it.
pub struct JmapAddress {
    pub name: Option<String>,
    pub email: String,
}

/// The e-mail properties a JMAP query returns for the envelope list.
pub struct JmapEmail {
    pub id: Option<String>,
    pub from: Option<Vec<JmapAddress>>,
    pub subject: Option<String>,
    pub received_at: Option<String>,
    /// The keywords and whether each is set, each keyword once.
    pub keywords: Option<Vec<(String, bool)>>,
}

/// What the sender column shows: the first sender's name when it has a
/// non-empty one, else its address; nothing without a sender.
pub open spec fn sender_text(from: Option<Vec<JmapAddress>>) -> Seq<char> {
    match from {
        Some(list) => if list@.len() > 0 {
            let a = list@[0];
            match a.name {
                Some(n) => if n@.len() > 0 {
                    n@
                } else {
                    a.email@
                },
                None => a.email@,
            }
        } else {
            Seq::empty()
        },
        None => Seq::empty(),
    }
}

/// The date column: the first ten bytes of the reception date (the day,
/// in RFC 3339), or the whole text when it is shorter or ten bytes would
/// split a character.
pub open spec fn date_bytes(received_at: Option<String>) -> Seq<u8> {
    match received_at {
        Some(s) => {
            let b = vstd::utf8::encode_utf8(s@);
            if b.len() >= 10 && vstd::utf8::is_char_boundary(b, 10) {
                b.subrange(0, 10)
            } else {
                b
            }
        },
        None => Seq::empty(),
    }
}

/// The keywords that are set, in order.
pub open spec fn set_keywords(keywords: Seq<(String, bool)>) -> Seq<Seq<char>>
    decreases keywords.len(),
{
    if keywords.len() == 0 {
        Seq::empty()
    } else {
        set_keywords(keywords.drop_last()) + if keywords.last().1 {
            seq![keywords.last().0@]
        } else {
            Seq::empty()
        }
    }
}

pub open spec fn keywords_distinct(keywords: Seq<(String, bool)>) -> bool {
    forall|i: int, j: int| 0 <= i < j < keywords.len() ==> keywords[i].0@ != keywords[j].0@
}

fn opt_string(s: Option<String>) -> (t: String)
    ensures
        t@ == match s {
            Some(x) => x@,
            None => Seq::empty(),
        },
{
    match s {
        Some(x) => x,
        None => String::new(),
    }
}

fn sender_column(from: &Option<Vec<JmapAddress>>) -> (t: String)
    ensures
        t@ == sender_text(*from),
{
    match from {
        Some(list) => {
            if list.len() > 0 {
                let a = &list[0];
                match &a.name {
                    Some(n) => if n.as_str().is_empty() {
                        a.email.clone()
                    } else {
                        n.clone()
                    },
                    None => a.email.clone(),
                }
            } else {
                String::new()
            }
        },
        None => String::new(),
    }
}

/// Calls `str::get(..10)` on a text, keeping the whole text when it gives
/// `None`.
fn date_column(received_at: &Option<String>) -> (t: String)
    ensures
        vstd::utf8::encode_utf8(t@) == date_bytes(*received_at),
{
    match received_at {
        Some(s) => {
            let text = s.as_str();
            let bytes = text.as_bytes();
            proof {
                vstd::utf8::encode_utf8_valid_utf8(s@);
            }
            if bytes.len() >= 10 && text.is_char_boundary(10) {
                let (day, _) = text.split_at(10);
                let day_string = String::from_str(day);
                proof {
                    lemma_str_bytes(day);
                }
                day_string
            } else {
                let whole = String::from_str(text);
                whole
            }
        },
        None => {
            let t = String::new();
            t
        },
    }
}

proof fn lemma_str_bytes(s: &str)
    ensures
        vstd::utf8::encode_utf8(s@) == s.spec_bytes(),
{
}

fn keyword_flags(keywords: &Option<Vec<(String, bool)>>) -> (flags: Vec<String>)
    ensures
        crate::mime::list_view(flags) == match keywords {
            Some(k) => set_keywords(k@),
            None => Seq::empty(),
        },
{
    match keywords {
        None => Vec::new(),
        Some(k) => {
            let mut flags: Vec<String> = Vec::new();
            let mut i: usize = 0;
            while i < k.len()
                invariant
                    i <= k@.len(),
                    crate::mime::list_view(flags) == set_keywords(k@.subrange(0, i as int)),
                decreases k@.len() - i,
            {
                let ghost before = flags;
                assert(k@.subrange(0, i + 1).drop_last() =~= k@.subrange(0, i as int));
                if k[i].1 {
                    flags.push(k[i].0.clone());
                    assert(crate::mime::list_view(flags) =~= crate::mime::list_view(before).push(
                        k@[i as int].0@,
                    ));
                }
                i = i + 1;
                assert(crate::mime::list_view(flags) =~= set_keywords(k@.subrange(0, i as int)));
            }
            assert(k@.subrange(0, k@.len() as int) =~= k@);
            flags
        },
    }
}

/// The envelope shown for a queried e-mail: its id, its sender, its
/// subject, the date part of its reception time and its set keywords.
pub open spec fn jmap_envelope_of(email: JmapEmail, envelope: Envelope) -> bool {
    &&& envelope.id@ == match email.id {
        Some(i) => i@,
        None => Seq::empty(),
    }
    &&& envelope.from@ == sender_text(email.from)
    &&& envelope.subject@ == match email.subject {
        Some(s) => s@,
        None => Seq::empty(),
    }
    &&& vstd::utf8::encode_utf8(envelope.date@) == date_bytes(email.received_at)
    &&& envelope.flag_seq() == match email.keywords {
        Some(k) => set_keywords(k@),
        None => Seq::empty(),
    }
}

/// The sender column of a queried e-mail: the first sender's name when it
/// has a non-empty one, else that sender's address, so it is blank only when
/// the address is; an e-mail without a sender shows nothing.
pub proof fn law_sender_column(email: JmapEmail, envelope: Envelope)
    requires
        jmap_envelope_of(email, envelope),
    ensures
        email.from is None ==> envelope.from@.len() == 0,
        forall|list: Vec<JmapAddress>|
            #![trigger list@[0]]
            email.from == Some(list) && list@.len() > 0 ==> {
                let first = list@[0];
                &&& (first.name is None ==> envelope.from@ == first.email@)
                &&& (forall|n: String|
                    first.name == Some(n) ==> (if n@.len() == 0 {
                        envelope.from@ == first.email@
                    } else {
                        envelope.from@ == n@
                    }))
                &&& (first.email@.len() > 0 ==> envelope.from@.len() > 0)
            },
{
}

/// The properties an envelope query asks for.
#[derive(Debug, Clone, Copy, PartialEq, Eq, Structural)]
pub enum EmailProperty {
    Id,
    From,
    Subject,
    ReceivedAt,
    Keywords,
}

/// The orders a query can sort by.
#[derive(Debug, Clone, Copy, PartialEq, Eq, Structural)]
pub enum EmailSort {
    /// Most recently received first.
    ReceivedAtDescending,
}

/// An `Email/query` request.
pub struct EmailQuery {
    /// The mailbox the e-mails must be in.
    pub in_mailbox: String,
    pub sort: Vec<EmailSort>,
    /// The index of the first e-mail of the answer.
    pub position: u64,
    /// At most this many e-mails.
    pub limit: u64,
    pub properties: Vec<EmailProperty>,
}

impl JmapEnvelopeListHandler {
    /// The query for a page of the mailbox's envelopes: the e-mails in the
    /// mailbox, most recently received first, from the page's first one and
    /// at most a page of them, with their id, sender, subject, reception
    /// time and keywords.
    pub fn envelope_query(&self) -> (q: EmailQuery)
        requires
            self.page * self.page_size <= usize::MAX,
        ensures
            q.in_mailbox == self.mailbox_id,
            q.sort@ == seq![EmailSort::ReceivedAtDescending],
            q.position == self.page * self.page_size,
            q.limit == self.page_size,
            q.properties@ == seq![
                EmailProperty::Id,
                EmailProperty::From,
                EmailProperty::Subject,
                EmailProperty::ReceivedAt,
                EmailProperty::Keywords,
            ],
    {
        let (position, limit) = self.query_window();
        EmailQuery {
            in_mailbox: self.mailbox_id.clone(),
            sort: vec![EmailSort::ReceivedAtDescending],
            position,
            limit,
            properties: vec![
                EmailProperty::Id,
                EmailProperty::From,
                EmailProperty::Subject,
                EmailProperty::ReceivedAt,
                EmailProperty::Keywords,
            ],
        }
    }

    /// The envelopes of a queried page: one per e-mail, in the order the
    /// server gave them.
    pub fn envelopes(emails: &Vec<JmapEmail>) -> (v: Vec<Envelope>)
        ensures
            v@.len() == emails@.len(),
            forall|i: int| 0 <= i < v@.len() ==> jmap_envelope_of(emails@[i], #[trigger] v@[i]),
    {
        let mut v: Vec<Envelope> = Vec::new();
        let mut i: usize = 0;
        while i < emails.len()
            invariant
                i <= emails@.len(),
                v@.len() == i,
                forall|k: int| 0 <= k < i ==> jmap_envelope_of(emails@[k], #[trigger] v@[k]),
            decreases emails@.len() - i,
        {
            v.push(JmapEnvelopeListHandler::envelope(&emails[i]));
            i = i + 1;
        }
        v
    }

    /// The envelope shown for a queried e-mail.
    pub fn envelope(email: &JmapEmail) -> (envelope: Envelope)
        ensures
            jmap_envelope_of(*email, envelope),
    {
        let id = match &email.id {
            Some(i) => i.clone(),
            None => String::new(),
        };
        let subject = match &email.subject {
            Some(s) => s.clone(),
            None => String::new(),
        };
        let flags = keyword_flags(&email.keywords);
        Envelope {
            id,
            from: sender_column(&email.from),
            subject,
            date: date_column(&email.received_at),
            flags,
        }
    }

    /// The total the server reports, as the 32-bit count the list keeps
    /// (zero when it reports none).
    pub fn total(reported: Option<u64>) -> (total: u32)
        ensures
            total == match reported {
                Some(t) => t as u32,
                None => 0u32,
            },
    {
        match reported {
            Some(t) => t as u32,
            None => 0,
        }
    }
}

/// The keywords that are set on an e-mail are its envelope's flags, and
/// with distinct keywords the flags are distinct too.
pub proof fn law_set_keywords_distinct(keywords: Seq<(String, bool)>)
    requires
        keywords_distinct(keywords),
    ensures
        set_keywords(keywords).no_duplicates(),
        forall|k: Seq<char>|
            set_keywords(keywords).contains(k) <==> exists|i: int|
                0 <= i < keywords.len() && keywords[i].0@ == k && keywords[i].1,
    decreases keywords.len(),
{
    if keywords.len() > 0 {
        let p = keywords.drop_last();
        assert(keywords_distinct(p));
        law_set_keywords_distinct(p);
        let last = keywords.last();
        assert forall|k: Seq<char>|
            set_keywords(keywords).contains(k) <==> exists|i: int|
                0 <= i < keywords.len() && keywords[i].0@ == k && keywords[i].1 by {
            if set_keywords(keywords).contains(k) {
                let j = choose|j: int|
                    0 <= j < set_keywords(keywords).len() && set_keywords(keywords)[j] == k;
                if j < set_keywords(p).len() {
                    assert(set_keywords(p)[j] == k);
                    assert(set_keywords(p).contains(k));
                    let i = choose|i: int| 0 <= i < p.len() && p[i].0@ == k && p[i].1;
                    assert(keywords[i] == p[i]);
                } else {
                    assert(keywords[keywords.len() - 1].0@ == k);
                }
            }
            if exists|i: int| 0 <= i < keywords.len() && keywords[i].0@ == k && keywords[i].1 {
                let i = choose|i: int| 0 <= i < keywords.len() && keywords[i].0@ == k && keywords[i].1;
                if i < keywords.len() - 1 {
                    assert(p[i] == keywords[i]);
                    assert(set_keywords(p).contains(k));
                    let j = choose|j: int| 0 <= j < set_keywords(p).len() && set_keywords(p)[j] == k;
                    assert(set_keywords(keywords)[j] == k);
                } else {
                    assert(set_keywords(keywords)[set_keywords(keywords).len() - 1] == k);
                }
            }
        }
        if last.1 {
            assert forall|i: int| 0 <= i < set_keywords(p).len() implies set_keywords(p)[i]
                != last.0@ by {
                let s = set_keywords(p)[i];
                assert(set_keywords(p).contains(s));
                let t = choose|t: int| 0 <= t < p.len() && p[t].0@ == s && p[t].1;
                assert(keywords[t].0@ != keywords[keywords.len() - 1].0@);
            }
        }
    }
}

impl JmapMailboxListHandler {
    /// A listed mailbox: a nameless one gets an empty name; JMAP has no
    /// hierarchy delimiter.
    pub fn mailbox(id: Option<String>, name: Option<String>, is_subscribed: bool) -> (mailbox: Mailbox)
        ensures
            mailbox.id == id,
            mailbox.name@ == match name {
                Some(n) => n@,
                None => Seq::empty(),
            },
            mailbox.delimiter is None,
            mailbox.subscribed == is_subscribed,
    {
        Mailbox { id, name: opt_string(name), delimiter: None, subscribed: is_subscribed }
    }
}


/// Why a JMAP exchange failed on the client's side of it.
pub enum JmapError {
    EmailNotFound,
    /// The session's upload URL is no URL; the parser's message, if any.
    InvalidUploadUrl(Option<String>),
    NoIdentity,
    NoSentMailbox,
    /// `Email/import` refused the message; the server's description.
    ImportFailed(String),
    /// `Email/import` refused the draft; the server's description.
    DraftImportFailed(String),
    NoEmailId,
    /// `EmailSubmission/set` refused the submission; the server's description.
    SubmissionFailed(String),
    /// The HTML body could not be rendered; the renderer's message.
    Html(String),
    /// A request failed on its way; the transport's message.
    Transport(String),
    /// An answer came that the exchange was not waiting for.
    Unexpected,
}

impl JmapError {
    pub open spec fn message_text(&self) -> Seq<char> {
        match self {
            JmapError::EmailNotFound => "Email not found"@,
            JmapError::InvalidUploadUrl(Some(m)) => m@,
            JmapError::InvalidUploadUrl(None) => "relative URL without a base"@,
            JmapError::NoIdentity => "No JMAP identities found"@,
            JmapError::NoSentMailbox => "No Sent mailbox ID available; cannot import message before JMAP submission"@,
            JmapError::ImportFailed(d) => "JMAP Email/import failed: "@ + d@,
            JmapError::DraftImportFailed(d) => "JMAP Email/import (draft) failed: "@ + d@,
            JmapError::NoEmailId => "Email/import succeeded but no email ID returned"@,
            JmapError::SubmissionFailed(d) => "JMAP EmailSubmission/set failed: "@ + d@,
            JmapError::Html(m) => m@,
            JmapError::Transport(m) => m@,
            JmapError::Unexpected => "Unexpected JMAP answer"@,
        }
    }

    pub fn message(&self) -> (text: String)
        ensures
            text@ == self.message_text(),
    {
        match self {
            JmapError::EmailNotFound => String::from_str("Email not found"),
            JmapError::InvalidUploadUrl(Some(m)) => m.clone(),
            JmapError::InvalidUploadUrl(None) => String::from_str("relative URL without a base"),
            JmapError::NoIdentity => String::from_str("No JMAP identities found"),
            JmapError::NoSentMailbox => String::from_str(
                "No Sent mailbox ID available; cannot import message before JMAP submission",
            ),
            JmapError::ImportFailed(d) => {
                let mut t = String::from_str("JMAP Email/import failed: ");
                t.append(d.as_str());
                t
            },
            JmapError::DraftImportFailed(d) => {
                let mut t = String::from_str("JMAP Email/import (draft) failed: ");
                t.append(d.as_str());
                t
            },
            JmapError::NoEmailId => String::from_str("Email/import succeeded but no email ID returned"),
            JmapError::SubmissionFailed(d) => {
                let mut t = String::from_str("JMAP EmailSubmission/set failed: ");
                t.append(d.as_str());
                t
            },
            JmapError::Html(m) => m.clone(),
            JmapError::Transport(m) => m.clone(),
            JmapError::Unexpected => String::from_str("Unexpected JMAP answer"),
        }
    }
}

/// The body parts and values of a fetched e-mail.
pub struct JmapMessage {
    /// The part ids of the plain-text body parts, in order.
    pub text_body: Option<Vec<Option<String>>>,
    /// The part ids of the HTML body parts, in order.
    pub html_body: Option<Vec<Option<String>>>,
    /// The fetched values, by part id, each id once.
    pub body_values: Option<Vec<(String, String)>>,
    pub preview: Option<String>,
}

/// The value stored under `key`, if any (the first one).
pub open spec fn lookup(values: Seq<(String, String)>, key: Seq<char>) -> Option<Seq<char>>
    decreases values.len(),
{
    if values.len() == 0 {
        None
    } else if values[0].0@ == key {
        Some(values[0].1@)
    } else {
        lookup(values.drop_first(), key)
    }
}

/// The value of the first part of a body, when it has one.
pub open spec fn first_part_value(
    parts: Option<Vec<Option<String>>>,
    values: Option<Vec<(String, String)>>,
) -> Option<Seq<char>> {
    match (parts, values) {
        (Some(p), Some(v)) => if p@.len() > 0 {
            match p@[0] {
                Some(id) => lookup(v@, id@),
                None => None,
            }
        } else {
            None
        },
        _ => None,
    }
}

/// The text shown for a fetched e-mail: its first plain-text part, else its
/// first HTML part rendered as text, else its preview.
pub open spec fn message_text(m: JmapMessage) -> Result<Seq<char>, Seq<char>> {
    match first_part_value(m.text_body, m.body_values) {
        Some(t) => Ok(t),
        None => match first_part_value(m.html_body, m.body_values) {
            Some(h) => rendered_html(h, HTML_WIDTH),
            None => Ok(
                match m.preview {
                    Some(p) => p@,
                    None => Seq::empty(),
                },
            ),
        },
    }
}

fn find_value(values: &Vec<(String, String)>, key: &String) -> (value: Option<String>)
    ensures
        opt_view(value) == lookup(values@, key@),
{
    let n = values.len();
    let mut i: usize = 0;
    assert(values@.subrange(0, n as int) =~= values@);
    while i < n
        invariant
            i <= n,
            n == values@.len(),
            lookup(values@, key@) == lookup(values@.subrange(i as int, n as int), key@),
        decreases n - i,
    {
        let ghost rest = values@.subrange(i as int, n as int);
        assert(rest.drop_first() =~= values@.subrange(i + 1, n as int));
        if values[i].0 == *key {
            return Some(values[i].1.clone());
        }
        i = i + 1;
    }
    None
}

fn part_value(parts: &Option<Vec<Option<String>>>, values: &Option<Vec<(String, String)>>) -> (value:
    Option<String>)
    ensures
        opt_view(value) == first_part_value(*parts, *values),
{
    match (parts, values) {
        (Some(p), Some(v)) => if p.len() > 0 {
            match &p[0] {
                Some(id) => find_value(v, id),
                None => None,
            }
        } else {
            None
        },
        _ => None,
    }
}

impl JmapMessageGetHandler {
    /// The text of the first fetched e-mail; there must be one. It returns
    /// when the HTML renderer returns on the e-mail's HTML body (see
    /// `html_to_text`).
    pub fn text(emails: &Vec<JmapMessage>) -> (text: Result<String, JmapError>)
        ensures
            emails@.len() == 0 ==> text matches Err(JmapError::EmailNotFound),
            emails@.len() > 0 ==> match message_text(emails@[0]) {
                Ok(t) => text matches Ok(s) && s@ == t,
                Err(e) => text matches Err(JmapError::Html(m)) && m@ == e,
            },
    {
        if emails.len() == 0 {
            return Err(JmapError::EmailNotFound);
        }
        let email = &emails[0];
        match part_value(&email.text_body, &email.body_values) {
            Some(t) => Ok(t),
            None => match part_value(&email.html_body, &email.body_values) {
                Some(h) => match html_to_text(h.as_str(), HTML_WIDTH) {
                    Ok(t) => Ok(t),
                    Err(e) => Err(JmapError::Html(e)),
                },
                None => Ok(
                    match &email.preview {
                        Some(p) => p.clone(),
                        None => String::new(),
                    },
                ),
            },
        }
    }
}

/// `s` with every occurrence of `pat` (a non-empty pattern) replaced by
/// `with`, matched from the left without overlap: what `str::replace` does.
pub open spec fn replaced(s: Seq<char>, pat: Seq<char>, with: Seq<char>) -> Seq<char>
    decreases s.len(),
{
    if pat.len() == 0 || s.len() < pat.len() {
        s
    } else if s.subrange(0, pat.len() as int) == pat {
        with + replaced(s.subrange(pat.len() as int, s.len() as int), pat, with)
    } else {
        seq![s[0]] + replaced(s.drop_first(), pat, with)
    }
}

/// The upload URL template of a JMAP session with the account filled in.
pub fn fill_account(template: &str, account_id: &str) -> (url: String)
    ensures
        url@ == replaced(template@, "{accountId}"@, account_id@),
{
    let pat = "{accountId}";
    proof {
        reveal_strlit("{accountId}");
    }
    let n = template.unicode_len();
    let m = pat.unicode_len();
    let mut out = String::new();
    let mut i: usize = 0;
    assert(template@.subrange(0, n as int) =~= template@);
    while i < n
        invariant
            i <= n,
            n == template@.len(),
            m == pat@.len(),
            m == 11,
            pat@ == "{accountId}"@,
            out@ + replaced(template@.subrange(i as int, n as int), pat@, account_id@) == replaced(
                template@,
                pat@,
                account_id@,
            ),
        decreases n - i,
    {
        let ghost rest = template@.subrange(i as int, n as int);
        let here = n - i >= m && String::from_str(template.substring_char(i, i + m)) == String::from_str(
            pat,
        );
        if here {
            assert(rest.subrange(0, m as int) =~= template@.subrange(i as int, i + m));
            assert(rest.subrange(m as int, rest.len() as int) =~= template@.subrange(i + m, n as int));
            let ghost before = out@;
            out.append(account_id);
            i = i + m;
            assert(out@ + replaced(template@.subrange(i as int, n as int), pat@, account_id@) =~= before
                + replaced(rest, pat@, account_id@));
        } else {
            assert(rest.drop_first() =~= template@.subrange(i + 1, n as int));
            if n - i >= m {
                assert(rest.subrange(0, m as int) =~= template@.subrange(i as int, i + m));
            }
            let c = template.get_char(i);
            let ghost before = out@;
            out.append(crate::text::char_to_string(c).as_str());
            i = i + 1;
            assert(out@ + replaced(template@.subrange(i as int, n as int), pat@, account_id@) =~= before
                + replaced(rest, pat@, account_id@));
        }
    }
    assert(template@.subrange(n as int, n as int).len() == 0);
    out
}

/// The upload URL of a session: its template with the mail account filled
/// in (nothing when the session names none), parsed.
pub fn upload_url(template: &str, mail_account: Option<&str>) -> (url: Result<url::Url, JmapError>)
    ensures
        ({
            let filled = replaced(
                template@,
                "{accountId}"@,
                match mail_account {
                    Some(a) => a@,
                    None => Seq::empty(),
                },
            );
            match crate::wizard::parsed_url(filled) {
                Ok(u) => url == Ok::<url::Url, JmapError>(u),
                Err(e) => url matches Err(JmapError::InvalidUploadUrl(m)) && opt_view(m) == e,
            }
        }),
{
    let account = match mail_account {
        Some(a) => a,
        None => "",
    };
    proof {
        reveal_strlit("");
    }
    let filled = fill_account(template, account);
    assert(account@ == match mail_account {
        Some(a) => a@,
        None => Seq::<char>::empty(),
    });
    match crate::wizard::parse_url(filled.as_str()) {
        Ok(u) => Ok(u),
        Err(m) => Err(JmapError::InvalidUploadUrl(m)),
    }
}

fn description(d: &Option<String>) -> (t: String)
    ensures
        t@ == match d {
            Some(s) => s@,
            None => "unknown error"@,
        },
{
    match d {
        Some(s) => s.clone(),
        None => String::from_str("unknown error"),
    }
}

pub open spec fn description_text(d: Option<String>) -> Seq<char> {
    match d {
        Some(s) => s@,
        None => "unknown error"@,
    }
}

impl JmapMessageSendHandler {
    /// The mailbox the message is imported into: the sent mailbox, which
    /// must be known.
    pub fn import_mailbox(&self) -> (id: Result<String, JmapError>)
        ensures
            match self.sent_mailbox_id {
                Some(m) => id matches Ok(i) && i == m,
                None => id matches Err(JmapError::NoSentMailbox),
            },
    {
        match &self.sent_mailbox_id {
            Some(m) => Ok(m.clone()),
            None => Err(JmapError::NoSentMailbox),
        }
    }

    /// The identity to submit with: the first one the server lists.
    pub fn identity(identities: &Vec<String>) -> (id: Result<String, JmapError>)
        ensures
            identities@.len() > 0 ==> (id matches Ok(i) && i == identities@[0]),
            identities@.len() == 0 ==> id matches Err(JmapError::NoIdentity),
    {
        if identities.len() > 0 {
            Ok(identities[0].clone())
        } else {
            Err(JmapError::NoIdentity)
        }
    }

    /// The id of the imported message: the import must not be refused
    /// (`refused` holds the server's description, if it gave one) and must
    /// name the created message.
    pub fn imported_id(refused: &Option<Option<String>>, created: &Option<Option<String>>) -> (id:
        Result<String, JmapError>)
        ensures
            match refused {
                Some(d) => id matches Err(JmapError::ImportFailed(m)) && m@ == description_text(*d),
                None => match created {
                    Some(Some(i)) => id matches Ok(s) && s == i,
                    _ => id matches Err(JmapError::NoEmailId),
                },
            },
    {
        match refused {
            Some(d) => Err(JmapError::ImportFailed(description(d))),
            None => match created {
                Some(Some(i)) => Ok(i.clone()),
                _ => Err(JmapError::NoEmailId),
            },
        }
    }

    /// The submission went through unless the server refused it.
    pub fn submitted(refused: &Option<Option<String>>) -> (done: Result<(), JmapError>)
        ensures
            match refused {
                Some(d) => done matches Err(JmapError::SubmissionFailed(m)) && m@ == description_text(*d),
                None => done == Ok::<(), JmapError>(()),
            },
    {
        match refused {
            Some(d) => Err(JmapError::SubmissionFailed(description(d))),
            None => Ok(()),
        }
    }
}

impl JmapMessageSaveHandler {
    /// The draft was stored unless the server refused it.
    pub fn saved(refused: &Option<Option<String>>) -> (done: Result<(), JmapError>)
        ensures
            match refused {
                Some(d) => done matches Err(JmapError::DraftImportFailed(m)) && m@ == description_text(
                    *d,
                ),
                None => done == Ok::<(), JmapError>(()),
            },
    {
        match refused {
            Some(d) => Err(JmapError::DraftImportFailed(description(d))),
            None => Ok(()),
        }
    }
}

} // verus!
