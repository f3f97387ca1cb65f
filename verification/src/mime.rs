//! Reading raw RFC 5322 messages: the text to show for a message, and the
//! sender and recipients to hand to the transport when sending one.

use vstd::prelude::*;
use mail_parser::{Addr, Address, HeaderValue, MessageParser};
use vstd::utf8::{encode_utf8, valid_utf8};

use crate::app::opt_view;

verus! {

// ---------------------------------------------------------------------------
// Whitespace and trimming

/// The characters with the Unicode `White_Space` property, which is what
/// `char::is_whitespace` tests.
pub open spec fn is_white_space(c: char) -> bool {
    ||| ('\u{9}' <= c && c <= '\u{d}')
    ||| c == ' '
    ||| c == '\u{85}'
    ||| c == '\u{a0}'
    ||| c == '\u{1680}'
    ||| ('\u{2000}' <= c && c <= '\u{200a}')
    ||| c == '\u{2028}'
    ||| c == '\u{2029}'
    ||| c == '\u{202f}'
    ||| c == '\u{205f}'
    ||| c == '\u{3000}'
}

pub open spec fn trim_start(s: Seq<char>) -> Seq<char>
    decreases s.len(),
{
    if s.len() > 0 && is_white_space(s[0]) {
        trim_start(s.drop_first())
    } else {
        s
    }
}

pub open spec fn trim_end(s: Seq<char>) -> Seq<char>
    decreases s.len(),
{
    if s.len() > 0 && is_white_space(s.last()) {
        trim_end(s.drop_last())
    } else {
        s
    }
}

/// A text without its leading and trailing whitespace.
pub open spec fn trimmed(s: Seq<char>) -> Seq<char> {
    trim_end(trim_start(s))
}

/// Calls `str::trim`, which removes the leading and trailing characters
/// that have the `White_Space` property.
#[verifier::external_body]
fn trim(s: &str) -> (t: &str)
    ensures
        t@ == trimmed(s@),
{
    s.trim()
}

// ---------------------------------------------------------------------------
// Address headers

/// The headers that name the sender or the recipients of a message.
#[derive(Debug, Clone, Copy, PartialEq, Eq, Structural)]
pub enum HeaderField {
    From,
    To,
    Cc,
    Bcc,
    Other,
}

/// A header and the addresses it holds: its canonical name (`From`, `To`,
/// `Cc`, `Bcc` and the other headers the parser knows, or nothing for an
/// unknown header), and the groups of an address group header, or a single
/// group for a plain address list, no group for a header that holds no
/// address. Each address is its e-mail part, when it has one.
pub struct AddressHeader {
    pub name: String,
    pub groups: Vec<Vec<Option<String>>>,
}

pub type GroupsView = Seq<Seq<Option<Seq<char>>>>;

pub open spec fn groups_view(groups: Vec<Vec<Option<String>>>) -> GroupsView {
    groups@.map_values(|g: Vec<Option<String>>| g@.map_values(|a: Option<String>| opt_view(a)))
}

/// The field a canonical header name stands for.
pub open spec fn field_of(name: Seq<char>) -> HeaderField {
    if name == "From"@ {
        HeaderField::From
    } else if name == "To"@ {
        HeaderField::To
    } else if name == "Cc"@ {
        HeaderField::Cc
    } else if name == "Bcc"@ {
        HeaderField::Bcc
    } else {
        HeaderField::Other
    }
}

impl View for AddressHeader {
    type V = (HeaderField, GroupsView);

    open spec fn view(&self) -> (HeaderField, GroupsView) {
        (field_of(self.name@), groups_view(self.groups))
    }
}

impl AddressHeader {
    pub fn field(&self) -> (f: HeaderField)
        ensures
            f == field_of(self.name@),
    {
        if self.name == String::from_str("From") {
            HeaderField::From
        } else if self.name == String::from_str("To") {
            HeaderField::To
        } else if self.name == String::from_str("Cc") {
            HeaderField::Cc
        } else if self.name == String::from_str("Bcc") {
            HeaderField::Bcc
        } else {
            HeaderField::Other
        }
    }
}

pub open spec fn headers_view(headers: Vec<AddressHeader>) -> Seq<(HeaderField, GroupsView)> {
    headers@.map_values(|h: AddressHeader| h@)
}

/// The address headers that `mail_parser` reads from the header block of a
/// raw message, in order, or `None` when it cannot read the message.
pub uninterp spec fn parsed_address_headers(raw: Seq<u8>) -> Option<Seq<(HeaderField, GroupsView)>>;

/// Calls `MessageParser::new().parse_headers(raw)` and converts every
/// header of the result, one for one: its name by `as_static_str`, and its
/// address list or address groups into groups of e-mail parts.
#[verifier::external_body]
fn parse_address_headers(raw: &[u8]) -> (headers: Option<Vec<AddressHeader>>)
    ensures
        match headers {
            None => parsed_address_headers(raw@) is None,
            Some(hs) => parsed_address_headers(raw@) == Some(headers_view(hs)),
        },
{
    let message = MessageParser::new().parse_headers(raw)?;
    let addr = |a: &Addr| a.address.as_ref().map(|s| s.to_string());
    Some(message.headers().iter().map(|h| AddressHeader {
        name: h.name.as_static_str().to_string(),
        groups: match h.value() {
            HeaderValue::Address(Address::List(l)) => vec![l.iter().map(addr).collect()],
            HeaderValue::Address(Address::Group(g)) => g.iter().map(|g| g.addresses.iter().map(addr).collect()).collect(),
            _ => Vec::new(),
        },
    }).collect())
}

/// An address usable for routing: its e-mail part, trimmed, if not empty.
pub open spec fn valid_address(a: Option<Seq<char>>) -> Option<Seq<char>> {
    match a {
        Some(s) => if trimmed(s).len() > 0 {
            Some(trimmed(s))
        } else {
            None
        },
        None => None,
    }
}

/// The usable addresses of a list, in order.
pub open spec fn valid_addresses(addrs: Seq<Option<Seq<char>>>) -> Seq<Seq<char>>
    decreases addrs.len(),
{
    if addrs.len() == 0 {
        Seq::empty()
    } else {
        valid_addresses(addrs.drop_last()) + match valid_address(addrs.last()) {
            Some(a) => seq![a],
            None => Seq::empty(),
        }
    }
}

/// The usable addresses of all groups, in order.
pub open spec fn group_addresses(groups: GroupsView) -> Seq<Seq<char>>
    decreases groups.len(),
{
    if groups.len() == 0 {
        Seq::empty()
    } else {
        group_addresses(groups.drop_last()) + valid_addresses(groups.last())
    }
}

pub open spec fn is_recipient_field(f: HeaderField) -> bool {
    f == HeaderField::To || f == HeaderField::Cc || f == HeaderField::Bcc
}

/// The sender a `From` header names: the first address of its first group.
pub open spec fn header_sender(h: (HeaderField, GroupsView)) -> Option<Seq<char>> {
    if h.0 == HeaderField::From && h.1.len() > 0 && h.1[0].len() > 0 {
        valid_address(h.1[0][0])
    } else {
        None
    }
}

/// The sender of a message: the one named by its last `From` header that
/// names a usable one.
pub open spec fn message_sender(hs: Seq<(HeaderField, GroupsView)>) -> Option<Seq<char>>
    decreases hs.len(),
{
    if hs.len() == 0 {
        None
    } else {
        match header_sender(hs.last()) {
            Some(s) => Some(s),
            None => message_sender(hs.drop_last()),
        }
    }
}

/// Every usable recipient address of `To`, `Cc` and `Bcc` headers, in order,
/// repeats included.
pub open spec fn message_recipients(hs: Seq<(HeaderField, GroupsView)>) -> Seq<Seq<char>>
    decreases hs.len(),
{
    if hs.len() == 0 {
        Seq::empty()
    } else {
        message_recipients(hs.drop_last()) + if is_recipient_field(hs.last().0) {
            group_addresses(hs.last().1)
        } else {
            Seq::empty()
        }
    }
}

/// A sequence with every repeat after the first dropped.
pub open spec fn dedup(s: Seq<Seq<char>>) -> Seq<Seq<char>>
    decreases s.len(),
{
    if s.len() == 0 {
        Seq::empty()
    } else {
        let d = dedup(s.drop_last());
        if d.contains(s.last()) {
            d
        } else {
            d.push(s.last())
        }
    }
}

pub proof fn lemma_dedup(s: Seq<Seq<char>>)
    ensures
        dedup(s).no_duplicates(),
        forall|x: Seq<char>| dedup(s).contains(x) <==> s.contains(x),
    decreases s.len(),
{
    if s.len() > 0 {
        lemma_dedup(s.drop_last());
        let d = dedup(s.drop_last());
        let p = s.drop_last();
        assert forall|x: Seq<char>| dedup(s).contains(x) <==> s.contains(x) by {
            if s.contains(x) && x != s.last() {
                let k = choose|k: int| 0 <= k < s.len() && s[k] == x;
                assert(p[k] == x);
                assert(p.contains(x));
                assert(d.contains(x));
                let m = choose|m: int| 0 <= m < d.len() && d[m] == x;
                assert(dedup(s)[m] == x);
            }
            if dedup(s).contains(x) && x != s.last() {
                let k = choose|k: int| 0 <= k < dedup(s).len() && dedup(s)[k] == x;
                if !d.contains(s.last()) && k == d.len() {
                    assert(false);
                }
                assert(d[k] == x);
                assert(d.contains(x));
                assert(p.contains(x));
                let j = choose|j: int| 0 <= j < p.len() && p[j] == x;
                assert(s[j] == x);
            }
            if x == s.last() {
                assert(s[s.len() - 1] == x);
                if !d.contains(x) {
                    assert(dedup(s)[dedup(s).len() - 1] == x);
                } else {
                    assert(dedup(s) == d);
                }
            }
        }
    }
}

pub proof fn lemma_dedup_push(s: Seq<Seq<char>>, x: Seq<char>)
    ensures
        dedup(s.push(x)) == (if dedup(s).contains(x) {
            dedup(s)
        } else {
            dedup(s).push(x)
        }),
{
    assert(s.push(x).drop_last() =~= s);
}

/// Why a message cannot be sent.
#[derive(Debug, Clone, Copy, PartialEq, Eq, Structural)]
pub enum SendError {
    /// The headers cannot be read.
    InvalidMessage,
    NoSender,
    NoRecipient,
}

impl SendError {
    pub open spec fn message_text(self) -> Seq<char> {
        match self {
            SendError::InvalidMessage => "Invalid message to send"@,
            SendError::NoSender => "The message does not contain any sender"@,
            SendError::NoRecipient => "The message does not contain any recipient"@,
        }
    }

    pub fn message(&self) -> (text: String)
        ensures
            text@ == self.message_text(),
    {
        match self {
            SendError::InvalidMessage => String::from_str("Invalid message to send"),
            SendError::NoSender => String::from_str("The message does not contain any sender"),
            SendError::NoRecipient => String::from_str("The message does not contain any recipient"),
        }
    }
}

/// The usable address an optional e-mail part gives: trimmed, and only if
/// something is left.
pub fn valid_email(address: &Option<String>) -> (email: Option<String>)
    ensures
        opt_view(email) == valid_address(opt_view(*address)),
{
    match address {
        Some(a) => {
            let t = trim(a.as_str());
            if t.is_empty() {
                None
            } else {
                Some(String::from_str(t))
            }
        },
        None => None,
    }
}

fn push_unique(list: &mut Vec<String>, item: String)
    ensures
        list_view(*final(list)) == (if list_view(*old(list)).contains(item@) {
            list_view(*old(list))
        } else {
            list_view(*old(list)).push(item@)
        }),
{
    let mut i: usize = 0;
    while i < list.len()
        invariant
            i <= list@.len(),
            forall|j: int| 0 <= j < i ==> list@[j]@ != item@,
        decreases list@.len() - i,
    {
        if list[i] == item {
            assert(list_view(*list)[i as int] == item@);
            return;
        }
        i = i + 1;
    }
    proof {
        if list_view(*list).contains(item@) {
            let k = choose|k: int| 0 <= k < list_view(*list).len() && list_view(*list)[k] == item@;
            assert(list@[k]@ == item@);
        }
    }
    let ghost before = *list;
    list.push(item);
    assert(list_view(*list) =~= list_view(before).push(item@));
}

pub open spec fn list_view(list: Vec<String>) -> Seq<Seq<char>> {
    list@.map_values(|s: String| s@)
}

/// The envelope of a message from its address headers.
pub open spec fn envelope_post(
    hs: Seq<(HeaderField, GroupsView)>,
    result: Result<(String, Vec<String>), SendError>,
) -> bool {
    match message_sender(hs) {
        None => result == Err::<(String, Vec<String>), SendError>(SendError::NoSender),
        Some(from) => if message_recipients(hs).len() == 0 {
            result == Err::<(String, Vec<String>), SendError>(SendError::NoRecipient)
        } else {
            result matches Ok((f, to)) && f@ == from && list_view(to) == dedup(
                message_recipients(hs),
            )
        },
    }
}

/// The envelope sender and the recipients of a raw message, as its headers
/// give them: the sender of its last `From` header that names a usable one,
/// and every usable address of its `To`, `Cc` and `Bcc` headers, each once.
pub fn extract_envelope(raw: &[u8]) -> (result: Result<(String, Vec<String>), SendError>)
    ensures
        match parsed_address_headers(raw@) {
            None => result == Err::<(String, Vec<String>), SendError>(SendError::InvalidMessage),
            Some(hs) => envelope_post(hs, result),
        },
        result matches Ok((f, to)) ==> list_view(to).no_duplicates() && list_view(to).len() > 0,
{
    match parse_address_headers(raw) {
        Some(headers) => envelope_of(headers),
        None => Err(SendError::InvalidMessage),
    }
}

/// The envelope sender and the recipients that address headers give: the
/// sender of the last `From` header that names a usable one, and every
/// usable address of the `To`, `Cc` and `Bcc` headers, each once.
pub fn envelope_of(headers: Vec<AddressHeader>) -> (result: Result<(String, Vec<String>), SendError>)
    ensures
        envelope_post(headers_view(headers), result),
        result matches Ok((f, to)) ==> list_view(to).no_duplicates() && list_view(to).len() > 0,
{
    let ghost hs = headers_view(headers);
    let mut mail_from: Option<String> = None;
    let mut rcpt_to: Vec<String> = Vec::new();
    let ghost mut seen: Seq<Seq<char>> = Seq::empty();
    let mut h: usize = 0;
    while h < headers.len()
        invariant
            h <= headers@.len(),
            hs == headers_view(headers),
            opt_view(mail_from) == message_sender(hs.take(h as int)),
            seen == message_recipients(hs.take(h as int)),
            list_view(rcpt_to) == dedup(seen),
        decreases headers@.len() - h,
    {
        let header = &headers[h];
        assert(hs.take(h + 1).drop_last() =~= hs.take(h as int));
        assert(hs.take(h + 1).last() == header@);
        let field = header.field();
        if field == HeaderField::From {
            if header.groups.len() > 0 && header.groups[0].len() > 0 {
                let email = valid_email(&header.groups[0][0]);
                if email.is_some() {
                    mail_from = email;
                }
            }
        }
        if field == HeaderField::To || field == HeaderField::Cc || field == HeaderField::Bcc {
            let ghost gv = groups_view(header.groups);
            let mut g: usize = 0;
            while g < header.groups.len()
                invariant
                    g <= header.groups@.len(),
                    gv == groups_view(header.groups),
                    seen == message_recipients(hs.take(h as int)) + group_addresses(
                        gv.take(g as int),
                    ),
                    list_view(rcpt_to) == dedup(seen),
                decreases header.groups@.len() - g,
            {
                let group = &header.groups[g];
                let ghost av = gv[g as int];
                assert(av == group@.map_values(|a: Option<String>| opt_view(a)));
                let mut a: usize = 0;
                while a < group.len()
                    invariant
                        a <= group@.len(),
                        av == group@.map_values(|a: Option<String>| opt_view(a)),
                        av == gv[g as int],
                        g < gv.len(),
                        seen == message_recipients(hs.take(h as int)) + group_addresses(
                            gv.take(g as int),
                        ) + valid_addresses(av.take(a as int)),
                        list_view(rcpt_to) == dedup(seen),
                    decreases group@.len() - a,
                {
                    let email = valid_email(&group[a]);
                    assert(av.take(a + 1).drop_last() =~= av.take(a as int));
                    assert(av.take(a + 1).last() == opt_view(group@[a as int]));
                    match email {
                        Some(e) => {
                            proof {
                                lemma_dedup_push(seen, e@);
                                seen = seen.push(e@);
                            }
                            push_unique(&mut rcpt_to, e);
                        },
                        None => {},
                    }
                    a = a + 1;
                }
                assert(av.take(group@.len() as int) =~= av);
                assert(gv.take(g + 1).drop_last() =~= gv.take(g as int));
                g = g + 1;
            }
            assert(gv.take(header.groups@.len() as int) =~= gv);
        }
        h = h + 1;
    }
    assert(hs.take(headers@.len() as int) =~= hs);
    let mail_from = match mail_from {
        Some(f) => f,
        None => return Err(SendError::NoSender),
    };
    proof {
        lemma_dedup(seen);
        if seen.len() > 0 {
            assert(seen.contains(seen[0]));
        }
    }
    if rcpt_to.len() == 0 {
        return Err(SendError::NoRecipient);
    }
    Ok((mail_from, rcpt_to))
}

// ---------------------------------------------------------------------------
// Message bodies

/// The first plain-text body and the first HTML body that `mail_parser`
/// finds in a raw message, or `None` when it cannot read the message.
pub uninterp spec fn parsed_bodies(raw: Seq<u8>) -> Option<(Option<Seq<char>>, Option<Seq<char>>)>;

/// Calls `MessageParser::default().parse(raw)`, then `body_text(0)` and
/// `body_html(0)` on the result.
#[verifier::external_body]
fn message_bodies(raw: &[u8]) -> (bodies: Option<(Option<String>, Option<String>)>)
    ensures
        match bodies {
            None => parsed_bodies(raw@) is None,
            Some((text, html)) => parsed_bodies(raw@) == Some((opt_view(text), opt_view(html))),
        },
{
    let message = MessageParser::default().parse(raw)?;
    let text = message.body_text(0).map(|t| t.to_string());
    let html = message.body_html(0).map(|h| h.to_string());
    Some((text, html))
}

/// What `html2text::from_read` renders from an HTML text at a width.
pub uninterp spec fn rendered_html(html: Seq<char>, width: usize) -> Result<Seq<char>, Seq<char>>;

/// Calls `html2text::from_read(html.as_bytes(), width)`; an error comes back
/// as its display text.
///
/// What is stated is what it returns when it returns. That it returns, and
/// does not panic, on every text is not established: the renderer walks the
/// document with an explicit work list (no recursion), and its `panic!` and
/// `unwrap` on the table path guard its own invariants (a row's children
/// are the cells it built, each sized by the layout), but its change log
/// records panics on `rowspan`/`colspan` and stack overflows on deeply
/// nested trees fixed as late as 0.17.2, and no input bound is known under
/// which it is sure to return. The functions that reach it (`body_of`,
/// `decode_message_body`, `App::finish_read`, `JmapMessageGetHandler::text`)
/// say so, and return only when the renderer does.
#[verifier::external_body]
pub(crate) fn html_to_text(html: &str, width: usize) -> (text: Result<String, String>)
    ensures
        match text {
            Ok(t) => rendered_html(html@, width) == Ok::<Seq<char>, Seq<char>>(t@),
            Err(e) => rendered_html(html@, width) == Err::<Seq<char>, Seq<char>>(e@),
        },
{
    html2text::from_read(html.as_bytes(), width).map_err(|e| e.to_string())
}

/// What `String::from_utf8_lossy` decodes from bytes.
pub uninterp spec fn lossy_text(raw: Seq<u8>) -> Seq<char>;

/// Calls `String::from_utf8_lossy(raw)`: valid UTF-8 decodes exactly, and
/// what is not valid is replaced.
#[verifier::external_body]
pub(crate) fn utf8_lossy(raw: &[u8]) -> (text: String)
    ensures
        text@ == lossy_text(raw@),
        valid_utf8(raw@) ==> encode_utf8(text@) == raw@,
{
    String::from_utf8_lossy(raw).to_string()
}

/// The width HTML bodies are rendered at.
pub const HTML_WIDTH: usize = 80;

/// Why a message body cannot be shown.
pub enum DecodeError {
    /// The message cannot be read.
    Unparsable,
    /// The HTML body cannot be rendered; the renderer's message.
    Html(String),
}

/// The text shown for a raw message: its plain-text body, else its HTML
/// body rendered as text, else the raw bytes read as UTF-8.
pub open spec fn body_to_show(raw: Seq<u8>) -> Option<Result<Seq<char>, Seq<char>>> {
    body_from(parsed_bodies(raw), raw)
}

/// The text shown for a message whose bodies are `bodies` (`None` when it
/// cannot be read) and whose raw bytes are `raw`.
pub open spec fn body_from(
    bodies: Option<(Option<Seq<char>>, Option<Seq<char>>)>,
    raw: Seq<u8>,
) -> Option<Result<Seq<char>, Seq<char>>> {
    match bodies {
        None => None,
        Some((Some(text), _)) => Some(Ok(text)),
        Some((None, Some(html))) => Some(rendered_html(html, HTML_WIDTH)),
        Some((None, None)) => Some(Ok(lossy_text(raw))),
    }
}

pub open spec fn decode_post(shown: Option<Result<Seq<char>, Seq<char>>>, body: Result<String, DecodeError>) -> bool {
    match shown {
        None => body matches Err(DecodeError::Unparsable),
        Some(Ok(text)) => body matches Ok(t) && t@ == text,
        Some(Err(msg)) => body matches Err(DecodeError::Html(m)) && m@ == msg,
    }
}

/// The text to show for a raw message. It returns when the HTML renderer
/// returns on the message's HTML body (see `html_to_text`).
pub fn decode_message_body(raw: &[u8]) -> (body: Result<String, DecodeError>)
    ensures
        decode_post(body_to_show(raw@), body),
{
    body_of(message_bodies(raw), raw)
}

pub open spec fn bodies_view(bodies: Option<(Option<String>, Option<String>)>) -> Option<(Option<Seq<char>>, Option<Seq<char>>)> {
    match bodies {
        Some((t, h)) => Some((opt_view(t), opt_view(h))),
        None => None,
    }
}

/// The text to show for a message from its bodies (`None` when it cannot
/// be read): the plain-text body, else the HTML body rendered as text, else
/// `raw` read as UTF-8. It returns when the HTML renderer returns on the
/// HTML body (see `html_to_text`).
pub fn body_of(bodies: Option<(Option<String>, Option<String>)>, raw: &[u8]) -> (body: Result<String, DecodeError>)
    ensures
        decode_post(body_from(bodies_view(bodies), raw@), body),
{
    match bodies {
        None => Err(DecodeError::Unparsable),
        Some((Some(text), _)) => Ok(text),
        Some((None, Some(html))) => match html_to_text(html.as_str(), HTML_WIDTH) {
            Ok(t) => Ok(t),
            Err(e) => Err(DecodeError::Html(e)),
        },
        Some((None, None)) => Ok(utf8_lossy(raw)),
    }
}

impl DecodeError {
    pub open spec fn message_text(&self) -> Seq<char> {
        match self {
            DecodeError::Unparsable => "Failed to parse message"@,
            DecodeError::Html(m) => m@,
        }
    }

    pub fn message(&self) -> (text: String)
        ensures
            text@ == self.message_text(),
    {
        match self {
            DecodeError::Unparsable => String::from_str("Failed to parse message"),
            DecodeError::Html(m) => m.clone(),
        }
    }
}


/// What a sequence holds, it still holds with more after it.
proof fn lemma_prefix_contains(a: Seq<Seq<char>>, b: Seq<Seq<char>>, x: Seq<char>)
    requires
        a.contains(x),
    ensures
        (a + b).contains(x),
{
    let j = choose|j: int| 0 <= j < a.len() && a[j] == x;
    assert((a + b)[j] == x);
}

/// What a sequence holds, it still holds with more before it.
proof fn lemma_suffix_contains(a: Seq<Seq<char>>, b: Seq<Seq<char>>, x: Seq<char>)
    requires
        b.contains(x),
    ensures
        (a + b).contains(x),
{
    let j = choose|j: int| 0 <= j < b.len() && b[j] == x;
    assert((a + b)[a.len() + j] == x);
}

/// A usable address of a list is among the list's usable addresses.
proof fn lemma_valid_addresses_has(addrs: Seq<Option<Seq<char>>>, k: int)
    requires
        0 <= k < addrs.len(),
        valid_address(addrs[k]) is Some,
    ensures
        valid_addresses(addrs).contains(valid_address(addrs[k])->0),
    decreases addrs.len(),
{
    let x = valid_address(addrs[k])->0;
    let rest = match valid_address(addrs.last()) {
        Some(a) => seq![a],
        None => Seq::<Seq<char>>::empty(),
    };
    if k == addrs.len() - 1 {
        assert(rest[0] == x);
        lemma_suffix_contains(valid_addresses(addrs.drop_last()), rest, x);
    } else {
        assert(addrs.drop_last()[k] == addrs[k]);
        lemma_valid_addresses_has(addrs.drop_last(), k);
        lemma_prefix_contains(valid_addresses(addrs.drop_last()), rest, x);
    }
}

/// A usable address of any group is among the groups' usable addresses.
proof fn lemma_group_addresses_has(groups: GroupsView, g: int, k: int)
    requires
        0 <= g < groups.len(),
        0 <= k < groups[g].len(),
        valid_address(groups[g][k]) is Some,
    ensures
        group_addresses(groups).contains(valid_address(groups[g][k])->0),
    decreases groups.len(),
{
    let x = valid_address(groups[g][k])->0;
    if g == groups.len() - 1 {
        lemma_valid_addresses_has(groups.last(), k);
        lemma_suffix_contains(group_addresses(groups.drop_last()), valid_addresses(groups.last()), x);
    } else {
        assert(groups.drop_last()[g] == groups[g]);
        lemma_group_addresses_has(groups.drop_last(), g, k);
        lemma_prefix_contains(group_addresses(groups.drop_last()), valid_addresses(groups.last()), x);
    }
}

/// A usable address of a `To`, `Cc` or `Bcc` header is among the message's
/// recipients.
proof fn lemma_recipients_has(hs: Seq<(HeaderField, GroupsView)>, i: int, g: int, k: int)
    requires
        0 <= i < hs.len(),
        hs[i].0 == HeaderField::To || hs[i].0 == HeaderField::Cc || hs[i].0 == HeaderField::Bcc,
        0 <= g < hs[i].1.len(),
        0 <= k < hs[i].1[g].len(),
        valid_address(hs[i].1[g][k]) is Some,
    ensures
        message_recipients(hs).contains(valid_address(hs[i].1[g][k])->0),
    decreases hs.len(),
{
    let x = valid_address(hs[i].1[g][k])->0;
    let rest = if is_recipient_field(hs.last().0) {
        group_addresses(hs.last().1)
    } else {
        Seq::<Seq<char>>::empty()
    };
    if i == hs.len() - 1 {
        lemma_group_addresses_has(hs[i].1, g, k);
        lemma_suffix_contains(message_recipients(hs.drop_last()), rest, x);
    } else {
        assert(hs.drop_last()[i] == hs[i]);
        lemma_recipients_has(hs.drop_last(), i, g, k);
        lemma_prefix_contains(message_recipients(hs.drop_last()), rest, x);
    }
}

/// Every usable address of a `To`, a `Cc` or a `Bcc` header, trimmed, is
/// among the recipients of a message that names a sender: no recipient
/// header is left out of the envelope.
pub proof fn law_every_recipient_header_counts(
    hs: Seq<(HeaderField, GroupsView)>,
    i: int,
    g: int,
    k: int,
    result: Result<(String, Vec<String>), SendError>,
)
    requires
        envelope_post(hs, result),
        message_sender(hs) is Some,
        0 <= i < hs.len(),
        hs[i].0 == HeaderField::To || hs[i].0 == HeaderField::Cc || hs[i].0 == HeaderField::Bcc,
        0 <= g < hs[i].1.len(),
        0 <= k < hs[i].1[g].len(),
        hs[i].1[g][k] matches Some(address) && trimmed(address).len() > 0,
    ensures
        result matches Ok((_, to)) && list_view(to).contains(trimmed(hs[i].1[g][k]->0)),
{
    lemma_recipients_has(hs, i, g, k);
    lemma_dedup(message_recipients(hs));
}


/// What two sequences joined hold, one of them holds.
proof fn lemma_concat_contains(a: Seq<Seq<char>>, b: Seq<Seq<char>>, x: Seq<char>)
    requires
        (a + b).contains(x),
    ensures
        a.contains(x) || b.contains(x),
{
    let j = choose|j: int| 0 <= j < (a + b).len() && (a + b)[j] == x;
    if j < a.len() {
        assert(a[j] == x);
    } else {
        assert(b[j - a.len()] == x);
    }
}

/// Each usable address of a list comes from one of its entries.
proof fn lemma_valid_addresses_from(addrs: Seq<Option<Seq<char>>>, x: Seq<char>) -> (k: int)
    requires
        valid_addresses(addrs).contains(x),
    ensures
        0 <= k < addrs.len(),
        valid_address(addrs[k]) == Some(x),
    decreases addrs.len(),
{
    let rest = match valid_address(addrs.last()) {
        Some(a) => seq![a],
        None => Seq::<Seq<char>>::empty(),
    };
    lemma_concat_contains(valid_addresses(addrs.drop_last()), rest, x);
    if valid_addresses(addrs.drop_last()).contains(x) {
        let k = lemma_valid_addresses_from(addrs.drop_last(), x);
        assert(addrs.drop_last()[k] == addrs[k]);
        k
    } else {
        let j = choose|j: int| 0 <= j < rest.len() && rest[j] == x;
        assert(j == 0);
        (addrs.len() - 1) as int
    }
}

/// Each usable address of groups comes from an entry of one of them.
proof fn lemma_group_addresses_from(groups: GroupsView, x: Seq<char>) -> (gk: (int, int))
    requires
        group_addresses(groups).contains(x),
    ensures
        0 <= gk.0 < groups.len(),
        0 <= gk.1 < groups[gk.0].len(),
        valid_address(groups[gk.0][gk.1]) == Some(x),
    decreases groups.len(),
{
    lemma_concat_contains(group_addresses(groups.drop_last()), valid_addresses(groups.last()), x);
    if group_addresses(groups.drop_last()).contains(x) {
        let gk = lemma_group_addresses_from(groups.drop_last(), x);
        assert(groups.drop_last()[gk.0] == groups[gk.0]);
        gk
    } else {
        let k = lemma_valid_addresses_from(groups.last(), x);
        ((groups.len() - 1) as int, k)
    }
}

/// Each recipient of a message comes from an entry of a `To`, `Cc` or
/// `Bcc` header.
proof fn lemma_recipients_from(hs: Seq<(HeaderField, GroupsView)>, x: Seq<char>) -> (igk: (
    int,
    int,
    int,
))
    requires
        message_recipients(hs).contains(x),
    ensures
        0 <= igk.0 < hs.len(),
        hs[igk.0].0 == HeaderField::To || hs[igk.0].0 == HeaderField::Cc || hs[igk.0].0
            == HeaderField::Bcc,
        0 <= igk.1 < hs[igk.0].1.len(),
        0 <= igk.2 < hs[igk.0].1[igk.1].len(),
        valid_address(hs[igk.0].1[igk.1][igk.2]) == Some(x),
    decreases hs.len(),
{
    let rest = if is_recipient_field(hs.last().0) {
        group_addresses(hs.last().1)
    } else {
        Seq::<Seq<char>>::empty()
    };
    lemma_concat_contains(message_recipients(hs.drop_last()), rest, x);
    if message_recipients(hs.drop_last()).contains(x) {
        let igk = lemma_recipients_from(hs.drop_last(), x);
        assert(hs.drop_last()[igk.0] == hs[igk.0]);
        igk
    } else {
        let gk = lemma_group_addresses_from(hs.last().1, x);
        ((hs.len() - 1) as int, gk.0, gk.1)
    }
}

/// Every recipient of the envelope is the trimmed, non-empty e-mail part
/// of an address of a `To`, a `Cc` or a `Bcc` header: no other header
/// adds one.
pub proof fn law_recipients_come_from_recipient_headers(
    hs: Seq<(HeaderField, GroupsView)>,
    result: Result<(String, Vec<String>), SendError>,
    x: Seq<char>,
)
    requires
        envelope_post(hs, result),
        result matches Ok((_, to)) && list_view(to).contains(x),
    ensures
        exists|i: int, g: int, k: int|
            #![trigger hs[i].1[g][k]]
            0 <= i < hs.len() && (hs[i].0 == HeaderField::To || hs[i].0 == HeaderField::Cc
                || hs[i].0 == HeaderField::Bcc) && 0 <= g < hs[i].1.len() && 0 <= k
                < hs[i].1[g].len() && hs[i].1[g][k] is Some && trimmed(hs[i].1[g][k]->0) == x
                && x.len() > 0,
{
    lemma_dedup(message_recipients(hs));
    let (i, g, k) = lemma_recipients_from(hs, x);
    assert(hs[i].1[g][k] is Some && trimmed(hs[i].1[g][k]->0) == x && x.len() > 0);
}

/// The header that names the sender of a message, and no later one does.
proof fn lemma_sender_from(hs: Seq<(HeaderField, GroupsView)>) -> (i: int)
    requires
        message_sender(hs) is Some,
    ensures
        0 <= i < hs.len(),
        header_sender(hs[i]) == message_sender(hs),
        forall|j: int| i < j < hs.len() ==> header_sender(#[trigger] hs[j]) is None,
    decreases hs.len(),
{
    if header_sender(hs.last()) is Some {
        (hs.len() - 1) as int
    } else {
        let i = lemma_sender_from(hs.drop_last());
        assert forall|j: int| i < j < hs.len() implies header_sender(#[trigger] hs[j]) is None by {
            if j < hs.len() - 1 {
                assert(hs.drop_last()[j] == hs[j]);
            }
        }
        i
    }
}

/// The envelope sender is the trimmed, non-empty e-mail part of the first
/// address of the first group of a `From` header, and no later `From`
/// header has a usable one there: the last `From` header that names a
/// sender wins.
pub proof fn law_sender_is_last_from_header(
    hs: Seq<(HeaderField, GroupsView)>,
    result: Result<(String, Vec<String>), SendError>,
)
    requires
        envelope_post(hs, result),
        result is Ok,
    ensures
        exists|i: int|
            #![trigger hs[i]]
            0 <= i < hs.len() && hs[i].0 == HeaderField::From && hs[i].1.len() > 0 && hs[i].1[0].len()
                > 0 && hs[i].1[0][0] is Some && trimmed(hs[i].1[0][0]->0) == (result->Ok_0).0@
                && (result->Ok_0).0@.len() > 0 && forall|j: int|
                #![trigger hs[j]]
                i < j < hs.len() && hs[j].0 == HeaderField::From && hs[j].1.len() > 0
                    && hs[j].1[0].len() > 0 && hs[j].1[0][0] is Some ==> trimmed(
                    hs[j].1[0][0]->0,
                ).len() == 0,
{
    let i = lemma_sender_from(hs);
    assert forall|j: int|
        #![trigger hs[j]]
        i < j < hs.len() && hs[j].0 == HeaderField::From && hs[j].1.len() > 0 && hs[j].1[0].len()
            > 0 && hs[j].1[0][0] is Some implies trimmed(hs[j].1[0][0]->0).len() == 0 by {
        assert(header_sender(hs[j]) is None);
    }
    assert(hs[i].1[0][0] is Some);
}

} // verus!
