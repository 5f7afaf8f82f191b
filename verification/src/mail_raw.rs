//! Raw access to one mail message's octets.
//!
//! Everything a raw message can tell this library is read here, through a
//! small set of trusted wrappers around the `mail_parser` crate (and
//! `html2text` for rendering HTML bodies). Each wrapper parses the raw
//! octets afresh and hands back plain values; what each call returns is
//! given a name (an uninterpreted spec function of the octets alone), so
//! that everything built from these values can carry an exact contract.

use vstd::prelude::*;

use mail_parser::MimeHeaders;

verus! {

/// One address entry as the source message carries it: either part may be
/// missing.
pub struct RawAddr {
    pub name: Option<String>,
    pub address: Option<String>,
}

/// Mathematical model of a [`RawAddr`].
pub struct AddrFacts {
    pub name: Option<Seq<char>>,
    pub address: Option<Seq<char>>,
}

impl View for RawAddr {
    type V = AddrFacts;

    open spec fn view(&self) -> AddrFacts {
        AddrFacts {
            name: match self.name {
                Some(s) => Some(s@),
                None => None,
            },
            address: match self.address {
                Some(s) => Some(s@),
                None => None,
            },
        }
    }
}

/// One header of the source message: its field name and, where the value is
/// textual, that text.
pub struct RawHeader {
    pub name: String,
    pub value: Option<String>,
}

/// Mathematical model of a [`RawHeader`].
pub struct HeaderFacts {
    pub name: Seq<char>,
    pub value: Option<Seq<char>>,
}

impl View for RawHeader {
    type V = HeaderFacts;

    open spec fn view(&self) -> HeaderFacts {
        HeaderFacts {
            name: self.name@,
            value: match self.value {
                Some(s) => Some(s@),
                None => None,
            },
        }
    }
}

/// One body part of the source message that its parser classified as
/// displayable text: plain text, HTML to be rendered, or something else
/// (contributing nothing to the body).
pub enum RawTextPart {
    Plain(String),
    Html(String),
    Other,
}

/// Mathematical model of a [`RawTextPart`].
pub enum TextPartFacts {
    Plain(Seq<char>),
    Html(Seq<char>),
    Other,
}

impl View for RawTextPart {
    type V = TextPartFacts;

    open spec fn view(&self) -> TextPartFacts {
        match self {
            RawTextPart::Plain(s) => TextPartFacts::Plain(s@),
            RawTextPart::Html(s) => TextPartFacts::Html(s@),
            RawTextPart::Other => TextPartFacts::Other,
        }
    }
}

/// One attachment part of the source message: its declared file name, if
/// any, and its decoded contents.
pub struct RawAttachment {
    pub name: Option<String>,
    pub data: Vec<u8>,
}

/// Mathematical model of a [`RawAttachment`].
pub struct AttachmentFacts {
    pub name: Option<Seq<char>>,
    pub data: Seq<u8>,
}

impl View for RawAttachment {
    type V = AttachmentFacts;

    open spec fn view(&self) -> AttachmentFacts {
        AttachmentFacts {
            name: match self.name {
                Some(s) => Some(s@),
                None => None,
            },
            data: self.data@,
        }
    }
}

/// Whether the raw octets parse as a mail message at all.
pub uninterp spec fn parse_ok(raw: Seq<u8>) -> bool;

/// The first `From` address entry of the message, if any.
pub uninterp spec fn from_entry_of(raw: Seq<u8>) -> Option<AddrFacts>;

/// The subject of the message, if any.
pub uninterp spec fn subject_of(raw: Seq<u8>) -> Option<Seq<char>>;

/// The displayable body parts of the message, in encounter order.
pub uninterp spec fn text_parts_of(raw: Seq<u8>) -> Seq<TextPartFacts>;

/// The attachment parts of the message, in encounter order.
pub uninterp spec fn attachments_of(raw: Seq<u8>) -> Seq<AttachmentFacts>;

/// The headers of the message, in order, with their textual values.
pub uninterp spec fn headers_of(raw: Seq<u8>) -> Seq<HeaderFacts>;

/// The address entries of all List-Id headers of the message, flattened in
/// order.
pub uninterp spec fn list_addrs_of(raw: Seq<u8>) -> Seq<AddrFacts>;

/// The address entries of the To header of the message.
pub uninterp spec fn to_addrs_of(raw: Seq<u8>) -> Seq<AddrFacts>;

/// The plain-text rendering of an HTML document, wrapped to `width` columns.
pub uninterp spec fn rendered_of(html: Seq<char>, width: int) -> Seq<char>;

/// Whether rendering an HTML document to `width` columns succeeds.
pub uninterp spec fn render_ok(html: Seq<char>, width: int) -> bool;

/// Relies on `mail_parser::MessageParser::parse`: `None` exactly when no
/// headers can be found in the raw octets.
#[verifier::external_body]
pub(crate) fn mail_parses(raw: &Vec<u8>) -> (r: bool)
    ensures
        r == parse_ok(raw@),
{
    mail_parser::MessageParser::default().parse(raw).is_some()
}

/// Relies on `mail_parser`'s `Message::from` and `Address::first`: the
/// first address entry of the From header.
#[verifier::external_body]
pub(crate) fn mail_from_entry(raw: &Vec<u8>) -> (r: Option<RawAddr>)
    ensures
        match r {
            Some(a) => from_entry_of(raw@) == Some(a@),
            None => from_entry_of(raw@) is None,
        },
{
    match mail_parser::MessageParser::default().parse(raw) {
        Some(m) => m.from().and_then(|a| a.first()).map(|a| RawAddr {
            name: a.name().map(|s| s.to_string()),
            address: a.address().map(|s| s.to_string()),
        }),
        None => None,
    }
}

/// Relies on `mail_parser`'s `Message::subject`: the Subject header text.
#[verifier::external_body]
pub(crate) fn mail_subject(raw: &Vec<u8>) -> (r: Option<String>)
    ensures
        match r {
            Some(s) => subject_of(raw@) == Some(s@),
            None => subject_of(raw@) is None,
        },
{
    match mail_parser::MessageParser::default().parse(raw) {
        Some(m) => m.subject().map(|s| s.to_string()),
        None => None,
    }
}

/// Relies on `mail_parser`'s `text_body` part list and `Message::part`: the
/// displayable body parts, in the order the parser lists them.
#[verifier::external_body]
pub(crate) fn mail_text_parts(raw: &Vec<u8>) -> (r: Vec<RawTextPart>)
    ensures
        r@.len() == text_parts_of(raw@).len(),
        forall|i: int| 0 <= i < r@.len() ==> (#[trigger] r@[i])@ == text_parts_of(raw@)[i],
{
    match mail_parser::MessageParser::default().parse(raw) {
        Some(m) => m.text_body.iter().map(|i| match m.part(*i).map(|p| &p.body) {
            Some(mail_parser::PartType::Text(t)) => RawTextPart::Plain(t.to_string()),
            Some(mail_parser::PartType::Html(t)) => RawTextPart::Html(t.to_string()),
            _ => RawTextPart::Other,
        }).collect(),
        None => Vec::new(),
    }
}

/// Relies on `mail_parser`'s `Message::attachments`, `attachment_name` and
/// `contents`: the attachment parts in order, with their declared names and
/// decoded contents.
#[verifier::external_body]
pub(crate) fn mail_attachments(raw: &Vec<u8>) -> (r: Vec<RawAttachment>)
    ensures
        r@.len() == attachments_of(raw@).len(),
        forall|i: int| 0 <= i < r@.len() ==> (#[trigger] r@[i])@ == attachments_of(raw@)[i],
{
    match mail_parser::MessageParser::default().parse(raw) {
        Some(m) => m.attachments().map(|p| RawAttachment {
            name: p.attachment_name().map(|s| s.to_string()),
            data: p.contents().to_vec(),
        }).collect(),
        None => Vec::new(),
    }
}

/// Relies on `mail_parser`'s `Message::headers`, `HeaderName::as_str` and
/// `HeaderValue::as_text`: every header in order, with its textual value
/// where it has one.
#[verifier::external_body]
pub(crate) fn mail_headers(raw: &Vec<u8>) -> (r: Vec<RawHeader>)
    ensures
        r@.len() == headers_of(raw@).len(),
        forall|i: int| 0 <= i < r@.len() ==> (#[trigger] r@[i])@ == headers_of(raw@)[i],
{
    match mail_parser::MessageParser::default().parse(raw) {
        Some(m) => m.headers().iter().map(|h| RawHeader {
            name: h.name.as_str().to_string(),
            value: h.value.as_text().map(|s| s.to_string()),
        }).collect(),
        None => Vec::new(),
    }
}

/// Relies on `mail_parser`'s `Message::header_values` for List-Id: the
/// address entries of all List-Id headers whose value is an address list.
#[verifier::external_body]
pub(crate) fn mail_list_addrs(raw: &Vec<u8>) -> (r: Vec<RawAddr>)
    ensures
        r@.len() == list_addrs_of(raw@).len(),
        forall|i: int| 0 <= i < r@.len() ==> (#[trigger] r@[i])@ == list_addrs_of(raw@)[i],
{
    match mail_parser::MessageParser::default().parse(raw) {
        Some(m) => m.header_values(mail_parser::HeaderName::ListId).flat_map(|v| match v {
            mail_parser::HeaderValue::Address(mail_parser::Address::List(l)) => l.clone(),
            _ => Vec::new(),
        }).map(|a| RawAddr {
            name: a.name.map(|s| s.to_string()),
            address: a.address.map(|s| s.to_string()),
        }).collect(),
        None => Vec::new(),
    }
}

/// Relies on `mail_parser`'s `Message::to`: the address entries of the To
/// header where its value is an address list.
#[verifier::external_body]
pub(crate) fn mail_to_addrs(raw: &Vec<u8>) -> (r: Vec<RawAddr>)
    ensures
        r@.len() == to_addrs_of(raw@).len(),
        forall|i: int| 0 <= i < r@.len() ==> (#[trigger] r@[i])@ == to_addrs_of(raw@)[i],
{
    match mail_parser::MessageParser::default().parse(raw) {
        Some(m) => match m.to() {
            Some(mail_parser::Address::List(l)) => l.iter().map(|a| RawAddr {
                name: a.name().map(|s| s.to_string()),
                address: a.address().map(|s| s.to_string()),
            }).collect(),
            _ => Vec::new(),
        },
        None => Vec::new(),
    }
}

/// Relies on `html2text::from_read`: the result depends on the document and
/// the wrap width alone.
#[verifier::external_body]
pub(crate) fn render_html(html: &str, width: usize) -> (r: Option<String>)
    ensures
        (r is Some) == render_ok(html@, width as int),
        match r {
            Some(s) => s@ == rendered_of(html@, width as int),
            None => true,
        },
{
    match html2text::from_read(html.as_bytes(), width) {
        Ok(s) => Some(s),
        Err(_) => None,
    }
}

} // verus!
