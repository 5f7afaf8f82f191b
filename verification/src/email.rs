//! The message normalizer: from one raw mail message to a structured,
//! sentinel-filled [`Email`] value.

use vstd::prelude::*;
use vstd::string::*;

use crate::mail_raw::{
    AddrFacts, AttachmentFacts, HeaderFacts, RawAddr, RawAttachment, RawHeader, RawTextPart,
    TextPartFacts, attachments_of, from_entry_of, headers_of, list_addrs_of, mail_attachments,
    mail_from_entry, mail_headers, mail_list_addrs, mail_parses, mail_subject, mail_text_parts,
    mail_to_addrs, parse_ok, render_html, render_ok, rendered_of, subject_of, text_parts_of,
    to_addrs_of,
};

verus! {

/// Columns at which an HTML body part is wrapped when rendered to text.
pub const WRAP_WIDTH: usize = 140;

/// A normalized mail message: every field is filled, with sentinels where
/// the source message gave nothing.
pub struct Email {
    pub to: Vec<Recipient>,
    pub from: String,
    pub subject: String,
    pub body: String,
    pub attachments: Vec<Attachment>,
    pub passed_spf: bool,
    pub list_id: Vec<Recipient>,
}

/// An attachment: file name (a sentinel when the source named none) and
/// decoded contents.
pub struct Attachment {
    pub filename: String,
    pub contents: Vec<u8>,
}

/// A recipient: display name and address, either possibly empty, never
/// missing.
pub struct Recipient {
    pub name: String,
    pub address: String,
}

/// Mathematical model of a [`Recipient`].
#[verifier::ext_equal]
pub struct RecipientView {
    pub name: Seq<char>,
    pub address: Seq<char>,
}

/// Mathematical model of an [`Attachment`].
#[verifier::ext_equal]
pub struct AttachmentView {
    pub filename: Seq<char>,
    pub contents: Seq<u8>,
}

/// Mathematical model of an [`Email`].
#[verifier::ext_equal]
pub struct EmailView {
    pub to: Seq<RecipientView>,
    pub from: Seq<char>,
    pub subject: Seq<char>,
    pub body: Seq<char>,
    pub attachments: Seq<AttachmentView>,
    pub passed_spf: bool,
    pub list_id: Seq<RecipientView>,
}

impl View for Recipient {
    type V = RecipientView;

    open spec fn view(&self) -> RecipientView {
        RecipientView { name: self.name@, address: self.address@ }
    }
}

impl View for Attachment {
    type V = AttachmentView;

    open spec fn view(&self) -> AttachmentView {
        AttachmentView { filename: self.filename@, contents: self.contents@ }
    }
}

impl View for Email {
    type V = EmailView;

    open spec fn view(&self) -> EmailView {
        EmailView {
            to: self.to@.map_values(|r: Recipient| r@),
            from: self.from@,
            subject: self.subject@,
            body: self.body@,
            attachments: self.attachments@.map_values(|a: Attachment| a@),
            passed_spf: self.passed_spf,
            list_id: self.list_id@.map_values(|r: Recipient| r@),
        }
    }
}

/// What one displayable body part contributes to the body text: plain text
/// verbatim, HTML through its fixed-width rendering, anything else nothing.
pub open spec fn part_text(p: TextPartFacts) -> Seq<char> {
    match p {
        TextPartFacts::Plain(s) => s,
        TextPartFacts::Html(h) => if render_ok(h, WRAP_WIDTH as int) {
            rendered_of(h, WRAP_WIDTH as int)
        } else {
            Seq::empty()
        },
        TextPartFacts::Other => Seq::empty(),
    }
}

/// The body text: the contributions of all displayable parts, concatenated
/// in encounter order.
pub open spec fn body_of(parts: Seq<TextPartFacts>) -> Seq<char>
    decreases parts.len(),
{
    if parts.len() == 0 {
        Seq::empty()
    } else {
        body_of(parts.drop_last()) + part_text(parts.last())
    }
}

/// The sender: the first From entry's address, an empty string when that
/// entry has no address, and a sentinel when there is no entry at all.
pub open spec fn sender_of(raw: Seq<u8>) -> Seq<char> {
    match from_entry_of(raw) {
        Some(a) => match a.address {
            Some(s) => s,
            None => Seq::empty(),
        },
        None => "NO ADDRESS"@,
    }
}

/// The subject, with a sentinel when the message has none.
pub open spec fn subject_text_of(raw: Seq<u8>) -> Seq<char> {
    match subject_of(raw) {
        Some(s) => s,
        None => "NO SUBJECT"@,
    }
}

/// An address entry as a recipient: missing parts become empty strings.
pub open spec fn recipient_of(a: AddrFacts) -> RecipientView {
    RecipientView {
        name: match a.name {
            Some(s) => s,
            None => Seq::empty(),
        },
        address: match a.address {
            Some(s) => s,
            None => Seq::empty(),
        },
    }
}

/// An attachment with the fallback file name filled in.
pub open spec fn attachment_view_of(a: AttachmentFacts) -> AttachmentView {
    AttachmentView {
        filename: match a.name {
            Some(s) => s,
            None => "filename"@,
        },
        contents: a.data,
    }
}

/// `p` is a prefix of `s`.
pub open spec fn is_prefix(p: Seq<char>, s: Seq<char>) -> bool {
    p.len() <= s.len() && forall|i: int| 0 <= i < p.len() ==> s[i] == p[i]
}

/// A header witnessing a passed SPF check: named `Received-SPF`, with a
/// textual value beginning with the `Pass` token (case-sensitively).
pub open spec fn header_is_spf_pass(h: HeaderFacts) -> bool {
    h.name == "Received-SPF"@ && match h.value {
        Some(v) => is_prefix("Pass"@, v),
        None => false,
    }
}

/// Whether some header of the message witnesses a passed SPF check.
pub open spec fn spf_of(headers: Seq<HeaderFacts>) -> bool {
    exists|i: int| 0 <= i < headers.len() && header_is_spf_pass(#[trigger] headers[i])
}

/// The normalized form of a raw message that parses: what
/// [`parse_message_to_email`] returns on it.
pub open spec fn normalized_of(raw: Seq<u8>) -> EmailView {
    EmailView {
        to: to_addrs_of(raw).map_values(|a: AddrFacts| recipient_of(a)),
        from: sender_of(raw),
        subject: subject_text_of(raw),
        body: body_of(text_parts_of(raw)),
        attachments: attachments_of(raw).map_values(|a: AttachmentFacts| attachment_view_of(a)),
        passed_spf: spf_of(headers_of(raw)),
        list_id: list_addrs_of(raw).map_values(|a: AddrFacts| recipient_of(a)),
    }
}

/// Whether `s` starts with `p`, by characters.
pub fn str_starts_with(s: &str, p: &str) -> (r: bool)
    ensures
        r == is_prefix(p@, s@),
{
    let s_len = s.unicode_len();
    let p_len = p.unicode_len();
    if p_len > s_len {
        return false;
    }
    let mut i: usize = 0;
    while i < p_len
        invariant
            i <= p_len,
            p_len == p@.len(),
            s_len == s@.len(),
            p_len <= s_len,
            forall|j: int| 0 <= j < i ==> s@[j] == p@[j],
        decreases p_len - i,
    {
        if s.get_char(i) != p.get_char(i) {
            assert(!is_prefix(p@, s@)) by {
                assert(s@[i as int] != p@[i as int]);
            }
            return false;
        }
        i += 1;
    }
    true
}

/// Concatenate the contributions of the displayable body parts, in order.
pub fn build_body(parts: &Vec<RawTextPart>) -> (r: String)
    ensures
        r@ == body_of(parts@.map_values(|p: RawTextPart| p@)),
{
    let ghost pv = parts@.map_values(|p: RawTextPart| p@);
    let mut acc = String::new();
    let mut i: usize = 0;
    while i < parts.len()
        invariant
            i <= parts.len(),
            pv == parts@.map_values(|p: RawTextPart| p@),
            acc@ == body_of(pv.take(i as int)),
        decreases parts.len() - i,
    {
        proof {
            assert(pv.take(i + 1).drop_last() =~= pv.take(i as int));
            assert(pv.take(i + 1).last() == pv[i as int]);
        }
        match &parts[i] {
            RawTextPart::Plain(s) => {
                acc.append(s.as_str());
            },
            RawTextPart::Html(h) => {
                match render_html(h.as_str(), WRAP_WIDTH) {
                    Some(t) => {
                        acc.append(t.as_str());
                    },
                    None => {
                        assert(acc@ + Seq::<char>::empty() =~= acc@);
                    },
                }
            },
            RawTextPart::Other => {
                assert(acc@ + Seq::<char>::empty() =~= acc@);
            },
        }
        i += 1;
    }
    proof {
        assert(pv.take(parts.len() as int) =~= pv);
    }
    acc
}

/// Whether some header witnesses a passed SPF check.
pub fn compute_spf(headers: &Vec<RawHeader>) -> (r: bool)
    ensures
        r == spf_of(headers@.map_values(|h: RawHeader| h@)),
{
    let ghost hv = headers@.map_values(|h: RawHeader| h@);
    let spf_name = "Received-SPF".to_owned();
    let mut i: usize = 0;
    while i < headers.len()
        invariant
            i <= headers.len(),
            hv == headers@.map_values(|h: RawHeader| h@),
            spf_name@ == "Received-SPF"@,
            forall|j: int| 0 <= j < i ==> !header_is_spf_pass(#[trigger] hv[j]),
        decreases headers.len() - i,
    {
        if headers[i].name == spf_name {
            match &headers[i].value {
                Some(v) => {
                    if str_starts_with(v.as_str(), "Pass") {
                        assert(header_is_spf_pass(hv[i as int]));
                        return true;
                    }
                },
                None => {},
            }
        }
        assert(!header_is_spf_pass(hv[i as int]));
        i += 1;
    }
    false
}

/// Convert a list of addresses to a list of recipients, replacing missing
/// parts by empty strings.
pub fn addresses_to_recipients(list: &Vec<RawAddr>) -> (r: Vec<Recipient>)
    ensures
        r@.len() == list@.len(),
        forall|i: int| 0 <= i < list@.len() ==> (#[trigger] r@[i])@ == recipient_of(list@[i]@),
{
    let mut out: Vec<Recipient> = Vec::new();
    let mut i: usize = 0;
    while i < list.len()
        invariant
            i <= list.len(),
            out@.len() == i,
            forall|j: int| 0 <= j < i ==> (#[trigger] out@[j])@ == recipient_of(list@[j]@),
        decreases list.len() - i,
    {
        let name = match &list[i].name {
            Some(s) => s.clone(),
            None => String::new(),
        };
        let address = match &list[i].address {
            Some(s) => s.clone(),
            None => String::new(),
        };
        out.push(Recipient { name, address });
        i += 1;
    }
    out
}

/// Turn the raw attachment parts into attachments, filling in the fallback
/// file name where the source named none.
pub fn convert_attachments(list: Vec<RawAttachment>) -> (r: Vec<Attachment>)
    ensures
        r@.len() == list@.len(),
        forall|i: int| 0 <= i < list@.len() ==> (#[trigger] r@[i])@ == attachment_view_of(list@[i]@),
{
    let ghost orig = list@;
    let mut rest = list;
    let mut out: Vec<Attachment> = Vec::new();
    while rest.len() > 0
        invariant
            out@.len() + rest@.len() == orig.len(),
            rest@ =~= orig.skip(out@.len() as int),
            forall|j: int| 0 <= j < out@.len() ==> (#[trigger] out@[j])@ == attachment_view_of(orig[j]@),
        decreases rest.len(),
    {
        let a = rest.remove(0);
        let filename = match a.name {
            Some(s) => s,
            None => "filename".to_owned(),
        };
        out.push(Attachment { filename, contents: a.data });
        proof {
            assert(rest@ =~= orig.skip(out@.len() as int));
        }
    }
    out
}

/// Parse a raw message into an [`Email`].
///
/// Fails exactly when the octets cannot be parsed as a mail message at all;
/// missing fields degrade to sentinels instead. On success the result is
/// the normalized form of the octets, [`normalized_of`].
pub fn parse_message_to_email(message: Vec<u8>) -> (r: Result<Email, &'static str>)
    ensures
        r is Ok <==> parse_ok(message@),
        r matches Ok(e) ==> e@ == normalized_of(message@),
        r matches Err(e) ==> e@ == "could not parse the message"@,
{
    if !mail_parses(&message) {
        return Err("could not parse the message");
    }
    let from = match mail_from_entry(&message) {
        Some(a) => match a.address {
            Some(s) => s,
            None => String::new(),
        },
        None => "NO ADDRESS".to_owned(),
    };
    let subject = match mail_subject(&message) {
        Some(s) => s,
        None => "NO SUBJECT".to_owned(),
    };
    let parts = mail_text_parts(&message);
    let body = build_body(&parts);
    let raw_attachments = mail_attachments(&message);
    let attachments = convert_attachments(raw_attachments);
    let raw_to = mail_to_addrs(&message);
    let to = addresses_to_recipients(&raw_to);
    let raw_list = mail_list_addrs(&message);
    let list_id = addresses_to_recipients(&raw_list);
    let raw_headers = mail_headers(&message);
    let passed_spf = compute_spf(&raw_headers);
    let email = Email { to, from, subject, body, attachments, passed_spf, list_id };
    proof {
        let raw = message@;
        assert(parts@.map_values(|p: RawTextPart| p@) =~= text_parts_of(raw));
        assert(email.attachments@.map_values(|a: Attachment| a@) =~= attachments_of(
            raw,
        ).map_values(|a: AttachmentFacts| attachment_view_of(a)));
        assert(email.to@.map_values(|r2: Recipient| r2@) =~= to_addrs_of(raw).map_values(
            |a: AddrFacts| recipient_of(a),
        ));
        assert(email.list_id@.map_values(|r2: Recipient| r2@) =~= list_addrs_of(raw).map_values(
            |a: AddrFacts| recipient_of(a),
        ));
        assert(raw_headers@.map_values(|h: RawHeader| h@) =~= headers_of(raw));
        assert(email@ =~= normalized_of(raw));
    }
    Ok(email)
}

/// With no displayable text or HTML parts, the normalized body is the empty
/// string.
pub proof fn lemma_empty_body_without_text_parts(raw: Seq<u8>)
    ensures
        text_parts_of(raw).len() == 0 ==> normalized_of(raw).body =~= Seq::<char>::empty(),
{
}

/// A missing From entry yields the sender sentinel, and a missing subject
/// yields the subject sentinel.
pub proof fn lemma_missing_header_sentinels(raw: Seq<u8>)
    ensures
        from_entry_of(raw) is None ==> normalized_of(raw).from == "NO ADDRESS"@,
        subject_of(raw) is None ==> normalized_of(raw).subject == "NO SUBJECT"@,
{
}

/// Normalization is a function of the raw octets alone: two normalized
/// forms of the same octets agree field for field.
pub proof fn lemma_normalize_idempotent(raw: Seq<u8>, first: EmailView, second: EmailView)
    requires
        first == normalized_of(raw),
        second == normalized_of(raw),
    ensures
        first == second,
        first.from == second.from,
        first.subject == second.subject,
        first.body == second.body,
        first.attachments == second.attachments,
        first.to == second.to,
        first.list_id == second.list_id,
        first.passed_spf == second.passed_spf,
{
}

} // verus!
