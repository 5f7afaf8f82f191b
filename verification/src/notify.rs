//! The notification builder: turns an eligible message into an outbound
//! payload, enforcing the attachment count and cumulative size budgets.

use vstd::prelude::*;

use crate::config::DiscordConfigConfig;
use crate::email::{Attachment, AttachmentView, Email, EmailView};

verus! {

/// The attachment budgets an outbound payload must respect.
pub struct NotificationBudget {
    /// Maximum number of attachments included.
    pub max_attachments: usize,
    /// Maximum cumulative size, in bytes, of the included attachments.
    pub max_total_attachment_bytes: usize,
}

/// The outbound payload: display name, title, description, and a bounded
/// list of attachments.
pub struct OutboundPayload {
    pub username: String,
    pub title: String,
    pub description: String,
    pub attachments: Vec<Attachment>,
}

/// Mathematical model of an [`OutboundPayload`].
#[verifier::ext_equal]
pub struct PayloadView {
    pub username: Seq<char>,
    pub title: Seq<char>,
    pub description: Seq<char>,
    pub attachments: Seq<AttachmentView>,
}

impl View for OutboundPayload {
    type V = PayloadView;

    open spec fn view(&self) -> PayloadView {
        PayloadView {
            username: self.username@,
            title: self.title@,
            description: self.description@,
            attachments: self.attachments@.map_values(|a: Attachment| a@),
        }
    }
}

/// Where scanning stops, starting from position `i` with `total` bytes
/// already admitted: attachments are admitted one by one while the count
/// stays below `max_n` and the running byte total stays within `max_b`;
/// the first breach of either limit halts scanning entirely.
pub open spec fn sel_len_from(
    atts: Seq<AttachmentView>,
    max_n: int,
    max_b: int,
    i: int,
    total: int,
) -> int
    decreases atts.len() - i,
{
    if i >= atts.len() || i >= max_n || total + atts[i].contents.len() > max_b {
        i
    } else {
        sel_len_from(atts, max_n, max_b, i + 1, total + atts[i].contents.len())
    }
}

/// The attachments admitted under the budgets: always a contiguous prefix
/// of the original ordered sequence.
pub open spec fn selected(atts: Seq<AttachmentView>, max_n: int, max_b: int) -> Seq<AttachmentView> {
    atts.take(sel_len_from(atts, max_n, max_b, 0, 0))
}

/// The cumulative size, in bytes, of a sequence of attachments.
pub open spec fn total_bytes(atts: Seq<AttachmentView>) -> int
    decreases atts.len(),
{
    if atts.len() == 0 {
        0
    } else {
        total_bytes(atts.drop_last()) + atts.last().contents.len()
    }
}

/// The payload built from a normalized message under the given budgets.
pub open spec fn payload_of(m: EmailView, max_n: int, max_b: int) -> PayloadView {
    PayloadView {
        username: m.from,
        title: m.subject,
        description: m.body,
        attachments: selected(m.attachments, max_n, max_b),
    }
}

/// Copy a byte vector.
fn clone_bytes(v: &Vec<u8>) -> (r: Vec<u8>)
    ensures
        r@ == v@,
{
    let mut out: Vec<u8> = Vec::new();
    let mut i: usize = 0;
    while i < v.len()
        invariant
            i <= v.len(),
            out@ =~= v@.take(i as int),
        decreases v.len() - i,
    {
        out.push(v[i]);
        i += 1;
    }
    proof {
        assert(v@.take(v@.len() as int) =~= v@);
    }
    out
}

impl NotificationBudget {
    /// The budgets a webhook configuration calls for: the count limit as
    /// given, and the size limit scaled from megabytes to bytes.
    pub fn from_discord_config(cfg: &DiscordConfigConfig) -> (b: NotificationBudget)
        ensures
            b.max_attachments == cfg.max_attachments as int,
            b.max_total_attachment_bytes == cfg.attachment_size_limit as int * 1_000_000,
    {
        NotificationBudget {
            max_attachments: cfg.max_attachments as usize,
            max_total_attachment_bytes: (cfg.attachment_size_limit as usize) * 1_000_000,
        }
    }
}

/// Build the outbound payload for a message: text fields copied over, and
/// the longest budget-respecting prefix of its attachments.
///
/// Never fails; with tight budgets it degrades to a payload with no
/// attachments.
pub fn build(msg: &Email, budget: &NotificationBudget) -> (p: OutboundPayload)
    ensures
        p@ == payload_of(
            msg@,
            budget.max_attachments as int,
            budget.max_total_attachment_bytes as int,
        ),
{
    let ghost av = msg.attachments@.map_values(|a: Attachment| a@);
    let ghost max_n = budget.max_attachments as int;
    let ghost max_b = budget.max_total_attachment_bytes as int;
    let mut out: Vec<Attachment> = Vec::new();
    let mut total: usize = 0;
    let mut i: usize = 0;
    loop
        invariant
            i <= msg.attachments@.len(),
            i <= budget.max_attachments,
            out@.len() == i,
            av == msg.attachments@.map_values(|a: Attachment| a@),
            max_n == budget.max_attachments as int,
            max_b == budget.max_total_attachment_bytes as int,
            out@.map_values(|a: Attachment| a@) =~= av.take(i as int),
            total == total_bytes(av.take(i as int)),
            total <= budget.max_total_attachment_bytes,
            sel_len_from(av, max_n, max_b, 0, 0) == sel_len_from(av, max_n, max_b, i as int, total as int),
        ensures
            i <= msg.attachments@.len(),
            out@.map_values(|a: Attachment| a@) =~= av.take(i as int),
            sel_len_from(av, max_n, max_b, 0, 0) == i as int,
        decreases msg.attachments@.len() - i,
    {
        if i == msg.attachments.len() {
            proof {
                assert(i as int >= av.len());
                assert(sel_len_from(av, max_n, max_b, i as int, total as int) == i);
            }
            break;
        }
        if out.len() == budget.max_attachments {
            proof {
                assert(i as int >= max_n);
                assert(sel_len_from(av, max_n, max_b, i as int, total as int) == i);
            }
            break;
        }
        let size = msg.attachments[i].contents.len();
        if size > budget.max_total_attachment_bytes - total {
            proof {
                assert(av[i as int].contents.len() == size);
                assert(sel_len_from(av, max_n, max_b, i as int, total as int) == i);
            }
            break;
        }
        proof {
            assert(av[i as int].contents.len() == size);
            assert(av.take(i + 1).drop_last() =~= av.take(i as int));
            assert(av.take(i + 1).last() == av[i as int]);
        }
        out.push(
            Attachment {
                filename: msg.attachments[i].filename.clone(),
                contents: clone_bytes(&msg.attachments[i].contents),
            },
        );
        total = total + size;
        i += 1;
    }
    proof {
        assert(selected(av, max_n, max_b) =~= av.take(i as int));
    }
    OutboundPayload {
        username: msg.from.clone(),
        title: msg.subject.clone(),
        description: msg.body.clone(),
        attachments: out,
    }
}

proof fn lemma_sel_len_from_bounds(
    atts: Seq<AttachmentView>,
    max_n: int,
    max_b: int,
    i: int,
    total: int,
)
    requires
        0 <= i <= atts.len(),
        total == total_bytes(atts.take(i)),
        total <= max_b,
    ensures
        i <= sel_len_from(atts, max_n, max_b, i, total) <= atts.len(),
        sel_len_from(atts, max_n, max_b, i, total) <= max_n || sel_len_from(
            atts,
            max_n,
            max_b,
            i,
            total,
        ) == i,
        total_bytes(atts.take(sel_len_from(atts, max_n, max_b, i, total))) <= max_b,
    decreases atts.len() - i,
{
    if i >= atts.len() || i >= max_n || total + atts[i].contents.len() > max_b {
    } else {
        assert(atts.take(i + 1).drop_last() =~= atts.take(i));
        assert(atts.take(i + 1).last() == atts[i]);
        lemma_sel_len_from_bounds(atts, max_n, max_b, i + 1, total + atts[i].contents.len());
    }
}

/// The attachment budget law: under any budgets, the admitted attachments
/// number at most `max_n`, their cumulative size is at most `max_b`, and
/// they are a contiguous prefix of the original ordered sequence.
pub proof fn lemma_attachment_budget(atts: Seq<AttachmentView>, max_n: int, max_b: int)
    requires
        0 <= max_n,
        0 <= max_b,
    ensures
        selected(atts, max_n, max_b).len() <= max_n,
        selected(atts, max_n, max_b).len() <= atts.len(),
        total_bytes(selected(atts, max_n, max_b)) <= max_b,
        forall|i: int|
            0 <= i < selected(atts, max_n, max_b).len() ==> selected(atts, max_n, max_b)[i]
                == atts[i],
{
    assert(atts.take(0) =~= Seq::<AttachmentView>::empty());
    lemma_sel_len_from_bounds(atts, max_n, max_b, 0, 0);
}

} // verus!
