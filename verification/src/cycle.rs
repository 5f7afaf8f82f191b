//! Per-cycle accounting: normalize, filter and build for one batch of
//! fetched raw messages, isolating each message's failure, and keep the
//! counts a cycle reports.
//!
//! Fetching raw messages and delivering payloads suspend on the outside
//! world and stay with the caller; this module only decides and counts.

use vstd::prelude::*;

use crate::email::{normalized_of, parse_message_to_email};
use crate::filter::{eligible, is_eligible, FilterConfig, FilterConfigView};
use crate::mail_raw::parse_ok;
use crate::notify::{build, payload_of, NotificationBudget, OutboundPayload, PayloadView};

verus! {

/// The counts one cycle reports.
#[derive(Clone, Copy, Debug, PartialEq, Eq, Structural)]
pub struct CycleReport {
    pub fetched: usize,
    pub normalized_ok: usize,
    pub normalized_failed: usize,
    pub eligible: usize,
    pub delivered_ok: usize,
    pub delivered_failed: usize,
}

/// The cycle state machine: waiting for the next interval, or one cycle in
/// progress.
#[derive(Clone, Copy, Debug, PartialEq, Eq, Structural)]
pub enum CycleState {
    Idle,
    Running,
}

/// What one cycle decided: the payloads to deliver, in source order, and
/// the counts so far (delivery counts still zero).
pub struct CyclePlan {
    pub payloads: Vec<OutboundPayload>,
    pub report: CycleReport,
}

/// How many of the raw messages normalize successfully.
pub open spec fn ok_count(raws: Seq<Seq<u8>>) -> int
    decreases raws.len(),
{
    if raws.len() == 0 {
        0
    } else {
        ok_count(raws.drop_last()) + (if parse_ok(raws.last()) {
            1int
        } else {
            0int
        })
    }
}

/// The payloads owed for a batch of raw messages: one per message that
/// normalizes and is eligible, in source order, each built under the given
/// budgets.
pub open spec fn eligible_payloads(
    raws: Seq<Seq<u8>>,
    c: FilterConfigView,
    max_n: int,
    max_b: int,
) -> Seq<PayloadView>
    decreases raws.len(),
{
    if raws.len() == 0 {
        Seq::empty()
    } else {
        let rest = eligible_payloads(raws.drop_last(), c, max_n, max_b);
        if parse_ok(raws.last()) && eligible(normalized_of(raws.last()), c) {
            rest.push(payload_of(normalized_of(raws.last()), max_n, max_b))
        } else {
            rest
        }
    }
}

/// Normalize, filter and build for one batch of fetched raw messages.
///
/// One message's normalization failure is counted and skipped; it neither
/// aborts the cycle nor affects its siblings. The result carries one
/// payload per eligible message, in source order, and the cycle counts,
/// with both delivery counts still zero.
pub fn plan_cycle(raws: Vec<Vec<u8>>, filter: &FilterConfig, budget: &NotificationBudget) -> (plan:
    CyclePlan)
    ensures
        plan.report.fetched == raws@.len(),
        plan.report.normalized_ok == ok_count(raws.deep_view()),
        plan.report.normalized_failed == raws@.len() - ok_count(raws.deep_view()),
        plan.report.eligible == plan.payloads@.len(),
        plan.report.delivered_ok == 0,
        plan.report.delivered_failed == 0,
        plan.payloads@.map_values(|p: OutboundPayload| p@) == eligible_payloads(
            raws.deep_view(),
            filter@,
            budget.max_attachments as int,
            budget.max_total_attachment_bytes as int,
        ),
{
    let ghost all = raws.deep_view();
    let ghost fv = filter@;
    let ghost max_n = budget.max_attachments as int;
    let ghost max_b = budget.max_total_attachment_bytes as int;
    let fetched = raws.len();
    let mut rest = raws;
    let mut i: usize = 0;
    let mut normalized_ok: usize = 0;
    let mut normalized_failed: usize = 0;
    let mut eligible_n: usize = 0;
    let mut payloads: Vec<OutboundPayload> = Vec::new();
    while rest.len() > 0
        invariant
            i + rest@.len() == all.len(),
            fetched == all.len(),
            fv == filter@,
            max_n == budget.max_attachments as int,
            max_b == budget.max_total_attachment_bytes as int,
            forall|j: int| 0 <= j < rest@.len() ==> (#[trigger] rest@[j])@ == all[i + j],
            normalized_ok == ok_count(all.take(i as int)),
            normalized_ok <= i,
            normalized_failed == i - ok_count(all.take(i as int)),
            eligible_n == payloads@.len(),
            eligible_n <= i,
            payloads@.map_values(|p: OutboundPayload| p@) =~= eligible_payloads(
                all.take(i as int),
                fv,
                max_n,
                max_b,
            ),
        decreases rest@.len(),
    {
        let raw = rest.remove(0);
        proof {
            assert(raw@ == all[i as int]);
            assert(all.take(i + 1).drop_last() =~= all.take(i as int));
            assert(all.take(i + 1).last() == all[i as int]);
        }
        match parse_message_to_email(raw) {
            Ok(email) => {
                normalized_ok = normalized_ok + 1;
                if is_eligible(&email, filter) {
                    let payload = build(&email, budget);
                    payloads.push(payload);
                    eligible_n = eligible_n + 1;
                }
            },
            Err(_) => {
                normalized_failed = normalized_failed + 1;
            },
        }
        proof {
            assert(payloads@.map_values(|p: OutboundPayload| p@) =~= eligible_payloads(
                all.take(i + 1),
                fv,
                max_n,
                max_b,
            ));
        }
        i += 1;
    }
    proof {
        assert(all.take(i as int) =~= all);
    }
    CyclePlan {
        payloads,
        report: CycleReport {
            fetched,
            normalized_ok,
            normalized_failed,
            eligible: eligible_n,
            delivered_ok: 0,
            delivered_failed: 0,
        },
    }
}

/// Record one delivery attempt's outcome in the cycle's report; no other
/// count changes.
pub fn record_delivery(report: &mut CycleReport, delivered: bool)
    requires
        delivered ==> old(report).delivered_ok < usize::MAX,
        !delivered ==> old(report).delivered_failed < usize::MAX,
    ensures
        final(report).delivered_ok == old(report).delivered_ok + (if delivered {
            1int
        } else {
            0int
        }),
        final(report).delivered_failed == old(report).delivered_failed + (if delivered {
            0int
        } else {
            1int
        }),
        final(report).fetched == old(report).fetched,
        final(report).normalized_ok == old(report).normalized_ok,
        final(report).normalized_failed == old(report).normalized_failed,
        final(report).eligible == old(report).eligible,
{
    if delivered {
        report.delivered_ok = report.delivered_ok + 1;
    } else {
        report.delivered_failed = report.delivered_failed + 1;
    }
}

/// Leave the interval wait and start one cycle.
pub fn begin_cycle(state: &mut CycleState)
    requires
        *old(state) is Idle,
    ensures
        *final(state) is Running,
{
    *state = CycleState::Running;
}

/// End the cycle — completed or abandoned on a cycle-fatal error — and
/// return to the interval wait.
pub fn finish_cycle(state: &mut CycleState)
    requires
        *old(state) is Running,
    ensures
        *final(state) is Idle,
{
    *state = CycleState::Idle;
}

} // verus!
