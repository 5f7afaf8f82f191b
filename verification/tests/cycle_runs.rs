use courier::cycle::{begin_cycle, finish_cycle, plan_cycle, record_delivery, CycleState};
use courier::filter::{FilterConfig, ListPolicy};
use courier::notify::NotificationBudget;

fn open_filter() -> FilterConfig {
    FilterConfig { mailing_list: ListPolicy::NoListFilter, check_spf: false }
}

fn wide_budget() -> NotificationBudget {
    NotificationBudget { max_attachments: 10, max_total_attachment_bytes: 10_000_000 }
}

fn simple_message(subject: &str) -> Vec<u8> {
    format!(
        "From: sender@example.com\r\nSubject: {}\r\n\r\nbody of {}",
        subject, subject
    )
    .into_bytes()
}

#[test]
fn one_bad_message_does_not_abort_the_cycle() {
    // Five fetched messages, one of which cannot be parsed at all.
    let raws = vec![
        simple_message("one"),
        simple_message("two"),
        Vec::new(),
        simple_message("four"),
        simple_message("five"),
    ];
    let plan = plan_cycle(raws, &open_filter(), &wide_budget());
    assert_eq!(plan.report.fetched, 5);
    assert_eq!(plan.report.normalized_ok, 4);
    assert_eq!(plan.report.normalized_failed, 1);
    assert_eq!(plan.report.eligible, 4);
    assert_eq!(plan.report.delivered_ok, 0);
    assert_eq!(plan.report.delivered_failed, 0);
    assert_eq!(plan.payloads.len(), 4);
    assert_eq!(plan.payloads[0].title, "one");
    assert_eq!(plan.payloads[1].title, "two");
    assert_eq!(plan.payloads[2].title, "four");
    assert_eq!(plan.payloads[3].title, "five");
}

#[test]
fn authenticated_message_is_delivered_when_check_enabled() {
    // An authentication-result header starting with the Pass token, the
    // authenticity check enabled, and no mailing list configured.
    let raw = b"From: sender@example.com\r\n\
        Received-SPF: Pass (details of the check)\r\n\
        Subject: authentic\r\n\
        \r\n\
        hello"
        .to_vec();
    let filter = FilterConfig { mailing_list: ListPolicy::NoListFilter, check_spf: true };
    let plan = plan_cycle(vec![raw], &filter, &wide_budget());
    assert_eq!(plan.report.eligible, 1);
    assert_eq!(plan.payloads.len(), 1);
    assert_eq!(plan.payloads[0].title, "authentic");
    assert_eq!(plan.payloads[0].username, "sender@example.com");
}

#[test]
fn message_for_another_list_is_not_delivered() {
    // The configured mailing-list address is list@example.com, but the
    // message's list-derived recipients carry only other@example.com.
    let raw = b"From: sender@example.com\r\n\
        List-Id: Another List <other@example.com>\r\n\
        Subject: wrong list\r\n\
        \r\n\
        hello"
        .to_vec();
    let filter = FilterConfig {
        mailing_list: ListPolicy::ListFilter("list@example.com".to_string()),
        check_spf: false,
    };
    let plan = plan_cycle(vec![raw], &filter, &wide_budget());
    assert_eq!(plan.report.fetched, 1);
    assert_eq!(plan.report.normalized_ok, 1);
    assert_eq!(plan.report.eligible, 0);
    assert_eq!(plan.payloads.len(), 0);
}

#[test]
fn delivery_outcomes_are_recorded() {
    let plan = plan_cycle(vec![simple_message("a")], &open_filter(), &wide_budget());
    let mut report = plan.report;
    record_delivery(&mut report, true);
    record_delivery(&mut report, false);
    record_delivery(&mut report, true);
    assert_eq!(report.delivered_ok, 2);
    assert_eq!(report.delivered_failed, 1);
    assert_eq!(report.fetched, 1);
    assert_eq!(report.normalized_ok, 1);
}

#[test]
fn cycle_state_round_trip() {
    let mut state = CycleState::Idle;
    begin_cycle(&mut state);
    assert_eq!(state, CycleState::Running);
    finish_cycle(&mut state);
    assert_eq!(state, CycleState::Idle);
}
