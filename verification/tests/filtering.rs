use courier::email::{Email, Recipient};
use courier::filter::{is_eligible, FilterConfig, ListPolicy};

fn sample_email(passed_spf: bool, list_addresses: &[&str]) -> Email {
    Email {
        to: Vec::new(),
        from: "alice@example.com".to_string(),
        subject: "subject".to_string(),
        body: "body".to_string(),
        attachments: Vec::new(),
        passed_spf,
        list_id: list_addresses
            .iter()
            .map(|a| Recipient { name: String::new(), address: a.to_string() })
            .collect(),
    }
}

#[test]
fn all_filters_disabled_accepts_everything() {
    let cfg = FilterConfig { mailing_list: ListPolicy::NoListFilter, check_spf: false };
    assert!(is_eligible(&sample_email(false, &[]), &cfg));
    assert!(is_eligible(&sample_email(true, &["x@example.com"]), &cfg));
}

#[test]
fn spf_filter_rejects_unauthenticated_mail() {
    let cfg = FilterConfig { mailing_list: ListPolicy::NoListFilter, check_spf: true };
    assert!(!is_eligible(&sample_email(false, &[]), &cfg));
    assert!(is_eligible(&sample_email(true, &[]), &cfg));
}

#[test]
fn list_filter_requires_membership() {
    let cfg = FilterConfig {
        mailing_list: ListPolicy::ListFilter("list@example.com".to_string()),
        check_spf: false,
    };
    assert!(!is_eligible(&sample_email(true, &[]), &cfg));
    assert!(!is_eligible(&sample_email(true, &["other@example.com"]), &cfg));
    assert!(is_eligible(&sample_email(true, &["other@example.com", "list@example.com"]), &cfg));
}

#[test]
fn both_filters_must_pass() {
    let cfg = FilterConfig {
        mailing_list: ListPolicy::ListFilter("list@example.com".to_string()),
        check_spf: true,
    };
    assert!(!is_eligible(&sample_email(false, &["list@example.com"]), &cfg));
    assert!(!is_eligible(&sample_email(true, &["other@example.com"]), &cfg));
    assert!(is_eligible(&sample_email(true, &["list@example.com"]), &cfg));
}
