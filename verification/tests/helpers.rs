use courier::config::{Config, DiscordConfigConfig, ImapConfigConfig, MailingListConfig};
use courier::email::{
    addresses_to_recipients, build_body, compute_spf, convert_attachments, str_starts_with,
};
use courier::filter::{filter_config_of, is_eligible, ListPolicy};
use courier::mail_raw::{RawAddr, RawAttachment, RawHeader, RawTextPart};

#[test]
fn prefix_check_is_exact() {
    assert!(str_starts_with("Pass (details)", "Pass"));
    assert!(str_starts_with("Pass", "Pass"));
    assert!(!str_starts_with("pass (details)", "Pass"));
    assert!(!str_starts_with("Pas", "Pass"));
    assert!(str_starts_with("anything", ""));
}

#[test]
fn prefix_check_handles_multibyte_characters() {
    assert!(str_starts_with("Päss x", "Päss"));
    assert!(!str_starts_with("Päss", "Pässe"));
}

#[test]
fn body_concatenates_plain_parts() {
    let parts = vec![
        RawTextPart::Plain("one ".to_string()),
        RawTextPart::Other,
        RawTextPart::Plain("two".to_string()),
    ];
    assert_eq!(build_body(&parts), "one two");
}

#[test]
fn body_renders_html_parts() {
    let parts = vec![RawTextPart::Html("<p>hi <b>you</b></p>".to_string())];
    let expected = html2text::from_read("<p>hi <b>you</b></p>".as_bytes(), 140).unwrap();
    assert_eq!(build_body(&parts), expected);
}

#[test]
fn spf_scan_finds_a_pass_header() {
    let headers = vec![
        RawHeader { name: "Subject".to_string(), value: Some("x".to_string()) },
        RawHeader { name: "Received-SPF".to_string(), value: Some("Pass (ok)".to_string()) },
    ];
    assert!(compute_spf(&headers));
    let no_pass = vec![
        RawHeader { name: "Received-SPF".to_string(), value: Some("Neutral".to_string()) },
        RawHeader { name: "Received-SPF".to_string(), value: None },
    ];
    assert!(!compute_spf(&no_pass));
}

#[test]
fn missing_address_parts_become_empty_strings() {
    let list = vec![
        RawAddr { name: Some("Ann".to_string()), address: Some("ann@example.com".to_string()) },
        RawAddr { name: None, address: None },
    ];
    let recipients = addresses_to_recipients(&list);
    assert_eq!(recipients.len(), 2);
    assert_eq!(recipients[0].name, "Ann");
    assert_eq!(recipients[0].address, "ann@example.com");
    assert_eq!(recipients[1].name, "");
    assert_eq!(recipients[1].address, "");
}

#[test]
fn unnamed_raw_attachment_gets_fallback_name() {
    let raw = vec![
        RawAttachment { name: Some("a.txt".to_string()), data: vec![1] },
        RawAttachment { name: None, data: vec![2, 3] },
    ];
    let attachments = convert_attachments(raw);
    assert_eq!(attachments[0].filename, "a.txt");
    assert_eq!(attachments[1].filename, "filename");
    assert_eq!(attachments[1].contents, vec![2, 3]);
}

#[test]
fn filter_config_follows_the_configuration() {
    let cfg = Config {
        discord: DiscordConfigConfig {
            webhook_url: "https://example.com/hook".to_string(),
            attachment_size_limit: 8,
            max_attachments: 10,
        },
        imap: ImapConfigConfig {
            server: "imap.example.com".to_string(),
            port: 993,
            username: "user".to_string(),
            password: "SECRET-REDACTED".to_string(),
            interval: 5,
            check_spf: true,
        },
        mailing_list: Some(MailingListConfig { email: "list@example.com".to_string() }),
    };
    let filter = filter_config_of(&cfg);
    assert!(filter.check_spf);
    match &filter.mailing_list {
        ListPolicy::ListFilter(addr) => assert_eq!(addr, "list@example.com"),
        ListPolicy::NoListFilter => panic!("expected a list filter"),
    }
    let mut no_list = cfg;
    no_list.mailing_list = None;
    no_list.imap.check_spf = false;
    let open = filter_config_of(&no_list);
    assert!(!open.check_spf);
    assert!(matches!(open.mailing_list, ListPolicy::NoListFilter));
    let email = courier::email::Email {
        to: Vec::new(),
        from: "x".to_string(),
        subject: "y".to_string(),
        body: "z".to_string(),
        attachments: Vec::new(),
        passed_spf: false,
        list_id: Vec::new(),
    };
    assert!(is_eligible(&email, &open));
}
