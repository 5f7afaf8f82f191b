use courier::config::{Config, DiscordConfigConfig, ImapConfigConfig, MailingListConfig};

fn good_config() -> Config {
    Config {
        discord: DiscordConfigConfig {
            webhook_url: "https://example.com/hook".to_string(),
            attachment_size_limit: 8,
            max_attachments: 10,
        },
        imap: ImapConfigConfig {
            server: "imap.example.com".to_string(),
            port: 993,
            username: "user".to_string(),
            password: "SECRET-REDACTED".to_string(),
            interval: 5,
            check_spf: true,
        },
        mailing_list: Some(MailingListConfig { email: "list@example.com".to_string() }),
    }
}

#[test]
fn valid_config_passes() {
    assert!(good_config().validate().is_ok());
}

#[test]
fn valid_config_without_mailing_list_passes() {
    let mut cfg = good_config();
    cfg.mailing_list = None;
    assert!(cfg.validate().is_ok());
}

#[test]
fn empty_server_is_rejected() {
    let mut cfg = good_config();
    cfg.imap.server = String::new();
    assert_eq!(cfg.validate().unwrap_err(), "IMAP server cannot be empty!");
}

#[test]
fn zero_port_is_rejected() {
    let mut cfg = good_config();
    cfg.imap.port = 0;
    assert_eq!(cfg.validate().unwrap_err(), "IMAP port cannot be 0!");
}

#[test]
fn empty_username_is_rejected() {
    let mut cfg = good_config();
    cfg.imap.username = String::new();
    assert_eq!(cfg.validate().unwrap_err(), "IMAP username cannot be empty!");
}

#[test]
fn empty_password_is_rejected() {
    let mut cfg = good_config();
    cfg.imap.password = String::new();
    assert_eq!(cfg.validate().unwrap_err(), "IMAP password cannot be empty!");
}

#[test]
fn zero_interval_is_rejected() {
    let mut cfg = good_config();
    cfg.imap.interval = 0;
    assert_eq!(
        cfg.validate().unwrap_err(),
        "IMAP interval cannot be smaller than 1 minute!"
    );
}

#[test]
fn empty_webhook_url_is_rejected() {
    let mut cfg = good_config();
    cfg.discord.webhook_url = String::new();
    assert_eq!(
        cfg.validate().unwrap_err(),
        "Discord webhook URL cannot be empty!"
    );
}

#[test]
fn first_failing_rule_wins() {
    let mut cfg = good_config();
    cfg.imap.server = String::new();
    cfg.imap.port = 0;
    assert_eq!(cfg.validate().unwrap_err(), "IMAP server cannot be empty!");
}
