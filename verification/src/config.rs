//! Configuration model and its validation rules.
//!
//! Loading the configuration from disk is the caller's concern; this module
//! only holds the shape of a configuration and decides whether it is usable.

use vstd::prelude::*;

verus! {

/// Webhook-side settings: target URL and the attachment budget knobs.
pub struct DiscordConfigConfig {
    pub webhook_url: String,
    /// Cumulative attachment size limit, in megabytes.
    pub attachment_size_limit: u8,
    /// Maximum number of attachments forwarded per message.
    pub max_attachments: u8,
}

/// Mailbox-side settings.
pub struct ImapConfigConfig {
    pub server: String,
    pub port: u16,
    pub username: String,
    pub password: String,
    /// Poll interval in minutes.
    pub interval: u64,
    /// Whether the authenticity (SPF) filter is enabled.
    pub check_spf: bool,
}

/// Optional mailing-list membership filter: only messages addressed to this
/// list address are forwarded.
pub struct MailingListConfig {
    pub email: String,
}

/// The whole configuration.
pub struct Config {
    pub discord: DiscordConfigConfig,
    pub imap: ImapConfigConfig,
    pub mailing_list: Option<MailingListConfig>,
}

impl Config {
    /// A configuration is usable iff the server, credentials and webhook
    /// target are non-empty, the port is non-zero and the interval is at
    /// least one minute.
    pub open spec fn spec_valid(&self) -> bool {
        &&& self.imap.server@.len() > 0
        &&& self.imap.port != 0
        &&& self.imap.username@.len() > 0
        &&& self.imap.password@.len() > 0
        &&& self.imap.interval >= 1
        &&& self.discord.webhook_url@.len() > 0
    }

    /// The message reported for the first validation rule that fails,
    /// checked in the same order as `validate`.
    pub open spec fn spec_validation_error(&self) -> Seq<char> {
        if self.imap.server@.len() == 0 {
            "IMAP server cannot be empty!"@
        } else if self.imap.port == 0 {
            "IMAP port cannot be 0!"@
        } else if self.imap.username@.len() == 0 {
            "IMAP username cannot be empty!"@
        } else if self.imap.password@.len() == 0 {
            "IMAP password cannot be empty!"@
        } else if self.imap.interval < 1 {
            "IMAP interval cannot be smaller than 1 minute!"@
        } else if self.discord.webhook_url@.len() == 0 {
            "Discord webhook URL cannot be empty!"@
        } else {
            Seq::empty()
        }
    }

    /// Validate the configuration: `Ok` exactly on usable configurations,
    /// otherwise the message for the first failing rule.
    pub fn validate(&self) -> (r: Result<(), String>)
        ensures
            r is Ok <==> self.spec_valid(),
            r matches Err(e) ==> e@ == self.spec_validation_error(),
    {
        if self.imap.server.as_str().is_empty() {
            return Err("IMAP server cannot be empty!".to_owned());
        }
        if self.imap.port == 0 {
            return Err("IMAP port cannot be 0!".to_owned());
        }
        if self.imap.username.as_str().is_empty() {
            return Err("IMAP username cannot be empty!".to_owned());
        }
        if self.imap.password.as_str().is_empty() {
            return Err("IMAP password cannot be empty!".to_owned());
        }
        if self.imap.interval < 1 {
            return Err("IMAP interval cannot be smaller than 1 minute!".to_owned());
        }
        if self.discord.webhook_url.as_str().is_empty() {
            return Err("Discord webhook URL cannot be empty!".to_owned());
        }
        Ok(())
    }
}

} // verus!
