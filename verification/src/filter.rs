//! The filter chain: decides, per normalized message, whether it is
//! eligible for delivery.

use vstd::prelude::*;

use crate::config::Config;
use crate::email::{Email, EmailView, Recipient};

verus! {

/// The mailing-list membership policy: either no list is configured and
/// every message passes, or only messages addressed to the given list
/// address pass.
pub enum ListPolicy {
    NoListFilter,
    ListFilter(String),
}

/// What the filter chain consults: the list policy and the authenticity
/// toggle.
pub struct FilterConfig {
    pub mailing_list: ListPolicy,
    pub check_spf: bool,
}

/// Mathematical model of a [`FilterConfig`].
#[verifier::ext_equal]
pub struct FilterConfigView {
    pub mailing_list: Option<Seq<char>>,
    pub check_spf: bool,
}

impl View for FilterConfig {
    type V = FilterConfigView;

    open spec fn view(&self) -> FilterConfigView {
        FilterConfigView {
            mailing_list: match self.mailing_list {
                ListPolicy::NoListFilter => None,
                ListPolicy::ListFilter(addr) => Some(addr@),
            },
            check_spf: self.check_spf,
        }
    }
}

/// Some list-derived recipient of the message carries the given address.
pub open spec fn on_list(m: EmailView, addr: Seq<char>) -> bool {
    exists|i: int| 0 <= i < m.list_id.len() && (#[trigger] m.list_id[i]).address == addr
}

/// The membership predicate: vacuously true when no list is configured.
pub open spec fn list_passes(m: EmailView, c: FilterConfigView) -> bool {
    match c.mailing_list {
        None => true,
        Some(addr) => on_list(m, addr),
    }
}

/// The authenticity predicate: vacuously true when the check is disabled.
pub open spec fn auth_passes(m: EmailView, c: FilterConfigView) -> bool {
    !c.check_spf || m.passed_spf
}

/// A message is eligible iff it passes both independent predicates.
pub open spec fn eligible(m: EmailView, c: FilterConfigView) -> bool {
    list_passes(m, c) && auth_passes(m, c)
}

/// Whether some recipient in the list carries the given address.
fn contains_address(list: &Vec<Recipient>, addr: &String) -> (r: bool)
    ensures
        r == exists|i: int| 0 <= i < list@.len() && (#[trigger] list@[i])@.address == addr@,
{
    let mut i: usize = 0;
    while i < list.len()
        invariant
            i <= list.len(),
            forall|j: int| 0 <= j < i ==> (#[trigger] list@[j])@.address != addr@,
        decreases list.len() - i,
    {
        if list[i].address == *addr {
            return true;
        }
        i += 1;
    }
    false
}

/// Decide whether a normalized message is eligible for delivery under the
/// given configuration.
pub fn is_eligible(msg: &Email, cfg: &FilterConfig) -> (r: bool)
    ensures
        r == eligible(msg@, cfg@),
{
    let list_ok = match &cfg.mailing_list {
        ListPolicy::NoListFilter => true,
        ListPolicy::ListFilter(addr) => {
            let found = contains_address(&msg.list_id, addr);
            proof {
                if found {
                    let i = choose|i: int|
                        0 <= i < msg.list_id@.len() && (#[trigger] msg.list_id@[i])@.address
                            == addr@;
                    assert(msg@.list_id[i].address == addr@);
                } else {
                    assert forall|i: int| 0 <= i < msg@.list_id.len() implies (
                    #[trigger] msg@.list_id[i]).address != addr@ by {
                        assert(msg@.list_id[i] == msg.list_id@[i]@);
                    }
                }
            }
            found
        },
    };
    let auth_ok = !cfg.check_spf || msg.passed_spf;
    list_ok && auth_ok
}

/// Build the filter configuration that a full [`Config`] calls for.
pub fn filter_config_of(cfg: &Config) -> (f: FilterConfig)
    ensures
        f@.check_spf == cfg.imap.check_spf,
        match cfg.mailing_list {
            Some(ml) => f@.mailing_list == Some(ml.email@),
            None => f@.mailing_list is None,
        },
{
    let mailing_list = match &cfg.mailing_list {
        Some(ml) => ListPolicy::ListFilter(ml.email.clone()),
        None => ListPolicy::NoListFilter,
    };
    FilterConfig { mailing_list, check_spf: cfg.imap.check_spf }
}

/// With the mailing-list filter and the authenticity filter both disabled,
/// every normalized message is eligible.
pub proof fn lemma_filters_disabled_all_eligible(m: EmailView)
    ensures
        eligible(m, FilterConfigView { mailing_list: None, check_spf: false }),
{
}

} // verus!
