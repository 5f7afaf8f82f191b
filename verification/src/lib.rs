//! Mail-to-chat relay core: message normalization, filtering policy,
//! notification building with attachment budgets, and per-cycle accounting.

pub mod config;
pub mod cycle;
pub mod email;
pub mod filter;
pub mod mail_raw;
pub mod notify;
