//! Transactional email content.

pub mod templates;
