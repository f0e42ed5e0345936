//! An in-memory audit counter: each logged transaction is numbered in
//! order and acknowledged with a formatted entry.

mod decimal;
mod log;
mod runs;

pub use decimal::{decimal_digits, digit_char};
pub use log::{audit_entry, AuditLog};
pub use runs::{
    count_true, is_logging_run, is_paired_run, lemma_count_equals_calls,
    lemma_logs_count_independently,
};
