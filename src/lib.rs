//! Tells whether the calling process runs under the 32-on-64 compatibility
//! layer of its host (WOW64 on Windows).
//!
//! The platform calls themselves are made by the caller; this crate decides
//! what their results mean.
pub mod probe;

pub use probe::{
    lemma_error_code_fresh,
    lemma_outcome_determined,
    lemma_outcome_exhaustive,
    probe_outcome,
    probe_with,
    query_succeeded,
    runs_emulated,
    unsupported_platform,
    ERROR_NOT_SUPPORTED,
};
