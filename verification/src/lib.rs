//! Driver-side layer of an installable client driver: raw wire records, their
//! semantic counterparts, the contracts a backend implements, checked dispatch
//! handles, the entry-point resolver and the per-entry-point call logic.
pub mod sys;
pub mod flags;
pub mod format;
pub mod data;
pub mod icd;
pub mod dispatch;
pub mod backend;
pub mod resolver;
pub mod entry;
