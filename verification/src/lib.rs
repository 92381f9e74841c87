//! Data-integrity core of a study-organizer backend: credential storage and
//! verification, a task status enumeration with its validation rule, and the
//! subject / exam-date / note / file-link records, all persisted through a
//! single exclusively-borrowed SQLite connection.

pub mod auth;
pub mod errors;
pub mod records;
pub mod status;
pub mod store;
pub mod tasks;
