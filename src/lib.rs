//! Classification and naming of raw input-device events for a terminal
//! event monitor: scan-code labels, pointer-button text extraction and the
//! running counters of a monitoring session.

pub mod button;
pub mod keys;
pub mod monitor;
pub mod text;
