//! Economic nodes: their kinds and statuses, the signals they send, and the
//! veto rules applied to those signals.

pub mod types;
pub mod veto_files;
pub mod veto_signal;
