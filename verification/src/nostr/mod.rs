//! Nostr: zap receipts read from relays, publishing outcomes, the choice of
//! bot identity for each kind of announcement, and the contents of the
//! hourly status event.

pub mod bots;
pub mod publisher;
pub mod zaps;
