//! Time locks on governance changes.

pub mod time_lock;
