//! The records that the engine reads and the requests that change them.

pub mod reminder;
pub mod reminder_log;
pub mod settings;
