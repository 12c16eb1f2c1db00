//! A reminder scheduling engine: recurrence rules, the three wake queues
//! (snooze, loop, timeout) and the transitions that move a reminder between
//! them, stated and proved over mathematical models.

pub mod clock;
pub mod models;
pub mod notification;
pub mod popup;
pub mod queue;
pub mod recurrence;
pub mod scheduler;
pub mod services;
pub mod storage;
pub mod text;
pub mod time;
pub mod tray;
