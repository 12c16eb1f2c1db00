//! The occurrence engine: the entries of the three wake queues, the effects
//! that the engine asks its host to perform, and the transitions themselves.

pub mod effects;
pub mod items;
pub mod laws;
pub mod manager;
