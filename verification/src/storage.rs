//! What the repository computes around its queries: how stored text is read
//! into records, and how the statements that change with their arguments are
//! put together. The queries themselves are run by the host.

pub mod codec;
pub mod rows;
pub mod settings;
pub mod statements;
