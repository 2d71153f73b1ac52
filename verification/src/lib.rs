//! A small interactive shell, the verifiable way: the tokenizer, the builtin
//! command table, the dispatcher and the decision logic of every builtin are
//! verified here; reading lines, touching the filesystem and spawning child
//! processes happen outside the library, driven by the actions it returns.

pub mod action;
pub mod cd;
pub mod dispatch;
pub mod help;
pub mod launch;
pub mod laws;
pub mod listing;
pub mod token;
