//! Character-name recommendation backend: prompt composition, the chat
//! completion adapter and the HTTP decisions, each with its contract.
pub mod prompt;
pub mod completion;
pub mod config;
pub mod handler;
