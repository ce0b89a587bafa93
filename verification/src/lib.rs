//! Verified core of a forum-bridge chat bot.
//!
//! The bot reacts to two chat commands: one that fetches a forum thread and
//! republishes its posts as an article, and one that searches the forum and
//! returns a paginated result list.  This crate holds the command grammar,
//! the page/keyword parsing, the reply formatting and the cross-service
//! translation rules, each with a proved contract.  Network transport and the
//! chat platform's dispatch loop live outside the crate and hand plain values
//! in and out.

pub mod command;
pub mod config;
pub mod dispatch;
pub mod json;
pub mod publish;
pub mod search;
pub mod text;
pub mod thread;
pub mod urls;
