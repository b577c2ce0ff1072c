//! The verified core of a chat bot that runs code, looks up movies and Steam
//! users, and searches the web.
//!
//! The heart of it is the runtime registry ([`registry`]): the catalog of
//! languages that the execution service offers ([`catalog`]), filled once at
//! startup under a bounded retry policy ([`startup`]) and then read to
//! resolve a user's language token. A resolved request is sent for execution
//! by the caller, and what comes back is classified into one result
//! ([`dispatch`]). The remaining modules hold the decisions and the wording
//! of the single commands ([`code`], [`steam`], [`movie`], [`google`],
//! [`clear`], [`ping`]) over plain values ([`card`], [`text`]).
//!
//! Nothing here performs I/O: network calls and the chat framework stay with
//! the caller.

pub mod card;
pub mod catalog;
pub mod clear;
pub mod code;
pub mod dispatch;
pub mod google;
pub mod movie;
pub mod ping;
pub mod registry;
pub mod startup;
pub mod steam;
pub mod text;
