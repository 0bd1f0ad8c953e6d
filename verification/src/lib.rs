//! Role assignment synchronisation for a chat-platform guild.
//!
//! An administrator binds a default role to a member; the binding is kept in
//! a mapping store and the role is granted at once and again on every later
//! join of that member.  This crate holds the decisions only: it never talks
//! to a database or to the platform.  Each handler is a small state machine
//! that names the next outside call and is resumed with that call's outcome.

pub mod commands;
pub mod dispatcher;
pub mod handling;
pub mod ids;
pub mod outcome;
pub mod processor;
pub mod reconciler;
pub mod step;
pub mod store;
