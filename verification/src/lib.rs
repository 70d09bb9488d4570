//! A task list kept in a single-file relational store: the record shapes, the
//! rules for a task's title, and the conversation with the store that each
//! operation holds.

pub mod db;
pub mod listing;
pub mod models;
pub mod schema;
pub mod session;
