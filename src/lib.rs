//! Persistence engine for access-control policy rules kept in a relational table.
//!
//! The library builds the SQL text and the bound parameters of every statement the
//! engine issues, normalises rules to the six-column row layout and back, validates
//! the table identifier, and drives multi-statement transactions as a state machine.
//! Running the statements against a database is left to the caller.
pub mod actions;
pub mod adapter;
pub mod error;
pub mod identifier;
pub mod models;
pub mod rule;
pub mod semantics;
pub mod sql;
pub mod transaction;
