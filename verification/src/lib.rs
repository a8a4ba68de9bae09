//! A fee-gated ledger of encryption keys and notes, kept in an ordered
//! key-value store.
//!
//! The store holds four families of records: one fee configuration, one
//! encryption key per identity, one counter per (recipient, sender) thread
//! and the notes of each thread under consecutive indices. [`model`] states
//! what the records mean and proves the laws of the threads, [`state`] reads
//! and writes the records, and [`contract`] holds the commands and queries
//! that are built from them. [`msg`] holds the messages, [`bank`] the funds
//! and replies, [`identity`] the account references and [`error`] the
//! failures.

pub mod bank;
pub mod contract;
pub mod error;
pub mod identity;
pub mod model;
pub mod msg;
pub mod state;
