//! The messages that set up, command and query the ledger, and the answers
//! to the queries.
//!
//! An address in a message comes as the outcome of its validation by the
//! host: the address, or the error that the validation gave. A command
//! reports that error only when it comes to use the address. The recipient
//! of a thread comes as an identity, which fits in a storage key; any other
//! address comes as its text.

use cosmwasm_std::StdError;
use vstd::prelude::*;

use crate::identity::Identity;
use crate::state::{Fees, Note};

verus! {

/// What the ledger is set up with. Its sender becomes the administrator,
/// and fees are not burnt.
#[derive(Debug, PartialEq)]
pub struct InstantiateMsg {
    pub denom: String,
    pub store_keys_fee: u128,
    pub store_notes_fee: u128,
}

/// A command.
#[derive(Debug, PartialEq)]
pub enum ExecuteMsg {
    /// Replaces the fee configuration; only the administrator may.
    UpdateFees {
        admin: Option<Result<String, StdError>>,
        store_keys: u128,
        store_notes: u128,
        denom: String,
        burn_fees: bool,
    },
    /// Sets the sender's encryption key, for the fee on keys.
    UpdateKey { key: String },
    /// Appends a note from the sender to `recipient`, for the fee on notes.
    StoreNote { recipient: Result<Identity, StdError>, note: String },
}

/// A query.
#[derive(Debug, PartialEq)]
pub enum QueryMsg {
    /// The encryption key of `address`.
    EncryptionKey { address: Result<String, StdError> },
    /// The number of notes from `sender` to `recipient`.
    NoteCount { recipient: Result<Identity, StdError>, sender: Result<String, StdError> },
    /// The identities that have sent `recipient` a note.
    Senders { recipient: Result<Identity, StdError> },
    /// A page of the notes from `sender` to `recipient`.
    Notes {
        recipient: Result<Identity, StdError>,
        sender: Result<String, StdError>,
        start_after: Option<u64>,
        limit: Option<u32>,
    },
    /// The fee configuration.
    Fees {},
}

/// The answer to [`QueryMsg::EncryptionKey`].
#[derive(Debug, PartialEq)]
pub struct EncryptionKeyResponse {
    pub key: Option<Vec<u8>>,
}

/// The answer to a query, one variant for each kind of query.
#[derive(Debug, PartialEq)]
pub enum QueryResponse {
    EncryptionKey(EncryptionKeyResponse),
    NoteCount(u64),
    Senders(Vec<String>),
    Notes(Vec<Note>),
    Fees(Fees),
}

} // verus!
