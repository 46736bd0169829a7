//! The request configuration that the fetcher fixes at construction.
//!
//! Both lookups ask for parsed JSON and accept transactions up to version 0.
//! The block lookup asks for signatures only, with rewards, and names no
//! commitment of its own; the transaction lookup asks for finalized data.

use vstd::prelude::*;

verus! {

/// How the provider encodes a transaction.
#[derive(Clone, Copy, Debug, PartialEq, Eq, Structural)]
pub enum Encoding {
    Binary,
    Base64,
    Base58,
    Json,
    JsonParsed,
}

/// How much of each transaction a block lookup returns.
#[derive(Clone, Copy, Debug, PartialEq, Eq, Structural)]
pub enum Details {
    Full,
    Signatures,
    Nothing,
    Accounts,
}

/// How final the data of a lookup must be.
#[derive(Clone, Copy, Debug, PartialEq, Eq, Structural)]
pub enum Commitment {
    Processed,
    Confirmed,
    Finalized,
}

/// The configuration of a block lookup.
#[derive(Clone, Copy, Debug, PartialEq, Eq, Structural)]
pub struct BlockConfig {
    pub encoding: Option<Encoding>,
    pub transaction_details: Option<Details>,
    pub rewards: Option<bool>,
    pub commitment: Option<Commitment>,
    pub max_supported_transaction_version: Option<u8>,
}

/// The configuration of a transaction lookup.
#[derive(Clone, Copy, Debug, PartialEq, Eq, Structural)]
pub struct TransactionConfig {
    pub encoding: Option<Encoding>,
    pub commitment: Option<Commitment>,
    pub max_supported_transaction_version: Option<u8>,
}

impl BlockConfig {
    /// The block lookup of the fetcher: parsed JSON, signatures only, with
    /// rewards, no commitment override, transactions up to version 0.
    pub open spec fn signatures_only() -> BlockConfig {
        BlockConfig {
            encoding: Some(Encoding::JsonParsed),
            transaction_details: Some(Details::Signatures),
            rewards: Some(true),
            commitment: None,
            max_supported_transaction_version: Some(0u8),
        }
    }

    /// Builds the fetcher's block lookup.
    pub fn for_signatures() -> (config: BlockConfig)
        ensures
            config == BlockConfig::signatures_only(),
    {
        BlockConfig {
            encoding: Some(Encoding::JsonParsed),
            transaction_details: Some(Details::Signatures),
            rewards: Some(true),
            commitment: None,
            max_supported_transaction_version: Some(0u8),
        }
    }
}

impl TransactionConfig {
    /// The transaction lookup of the fetcher: parsed JSON, finalized,
    /// transactions up to version 0.
    pub open spec fn finalized_detail() -> TransactionConfig {
        TransactionConfig {
            encoding: Some(Encoding::JsonParsed),
            commitment: Some(Commitment::Finalized),
            max_supported_transaction_version: Some(0u8),
        }
    }

    /// Builds the fetcher's transaction lookup.
    pub fn for_detail() -> (config: TransactionConfig)
        ensures
            config == TransactionConfig::finalized_detail(),
    {
        TransactionConfig {
            encoding: Some(Encoding::JsonParsed),
            commitment: Some(Commitment::Finalized),
            max_supported_transaction_version: Some(0u8),
        }
    }
}

} // verus!
