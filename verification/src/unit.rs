//! One signature's fetch-and-persist unit of work.
//!
//! A unit parses its signature, asks the provider for the transaction's
//! detail, assembles the record and hands it to the store. It stops at the
//! first step that fails, and nothing it meets is raised past it: each exit is
//! an outcome of its own. The unit decides; its caller performs the request
//! and the insert and reports back what came of them.

use solana_sdk::signature::Signature;
use solana_transaction_status_client_types::EncodedConfirmedTransactionWithStatusMeta;
use std::str::FromStr;
use vstd::prelude::*;

verus! {

/// The provider's transaction detail. It is carried from the provider to the
/// store as it came; nothing here looks inside it.
#[verifier::external_type_specification]
#[verifier::external_body]
pub struct ExEncodedConfirmedTransactionWithStatusMeta(EncodedConfirmedTransactionWithStatusMeta);

/// The 64 bytes that a signature's text decodes to in the provider's native
/// format, or `None` where the text is no signature.
pub uninterp spec fn signature_key(text: Seq<char>) -> Option<Seq<u8>>;

/// Parses a signature with `Signature::from_str` of `solana_sdk`.
///
/// Trusted: the result is the decoding that `signature_key` names, a function
/// of the text alone. `from_str` refuses a text of more than 88 bytes, then
/// decodes base58 into exactly 64 bytes; it returns an error, and never
/// panics, on any other text.
#[verifier::external_body]
fn parse_signature(text: &str) -> (key: Option<[u8; 64]>)
    ensures
        key matches Some(k) ==> signature_key(text@) == Some(k@),
        key is None ==> signature_key(text@) is None,
{
    match Signature::from_str(text) {
        Ok(signature) => Some(signature.into()),
        Err(_) => None,
    }
}

/// The unit of persistence: one transaction of one slot.
#[derive(Debug)]
pub struct Transaction {
    pub signature: String,
    pub slot: u64,
    pub block_hash: String,
    pub timestamp: i64,
    pub data: EncodedConfirmedTransactionWithStatusMeta,
}

/// A record as a plain value.
pub struct TransactionView {
    pub signature: Seq<char>,
    pub slot: u64,
    pub block_hash: Seq<char>,
    pub timestamp: i64,
    pub data: EncodedConfirmedTransactionWithStatusMeta,
}

impl View for Transaction {
    type V = TransactionView;

    open spec fn view(&self) -> TransactionView {
        TransactionView {
            signature: self.signature@,
            slot: self.slot,
            block_hash: self.block_hash@,
            timestamp: self.timestamp,
            data: self.data,
        }
    }
}

/// How a unit ended.
#[derive(Clone, Copy, Debug, PartialEq, Eq, Structural)]
pub enum UnitOutcome {
    /// The signature's text is not in the provider's format.
    InvalidSignature,
    /// The provider did not return the transaction's detail.
    DetailFailed,
    /// The store refused the record.
    InsertFailed,
    /// The record is in the store.
    Stored,
}

/// Where a unit stands.
#[derive(Clone, Copy, Debug, PartialEq, Eq, Structural)]
pub enum UnitStage {
    /// Not begun.
    Pending,
    /// The detail request is out.
    AwaitingDetail,
    /// The record is with the store.
    AwaitingInsert,
    /// Over, with its outcome.
    Finished(UnitOutcome),
}

/// What a unit is told.
#[derive(Debug)]
pub enum UnitEvent {
    /// Start working.
    Begin,
    /// The provider returned the detail.
    DetailFetched(EncodedConfirmedTransactionWithStatusMeta),
    /// The provider failed.
    DetailFailed,
    /// The store took the record.
    Inserted,
    /// The store refused the record.
    InsertFailed,
}

/// What a unit asks of its caller.
#[derive(Debug)]
pub enum UnitAction {
    /// Ask the provider for the detail of the transaction with this key.
    RequestDetail([u8; 64]),
    /// Insert this record into the store.
    Insert(Transaction),
    /// The unit is over.
    Stop(UnitOutcome),
    /// The event was not awaited at this stage; nothing is to be done.
    Ignore,
}

/// An action as a plain value.
pub enum UnitActionView {
    RequestDetail(Seq<u8>),
    Insert(TransactionView),
    Stop(UnitOutcome),
    Ignore,
}

impl View for UnitAction {
    type V = UnitActionView;

    open spec fn view(&self) -> UnitActionView {
        match self {
            UnitAction::RequestDetail(key) => UnitActionView::RequestDetail(key@),
            UnitAction::Insert(record) => UnitActionView::Insert(record@),
            UnitAction::Stop(outcome) => UnitActionView::Stop(*outcome),
            UnitAction::Ignore => UnitActionView::Ignore,
        }
    }
}

/// One signature's unit of work: what its record will hold apart from the
/// payload, and where it stands.
#[derive(Debug)]
pub struct FetchUnit {
    signature: String,
    slot: u64,
    block_hash: String,
    timestamp: i64,
    stage: UnitStage,
}

/// A unit as a plain value.
pub struct FetchUnitView {
    pub signature: Seq<char>,
    pub slot: u64,
    pub block_hash: Seq<char>,
    pub timestamp: i64,
    pub stage: UnitStage,
}

impl View for FetchUnit {
    type V = FetchUnitView;

    closed spec fn view(&self) -> FetchUnitView {
        FetchUnitView {
            signature: self.signature@,
            slot: self.slot,
            block_hash: self.block_hash@,
            timestamp: self.timestamp,
            stage: self.stage,
        }
    }
}

impl FetchUnitView {
    /// The unit at another stage.
    pub open spec fn at(self, stage: UnitStage) -> FetchUnitView {
        FetchUnitView { stage, ..self }
    }

    /// The record that the unit assembles round a payload.
    pub open spec fn record(self, data: EncodedConfirmedTransactionWithStatusMeta) -> TransactionView {
        TransactionView {
            signature: self.signature,
            slot: self.slot,
            block_hash: self.block_hash,
            timestamp: self.timestamp,
            data,
        }
    }

    /// The stage after `event`, with `key` what the unit's signature decodes
    /// to. A unit that has not begun asks for the detail if its signature
    /// decodes and is over if not; a failure at any step ends it; an event
    /// that its stage does not await leaves it as it is.
    pub open spec fn next_stage(self, event: UnitEvent, key: Option<Seq<u8>>) -> UnitStage {
        match (self.stage, event) {
            (UnitStage::Pending, UnitEvent::Begin) => match key {
                Some(_) => UnitStage::AwaitingDetail,
                None => UnitStage::Finished(UnitOutcome::InvalidSignature),
            },
            (UnitStage::AwaitingDetail, UnitEvent::DetailFetched(_)) => UnitStage::AwaitingInsert,
            (UnitStage::AwaitingDetail, UnitEvent::DetailFailed) => UnitStage::Finished(
                UnitOutcome::DetailFailed,
            ),
            (UnitStage::AwaitingInsert, UnitEvent::Inserted) => UnitStage::Finished(
                UnitOutcome::Stored,
            ),
            (UnitStage::AwaitingInsert, UnitEvent::InsertFailed) => UnitStage::Finished(
                UnitOutcome::InsertFailed,
            ),
            _ => self.stage,
        }
    }

    /// What the unit asks for on `event`, with `key` what its signature
    /// decodes to.
    pub open spec fn action(self, event: UnitEvent, key: Option<Seq<u8>>) -> UnitActionView {
        match (self.stage, event) {
            (UnitStage::Pending, UnitEvent::Begin) => match key {
                Some(k) => UnitActionView::RequestDetail(k),
                None => UnitActionView::Stop(UnitOutcome::InvalidSignature),
            },
            (UnitStage::AwaitingDetail, UnitEvent::DetailFetched(data)) => UnitActionView::Insert(
                self.record(data),
            ),
            (UnitStage::AwaitingDetail, UnitEvent::DetailFailed) => UnitActionView::Stop(
                UnitOutcome::DetailFailed,
            ),
            (UnitStage::AwaitingInsert, UnitEvent::Inserted) => UnitActionView::Stop(
                UnitOutcome::Stored,
            ),
            (UnitStage::AwaitingInsert, UnitEvent::InsertFailed) => UnitActionView::Stop(
                UnitOutcome::InsertFailed,
            ),
            _ => UnitActionView::Ignore,
        }
    }
}

impl FetchUnit {
    /// A unit that has not begun, for `signature` in the block `block_hash` of
    /// `slot`.
    pub fn new(signature: String, slot: u64, block_hash: String, timestamp: i64) -> (unit:
        FetchUnit)
        ensures
            unit@ == (FetchUnitView {
                signature: signature@,
                slot,
                block_hash: block_hash@,
                timestamp,
                stage: UnitStage::Pending,
            }),
    {
        FetchUnit { signature, slot, block_hash, timestamp, stage: UnitStage::Pending }
    }

    /// The signature's text.
    pub fn signature(&self) -> (text: &String)
        ensures
            text@ == self@.signature,
    {
        &self.signature
    }

    /// The slot the transaction belongs to.
    pub fn slot(&self) -> (slot: u64)
        ensures
            slot == self@.slot,
    {
        self.slot
    }

    /// The hash of the containing block.
    pub fn block_hash(&self) -> (hash: &String)
        ensures
            hash@ == self@.block_hash,
    {
        &self.block_hash
    }

    /// The block's time in seconds since the epoch, zero where the provider
    /// gave none.
    pub fn timestamp(&self) -> (timestamp: i64)
        ensures
            timestamp == self@.timestamp,
    {
        self.timestamp
    }

    /// Where the unit stands.
    pub fn stage(&self) -> (stage: UnitStage)
        ensures
            stage == self@.stage,
    {
        self.stage
    }

    /// How the unit ended, once it is over.
    pub fn outcome(&self) -> (outcome: Option<UnitOutcome>)
        ensures
            outcome == match self@.stage {
                UnitStage::Finished(o) => Some(o),
                _ => None,
            },
    {
        match self.stage {
            UnitStage::Finished(o) => Some(o),
            _ => None,
        }
    }

    /// Advances the unit by one event, given what its signature decodes to.
    ///
    /// The stage moves as `next_stage` says and the action is the one `action`
    /// gives; signature, slot, block hash and timestamp never change.
    pub fn advance_with(&mut self, event: UnitEvent, key: Option<[u8; 64]>) -> (action: UnitAction)
        ensures
            final(self)@ == old(self)@.at(
                old(self)@.next_stage(
                    event,
                    match key {
                        Some(k) => Some(k@),
                        None => None,
                    },
                ),
            ),
            action@ == old(self)@.action(
                event,
                match key {
                    Some(k) => Some(k@),
                    None => None,
                },
            ),
    {
        match self.stage {
            UnitStage::Pending => match event {
                UnitEvent::Begin => match key {
                    Some(k) => {
                        self.stage = UnitStage::AwaitingDetail;
                        UnitAction::RequestDetail(k)
                    },
                    None => {
                        self.stage = UnitStage::Finished(UnitOutcome::InvalidSignature);
                        UnitAction::Stop(UnitOutcome::InvalidSignature)
                    },
                },
                _ => UnitAction::Ignore,
            },
            UnitStage::AwaitingDetail => match event {
                UnitEvent::DetailFetched(data) => {
                    self.stage = UnitStage::AwaitingInsert;
                    UnitAction::Insert(
                        Transaction {
                            signature: self.signature.clone(),
                            slot: self.slot,
                            block_hash: self.block_hash.clone(),
                            timestamp: self.timestamp,
                            data,
                        },
                    )
                },
                UnitEvent::DetailFailed => {
                    self.stage = UnitStage::Finished(UnitOutcome::DetailFailed);
                    UnitAction::Stop(UnitOutcome::DetailFailed)
                },
                _ => UnitAction::Ignore,
            },
            UnitStage::AwaitingInsert => match event {
                UnitEvent::Inserted => {
                    self.stage = UnitStage::Finished(UnitOutcome::Stored);
                    UnitAction::Stop(UnitOutcome::Stored)
                },
                UnitEvent::InsertFailed => {
                    self.stage = UnitStage::Finished(UnitOutcome::InsertFailed);
                    UnitAction::Stop(UnitOutcome::InsertFailed)
                },
                _ => UnitAction::Ignore,
            },
            UnitStage::Finished(_) => UnitAction::Ignore,
        }
    }

    /// Advances the unit by one event, parsing the signature itself where the
    /// unit begins.
    ///
    /// It does what `advance_with` does, with the key that the signature's
    /// text decodes to.
    pub fn advance(&mut self, event: UnitEvent) -> (action: UnitAction)
        ensures
            final(self)@ == old(self)@.at(
                old(self)@.next_stage(event, signature_key(old(self)@.signature)),
            ),
            action@ == old(self)@.action(event, signature_key(old(self)@.signature)),
    {
        let begins = match self.stage {
            UnitStage::Pending => match event {
                UnitEvent::Begin => true,
                _ => false,
            },
            _ => false,
        };
        let key = if begins {
            parse_signature(self.signature.as_str())
        } else {
            None
        };
        self.advance_with(event, key)
    }
}

} // verus!
