//! From a block's summary to the units of work of its slot.
//!
//! A slot takes at most `tx_limit` signatures of its block, the first ones in
//! the order in which the provider listed them, and gives each a unit of its
//! own. The units share the slot, the block's hash and its time, and nothing
//! else: what one of them meets does not reach another.

use crate::unit::signature_key;
use crate::unit::FetchUnit;
use crate::unit::FetchUnitView;
use crate::unit::TransactionView;
use crate::unit::UnitActionView;
use crate::unit::UnitEvent;
use crate::unit::UnitOutcome;
use crate::unit::UnitStage;
use solana_transaction_status_client_types::EncodedConfirmedTransactionWithStatusMeta;
use vstd::prelude::*;

verus! {

/// What the provider returns for a slot: the block's hash, its time if it has
/// one, and the signatures of its transactions in the block's order (absent
/// where the provider sent none).
#[derive(Clone, Debug)]
pub struct BlockSummary {
    pub blockhash: String,
    pub block_time: Option<i64>,
    pub signatures: Option<Vec<String>>,
}

/// The views of a sequence of units, in order.
pub open spec fn unit_views(units: Seq<FetchUnit>) -> Seq<FetchUnitView> {
    Seq::new(units.len(), |i: int| units[i]@)
}

impl BlockSummary {
    /// The block's time in seconds since the epoch, zero where it has none.
    pub open spec fn timestamp(&self) -> i64 {
        match self.block_time {
            Some(time) => time,
            None => 0i64,
        }
    }

    /// The signatures that the block lists, as texts.
    pub open spec fn listed(&self) -> Seq<Seq<char>> {
        match self.signatures {
            Some(signatures) => Seq::new(signatures@.len(), |i: int| signatures@[i]@),
            None => Seq::empty(),
        }
    }

    /// How many signatures a slot retains under the cap `tx_limit`:
    /// `min(N, tx_limit)`.
    pub open spec fn retained_count(&self, tx_limit: usize) -> nat {
        if self.listed().len() <= tx_limit {
            self.listed().len()
        } else {
            tx_limit as nat
        }
    }

    /// The units of the slot: one for each of the first `min(N, tx_limit)`
    /// signatures, in the block's order, none of them begun.
    pub open spec fn planned(&self, slot: u64, tx_limit: usize) -> Seq<FetchUnitView> {
        Seq::new(
            self.retained_count(tx_limit),
            |i: int|
                FetchUnitView {
                    signature: self.listed()[i],
                    slot,
                    block_hash: self.blockhash@,
                    timestamp: self.timestamp(),
                    stage: UnitStage::Pending,
                },
        )
    }

    /// Builds the units of the slot.
    pub fn plan_units(&self, slot: u64, tx_limit: usize) -> (units: Vec<FetchUnit>)
        ensures
            unit_views(units@) == self.planned(slot, tx_limit),
            units@.len() == self.retained_count(tx_limit),
    {
        let mut units: Vec<FetchUnit> = Vec::new();
        let timestamp: i64 = match self.block_time {
            Some(time) => time,
            None => 0,
        };
        match &self.signatures {
            Some(signatures) => {
                let count: usize = if signatures.len() <= tx_limit {
                    signatures.len()
                } else {
                    tx_limit
                };
                let mut i: usize = 0;
                while i < count
                    invariant
                        self.signatures == Some(*signatures),
                        count == self.retained_count(tx_limit),
                        count <= signatures@.len(),
                        timestamp == self.timestamp(),
                        i <= count,
                        units@.len() == i,
                        forall|j: int|
                            0 <= j < i ==> (#[trigger] units@[j])@ == self.planned(
                                slot,
                                tx_limit,
                            )[j],
                    decreases count - i,
                {
                    let unit = FetchUnit::new(
                        signatures[i].clone(),
                        slot,
                        self.blockhash.clone(),
                        timestamp,
                    );
                    units.push(unit);
                    i += 1;
                }
            },
            None => {},
        }
        assert(unit_views(units@) =~= self.planned(slot, tx_limit));
        units
    }
}

/// What a unit asks for when it is begun.
pub open spec fn first_action(unit: FetchUnitView) -> UnitActionView {
    unit.action(UnitEvent::Begin, signature_key(unit.signature))
}

/// The detail requests that a slot's units issue when each is begun, in the
/// units' order.
pub open spec fn detail_requests(units: Seq<FetchUnitView>) -> Seq<Seq<u8>>
    decreases units.len(),
{
    if units.len() == 0 {
        Seq::empty()
    } else {
        let earlier = detail_requests(units.drop_last());
        match first_action(units.last()) {
            UnitActionView::RequestDetail(key) => earlier.push(key),
            _ => earlier,
        }
    }
}

/// None of the units has begun, and the signature of each decodes.
pub open spec fn all_decode(units: Seq<FetchUnitView>) -> bool {
    forall|i: int|
        0 <= i < units.len() ==> (#[trigger] units[i]).stage == UnitStage::Pending
            && signature_key(units[i].signature) is Some
}

/// A slot has exactly `min(N, tx_limit)` units, and they stand for the first
/// signatures of the block, in the block's order.
pub proof fn lemma_units_are_first_signatures(block: BlockSummary, slot: u64, tx_limit: usize)
    ensures
        block.planned(slot, tx_limit).len() == if block.listed().len() <= tx_limit {
            block.listed().len()
        } else {
            tx_limit as nat
        },
        forall|i: int|
            0 <= i < block.planned(slot, tx_limit).len() ==> (#[trigger] block.planned(
                slot,
                tx_limit,
            )[i]).signature == block.listed()[i],
{
}

/// A slot never issues more detail requests than it has units.
pub proof fn lemma_requests_bounded(units: Seq<FetchUnitView>)
    ensures
        detail_requests(units).len() <= units.len(),
    decreases units.len(),
{
    if units.len() > 0 {
        lemma_requests_bounded(units.drop_last());
    }
}

/// Where every unit's signature decodes, a slot issues exactly one detail
/// request for each unit, in the units' order, with the key that the unit's
/// signature decodes to.
pub proof fn lemma_requests_when_all_decode(units: Seq<FetchUnitView>)
    requires
        all_decode(units),
    ensures
        detail_requests(units).len() == units.len(),
        forall|i: int|
            0 <= i < units.len() ==> signature_key(units[i].signature) == Some(
                #[trigger] detail_requests(units)[i],
            ),
    decreases units.len(),
{
    if units.len() > 0 {
        let earlier = units.drop_last();
        assert forall|i: int| 0 <= i < earlier.len() implies (#[trigger] earlier[i]).stage
            == UnitStage::Pending && signature_key(earlier[i].signature) is Some by {
            assert(earlier[i] == units[i]);
        }
        lemma_requests_when_all_decode(earlier);
        let last = units[units.len() - 1];
        assert(last.stage == UnitStage::Pending && signature_key(last.signature) is Some);
        assert forall|i: int| 0 <= i < units.len() implies signature_key(units[i].signature)
            == Some(#[trigger] detail_requests(units)[i]) by {
            if i < earlier.len() {
                assert(earlier[i] == units[i]);
            }
        }
    }
}

/// For a block of `N` signatures that all decode, a slot issues exactly
/// `min(N, tx_limit)` detail requests: those of the first signatures, in the
/// block's order.
pub proof fn lemma_request_count(block: BlockSummary, slot: u64, tx_limit: usize)
    requires
        forall|i: int|
            0 <= i < block.retained_count(tx_limit) ==> signature_key(
                #[trigger] block.listed()[i],
            ) is Some,
    ensures
        detail_requests(block.planned(slot, tx_limit)).len() == block.retained_count(tx_limit),
        forall|i: int|
            0 <= i < block.retained_count(tx_limit) ==> signature_key(block.listed()[i]) == Some(
                #[trigger] detail_requests(block.planned(slot, tx_limit))[i],
            ),
{
    let units = block.planned(slot, tx_limit);
    assert forall|i: int| 0 <= i < units.len() implies (#[trigger] units[i]).stage
        == UnitStage::Pending && signature_key(units[i].signature) is Some by {
        assert(units[i].signature == block.listed()[i]);
    }
    lemma_requests_when_all_decode(units);
}

/// A signature that does not decode ends its own unit and no other: a sibling
/// among the slot's units whose signature decodes asks for its detail,
/// assembles its record round the payload that comes back, and ends stored
/// once the store has taken the record.
pub proof fn lemma_invalid_signature_spares_siblings(
    block: BlockSummary,
    slot: u64,
    tx_limit: usize,
    failing: int,
    sibling: int,
    data: EncodedConfirmedTransactionWithStatusMeta,
)
    requires
        0 <= failing < block.retained_count(tx_limit),
        0 <= sibling < block.retained_count(tx_limit),
        signature_key(block.listed()[failing]) is None,
        signature_key(block.listed()[sibling]) is Some,
    ensures
        ({
            let units = block.planned(slot, tx_limit);
            let lost = units[failing];
            let unit = units[sibling];
            let key = signature_key(block.listed()[sibling]);
            let asked = unit.at(unit.next_stage(UnitEvent::Begin, key));
            let fetched = asked.at(asked.next_stage(UnitEvent::DetailFetched(data), key));
            &&& first_action(lost) == UnitActionView::Stop(UnitOutcome::InvalidSignature)
            &&& first_action(unit) == UnitActionView::RequestDetail(key->0)
            &&& asked.action(UnitEvent::DetailFetched(data), key) == UnitActionView::Insert(
                TransactionView {
                    signature: block.listed()[sibling],
                    slot,
                    block_hash: block.blockhash@,
                    timestamp: block.timestamp(),
                    data,
                },
            )
            &&& fetched.next_stage(UnitEvent::Inserted, key) == UnitStage::Finished(
                UnitOutcome::Stored,
            )
        }),
{
}

} // verus!
