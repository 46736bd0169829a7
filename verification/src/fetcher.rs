//! The ingestion loop as a state machine.
//!
//! `TransactionFetcher` decides; whoever drives it performs. Each call of
//! `run` takes what has just happened (the subscription is up, the store
//! answered, a slot was announced, a block came back, ...) and returns the one
//! thing to do next. The driver performs it, waits where the action says so,
//! and reports the result with the next call.
//!
//! The loop recovers its cursor, streams notifications, drains and stops. A
//! notification that reaches past the cursor starts a backfill, which walks
//! the missing slots in increasing order, one block request at a time, and
//! joins all units of a slot before it asks for the next block. A shutdown is
//! awaited only between notifications, so a backfill that has begun runs to
//! its end.

use crate::block::unit_views;
use crate::block::BlockSummary;
use crate::config::BlockConfig;
use crate::config::Commitment;
use crate::config::TransactionConfig;
use crate::cursor::adjusted;
use crate::cursor::adjusted_slot;
use crate::cursor::Cursor;
use crate::unit::FetchUnit;
use crate::unit::FetchUnitView;
use vstd::prelude::*;

verus! {

/// Why the fetcher could not be set up or could not start streaming.
#[derive(Clone, Copy, Debug, PartialEq, Eq, Structural)]
pub enum TransactionFetcherError {
    /// The provider's request client failed.
    RpcClient,
    /// The notification source could not be subscribed to.
    PubsubClient,
    /// The store failed.
    Surrealdb,
    /// The store held no slot and the notification source ended before it
    /// announced one.
    FetchFailed,
}

/// How a loop that did stream came to its end.
#[derive(Clone, Copy, Debug, PartialEq, Eq, Structural)]
pub enum Termination {
    /// A shutdown was signalled.
    Clean,
    /// The notification source ended without a shutdown.
    Abnormal,
}

/// The four states of the loop.
#[derive(Clone, Copy, Debug, PartialEq, Eq, Structural)]
pub enum Stage {
    Recovering,
    Streaming,
    Draining,
    Stopped,
}

/// Where the loop stands, with what it waits for.
#[derive(Clone, Copy, Debug, PartialEq, Eq, Structural)]
pub enum Phase {
    /// Recovering: not started.
    Created,
    /// Recovering: the subscription has been asked for.
    Subscribing,
    /// Recovering: the store has been asked for its highest slot.
    Recovering,
    /// Recovering: the store held no slot; the first notification will seed
    /// the cursor.
    Seeding,
    /// Streaming: waiting for a notification or a shutdown.
    Streaming(Cursor),
    /// Streaming, in a backfill up to `to`: the block of `slot` has been asked
    /// for.
    Fetching { slot: u64, to: u64 },
    /// Streaming, in a backfill up to `to`: the units of `slot` are at work.
    Joining { slot: u64, to: u64 },
    /// Draining: the subscription is being cancelled.
    Draining(Termination),
    /// Stopped after streaming.
    Stopped(Termination),
    /// Stopped by a setup error, without having streamed.
    Failed(TransactionFetcherError),
}

impl Stage {
    /// The place of a state in the order Recovering, Streaming, Draining,
    /// Stopped.
    pub open spec fn rank(self) -> int {
        match self {
            Stage::Recovering => 0,
            Stage::Streaming => 1,
            Stage::Draining => 2,
            Stage::Stopped => 3,
        }
    }
}

impl Phase {
    /// The state that a phase belongs to.
    pub open spec fn stage(self) -> Stage {
        match self {
            Phase::Created | Phase::Subscribing | Phase::Recovering | Phase::Seeding => {
                Stage::Recovering
            },
            Phase::Streaming(_) | Phase::Fetching { .. } | Phase::Joining { .. } => {
                Stage::Streaming
            },
            Phase::Draining(_) => Stage::Draining,
            Phase::Stopped(_) | Phase::Failed(_) => Stage::Stopped,
        }
    }
}

/// The store's answer to the question for its highest recorded slot.
#[derive(Clone, Copy, Debug, PartialEq, Eq, Structural)]
pub enum MaxSlot {
    /// The highest slot of any record.
    Found(u64),
    /// The store holds no record.
    Absent,
    /// The store could not be asked, or its answer could not be read.
    Failed,
}

/// What has just happened.
#[derive(Clone, Debug)]
pub enum Event {
    /// The loop is asked to start.
    Start,
    /// The subscription is up.
    Subscribed,
    /// The subscription could not be established.
    SubscribeFailed,
    /// The store answered the question for its highest recorded slot.
    MaxSlot(MaxSlot),
    /// The notification source announced a slot.
    Notification(u64),
    /// The notification source ended.
    StreamEnded,
    /// A shutdown was signalled.
    Shutdown,
    /// The provider's answer to a block request; `None` where it failed.
    Block(Option<BlockSummary>),
    /// Every unit of the slot is over.
    UnitsJoined,
    /// The subscription has been cancelled.
    Unsubscribed,
}

/// What to do next.
#[derive(Debug)]
pub enum Action {
    /// Subscribe to the notification source.
    Subscribe,
    /// Ask the store for its highest recorded slot.
    QueryMaxSlot,
    /// Wait for the first notification.
    AwaitFirst,
    /// Wait for the next notification or a shutdown, whichever comes first.
    AwaitNext,
    /// Ask the provider for the block of this slot.
    FetchBlock(u64),
    /// Run these units side by side and wait for all of them.
    RunUnits(Vec<FetchUnit>),
    /// Cancel the subscription and wait until that is done.
    Unsubscribe,
    /// Return: the loop has ended after streaming.
    Finish(Termination),
    /// Return this error: the loop could not start streaming.
    Fail(TransactionFetcherError),
    /// The event was not awaited in this phase; nothing is to be done.
    Ignore,
}

/// An action as a plain value.
pub enum ActionView {
    Subscribe,
    QueryMaxSlot,
    AwaitFirst,
    AwaitNext,
    FetchBlock(u64),
    RunUnits(Seq<FetchUnitView>),
    Unsubscribe,
    Finish(Termination),
    Fail(TransactionFetcherError),
    Ignore,
}

impl View for Action {
    type V = ActionView;

    open spec fn view(&self) -> ActionView {
        match self {
            Action::Subscribe => ActionView::Subscribe,
            Action::QueryMaxSlot => ActionView::QueryMaxSlot,
            Action::AwaitFirst => ActionView::AwaitFirst,
            Action::AwaitNext => ActionView::AwaitNext,
            Action::FetchBlock(slot) => ActionView::FetchBlock(*slot),
            Action::RunUnits(units) => ActionView::RunUnits(unit_views(units@)),
            Action::Unsubscribe => ActionView::Unsubscribe,
            Action::Finish(termination) => ActionView::Finish(*termination),
            Action::Fail(error) => ActionView::Fail(*error),
            Action::Ignore => ActionView::Ignore,
        }
    }
}

/// The ingestion loop: its fixed configuration and the phase it is in.
#[derive(Debug)]
pub struct TransactionFetcher {
    commitment: Commitment,
    block_config: BlockConfig,
    transaction_config: TransactionConfig,
    root_lag: u64,
    tx_limit: usize,
    phase: Phase,
}

/// A fetcher as a plain value.
pub struct FetcherView {
    pub commitment: Commitment,
    pub block_config: BlockConfig,
    pub transaction_config: TransactionConfig,
    pub root_lag: u64,
    pub tx_limit: usize,
    pub phase: Phase,
}

impl View for TransactionFetcher {
    type V = FetcherView;

    closed spec fn view(&self) -> FetcherView {
        FetcherView {
            commitment: self.commitment,
            block_config: self.block_config,
            transaction_config: self.transaction_config,
            root_lag: self.root_lag,
            tx_limit: self.tx_limit,
            phase: self.phase,
        }
    }
}

impl FetcherView {
    /// The fetcher in another phase.
    pub open spec fn at(self, phase: Phase) -> FetcherView {
        FetcherView { phase, ..self }
    }

    /// The next expected slot, while the loop waits for a notification.
    pub open spec fn cursor(self) -> Option<Cursor> {
        match self.phase {
            Phase::Streaming(cursor) => Some(cursor),
            _ => None,
        }
    }

    /// Where a backfill up to `to` goes once `slot` is over: on to the next
    /// slot, or back to streaming with the cursor one past `to`.
    pub open spec fn phase_after_slot(slot: u64, to: u64) -> Phase {
        if slot < to {
            Phase::Fetching { slot: (slot + 1) as u64, to }
        } else {
            Phase::Streaming(Cursor { next: (to + 1) as u128 })
        }
    }

    /// What a backfill up to `to` asks for once `slot` is over.
    pub open spec fn action_after_slot(slot: u64, to: u64) -> ActionView {
        if slot < to {
            ActionView::FetchBlock((slot + 1) as u64)
        } else {
            ActionView::AwaitNext
        }
    }

    /// The phase after `event`.
    pub open spec fn next_phase(self, event: Event) -> Phase {
        match (self.phase, event) {
            (Phase::Created, Event::Start) => Phase::Subscribing,
            (Phase::Subscribing, Event::Subscribed) => Phase::Recovering,
            (Phase::Subscribing, Event::SubscribeFailed) => Phase::Failed(
                TransactionFetcherError::PubsubClient,
            ),
            (Phase::Recovering, Event::MaxSlot(MaxSlot::Found(slot))) => Phase::Streaming(
                Cursor { next: (slot + 1) as u128 },
            ),
            (Phase::Recovering, Event::MaxSlot(_)) => Phase::Seeding,
            (Phase::Seeding, Event::Notification(raw)) => Phase::Streaming(
                Cursor { next: adjusted(raw as int, self.root_lag as int) as u128 },
            ),
            (Phase::Seeding, Event::StreamEnded) => Phase::Failed(
                TransactionFetcherError::FetchFailed,
            ),
            (Phase::Streaming(cursor), Event::Notification(raw)) => match cursor.resolved(
                raw,
                self.root_lag,
            ).backfill {
                Some(range) => Phase::Fetching { slot: range.from, to: range.to },
                None => Phase::Streaming(cursor),
            },
            (Phase::Streaming(_), Event::Shutdown) => Phase::Draining(Termination::Clean),
            (Phase::Streaming(_), Event::StreamEnded) => Phase::Draining(Termination::Abnormal),
            (Phase::Fetching { slot, to }, Event::Block(None)) => Self::phase_after_slot(slot, to),
            (Phase::Fetching { slot, to }, Event::Block(Some(block))) => if block.retained_count(
                self.tx_limit,
            ) == 0 {
                Self::phase_after_slot(slot, to)
            } else {
                Phase::Joining { slot, to }
            },
            (Phase::Joining { slot, to }, Event::UnitsJoined) => Self::phase_after_slot(slot, to),
            (Phase::Draining(termination), Event::Unsubscribed) => Phase::Stopped(termination),
            _ => self.phase,
        }
    }

    /// What to do on `event`.
    pub open spec fn action(self, event: Event) -> ActionView {
        match (self.phase, event) {
            (Phase::Created, Event::Start) => ActionView::Subscribe,
            (Phase::Subscribing, Event::Subscribed) => ActionView::QueryMaxSlot,
            (Phase::Subscribing, Event::SubscribeFailed) => ActionView::Fail(
                TransactionFetcherError::PubsubClient,
            ),
            (Phase::Recovering, Event::MaxSlot(MaxSlot::Found(_))) => ActionView::AwaitNext,
            (Phase::Recovering, Event::MaxSlot(_)) => ActionView::AwaitFirst,
            (Phase::Seeding, Event::Notification(_)) => ActionView::AwaitNext,
            (Phase::Seeding, Event::StreamEnded) => ActionView::Fail(
                TransactionFetcherError::FetchFailed,
            ),
            (Phase::Streaming(cursor), Event::Notification(raw)) => match cursor.resolved(
                raw,
                self.root_lag,
            ).backfill {
                Some(range) => ActionView::FetchBlock(range.from),
                None => ActionView::AwaitNext,
            },
            (Phase::Streaming(_), Event::Shutdown) => ActionView::Unsubscribe,
            (Phase::Streaming(_), Event::StreamEnded) => ActionView::Unsubscribe,
            (Phase::Fetching { slot, to }, Event::Block(None)) => Self::action_after_slot(slot, to),
            (Phase::Fetching { slot, to }, Event::Block(Some(block))) => if block.retained_count(
                self.tx_limit,
            ) == 0 {
                Self::action_after_slot(slot, to)
            } else {
                ActionView::RunUnits(block.planned(slot, self.tx_limit))
            },
            (Phase::Joining { slot, to }, Event::UnitsJoined) => Self::action_after_slot(slot, to),
            (Phase::Draining(termination), Event::Unsubscribed) => ActionView::Finish(termination),
            _ => ActionView::Ignore,
        }
    }
}

impl TransactionFetcher {
    /// A fetcher that has not started, with the confirmation depth `root_lag`
    /// and at most `tx_limit` signatures per slot. Its lookups are the fixed
    /// ones, and the request client works at finalized commitment.
    pub fn new(root_lag: u64, tx_limit: usize) -> (fetcher: TransactionFetcher)
        ensures
            fetcher@ == (FetcherView {
                commitment: Commitment::Finalized,
                block_config: BlockConfig::signatures_only(),
                transaction_config: TransactionConfig::finalized_detail(),
                root_lag,
                tx_limit,
                phase: Phase::Created,
            }),
    {
        TransactionFetcher {
            commitment: Commitment::Finalized,
            block_config: BlockConfig::for_signatures(),
            transaction_config: TransactionConfig::for_detail(),
            root_lag,
            tx_limit,
            phase: Phase::Created,
        }
    }

    /// The commitment of the request client.
    pub fn commitment(&self) -> (commitment: Commitment)
        ensures
            commitment == self@.commitment,
    {
        self.commitment
    }

    /// The configuration of block lookups.
    pub fn block_config(&self) -> (config: BlockConfig)
        ensures
            config == self@.block_config,
    {
        self.block_config
    }

    /// The configuration of transaction lookups.
    pub fn transaction_config(&self) -> (config: TransactionConfig)
        ensures
            config == self@.transaction_config,
    {
        self.transaction_config
    }

    /// The confirmation depth taken off every announced slot.
    pub fn root_lag(&self) -> (lag: u64)
        ensures
            lag == self@.root_lag,
    {
        self.root_lag
    }

    /// The cap on the signatures taken from one block.
    pub fn tx_limit(&self) -> (limit: usize)
        ensures
            limit == self@.tx_limit,
    {
        self.tx_limit
    }

    /// The phase the loop is in.
    pub fn phase(&self) -> (phase: Phase)
        ensures
            phase == self@.phase,
    {
        self.phase
    }

    /// The next expected slot, while the loop waits for a notification.
    pub fn cursor(&self) -> (cursor: Option<Cursor>)
        ensures
            cursor == self@.cursor(),
    {
        match self.phase {
            Phase::Streaming(cursor) => Some(cursor),
            _ => None,
        }
    }

    /// Leaves the slot `slot` of a backfill up to `to` behind.
    fn leave_slot(&mut self, slot: u64, to: u64) -> (action: Action)
        ensures
            final(self)@ == old(self)@.at(FetcherView::phase_after_slot(slot, to)),
            action@ == FetcherView::action_after_slot(slot, to),
    {
        if slot < to {
            self.phase = Phase::Fetching { slot: slot + 1, to };
            Action::FetchBlock(slot + 1)
        } else {
            self.phase = Phase::Streaming(Cursor::after(to));
            Action::AwaitNext
        }
    }

    /// Takes one event and returns what to do next.
    ///
    /// The phase moves as `next_phase` says, the action is the one that
    /// `action` gives, and the configuration never changes. An event that the
    /// phase does not await changes nothing and asks for nothing.
    pub fn run(&mut self, event: Event) -> (action: Action)
        ensures
            final(self)@ == old(self)@.at(old(self)@.next_phase(event)),
            action@ == old(self)@.action(event),
    {
        match self.phase {
            Phase::Created => match event {
                Event::Start => {
                    self.phase = Phase::Subscribing;
                    Action::Subscribe
                },
                _ => Action::Ignore,
            },
            Phase::Subscribing => match event {
                Event::Subscribed => {
                    self.phase = Phase::Recovering;
                    Action::QueryMaxSlot
                },
                Event::SubscribeFailed => {
                    self.phase = Phase::Failed(TransactionFetcherError::PubsubClient);
                    Action::Fail(TransactionFetcherError::PubsubClient)
                },
                _ => Action::Ignore,
            },
            Phase::Recovering => match event {
                Event::MaxSlot(MaxSlot::Found(slot)) => {
                    self.phase = Phase::Streaming(Cursor::after(slot));
                    Action::AwaitNext
                },
                Event::MaxSlot(_) => {
                    self.phase = Phase::Seeding;
                    Action::AwaitFirst
                },
                _ => Action::Ignore,
            },
            Phase::Seeding => match event {
                Event::Notification(raw) => {
                    self.phase = Phase::Streaming(Cursor::at(adjusted_slot(raw, self.root_lag)));
                    Action::AwaitNext
                },
                Event::StreamEnded => {
                    self.phase = Phase::Failed(TransactionFetcherError::FetchFailed);
                    Action::Fail(TransactionFetcherError::FetchFailed)
                },
                _ => Action::Ignore,
            },
            Phase::Streaming(cursor) => match event {
                Event::Notification(raw) => match cursor.resolve(raw, self.root_lag).backfill {
                    Some(range) => {
                        self.phase = Phase::Fetching { slot: range.from, to: range.to };
                        Action::FetchBlock(range.from)
                    },
                    None => Action::AwaitNext,
                },
                Event::Shutdown => {
                    self.phase = Phase::Draining(Termination::Clean);
                    Action::Unsubscribe
                },
                Event::StreamEnded => {
                    self.phase = Phase::Draining(Termination::Abnormal);
                    Action::Unsubscribe
                },
                _ => Action::Ignore,
            },
            Phase::Fetching { slot, to } => match event {
                Event::Block(None) => self.leave_slot(slot, to),
                Event::Block(Some(block)) => {
                    let units = block.plan_units(slot, self.tx_limit);
                    if units.len() == 0 {
                        self.leave_slot(slot, to)
                    } else {
                        self.phase = Phase::Joining { slot, to };
                        Action::RunUnits(units)
                    }
                },
                _ => Action::Ignore,
            },
            Phase::Joining { slot, to } => match event {
                Event::UnitsJoined => self.leave_slot(slot, to),
                _ => Action::Ignore,
            },
            Phase::Draining(termination) => match event {
                Event::Unsubscribed => {
                    self.phase = Phase::Stopped(termination);
                    Action::Finish(termination)
                },
                _ => Action::Ignore,
            },
            Phase::Stopped(_) => Action::Ignore,
            Phase::Failed(_) => Action::Ignore,
        }
    }
}

impl FetcherView {
    /// The fetcher after a run of events, taken one by one.
    pub open spec fn after_all(self, events: Seq<Event>) -> FetcherView
        decreases events.len(),
    {
        if events.len() == 0 {
            self
        } else {
            self.at(self.next_phase(events.first())).after_all(events.drop_first())
        }
    }

    /// How often a run of events makes the fetcher ask for the subscription to
    /// be cancelled.
    pub open spec fn unsubscribes(self, events: Seq<Event>) -> nat
        decreases events.len(),
    {
        if events.len() == 0 {
            0
        } else {
            let now: nat = if self.action(events.first()) is Unsubscribe {
                1
            } else {
                0
            };
            now + self.at(self.next_phase(events.first())).unsubscribes(events.drop_first())
        }
    }
}

impl Phase {
    /// A backfill never stands past its last slot.
    pub open spec fn well_formed(self) -> bool {
        match self {
            Phase::Fetching { slot, to } => slot <= to,
            Phase::Joining { slot, to } => slot <= to,
            _ => true,
        }
    }

    /// The next slot the loop expects to attempt, once the cursor is seeded:
    /// the cursor while the loop waits for a notification, and in a backfill
    /// the slot after the one that is being attempted.
    pub open spec fn expected_slot(self) -> Option<int> {
        match self {
            Phase::Streaming(cursor) => Some(cursor@),
            Phase::Fetching { slot, to } => Some(slot + 1),
            Phase::Joining { slot, to } => Some(slot + 1),
            _ => None,
        }
    }

    /// One for a phase that lies behind a request to cancel the subscription,
    /// zero for any other.
    pub open spec fn drained(self) -> nat {
        match self {
            Phase::Draining(_) | Phase::Stopped(_) => 1,
            _ => 0,
        }
    }
}

/// A block request that fails for slot `slot` does not halt the backfill:
/// while the range has slots left, the loop goes on to ask for the block of
/// `slot + 1`, and after the last slot it returns to streaming with the cursor
/// one past the range.
pub proof fn lemma_failed_block_does_not_halt_range(fetcher: FetcherView, slot: u64, to: u64)
    requires
        fetcher.phase == (Phase::Fetching { slot, to }),
    ensures
        slot < to ==> fetcher.next_phase(Event::Block(None)) == (Phase::Fetching {
            slot: (slot + 1) as u64,
            to,
        }) && fetcher.action(Event::Block(None)) == ActionView::FetchBlock((slot + 1) as u64),
        slot >= to ==> fetcher.next_phase(Event::Block(None)) == Phase::Streaming(
            Cursor { next: (to + 1) as u128 },
        ) && fetcher.action(Event::Block(None)) == ActionView::AwaitNext,
{
}

/// A slot is left the same way however it went: with a failed block request,
/// with a block that gave no unit, or with all its units joined.
pub proof fn lemma_slot_outcome_does_not_steer(
    fetcher: FetcherView,
    slot: u64,
    to: u64,
    block: BlockSummary,
)
    ensures
        ({
            let fetching = fetcher.at(Phase::Fetching { slot, to });
            let joining = fetcher.at(Phase::Joining { slot, to });
            &&& joining.next_phase(Event::UnitsJoined) == fetching.next_phase(Event::Block(None))
            &&& joining.action(Event::UnitsJoined) == fetching.action(Event::Block(None))
            &&& block.retained_count(fetcher.tx_limit) == 0 ==> {
                &&& fetching.next_phase(Event::Block(Some(block))) == fetching.next_phase(
                    Event::Block(None),
                )
                &&& fetching.action(Event::Block(Some(block))) == fetching.action(
                    Event::Block(None),
                )
            }
            &&& block.retained_count(fetcher.tx_limit) > 0 ==> {
                &&& fetching.next_phase(Event::Block(Some(block))) == (Phase::Joining { slot, to })
                &&& fetching.action(Event::Block(Some(block))) == ActionView::RunUnits(
                    block.planned(slot, fetcher.tx_limit),
                )
            }
        }),
{
}

/// The expected slot is one more than the highest slot attempted: every block
/// request is for exactly the expected slot and moves the expected slot one
/// further, and nothing else moves it while the loop streams. So a backfill
/// attempts its slots in increasing order and skips none.
pub proof fn lemma_attempts_follow_expected_slot(fetcher: FetcherView, event: Event)
    requires
        fetcher.phase.well_formed(),
    ensures
        fetcher.next_phase(event).well_formed(),
        fetcher.action(event) matches ActionView::FetchBlock(slot) ==> {
            &&& fetcher.phase.expected_slot() == Some(slot as int)
            &&& fetcher.next_phase(event).expected_slot() == Some(slot + 1)
        },
        !(fetcher.action(event) is FetchBlock) && fetcher.phase.expected_slot() is Some
            && fetcher.next_phase(event).expected_slot() is Some ==> fetcher.next_phase(
            event,
        ).expected_slot() == fetcher.phase.expected_slot(),
{
}

/// A notification while streaming, case by case. With `a` the adjusted slot:
/// at or past the cursor, the backfill starts at the cursor, runs up to `a`,
/// and leaves the cursor at `a + 1` when its last slot is over; below the
/// cursor, nothing is asked of the provider and the cursor stays.
pub proof fn lemma_notification_resolves(fetcher: FetcherView, cursor: Cursor, raw: u64)
    requires
        fetcher.phase == Phase::Streaming(cursor),
    ensures
        ({
            let a = adjusted(raw as int, fetcher.root_lag as int);
            let next = fetcher.next_phase(Event::Notification(raw));
            &&& a >= cursor@ ==> {
                &&& next == (Phase::Fetching { slot: cursor@ as u64, to: a as u64 })
                &&& fetcher.action(Event::Notification(raw)) == ActionView::FetchBlock(
                    cursor@ as u64,
                )
                &&& FetcherView::phase_after_slot(a as u64, a as u64) == Phase::Streaming(
                    Cursor { next: (a + 1) as u128 },
                )
            }
            &&& a < cursor@ ==> {
                &&& next == fetcher.phase
                &&& fetcher.action(Event::Notification(raw)) == ActionView::AwaitNext
            }
        }),
{
}

/// Recovery seeds the cursor one past the store's highest slot. Where the
/// store holds no record, or fails, the first notification seeds the cursor
/// at its adjusted slot. No block is asked for on either way.
pub proof fn lemma_recovery_seeds_cursor(fetcher: FetcherView, slot: u64, raw: u64)
    ensures
        fetcher.at(Phase::Recovering).next_phase(Event::MaxSlot(MaxSlot::Found(slot)))
            == Phase::Streaming(Cursor { next: (slot + 1) as u128 }),
        fetcher.at(Phase::Recovering).action(Event::MaxSlot(MaxSlot::Found(slot)))
            == ActionView::AwaitNext,
        fetcher.at(Phase::Recovering).next_phase(Event::MaxSlot(MaxSlot::Absent)) == Phase::Seeding,
        fetcher.at(Phase::Recovering).action(Event::MaxSlot(MaxSlot::Absent))
            == ActionView::AwaitFirst,
        fetcher.at(Phase::Recovering).next_phase(Event::MaxSlot(MaxSlot::Failed)) == Phase::Seeding,
        fetcher.at(Phase::Recovering).action(Event::MaxSlot(MaxSlot::Failed))
            == ActionView::AwaitFirst,
        fetcher.at(Phase::Seeding).next_phase(Event::Notification(raw)) == Phase::Streaming(
            Cursor { next: adjusted(raw as int, fetcher.root_lag as int) as u128 },
        ),
        fetcher.at(Phase::Seeding).action(Event::Notification(raw)) == ActionView::AwaitNext,
{
}

/// A shutdown that arrives while the loop waits for a notification makes it
/// cancel the subscription, and the loop ends clean once that is done. A
/// notification source that ends takes the same way and ends abnormal.
pub proof fn lemma_shutdown_drains_and_stops(fetcher: FetcherView, cursor: Cursor)
    requires
        fetcher.phase == Phase::Streaming(cursor),
    ensures
        fetcher.next_phase(Event::Shutdown) == Phase::Draining(Termination::Clean),
        fetcher.action(Event::Shutdown) == ActionView::Unsubscribe,
        fetcher.at(Phase::Draining(Termination::Clean)).next_phase(Event::Unsubscribed)
            == Phase::Stopped(Termination::Clean),
        fetcher.at(Phase::Draining(Termination::Clean)).action(Event::Unsubscribed)
            == ActionView::Finish(Termination::Clean),
        fetcher.next_phase(Event::StreamEnded) == Phase::Draining(Termination::Abnormal),
        fetcher.action(Event::StreamEnded) == ActionView::Unsubscribe,
        fetcher.at(Phase::Draining(Termination::Abnormal)).next_phase(Event::Unsubscribed)
            == Phase::Stopped(Termination::Abnormal),
        fetcher.at(Phase::Draining(Termination::Abnormal)).action(Event::Unsubscribed)
            == ActionView::Finish(Termination::Abnormal),
{
}

/// The loop only moves forward through Recovering, Streaming, Draining and
/// Stopped. A setup error is met in Recovering alone and stops the loop at
/// once; a stopped loop stays as it is and asks for nothing.
pub proof fn lemma_stages_in_order(fetcher: FetcherView, event: Event)
    ensures
        fetcher.phase.stage().rank() <= fetcher.next_phase(event).stage().rank(),
        fetcher.next_phase(event) is Failed && !(fetcher.phase is Failed)
            ==> fetcher.phase.stage() == Stage::Recovering && fetcher.action(event) is Fail,
        fetcher.next_phase(event).stage() == Stage::Draining ==> fetcher.phase.stage()
            == Stage::Streaming || fetcher.phase.stage() == Stage::Draining,
        fetcher.phase.stage() == Stage::Stopped ==> fetcher.next_phase(event) == fetcher.phase
            && fetcher.action(event) is Ignore,
{
}

/// One step asks for the subscription to be cancelled exactly when it takes
/// the loop from streaming into draining.
pub proof fn lemma_unsubscribe_step(fetcher: FetcherView, event: Event)
    ensures
        fetcher.action(event) is Unsubscribe <==> fetcher.phase is Streaming
            && fetcher.next_phase(event) is Draining,
        fetcher.phase.drained() + (if fetcher.action(event) is Unsubscribe {
            1nat
        } else {
            0nat
        }) == fetcher.next_phase(event).drained(),
{
}

/// Over any run of events the subscription is cancelled at most once, and
/// exactly once on every run that takes a loop from before draining into
/// draining or on to a stop after streaming.
pub proof fn lemma_unsubscribes_once(fetcher: FetcherView, events: Seq<Event>)
    ensures
        fetcher.phase.drained() + fetcher.unsubscribes(events) == fetcher.after_all(
            events,
        ).phase.drained(),
        fetcher.unsubscribes(events) <= 1,
    decreases events.len(),
{
    if events.len() > 0 {
        lemma_unsubscribe_step(fetcher, events.first());
        lemma_unsubscribes_once(
            fetcher.at(fetcher.next_phase(events.first())),
            events.drop_first(),
        );
    }
}

} // verus!
