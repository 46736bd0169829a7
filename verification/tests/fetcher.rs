use transaction_fetcher::block::BlockSummary;
use transaction_fetcher::config::BlockConfig;
use transaction_fetcher::config::Commitment;
use transaction_fetcher::config::Details;
use transaction_fetcher::config::Encoding;
use transaction_fetcher::config::TransactionConfig;
use transaction_fetcher::cursor::Cursor;
use transaction_fetcher::fetcher::Action;
use transaction_fetcher::fetcher::Event;
use transaction_fetcher::fetcher::MaxSlot;
use transaction_fetcher::fetcher::Phase;
use transaction_fetcher::fetcher::Termination;
use transaction_fetcher::fetcher::TransactionFetcher;
use transaction_fetcher::fetcher::TransactionFetcherError;
use transaction_fetcher::unit::UnitAction;
use transaction_fetcher::unit::UnitEvent;
use transaction_fetcher::unit::UnitOutcome;
use transaction_fetcher::unit::UnitStage;

const VALID_A: &str =
    "2Ana1pUpv2ZbMVkwF5FXapYeBEjdxDatLn7nvJkhgTSXbs59SyZSx866bXirPgj8QQVB57uxHJBG1YFvkRbFj4T";

const VALID_B: &str =
    "67rpwLCuS5DGA8KGZXKsVQ7dnPb9goRLoKfgGbLfQg9WoLUgNY77E2jT11fem3coV9nAkguBACzrU1iyZM4B8roQ";

const VALID_C: &str = "1111111111111111111111111111111111111111111111111111111111111111";

fn block(signatures: &[&str]) -> BlockSummary {
    BlockSummary {
        blockhash: "blockhash".to_string(),
        block_time: Some(1_700_000_000),
        signatures: Some(signatures.iter().map(|s| s.to_string()).collect()),
    }
}

fn streaming_at(cursor: u64, lag: u64, limit: usize) -> TransactionFetcher {
    let mut fetcher = TransactionFetcher::new(lag, limit);
    fetcher.run(Event::Start);
    fetcher.run(Event::Subscribed);
    fetcher.run(Event::MaxSlot(MaxSlot::Found(cursor - 1)));
    fetcher
}

#[test]
fn new_fixes_the_configuration() {
    let fetcher = TransactionFetcher::new(100, 1000);
    assert_eq!(fetcher.root_lag(), 100);
    assert_eq!(fetcher.tx_limit(), 1000);
    assert_eq!(fetcher.phase(), Phase::Created);
    assert_eq!(fetcher.cursor(), None);
    assert_eq!(fetcher.commitment(), Commitment::Finalized);
    assert_eq!(
        fetcher.block_config(),
        BlockConfig {
            encoding: Some(Encoding::JsonParsed),
            transaction_details: Some(Details::Signatures),
            rewards: Some(true),
            commitment: None,
            max_supported_transaction_version: Some(0),
        }
    );
    assert_eq!(
        fetcher.transaction_config(),
        TransactionConfig {
            encoding: Some(Encoding::JsonParsed),
            commitment: Some(Commitment::Finalized),
            max_supported_transaction_version: Some(0),
        }
    );
    assert_eq!(BlockConfig::for_signatures(), fetcher.block_config());
    assert_eq!(TransactionConfig::for_detail(), fetcher.transaction_config());
}

#[test]
fn start_subscribes_then_asks_the_store() {
    let mut fetcher = TransactionFetcher::new(100, 1000);
    assert!(matches!(fetcher.run(Event::Start), Action::Subscribe));
    assert_eq!(fetcher.phase(), Phase::Subscribing);
    assert!(matches!(fetcher.run(Event::Subscribed), Action::QueryMaxSlot));
    assert_eq!(fetcher.phase(), Phase::Recovering);
}

#[test]
fn subscribe_failure_is_fatal() {
    let mut fetcher = TransactionFetcher::new(100, 1000);
    fetcher.run(Event::Start);
    let action = fetcher.run(Event::SubscribeFailed);
    assert!(matches!(action, Action::Fail(TransactionFetcherError::PubsubClient)));
    assert_eq!(fetcher.phase(), Phase::Failed(TransactionFetcherError::PubsubClient));
    assert!(matches!(fetcher.run(Event::Notification(5)), Action::Ignore));
    assert!(matches!(fetcher.run(Event::Shutdown), Action::Ignore));
    assert_eq!(fetcher.phase(), Phase::Failed(TransactionFetcherError::PubsubClient));
}

#[test]
fn restart_recovery_scenario() {
    let mut fetcher = TransactionFetcher::new(100, 1000);
    fetcher.run(Event::Start);
    fetcher.run(Event::Subscribed);
    let action = fetcher.run(Event::MaxSlot(MaxSlot::Found(500)));
    assert!(matches!(action, Action::AwaitNext));
    assert_eq!(fetcher.cursor(), Some(Cursor { next: 501 }));
    let action = fetcher.run(Event::Notification(650));
    assert!(matches!(action, Action::FetchBlock(501)));
    assert_eq!(fetcher.phase(), Phase::Fetching { slot: 501, to: 550 });
}

#[test]
fn cold_start_scenario() {
    let mut fetcher = TransactionFetcher::new(100, 1000);
    fetcher.run(Event::Start);
    fetcher.run(Event::Subscribed);
    let action = fetcher.run(Event::MaxSlot(MaxSlot::Absent));
    assert!(matches!(action, Action::AwaitFirst));
    assert_eq!(fetcher.phase(), Phase::Seeding);
    assert_eq!(fetcher.cursor(), None);
    let action = fetcher.run(Event::Notification(1000));
    assert!(matches!(action, Action::AwaitNext));
    assert_eq!(fetcher.cursor(), Some(Cursor { next: 900 }));
    assert_eq!(fetcher.phase(), Phase::Streaming(Cursor { next: 900 }));
    let action = fetcher.run(Event::Notification(1001));
    assert!(matches!(action, Action::FetchBlock(900)));
    assert_eq!(fetcher.phase(), Phase::Fetching { slot: 900, to: 901 });
}

#[test]
fn cold_start_after_a_store_failure() {
    let mut fetcher = TransactionFetcher::new(100, 1000);
    fetcher.run(Event::Start);
    fetcher.run(Event::Subscribed);
    assert!(matches!(fetcher.run(Event::MaxSlot(MaxSlot::Failed)), Action::AwaitFirst));
    assert_eq!(fetcher.phase(), Phase::Seeding);
}

#[test]
fn cold_start_with_a_first_slot_below_the_lag() {
    let mut fetcher = TransactionFetcher::new(100, 1000);
    fetcher.run(Event::Start);
    fetcher.run(Event::Subscribed);
    fetcher.run(Event::MaxSlot(MaxSlot::Absent));
    fetcher.run(Event::Notification(40));
    assert_eq!(fetcher.cursor(), Some(Cursor { next: 0 }));
}

#[test]
fn cold_start_without_a_notification_fails() {
    let mut fetcher = TransactionFetcher::new(100, 1000);
    fetcher.run(Event::Start);
    fetcher.run(Event::Subscribed);
    fetcher.run(Event::MaxSlot(MaxSlot::Absent));
    let action = fetcher.run(Event::StreamEnded);
    assert!(matches!(action, Action::Fail(TransactionFetcherError::FetchFailed)));
    assert_eq!(fetcher.phase(), Phase::Failed(TransactionFetcherError::FetchFailed));
}

#[test]
fn cold_start_does_not_listen_for_a_shutdown() {
    let mut fetcher = TransactionFetcher::new(100, 1000);
    fetcher.run(Event::Start);
    fetcher.run(Event::Subscribed);
    fetcher.run(Event::MaxSlot(MaxSlot::Absent));
    assert!(matches!(fetcher.run(Event::Shutdown), Action::Ignore));
    assert_eq!(fetcher.phase(), Phase::Seeding);
}

#[test]
fn stale_notification_scenario() {
    let mut fetcher = streaming_at(700, 100, 1000);
    assert_eq!(fetcher.cursor(), Some(Cursor { next: 700 }));
    let action = fetcher.run(Event::Notification(750));
    assert!(matches!(action, Action::AwaitNext));
    assert_eq!(fetcher.cursor(), Some(Cursor { next: 700 }));
    assert_eq!(fetcher.phase(), Phase::Streaming(Cursor { next: 700 }));
}

#[test]
fn shutdown_scenario() {
    let mut fetcher = streaming_at(700, 100, 1000);
    let mut unsubscribes = 0;
    let action = fetcher.run(Event::Shutdown);
    if matches!(action, Action::Unsubscribe) {
        unsubscribes += 1;
    }
    assert_eq!(fetcher.phase(), Phase::Draining(Termination::Clean));
    for event in [Event::Shutdown, Event::Notification(900), Event::StreamEnded] {
        if matches!(fetcher.run(event), Action::Unsubscribe) {
            unsubscribes += 1;
        }
    }
    let action = fetcher.run(Event::Unsubscribed);
    assert!(matches!(action, Action::Finish(Termination::Clean)));
    assert_eq!(fetcher.phase(), Phase::Stopped(Termination::Clean));
    for event in [Event::Shutdown, Event::Unsubscribed, Event::Start] {
        if matches!(fetcher.run(event), Action::Unsubscribe) {
            unsubscribes += 1;
        }
    }
    assert_eq!(unsubscribes, 1);
    assert_eq!(fetcher.phase(), Phase::Stopped(Termination::Clean));
}

#[test]
fn stream_exhaustion_drains_and_ends_abnormal() {
    let mut fetcher = streaming_at(700, 100, 1000);
    assert!(matches!(fetcher.run(Event::StreamEnded), Action::Unsubscribe));
    assert_eq!(fetcher.phase(), Phase::Draining(Termination::Abnormal));
    assert!(matches!(fetcher.run(Event::Unsubscribed), Action::Finish(Termination::Abnormal)));
    assert_eq!(fetcher.phase(), Phase::Stopped(Termination::Abnormal));
}

#[test]
fn failed_block_does_not_halt_the_range() {
    let mut fetcher = streaming_at(501, 100, 1000);
    assert!(matches!(fetcher.run(Event::Notification(603)), Action::FetchBlock(501)));
    assert!(matches!(fetcher.run(Event::Block(None)), Action::FetchBlock(502)));
    assert_eq!(fetcher.phase(), Phase::Fetching { slot: 502, to: 503 });
    assert!(matches!(fetcher.run(Event::Block(None)), Action::FetchBlock(503)));
    assert!(matches!(fetcher.run(Event::Block(None)), Action::AwaitNext));
    assert_eq!(fetcher.cursor(), Some(Cursor { next: 504 }));
}

#[test]
fn backfill_walks_the_range_in_order() {
    let mut fetcher = streaming_at(10, 0, 1000);
    let mut asked = Vec::new();
    let mut action = fetcher.run(Event::Notification(14));
    loop {
        match action {
            Action::FetchBlock(slot) => {
                asked.push(slot);
                action = if slot % 2 == 0 {
                    fetcher.run(Event::Block(None))
                } else {
                    fetcher.run(Event::Block(Some(block(&[VALID_A]))))
                };
            }
            Action::RunUnits(units) => {
                assert_eq!(units.len(), 1);
                action = fetcher.run(Event::UnitsJoined);
            }
            Action::AwaitNext => break,
            other => panic!("unexpected action {:?}", other),
        }
    }
    assert_eq!(asked, vec![10, 11, 12, 13, 14]);
    assert_eq!(fetcher.cursor(), Some(Cursor { next: 15 }));
}

#[test]
fn block_without_signatures_moves_on() {
    let mut fetcher = streaming_at(501, 100, 1000);
    fetcher.run(Event::Notification(602));
    let empty = BlockSummary { blockhash: "h".to_string(), block_time: None, signatures: None };
    assert!(matches!(fetcher.run(Event::Block(Some(empty))), Action::FetchBlock(502)));
    assert!(matches!(fetcher.run(Event::Block(Some(block(&[])))), Action::AwaitNext));
    assert_eq!(fetcher.cursor(), Some(Cursor { next: 503 }));
}

#[test]
fn a_cap_of_zero_runs_no_unit() {
    let mut fetcher = streaming_at(501, 100, 0);
    fetcher.run(Event::Notification(601));
    let action = fetcher.run(Event::Block(Some(block(&[VALID_A, VALID_B]))));
    assert!(matches!(action, Action::AwaitNext));
    assert_eq!(fetcher.cursor(), Some(Cursor { next: 502 }));
}

#[test]
fn units_are_the_first_signatures_in_order() {
    let mut fetcher = streaming_at(501, 100, 2);
    fetcher.run(Event::Notification(601));
    let action = fetcher.run(Event::Block(Some(block(&[VALID_A, VALID_B, VALID_C]))));
    assert_eq!(fetcher.phase(), Phase::Joining { slot: 501, to: 501 });
    match action {
        Action::RunUnits(units) => {
            assert_eq!(units.len(), 2);
            assert_eq!(units[0].signature(), VALID_A);
            assert_eq!(units[1].signature(), VALID_B);
            for unit in units.iter() {
                assert_eq!(unit.slot(), 501);
                assert_eq!(unit.block_hash(), "blockhash");
                assert_eq!(unit.timestamp(), 1_700_000_000);
                assert_eq!(unit.stage(), UnitStage::Pending);
            }
        }
        other => panic!("unexpected action {:?}", other),
    }
    assert!(matches!(fetcher.run(Event::UnitsJoined), Action::AwaitNext));
    assert_eq!(fetcher.cursor(), Some(Cursor { next: 502 }));
}

#[test]
fn every_unit_asks_for_its_detail() {
    let listed = block(&[VALID_A, VALID_B, VALID_C]);
    for (limit, expected) in [(0usize, 0usize), (1, 1), (2, 2), (3, 3), (4, 3), (1000, 3)] {
        let mut units = listed.plan_units(9, limit);
        assert_eq!(units.len(), expected);
        let mut requests = 0;
        for unit in units.iter_mut() {
            if matches!(unit.advance(UnitEvent::Begin), UnitAction::RequestDetail(_)) {
                requests += 1;
            }
        }
        assert_eq!(requests, expected);
    }
}

#[test]
fn plan_units_without_a_block_time() {
    let summary = BlockSummary {
        blockhash: "h".to_string(),
        block_time: None,
        signatures: Some(vec![VALID_A.to_string()]),
    };
    let units = summary.plan_units(3, 10);
    assert_eq!(units.len(), 1);
    assert_eq!(units[0].timestamp(), 0);
    assert_eq!(units[0].slot(), 3);
    assert_eq!(units[0].block_hash(), "h");
}

#[test]
fn an_invalid_signature_spares_its_siblings() {
    let mut fetcher = streaming_at(501, 100, 1000);
    fetcher.run(Event::Notification(601));
    let action = fetcher.run(Event::Block(Some(block(&[VALID_A, "broken", VALID_B]))));
    let mut units = match action {
        Action::RunUnits(units) => units,
        other => panic!("unexpected action {:?}", other),
    };
    assert_eq!(units.len(), 3);
    assert!(matches!(units[0].advance(UnitEvent::Begin), UnitAction::RequestDetail(_)));
    assert!(matches!(
        units[1].advance(UnitEvent::Begin),
        UnitAction::Stop(UnitOutcome::InvalidSignature)
    ));
    assert!(matches!(units[2].advance(UnitEvent::Begin), UnitAction::RequestDetail(_)));
    assert_eq!(units[0].stage(), UnitStage::AwaitingDetail);
    assert_eq!(units[2].stage(), UnitStage::AwaitingDetail);
}

#[test]
fn a_backfill_runs_to_its_end_before_a_shutdown() {
    let mut fetcher = streaming_at(501, 100, 1000);
    fetcher.run(Event::Notification(602));
    assert!(matches!(fetcher.run(Event::Shutdown), Action::Ignore));
    assert_eq!(fetcher.phase(), Phase::Fetching { slot: 501, to: 502 });
    fetcher.run(Event::Block(Some(block(&[VALID_A]))));
    assert!(matches!(fetcher.run(Event::Shutdown), Action::Ignore));
    assert_eq!(fetcher.phase(), Phase::Joining { slot: 501, to: 502 });
    fetcher.run(Event::UnitsJoined);
    fetcher.run(Event::Block(None));
    assert!(matches!(fetcher.run(Event::Shutdown), Action::Unsubscribe));
}

#[test]
fn events_out_of_turn_change_nothing() {
    let mut fetcher = TransactionFetcher::new(100, 1000);
    assert!(matches!(fetcher.run(Event::Notification(5)), Action::Ignore));
    assert!(matches!(fetcher.run(Event::Subscribed), Action::Ignore));
    assert_eq!(fetcher.phase(), Phase::Created);
    fetcher.run(Event::Start);
    assert!(matches!(fetcher.run(Event::Start), Action::Ignore));
    assert!(matches!(fetcher.run(Event::MaxSlot(MaxSlot::Found(3))), Action::Ignore));
    assert_eq!(fetcher.phase(), Phase::Subscribing);
    fetcher.run(Event::Subscribed);
    assert!(matches!(fetcher.run(Event::Notification(5)), Action::Ignore));
    assert_eq!(fetcher.phase(), Phase::Recovering);
    let mut streaming = streaming_at(10, 0, 5);
    assert!(matches!(streaming.run(Event::UnitsJoined), Action::Ignore));
    assert!(matches!(streaming.run(Event::Block(None)), Action::Ignore));
    assert!(matches!(streaming.run(Event::Unsubscribed), Action::Ignore));
    assert_eq!(streaming.phase(), Phase::Streaming(Cursor { next: 10 }));
}

#[test]
fn recovery_after_the_last_slot_finds_every_notification_stale() {
    let mut fetcher = TransactionFetcher::new(0, 1000);
    fetcher.run(Event::Start);
    fetcher.run(Event::Subscribed);
    fetcher.run(Event::MaxSlot(MaxSlot::Found(u64::MAX)));
    assert_eq!(fetcher.cursor(), Some(Cursor { next: 18_446_744_073_709_551_616 }));
    assert!(matches!(fetcher.run(Event::Notification(u64::MAX)), Action::AwaitNext));
    assert_eq!(fetcher.cursor(), Some(Cursor { next: 18_446_744_073_709_551_616 }));
}
