use chain_collector::scheduler::{
    start, step, Action, Config, CycleFailure, Event, LoopState, PersistError, Step,
    DEFAULT_POLL_INTERVAL_SECONDS,
};
use chain_collector::snapshot::{
    decode_blockchain, BlockchainSnapshot, FetchError, PriceSnapshot, RawBlockchain,
};

fn config() -> Config {
    Config::new(
        "https://chain.example/v1/btc/main".to_string(),
        "https://price.example/simple/price".to_string(),
        "host=db dbname=chain".to_string(),
    )
}

fn block(height: u64, hash: &str) -> BlockchainSnapshot {
    decode_blockchain(RawBlockchain {
        name: "BTC.main".to_string(),
        height,
        hash: hash.to_string(),
        time: "2024-07-01T12:00:00Z".to_string(),
        latest_url: "latest".to_string(),
        previous_hash: "prev".to_string(),
        previous_url: "prev_url".to_string(),
        peer_count: 1,
        unconfirmed_count: 2,
        high_fee_per_kb: 3,
        medium_fee_per_kb: 4,
        low_fee_per_kb: 5,
        last_fork_height: 6,
        last_fork_hash: "fork".to_string(),
    })
    .unwrap()
}

fn price(p: f64, v: f64) -> PriceSnapshot {
    PriceSnapshot { price_bits: p.to_bits(), volume_bits: v.to_bits() }
}

fn network(m: &str) -> FetchError {
    FetchError::Network(m.to_string())
}

fn sleep_with(failure: Option<CycleFailure>) -> Step {
    Step { state: LoopState::Sleeping, action: Action::Sleep(60), failure }
}

#[test]
fn config_defaults_to_sixty_seconds() {
    let c = config();
    assert_eq!(c.poll_interval_seconds, DEFAULT_POLL_INTERVAL_SECONDS);
    assert_eq!(c.poll_interval_seconds, 60);
    let c = c.with_poll_interval(5);
    assert_eq!(c.poll_interval_seconds, 5);
    assert_eq!(c.database_dsn, "host=db dbname=chain");
}

#[test]
fn loop_starts_by_fetching() {
    assert_eq!(start(), (LoopState::Fetching, Action::FetchBoth));
}

#[test]
fn one_cycle_inserts_one_merged_row() {
    let s = step(
        &config(),
        LoopState::Fetching,
        Event::Fetched(Ok(block(800000, "abc")), Ok(price(65000.5, 3.2e10))),
    );
    assert_eq!(s.state, LoopState::Persisting);
    assert_eq!(s.failure, None);
    match s.action {
        Action::Insert(o) => {
            assert_eq!(o.height, 800000);
            assert_eq!(o.hash, "abc");
            assert_eq!(f64::from_bits(o.price_bits.unwrap()), 65000.5);
            assert_eq!(f64::from_bits(o.volume_bits.unwrap()), 3.2e10);
        }
        other => panic!("expected an insert, got {:?}", other),
    }
    let done = step(&config(), LoopState::Persisting, Event::Persisted(Ok(())));
    assert_eq!(done, sleep_with(None));
}

#[test]
fn blockchain_fetch_failure_skips_cycle() {
    let s = step(
        &config(),
        LoopState::Fetching,
        Event::Fetched(Err(network("unreachable")), Ok(price(1.0, 2.0))),
    );
    assert_eq!(s, sleep_with(Some(CycleFailure::Blockchain(network("unreachable")))));
    let next = step(&config(), s.state, Event::SleepElapsed);
    assert_eq!(
        next,
        Step { state: LoopState::Fetching, action: Action::FetchBoth, failure: None }
    );
}

#[test]
fn price_fetch_failure_is_reported_as_its_own() {
    let e = FetchError::Decode("missing usd".to_string());
    let s = step(
        &config(),
        LoopState::Fetching,
        Event::Fetched(Ok(block(1, "h")), Err(e.clone())),
    );
    assert_eq!(s, sleep_with(Some(CycleFailure::Price(e))));
}

#[test]
fn both_fetch_failures_are_reported() {
    let s = step(
        &config(),
        LoopState::Fetching,
        Event::Fetched(Err(network("a")), Err(network("b"))),
    );
    assert_eq!(s, sleep_with(Some(CycleFailure::BothFetches(network("a"), network("b")))));
}

#[test]
fn insert_failure_is_not_retried() {
    let e = PersistError::Connection("closed".to_string());
    let s = step(&config(), LoopState::Persisting, Event::Persisted(Err(e.clone())));
    assert_eq!(s, sleep_with(Some(CycleFailure::Insert(e))));
    let next = step(&config(), s.state, Event::SleepElapsed);
    assert_eq!(next.state, LoopState::Fetching);
    assert_eq!(next.action, Action::FetchBoth);
}

#[test]
fn rejected_insert_is_reported() {
    let e = PersistError::Rejected("null value".to_string());
    let s = step(&config(), LoopState::Persisting, Event::Persisted(Err(e.clone())));
    assert_eq!(s.failure, Some(CycleFailure::Insert(e)));
}

#[test]
fn sleep_uses_configured_interval() {
    let c = config().with_poll_interval(15);
    let s = step(&c, LoopState::Persisting, Event::Persisted(Ok(())));
    assert_eq!(s.action, Action::Sleep(15));
}

#[test]
fn event_of_another_phase_changes_nothing() {
    let s = step(&config(), LoopState::Sleeping, Event::Persisted(Ok(())));
    assert_eq!(s, Step { state: LoopState::Sleeping, action: Action::Wait, failure: None });
    let s = step(&config(), LoopState::Fetching, Event::SleepElapsed);
    assert_eq!(s, Step { state: LoopState::Fetching, action: Action::Wait, failure: None });
}
