use vstd::prelude::*;
use crate::snapshot::{
    compose, observation_of, BlockchainSnapshot, FetchError, Observation, PriceSnapshot,
};

verus! {

/// Seconds between two cycles unless configured otherwise.
pub const DEFAULT_POLL_INTERVAL_SECONDS: u64 = 60;

/// Where the collector gets its data, where it stores it, and how long it
/// sleeps between cycles.
#[derive(Clone, Debug, PartialEq, Eq)]
pub struct Config {
    pub blockchain_endpoint: String,
    pub price_endpoint: String,
    pub database_dsn: String,
    pub poll_interval_seconds: u64,
}

impl Config {
    /// A configuration with the default interval.
    pub fn new(blockchain_endpoint: String, price_endpoint: String, database_dsn: String) -> (r:
        Config)
        ensures
            r.blockchain_endpoint == blockchain_endpoint,
            r.price_endpoint == price_endpoint,
            r.database_dsn == database_dsn,
            r.poll_interval_seconds == DEFAULT_POLL_INTERVAL_SECONDS,
    {
        Config {
            blockchain_endpoint,
            price_endpoint,
            database_dsn,
            poll_interval_seconds: DEFAULT_POLL_INTERVAL_SECONDS,
        }
    }

    /// The same configuration with another interval.
    pub fn with_poll_interval(self, seconds: u64) -> (r: Config)
        ensures
            r.blockchain_endpoint == self.blockchain_endpoint,
            r.price_endpoint == self.price_endpoint,
            r.database_dsn == self.database_dsn,
            r.poll_interval_seconds == seconds,
    {
        Config { poll_interval_seconds: seconds, ..self }
    }
}

/// Why an insert wrote no row.
#[derive(Clone, Debug, PartialEq, Eq)]
pub enum PersistError {
    /// The connection to the database is gone.
    Connection(String),
    /// The database refused the statement.
    Rejected(String),
}

/// The scheduler's phase. Composing takes no time and cannot fail, so it
/// happens inside the step that leaves `Fetching`.
#[derive(Clone, Copy, Debug, PartialEq, Eq, Structural)]
pub enum LoopState {
    /// Both fetches are in flight.
    Fetching,
    /// The insert of this cycle's row is in flight.
    Persisting,
    /// The pause between two cycles is running.
    Sleeping,
}

/// What the caller reports back after performing an action.
#[derive(Debug)]
pub enum Event {
    /// Both fetches settled, each with its own outcome.
    Fetched(Result<BlockchainSnapshot, FetchError>, Result<PriceSnapshot, FetchError>),
    /// The insert settled.
    Persisted(Result<(), PersistError>),
    /// The pause ended.
    SleepElapsed,
}

/// What the caller is to do next.
#[derive(Clone, Debug, PartialEq, Eq)]
pub enum Action {
    /// Issue both fetches and wait for both to settle.
    FetchBoth,
    /// Insert this row with one statement.
    Insert(Observation),
    /// Pause for this many seconds.
    Sleep(u64),
    /// Nothing: the event did not belong to the current phase.
    Wait,
}

/// Why a cycle stored nothing, naming the stage and carrying its error.
#[derive(Clone, Debug, PartialEq, Eq)]
pub enum CycleFailure {
    Blockchain(FetchError),
    Price(FetchError),
    BothFetches(FetchError, FetchError),
    Insert(PersistError),
}

/// The outcome of one transition: the next phase, the action to perform,
/// and the failure to log, if any.
#[derive(Clone, Debug, PartialEq, Eq)]
pub struct Step {
    pub state: LoopState,
    pub action: Action,
    pub failure: Option<CycleFailure>,
}

/// The transition to sleep at the end of a cycle.
pub open spec fn to_sleep(interval: u64, failure: Option<CycleFailure>) -> Step {
    Step { state: LoopState::Sleeping, action: Action::Sleep(interval), failure }
}

/// The scheduler's transition from a phase on an event.
pub open spec fn next_step(interval: u64, state: LoopState, event: Event) -> Step {
    match (state, event) {
        (LoopState::Fetching, Event::Fetched(b, p)) => match (b, p) {
            (Ok(b), Ok(p)) => Step {
                state: LoopState::Persisting,
                action: Action::Insert(observation_of(b, p)),
                failure: None,
            },
            (Err(eb), Ok(_)) => to_sleep(interval, Some(CycleFailure::Blockchain(eb))),
            (Ok(_), Err(ep)) => to_sleep(interval, Some(CycleFailure::Price(ep))),
            (Err(eb), Err(ep)) => to_sleep(interval, Some(CycleFailure::BothFetches(eb, ep))),
        },
        (LoopState::Persisting, Event::Persisted(r)) => match r {
            Ok(()) => to_sleep(interval, None),
            Err(e) => to_sleep(interval, Some(CycleFailure::Insert(e))),
        },
        (LoopState::Sleeping, Event::SleepElapsed) => Step {
            state: LoopState::Fetching,
            action: Action::FetchBoth,
            failure: None,
        },
        _ => Step { state, action: Action::Wait, failure: None },
    }
}

/// The phase and action the collector starts with, once the schema is
/// ensured.
pub fn start() -> (r: (LoopState, Action))
    ensures
        r.0 == LoopState::Fetching,
        r.1 == Action::FetchBoth,
{
    (LoopState::Fetching, Action::FetchBoth)
}

/// Decides what follows an event. A failure of either fetch, or of the
/// insert, ends the cycle in sleep with that failure to log; success of both
/// fetches leads to inserting their merged row.
pub fn step(config: &Config, state: LoopState, event: Event) -> (r: Step)
    ensures
        r == next_step(config.poll_interval_seconds, state, event),
{
    let interval = config.poll_interval_seconds;
    match (state, event) {
        (LoopState::Fetching, Event::Fetched(b, p)) => match (b, p) {
            (Ok(b), Ok(p)) => Step {
                state: LoopState::Persisting,
                action: Action::Insert(compose(b, p)),
                failure: None,
            },
            (Err(eb), Ok(_)) => Step {
                state: LoopState::Sleeping,
                action: Action::Sleep(interval),
                failure: Some(CycleFailure::Blockchain(eb)),
            },
            (Ok(_), Err(ep)) => Step {
                state: LoopState::Sleeping,
                action: Action::Sleep(interval),
                failure: Some(CycleFailure::Price(ep)),
            },
            (Err(eb), Err(ep)) => Step {
                state: LoopState::Sleeping,
                action: Action::Sleep(interval),
                failure: Some(CycleFailure::BothFetches(eb, ep)),
            },
        },
        (LoopState::Persisting, Event::Persisted(r)) => match r {
            Ok(()) => Step { state: LoopState::Sleeping, action: Action::Sleep(interval), failure: None },
            Err(e) => Step {
                state: LoopState::Sleeping,
                action: Action::Sleep(interval),
                failure: Some(CycleFailure::Insert(e)),
            },
        },
        (LoopState::Sleeping, Event::SleepElapsed) => Step {
            state: LoopState::Fetching,
            action: Action::FetchBoth,
            failure: None,
        },
        (state, _) => Step { state, action: Action::Wait, failure: None },
    }
}


/// A failed fetch, of either side, ends the cycle with no insert: the loop
/// goes to sleep with the failure to log, and when the pause ends it starts
/// fetching again.
pub proof fn lemma_fetch_failure_skips_cycle(
    interval: u64,
    b: Result<BlockchainSnapshot, FetchError>,
    p: Result<PriceSnapshot, FetchError>,
)
    requires
        b is Err || p is Err,
    ensures
        next_step(interval, LoopState::Fetching, Event::Fetched(b, p)).state == LoopState::Sleeping,
        next_step(interval, LoopState::Fetching, Event::Fetched(b, p)).action == Action::Sleep(
            interval,
        ),
        next_step(interval, LoopState::Fetching, Event::Fetched(b, p)).failure is Some,
        next_step(interval, LoopState::Sleeping, Event::SleepElapsed) == (Step {
            state: LoopState::Fetching,
            action: Action::FetchBoth,
            failure: None,
        }),
{
}

/// The two fetches are joined, not raced: where exactly one fails, the
/// failure logged is that fetch's own error, and nothing is inserted.
pub proof fn lemma_single_fetch_failure_reported(
    interval: u64,
    b: BlockchainSnapshot,
    p: PriceSnapshot,
    e: FetchError,
)
    ensures
        next_step(
            interval,
            LoopState::Fetching,
            Event::Fetched(Ok(b), Err(e)),
        ) == to_sleep(interval, Some(CycleFailure::Price(e))),
        next_step(
            interval,
            LoopState::Fetching,
            Event::Fetched(Err(e), Ok(p)),
        ) == to_sleep(interval, Some(CycleFailure::Blockchain(e))),
{
}

/// A failed insert is neither retried nor followed by a new fetch within
/// the cycle: the loop goes to sleep with the insert's error to log, and
/// starts fetching again when the pause ends.
pub proof fn lemma_insert_failure_skips_cycle(interval: u64, e: PersistError)
    ensures
        next_step(interval, LoopState::Persisting, Event::Persisted(Err(e))) == to_sleep(
            interval,
            Some(CycleFailure::Insert(e)),
        ),
        next_step(interval, LoopState::Sleeping, Event::SleepElapsed).state == LoopState::Fetching,
{
}

/// A cycle in which both fetches succeed asks for exactly one insert, of the
/// row that merges the two snapshots, and then sleeps whatever the insert's
/// outcome.
pub proof fn lemma_successful_fetches_insert_once(
    interval: u64,
    b: BlockchainSnapshot,
    p: PriceSnapshot,
    outcome: Result<(), PersistError>,
)
    ensures
        next_step(interval, LoopState::Fetching, Event::Fetched(Ok(b), Ok(p))) == (Step {
            state: LoopState::Persisting,
            action: Action::Insert(observation_of(b, p)),
            failure: None,
        }),
        next_step(interval, LoopState::Persisting, Event::Persisted(outcome)).state
            == LoopState::Sleeping,
        next_step(interval, LoopState::Persisting, Event::Persisted(outcome)).action
            == Action::Sleep(interval),
{
}

} // verus!
