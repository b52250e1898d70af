use vstd::prelude::*;
use vstd::string::StringExecFns;

verus! {

/// Largest value of a signed 64-bit integer, as an unsigned height.
pub const MAX_SIGNED_HEIGHT: u64 = 0x7fff_ffff_ffff_ffff;

/// The stored height for a chain height: the same number where it fits in a
/// signed 64-bit column, and the largest signed value where it does not.
pub open spec fn stored_height(height: u64) -> i64 {
    if height <= MAX_SIGNED_HEIGHT {
        height as i64
    } else {
        0x7fff_ffff_ffff_ffffi64
    }
}

/// Converts an unsigned chain height to the signed representation of the
/// storage layer, saturating at `i64::MAX`.
pub fn height_to_signed(height: u64) -> (r: i64)
    ensures
        r == stored_height(height),
        height <= MAX_SIGNED_HEIGHT ==> r as int == height as int,
        height > MAX_SIGNED_HEIGHT ==> r == i64::MAX,
{
    if height <= MAX_SIGNED_HEIGHT {
        height as i64
    } else {
        i64::MAX
    }
}


/// A UTC instant: whole seconds since the Unix epoch and the nanoseconds past
/// that second (above 999,999,999 only during a leap second).
#[derive(Clone, Copy, Debug, PartialEq, Eq, Structural)]
pub struct Timestamp {
    pub secs: i64,
    pub nanos: u32,
}

/// What chrono reads from an RFC 3339 text as a UTC instant, as
/// (seconds since the epoch, nanoseconds), or `None` where it rejects the text.
pub uninterp spec fn utc_instant_of(s: Seq<char>) -> Option<(i64, u32)>;

/// The timestamp for a parsed instant.
pub open spec fn timestamp_of(p: Option<(i64, u32)>) -> Option<Timestamp> {
    match p {
        Some((secs, nanos)) => Some(Timestamp { secs, nanos }),
        None => None,
    }
}

/// Relies on `FromStr for chrono::DateTime<Utc>` (RFC 3339 with a relaxed
/// separator, converted to UTC), then `DateTime::timestamp` and
/// `DateTime::timestamp_subsec_nanos`: the result depends on the text alone.
#[verifier::external_body]
fn parse_utc(s: &str) -> (r: Option<Timestamp>)
    ensures
        r == timestamp_of(utc_instant_of(s@)),
{
    match s.parse::<chrono::DateTime<chrono::Utc>>() {
        Ok(t) => Some(Timestamp { secs: t.timestamp(), nanos: t.timestamp_subsec_nanos() }),
        Err(_) => None,
    }
}

/// Why a fetch produced no snapshot.
#[derive(Clone, Debug, PartialEq, Eq)]
pub enum FetchError {
    /// Connection failure, timeout or a non-success status.
    Network(String),
    /// A body that is malformed or does not have the expected shape.
    Decode(String),
}

/// The blockchain endpoint's payload after structural decoding, with the tip
/// time still as the text the endpoint sent.
#[derive(Clone, Debug, PartialEq, Eq)]
pub struct RawBlockchain {
    pub name: String,
    pub height: u64,
    pub hash: String,
    pub time: String,
    pub latest_url: String,
    pub previous_hash: String,
    pub previous_url: String,
    pub peer_count: i64,
    pub unconfirmed_count: i64,
    pub high_fee_per_kb: i64,
    pub medium_fee_per_kb: i64,
    pub low_fee_per_kb: i64,
    pub last_fork_height: i64,
    pub last_fork_hash: String,
}

/// The latest state of the chain as one fetch saw it.
#[derive(Clone, Debug, PartialEq, Eq)]
pub struct BlockchainSnapshot {
    pub name: String,
    pub height: u64,
    pub hash: String,
    pub time: Timestamp,
    pub latest_url: String,
    pub previous_hash: String,
    pub previous_url: String,
    pub peer_count: i64,
    pub unconfirmed_count: i64,
    pub high_fee_per_kb: i64,
    pub medium_fee_per_kb: i64,
    pub low_fee_per_kb: i64,
    pub last_fork_height: i64,
    pub last_fork_hash: String,
}

/// The latest price and 24-hour volume, each kept as the bit pattern of the
/// IEEE 754 double that the price endpoint sent; the library only carries
/// them to storage.
#[derive(Clone, Copy, Debug, PartialEq, Eq, Structural)]
pub struct PriceSnapshot {
    pub price_bits: u64,
    pub volume_bits: u64,
}

/// One row to append: every snapshot field, the height in its stored form,
/// and the price and volume, which a row may lack.
#[derive(Clone, Debug, PartialEq, Eq)]
pub struct Observation {
    pub name: String,
    pub height: i64,
    pub hash: String,
    pub time: Timestamp,
    pub latest_url: String,
    pub previous_hash: String,
    pub previous_url: String,
    pub peer_count: i64,
    pub unconfirmed_count: i64,
    pub high_fee_per_kb: i64,
    pub medium_fee_per_kb: i64,
    pub low_fee_per_kb: i64,
    pub last_fork_height: i64,
    pub last_fork_hash: String,
    pub price_bits: Option<u64>,
    pub volume_bits: Option<u64>,
}

/// The snapshot for a raw payload whose tip time reads as `time`.
pub open spec fn snapshot_with_time(raw: RawBlockchain, time: Timestamp) -> BlockchainSnapshot {
    BlockchainSnapshot {
        name: raw.name,
        height: raw.height,
        hash: raw.hash,
        time,
        latest_url: raw.latest_url,
        previous_hash: raw.previous_hash,
        previous_url: raw.previous_url,
        peer_count: raw.peer_count,
        unconfirmed_count: raw.unconfirmed_count,
        high_fee_per_kb: raw.high_fee_per_kb,
        medium_fee_per_kb: raw.medium_fee_per_kb,
        low_fee_per_kb: raw.low_fee_per_kb,
        last_fork_height: raw.last_fork_height,
        last_fork_hash: raw.last_fork_hash,
    }
}

/// Finishes decoding a blockchain payload: the tip time must be an instant
/// that reads as RFC 3339; every other field is taken as it is.
pub fn decode_blockchain(raw: RawBlockchain) -> (r: Result<BlockchainSnapshot, FetchError>)
    ensures
        match timestamp_of(utc_instant_of(raw.time@)) {
            Some(t) => r == Ok::<BlockchainSnapshot, FetchError>(snapshot_with_time(raw, t)),
            None => r matches Err(FetchError::Decode(m)) && m@ == "invalid tip time: "@ + raw.time@,
        },
{
    match parse_utc(raw.time.as_str()) {
        Some(time) => Ok(
            BlockchainSnapshot {
                name: raw.name,
                height: raw.height,
                hash: raw.hash,
                time,
                latest_url: raw.latest_url,
                previous_hash: raw.previous_hash,
                previous_url: raw.previous_url,
                peer_count: raw.peer_count,
                unconfirmed_count: raw.unconfirmed_count,
                high_fee_per_kb: raw.high_fee_per_kb,
                medium_fee_per_kb: raw.medium_fee_per_kb,
                low_fee_per_kb: raw.low_fee_per_kb,
                last_fork_height: raw.last_fork_height,
                last_fork_hash: raw.last_fork_hash,
            },
        ),
        None => {
            let msg = String::from_str("invalid tip time: ");
            Err(FetchError::Decode(msg.concat(raw.time.as_str())))
        },
    }
}

/// The row that merges a blockchain snapshot with a price snapshot.
pub open spec fn observation_of(b: BlockchainSnapshot, p: PriceSnapshot) -> Observation {
    Observation {
        name: b.name,
        height: stored_height(b.height),
        hash: b.hash,
        time: b.time,
        latest_url: b.latest_url,
        previous_hash: b.previous_hash,
        previous_url: b.previous_url,
        peer_count: b.peer_count,
        unconfirmed_count: b.unconfirmed_count,
        high_fee_per_kb: b.high_fee_per_kb,
        medium_fee_per_kb: b.medium_fee_per_kb,
        low_fee_per_kb: b.low_fee_per_kb,
        last_fork_height: b.last_fork_height,
        last_fork_hash: b.last_fork_hash,
        price_bits: Some(p.price_bits),
        volume_bits: Some(p.volume_bits),
    }
}

/// Merges the two snapshots of one cycle into the row to store. Total: every
/// pair of snapshots gives a row, and the row is fixed by the pair.
pub fn compose(b: BlockchainSnapshot, p: PriceSnapshot) -> (r: Observation)
    ensures
        r == observation_of(b, p),
        b.height <= MAX_SIGNED_HEIGHT ==> r.height as int == b.height as int,
        b.height > MAX_SIGNED_HEIGHT ==> r.height == i64::MAX,
{
    Observation {
        name: b.name,
        height: height_to_signed(b.height),
        hash: b.hash,
        time: b.time,
        latest_url: b.latest_url,
        previous_hash: b.previous_hash,
        previous_url: b.previous_url,
        peer_count: b.peer_count,
        unconfirmed_count: b.unconfirmed_count,
        high_fee_per_kb: b.high_fee_per_kb,
        medium_fee_per_kb: b.medium_fee_per_kb,
        low_fee_per_kb: b.low_fee_per_kb,
        last_fork_height: b.last_fork_height,
        last_fork_hash: b.last_fork_hash,
        price_bits: Some(p.price_bits),
        volume_bits: Some(p.volume_bits),
    }
}


/// Merging is a function of the two snapshots: equal pairs give equal rows.
pub proof fn lemma_compose_deterministic(
    b1: BlockchainSnapshot,
    p1: PriceSnapshot,
    b2: BlockchainSnapshot,
    p2: PriceSnapshot,
)
    requires
        b1 == b2,
        p1 == p2,
    ensures
        observation_of(b1, p1) == observation_of(b2, p2),
{
}

/// Every height with its top bit clear is stored as the same number; every
/// other height is stored as the largest signed value, so stored heights
/// never go negative and keep their order.
pub proof fn lemma_stored_height(h1: u64, h2: u64)
    ensures
        h1 <= MAX_SIGNED_HEIGHT ==> stored_height(h1) as int == h1 as int,
        h1 > MAX_SIGNED_HEIGHT ==> stored_height(h1) == i64::MAX,
        stored_height(h1) >= 0,
        h1 <= h2 ==> stored_height(h1) <= stored_height(h2),
{
}

} // verus!
