use chain_collector::snapshot::{
    compose, decode_blockchain, height_to_signed, BlockchainSnapshot, FetchError, PriceSnapshot,
    RawBlockchain, Timestamp, MAX_SIGNED_HEIGHT,
};

fn raw(height: u64, hash: &str, time: &str) -> RawBlockchain {
    RawBlockchain {
        name: "BTC.main".to_string(),
        height,
        hash: hash.to_string(),
        time: time.to_string(),
        latest_url: "https://api.example/blocks/latest".to_string(),
        previous_hash: "prev".to_string(),
        previous_url: "https://api.example/blocks/prev".to_string(),
        peer_count: 250,
        unconfirmed_count: 3000,
        high_fee_per_kb: 30000,
        medium_fee_per_kb: 20000,
        low_fee_per_kb: 10000,
        last_fork_height: 799990,
        last_fork_hash: "fork".to_string(),
    }
}

fn block(height: u64) -> BlockchainSnapshot {
    decode_blockchain(raw(height, "abc", "2024-07-01T12:00:00Z")).unwrap()
}

fn price(p: f64, v: f64) -> PriceSnapshot {
    PriceSnapshot { price_bits: p.to_bits(), volume_bits: v.to_bits() }
}

#[test]
fn height_within_signed_range_is_kept() {
    assert_eq!(height_to_signed(0), 0);
    assert_eq!(height_to_signed(800000), 800000);
    assert_eq!(height_to_signed(MAX_SIGNED_HEIGHT), i64::MAX);
    assert_eq!(height_to_signed(i64::MAX as u64), i64::MAX);
}

#[test]
fn height_with_top_bit_set_saturates() {
    assert_eq!(height_to_signed(1u64 << 63), i64::MAX);
    assert_eq!(height_to_signed(u64::MAX), i64::MAX);
}

#[test]
fn decode_reads_utc_time() {
    let b = block(800000);
    assert_eq!(b.time, Timestamp { secs: 1719835200, nanos: 0 });
    assert_eq!(b.height, 800000);
    assert_eq!(b.hash, "abc");
    assert_eq!(b.name, "BTC.main");
    assert_eq!(b.last_fork_height, 799990);
}

#[test]
fn decode_converts_offset_and_fraction() {
    let b = decode_blockchain(raw(1, "h", "2024-07-01T14:00:00.5+02:00")).unwrap();
    assert_eq!(b.time, Timestamp { secs: 1719835200, nanos: 500_000_000 });
}

#[test]
fn decode_rejects_bad_time() {
    let r = decode_blockchain(raw(1, "h", "yesterday"));
    assert_eq!(r, Err(FetchError::Decode("invalid tip time: yesterday".to_string())));
}

#[test]
fn compose_flattens_both_snapshots() {
    let b = block(800000);
    let o = compose(b.clone(), price(65000.5, 3.2e10));
    assert_eq!(o.height, 800000);
    assert_eq!(o.hash, "abc");
    assert_eq!(o.name, b.name);
    assert_eq!(o.time, b.time);
    assert_eq!(o.latest_url, b.latest_url);
    assert_eq!(o.previous_hash, "prev");
    assert_eq!(o.previous_url, b.previous_url);
    assert_eq!(o.peer_count, 250);
    assert_eq!(o.unconfirmed_count, 3000);
    assert_eq!(o.high_fee_per_kb, 30000);
    assert_eq!(o.medium_fee_per_kb, 20000);
    assert_eq!(o.low_fee_per_kb, 10000);
    assert_eq!(o.last_fork_height, 799990);
    assert_eq!(o.last_fork_hash, "fork");
    assert_eq!(f64::from_bits(o.price_bits.unwrap()), 65000.5);
    assert_eq!(f64::from_bits(o.volume_bits.unwrap()), 3.2e10);
}

#[test]
fn compose_is_deterministic() {
    let a = compose(block(42), price(1.25, 2.5));
    let b = compose(block(42), price(1.25, 2.5));
    assert_eq!(a, b);
}

#[test]
fn compose_saturates_oversized_height() {
    let o = compose(block(u64::MAX), price(1.0, 1.0));
    assert_eq!(o.height, i64::MAX);
}
