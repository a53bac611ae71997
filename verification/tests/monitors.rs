use crypto_asset_backend::domain::{TokenObservation, TokenSnapshot};
use crypto_asset_backend::monitors::{InMemorySnapshotCache, PollingState};
use std::time::{SystemTime, UNIX_EPOCH};

fn observation(observed_at_unix_ms: u64, block_number: u64) -> TokenObservation {
    TokenObservation {
        observed_at_unix_ms,
        snapshot: TokenSnapshot {
            chain_id: 31337,
            block_number,
            contract_address: "0x1234".to_owned(),
            name: "Research Euro EMT".to_owned(),
            symbol: "rUSD".to_owned(),
            decimals: 6,
            total_supply_raw: "0".to_owned(),
        },
    }
}

#[test]
fn removes_entries_outside_retention_window() {
    let mut cache = InMemorySnapshotCache::new(60_000);
    cache.write(observation(0, 1));
    let now = SystemTime::now()
        .duration_since(UNIX_EPOCH)
        .unwrap()
        .as_millis() as u64;
    cache.write(observation(now, 2));
    assert_eq!(cache.latest().unwrap().snapshot.block_number, 2);
    assert_eq!(cache.len(), 1);
}

#[test]
fn latest_is_the_last_write_within_retention() {
    let mut cache = InMemorySnapshotCache::new(1_000);
    assert_eq!(cache.latest_at(5_000), None);
    cache.write_at(observation(4_000, 7), 4_000);
    cache.write_at(observation(4_500, 8), 4_500);
    assert_eq!(cache.latest_at(5_000), Some(observation(4_500, 8)));
    assert_eq!(cache.len(), 2);
    assert_eq!(cache.latest_at(5_200).unwrap().snapshot.block_number, 8);
    assert_eq!(cache.len(), 1);
    assert_eq!(cache.latest_at(10_000), None);
    assert_eq!(cache.len(), 0);
}

#[test]
fn pruning_stops_at_the_first_recent_entry() {
    let mut cache = InMemorySnapshotCache::new(100);
    cache.write_at(observation(50, 1), 50);
    cache.write_at(observation(500, 2), 500);
    cache.write_at(observation(10, 3), 500);
    assert_eq!(cache.len(), 2);
    assert_eq!(cache.latest_at(550).unwrap().snapshot.block_number, 3);
}

#[test]
fn successful_poll_makes_polling_healthy_until_stale() {
    let mut state = PollingState::new();
    assert!(!state.status(None, 30_000).is_healthy);
    state.record_success(42);
    let status = state.status(Some(1_000), 30_000);
    assert!(status.is_healthy);
    assert_eq!(status.last_success_at_unix_ms, Some(42));
    assert!(!state.status(Some(30_001), 30_000).is_healthy);
}

#[test]
fn failed_poll_is_unhealthy_and_keeps_the_last_success() {
    let mut state = PollingState::new();
    state.record_success(42);
    state.record_failure("log read failed".to_owned());
    let status = state.status(Some(1), 30_000);
    assert!(!status.is_healthy);
    assert_eq!(status.last_success_at_unix_ms, Some(42));
    assert_eq!(status.last_error.as_deref(), Some("log read failed"));
    state.record_success(43);
    assert!(state.status(Some(1), 30_000).is_healthy);
}
