use crypto_asset_backend::esg::{advance_checkpoint, estimate, observation_increment};

/// The per-day accumulation that the ESG store performs with the library's
/// rules: the day total grows by the increment, the checkpoint advances.
struct Day {
    checkpoint: Option<u64>,
    total: u64,
}

impl Day {
    fn record(&mut self, block: u64, count: u64) -> u64 {
        self.total += observation_increment(self.checkpoint, block, count);
        self.checkpoint = Some(advance_checkpoint(self.checkpoint, block));
        self.total
    }
}

#[test]
fn accumulates_new_blocks_and_persists_the_checkpoint() {
    let mut day = Day {
        checkpoint: None,
        total: 0,
    };
    day.record(10, 2);
    let total = day.record(12, 3);
    let result = estimate("2026-08-22".to_owned(), total, "provisional");

    assert_eq!(day.checkpoint, Some(12));
    assert_eq!(result.transaction_count, 5);
    assert_eq!(result.energy_best_guess_milliwh as f64 / 1_000.0, 98.375);
}

#[test]
fn replayed_or_older_blocks_are_idempotent_and_do_not_regress_checkpoint() {
    let mut day = Day {
        checkpoint: None,
        total: 0,
    };
    day.record(12, 4);
    day.record(12, 4);
    let total = day.record(11, 99);
    let result = estimate("2026-08-22".to_owned(), total, "provisional");

    assert_eq!(result.transaction_count, 4);
    assert_eq!(day.checkpoint, Some(12));
}
