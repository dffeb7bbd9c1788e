//! Sensor readings, the retention policy on sensor failure, and the
//! last-writer-wins cell pair that publishes the latest reading.
use core::sync::atomic::{AtomicI32, AtomicU32, Ordering};
use vstd::prelude::*;

verus! {

/// One sample: whole degrees Celsius and whole percent relative humidity.
#[derive(Clone, Copy, Debug, PartialEq, Eq, Structural)]
pub struct Reading {
    pub temperature: i32,
    pub humidity: u32,
}

/// Why a sensor transaction produced no reading.
#[derive(Clone, Copy, Debug, PartialEq, Eq, Structural)]
pub enum SensorError {
    Timeout,
    ChecksumMismatch,
}

/// The reading to publish after an acquisition: the new one on success,
/// otherwise the last good one. Readings are never synthesized.
pub open spec fn retained(last: Reading, outcome: Result<Reading, SensorError>) -> Reading {
    match outcome {
        Ok(r) => r,
        Err(_) => last,
    }
}

/// The reading in effect after the first `k` acquisitions, starting from `initial`.
pub open spec fn reading_after(initial: Reading, outcomes: Seq<Result<Reading, SensorError>>, k: nat) -> Reading
    decreases k,
{
    if k == 0 {
        initial
    } else {
        retained(reading_after(initial, outcomes, (k - 1) as nat), outcomes[k - 1])
    }
}

/// Applies the retention policy to one acquisition.
pub fn next_reading(last: Reading, outcome: Result<Reading, SensorError>) -> (r: Reading)
    ensures
        r == retained(last, outcome),
{
    match outcome {
        Ok(r) => r,
        Err(_) => last,
    }
}

/// Staleness bound: after `k` acquisitions the reading in effect is the one
/// returned by the latest successful acquisition among them, and it is the
/// initial reading only when all of them failed.
pub proof fn lemma_latest_good(initial: Reading, outcomes: Seq<Result<Reading, SensorError>>, k: nat)
    requires
        k <= outcomes.len(),
    ensures
        (exists|i: int|
            0 <= i < k && #[trigger] outcomes[i] == Ok::<Reading, SensorError>(reading_after(initial, outcomes, k))
                && forall|j: int| i < j < k ==> (#[trigger] outcomes[j]).is_err())
        || (reading_after(initial, outcomes, k) == initial
            && forall|j: int| 0 <= j < k ==> (#[trigger] outcomes[j]).is_err()),
    decreases k,
{
    if k > 0 {
        lemma_latest_good(initial, outcomes, (k - 1) as nat);
        let r = reading_after(initial, outcomes, k);
        let last = (k - 1) as int;
        match outcomes[last] {
            Ok(x) => {
                assert(outcomes[last] == Ok::<Reading, SensorError>(r));
            },
            Err(_) => {
                if exists|i: int|
                    0 <= i < k - 1 && #[trigger] outcomes[i] == Ok::<Reading, SensorError>(
                        reading_after(initial, outcomes, (k - 1) as nat),
                    ) && forall|j: int| i < j < k - 1 ==> (#[trigger] outcomes[j]).is_err() {
                    let i = choose|i: int|
                        0 <= i < k - 1 && #[trigger] outcomes[i] == Ok::<Reading, SensorError>(
                            reading_after(initial, outcomes, (k - 1) as nat),
                        ) && forall|j: int| i < j < k - 1 ==> (#[trigger] outcomes[j]).is_err();
                    assert(forall|j: int| i < j < k ==> (#[trigger] outcomes[j]).is_err());
                }
            },
        }
    }
}

/// The latest temperature and humidity, each in its own atomic cell.
/// One task publishes; any task may read without coordination. Each value is
/// read whole, but a read may pair a temperature with an older humidity.
pub struct TelemetryState {
    temperature: AtomicI32,
    humidity: AtomicU32,
}

impl TelemetryState {
    /// Cells holding `initial`, the first good reading.
    pub fn new(initial: Reading) -> (r: Self) {
        TelemetryState {
            temperature: AtomicI32::new(initial.temperature),
            humidity: AtomicU32::new(initial.humidity),
        }
    }

    /// Overwrites both cells, each with a single relaxed store.
    pub fn publish(&self, reading: Reading) {
        self.temperature.store(reading.temperature, Ordering::Relaxed);
        self.humidity.store(reading.humidity, Ordering::Relaxed);
    }

    /// The values last stored in the two cells, each loaded once.
    pub fn read(&self) -> (r: Reading) {
        let temperature = self.temperature.load(Ordering::Relaxed);
        let humidity = self.humidity.load(Ordering::Relaxed);
        Reading { temperature, humidity }
    }
}

} // verus!
