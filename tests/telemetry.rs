use thermo_node::telemetry::{next_reading, Reading, SensorError, TelemetryState};

#[test]
fn good_reading_replaces_last() {
    let last = Reading { temperature: 20, humidity: 40 };
    let new = Reading { temperature: 21, humidity: 41 };
    assert_eq!(next_reading(last, Ok(new)), new);
}

#[test]
fn timeout_keeps_last_good_reading() {
    let last = Reading { temperature: 20, humidity: 40 };
    assert_eq!(next_reading(last, Err(SensorError::Timeout)), last);
}

#[test]
fn checksum_mismatch_keeps_last_good_reading() {
    let last = Reading { temperature: -3, humidity: 90 };
    assert_eq!(next_reading(last, Err(SensorError::ChecksumMismatch)), last);
}

#[test]
fn read_returns_latest_good_after_failures() {
    let mut last = Reading { temperature: 19, humidity: 50 };
    let outcomes = [
        Ok(Reading { temperature: 20, humidity: 51 }),
        Err(SensorError::Timeout),
        Ok(Reading { temperature: 21, humidity: 52 }),
        Err(SensorError::ChecksumMismatch),
        Err(SensorError::Timeout),
    ];
    for o in outcomes {
        last = next_reading(last, o);
    }
    assert_eq!(last, Reading { temperature: 21, humidity: 52 });
}

#[test]
fn telemetry_cells_hold_published_values() {
    let cells = TelemetryState::new(Reading { temperature: 22, humidity: 55 });
    assert_eq!(cells.read(), Reading { temperature: 22, humidity: 55 });
    cells.publish(Reading { temperature: -5, humidity: 10 });
    assert_eq!(cells.read(), Reading { temperature: -5, humidity: 10 });
}
