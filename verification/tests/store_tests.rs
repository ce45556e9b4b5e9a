use uptime_monitor::errors::MonitorError;
use uptime_monitor::health::{AlertEvent, ServiceState};
use uptime_monitor::store::{HealthStateStore, Service};

fn fresh_store() -> HealthStateStore {
    let mut store = HealthStateStore::new();
    store.provision(
        b"S_TIPS".to_vec(),
        ServiceState { consecutive_failure_count: 0, is_down: false },
    );
    store.provision(
        b"S_OPENLMS".to_vec(),
        ServiceState { consecutive_failure_count: 0, is_down: false },
    );
    store
}

#[test]
fn missing_row_signals_storage_unavailable() {
    let mut store = fresh_store();
    let unknown = b"S_UNKNOWN".to_vec();
    assert_eq!(
        store.read_failure_count(&unknown),
        Err(MonitorError::StorageUnavailable)
    );
    assert_eq!(store.read_is_down(&unknown), Err(MonitorError::StorageUnavailable));
    assert_eq!(
        store.write_is_down(&unknown, true),
        Err(MonitorError::StorageUnavailable)
    );
    assert_eq!(
        store.increment_or_reset_failure_count(&unknown, true),
        Err(MonitorError::StorageUnavailable)
    );
    assert_eq!(
        store.evaluate_service(&unknown, 500),
        Err(MonitorError::StorageUnavailable)
    );
}

#[test]
fn counts_are_kept_per_service() {
    let mut store = fresh_store();
    let tips = b"S_TIPS".to_vec();
    let lms = b"S_OPENLMS".to_vec();
    assert_eq!(store.increment_or_reset_failure_count(&tips, true), Ok(()));
    assert_eq!(store.increment_or_reset_failure_count(&tips, true), Ok(()));
    assert_eq!(store.read_failure_count(&tips), Ok(2));
    assert_eq!(store.read_failure_count(&lms), Ok(0));
    assert_eq!(store.increment_or_reset_failure_count(&tips, false), Ok(()));
    assert_eq!(store.read_failure_count(&tips), Ok(0));
}

#[test]
fn down_latch_reads_and_writes() {
    let mut store = fresh_store();
    let tips = b"S_TIPS".to_vec();
    assert_eq!(store.read_is_down(&tips), Ok(false));
    assert_eq!(store.write_is_down(&tips, true), Ok(()));
    assert_eq!(store.read_is_down(&tips), Ok(true));
    assert_eq!(store.read_is_down(&b"S_OPENLMS".to_vec()), Ok(false));
}

#[test]
fn poll_cycle_scenario_through_the_store() {
    let mut store = fresh_store();
    let statuses = [200, 200, 500, 500, 500];
    let expected_counts = [0u64, 0, 1, 2, 3];
    let expected_events = [
        AlertEvent::NoEvent,
        AlertEvent::NoEvent,
        AlertEvent::NoEvent,
        AlertEvent::NoEvent,
        AlertEvent::ServiceDown,
    ];
    for i in 0..statuses.len() {
        let service = Service {
            id: b"S_TIPS".to_vec(),
            name: b"TIPS".to_vec(),
            status: statuses[i],
        };
        let event = store.evaluate_service(&service.id, service.status);
        assert_eq!(event, Ok(expected_events[i]));
        assert_eq!(store.read_failure_count(&service.id), Ok(expected_counts[i]));
    }
    assert_eq!(store.read_is_down(&b"S_TIPS".to_vec()), Ok(true));
}

#[test]
fn evaluation_against_the_store_is_edge_triggered() {
    let mut store = fresh_store();
    let tips = b"S_TIPS".to_vec();
    let lms = b"S_OPENLMS".to_vec();
    assert_eq!(store.evaluate_service(&tips, 500), Ok(AlertEvent::NoEvent));
    assert_eq!(store.evaluate_service(&tips, 500), Ok(AlertEvent::NoEvent));
    assert_eq!(store.evaluate_service(&tips, 500), Ok(AlertEvent::ServiceDown));
    assert_eq!(store.evaluate_service(&tips, 500), Ok(AlertEvent::NoEvent));
    assert_eq!(store.read_is_down(&tips), Ok(true));
    // the other service is untouched by the outage of the first
    assert_eq!(store.read_failure_count(&lms), Ok(0));
    assert_eq!(store.read_is_down(&lms), Ok(false));
    assert_eq!(store.evaluate_service(&tips, 200), Ok(AlertEvent::ServiceUp));
    assert_eq!(store.read_failure_count(&tips), Ok(0));
    assert_eq!(store.read_is_down(&tips), Ok(false));
}
