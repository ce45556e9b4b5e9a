//! Error taxonomy of the monitor core. Probe, storage and delivery failures
//! are isolated per service; a configuration error is fatal for a cycle.

use vstd::prelude::*;

verus! {

/// The failure modes the monitor distinguishes.
#[derive(PartialEq, Eq, Structural, Clone, Copy, Debug)]
pub enum MonitorError {
    /// The probe source could not report a status for the target.
    ProbeUnavailable,
    /// The backing store could not be reached, or holds no row for the
    /// service; the caller must not assume a write succeeded.
    StorageUnavailable,
    /// The credential quadruple is unusable; no service can be evaluated.
    ConfigurationError,
    /// The notification endpoint did not accept the alert; the alert is not
    /// retried and the stored state is not rolled back.
    NotificationDeliveryFailed,
}

} // verus!
