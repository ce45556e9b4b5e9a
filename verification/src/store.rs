//! Durable per-service state, modelled as a keyed table of rows. Rows are
//! provisioned before evaluation; the evaluator only reads and updates
//! existing rows. An operation on a key without a row signals
//! `StorageUnavailable`, and the caller must not assume the write happened.

use vstd::prelude::*;

use crate::errors::MonitorError;
use crate::health::{AlertEvent, ServiceState, spec_event_of, spec_step};

verus! {

/// One probed service in one poll cycle: its stable identifier, its display
/// name, and the status the probe reported this cycle.
pub struct Service {
    pub id: Vec<u8>,
    pub name: Vec<u8>,
    pub status: i32,
}

/// One durable row: a service identifier and its persisted state.
pub struct ServiceRecord {
    pub id: Vec<u8>,
    pub state: ServiceState,
}

/// The keyed table of per-service rows.
pub struct HealthStateStore {
    pub rows: Vec<ServiceRecord>,
}

/// Byte-string equality.
fn bytes_eq(a: &Vec<u8>, b: &Vec<u8>) -> (r: bool)
    ensures
        r == (a@ == b@),
{
    if a.len() != b.len() {
        return false;
    }
    let mut i: usize = 0;
    while i < a.len()
        invariant
            i <= a@.len(),
            a@.len() == b@.len(),
            forall|k: int| 0 <= k < i ==> a@[k] == b@[k],
        decreases a@.len() - i,
    {
        if a[i] != b[i] {
            return false;
        }
        i = i + 1;
    }
    proof {
        assert(a@ =~= b@);
    }
    true
}

impl HealthStateStore {
    /// The store holds a row for the identifier.
    pub open spec fn spec_has_id(self, id: Seq<u8>) -> bool {
        exists|i: int| 0 <= i < self.rows@.len() && self.rows@[i].id@ == id
    }

    /// The index of the row for the identifier (unique under `wf`).
    pub open spec fn spec_index_of(self, id: Seq<u8>) -> int {
        choose|i: int| 0 <= i < self.rows@.len() && self.rows@[i].id@ == id
    }

    /// The persisted state of the row for the identifier.
    pub open spec fn spec_state_of(self, id: Seq<u8>) -> ServiceState {
        self.rows@[self.spec_index_of(id)].state
    }

    /// Well-formed: no two rows share an identifier.
    pub open spec fn wf(self) -> bool {
        forall|i: int, j: int|
            0 <= i < j < self.rows@.len() ==> self.rows@[i].id@ != self.rows@[j].id@
    }

    /// An empty store.
    pub fn new() -> (s: HealthStateStore)
        ensures
            s.rows@.len() == 0,
            s.wf(),
    {
        HealthStateStore { rows: Vec::new() }
    }

    /// Add a row for a new service. Provisioning happens before evaluation
    /// cycles run; the evaluator itself never creates rows.
    pub fn provision(&mut self, id: Vec<u8>, state: ServiceState)
        requires
            old(self).wf(),
            !old(self).spec_has_id(id@),
        ensures
            final(self).wf(),
            final(self).rows@ == old(self).rows@.push((ServiceRecord { id, state })),
    {
        let ghost n = self.rows@.len();
        self.rows.push(ServiceRecord { id, state });
        proof {
            assert forall|i: int, j: int|
                0 <= i < j < self.rows@.len() implies self.rows@[i].id@ != self.rows@[j].id@ by {
                if j < n {
                    assert(old(self).rows@[i].id@ != old(self).rows@[j].id@);
                } else {
                    assert(!(0 <= i < n && old(self).rows@[i].id@ == self.rows@[j].id@));
                }
            }
        }
    }

    /// Find the row index for an identifier.
    fn find_row(&self, service_id: &Vec<u8>) -> (r: Option<usize>)
        requires
            self.wf(),
        ensures
            match r {
                Some(i) => {
                    &&& i < self.rows@.len()
                    &&& self.rows@[i as int].id@ == service_id@
                    &&& self.spec_has_id(service_id@)
                    &&& self.spec_index_of(service_id@) == i as int
                },
                None => !self.spec_has_id(service_id@),
            },
    {
        let mut i: usize = 0;
        while i < self.rows.len()
            invariant
                self.wf(),
                i <= self.rows@.len(),
                forall|k: int| 0 <= k < i ==> self.rows@[k].id@ != service_id@,
            decreases self.rows@.len() - i,
        {
            if bytes_eq(&self.rows[i].id, service_id) {
                proof {
                    let j = self.spec_index_of(service_id@);
                    assert(0 <= j < self.rows@.len() && self.rows@[j].id@ == service_id@);
                    if j != i as int {
                        assert(self.rows@[j].id@ != self.rows@[i as int].id@);
                    }
                }
                return Some(i);
            }
            i = i + 1;
        }
        None
    }

    /// If `is_failure_status`, add one to the stored count for the service;
    /// otherwise reset it to zero. One atomic read-modify-write of that row;
    /// no other row changes. Signals `StorageUnavailable`, changing nothing,
    /// when the store holds no row for the identifier.
    pub fn increment_or_reset_failure_count(
        &mut self,
        service_id: &Vec<u8>,
        is_failure_status: bool,
    ) -> (r: Result<(), MonitorError>)
        requires
            old(self).wf(),
            old(self).spec_has_id(service_id@) ==> old(self).spec_state_of(
                service_id@,
            ).consecutive_failure_count < u64::MAX,
        ensures
            final(self).wf(),
            !old(self).spec_has_id(service_id@) ==> r == Result::<(), MonitorError>::Err(
                MonitorError::StorageUnavailable,
            ) && *final(self) == *old(self),
            old(self).spec_has_id(service_id@) ==> r == Result::<(), MonitorError>::Ok(()) && ({
                let idx = old(self).spec_index_of(service_id@);
                let st = old(self).rows@[idx].state;
                final(self).rows@ == old(self).rows@.update(
                    idx,
                    (ServiceRecord {
                        id: old(self).rows@[idx].id,
                        state: ServiceState {
                            consecutive_failure_count: if is_failure_status {
                                (st.consecutive_failure_count + 1) as u64
                            } else {
                                0
                            },
                            is_down: st.is_down,
                        },
                    }),
                )
            }),
    {
        match self.find_row(service_id) {
            Some(i) => {
                let mut st = self.rows[i].state;
                st.increment_or_reset_failure_count(is_failure_status);
                self.rows[i].state = st;
                proof {
                    assert(self.rows@ =~= old(self).rows@.update(
                        i as int,
                        (ServiceRecord {
                            id: old(self).rows@[i as int].id,
                            state: st,
                        }),
                    ));
                    assert forall|a: int, b: int|
                        0 <= a < b < self.rows@.len() implies self.rows@[a].id@
                        != self.rows@[b].id@ by {
                        assert(self.rows@[a].id == old(self).rows@[a].id);
                        assert(self.rows@[b].id == old(self).rows@[b].id);
                    }
                }
                Ok(())
            },
            None => Err(MonitorError::StorageUnavailable),
        }
    }

    /// The stored consecutive-failure count for the service, or
    /// `StorageUnavailable` when no row exists.
    pub fn read_failure_count(&self, service_id: &Vec<u8>) -> (r: Result<u64, MonitorError>)
        requires
            self.wf(),
        ensures
            r == if self.spec_has_id(service_id@) {
                Result::<u64, MonitorError>::Ok(
                    self.spec_state_of(service_id@).consecutive_failure_count,
                )
            } else {
                Result::<u64, MonitorError>::Err(MonitorError::StorageUnavailable)
            },
    {
        match self.find_row(service_id) {
            Some(i) => Ok(self.rows[i].state.read_failure_count()),
            None => Err(MonitorError::StorageUnavailable),
        }
    }

    /// The stored down latch for the service, or `StorageUnavailable` when
    /// no row exists.
    pub fn read_is_down(&self, service_id: &Vec<u8>) -> (r: Result<bool, MonitorError>)
        requires
            self.wf(),
        ensures
            r == if self.spec_has_id(service_id@) {
                Result::<bool, MonitorError>::Ok(self.spec_state_of(service_id@).is_down)
            } else {
                Result::<bool, MonitorError>::Err(MonitorError::StorageUnavailable)
            },
    {
        match self.find_row(service_id) {
            Some(i) => Ok(self.rows[i].state.read_is_down()),
            None => Err(MonitorError::StorageUnavailable),
        }
    }

    /// Overwrite the down latch for the service; no other row and no other
    /// field changes. Signals `StorageUnavailable`, changing nothing, when
    /// no row exists.
    pub fn write_is_down(&mut self, service_id: &Vec<u8>, value: bool) -> (r: Result<
        (),
        MonitorError,
    >)
        requires
            old(self).wf(),
        ensures
            final(self).wf(),
            !old(self).spec_has_id(service_id@) ==> r == Result::<(), MonitorError>::Err(
                MonitorError::StorageUnavailable,
            ) && *final(self) == *old(self),
            old(self).spec_has_id(service_id@) ==> r == Result::<(), MonitorError>::Ok(()) && ({
                let idx = old(self).spec_index_of(service_id@);
                let st = old(self).rows@[idx].state;
                final(self).rows@ == old(self).rows@.update(
                    idx,
                    (ServiceRecord {
                        id: old(self).rows@[idx].id,
                        state: ServiceState {
                            consecutive_failure_count: st.consecutive_failure_count,
                            is_down: value,
                        },
                    }),
                )
            }),
    {
        match self.find_row(service_id) {
            Some(i) => {
                let mut st = self.rows[i].state;
                st.write_is_down(value);
                self.rows[i].state = st;
                proof {
                    assert(self.rows@ =~= old(self).rows@.update(
                        i as int,
                        (ServiceRecord {
                            id: old(self).rows@[i as int].id,
                            state: st,
                        }),
                    ));
                    assert forall|a: int, b: int|
                        0 <= a < b < self.rows@.len() implies self.rows@[a].id@
                        != self.rows@[b].id@ by {
                        assert(self.rows@[a].id == old(self).rows@[a].id);
                        assert(self.rows@[b].id == old(self).rows@[b].id);
                    }
                }
                Ok(())
            },
            None => Err(MonitorError::StorageUnavailable),
        }
    }

    /// One whole evaluation cycle for one service against the store: update
    /// the rolling counter from this cycle's status, latch a transition if
    /// one occurred, and report the event. The stored state afterwards is
    /// one step of the state machine; no other row changes. Signals
    /// `StorageUnavailable`, changing nothing, when no row exists.
    pub fn evaluate_service(&mut self, service_id: &Vec<u8>, status: i32) -> (r: Result<
        AlertEvent,
        MonitorError,
    >)
        requires
            old(self).wf(),
            old(self).spec_has_id(service_id@) ==> old(self).spec_state_of(
                service_id@,
            ).consecutive_failure_count < u64::MAX,
        ensures
            final(self).wf(),
            !old(self).spec_has_id(service_id@) ==> r == Result::<AlertEvent, MonitorError>::Err(
                MonitorError::StorageUnavailable,
            ) && *final(self) == *old(self),
            old(self).spec_has_id(service_id@) ==> ({
                let idx = old(self).spec_index_of(service_id@);
                let st = old(self).rows@[idx].state;
                let next = spec_step(st.consecutive_failure_count as nat, st.is_down, status as int);
                &&& r == Result::<AlertEvent, MonitorError>::Ok(
                    spec_event_of(st.consecutive_failure_count as nat, st.is_down, status as int),
                )
                &&& final(self).rows@ == old(self).rows@.update(
                    idx,
                    (ServiceRecord {
                        id: old(self).rows@[idx].id,
                        state: ServiceState {
                            consecutive_failure_count: next.0 as u64,
                            is_down: next.1,
                        },
                    }),
                )
            }),
    {
        match self.find_row(service_id) {
            Some(i) => {
                let mut st = self.rows[i].state;
                let event = st.evaluate(status);
                self.rows[i].state = st;
                proof {
                    assert(self.rows@ =~= old(self).rows@.update(
                        i as int,
                        (ServiceRecord {
                            id: old(self).rows@[i as int].id,
                            state: st,
                        }),
                    ));
                    assert forall|a: int, b: int|
                        0 <= a < b < self.rows@.len() implies self.rows@[a].id@
                        != self.rows@[b].id@ by {
                        assert(self.rows@[a].id == old(self).rows@[a].id);
                        assert(self.rows@[b].id == old(self).rows@[b].id);
                    }
                }
                Ok(event)
            },
            None => Err(MonitorError::StorageUnavailable),
        }
    }
}

} // verus!
