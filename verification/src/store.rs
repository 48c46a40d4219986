//! The store of the latest snapshot.

use crate::health::{overall_of, HealthState, HealthView};
use crate::monitor::{initial_services, probed_services, snapshot_from_probes, ENDPOINT_COUNT};
use vstd::prelude::*;

verus! {

/// The process-wide state: one cell with the latest snapshot. A snapshot is
/// replaced as a whole, never field by field, and replacing it takes
/// exclusive access: no read can overlap a write. Whoever shares the store
/// between threads puts it behind a lock and reads and writes under it.
pub struct AppState {
    health: HealthState,
}

impl View for AppState {
    type V = HealthView;

    /// The snapshot that the store holds.
    closed spec fn view(&self) -> HealthView {
        self.health@
    }
}

impl AppState {
    /// A store that holds the snapshot from before the first round of
    /// probes: every monitored endpoint unhealthy, overall status down.
    pub fn new() -> (state: Self)
        ensures
            state@.services == initial_services(),
            state@.overall == "down"@,
    {
        AppState { health: HealthState::default() }
    }

    /// A full copy of the stored snapshot. Its overall word is the one that
    /// its own services give, whatever was written before.
    pub fn read(&self) -> (snapshot: HealthState)
        ensures
            snapshot@ == self@,
            snapshot@.consistent(),
    {
        let snapshot = self.health.clone();
        proof {
            use_type_invariant(&snapshot);
        }
        snapshot
    }

    /// Replaces the stored snapshot as a whole.
    pub fn write(&mut self, snapshot: HealthState)
        ensures
            final(self)@ == snapshot@,
    {
        self.health = snapshot;
    }
}

/// Finishes one round of probes: builds the snapshot that `results` gives,
/// stores it, and hands a copy back for publication.
pub fn poll_health(state: &mut AppState, results: &[bool; ENDPOINT_COUNT]) -> (snapshot:
    HealthState)
    ensures
        snapshot@.services == probed_services(results@),
        snapshot@.overall == overall_of(results@).label(),
        final(state)@ == snapshot@,
{
    let snapshot = snapshot_from_probes(results);
    state.write(snapshot.clone());
    snapshot
}

} // verus!
