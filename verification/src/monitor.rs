//! The fixed set of monitored endpoints, the outcome of a probe, and the
//! snapshot that one round of probes gives.

use crate::health::{overall_of, HealthState, Overall, ServiceHealth, ServiceView};
use crate::text::{decimal_digits, decimal_string};
use vstd::prelude::*;
use vstd::string::*;

verus! {

/// Seconds to wait after start-up before the first round of probes.
pub const SETTLE_DELAY_SECS: u64 = 3;

/// Seconds between the end of one round of probes and the start of the next.
pub const POLL_INTERVAL_SECS: u64 = 5;

/// What the poll loop is doing.
#[derive(Clone, Copy, Debug, PartialEq, Eq, Structural)]
pub enum LoopPhase {
    /// Waiting after start-up, before the first round.
    Settling,
    /// Running one round: probe every endpoint, store the snapshot, publish
    /// it.
    Polling,
    /// Waiting between two rounds.
    Resting,
}

/// What the poll loop does next.
#[derive(Clone, Copy, Debug, PartialEq, Eq, Structural)]
pub enum LoopAction {
    /// Wait for the given number of seconds.
    Sleep { seconds: u64 },
    /// Run one round.
    RunRound,
}

/// The phase that follows `phase`. There is no last phase.
pub open spec fn phase_after(phase: LoopPhase) -> LoopPhase {
    match phase {
        LoopPhase::Settling => LoopPhase::Polling,
        LoopPhase::Polling => LoopPhase::Resting,
        LoopPhase::Resting => LoopPhase::Polling,
    }
}

/// What is done during `phase`.
pub open spec fn action_in(phase: LoopPhase) -> LoopAction {
    match phase {
        LoopPhase::Settling => LoopAction::Sleep { seconds: SETTLE_DELAY_SECS },
        LoopPhase::Polling => LoopAction::RunRound,
        LoopPhase::Resting => LoopAction::Sleep { seconds: POLL_INTERVAL_SECS },
    }
}

/// The phase in which the poll loop starts.
pub fn first_phase() -> (phase: LoopPhase)
    ensures
        phase == LoopPhase::Settling,
{
    LoopPhase::Settling
}

/// What the poll loop does during `phase`.
pub fn action_of(phase: LoopPhase) -> (action: LoopAction)
    ensures
        action == action_in(phase),
{
    match phase {
        LoopPhase::Settling => LoopAction::Sleep { seconds: SETTLE_DELAY_SECS },
        LoopPhase::Polling => LoopAction::RunRound,
        LoopPhase::Resting => LoopAction::Sleep { seconds: POLL_INTERVAL_SECS },
    }
}

/// The phase that the poll loop enters when what it did during `phase` has
/// ended. `ended_well` says whether that ended without a fault; the loop
/// goes on in the same way whether it did or not.
pub fn next_phase(phase: LoopPhase, ended_well: bool) -> (next: LoopPhase)
    ensures
        next == phase_after(phase),
{
    match phase {
        LoopPhase::Settling => LoopPhase::Polling,
        LoopPhase::Polling => LoopPhase::Resting,
        LoopPhase::Resting => LoopPhase::Polling,
    }
}

/// The phase of the poll loop after `steps` phases have ended.
pub open spec fn phase_at(steps: nat) -> LoopPhase
    decreases steps,
{
    if steps == 0 {
        LoopPhase::Settling
    } else {
        phase_after(phase_at((steps - 1) as nat))
    }
}

/// The poll loop settles once, then alternates rounds and rests for ever: it
/// never settles again and never stops. Every odd phase is a round, every
/// even phase after the first a rest.
pub proof fn loop_alternates_for_ever(steps: nat)
    ensures
        steps == 0 ==> action_in(phase_at(steps)) == (LoopAction::Sleep {
            seconds: SETTLE_DELAY_SECS,
        }),
        steps % 2 == 1 ==> action_in(phase_at(steps)) == LoopAction::RunRound,
        steps > 0 && steps % 2 == 0 ==> action_in(phase_at(steps)) == (LoopAction::Sleep {
            seconds: POLL_INTERVAL_SECS,
        }),
    decreases steps,
{
    if steps > 0 {
        loop_alternates_for_ever((steps - 1) as nat);
    }
}

/// Number of monitored endpoints.
pub const ENDPOINT_COUNT: usize = 4;

/// One monitored endpoint: a label and the local port behind it.
#[derive(Clone, Copy, Debug)]
pub struct Endpoint {
    pub name: &'static str,
    pub port: u16,
}

/// Label of the `i`-th monitored endpoint, in declaration order.
pub open spec fn endpoint_name(i: int) -> Seq<char> {
    if i == 0 {
        "PostgreSQL"@
    } else if i == 1 {
        "Qdrant"@
    } else if i == 2 {
        "Context Manager"@
    } else {
        "Web UI"@
    }
}

/// Port of the `i`-th monitored endpoint, in declaration order.
pub open spec fn endpoint_port(i: int) -> u16 {
    if i == 0 {
        5432
    } else if i == 1 {
        6333
    } else if i == 2 {
        3001
    } else {
        3100
    }
}

/// The monitored endpoints, in declaration order.
pub fn monitored_endpoints() -> (endpoints: Vec<Endpoint>)
    ensures
        endpoints@.len() == ENDPOINT_COUNT,
        forall|i: int|
            0 <= i < ENDPOINT_COUNT ==> (#[trigger] endpoints@[i]).name@ == endpoint_name(i)
                && endpoints@[i].port == endpoint_port(i),
{
    let mut endpoints: Vec<Endpoint> = Vec::new();
    endpoints.push(Endpoint { name: "PostgreSQL", port: 5432 });
    endpoints.push(Endpoint { name: "Qdrant", port: 6333 });
    endpoints.push(Endpoint { name: "Context Manager", port: 3001 });
    endpoints.push(Endpoint { name: "Web UI", port: 3100 });
    endpoints
}

/// The address that a probe of `port` connects to: the loopback host, a
/// colon, and the port in decimal.
pub open spec fn probe_address_text(port: u16) -> Seq<char> {
    "127.0.0.1:"@ + decimal_digits(port as nat)
}

/// The address that a probe of `port` connects to.
pub fn probe_address(port: u16) -> (address: String)
    ensures
        address@ == probe_address_text(port),
{
    let digits = decimal_string(port);
    String::from_str("127.0.0.1:").concat(digits.as_str())
}

/// How one connection attempt ended.
#[derive(Clone, Copy, Debug, PartialEq, Eq, Structural)]
pub enum ProbeOutcome {
    /// A connection was established before the timeout.
    Connected,
    /// The attempt failed: refused, unresolvable, or any other error.
    Failed,
    /// The timeout elapsed first.
    TimedOut,
}

impl ProbeOutcome {
    /// Whether the endpoint counts as healthy: only an established
    /// connection does. An unreachable endpoint is an ordinary result.
    pub fn healthy(self) -> (up: bool)
        ensures
            up == (self == ProbeOutcome::Connected),
    {
        match self {
            ProbeOutcome::Connected => true,
            ProbeOutcome::Failed => false,
            ProbeOutcome::TimedOut => false,
        }
    }
}

/// The service records that a round of probe results gives: the monitored
/// endpoints in declaration order, each with its own result.
pub open spec fn probed_services(results: Seq<bool>) -> Seq<ServiceView> {
    Seq::new(
        ENDPOINT_COUNT as nat,
        |i: int| ServiceView { name: endpoint_name(i), healthy: results[i], port: endpoint_port(i) },
    )
}

/// The service records before any probe has run: every endpoint unhealthy.
pub open spec fn initial_services() -> Seq<ServiceView> {
    Seq::new(
        ENDPOINT_COUNT as nat,
        |i: int| ServiceView { name: endpoint_name(i), healthy: false, port: endpoint_port(i) },
    )
}

/// The snapshot of one finished round: `results[i]` is the probe result of
/// the `i`-th monitored endpoint.
pub fn snapshot_from_probes(results: &[bool; ENDPOINT_COUNT]) -> (snapshot: HealthState)
    ensures
        snapshot@.services == probed_services(results@),
        snapshot@.overall == overall_of(results@).label(),
{
    let endpoints = monitored_endpoints();
    let mut services: Vec<ServiceHealth> = Vec::new();
    let mut i: usize = 0;
    while i < ENDPOINT_COUNT
        invariant
            i <= ENDPOINT_COUNT,
            endpoints@.len() == ENDPOINT_COUNT,
            forall|k: int|
                0 <= k < ENDPOINT_COUNT ==> (#[trigger] endpoints@[k]).name@ == endpoint_name(k)
                    && endpoints@[k].port == endpoint_port(k),
            services@.len() == i,
            forall|j: int| 0 <= j < i ==> (#[trigger] services@[j])@ == probed_services(results@)[j],
        decreases ENDPOINT_COUNT - i,
    {
        let endpoint = endpoints[i];
        services.push(ServiceHealth::new(endpoint.name, results[i], endpoint.port));
        i += 1;
    }
    let snapshot = HealthState::from_services(services);
    proof {
        assert(snapshot@.services =~= probed_services(results@));
        assert(crate::health::statuses(snapshot@.services) =~= results@);
    }
    snapshot
}

impl Default for HealthState {
    /// The snapshot before the first round of probes has finished: every
    /// monitored endpoint unhealthy, overall status down.
    fn default() -> (snapshot: Self)
        ensures
            snapshot@.services == initial_services(),
            snapshot@.overall == "down"@,
    {
        let results: [bool; ENDPOINT_COUNT] = [false, false, false, false];
        let snapshot = snapshot_from_probes(&results);
        proof {
            assert(snapshot@.services =~= initial_services());
            assert(overall_of(results@) == Overall::Down);
        }
        snapshot
    }
}

} // verus!
