//! Per-service liveness, the three-way overall status, and the snapshot that
//! pairs them.

use vstd::prelude::*;
use vstd::string::*;

verus! {

/// The summary of one round of probes.
#[derive(Clone, Copy, Debug, PartialEq, Eq, Structural)]
pub enum Overall {
    /// Every probe succeeded.
    Healthy,
    /// At least one probe succeeded and at least one failed.
    Degraded,
    /// No probe succeeded.
    Down,
}

impl Overall {
    /// The word under which the status is published.
    pub open spec fn label(self) -> Seq<char> {
        match self {
            Overall::Healthy => "healthy"@,
            Overall::Degraded => "degraded"@,
            Overall::Down => "down"@,
        }
    }

    /// The word under which the status is published.
    pub fn as_str(self) -> (s: &'static str)
        ensures
            s@ == self.label(),
    {
        match self {
            Overall::Healthy => "healthy",
            Overall::Degraded => "degraded",
            Overall::Down => "down",
        }
    }
}

/// Every result of the round is a success (true of an empty round too).
pub open spec fn all_up(results: Seq<bool>) -> bool {
    forall|i: int| 0 <= i < results.len() ==> results[i]
}

/// Some result of the round is a success.
pub open spec fn any_up(results: Seq<bool>) -> bool {
    exists|i: int| 0 <= i < results.len() && results[i]
}

/// Every result of the round is a failure (true of an empty round too).
pub open spec fn none_up(results: Seq<bool>) -> bool {
    forall|i: int| 0 <= i < results.len() ==> !results[i]
}

/// The overall status of a round of probe results: healthy when all of them
/// succeeded, degraded when they are mixed, down when none succeeded. A round
/// without results is down.
pub open spec fn overall_of(results: Seq<bool>) -> Overall {
    if results.len() > 0 && all_up(results) {
        Overall::Healthy
    } else if any_up(results) {
        Overall::Degraded
    } else {
        Overall::Down
    }
}

/// Computes the overall status of a round of probe results.
pub fn aggregate(results: &Vec<bool>) -> (overall: Overall)
    ensures
        overall == overall_of(results@),
{
    let mut all: bool = true;
    let mut any: bool = false;
    let mut i: usize = 0;
    while i < results.len()
        invariant
            i <= results.len(),
            all == (forall|j: int| 0 <= j < i ==> results@[j]),
            any == (exists|j: int| 0 <= j < i && results@[j]),
        decreases results.len() - i,
    {
        if results[i] {
            any = true;
        } else {
            all = false;
        }
        i += 1;
    }
    proof {
        assert(all == all_up(results@));
        if any {
            let j = choose|j: int| 0 <= j < i && results@[j];
            assert(0 <= j < results@.len() && results@[j]);
        }
        if all && results@.len() > 0 {
            assert(results@[0]);
        }
        assert(any == any_up(results@));
    }
    if any && all {
        Overall::Healthy
    } else if any {
        Overall::Degraded
    } else {
        Overall::Down
    }
}

/// Two statuses are published under the same word only if they are the same
/// status.
pub proof fn labels_are_distinct(a: Overall, b: Overall)
    ensures
        a.label() == b.label() <==> a == b,
{
    reveal_strlit("healthy");
    reveal_strlit("degraded");
    reveal_strlit("down");
    assert("healthy"@.len() == 7);
    assert("degraded"@.len() == 8);
    assert("down"@.len() == 4);
}

/// Over one or more probe results the overall status is healthy exactly when
/// all of them succeeded, down exactly when all of them failed, and degraded
/// in every other case. The same holds of the published words.
pub proof fn overall_classifies_results(results: Seq<bool>)
    requires
        results.len() > 0,
    ensures
        overall_of(results) == Overall::Healthy <==> all_up(results),
        overall_of(results) == Overall::Down <==> none_up(results),
        overall_of(results) == Overall::Degraded <==> !all_up(results) && !none_up(results),
        overall_of(results).label() == "healthy"@ <==> all_up(results),
        overall_of(results).label() == "down"@ <==> none_up(results),
        overall_of(results).label() == "degraded"@ <==> !all_up(results) && !none_up(results),
{
    if all_up(results) {
        assert(results[0]);
    }
    if any_up(results) {
        let i = choose|i: int| 0 <= i < results.len() && results[i];
        assert(!none_up(results));
    } else {
        assert(none_up(results));
    }
    labels_are_distinct(overall_of(results), Overall::Healthy);
    labels_are_distinct(overall_of(results), Overall::Down);
    labels_are_distinct(overall_of(results), Overall::Degraded);
}

/// A round without a single success is down, whatever its length.
pub proof fn no_success_is_down(results: Seq<bool>)
    ensures
        overall_of(results) == Overall::Down <==> none_up(results),
{
    if results.len() > 0 {
        overall_classifies_results(results);
    }
}

/// The latest probe result of one monitored endpoint.
#[derive(Debug)]
pub struct ServiceHealth {
    /// Label of the service, unique within the monitored set.
    pub name: String,
    /// Whether the most recent probe succeeded.
    pub healthy: bool,
    /// Local port that is probed.
    pub port: u16,
}

/// What a `ServiceHealth` holds, as plain values.
pub struct ServiceView {
    pub name: Seq<char>,
    pub healthy: bool,
    pub port: u16,
}

impl View for ServiceHealth {
    type V = ServiceView;

    open spec fn view(&self) -> ServiceView {
        ServiceView { name: self.name@, healthy: self.healthy, port: self.port }
    }
}

impl Clone for ServiceHealth {
    fn clone(&self) -> (copy: Self)
        ensures
            copy@ == self@,
    {
        ServiceHealth { name: self.name.clone(), healthy: self.healthy, port: self.port }
    }
}

impl ServiceHealth {
    /// A record for the service `name` on `port` with the given probe result.
    pub fn new(name: &str, healthy: bool, port: u16) -> (service: Self)
        ensures
            service@ == (ServiceView { name: name@, healthy, port }),
    {
        ServiceHealth { name: String::from_str(name), healthy, port }
    }
}

/// The plain values of a list of service records, in the same order.
pub open spec fn service_views(services: Seq<ServiceHealth>) -> Seq<ServiceView> {
    Seq::new(services.len(), |i: int| services[i]@)
}

/// The probe results of a list of services, in the same order.
pub open spec fn statuses(services: Seq<ServiceView>) -> Seq<bool> {
    Seq::new(services.len(), |i: int| services[i].healthy)
}

/// What a `HealthState` holds, as plain values.
pub struct HealthView {
    /// One entry per monitored endpoint, in declaration order.
    pub services: Seq<ServiceView>,
    /// The published word for the overall status.
    pub overall: Seq<char>,
}

impl HealthView {
    /// The overall word is the one that the services' own results give.
    pub open spec fn consistent(self) -> bool {
        self.overall == overall_of(statuses(self.services)).label()
    }
}

/// One snapshot of the aggregated status. The overall word is never set by
/// itself: every value of this type carries the word that its services give.
#[derive(Debug)]
pub struct HealthState {
    services: Vec<ServiceHealth>,
    overall: String,
}

impl View for HealthState {
    type V = HealthView;

    closed spec fn view(&self) -> HealthView {
        HealthView { services: service_views(self.services@), overall: self.overall@ }
    }
}

fn summarize(services: &Vec<ServiceHealth>) -> (overall: Overall)
    ensures
        overall == overall_of(statuses(service_views(services@))),
{
    let mut results: Vec<bool> = Vec::new();
    let mut i: usize = 0;
    while i < services.len()
        invariant
            i <= services.len(),
            results@.len() == i,
            forall|j: int| 0 <= j < i ==> results@[j] == services@[j].healthy,
        decreases services.len() - i,
    {
        results.push(services[i].healthy);
        i += 1;
    }
    assert(results@ =~= statuses(service_views(services@)));
    aggregate(&results)
}

impl HealthState {
    #[verifier::type_invariant]
    pub open spec fn well_formed(&self) -> bool {
        self@.consistent()
    }

    /// The snapshot of the given service records, in their order, with the
    /// overall status that their results give.
    pub fn from_services(services: Vec<ServiceHealth>) -> (snapshot: Self)
        ensures
            snapshot@.services == service_views(services@),
            snapshot@.overall == overall_of(statuses(service_views(services@))).label(),
            snapshot@.consistent(),
    {
        let overall = summarize(&services);
        HealthState { services, overall: String::from_str(overall.as_str()) }
    }

    /// The service records, in declaration order.
    pub fn services(&self) -> (services: &Vec<ServiceHealth>)
        ensures
            service_views(services@) == self@.services,
    {
        &self.services
    }

    /// The published word for the overall status; it is the word that the
    /// services' own results give.
    pub fn overall(&self) -> (label: &str)
        ensures
            label@ == self@.overall,
            self@.consistent(),
    {
        proof {
            use_type_invariant(self);
        }
        self.overall.as_str()
    }

    /// The overall status of this snapshot.
    pub fn status(&self) -> (overall: Overall)
        ensures
            overall == overall_of(statuses(self@.services)),
            overall.label() == self@.overall,
    {
        proof {
            use_type_invariant(self);
        }
        summarize(&self.services)
    }
}

impl Clone for HealthState {
    fn clone(&self) -> (copy: Self)
        ensures
            copy@ == self@,
    {
        proof {
            use_type_invariant(self);
        }
        let mut services: Vec<ServiceHealth> = Vec::new();
        let mut i: usize = 0;
        while i < self.services.len()
            invariant
                i <= self.services.len(),
                services@.len() == i,
                forall|j: int| 0 <= j < i ==> services@[j]@ == self.services@[j]@,
            decreases self.services.len() - i,
        {
            services.push(self.services[i].clone());
            i += 1;
        }
        assert(service_views(services@) =~= service_views(self.services@));
        HealthState { services, overall: self.overall.clone() }
    }
}

} // verus!
