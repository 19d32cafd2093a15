//! The poll loop as a state machine.
//!
//! A tick fetches the four domains one after the other, in a fixed order.
//! A domain that fails is reported and the tick goes on with the next one.
//! After the last domain the loop sleeps for the poll interval. The machine
//! decides; the caller performs the request or the sleep and reports back.

use crate::fronius::client::{
    answer, ClientError, Domain, FroniusClient, Method, Reply, Request,
};
use crate::fronius::model::{
    FroniusCommonInverterData, FroniusMeterData, FroniusPowerFlowData, FroniusStorageData,
};
use crate::gauges::{
    inverter_observations, map_inverter, map_meter, map_power_flow, map_storage,
    meter_observations, power_flow_observations, storage_observations, views, Observation,
    ObservationView, StorageDetail,
};
use vstd::prelude::*;

verus! {

/// Where the loop stands.
#[derive(Clone, Copy, Debug, PartialEq, Eq, Structural)]
pub enum PollState {
    /// Between two ticks.
    Idle,
    /// Within a tick, with the request for one domain in flight.
    Fetching(Domain),
}

impl Domain {
    /// The domain that a tick begins with.
    pub open spec fn spec_first() -> Domain {
        Domain::PowerFlow
    }

    /// The domain that a tick begins with.
    #[verifier::when_used_as_spec(spec_first)]
    pub fn first() -> (domain: Domain)
        ensures
            domain == Domain::spec_first(),
    {
        Domain::PowerFlow
    }

    /// The domain that follows in a tick, or `None` behind the last one.
    pub open spec fn spec_next(self) -> Option<Domain> {
        match self {
            Domain::PowerFlow => Some(Domain::Storage),
            Domain::Storage => Some(Domain::Inverter),
            Domain::Inverter => Some(Domain::Meter),
            Domain::Meter => None,
        }
    }

    /// The domain that follows in a tick, or `None` behind the last one.
    #[verifier::when_used_as_spec(spec_next)]
    pub fn next(self) -> (following: Option<Domain>)
        ensures
            following == self.spec_next(),
    {
        match self {
            Domain::PowerFlow => Some(Domain::Storage),
            Domain::Storage => Some(Domain::Inverter),
            Domain::Inverter => Some(Domain::Meter),
            Domain::Meter => None,
        }
    }
}

impl PollState {
    /// The state in which the loop starts: the first tick begins at once.
    pub open spec fn spec_start() -> PollState {
        PollState::Fetching(Domain::first())
    }

    /// The state in which the loop starts: the first tick begins at once.
    #[verifier::when_used_as_spec(spec_start)]
    pub fn start() -> (state: PollState)
        ensures
            state == PollState::spec_start(),
    {
        PollState::Fetching(Domain::first())
    }

    /// The state after the reply to the request in flight, whatever the
    /// reply holds: the next domain, or idle behind the last one. A reply
    /// that comes while the loop is idle changes nothing.
    pub open spec fn spec_after_reply(self) -> PollState {
        match self {
            PollState::Idle => PollState::Idle,
            PollState::Fetching(domain) => match domain.next() {
                Some(following) => PollState::Fetching(following),
                None => PollState::Idle,
            },
        }
    }

    /// The state after the reply to the request in flight.
    #[verifier::when_used_as_spec(spec_after_reply)]
    pub fn after_reply(self) -> (state: PollState)
        ensures
            state == self.spec_after_reply(),
    {
        match self {
            PollState::Idle => PollState::Idle,
            PollState::Fetching(domain) => match domain.next() {
                Some(following) => PollState::Fetching(following),
                None => PollState::Idle,
            },
        }
    }

    /// The state after the sleep between two ticks: a new tick begins. A
    /// wake-up within a tick changes nothing.
    pub open spec fn spec_after_wake(self) -> PollState {
        match self {
            PollState::Idle => PollState::Fetching(Domain::first()),
            PollState::Fetching(domain) => PollState::Fetching(domain),
        }
    }

    /// The state after the sleep between two ticks.
    #[verifier::when_used_as_spec(spec_after_wake)]
    pub fn after_wake(self) -> (state: PollState)
        ensures
            state == self.spec_after_wake(),
    {
        match self {
            PollState::Idle => PollState::Fetching(Domain::first()),
            PollState::Fetching(domain) => PollState::Fetching(domain),
        }
    }
}

/// What the caller has to do next.
#[derive(Debug, PartialEq, Eq)]
pub enum Pending {
    /// Make the request and hand the reply to `on_reply`.
    Fetch { domain: Domain, request: Request },
    /// Sleep that many seconds, then call `on_wake`.
    Sleep { secs: u32 },
}

/// How the fetch of one domain ended: the observations to apply, or the
/// error to record.
#[derive(Debug, PartialEq, Eq)]
pub struct Outcome {
    pub domain: Domain,
    pub result: Result<Vec<Observation>, ClientError>,
}

/// An `Outcome` with its observations by their views.
pub struct OutcomeView {
    pub domain: Domain,
    pub result: Result<Seq<ObservationView>, ClientError>,
}

impl View for Outcome {
    type V = OutcomeView;

    open spec fn view(&self) -> OutcomeView {
        OutcomeView {
            domain: self.domain,
            result: match self.result {
                Ok(observations) => Ok(views(observations@)),
                Err(error) => Err(error),
            },
        }
    }
}

/// The observations that a reply to the request for `domain` gives, or the
/// error of that reply.
pub open spec fn observed(domain: Domain, detail: StorageDetail, reply: Reply) -> Result<
    Seq<ObservationView>,
    ClientError,
> {
    match domain {
        Domain::PowerFlow => match answer::<FroniusPowerFlowData>(reply) {
            Ok(data) => Ok(power_flow_observations(data.site)),
            Err(error) => Err(error),
        },
        Domain::Storage => match answer::<FroniusStorageData>(reply) {
            Ok(storage) => Ok(storage_observations(storage, detail)),
            Err(error) => Err(error),
        },
        Domain::Inverter => match answer::<FroniusCommonInverterData>(reply) {
            Ok(inverter) => Ok(inverter_observations(inverter)),
            Err(error) => Err(error),
        },
        Domain::Meter => match answer::<FroniusMeterData>(reply) {
            Ok(meter) => Ok(meter_observations(meter)),
            Err(error) => Err(error),
        },
    }
}

/// The outcome of a reply in `state`: that of the domain in flight, and none
/// while the loop is idle.
pub open spec fn outcome_of(state: PollState, detail: StorageDetail, reply: Reply) -> Option<
    OutcomeView,
> {
    match state {
        PollState::Idle => None,
        PollState::Fetching(domain) => Some(
            OutcomeView { domain, result: observed(domain, detail, reply) },
        ),
    }
}

/// The poll loop of one device.
#[derive(Debug, PartialEq, Eq)]
pub struct Poller {
    client: FroniusClient,
    update_sec: u32,
    detail: StorageDetail,
    state: PollState,
}

impl Poller {
    /// The client that the poller fetches with.
    pub closed spec fn client(&self) -> FroniusClient {
        self.client
    }

    /// The seconds between two ticks.
    pub closed spec fn update_sec(&self) -> u32 {
        self.update_sec
    }

    /// Which gauges a storage device gets.
    pub closed spec fn detail(&self) -> StorageDetail {
        self.detail
    }

    /// Where the loop stands.
    pub closed spec fn spec_state(&self) -> PollState {
        self.state
    }

    /// A poll loop at its start.
    pub fn new(client: FroniusClient, fronius_update_sec: u32, detail: StorageDetail) -> (poller:
        Self)
        ensures
            poller.client() == client,
            poller.update_sec() == fronius_update_sec,
            poller.detail() == detail,
            poller.state() == PollState::start(),
    {
        Poller { client, update_sec: fronius_update_sec, detail, state: PollState::start() }
    }

    /// Where the loop stands.
    #[verifier::when_used_as_spec(spec_state)]
    pub fn state(&self) -> (state: PollState)
        ensures
            state == self.spec_state(),
    {
        self.state
    }

    /// What the caller has to do next: the request for the domain in flight,
    /// or the sleep between two ticks.
    pub fn pending(&self) -> (pending: Pending)
        ensures
            match self.state() {
                PollState::Idle => pending matches Pending::Sleep { secs }
                    && secs == self.update_sec(),
                PollState::Fetching(domain) => pending matches Pending::Fetch {
                    domain: fetched,
                    request,
                } && fetched == domain && request.method == Method::Get && request.url@
                    == self.client().url(domain) && request.timeout_sec
                    == self.client()@.timeout_sec,
            },
    {
        match self.state {
            PollState::Idle => Pending::Sleep { secs: self.update_sec },
            PollState::Fetching(domain) => Pending::Fetch {
                domain,
                request: self.client.request(domain),
            },
        }
    }

    /// Takes the reply to the request in flight: says how the domain ended
    /// and moves on to the next domain, or to idle behind the last one. The
    /// loop moves on in the same way whether the domain failed or not.
    pub fn on_reply(&mut self, reply: &Reply) -> (outcome: Option<Outcome>)
        ensures
            final(self).state() == old(self).state().after_reply(),
            final(self).client() == old(self).client(),
            final(self).update_sec() == old(self).update_sec(),
            final(self).detail() == old(self).detail(),
            match outcome {
                Some(o) => outcome_of(old(self).state(), old(self).detail(), *reply) == Some(o@),
                None => outcome_of(old(self).state(), old(self).detail(), *reply) is None,
            },
    {
        let domain = match self.state {
            PollState::Idle => {
                return None;
            },
            PollState::Fetching(domain) => domain,
        };
        let result = match domain {
            Domain::PowerFlow => match self.client.get_power_flow_data(reply) {
                Ok(site) => Ok(map_power_flow(&site)),
                Err(error) => Err(error),
            },
            Domain::Storage => match self.client.get_storage_data(reply) {
                Ok(storage) => Ok(map_storage(&storage, self.detail)),
                Err(error) => Err(error),
            },
            Domain::Inverter => match self.client.get_common_inverter_data(reply) {
                Ok(inverter) => Ok(map_inverter(&inverter)),
                Err(error) => Err(error),
            },
            Domain::Meter => match self.client.get_meter_data(reply) {
                Ok(meter) => Ok(map_meter(&meter)),
                Err(error) => Err(error),
            },
        };
        self.state = self.state.after_reply();
        Some(Outcome { domain, result })
    }

    /// Takes the end of the sleep between two ticks: the next tick begins.
    pub fn on_wake(&mut self)
        ensures
            final(self).state() == old(self).state().after_wake(),
            final(self).client() == old(self).client(),
            final(self).update_sec() == old(self).update_sec(),
            final(self).detail() == old(self).detail(),
    {
        self.state = self.state.after_wake();
    }
}

/// A tick attempts every domain once, in the fixed order, whatever the
/// replies hold: each reply gives the outcome of its own domain, a failure
/// among them changes neither the order nor the outcome of another domain,
/// and after the fourth reply the loop is idle until the next tick begins
/// with the first domain again.
pub proof fn lemma_tick(
    detail: StorageDetail,
    power_flow: Reply,
    storage: Reply,
    inverter: Reply,
    meter: Reply,
)
    ensures
        ({
            let s0 = PollState::start();
            let s1 = s0.after_reply();
            let s2 = s1.after_reply();
            let s3 = s2.after_reply();
            let s4 = s3.after_reply();
            &&& s0 == PollState::Fetching(Domain::PowerFlow)
            &&& s1 == PollState::Fetching(Domain::Storage)
            &&& s2 == PollState::Fetching(Domain::Inverter)
            &&& s3 == PollState::Fetching(Domain::Meter)
            &&& s4 == PollState::Idle
            &&& s4.after_wake() == s0
            &&& outcome_of(s0, detail, power_flow) == Some(
                OutcomeView {
                    domain: Domain::PowerFlow,
                    result: observed(Domain::PowerFlow, detail, power_flow),
                },
            )
            &&& outcome_of(s1, detail, storage) == Some(
                OutcomeView {
                    domain: Domain::Storage,
                    result: observed(Domain::Storage, detail, storage),
                },
            )
            &&& outcome_of(s2, detail, inverter) == Some(
                OutcomeView {
                    domain: Domain::Inverter,
                    result: observed(Domain::Inverter, detail, inverter),
                },
            )
            &&& outcome_of(s3, detail, meter) == Some(
                OutcomeView {
                    domain: Domain::Meter,
                    result: observed(Domain::Meter, detail, meter),
                },
            )
        }),
{
}

/// A reply that fails gives exactly one outcome, the error of its domain,
/// and the loop moves on as after any other reply. With a device that cannot
/// be reached, every tick so gives four errors, one for each domain.
pub proof fn lemma_failure_is_one_error(domain: Domain, detail: StorageDetail, reply: Reply)
    requires
        reply is Failed || (reply matches Reply::Answer { status, .. } && status != 200),
    ensures
        outcome_of(PollState::Fetching(domain), detail, reply) == Some(
            OutcomeView {
                domain,
                result: Err(
                    match reply {
                        Reply::Failed => ClientError::Network,
                        Reply::Answer { status, .. } => ClientError::Transport { status },
                    },
                ),
            },
        ),
        PollState::Fetching(domain).after_reply() == match domain.next() {
            Some(following) => PollState::Fetching(following),
            None => PollState::Idle,
        },
{
}

} // verus!
