//! Finding the device by multicast service discovery, without the network.
//!
//! The caller browses for the service type and reports each event with the
//! time that has passed since the browse began. The locator decides whether
//! to wait on, which address was found, or that the window has closed.

use crate::text::{decimal, to_decimal};
use vstd::prelude::*;
use vstd::string::StringExecFns;

verus! {

/// The service type that the inverter advertises.
pub const SERVICE_TYPE: &'static str = "_Fronius-SE-Inverter._tcp.local.";

/// The length of the discovery window, in milliseconds.
pub const WINDOW_MS: u64 = 60_000;

/// Why discovery gave no address.
#[derive(Clone, Copy, Debug, PartialEq, Eq, Structural)]
pub enum DiscoveryError {
    /// No service with a usable address was resolved within the window.
    Timeout,
}

impl DiscoveryError {
    /// The error in words.
    pub open spec fn spec_message(self) -> &'static str {
        match self {
            DiscoveryError::Timeout => "Giving up after 60s",
        }
    }

    /// The error in words.
    #[verifier::when_used_as_spec(spec_message)]
    pub fn message(self) -> (message: &'static str)
        ensures
            message == self.spec_message(),
    {
        match self {
            DiscoveryError::Timeout => "Giving up after 60s",
        }
    }
}

/// An address that a resolved service offers.
#[derive(Clone, Copy, Debug, PartialEq, Eq)]
pub enum Candidate {
    /// An IPv4 address, by its four octets.
    V4([u8; 4]),
    /// An address of another family.
    Other,
}

/// What the browse delivered.
#[derive(Debug, PartialEq, Eq)]
pub enum DiscoveryEvent {
    /// A service instance was resolved and offers these addresses, in this order.
    Resolved(Vec<Candidate>),
    /// Any other event of the browse.
    Other,
    /// The wait ended without an event.
    Silence,
}

/// An event with the milliseconds that had passed when it came.
#[derive(Debug, PartialEq, Eq)]
pub struct Observed {
    pub elapsed_ms: u64,
    pub event: DiscoveryEvent,
}

/// What to do after an event.
#[derive(Debug, PartialEq, Eq)]
pub enum Discovery {
    /// Wait for the next event, at most that many milliseconds.
    Wait { millis: u64 },
    /// The device is at this address.
    Found(String),
    /// Give up.
    Failed(DiscoveryError),
}

/// A `Discovery` with the address by its characters.
pub enum DiscoveryView {
    Wait { millis: u64 },
    Found(Seq<char>),
    Failed(DiscoveryError),
}

impl View for Discovery {
    type V = DiscoveryView;

    open spec fn view(&self) -> DiscoveryView {
        match self {
            Discovery::Wait { millis } => DiscoveryView::Wait { millis: *millis },
            Discovery::Found(address) => DiscoveryView::Found(address@),
            Discovery::Failed(error) => DiscoveryView::Failed(*error),
        }
    }
}

/// The address in dotted decimal notation.
pub open spec fn dotted_quad(octets: [u8; 4]) -> Seq<char> {
    decimal(octets[0] as nat) + seq!['.'] + decimal(octets[1] as nat) + seq!['.'] + decimal(
        octets[2] as nat,
    ) + seq!['.'] + decimal(octets[3] as nat)
}

/// Writes the address in dotted decimal notation.
pub fn to_dotted_quad(octets: &[u8; 4]) -> (text: String)
    ensures
        text@ == dotted_quad(*octets),
{
    proof {
        reveal_strlit(".");
    }
    assert("."@ =~= seq!['.']);
    let mut text = to_decimal(octets[0] as u64);
    text.append(".");
    text.append(to_decimal(octets[1] as u64).as_str());
    text.append(".");
    text.append(to_decimal(octets[2] as u64).as_str());
    text.append(".");
    text.append(to_decimal(octets[3] as u64).as_str());
    text
}

/// The first IPv4 address among the candidates.
pub open spec fn first_v4(candidates: Seq<Candidate>) -> Option<[u8; 4]>
    decreases candidates.len(),
{
    if candidates.len() == 0 {
        None
    } else {
        match candidates[0] {
            Candidate::V4(octets) => Some(octets),
            Candidate::Other => first_v4(candidates.drop_first()),
        }
    }
}

/// Picks the first IPv4 address among the candidates.
pub fn pick_v4(candidates: &Vec<Candidate>) -> (picked: Option<[u8; 4]>)
    ensures
        picked == first_v4(candidates@),
{
    let mut i: usize = 0;
    assert(candidates@.skip(0) =~= candidates@);
    while i < candidates.len()
        invariant
            i <= candidates.len(),
            first_v4(candidates@) == first_v4(candidates@.skip(i as int)),
        decreases candidates.len() - i,
    {
        assert(candidates@.skip(i as int).drop_first() =~= candidates@.skip(i + 1));
        match candidates[i] {
            Candidate::V4(octets) => {
                return Some(octets);
            },
            Candidate::Other => {},
        }
        i += 1;
    }
    None
}

/// What is left of the window when `elapsed_ms` have passed.
pub open spec fn remaining(elapsed_ms: u64) -> u64 {
    if elapsed_ms < WINDOW_MS {
        (WINDOW_MS - elapsed_ms) as u64
    } else {
        0
    }
}

/// What to do after `event`, which came `elapsed_ms` after the browse began.
///
/// An event that comes when the window has closed counts for nothing. Within
/// the window, a resolved service with an IPv4 address ends the search with
/// its first such address, silence ends it without one, and after anything
/// else the search waits on for what is left of the window.
pub open spec fn decision(elapsed_ms: u64, event: DiscoveryEvent) -> DiscoveryView {
    if elapsed_ms >= WINDOW_MS {
        DiscoveryView::Failed(DiscoveryError::Timeout)
    } else {
        match event {
            DiscoveryEvent::Silence => DiscoveryView::Failed(DiscoveryError::Timeout),
            DiscoveryEvent::Other => DiscoveryView::Wait { millis: remaining(elapsed_ms) },
            DiscoveryEvent::Resolved(candidates) => match first_v4(candidates@) {
                Some(octets) => DiscoveryView::Found(dotted_quad(octets)),
                None => DiscoveryView::Wait { millis: remaining(elapsed_ms) },
            },
        }
    }
}

/// Decides what to do after `event`, which came `elapsed_ms` after the browse began.
pub fn decide(elapsed_ms: u64, event: &DiscoveryEvent) -> (discovery: Discovery)
    ensures
        discovery@ == decision(elapsed_ms, *event),
{
    if elapsed_ms >= WINDOW_MS {
        return Discovery::Failed(DiscoveryError::Timeout);
    }
    match event {
        DiscoveryEvent::Silence => Discovery::Failed(DiscoveryError::Timeout),
        DiscoveryEvent::Other => Discovery::Wait { millis: WINDOW_MS - elapsed_ms },
        DiscoveryEvent::Resolved(candidates) => match pick_v4(candidates) {
            Some(octets) => Discovery::Found(to_dotted_quad(&octets)),
            None => Discovery::Wait { millis: WINDOW_MS - elapsed_ms },
        },
    }
}

/// How a discovery session ends that delivered `trace` and then nothing more:
/// with the address of the first decision that found one, unless a decision
/// before it gave up; and with a timeout where no decision found one.
pub open spec fn session(trace: Seq<Observed>) -> Result<Seq<char>, DiscoveryError>
    decreases trace.len(),
{
    if trace.len() == 0 {
        Err(DiscoveryError::Timeout)
    } else {
        match decision(trace[0].elapsed_ms, trace[0].event) {
            DiscoveryView::Found(address) => Ok(address),
            DiscoveryView::Failed(error) => Err(error),
            DiscoveryView::Wait { .. } => session(trace.drop_first()),
        }
    }
}

/// Finds the address of the inverter in what a discovery session delivered.
pub fn find_fronius_server(trace: &Vec<Observed>) -> (found: Result<String, DiscoveryError>)
    ensures
        match found {
            Ok(address) => session(trace@) == Ok::<Seq<char>, DiscoveryError>(address@),
            Err(error) => session(trace@) == Err::<Seq<char>, DiscoveryError>(error),
        },
{
    let mut i: usize = 0;
    assert(trace@.skip(0) =~= trace@);
    while i < trace.len()
        invariant
            i <= trace.len(),
            session(trace@) == session(trace@.skip(i as int)),
        decreases trace.len() - i,
    {
        assert(trace@.skip(i as int).drop_first() =~= trace@.skip(i + 1));
        match decide(trace[i].elapsed_ms, &trace[i].event) {
            Discovery::Found(address) => {
                return Ok(address);
            },
            Discovery::Failed(error) => {
                return Err(error);
            },
            Discovery::Wait { .. } => {},
        }
        i += 1;
    }
    Err(DiscoveryError::Timeout)
}

/// Whether the event is a resolved service that offers an IPv4 address.
pub open spec fn usable(event: DiscoveryEvent) -> bool {
    event matches DiscoveryEvent::Resolved(candidates) && first_v4(candidates@) is Some
}

/// A session that never delivers a resolved service with an IPv4 address
/// ends in a timeout, whatever else it delivers and whenever.
pub proof fn lemma_no_resolution_times_out(trace: Seq<Observed>)
    requires
        forall|i: int| 0 <= i < trace.len() ==> !usable(#[trigger] trace[i].event),
    ensures
        session(trace) == Err::<Seq<char>, DiscoveryError>(DiscoveryError::Timeout),
    decreases trace.len(),
{
    if trace.len() > 0 {
        assert(!usable(trace[0].event));
        assert forall|i: int| 0 <= i < trace.drop_first().len() implies !usable(
            #[trigger] trace.drop_first()[i].event,
        ) by {
            assert(trace.drop_first()[i] == trace[i + 1]);
        }
        lemma_no_resolution_times_out(trace.drop_first());
    }
}

/// An address that a session finds is the first IPv4 address of a service
/// that was resolved within the window, and nothing before that event ended
/// the session.
pub proof fn lemma_found_within_window(trace: Seq<Observed>) -> (at: int)
    requires
        session(trace) is Ok,
    ensures
        0 <= at < trace.len(),
        trace[at].elapsed_ms < WINDOW_MS,
        trace[at].event matches DiscoveryEvent::Resolved(candidates) && first_v4(candidates@)
            matches Some(octets) && session(trace) == Ok::<Seq<char>, DiscoveryError>(
            dotted_quad(octets),
        ),
        forall|i: int|
            0 <= i < at ==> (#[trigger] decision(trace[i].elapsed_ms, trace[i].event)) is Wait,
    decreases trace.len(),
{
    match decision(trace[0].elapsed_ms, trace[0].event) {
        DiscoveryView::Found(_) => 0,
        DiscoveryView::Failed(_) => 0,
        DiscoveryView::Wait { .. } => {
            let rest = trace.drop_first();
            let at = lemma_found_within_window(rest);
            assert(rest[at] == trace[at + 1]);
            assert forall|i: int| 0 <= i < at + 1 implies (#[trigger] decision(
                trace[i].elapsed_ms,
                trace[i].event,
            )) is Wait by {
                if i > 0 {
                    assert(rest[i - 1] == trace[i]);
                    assert(decision(rest[i - 1].elapsed_ms, rest[i - 1].event) is Wait);
                }
            }
            at + 1
        },
    }
}

} // verus!
