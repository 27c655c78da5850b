//! The update scheduler: when to contact the service, and what each outcome
//! of outside work leads to.
//!
//! The scheduler performs no outside work itself. It is a state machine that a
//! driver runs: the driver hands it an [`Event`] with the reading of a
//! monotonic clock, and performs the [`Action`] that comes back. One tick is
//! the chain of steps from [`Event::Tick`] to the next [`Action::Wait`],
//! [`Action::Retry`] or [`Action::Terminate`].

use vstd::prelude::*;
use vstd::string::StringExecFns;
use crate::address::Ipv4Address;
use crate::client::{Credential, ServiceError};
use crate::resolver::ResolutionError;
use crate::store::{Artifact, StoreError};

verus! {

/// Nanoseconds after which a registration is stale: 24 hours.
pub const STALENESS_NANOS: u128 = 86_400_000_000_000;

/// Seconds between the end of one tick and the start of the next.
pub const TICK_INTERVAL_SECS: u64 = 60;

/// What the scheduler knows of the last successful update.
///
/// The address and the time are set together or not at all.
#[derive(Clone, Copy, Debug, PartialEq, Eq, Structural)]
pub enum UpdateState {
    /// No update has succeeded since the process started.
    Unset,
    /// `address` was registered, and its credential stored, at `at`
    /// (nanoseconds on the monotonic clock).
    Registered { address: Ipv4Address, at: u128 },
}

/// Nanoseconds that have passed at `now` since `since`; zero where the clock
/// reads earlier than `since`.
pub open spec fn elapsed(since: u128, now: u128) -> nat {
    if now >= since {
        (now - since) as nat
    } else {
        0
    }
}

impl UpdateState {
    /// The address of the last successful update.
    pub open spec fn last_address(self) -> Option<Ipv4Address> {
        match self {
            UpdateState::Unset => None,
            UpdateState::Registered { address, .. } => Some(address),
        }
    }

    /// The time of the last successful update.
    pub open spec fn last_update(self) -> Option<u128> {
        match self {
            UpdateState::Unset => None,
            UpdateState::Registered { at, .. } => Some(at),
        }
    }

    /// Whether an update is warranted when `address` is observed at `now`:
    /// nothing was registered yet, or another address was, or the
    /// registration is at least 24 hours old.
    pub open spec fn warrants(self, address: Ipv4Address, now: u128) -> bool {
        match self {
            UpdateState::Unset => true,
            UpdateState::Registered { address: last, at } => last != address || elapsed(at, now)
                >= STALENESS_NANOS,
        }
    }

    /// The address of the last successful update, if there was one.
    pub fn address(&self) -> (address: Option<Ipv4Address>)
        ensures
            address == self.last_address(),
    {
        match self {
            UpdateState::Unset => None,
            UpdateState::Registered { address, .. } => Some(*address),
        }
    }

    /// The time of the last successful update, if there was one.
    pub fn updated_at(&self) -> (at: Option<u128>)
        ensures
            at == self.last_update(),
    {
        match self {
            UpdateState::Unset => None,
            UpdateState::Registered { at, .. } => Some(*at),
        }
    }

    /// Decides whether observing `address` at `now` warrants an update.
    pub fn update_warranted(&self, address: Ipv4Address, now: u128) -> (warranted: bool)
        ensures
            warranted == self.warrants(address, now),
    {
        match self {
            UpdateState::Unset => true,
            UpdateState::Registered { address: last, at } => {
                if *last != address {
                    true
                } else if now >= *at {
                    now - *at >= STALENESS_NANOS
                } else {
                    false
                }
            },
        }
    }
}

/// Where a tick stands.
///
/// Deciding whether an update is warranted takes no outside work, so it is no
/// phase of its own: it is part of the step that observes the address.
#[derive(Debug, PartialEq, Eq)]
pub enum Phase {
    /// Between ticks.
    Idle,
    /// The driver is determining the machine's address.
    Resolving,
    /// The driver is registering `address` with the service.
    Contacting { address: Ipv4Address },
    /// The driver is writing the certificate issued for `address`; `key` is
    /// written next.
    StoringCertificate { address: Ipv4Address, key: String },
    /// The driver is writing the key issued for `address`.
    StoringKey { address: Ipv4Address },
}

impl Phase {
    /// The address that the tick in this phase is registering, if it has one.
    pub open spec fn address(self) -> Option<Ipv4Address> {
        match self {
            Phase::Idle => None,
            Phase::Resolving => None,
            Phase::Contacting { address } => Some(address),
            Phase::StoringCertificate { address, .. } => Some(address),
            Phase::StoringKey { address } => Some(address),
        }
    }
}

/// What the driver reports to the scheduler.
#[derive(Debug, PartialEq, Eq)]
pub enum Event {
    /// A tick begins: the process has just started, or the interval has passed.
    Tick,
    /// The address resolver has finished.
    Resolved(Result<Ipv4Address, ResolutionError>),
    /// The exchange with the service has finished.
    Replied(Result<Credential, ServiceError>),
    /// The write last asked for has finished; an error holds the system's
    /// message.
    Written(Result<(), String>),
}

/// A failed step of a tick.
#[derive(Debug, PartialEq, Eq)]
pub enum Failure {
    Resolution(ResolutionError),
    Service(ServiceError),
    Store(StoreError),
}

impl Failure {
    /// Whether the process cannot go on after this failure. Only a failed
    /// write is fatal; everything else is tried again on the next tick.
    pub open spec fn fatal(self) -> bool {
        self is Store
    }

    /// What went wrong, in words: the step that failed, then its error.
    pub open spec fn description(self) -> Seq<char> {
        match self {
            Failure::Resolution(error) => "Could not determine local IP address: "@
                + error.description(),
            Failure::Service(error) => "Error while talking to selfserv.net: "@
                + error.description(),
            Failure::Store(error) => error.description(),
        }
    }

    /// A message for the log.
    pub fn describe(&self) -> (text: String)
        ensures
            text@ == self.description(),
    {
        match self {
            Failure::Resolution(error) => {
                let mut text = String::from_str("Could not determine local IP address: ");
                text.append(error.describe().as_str());
                text
            },
            Failure::Service(error) => {
                let mut text = String::from_str("Error while talking to selfserv.net: ");
                text.append(error.describe().as_str());
                text
            },
            Failure::Store(error) => error.describe(),
        }
    }

    /// Decides whether the process cannot go on after this failure.
    pub fn is_fatal(&self) -> (fatal: bool)
        ensures
            fatal == self.fatal(),
    {
        match self {
            Failure::Store(_) => true,
            _ => false,
        }
    }
}

/// What the driver is to do next.
#[derive(Debug, PartialEq, Eq)]
pub enum Action {
    /// Determine the machine's address, then report [`Event::Resolved`].
    Resolve,
    /// Register `address` with the service, then report [`Event::Replied`].
    Contact { address: Ipv4Address },
    /// Overwrite the file of `artifact` with `text`, then report
    /// [`Event::Written`].
    Write { artifact: Artifact, text: String },
    /// The tick is over. Sleep for `seconds`, then report [`Event::Tick`].
    Wait { seconds: u64 },
    /// The tick failed. Log `failure`, sleep for `seconds`, then report
    /// [`Event::Tick`].
    Retry { failure: Failure, seconds: u64 },
    /// The process cannot go on. Log `failure` and exit.
    Terminate { failure: Failure },
}

/// The scheduler: the operator's fixed address, if one was configured, the
/// update state, and the phase of the current tick.
#[derive(Debug, PartialEq, Eq)]
pub struct Scheduler {
    pub fixed_address: Option<Ipv4Address>,
    pub state: UpdateState,
    pub phase: Phase,
}

impl Scheduler {
    /// This scheduler between ticks, with its update state untouched.
    pub open spec fn at_rest(self) -> Scheduler {
        Scheduler { phase: Phase::Idle, ..self }
    }

    /// This scheduler in `phase`, with its update state untouched.
    pub open spec fn entering(self, phase: Phase) -> Scheduler {
        Scheduler { phase, ..self }
    }

    /// Whether `event` is the one by which this scheduler learns that the
    /// machine's address is `address`: the start of a tick where that address
    /// is fixed, the resolver's success where none is.
    pub open spec fn observes(self, event: Event, address: Ipv4Address) -> bool {
        ||| self.phase == Phase::Idle && event == Event::Tick && self.fixed_address == Some(
            address,
        )
        ||| self.phase == Phase::Resolving && event == (Event::Resolved(Ok(address)))
    }

    /// Whether this scheduler honours the operator's fixed address: where one
    /// is configured, nothing is ever resolved, and no other address is
    /// contacted, stored for, or registered.
    pub open spec fn honours_fixed_address(self) -> bool {
        match self.fixed_address {
            Some(fixed) => {
                &&& self.phase != Phase::Resolving
                &&& self.phase.address() matches Some(address) ==> address == fixed
                &&& self.state.last_address() matches Some(address) ==> address == fixed
            },
            None => true,
        }
    }

    /// Whether the current phase expects `event`.
    pub open spec fn expects(self, event: Event) -> bool {
        match self.phase {
            Phase::Idle => event is Tick,
            Phase::Resolving => event is Resolved,
            Phase::Contacting { .. } => event is Replied,
            Phase::StoringCertificate { .. } => event is Written,
            Phase::StoringKey { .. } => event is Written,
        }
    }

    /// The step taken once the machine's address is known to be `address` at
    /// `now`: contact the service if an update is warranted, else end the tick.
    pub open spec fn evaluated(self, address: Ipv4Address, now: u128) -> (Scheduler, Option<
        Action,
    >) {
        if self.state.warrants(address, now) {
            (self.entering(Phase::Contacting { address }), Some(Action::Contact { address }))
        } else {
            (self.at_rest(), Some(Action::Wait { seconds: TICK_INTERVAL_SECS }))
        }
    }

    /// The step that abandons the tick over a failure that the next tick may
    /// not meet again.
    pub open spec fn abandoned(self, failure: Failure) -> (Scheduler, Option<Action>) {
        (self.at_rest(), Some(Action::Retry { failure, seconds: TICK_INTERVAL_SECS }))
    }

    /// The step that gives up over a failed write of `artifact`.
    pub open spec fn halted(self, artifact: Artifact, detail: String) -> (Scheduler, Option<
        Action,
    >) {
        (
            self.at_rest(),
            Some(Action::Terminate { failure: Failure::Store(StoreError { artifact, detail }) }),
        )
    }

    /// The step that records a successful update of `address` at `now` and
    /// ends the tick.
    pub open spec fn committed(self, address: Ipv4Address, now: u128) -> (Scheduler, Option<
        Action,
    >) {
        (
            Scheduler {
                state: UpdateState::Registered { address, at: now },
                phase: Phase::Idle,
                ..self
            },
            Some(Action::Wait { seconds: TICK_INTERVAL_SECS }),
        )
    }

    /// The transition function: the scheduler after `event` at `now`, and the
    /// action that the driver is to perform. Where the current phase does not
    /// expect `event`, the scheduler is unchanged and there is no action.
    pub open spec fn next(self, event: Event, now: u128) -> (Scheduler, Option<Action>) {
        match (self.phase, event) {
            (Phase::Idle, Event::Tick) => match self.fixed_address {
                Some(address) => self.evaluated(address, now),
                None => (self.entering(Phase::Resolving), Some(Action::Resolve)),
            },
            (Phase::Resolving, Event::Resolved(Ok(address))) => self.evaluated(
                address,
                now,
            ),
            (Phase::Resolving, Event::Resolved(Err(error))) => self.abandoned(
                Failure::Resolution(error),
            ),
            (Phase::Contacting { address }, Event::Replied(Ok(credential))) => (
                self.entering(Phase::StoringCertificate { address, key: credential.key }),
                Some(
                    Action::Write { artifact: Artifact::Certificate, text: credential.certificate },
                ),
            ),
            (Phase::Contacting { .. }, Event::Replied(Err(error))) => self.abandoned(
                Failure::Service(error),
            ),
            (Phase::StoringCertificate { address, key }, Event::Written(Ok(_))) => (
                self.entering(Phase::StoringKey { address }),
                Some(Action::Write { artifact: Artifact::Key, text: key }),
            ),
            (
                Phase::StoringCertificate { .. },
                Event::Written(Err(detail)),
            ) => self.halted(Artifact::Certificate, detail),
            (Phase::StoringKey { address }, Event::Written(Ok(_))) => self.committed(
                address,
                now,
            ),
            (Phase::StoringKey { .. }, Event::Written(Err(detail))) => self.halted(
                Artifact::Key,
                detail,
            ),
            _ => (self, None),
        }
    }

    /// A scheduler at process start: between ticks, with nothing registered.
    pub fn new(fixed_address: Option<Ipv4Address>) -> (scheduler: Scheduler)
        ensures
            scheduler == (Scheduler {
                fixed_address,
                state: UpdateState::Unset,
                phase: Phase::Idle,
            }),
            scheduler.honours_fixed_address(),
    {
        Scheduler { fixed_address, state: UpdateState::Unset, phase: Phase::Idle }
    }

    /// Decides what follows once the machine's address is known.
    fn evaluate(self, address: Ipv4Address, now: u128) -> (step: (Scheduler, Option<Action>))
        ensures
            step == self.evaluated(address, now),
    {
        if self.state.update_warranted(address, now) {
            (
                Scheduler {
                    fixed_address: self.fixed_address,
                    state: self.state,
                    phase: Phase::Contacting { address },
                },
                Some(Action::Contact { address }),
            )
        } else {
            (
                Scheduler {
                    fixed_address: self.fixed_address,
                    state: self.state,
                    phase: Phase::Idle,
                },
                Some(Action::Wait { seconds: TICK_INTERVAL_SECS }),
            )
        }
    }

    /// Takes one step: the scheduler after `event` at `now`, and the action
    /// that the driver is to perform. Where the current phase does not expect
    /// `event`, the scheduler comes back unchanged and there is no action.
    pub fn step(self, event: Event, now: u128) -> (step: (Scheduler, Option<Action>))
        ensures
            step == self.next(event, now),
            step.1 is Some <==> self.expects(event),
            self.honours_fixed_address() ==> step.0.honours_fixed_address(),
    {
        let fixed_address = self.fixed_address;
        let state = self.state;
        match self.phase {
            Phase::Idle => match event {
                Event::Tick => match fixed_address {
                    Some(address) => Scheduler {
                        fixed_address,
                        state,
                        phase: Phase::Idle,
                    }.evaluate(address, now),
                    None => (
                        Scheduler { fixed_address, state, phase: Phase::Resolving },
                        Some(Action::Resolve),
                    ),
                },
                _ => (Scheduler { fixed_address, state, phase: Phase::Idle }, None),
            },
            Phase::Resolving => match event {
                Event::Resolved(Ok(address)) => Scheduler {
                    fixed_address,
                    state,
                    phase: Phase::Resolving,
                }.evaluate(address, now),
                Event::Resolved(Err(error)) => (
                    Scheduler { fixed_address, state, phase: Phase::Idle },
                    Some(
                        Action::Retry {
                            failure: Failure::Resolution(error),
                            seconds: TICK_INTERVAL_SECS,
                        },
                    ),
                ),
                _ => (Scheduler { fixed_address, state, phase: Phase::Resolving }, None),
            },
            Phase::Contacting { address } => match event {
                Event::Replied(Ok(credential)) => (
                    Scheduler {
                        fixed_address,
                        state,
                        phase: Phase::StoringCertificate { address, key: credential.key },
                    },
                    Some(
                        Action::Write {
                            artifact: Artifact::Certificate,
                            text: credential.certificate,
                        },
                    ),
                ),
                Event::Replied(Err(error)) => (
                    Scheduler { fixed_address, state, phase: Phase::Idle },
                    Some(
                        Action::Retry {
                            failure: Failure::Service(error),
                            seconds: TICK_INTERVAL_SECS,
                        },
                    ),
                ),
                _ => (Scheduler { fixed_address, state, phase: Phase::Contacting { address } }, None),
            },
            Phase::StoringCertificate { address, key } => match event {
                Event::Written(Ok(_)) => (
                    Scheduler { fixed_address, state, phase: Phase::StoringKey { address } },
                    Some(Action::Write { artifact: Artifact::Key, text: key }),
                ),
                Event::Written(Err(detail)) => (
                    Scheduler { fixed_address, state, phase: Phase::Idle },
                    Some(
                        Action::Terminate {
                            failure: Failure::Store(
                                StoreError { artifact: Artifact::Certificate, detail },
                            ),
                        },
                    ),
                ),
                _ => (
                    Scheduler {
                        fixed_address,
                        state,
                        phase: Phase::StoringCertificate { address, key },
                    },
                    None,
                ),
            },
            Phase::StoringKey { address } => match event {
                Event::Written(Ok(_)) => (
                    Scheduler {
                        fixed_address,
                        state: UpdateState::Registered { address, at: now },
                        phase: Phase::Idle,
                    },
                    Some(Action::Wait { seconds: TICK_INTERVAL_SECS }),
                ),
                Event::Written(Err(detail)) => (
                    Scheduler { fixed_address, state, phase: Phase::Idle },
                    Some(
                        Action::Terminate {
                            failure: Failure::Store(StoreError { artifact: Artifact::Key, detail }),
                        },
                    ),
                ),
                _ => (Scheduler { fixed_address, state, phase: Phase::StoringKey { address } }, None),
            },
        }
    }
}

} // verus!
