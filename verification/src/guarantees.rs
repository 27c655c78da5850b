//! What holds of every run of the scheduler, proved from its transition
//! function.

use vstd::prelude::*;
use crate::address::Ipv4Address;
use crate::client::{Credential, ServiceError};
use crate::resolver::ResolutionError;
use crate::scheduler::{
    elapsed, Action, Event, Failure, Phase, Scheduler, UpdateState, STALENESS_NANOS,
    TICK_INTERVAL_SECS,
};
use crate::store::{Artifact, StoreError};

verus! {

/// The address and the time of the last update are set together or not at
/// all.
pub proof fn address_and_time_are_set_together(state: UpdateState)
    ensures
        state.last_address() is Some <==> state.last_update() is Some,
        state == UpdateState::Unset <==> state.last_address() is None,
{
}

/// A step is taken exactly where the current phase expects the event; an
/// event that it does not expect changes nothing.
pub proof fn unexpected_event_changes_nothing(s: Scheduler, event: Event, now: u128)
    ensures
        s.next(event, now).1 is Some <==> s.expects(event),
        !s.expects(event) ==> s.next(event, now).0 == s,
{
}

/// The step that observes the machine's address is decided by the
/// update-warranted predicate alone: the service is contacted for that address
/// if and only if an update is warranted, and otherwise the tick ends. Either
/// way the update state stays as it was.
pub proof fn observation_is_evaluated(s: Scheduler, event: Event, address: Ipv4Address, now: u128)
    requires
        s.observes(event, address),
    ensures
        s.next(event, now) == s.evaluated(address, now),
        s.state.warrants(address, now) <==> s.next(event, now).1 == Some(
            Action::Contact { address },
        ),
        !s.state.warrants(address, now) <==> s.next(event, now).1 == Some(
            Action::Wait { seconds: TICK_INTERVAL_SECS },
        ),
        s.next(event, now).0.state == s.state,
{
}

/// A tick that finds the registered address again, less than 24 hours after
/// it was registered, contacts nobody and leaves the update state as it was.
pub proof fn unchanged_address_within_a_day_is_a_quiet_tick(
    s: Scheduler,
    event: Event,
    address: Ipv4Address,
    at: u128,
    now: u128,
)
    requires
        s.observes(event, address),
        s.state == (UpdateState::Registered { address, at }),
        elapsed(at, now) < STALENESS_NANOS,
    ensures
        s.next(event, now) == (s.at_rest(), Some(Action::Wait { seconds: TICK_INTERVAL_SECS })),
        s.at_rest().state == s.state,
{
}

/// While nothing is registered, every observed address warrants an update,
/// whatever the clock reads.
pub proof fn first_observation_forces_an_update(
    s: Scheduler,
    event: Event,
    address: Ipv4Address,
    now: u128,
)
    requires
        s.observes(event, address),
        s.state == UpdateState::Unset,
    ensures
        s.state.warrants(address, now),
        s.next(event, now) == (
            s.entering(Phase::Contacting { address }),
            Some(Action::Contact { address }),
        ),
{
}

/// An observed address that differs from the registered one warrants an
/// update, however recent the registration.
pub proof fn changed_address_forces_an_update(
    s: Scheduler,
    event: Event,
    registered: Ipv4Address,
    at: u128,
    observed: Ipv4Address,
    now: u128,
)
    requires
        s.state == (UpdateState::Registered { address: registered, at }),
        s.observes(event, observed),
        observed != registered,
    ensures
        s.state.warrants(observed, now),
        s.next(event, now) == (
            s.entering(Phase::Contacting { address: observed }),
            Some(Action::Contact { address: observed }),
        ),
{
}

/// A registration that is 24 hours old or older warrants an update, even for
/// the same address.
pub proof fn stale_registration_forces_an_update(
    s: Scheduler,
    event: Event,
    registered: Ipv4Address,
    at: u128,
    observed: Ipv4Address,
    now: u128,
)
    requires
        s.state == (UpdateState::Registered { address: registered, at }),
        s.observes(event, observed),
        elapsed(at, now) >= STALENESS_NANOS,
    ensures
        s.state.warrants(observed, now),
        s.next(event, now) == (
            s.entering(Phase::Contacting { address: observed }),
            Some(Action::Contact { address: observed }),
        ),
{
}

/// Once an update is warranted for an address it stays warranted for that
/// address as the clock advances, for as long as the update state stays the
/// same.
pub proof fn warranted_update_stays_warranted(
    state: UpdateState,
    address: Ipv4Address,
    now: u128,
    later: u128,
)
    requires
        state.warrants(address, now),
        now <= later,
    ensures
        state.warrants(address, later),
{
}

/// A failed exchange with the service ends the tick with the update state
/// exactly as it was, and hands the failure out to be logged before the next
/// tick.
pub proof fn failed_exchange_changes_nothing(s: Scheduler, error: ServiceError, now: u128)
    requires
        s.phase is Contacting,
    ensures
        s.next(Event::Replied(Err(error)), now) == (
            s.at_rest(),
            Some(Action::Retry { failure: Failure::Service(error), seconds: TICK_INTERVAL_SECS }),
        ),
        s.at_rest().state == s.state,
{
}

/// After a tick whose exchange with the service failed, the next tick that
/// observes the same address contacts the service again.
///
/// The first tick goes from `before`, which observes `address` by `observed`
/// at `now`, through the failed exchange reported at `failed_at`. The next
/// tick reaches `after`, which holds the update state that the first tick
/// left behind and observes `address` by `again` at `later`.
pub proof fn failed_exchange_is_retried_on_the_next_tick(
    before: Scheduler,
    observed: Event,
    address: Ipv4Address,
    now: u128,
    error: ServiceError,
    failed_at: u128,
    after: Scheduler,
    again: Event,
    later: u128,
)
    requires
        before.observes(observed, address),
        before.state.warrants(address, now),
        now <= later,
        after.state == before.next(observed, now).0.next(
            Event::Replied(Err(error)),
            failed_at,
        ).0.state,
        after.observes(again, address),
    ensures
        before.next(observed, now).1 == Some(Action::Contact { address }),
        after.state == before.state,
        after.next(again, later) == (
            after.entering(Phase::Contacting { address }),
            Some(Action::Contact { address }),
        ),
{
}

/// A failed resolution ends the tick without a call to the service and with
/// the update state exactly as it was.
pub proof fn failed_resolution_changes_nothing(s: Scheduler, error: ResolutionError, now: u128)
    requires
        s.phase == Phase::Resolving,
    ensures
        s.next(Event::Resolved(Err(error)), now) == (
            s.at_rest(),
            Some(
                Action::Retry { failure: Failure::Resolution(error), seconds: TICK_INTERVAL_SECS },
            ),
        ),
        s.at_rest().state == s.state,
{
}

/// The certificate is written first and the key second, each exactly as the
/// service issued it, and the key only after the certificate's write
/// succeeded. Neither step touches the update state.
pub proof fn certificate_is_written_before_key(
    s: Scheduler,
    credential: Credential,
    replied_at: u128,
    written_at: u128,
)
    requires
        s.phase is Contacting,
    ensures
        ({
            let (storing, first) = s.next(Event::Replied(Ok(credential)), replied_at);
            let (finishing, second) = storing.next(Event::Written(Ok(())), written_at);
            &&& first == Some(
                Action::Write { artifact: Artifact::Certificate, text: credential.certificate },
            )
            &&& second == Some(Action::Write { artifact: Artifact::Key, text: credential.key })
            &&& finishing.phase == (Phase::StoringKey { address: s.phase.address()->0 })
            &&& finishing.state == s.state
        }),
{
}

/// A failed write of the certificate or of the key ends the process, names
/// the file that failed, and leaves the update state exactly as it was.
pub proof fn failed_write_is_fatal(s: Scheduler, detail: String, now: u128)
    requires
        s.phase is StoringCertificate || s.phase is StoringKey,
    ensures
        ({
            let artifact = if s.phase is StoringCertificate {
                Artifact::Certificate
            } else {
                Artifact::Key
            };
            let failure = Failure::Store(StoreError { artifact, detail });
            &&& s.next(Event::Written(Err(detail)), now) == (
                s.at_rest(),
                Some(Action::Terminate { failure }),
            )
            &&& failure.fatal()
            &&& s.at_rest().state == s.state
        }),
{
}

/// A tick in which resolution and the exchange succeed but a write fails
/// ends the process with the update state that the tick started with,
/// whichever of the two writes it was.
pub proof fn failed_write_after_successful_exchange_registers_nothing(
    s: Scheduler,
    observed: Event,
    address: Ipv4Address,
    now: u128,
    credential: Credential,
    replied_at: u128,
    key_failed: bool,
    written_at: u128,
    detail: String,
    failed_at: u128,
)
    requires
        s.observes(observed, address),
        s.state.warrants(address, now),
    ensures
        ({
            let contacting = s.next(observed, now).0;
            let storing = contacting.next(Event::Replied(Ok(credential)), replied_at).0;
            let failing = if key_failed {
                storing.next(Event::Written(Ok(())), written_at).0
            } else {
                storing
            };
            let artifact = if key_failed {
                Artifact::Key
            } else {
                Artifact::Certificate
            };
            let (last, action) = failing.next(Event::Written(Err(detail)), failed_at);
            &&& action == Some(
                Action::Terminate { failure: Failure::Store(StoreError { artifact, detail }) },
            )
            &&& last.state == s.state
        }),
{
}

/// A tick in which resolution, the exchange and both writes succeed
/// registers the observed address with the clock's reading at the end of the
/// second write, and ends the tick.
pub proof fn successful_tick_registers_the_observed_address(
    s: Scheduler,
    observed: Event,
    address: Ipv4Address,
    now: u128,
    credential: Credential,
    replied_at: u128,
    certificate_at: u128,
    key_at: u128,
)
    requires
        s.observes(observed, address),
        s.state.warrants(address, now),
    ensures
        ({
            let contacting = s.next(observed, now).0;
            let storing = contacting.next(Event::Replied(Ok(credential)), replied_at).0;
            let finishing = storing.next(Event::Written(Ok(())), certificate_at).0;
            let (last, action) = finishing.next(Event::Written(Ok(())), key_at);
            &&& action == Some(Action::Wait { seconds: TICK_INTERVAL_SECS })
            &&& last.phase == Phase::Idle
            &&& last.state == (UpdateState::Registered { address, at: key_at })
            &&& last.fixed_address == s.fixed_address
        }),
{
}

/// The update state changes in one step only: when the key's write succeeds.
/// It then holds the address that was sent to the service in this tick and
/// the clock's reading at that step.
pub proof fn state_changes_only_when_key_is_written(s: Scheduler, event: Event, now: u128)
    ensures
        ({
            let after = s.next(event, now).0;
            if s.phase is StoringKey && event matches Event::Written(Ok(_)) {
                after.state == (UpdateState::Registered {
                    address: s.phase.address()->0,
                    at: now,
                })
            } else {
                after.state == s.state
            }
        }),
{
}

/// The service is contacted in one step only: the one that observes an
/// address for which an update is warranted.
pub proof fn service_is_contacted_only_when_warranted(
    s: Scheduler,
    event: Event,
    now: u128,
    address: Ipv4Address,
)
    requires
        s.next(event, now).1 == Some(Action::Contact { address }),
    ensures
        s.observes(event, address),
        s.state.warrants(address, now),
{
}

/// The process is ended over fatal failures only, and a tick is retried over
/// the others only.
pub proof fn only_fatal_failures_terminate(s: Scheduler, event: Event, now: u128)
    ensures
        s.next(event, now).1 matches Some(Action::Terminate { failure }) ==> failure.fatal(),
        s.next(event, now).1 matches Some(Action::Retry { failure, .. }) ==> !failure.fatal(),
{
}

/// Each action that closes a tick leaves the scheduler between ticks and
/// names the fixed interval; each other action leaves it in the phase that
/// waits for that action's report.
pub proof fn phase_follows_action(s: Scheduler, event: Event, now: u128)
    requires
        s.expects(event),
    ensures
        ({
            let (after, action) = s.next(event, now);
            match action->0 {
                Action::Resolve => after.phase == Phase::Resolving,
                Action::Contact { address } => after.phase == (Phase::Contacting { address }),
                Action::Write { artifact: Artifact::Certificate, .. } => after.phase
                    is StoringCertificate,
                Action::Write { artifact: Artifact::Key, .. } => after.phase is StoringKey,
                Action::Wait { seconds } => after.phase == Phase::Idle && seconds
                    == TICK_INTERVAL_SECS,
                Action::Retry { seconds, .. } => after.phase == Phase::Idle && seconds
                    == TICK_INTERVAL_SECS,
                Action::Terminate { .. } => after.phase == Phase::Idle,
            }
        }),
{
}

/// A scheduler that honours the operator's fixed address does so after every
/// step, and no step changes the fixed address.
pub proof fn fixed_address_is_always_honoured(s: Scheduler, event: Event, now: u128)
    requires
        s.honours_fixed_address(),
    ensures
        s.next(event, now).0.honours_fixed_address(),
        s.next(event, now).0.fixed_address == s.fixed_address,
{
}

} // verus!
