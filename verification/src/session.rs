//! The life of the peripheral: advertise, run one session, advertise again.
//!
//! A session is the event pump and the notifier of one connection, run side
//! by side; it ends as soon as either of them finishes, and the peripheral
//! then advertises again whatever the cause. Errors on the advertising path,
//! a refused bonding flag and an error of the host's run loop are not
//! retried: they halt the device.

use crate::gatt::{PumpEvent, PumpState};
use crate::security::BondTracker;
use trouble_host::BondInformation;
use vstd::prelude::*;

verus! {

/// Where the peripheral stands.
#[derive(Debug, Clone, Copy, PartialEq, Eq, Structural)]
pub enum Phase {
    /// Advertising, waiting for a central to connect.
    Advertising,
    /// One connection is live and its session is running.
    Connected,
    /// A fatal error stopped the device.
    Halted,
}

/// Which of the two tasks of a session finished first.
#[derive(Debug, Clone, Copy, PartialEq, Eq, Structural)]
pub enum Ended {
    /// The event pump: the link closed, or one of its requests failed.
    EventPump,
    /// The notifier: a notification could not be delivered.
    Notifier,
}

/// Errors that stop the device.
#[derive(Debug, Clone, Copy, PartialEq, Eq, Structural)]
pub enum Fatal {
    /// The payload could not be built, or the host failed to advertise or
    /// to accept.
    Advertising,
    /// The host refused to set the bonding flag of a new connection.
    Bonding,
    /// The run loop of the host returned an error.
    Runner,
}

/// What the host reports to the peripheral.
#[derive(Debug, Clone, Copy, PartialEq, Eq, Structural)]
pub enum HostEvent {
    /// A central connected and the link is bound to the attribute server.
    Accepted,
    /// Building the payload, advertising or accepting failed.
    AdvertisingFailed,
    /// The bonding flag of the new connection could not be set.
    BondableRefused,
    /// One task of the session finished; the other one is cancelled.
    SessionEnded(Ended),
    /// The run loop of the host returned.
    RunnerReturned { failed: bool },
}

/// What the peripheral asks of its driver next.
#[derive(Debug, Clone, Copy, PartialEq, Eq, Structural)]
pub enum HostAction {
    /// Build the payload, advertise, and wait for a central.
    Advertise,
    /// Set the bonding flag of the new connection, then run the event pump
    /// and the notifier until the first of them finishes.
    RunSession { bondable: bool },
    /// Run the loop of the host again.
    RestartRunner,
    /// Report the error and stop.
    Halt(Fatal),
    /// Nothing to do.
    Nothing,
}

impl Phase {
    /// The phase and the request that follow one event. `bonded` says
    /// whether a bond is held at that moment.
    pub open spec fn next(self, event: HostEvent, bonded: bool) -> (Phase, HostAction) {
        match (self, event) {
            (_, HostEvent::RunnerReturned { failed }) => runner_policy(self, failed),
            (Phase::Advertising, HostEvent::Accepted) => (
                Phase::Connected,
                HostAction::RunSession { bondable: !bonded },
            ),
            (Phase::Advertising, HostEvent::AdvertisingFailed) => (
                Phase::Halted,
                HostAction::Halt(Fatal::Advertising),
            ),
            (Phase::Connected, HostEvent::BondableRefused) => (
                Phase::Halted,
                HostAction::Halt(Fatal::Bonding),
            ),
            (Phase::Connected, HostEvent::SessionEnded(_)) => (
                Phase::Advertising,
                HostAction::Advertise,
            ),
            _ => (self, HostAction::Nothing),
        }
    }
}

/// What follows when the run loop of the host returns, in whatever phase:
/// an error halts the device, anything else means running the loop again
/// and leaves the phase as it is.
pub open spec fn runner_policy(phase: Phase, failed: bool) -> (Phase, HostAction) {
    if failed {
        (Phase::Halted, HostAction::Halt(Fatal::Runner))
    } else {
        (phase, HostAction::RestartRunner)
    }
}

/// The peripheral: one connection at a time, for as long as the device runs.
pub struct Peripheral {
    phase: Phase,
}

impl View for Peripheral {
    type V = Phase;

    closed spec fn view(&self) -> Phase {
        self.phase
    }
}

impl Peripheral {
    /// The peripheral at boot: it asks at once to advertise.
    pub fn start() -> (r: (Peripheral, HostAction))
        ensures
            r.0@ == Phase::Advertising,
            r.1 == HostAction::Advertise,
    {
        (Peripheral { phase: Phase::Advertising }, HostAction::Advertise)
    }

    /// Where the peripheral stands.
    pub fn phase(&self) -> (phase: Phase)
        ensures
            phase == self@,
    {
        self.phase
    }

    /// Takes the peripheral one event further and says what to do next.
    /// A connection that is accepted may bond exactly when `bonds` holds no
    /// bond.
    pub fn step(&mut self, event: HostEvent, bonds: &BondTracker) -> (action: HostAction)
        ensures
            (final(self)@, action) == old(self)@.next(event, bonds@ is Some),
    {
        if let HostEvent::RunnerReturned { failed } = event {
            return self.runner_returned(failed);
        }
        match self.phase {
            Phase::Halted => HostAction::Nothing,
            Phase::Advertising => match event {
                HostEvent::Accepted => {
                    self.phase = Phase::Connected;
                    HostAction::RunSession { bondable: bonds.bondable() }
                },
                HostEvent::AdvertisingFailed => {
                    self.phase = Phase::Halted;
                    HostAction::Halt(Fatal::Advertising)
                },
                _ => HostAction::Nothing,
            },
            Phase::Connected => match event {
                HostEvent::BondableRefused => {
                    self.phase = Phase::Halted;
                    HostAction::Halt(Fatal::Bonding)
                },
                HostEvent::SessionEnded(_) => {
                    self.phase = Phase::Advertising;
                    HostAction::Advertise
                },
                _ => HostAction::Nothing,
            },
        }
    }

    /// The run loop of the host returned: an error is fatal, anything else
    /// means running it again.
    pub fn runner_returned(&mut self, failed: bool) -> (action: HostAction)
        ensures
            (final(self)@, action) == runner_policy(old(self)@, failed),
    {
        if failed {
            self.phase = Phase::Halted;
            HostAction::Halt(Fatal::Runner)
        } else {
            HostAction::RestartRunner
        }
    }
}

/// Without a bond the connection that is accepted next may bond; with a
/// bond it may not.
pub proof fn accepted_connection_bonds_only_without_bond(bonded: bool)
    ensures
        Phase::Advertising.next(HostEvent::Accepted, bonded) == (
            Phase::Connected,
            HostAction::RunSession { bondable: !bonded },
        ),
{
}

/// What a pairing leaves in the bond slot decides the next connection: if
/// the pairing that an active pump saw complete came with bond material, the
/// connection accepted after it may not bond; if it came without, it may.
pub proof fn pairing_decides_next_connection(
    held: Option<BondInformation>,
    security_level: crate::security::SecurityLevel,
    bond: Option<BondInformation>,
)
    ensures
        ({
            let slot = PumpState::Active.bond_after(
                PumpEvent::PairingComplete { security_level, bond },
                held,
            );
            Phase::Advertising.next(HostEvent::Accepted, slot is Some).1
                == HostAction::RunSession { bondable: bond is None }
        }),
{
}

/// When a session ends, the peripheral advertises again, whichever task
/// finished first and whatever the bond slot holds.
pub proof fn ended_session_returns_to_advertising(ended: Ended, bonded: bool)
    ensures
        Phase::Connected.next(HostEvent::SessionEnded(ended), bonded) == (
            Phase::Advertising,
            HostAction::Advertise,
        ),
{
}

/// There is never a second session beside a live one: while connected, a
/// further accept is ignored, and a session is started only out of
/// advertising.
pub proof fn one_connection_at_a_time(phase: Phase, event: HostEvent, bonded: bool)
    ensures
        phase.next(event, bonded).1 is RunSession <==> (phase == Phase::Advertising && event
            == HostEvent::Accepted),
        phase.next(event, bonded).0 == Phase::Connected ==> (phase == Phase::Connected || event
            == HostEvent::Accepted),
{
}

/// Whenever the run loop of the host returns with an error the device
/// halts, and whenever it returns without one it is run again and nothing
/// else changes: in every phase, whatever the bond slot holds.
pub proof fn run_loop_restarts_or_halts(phase: Phase, failed: bool, bonded: bool)
    ensures
        phase.next(HostEvent::RunnerReturned { failed: true }, bonded) == (
            Phase::Halted,
            HostAction::Halt(Fatal::Runner),
        ),
        phase.next(HostEvent::RunnerReturned { failed: false }, bonded) == (
            phase,
            HostAction::RestartRunner,
        ),
        phase.next(HostEvent::RunnerReturned { failed }, bonded) == runner_policy(phase, failed),
{
}

/// Errors of the advertising path and of bonding halt the device. A halted
/// device stays halted: it neither advertises nor runs a session again, and
/// but for the run loop of the host it asks for nothing.
pub proof fn fatal_errors_halt(phase: Phase, event: HostEvent, bonded: bool)
    ensures
        phase.next(event, bonded).1 is Halt ==> phase.next(event, bonded).0 == Phase::Halted,
        phase == Phase::Halted ==> phase.next(event, bonded).0 == Phase::Halted,
        phase == Phase::Halted && !(event is RunnerReturned) ==> phase.next(event, bonded).1
            == HostAction::Nothing,
        Phase::Advertising.next(HostEvent::AdvertisingFailed, bonded) == (
            Phase::Halted,
            HostAction::Halt(Fatal::Advertising),
        ),
        Phase::Connected.next(HostEvent::BondableRefused, bonded) == (
            Phase::Halted,
            HostAction::Halt(Fatal::Bonding),
        ),
{
}

} // verus!
