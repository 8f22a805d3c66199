//! The authentication gate on GATT requests, and the event pump that
//! handles the events of one connection in the order the host surfaces them.

use crate::security::{BondTracker, SecurityLevel};
use trouble_host::BondInformation;
use vstd::prelude::*;

verus! {

/// A GATT request as far as the policy looks at it: what it does, and to
/// which handle.
#[derive(Debug, Clone, Copy, PartialEq, Eq, Structural)]
pub enum GattRequest {
    /// A characteristic is read.
    Read { handle: u16 },
    /// A characteristic is written.
    Write { handle: u16 },
    /// Any other request.
    Other,
}

/// Protocol error codes that a request is rejected with.
#[derive(Debug, Clone, Copy, PartialEq, Eq, Structural)]
pub enum RejectCode {
    /// The attribute requires authentication before it can be read or
    /// written.
    InsufficientAuthentication,
}

/// The one answer that every request gets.
#[derive(Debug, Clone, Copy, PartialEq, Eq, Structural)]
pub enum Reply {
    /// Let the attribute server process the request.
    Accept,
    /// Answer with an error and leave the attribute untouched.
    Reject(RejectCode),
}

impl GattRequest {
    /// Reads and writes are guarded by authentication; other requests are
    /// not.
    pub open spec fn guarded(self) -> bool {
        self is Read || self is Write
    }

    /// Whether the request is a read or a write of this handle.
    pub open spec fn addresses(self, handle: u16) -> bool {
        match self {
            GattRequest::Read { handle: h } => h == handle,
            GattRequest::Write { handle: h } => h == handle,
            GattRequest::Other => false,
        }
    }
}

/// The authentication gate. A read or a write is accepted only on a
/// connection whose level is known and authenticated, whatever the handle;
/// any other request is accepted.
pub open spec fn gate(request: GattRequest, level: Option<SecurityLevel>) -> Reply {
    if request.guarded() && level != Some(SecurityLevel::EncryptedAuthenticated) {
        Reply::Reject(RejectCode::InsufficientAuthentication)
    } else {
        Reply::Accept
    }
}

/// What was decided for one request.
pub struct Dispatch {
    /// The answer to send, exactly once.
    pub reply: Reply,
    /// The request is a read or a write of the watched characteristic.
    pub watched: bool,
    /// The request is guarded and the connection could not name
    /// its security level: the link is gone and the pump ends.
    pub level_missing: bool,
}

/// Applies the authentication gate to one request. `level` is the security level of the
/// connection, `None` where the host could not tell it; `watched` is the
/// handle of the characteristic whose traffic is reported.
pub fn handle_gatt_event(request: GattRequest, level: Option<SecurityLevel>, watched: u16) -> (d:
    Dispatch)
    ensures
        d.reply == gate(request, level),
        d.watched == request.addresses(watched),
        d.level_missing == (request.guarded() && level is None),
{
    let (guarded, hit): (bool, bool) = match request {
        GattRequest::Read { handle } => (true, handle == watched),
        GattRequest::Write { handle } => (true, handle == watched),
        GattRequest::Other => (false, false),
    };
    if !guarded {
        return Dispatch { reply: Reply::Accept, watched: hit, level_missing: false };
    }
    match level {
        Some(level) => {
            let reply = if level.authenticated() {
                Reply::Accept
            } else {
                Reply::Reject(RejectCode::InsufficientAuthentication)
            };
            Dispatch { reply, watched: hit, level_missing: false }
        },
        None => Dispatch {
            reply: Reply::Reject(RejectCode::InsufficientAuthentication),
            watched: hit,
            level_missing: true,
        },
    }
}

/// What reaches the pump: the events of the connection, and the outcome of
/// the one request of the pump that can fail.
pub enum PumpEvent {
    /// The link is closed, for this reason (a status code of the controller).
    Disconnected { reason: u8 },
    /// The peer expects this pass key to be shown.
    PassKeyDisplay(u32),
    /// The peer shows this pass key and asks whether it matches.
    PassKeyConfirm(u32),
    /// The peer asks for a pass key to be typed in.
    PassKeyInput,
    /// Pairing is done, with or without bond material.
    PairingComplete { security_level: SecurityLevel, bond: Option<BondInformation> },
    /// Pairing did not succeed; the peer may try again.
    PairingFailed,
    /// A GATT request, with the security level of the connection at that
    /// moment (`None` where the host could not tell it).
    Gatt { request: GattRequest, level: Option<SecurityLevel> },
    /// Any other event of the connection.
    Other,
    /// The host refused the confirmation that the pump asked for.
    ConfirmRefused,
}

/// What the pump asks of its driver for one event.
#[derive(Debug, Clone, Copy, PartialEq, Eq, Structural)]
pub enum PumpAction {
    /// Nothing to do.
    Nothing,
    /// Show this pass key.
    Display(u32),
    /// Confirm the pass key; report `ConfirmRefused` if the host refuses.
    Confirm,
    /// Send this answer to the request; `watched` as in `Dispatch`.
    Reply { reply: Reply, watched: bool },
}

/// Why a pump ended other than by a disconnect.
#[derive(Debug, Clone, Copy, PartialEq, Eq, Structural)]
pub enum PumpFailure {
    /// The host refused a pass key confirmation.
    ConfirmRefused,
    /// The host could not tell the security level of the connection.
    SecurityLevelUnavailable,
}

/// State of the pump: `Active` until the link closes or a request fails.
#[derive(Debug, Clone, Copy, PartialEq, Eq, Structural)]
pub enum PumpState {
    Active,
    Disconnected { reason: u8 },
    Failed(PumpFailure),
}

impl PumpState {
    /// The state and the request that follow one event. A pump that has
    /// ended stays as it is and asks for nothing.
    pub open spec fn next(self, event: PumpEvent, watched: u16) -> (PumpState, PumpAction) {
        if self != PumpState::Active {
            (self, PumpAction::Nothing)
        } else {
            match event {
                PumpEvent::Disconnected { reason } => (
                    PumpState::Disconnected { reason },
                    PumpAction::Nothing,
                ),
                PumpEvent::PassKeyDisplay(key) => (PumpState::Active, PumpAction::Display(key)),
                PumpEvent::PassKeyConfirm(_) => (PumpState::Active, PumpAction::Confirm),
                PumpEvent::Gatt { request, level } => (
                    if request.guarded() && level is None {
                        PumpState::Failed(PumpFailure::SecurityLevelUnavailable)
                    } else {
                        PumpState::Active
                    },
                    PumpAction::Reply {
                        reply: gate(request, level),
                        watched: request.addresses(watched),
                    },
                ),
                PumpEvent::ConfirmRefused => (
                    PumpState::Failed(PumpFailure::ConfirmRefused),
                    PumpAction::Nothing,
                ),
                _ => (PumpState::Active, PumpAction::Nothing),
            }
        }
    }

    /// The bond slot after one event: a completed pairing on an active pump
    /// replaces it, nothing else touches it.
    pub open spec fn bond_after(self, event: PumpEvent, held: Option<BondInformation>) -> Option<
        BondInformation,
    > {
        match event {
            PumpEvent::PairingComplete { security_level, bond } if self == PumpState::Active => bond,
            _ => held,
        }
    }

    /// The state after the first `n` of `events`.
    pub open spec fn after(self, events: Seq<PumpEvent>, watched: u16, n: int) -> PumpState
        decreases n,
    {
        if n <= 0 {
            self
        } else {
            self.after(events, watched, n - 1).next(events[n - 1], watched).0
        }
    }

    /// The requests that a run of events draws, one for each event.
    pub open spec fn actions(self, events: Seq<PumpEvent>, watched: u16) -> Seq<PumpAction> {
        Seq::new(
            events.len(),
            |i: int| self.after(events, watched, i).next(events[i], watched).1,
        )
    }

    /// The answers that the first `n` events draw, in the order in which
    /// they are drawn.
    pub open spec fn replies(self, events: Seq<PumpEvent>, watched: u16, n: int) -> Seq<Reply>
        decreases n,
    {
        if n <= 0 {
            Seq::empty()
        } else {
            let before = self.replies(events, watched, n - 1);
            match self.after(events, watched, n - 1).next(events[n - 1], watched).1 {
                PumpAction::Reply { reply, watched } => before.push(reply),
                _ => before,
            }
        }
    }

    /// The bond slot after the first `n` events, when it held `held` before.
    pub open spec fn bond_through(
        self,
        events: Seq<PumpEvent>,
        watched: u16,
        held: Option<BondInformation>,
        n: int,
    ) -> Option<BondInformation>
        decreases n,
    {
        if n <= 0 {
            held
        } else {
            self.after(events, watched, n - 1).bond_after(
                events[n - 1],
                self.bond_through(events, watched, held, n - 1),
            )
        }
    }
}

/// Whether this event ends an active pump: the link closes, the host
/// refuses a confirmation, or a guarded request finds the connection unable
/// to name its level.
pub open spec fn ends_pump(event: PumpEvent) -> bool {
    event is Disconnected || event is ConfirmRefused || (event matches PumpEvent::Gatt {
        request,
        level,
    } && request.guarded() && level is None)
}

/// Whether none of the first `n` events ends the pump.
pub open spec fn uninterrupted(events: Seq<PumpEvent>, n: int) -> bool {
    forall|k: int| 0 <= k < n ==> !ends_pump(#[trigger] events[k])
}

/// The answers owed to the first `n` events, in order: for each request
/// that arrives before the pump has ended, what the authentication gate
/// decides for it.
pub open spec fn owed_replies(events: Seq<PumpEvent>, n: int) -> Seq<Reply>
    decreases n,
{
    if n <= 0 {
        Seq::empty()
    } else {
        let before = owed_replies(events, n - 1);
        match events[n - 1] {
            PumpEvent::Gatt { request, level } if uninterrupted(events, n - 1) => before.push(
                gate(request, level),
            ),
            _ => before,
        }
    }
}

/// The bond that the slot owes to the first `n` events: what the last
/// pairing that completed before the pump ended came with, or what was held
/// before if there was none.
pub open spec fn owed_bond(
    events: Seq<PumpEvent>,
    held: Option<BondInformation>,
    n: int,
) -> Option<BondInformation>
    decreases n,
{
    if n <= 0 {
        held
    } else {
        match events[n - 1] {
            PumpEvent::PairingComplete { security_level, bond } if uninterrupted(
                events,
                n - 1,
            ) => bond,
            _ => owed_bond(events, held, n - 1),
        }
    }
}

/// The event pump of one connection.
pub struct EventPump {
    state: PumpState,
    watched: u16,
}

impl EventPump {
    /// Where the pump stands.
    pub closed spec fn state(&self) -> PumpState {
        self.state
    }

    /// The handle of the characteristic whose traffic is reported.
    pub closed spec fn watched(&self) -> u16 {
        self.watched
    }

    /// An active pump for a new connection.
    pub fn new(watched: u16) -> (pump: Self)
        ensures
            pump.state() == PumpState::Active,
            pump.watched() == watched,
    {
        EventPump { state: PumpState::Active, watched }
    }

    /// Where the pump stands.
    pub fn current(&self) -> (state: PumpState)
        ensures
            state == self.state(),
    {
        self.state
    }

    /// Whether the pump still takes events.
    pub fn is_active(&self) -> (active: bool)
        ensures
            active == (self.state() == PumpState::Active),
    {
        match self.state {
            PumpState::Active => true,
            _ => false,
        }
    }

    /// Handles one event: moves the pump, puts the outcome of a completed
    /// pairing into the bond slot, and says what the driver has to do.
    pub fn step(&mut self, event: PumpEvent, bonds: &mut BondTracker) -> (action: PumpAction)
        ensures
            (final(self).state(), action) == old(self).state().next(event, old(self).watched()),
            final(self).watched() == old(self).watched(),
            final(bonds)@ == old(self).state().bond_after(event, old(bonds)@),
    {
        if !self.is_active() {
            return PumpAction::Nothing;
        }
        match event {
            PumpEvent::Disconnected { reason } => {
                self.state = PumpState::Disconnected { reason };
                PumpAction::Nothing
            },
            PumpEvent::PassKeyDisplay(key) => PumpAction::Display(key),
            PumpEvent::PassKeyConfirm(_) => PumpAction::Confirm,
            PumpEvent::PassKeyInput => PumpAction::Nothing,
            PumpEvent::PairingComplete { security_level: _, bond } => {
                bonds.record(bond);
                PumpAction::Nothing
            },
            PumpEvent::PairingFailed => PumpAction::Nothing,
            PumpEvent::Gatt { request, level } => {
                let d = handle_gatt_event(request, level, self.watched);
                if d.level_missing {
                    self.state = PumpState::Failed(PumpFailure::SecurityLevelUnavailable);
                }
                PumpAction::Reply { reply: d.reply, watched: d.watched }
            },
            PumpEvent::Other => PumpAction::Nothing,
            PumpEvent::ConfirmRefused => {
                self.state = PumpState::Failed(PumpFailure::ConfirmRefused);
                PumpAction::Nothing
            },
        }
    }
}

/// The authentication gate looks at nothing but the kind of request and the level: two
/// reads or writes on one connection get the same answer, whatever their
/// handles.
pub proof fn gate_ignores_handle(first: GattRequest, second: GattRequest, level: Option<SecurityLevel>)
    requires
        first.guarded(),
        second.guarded(),
    ensures
        gate(first, level) == gate(second, level),
        gate(first, level) == Reply::Accept <==> level == Some(
            SecurityLevel::EncryptedAuthenticated,
        ),
{
}

/// In any run of events, while the pump is active, each GATT request draws
/// one answer and no other event draws any; and a read or a write on a
/// connection that is not authenticated draws a rejection with the
/// insufficient-authentication code.
pub proof fn every_request_is_answered_once(events: Seq<PumpEvent>, watched: u16, i: int)
    requires
        0 <= i < events.len(),
        PumpState::Active.after(events, watched, i) == PumpState::Active,
    ensures
        PumpState::Active.actions(events, watched)[i] is Reply <==> events[i] is Gatt,
        events[i] matches PumpEvent::Gatt { request, level } ==> PumpState::Active.actions(
            events,
            watched,
        )[i] == (PumpAction::Reply {
            reply: gate(request, level),
            watched: request.addresses(watched),
        }),
        events[i] matches PumpEvent::Gatt { request, level } ==> (request.guarded() && level
            != Some(SecurityLevel::EncryptedAuthenticated) ==> gate(request, level)
            == Reply::Reject(RejectCode::InsufficientAuthentication)),
{
}

/// A pump that has ended answers nothing and changes nothing: no request
/// is answered twice, and the bond slot is left alone.
pub proof fn ended_pump_is_silent(
    state: PumpState,
    event: PumpEvent,
    watched: u16,
    held: Option<BondInformation>,
)
    requires
        state != PumpState::Active,
    ensures
        state.next(event, watched) == (state, PumpAction::Nothing),
        state.bond_after(event, held) == held,
{
}

/// A failed pairing, a pass key event or an unknown event keeps the pump
/// active; only a disconnect, a refused confirmation or a connection that
/// cannot name its level ends it.
pub proof fn pump_ends_only_on_disconnect_or_failure(event: PumpEvent, watched: u16)
    ensures
        PumpState::Active.next(event, watched).0 != PumpState::Active <==> ends_pump(event),
{
}

/// Over any run of events, the pump is active for as long as no event has
/// ended it, and never again after.
pub proof fn pump_is_active_until_ended(events: Seq<PumpEvent>, watched: u16, n: int)
    requires
        0 <= n <= events.len(),
    ensures
        PumpState::Active.after(events, watched, n) == PumpState::Active <==> uninterrupted(
            events,
            n,
        ),
    decreases n,
{
    if n > 0 {
        pump_is_active_until_ended(events, watched, n - 1);
        if uninterrupted(events, n - 1) && !ends_pump(events[n - 1]) {
            assert forall|k: int| 0 <= k < n implies !ends_pump(#[trigger] events[k]) by {
                if k < n - 1 {
                } else {
                    assert(k == n - 1);
                }
            }
        }
        if uninterrupted(events, n) {
            assert(!ends_pump(events[n - 1]));
            assert(uninterrupted(events, n - 1));
        }
    }
}

/// Over any run of events, whatever the levels and whatever lies between
/// the requests: the answers come in the order of the requests, one for
/// each request that arrives before the pump has ended, each the decision
/// of the authentication gate, and none for anything else.
pub proof fn requests_are_answered_in_order(events: Seq<PumpEvent>, watched: u16, n: int)
    requires
        0 <= n <= events.len(),
    ensures
        PumpState::Active.replies(events, watched, n) == owed_replies(events, n),
    decreases n,
{
    if n > 0 {
        requests_are_answered_in_order(events, watched, n - 1);
        pump_is_active_until_ended(events, watched, n - 1);
    }
}

/// Over any run of events, the bond slot holds what the last pairing that
/// completed before the pump ended came with, bond or none; without such a
/// pairing it holds what it held before.
pub proof fn bond_slot_follows_last_pairing(
    events: Seq<PumpEvent>,
    watched: u16,
    held: Option<BondInformation>,
    n: int,
)
    requires
        0 <= n <= events.len(),
    ensures
        PumpState::Active.bond_through(events, watched, held, n) == owed_bond(events, held, n),
        (forall|k: int| 0 <= k < n ==> !(#[trigger] events[k] is PairingComplete)) ==> owed_bond(
            events,
            held,
            n,
        ) == held,
    decreases n,
{
    if n > 0 {
        bond_slot_follows_last_pairing(events, watched, held, n - 1);
        pump_is_active_until_ended(events, watched, n - 1);
    }
}

} // verus!
