//! Link security as the session logic sees it: the level a connection has
//! reached, and the single bond the device keeps.

use crate::host;
use trouble_host::BondInformation;
use vstd::prelude::*;

verus! {

/// Security level of a connection.
#[derive(Debug, Clone, Copy, PartialEq, Eq, Structural)]
pub enum SecurityLevel {
    /// Neither encrypted nor authenticated: where every connection starts.
    NoEncryption,
    /// Encrypted, but the peer is not authenticated.
    Encrypted,
    /// Encrypted, and the peer is authenticated.
    EncryptedAuthenticated,
}

impl SecurityLevel {
    /// Whether the peer is authenticated at this level.
    pub open spec fn is_authenticated(self) -> bool {
        self == SecurityLevel::EncryptedAuthenticated
    }

    /// Whether the peer is authenticated at this level, as the host judges it.
    pub fn authenticated(&self) -> (yes: bool)
        ensures
            yes == self.is_authenticated(),
    {
        host::authenticated(*self)
    }
}

/// The one bond slot of the device. It lives as long as the process and is
/// replaced as a whole by each completed pairing.
pub struct BondTracker {
    slot: Option<BondInformation>,
}

impl View for BondTracker {
    type V = Option<BondInformation>;

    closed spec fn view(&self) -> Option<BondInformation> {
        self.slot
    }
}

impl BondTracker {
    /// A tracker without a bond.
    pub fn new() -> (tracker: Self)
        ensures
            tracker@ is None,
    {
        BondTracker { slot: None }
    }

    /// Whether a bond is held.
    pub fn has_bond(&self) -> (held: bool)
        ensures
            held == self@ is Some,
    {
        self.slot.is_some()
    }

    /// Whether the next connection may bond: only while no bond is held.
    pub fn bondable(&self) -> (allowed: bool)
        ensures
            allowed == self@ is None,
    {
        self.slot.is_none()
    }

    /// Puts what a completed pairing returned in the place of what was held;
    /// a pairing without bond material leaves the slot empty.
    pub fn record(&mut self, bond: Option<BondInformation>)
        ensures
            final(self)@ == bond,
    {
        self.slot = bond;
    }

    /// The bond that is held, if any.
    pub fn bond(&self) -> (held: &Option<BondInformation>)
        ensures
            *held == self@,
    {
        &self.slot
    }
}

} // verus!
