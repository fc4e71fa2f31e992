//! The failures that can stop a gateway before it serves traffic.

use vstd::prelude::*;

verus! {

/// An input that was rejected before any network activity took place.
#[derive(Clone, Copy, Debug, PartialEq, Eq, Structural)]
pub enum ConfigurationError {
    /// The discovery endpoint is not a syntactically valid network location.
    InvalidEndpoint,
    /// The advertised port is not an unsigned decimal integer that fits the
    /// wire format.
    InvalidPort,
    /// The heartbeat interval is zero.
    InvalidInterval,
}

/// Why a registration attempt ended without an identity.
#[derive(Clone, Copy, Debug, PartialEq, Eq, Structural)]
pub enum RegisterError {
    /// The inputs were invalid; nothing was sent.
    ConfigurationError(ConfigurationError),
    /// The connection could not be established, or was lost before a
    /// response arrived.
    TransportError,
    /// The discovery endpoint answered and declined the registration.
    RegistrationRejected,
}

} // verus!
