//! The ways in which establishing a session ends without one.

use vstd::prelude::*;
use vstd::string::StringExecFns;

verus! {

/// What went wrong with the known-hosts store.
#[derive(Clone, Copy, Debug, PartialEq, Eq, Structural)]
pub enum StoreFault {
    /// The user's home directory, under which the store lives, is unknown.
    NoHome,
    /// The store could not be opened or read.
    Load,
    /// The store could not answer a query about a host.
    Check,
    /// The store could not take or persist a new entry.
    Save,
}

/// What the handshaken session failed to provide.
#[derive(Clone, Copy, Debug, PartialEq, Eq, Structural)]
pub enum ProtocolFault {
    /// The handshake left no host key behind.
    NoHostKey,
    /// No digest of the host key is available.
    NoFingerprint,
}

/// A terminal failure of a connection attempt. Every variant aborts the whole
/// attempt; none is retried by the caller that sees it.
#[derive(Clone, Copy, Debug, PartialEq, Eq, Structural)]
pub enum ConnectError {
    /// The port given by the caller is not an unsigned 16-bit number.
    Configuration,
    /// No transport connection could be opened.
    Connection,
    /// The cryptographic handshake failed.
    Handshake,
    /// The known-hosts store could not be found, read, queried or written.
    TrustStore(StoreFault),
    /// The session lacks something that every completed handshake provides.
    Protocol(ProtocolFault),
    /// The operator declined to trust a host that the store does not know.
    UntrustedHost,
    /// The host presented a key other than the one the store holds for it.
    IdentityMismatch,
    /// The retry budget ran out before the session was authenticated.
    AuthenticationFailed,
}

impl ConnectError {
    /// The text of this error for an attempt to reach `destination`.
    pub open spec fn message_text(self, destination: Seq<char>) -> Seq<char> {
        match self {
            ConnectError::Configuration => "unable to parse port number"@,
            ConnectError::Connection => "unable to connect to host "@ + destination,
            ConnectError::Handshake => "unable to complete handshake with host "@ + destination,
            ConnectError::TrustStore(StoreFault::NoHome) => "unable to find home directory"@,
            ConnectError::TrustStore(StoreFault::Load) => "unable to load known hosts"@,
            ConnectError::TrustStore(StoreFault::Check) => "failed to check known hosts"@,
            ConnectError::TrustStore(StoreFault::Save) => "unable to save known hosts"@,
            ConnectError::Protocol(ProtocolFault::NoHostKey) => "unable to get host key"@,
            ConnectError::Protocol(ProtocolFault::NoFingerprint) =>
                "unable to get fingerprint of host"@,
            ConnectError::UntrustedHost => "the authenticity of host "@ + destination
                + " cannot be established"@,
            ConnectError::IdentityMismatch => "possible person in the middle attack"@,
            ConnectError::AuthenticationFailed => "unable to authenticate session"@,
        }
    }

    /// A human-readable message for this error, naming the destination where
    /// the failure is about the remote host itself.
    pub fn message(&self, destination: &str) -> (text: String)
        ensures
            text@ == self.message_text(destination@),
    {
        match self {
            ConnectError::Configuration => String::from_str("unable to parse port number"),
            ConnectError::Connection => String::from_str("unable to connect to host ").concat(
                destination,
            ),
            ConnectError::Handshake => String::from_str(
                "unable to complete handshake with host ",
            ).concat(destination),
            ConnectError::TrustStore(StoreFault::NoHome) => String::from_str(
                "unable to find home directory",
            ),
            ConnectError::TrustStore(StoreFault::Load) => String::from_str(
                "unable to load known hosts",
            ),
            ConnectError::TrustStore(StoreFault::Check) => String::from_str(
                "failed to check known hosts",
            ),
            ConnectError::TrustStore(StoreFault::Save) => String::from_str(
                "unable to save known hosts",
            ),
            ConnectError::Protocol(ProtocolFault::NoHostKey) => String::from_str(
                "unable to get host key",
            ),
            ConnectError::Protocol(ProtocolFault::NoFingerprint) => String::from_str(
                "unable to get fingerprint of host",
            ),
            ConnectError::UntrustedHost => String::from_str("the authenticity of host ").concat(
                destination,
            ).concat(" cannot be established"),
            ConnectError::IdentityMismatch => String::from_str(
                "possible person in the middle attack",
            ),
            ConnectError::AuthenticationFailed => String::from_str(
                "unable to authenticate session",
            ),
        }
    }
}

} // verus!
