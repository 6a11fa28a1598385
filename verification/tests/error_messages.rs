use ssh_connect::error::{ConnectError, ProtocolFault, StoreFault};

#[test]
fn each_error_has_its_message() {
    let host = "example.com";
    assert_eq!(ConnectError::Configuration.message(host), "unable to parse port number");
    assert_eq!(ConnectError::Connection.message(host), "unable to connect to host example.com");
    assert_eq!(
        ConnectError::Handshake.message(host),
        "unable to complete handshake with host example.com"
    );
    assert_eq!(
        ConnectError::TrustStore(StoreFault::NoHome).message(host),
        "unable to find home directory"
    );
    assert_eq!(
        ConnectError::TrustStore(StoreFault::Load).message(host),
        "unable to load known hosts"
    );
    assert_eq!(
        ConnectError::TrustStore(StoreFault::Check).message(host),
        "failed to check known hosts"
    );
    assert_eq!(
        ConnectError::TrustStore(StoreFault::Save).message(host),
        "unable to save known hosts"
    );
    assert_eq!(
        ConnectError::Protocol(ProtocolFault::NoHostKey).message(host),
        "unable to get host key"
    );
    assert_eq!(
        ConnectError::Protocol(ProtocolFault::NoFingerprint).message(host),
        "unable to get fingerprint of host"
    );
    assert_eq!(
        ConnectError::UntrustedHost.message(host),
        "the authenticity of host example.com cannot be established"
    );
    assert_eq!(
        ConnectError::IdentityMismatch.message(host),
        "possible person in the middle attack"
    );
    assert_eq!(
        ConnectError::AuthenticationFailed.message(host),
        "unable to authenticate session"
    );
}

#[test]
fn the_destination_is_quoted_as_given() {
    assert_eq!(
        ConnectError::UntrustedHost.message(""),
        "the authenticity of host  cannot be established"
    );
    assert_eq!(
        ConnectError::UntrustedHost.message("10.0.0.1"),
        "the authenticity of host 10.0.0.1 cannot be established"
    );
}
