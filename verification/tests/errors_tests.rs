use outbound_tunnel::errors::SessionError;

#[test]
fn every_session_error_describes_itself() {
    let all = [
        SessionError::MissingDestination,
        SessionError::UnsupportedProtocol,
        SessionError::DestinationUnreachable,
        SessionError::AuthConfigurationError,
        SessionError::FramingError,
        SessionError::TransportError,
    ];
    for e in all {
        assert!(!e.describe().is_empty());
    }
}
