use crab_tunnel::error::{io_message, serialization_message};
use crab_tunnel::protocol::decode;
use crab_tunnel::HolePunchError;

#[test]
fn test_error_display() {
    assert_eq!(
        HolePunchError::PeerNotFound("alice".into()).to_string(),
        "Peer 'alice' not found on server"
    );
    assert_eq!(
        HolePunchError::PunchFailed.to_string(),
        "Hole punch failed — could not establish direct connection"
    );
    assert_eq!(
        HolePunchError::Timeout.to_string(),
        "Timed out waiting for response"
    );
}

#[test]
fn test_error_from_io() {
    let io_err = std::io::Error::new(std::io::ErrorKind::ConnectionRefused, "connection refused");
    let hp_err: HolePunchError = io_err.into();
    assert!(matches!(hp_err, HolePunchError::Io(_)));
}

#[test]
fn test_error_from_bincode() {
    let bincode_err = bincode::Error::from(std::io::Error::new(
        std::io::ErrorKind::InvalidData,
        "invalid data",
    ));
    let hp_err: HolePunchError = bincode_err.into();
    assert!(matches!(hp_err, HolePunchError::Serialization(_)));
}

#[test]
fn the_other_errors_in_words() {
    assert_eq!(HolePunchError::Server("busy".into()).to_string(), "Server error: busy");
    assert_eq!(HolePunchError::NoResponse.to_string(), "No response from server");
    assert_eq!(HolePunchError::Socket("no port".into()).to_string(), "Socket error: no port");
}

#[test]
fn an_io_error_speaks_for_itself() {
    let error = std::io::Error::new(std::io::ErrorKind::Other, "cable cut");
    assert_eq!(HolePunchError::from(error).to_string(), "IO error: cable cut");
    assert_eq!(io_message("cable cut"), "IO error: cable cut");
}

#[test]
fn an_encoding_error_speaks_for_itself() {
    let error = decode(&[12, 0, 0, 0]).unwrap_err();
    assert_eq!(
        HolePunchError::from(error).to_string(),
        "Serialization error: invalid value: integer `12`, expected variant index 0 <= i < 11",
    );
    assert_eq!(serialization_message("why"), "Serialization error: why");
}
