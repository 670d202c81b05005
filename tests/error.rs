use portal::error::PortalError;

#[test]
fn rejection_by_peer_is_told_apart() {
    let e = PortalError::from_transfer_error(Some("transfer rejected".to_owned()), "x".to_owned());
    assert!(matches!(e, PortalError::TransferRejected(m) if m == "x"));
    let e = PortalError::from_transfer_error(Some("transfer rejecte".to_owned()), "y".to_owned());
    assert!(matches!(e, PortalError::WormholeTransfer(m) if m == "y"));
    let e = PortalError::from_transfer_error(None, "z".to_owned());
    assert!(matches!(e, PortalError::WormholeTransfer(m) if m == "z"));
}

#[test]
fn canceled_is_recognized() {
    assert!(PortalError::Canceled.is_canceled());
    assert!(!PortalError::Disconnected.is_canceled());
    let e: PortalError = portal::cancellation::CancellationError.into();
    assert!(e.is_canceled());
}
