use portal::error::PortalError;
use portal::send_request::SendRequest;
use portal::transfer::{finish_transfer, with_send_request};

#[test]
fn finishing_a_transfer() {
    assert!(finish_transfer(false).is_ok());
    assert!(matches!(finish_transfer(true), Err(PortalError::Canceled)));
}

#[test]
fn failures_carry_the_request() {
    let ok: Result<u8, (PortalError, SendRequest)> =
        with_send_request(Ok(3), SendRequest::File("a".to_owned()));
    assert!(matches!(ok, Ok(3)));
    let failed: Result<u8, (PortalError, SendRequest)> =
        with_send_request(Err(PortalError::Disconnected), SendRequest::File("a".to_owned()));
    assert!(matches!(failed, Err((PortalError::Disconnected, SendRequest::File(p))) if p == "a"));
}
