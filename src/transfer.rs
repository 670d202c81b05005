//! The decisions that the send and receive controllers make around the transfer
//! library's calls.
use vstd::prelude::*;

use crate::error::PortalError;
use crate::send_request::SendRequest;

verus! {

/// The stem for a received file whose offered name has none.
pub const FALLBACK_FILE_STEM: &'static str = "Downloaded File";

/// The extension for a received file whose offered name has none.
pub const FALLBACK_EXTENSION: &'static str = "bin";

/// The end of a transfer that the transfer library finished: a canceled one is a
/// cancellation, whatever the library reported.
pub fn finish_transfer(canceled: bool) -> (r: Result<(), PortalError>)
    ensures
        canceled <==> r matches Err(PortalError::Canceled),
        !canceled <==> r is Ok,
{
    if canceled {
        Err(PortalError::Canceled)
    } else {
        Ok(())
    }
}

/// A failed step of a send, with the request to retry it with.
pub fn with_send_request<T>(result: Result<T, PortalError>, send_request: SendRequest) -> (r:
    Result<T, (PortalError, SendRequest)>)
    ensures
        result matches Ok(v) ==> r == Ok::<T, (PortalError, SendRequest)>(v),
        result matches Err(e) ==> r == Err::<T, (PortalError, SendRequest)>((e, send_request)),
{
    match result {
        Ok(value) => Ok(value),
        Err(error) => Err((error, send_request)),
    }
}

} // verus!
