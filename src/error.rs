//! The errors of a transfer.
use vstd::prelude::*;

use crate::cancellation::CancellationError;

verus! {

/// `walkdir::Error`, carried through unopened.
#[verifier::external_type_specification]
#[verifier::external_body]
pub struct ExWalkdirError(walkdir::Error);

/// `zip::result::ZipError`, carried through unopened.
#[verifier::external_type_specification]
#[verifier::external_body]
pub struct ExZipError(zip::result::ZipError);

/// What the peer says when it turns an offer down.
pub const TRANSFER_REJECTED_MESSAGE: &'static str = "transfer rejected";

#[derive(Debug)]
pub enum PortalError {
    /// The rendezvous failed; the transfer library's message.
    Wormhole(String),
    /// The transfer failed; the transfer library's message.
    WormholeTransfer(String),
    /// The peer turned the transfer down; the transfer library's message.
    TransferRejected(String),
    Io(std::io::Error),
    Walkdir(walkdir::Error),
    Zip(zip::result::ZipError),
    /// The operation was canceled: an outcome, not a failure.
    Canceled,
    /// The work behind a handle ended without delivering a result.
    Disconnected,
}

/// Whether the peer's message says that it turned the offer down.
pub open spec fn is_rejection(peer_message: Option<String>) -> bool {
    match peer_message {
        Some(m) => m@ == TRANSFER_REJECTED_MESSAGE@,
        None => false,
    }
}

impl PortalError {
    /// Tells a rejection by the peer apart from other transfer failures.
    pub fn from_transfer_error(peer_message: Option<String>, message: String) -> (r: PortalError)
        ensures
            is_rejection(peer_message) ==> (r matches PortalError::TransferRejected(t) && t@
                == message@),
            !is_rejection(peer_message) ==> (r matches PortalError::WormholeTransfer(t) && t@
                == message@),
    {
        let rejected = match &peer_message {
            Some(m) => m.as_str().unicode_len() == TRANSFER_REJECTED_MESSAGE.unicode_len()
                && same_chars(m.as_str(), TRANSFER_REJECTED_MESSAGE),
            None => false,
        };
        if rejected {
            PortalError::TransferRejected(message)
        } else {
            PortalError::WormholeTransfer(message)
        }
    }

    pub fn is_canceled(&self) -> (r: bool)
        ensures
            r == (self is Canceled),
    {
        match self {
            PortalError::Canceled => true,
            _ => false,
        }
    }
}

fn same_chars(a: &str, b: &str) -> (r: bool)
    requires
        a@.len() == b@.len(),
    ensures
        r == (a@ == b@),
{
    let n = a.unicode_len();
    let mut i: usize = 0;
    while i < n
        invariant
            n == a@.len() == b@.len(),
            i <= n,
            forall|j: int| 0 <= j < i ==> a@[j] == b@[j],
        decreases n - i,
    {
        if a.get_char(i) != b.get_char(i) {
            return false;
        }
        i = i + 1;
    }
    assert(a@ =~= b@);
    true
}

impl From<CancellationError> for PortalError {
    fn from(_error: CancellationError) -> (r: PortalError) {
        PortalError::Canceled
    }
}

impl vstd::std_specs::convert::FromSpecImpl<CancellationError> for PortalError {
    open spec fn obeys_from_spec() -> bool {
        true
    }

    open spec fn from_spec(v: CancellationError) -> PortalError {
        PortalError::Canceled
    }
}

} // verus!
