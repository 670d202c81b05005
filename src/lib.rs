//! The workflow layer of a peer-to-peer file-transfer application: cancellation,
//! one-shot result handles, the send and receive state machines that a user
//! interface advances once per frame, safe names for received files, and the
//! decisions of packing folders into archives.
pub mod archive;
pub mod cancellation;
pub mod display;
pub mod error;
pub mod filename;
pub mod persist;
pub mod send_request;
pub mod startup;
pub mod sync;
mod text;
pub mod transfer;
pub mod workflow;
