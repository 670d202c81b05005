//! Handles on results that another task delivers, and a plain cancellation flag.
use vstd::prelude::*;

use crate::error::PortalError;
use std::sync::atomic::{AtomicBool, Ordering};
use std::sync::Arc;

verus! {

/// `oneshot::Receiver`, read only through `try_receive`.
#[verifier::external_type_specification]
#[verifier::external_body]
#[verifier::reject_recursive_types(T)]
pub struct ExOneshotReceiver<T>(oneshot::Receiver<T>);

/// `oneshot::RecvError`, which the receiver's `Future` impl names; never used here.
#[verifier::external_type_specification]
#[verifier::external_body]
pub struct ExOneshotRecvError(oneshot::RecvError);

/// What one look at a one-shot transport finds.
#[derive(Debug)]
pub enum Delivery<T> {
    /// The producer is alive and has not delivered yet.
    Pending,
    Ready(T),
    /// The producer went away without delivering, or the value was taken before.
    Disconnected,
}

/// Relies on `oneshot::Receiver::try_recv`, which never blocks: `Ok` with the value,
/// `Err(Empty)` while the sender lives and has not sent, `Err(Disconnected)` once it
/// is gone or the value was taken. Each variant maps to its `Delivery` variant.
#[verifier::external_body]
fn try_receive<T>(incoming: &oneshot::Receiver<T>) -> (r: Delivery<T>) {
    match incoming.try_recv() {
        Ok(value) => Delivery::Ready(value),
        Err(oneshot::TryRecvError::Empty) => Delivery::Pending,
        Err(oneshot::TryRecvError::Disconnected) => Delivery::Disconnected,
    }
}

/// The receiving end of work running elsewhere: its result is taken by polling,
/// which never blocks.
#[verifier::reject_recursive_types(T)]
pub struct OperationHandle<T> {
    incoming: oneshot::Receiver<T>,
}

impl<T> OperationHandle<T> {
    pub fn new(incoming: oneshot::Receiver<T>) -> (r: Self) {
        OperationHandle { incoming }
    }

    /// Looks whether the result has come; a delivered value is handed out once.
    pub fn poll(&self) -> (r: Delivery<T>) {
        try_receive(&self.incoming)
    }
}

/// Where a one-shot receiver stands.
#[derive(Debug)]
pub enum ReceiverState<T> {
    Waiting,
    Completed(T),
    Disconnected,
}

impl<T> ReceiverState<T> {
    pub open spec fn value_spec(&self) -> Option<T> {
        match self {
            ReceiverState::Completed(v) => Some(*v),
            _ => None,
        }
    }

    pub fn value(&self) -> (r: Option<&T>)
        ensures
            r matches Some(v) ==> self.value_spec() == Some(*v),
            r is None ==> self.value_spec() is None,
    {
        match self {
            ReceiverState::Completed(value) => Some(value),
            _ => None,
        }
    }
}

/// The state after a look at the transport found `delivery`: only a waiting
/// receiver moves, and once it has a value or has lost its producer it stays so.
pub open spec fn next_receiver_state<T>(state: ReceiverState<T>, delivery: Delivery<T>) -> ReceiverState<T> {
    match state {
        ReceiverState::Waiting => match delivery {
            Delivery::Pending => ReceiverState::Waiting,
            Delivery::Ready(v) => ReceiverState::Completed(v),
            Delivery::Disconnected => ReceiverState::Disconnected,
        },
        _ => state,
    }
}

/// Moves a waiting receiver by what the transport delivered.
pub fn advance_receiver_state<T>(state: ReceiverState<T>, delivery: Delivery<T>) -> (r: ReceiverState<T>)
    ensures
        r == next_receiver_state(state, delivery),
{
    match state {
        ReceiverState::Waiting => match delivery {
            Delivery::Pending => ReceiverState::Waiting,
            Delivery::Ready(v) => ReceiverState::Completed(v),
            Delivery::Disconnected => ReceiverState::Disconnected,
        },
        _ => state,
    }
}

/// A one-shot receiver that keeps what it received, so that it can be read any
/// number of times; once resolved it no longer looks at the transport.
#[verifier::reject_recursive_types(T)]
pub struct BorrowingOneshotReceiver<T> {
    state: ReceiverState<T>,
    incoming: oneshot::Receiver<T>,
}

impl<T> BorrowingOneshotReceiver<T> {
    pub closed spec fn state(&self) -> ReceiverState<T> {
        self.state
    }

    pub fn new(incoming: oneshot::Receiver<T>) -> (r: Self)
        ensures
            r.state() is Waiting,
    {
        BorrowingOneshotReceiver { state: ReceiverState::Waiting, incoming }
    }

    /// Looks at the transport while nothing has been received.
    pub fn try_recv(&mut self)
        ensures
            !(old(self).state() is Waiting) ==> final(self).state() == old(self).state(),
            old(self).state() is Waiting ==> exists|d: Delivery<T>|
                final(self).state() == next_receiver_state(old(self).state(), d),
    {
        if let ReceiverState::Waiting = self.state {
            let delivery = try_receive(&self.incoming);
            let ghost d = delivery;
            let next = advance_receiver_state(ReceiverState::Waiting, delivery);
            self.state = next;
            assert(self.state() == next_receiver_state(old(self).state(), d));
        }
    }

    /// The value, once delivered; the same value on every later call.
    pub fn value(&mut self) -> (r: Option<&T>)
        ensures
            !(old(self).state() is Waiting) ==> final(self).state() == old(self).state(),
            r matches Some(v) ==> final(self).state() == ReceiverState::Completed(*v),
            r is None ==> !(final(self).state() is Completed),
    {
        self.try_recv();
        self.state.value()
    }
}

/// Once a receiver holds a value, no later look at the transport changes it; once it
/// has lost its producer it never yields a value; while the producer neither
/// delivers nor goes away it yields nothing.
pub proof fn lemma_one_shot_monotonic<T>(state: ReceiverState<T>, delivery: Delivery<T>)
    ensures
        state is Completed ==> next_receiver_state(state, delivery) == state,
        state is Disconnected ==> next_receiver_state(state, delivery) is Disconnected,
        state is Waiting && delivery is Pending ==> next_receiver_state(state, delivery).value_spec() is None,
        state is Waiting && delivery is Disconnected ==> next_receiver_state(state, delivery) is Disconnected,
{
}

/// Creates a flag that one side sets and the other side checks.
pub fn cancellation_pair() -> (r: (CancellationSender, CancellationReceiver)) {
    let canceled = Arc::new(AtomicBool::new(false));
    (CancellationSender { canceled: canceled.clone() }, CancellationReceiver { canceled })
}

pub struct CancellationReceiver {
    canceled: Arc<AtomicBool>,
}

impl CancellationReceiver {
    /// `Err(Canceled)` once the sender has canceled, else `Ok`.
    pub fn propagate(&self) -> (r: Result<(), PortalError>)
        ensures
            r is Ok || r matches Err(PortalError::Canceled),
    {
        let canceled = self.canceled.load(Ordering::Relaxed);
        crate::archive::check_canceled(canceled)
    }
}

pub struct CancellationSender {
    canceled: Arc<AtomicBool>,
}

impl CancellationSender {
    pub fn cancel(&self) {
        self.canceled.store(true, Ordering::Relaxed);
    }
}

} // verus!
