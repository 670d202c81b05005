use portal::cancellation::{run_actions, CancellationState};
use portal::sync::cancellation_pair;
use portal::error::PortalError;
use std::cell::RefCell;
use std::rc::Rc;

#[test]
fn each_action_runs_once_however_often_canceled() {
    let mut state = CancellationState::new();
    assert!(state.register(1u32).is_none());
    assert!(state.register(2).is_none());
    assert!(!state.is_canceled());
    assert!(state.error_if_canceled().is_ok());
    let first = state.cancel();
    assert_eq!(first, vec![1, 2]);
    assert!(state.is_canceled());
    assert!(state.error_if_canceled().is_err());
    for _ in 0..3 {
        assert!(state.cancel().is_empty());
        assert!(state.is_canceled());
    }
}

#[test]
fn late_registration_runs_at_once() {
    let mut state = CancellationState::new();
    assert!(state.cancel().is_empty());
    assert_eq!(state.register(7u8), Some(7));
    assert!(state.cancel().is_empty());
}

#[test]
fn handed_out_closures_run_in_order() {
    let log = Rc::new(RefCell::new(Vec::new()));
    let mut state: CancellationState<Box<dyn FnOnce()>> = CancellationState::new();
    for i in 0..3 {
        let log = log.clone();
        assert!(state.register(Box::new(move || log.borrow_mut().push(i))).is_none());
    }
    run_actions(state.cancel());
    run_actions(state.cancel());
    let log2 = log.clone();
    if let Some(action) = state.register(Box::new(move || log2.borrow_mut().push(9))) {
        run_actions(vec![action]);
    }
    assert_eq!(*log.borrow(), vec![0, 1, 2, 9]);
}

#[test]
fn flag_pair_propagates_cancellation() {
    let (sender, receiver) = cancellation_pair();
    assert!(receiver.propagate().is_ok());
    sender.cancel();
    assert!(matches!(receiver.propagate(), Err(PortalError::Canceled)));
    sender.cancel();
    assert!(matches!(receiver.propagate(), Err(PortalError::Canceled)));
}
