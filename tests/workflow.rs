use portal::error::PortalError;
use portal::send_request::SendRequest;
use portal::sync::{Delivery, OperationHandle};
use portal::workflow::{
    show_switcher, ui_enabled, ActiveView, MainViewState, Progress, ReceiveState, ReceiveView,
    SendView, SendingProgress,
};
use std::cell::Cell;

type SendResult = Result<(), (PortalError, SendRequest)>;
type Receive = ReceiveState<(), String, ()>;

fn handle<T>() -> (oneshot::Sender<T>, OperationHandle<T>) {
    let (sender, receiver) = oneshot::channel();
    (sender, OperationHandle::new(receiver))
}

fn no_send(_: &SendRequest) -> (OperationHandle<SendResult>, ()) {
    panic!("no send expected")
}

#[test]
fn pending_handle_leaves_state_unchanged() {
    let (sender, connect) = handle::<Result<String, PortalError>>();
    let mut state: Receive = ReceiveState::Initial("7-guitar-revenge".to_owned());
    state.connect(move |code: &String| {
        assert_eq!(code, "7-guitar-revenge");
        (connect, ())
    });
    for _ in 0..3 {
        state.advance();
        assert!(matches!(&state, ReceiveState::Connecting(_, (), code) if code == "7-guitar-revenge"));
    }
    sender.send(Ok("holiday.jpg".to_owned())).unwrap();
    state.advance();
    assert!(matches!(&state, ReceiveState::Connected(offer) if offer == "holiday.jpg"));
    state.advance();
    assert!(matches!(&state, ReceiveState::Connected(offer) if offer == "holiday.jpg"));
}

#[test]
fn receive_rejection_returns_to_start() {
    let (sender, connect) = handle::<Result<String, PortalError>>();
    let mut state: Receive = ReceiveState::Initial("4-code".to_owned());
    state.connect(move |_: &String| (connect, ()));
    sender.send(Ok("offer.bin".to_owned())).unwrap();
    state.advance();
    assert!(matches!(&state, ReceiveState::Connected(_)));

    let downloads_touched = Cell::new(false);
    let (answer, rejecting) = handle::<Result<(), PortalError>>();
    state.reject(|offer: String| {
        assert_eq!(offer, "offer.bin");
        rejecting
    });
    state.accept(|_: String| -> (OperationHandle<Result<String, PortalError>>, (), String) {
        downloads_touched.set(true);
        panic!("a rejected offer is not downloaded")
    });
    assert!(matches!(&state, ReceiveState::Rejecting(_)));
    state.advance();
    assert!(matches!(&state, ReceiveState::Rejecting(_)));
    answer.send(Ok(())).unwrap();
    state.advance();
    assert!(matches!(&state, ReceiveState::Initial(code) if code.is_empty()));
    assert!(!downloads_touched.get());
}

#[test]
fn receiving_completes_with_the_stored_path() {
    let (sender, connect) = handle::<Result<String, PortalError>>();
    let mut state: Receive = ReceiveState::Initial("1-a".to_owned());
    state.connect(move |_: &String| (connect, ()));
    sender.send(Ok("a.txt".to_owned())).unwrap();
    state.advance();
    let (done, receiving) = handle::<Result<String, PortalError>>();
    state.accept(move |offer: String| (receiving, (), offer));
    assert!(matches!(&state, ReceiveState::Receiving(_, (), name) if name == "a.txt"));
    done.send(Ok("/home/me/Downloads/a (1).txt".to_owned())).unwrap();
    state.advance();
    assert!(matches!(&state, ReceiveState::Completed(p) if p == "/home/me/Downloads/a (1).txt"));
    state.back();
    assert!(matches!(&state, ReceiveState::Initial(code) if code.is_empty()));
}

#[test]
fn outcomes_of_connecting() {
    let canceled: Receive = ReceiveState::connecting_table(Err(PortalError::Canceled));
    assert!(matches!(canceled, ReceiveState::Initial(code) if code.is_empty()));
    let failed: Receive = ReceiveState::connecting_table(Err(PortalError::Wormhole("no".to_owned())));
    assert!(matches!(failed, ReceiveState::Error(PortalError::Wormhole(m)) if m == "no"));
    let canceled: Receive = ReceiveState::receiving_table(Err(PortalError::Canceled));
    assert!(matches!(canceled, ReceiveState::Initial(_)));
    let failed: Receive = ReceiveState::rejecting_table(Err(PortalError::Canceled));
    assert!(matches!(failed, ReceiveState::Error(PortalError::Canceled)));
}

#[test]
fn vanished_work_is_an_error() {
    let (sender, connect) = handle::<Result<String, PortalError>>();
    let mut state: Receive = ReceiveState::Initial(String::new());
    state.connect(move |_: &String| (connect, ()));
    drop(sender);
    state.advance();
    assert!(matches!(&state, ReceiveState::Error(PortalError::Disconnected)));
    state.back();
    assert!(matches!(&state, ReceiveState::Initial(_)));
}

#[test]
fn end_to_end_send() {
    let mut view: SendView<()> = SendView::Ready;
    assert!(view.show_switcher());
    let (pick, picking) = handle::<Option<Vec<String>>>();
    view.select_file(picking);
    assert!(matches!(view, SendView::SelectingFile(_)));
    assert!(!view.ui_enabled());
    view.advance(no_send);
    assert!(matches!(view, SendView::SelectingFile(_)));

    pick.send(Some(vec!["/nowhere/at/all/report.pdf".to_owned()])).unwrap();
    let (finish, sending) = handle::<SendResult>();
    view.advance(move |request: &SendRequest| {
        assert!(matches!(request, SendRequest::File(p) if p == "/nowhere/at/all/report.pdf"));
        (sending, ())
    });
    assert!(matches!(&view, SendView::Sending(_, (), SendRequest::File(_))));
    assert!(!view.show_switcher());

    let mut progress: SendingProgress<&str> = SendingProgress::Connecting;
    assert!(matches!(progress, SendingProgress::Connecting));
    progress = SendingProgress::Connected("3-apple-pie".to_owned());
    assert!(matches!(&progress, SendingProgress::Connected(code) if code == "3-apple-pie"));
    progress = SendingProgress::PreparingToSend;
    progress = progress.on_bytes(1, 2);
    assert!(matches!(progress, SendingProgress::PreparingToSend));
    progress = SendingProgress::on_transit("direct");
    assert!(matches!(progress, SendingProgress::Sending("direct", Progress { value: 0, total: 0 })));
    let file_size = 1_234_567u64;
    for sent in [0, 1_000, file_size] {
        progress = progress.on_bytes(sent, file_size);
    }
    assert!(matches!(
        progress,
        SendingProgress::Sending("direct", Progress { value, total }) if value == file_size && total == file_size
    ));

    view.advance(no_send);
    assert!(matches!(&view, SendView::Sending(..)));
    finish.send(Ok(())).unwrap();
    view.advance(no_send);
    assert!(matches!(&view, SendView::Complete(SendRequest::File(p)) if p == "/nowhere/at/all/report.pdf"));
    view.back();
    assert!(matches!(view, SendView::Ready));
}

#[test]
fn failed_send_offers_a_retry() {
    let (finish, sending) = handle::<SendResult>();
    let mut view: SendView<()> = SendView::Ready;
    view.accept_dropped_files(
        vec!["/x/a.txt".to_owned(), "/x/b.txt".to_owned()],
        move |_: &SendRequest| (sending, ()),
    );
    assert!(matches!(&view, SendView::Sending(_, (), SendRequest::Selection(p)) if p.len() == 2));
    finish
        .send(Err((PortalError::Wormhole("lost".to_owned()), SendRequest::File("/tmp/packed.zip".to_owned()))))
        .unwrap();
    view.advance(no_send);
    assert!(matches!(&view, SendView::Error(PortalError::Wormhole(_), Some(SendRequest::File(_)))));
    let (_again, retrying) = handle::<SendResult>();
    view.retry(move |request: &SendRequest| {
        assert!(matches!(request, SendRequest::File(p) if p == "/tmp/packed.zip"));
        (retrying, ())
    });
    assert!(matches!(&view, SendView::Sending(_, (), SendRequest::File(_))));
}

#[test]
fn canceled_send_and_canceled_picker_return_to_ready() {
    let (finish, sending) = handle::<SendResult>();
    let mut view: SendView<()> = SendView::Ready;
    view.accept_dropped_files(vec!["/x/a.txt".to_owned()], move |_: &SendRequest| (sending, ()));
    finish.send(Err((PortalError::Canceled, SendRequest::File("/x/a.txt".to_owned())))).unwrap();
    view.advance(no_send);
    assert!(matches!(view, SendView::Ready));

    let (pick, picking) = handle::<Option<Vec<String>>>();
    view.select_file(picking);
    pick.send(None).unwrap();
    view.advance(no_send);
    assert!(matches!(view, SendView::Ready));

    let (pick, picking) = handle::<Option<Vec<String>>>();
    view.select_file(picking);
    drop(pick);
    view.advance(no_send);
    assert!(matches!(view, SendView::Error(PortalError::Disconnected, None)));
}

#[test]
fn main_view_switcher() {
    let state: MainViewState<(), (), String, ()> = MainViewState {
        send_view: SendView::Ready,
        receive_view: ReceiveView::new_with_uri(Some("5-code".to_owned())),
        view_toggle: true,
    };
    let view = ActiveView::from_toggle(state.view_toggle);
    assert_eq!(view, ActiveView::Receive);
    assert!(show_switcher(&state, view));
    assert!(ui_enabled(&state, view));
    assert!(show_switcher(&state, ActiveView::Send));
    assert!(state.receive_view.show_switcher());
    assert!(matches!(&state.receive_view.state, ReceiveState::Initial(c) if c == "5-code"));
    let unread: ReceiveView<(), String, ()> = ReceiveView::new_with_uri(None);
    assert!(matches!(&unread.state, ReceiveState::Initial(c) if c.is_empty()));
}

#[test]
fn main_view_opened_by_a_link() {
    let state: MainViewState<(), (), String, ()> =
        MainViewState::from_receive_file_action(portal::startup::ReceiveFileAction {
            code: "9-link".to_owned(),
        });
    assert!(state.view_toggle);
    assert!(matches!(state.send_view, SendView::Ready));
    assert!(matches!(&state.receive_view.state, ReceiveState::Initial(c) if c == "9-link"));
    let fresh: MainViewState<(), (), String, ()> = MainViewState::new();
    assert!(!fresh.view_toggle);
    assert_eq!(ActiveView::from_toggle(fresh.view_toggle), ActiveView::Send);
}

#[test]
fn settling_by_each_delivery() {
    let (_sender, connect) = handle::<Result<String, PortalError>>();
    let pending: Receive =
        ReceiveState::settle_connecting(connect, (), "1-x".to_owned(), Delivery::Pending);
    assert!(matches!(&pending, ReceiveState::Connecting(_, (), c) if c == "1-x"));
    let (_sender, connect) = handle::<Result<String, PortalError>>();
    let ready: Receive = ReceiveState::settle_connecting(
        connect,
        (),
        "1-x".to_owned(),
        Delivery::Ready(Ok("offer".to_owned())),
    );
    assert!(matches!(&ready, ReceiveState::Connected(o) if o == "offer"));
    let (_sender, rejecting) = handle::<Result<(), PortalError>>();
    let lost: Receive = ReceiveState::settle_rejecting(rejecting, Delivery::Disconnected);
    assert!(matches!(lost, ReceiveState::Error(PortalError::Disconnected)));
    let (_sender, receiving) = handle::<Result<String, PortalError>>();
    let canceled: Receive = ReceiveState::settle_receiving(
        receiving,
        (),
        "f".to_owned(),
        Delivery::Ready(Err(PortalError::Canceled)),
    );
    assert!(matches!(canceled, ReceiveState::Initial(c) if c.is_empty()));

    let (_sender, sending) = handle::<SendResult>();
    let lost: SendView<()> = SendView::settle_sending(
        sending,
        (),
        SendRequest::File("a".to_owned()),
        Delivery::Disconnected,
    );
    assert!(matches!(lost, SendView::Error(PortalError::Disconnected, Some(SendRequest::File(_)))));
    let (_sender, picking) = handle::<Option<Vec<String>>>();
    let still: SendView<()> = SendView::settle_selecting(picking, Delivery::Pending, no_send);
    assert!(matches!(still, SendView::SelectingFile(_)));
}
