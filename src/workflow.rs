//! The workflows that the user interface advances once per frame.
//!
//! A workflow is in exactly one state. Some states wait on work that runs
//! elsewhere and hold its [`OperationHandle`]; `advance` looks at that handle and,
//! when the work has delivered, replaces the state by the one that the state's
//! transition table gives for the delivered value. A handle whose work went away
//! without delivering leads to `Error(Disconnected)`. Each call makes at most one
//! transition and never blocks.
use vstd::prelude::*;

use crate::error::PortalError;
use crate::send_request::SendRequest;
use crate::startup::ReceiveFileAction;
use crate::sync::{Delivery, OperationHandle};

verus! {

/// The state that a waiting state settles in after its handle delivered `delivery`:
/// it stays while the work is pending, follows `table` for a delivered value, and
/// becomes `lost` where the work went away without a value.
pub open spec fn settled<T, S>(
    delivery: Delivery<T>,
    stay: S,
    table: spec_fn(T, S) -> bool,
    lost: S,
    next: S,
) -> bool {
    match delivery {
        Delivery::Pending => next == stay,
        Delivery::Ready(v) => table(v, next),
        Delivery::Disconnected => next == lost,
    }
}

/// A pending handle leaves a workflow where it is; a delivered value moves it by the
/// state's table and by nothing else; a producer that went away leads to the error
/// state.
pub proof fn lemma_single_step<T, S>(
    delivery: Delivery<T>,
    stay: S,
    table: spec_fn(T, S) -> bool,
    lost: S,
    next: S,
)
    requires
        settled(delivery, stay, table, lost, next),
    ensures
        delivery is Pending ==> next == stay,
        delivery matches Delivery::Ready(v) ==> table(v, next),
        delivery is Disconnected ==> next == lost,
{
}

/// The receiving workflow; `C` controls a connection attempt, `Q` is an offer from
/// the peer, and `R` controls a running download.
#[verifier::reject_recursive_types(Q)]
pub enum ReceiveState<C, Q, R> {
    /// The code typed so far.
    Initial(String),
    Connecting(OperationHandle<Result<Q, PortalError>>, C, String),
    /// The peer's offer, waiting to be accepted or rejected.
    Connected(Q),
    Rejecting(OperationHandle<Result<(), PortalError>>),
    /// The download, and the file name the peer offered.
    Receiving(OperationHandle<Result<String, PortalError>>, R, String),
    Error(PortalError),
    /// Where the file was stored.
    Completed(String),
}

pub open spec fn is_blank_initial<C, Q, R>(s: ReceiveState<C, Q, R>) -> bool {
    s matches ReceiveState::Initial(code) && code@.len() == 0
}

/// The table of `Connecting`.
pub open spec fn after_connecting<C, Q, R>(
    result: Result<Q, PortalError>,
    next: ReceiveState<C, Q, R>,
) -> bool {
    match result {
        Ok(q) => next == ReceiveState::<C, Q, R>::Connected(q),
        Err(PortalError::Canceled) => is_blank_initial(next),
        Err(e) => next == ReceiveState::<C, Q, R>::Error(e),
    }
}

/// The table of `Rejecting`.
pub open spec fn after_rejecting<C, Q, R>(
    result: Result<(), PortalError>,
    next: ReceiveState<C, Q, R>,
) -> bool {
    match result {
        Ok(()) => is_blank_initial(next),
        Err(e) => next == ReceiveState::<C, Q, R>::Error(e),
    }
}

/// The table of `Receiving`.
pub open spec fn after_receiving<C, Q, R>(
    result: Result<String, PortalError>,
    next: ReceiveState<C, Q, R>,
) -> bool {
    match result {
        Ok(path) => next == ReceiveState::<C, Q, R>::Completed(path),
        Err(PortalError::Canceled) => is_blank_initial(next),
        Err(e) => next == ReceiveState::<C, Q, R>::Error(e),
    }
}

impl<C, Q, R> ReceiveState<C, Q, R> {
    pub fn initial() -> (r: Self)
        ensures
            is_blank_initial(r),
    {
        ReceiveState::Initial(String::new())
    }

    pub fn connecting_table(result: Result<Q, PortalError>) -> (r: Self)
        ensures
            after_connecting(result, r),
    {
        match result {
            Ok(request) => ReceiveState::Connected(request),
            Err(PortalError::Canceled) => Self::initial(),
            Err(error) => ReceiveState::Error(error),
        }
    }

    pub fn rejecting_table(result: Result<(), PortalError>) -> (r: Self)
        ensures
            after_rejecting(result, r),
    {
        match result {
            Ok(()) => Self::initial(),
            Err(error) => ReceiveState::Error(error),
        }
    }

    pub fn receiving_table(result: Result<String, PortalError>) -> (r: Self)
        ensures
            after_receiving(result, r),
    {
        match result {
            Ok(path) => ReceiveState::Completed(path),
            Err(PortalError::Canceled) => Self::initial(),
            Err(error) => ReceiveState::Error(error),
        }
    }

    /// The state that `old` settles in when its handle delivered `delivery`, for
    /// every waiting state; other states do not wait on anything.
    pub open spec fn settles(
        old: Self,
        next: Self,
        connect: Delivery<Result<Q, PortalError>>,
        reject: Delivery<Result<(), PortalError>>,
        receive: Delivery<Result<String, PortalError>>,
    ) -> bool {
        match old {
            ReceiveState::Connecting(..) => settled(
                connect,
                old,
                |v, s| after_connecting(v, s),
                ReceiveState::Error(PortalError::Disconnected),
                next,
            ),
            ReceiveState::Rejecting(..) => settled(
                reject,
                old,
                |v, s| after_rejecting(v, s),
                ReceiveState::Error(PortalError::Disconnected),
                next,
            ),
            ReceiveState::Receiving(..) => settled(
                receive,
                old,
                |v, s| after_receiving(v, s),
                ReceiveState::Error(PortalError::Disconnected),
                next,
            ),
            _ => next == old,
        }
    }

    /// `Connecting` after its handle delivered `delivery`.
    pub fn settle_connecting(
        handle: OperationHandle<Result<Q, PortalError>>,
        controller: C,
        code: String,
        delivery: Delivery<Result<Q, PortalError>>,
    ) -> (r: Self)
        ensures
            delivery is Pending ==> r == ReceiveState::<C, Q, R>::Connecting(handle, controller, code),
            delivery matches Delivery::Ready(v) ==> after_connecting(v, r),
            delivery is Disconnected ==> r == ReceiveState::<C, Q, R>::Error(PortalError::Disconnected),
    {
        match delivery {
            Delivery::Pending => ReceiveState::Connecting(handle, controller, code),
            Delivery::Ready(result) => Self::connecting_table(result),
            Delivery::Disconnected => ReceiveState::Error(PortalError::Disconnected),
        }
    }

    /// `Rejecting` after its handle delivered `delivery`.
    pub fn settle_rejecting(
        handle: OperationHandle<Result<(), PortalError>>,
        delivery: Delivery<Result<(), PortalError>>,
    ) -> (r: Self)
        ensures
            delivery is Pending ==> r == ReceiveState::<C, Q, R>::Rejecting(handle),
            delivery matches Delivery::Ready(v) ==> after_rejecting(v, r),
            delivery is Disconnected ==> r == ReceiveState::<C, Q, R>::Error(PortalError::Disconnected),
    {
        match delivery {
            Delivery::Pending => ReceiveState::Rejecting(handle),
            Delivery::Ready(result) => Self::rejecting_table(result),
            Delivery::Disconnected => ReceiveState::Error(PortalError::Disconnected),
        }
    }

    /// `Receiving` after its handle delivered `delivery`.
    pub fn settle_receiving(
        handle: OperationHandle<Result<String, PortalError>>,
        controller: R,
        filename: String,
        delivery: Delivery<Result<String, PortalError>>,
    ) -> (r: Self)
        ensures
            delivery is Pending ==> r == ReceiveState::<C, Q, R>::Receiving(
                handle,
                controller,
                filename,
            ),
            delivery matches Delivery::Ready(v) ==> after_receiving(v, r),
            delivery is Disconnected ==> r == ReceiveState::<C, Q, R>::Error(PortalError::Disconnected),
    {
        match delivery {
            Delivery::Pending => ReceiveState::Receiving(handle, controller, filename),
            Delivery::Ready(result) => Self::receiving_table(result),
            Delivery::Disconnected => ReceiveState::Error(PortalError::Disconnected),
        }
    }

    /// Makes at most one transition: where the current state waits on a handle, it
    /// polls that handle once and settles by what came back (see the `settle_`
    /// functions); every other state stays as it is.
    pub fn advance(&mut self)
        ensures
            exists|
                connect: Delivery<Result<Q, PortalError>>,
                reject: Delivery<Result<(), PortalError>>,
                receive: Delivery<Result<String, PortalError>>,
            | Self::settles(*old(self), *final(self), connect, reject, receive),
    {
        let mut current = Self::initial();
        std::mem::swap(self, &mut current);
        let ghost start = current;
        let next = match current {
            ReceiveState::Connecting(handle, controller, code) => {
                let delivery = handle.poll();
                let ghost d = delivery;
                let next = Self::settle_connecting(handle, controller, code, delivery);
                assert(Self::settles(start, next, d, Delivery::Pending, Delivery::Pending));
                next
            },
            ReceiveState::Rejecting(handle) => {
                let delivery = handle.poll();
                let ghost d = delivery;
                let next = Self::settle_rejecting(handle, delivery);
                assert(Self::settles(start, next, Delivery::Pending, d, Delivery::Pending));
                next
            },
            ReceiveState::Receiving(handle, controller, filename) => {
                let delivery = handle.poll();
                let ghost d = delivery;
                let next = Self::settle_receiving(handle, controller, filename, delivery);
                assert(Self::settles(start, next, Delivery::Pending, Delivery::Pending, d));
                next
            },
            other => {
                assert(Self::settles(start, other, Delivery::Pending, Delivery::Pending, Delivery::Pending));
                other
            },
        };
        *self = next;
    }

    /// Whether the switch between sending and receiving is offered: only before a
    /// transfer begins.
    pub fn show_switcher(&self) -> (r: bool)
        ensures
            r == (self is Initial),
    {
        match self {
            ReceiveState::Initial(_) => true,
            _ => false,
        }
    }

    /// Starts connecting with the code typed so far; `start` begins the attempt.
    /// Elsewhere than in `Initial` nothing happens.
    pub fn connect<F: FnOnce(&String) -> (OperationHandle<Result<Q, PortalError>>, C)>(
        &mut self,
        start: F,
    )
        requires
            forall|code: &String| start.requires((code,)),
        ensures
            *old(self) matches ReceiveState::Initial(code) ==> (*final(self) matches ReceiveState::Connecting(
                h,
                c,
                typed,
            ) && typed == code && call_ensures(start, (&code,), (h, c))),
            !(*old(self) is Initial) ==> *final(self) == *old(self),
    {
        if let ReceiveState::Initial(_) = self {
            let mut current = Self::initial();
            std::mem::swap(self, &mut current);
            if let ReceiveState::Initial(code) = current {
                let (handle, controller) = start(&code);
                *self = ReceiveState::Connecting(handle, controller, code);
            }
        }
    }

    /// Accepts the peer's offer; `start` begins the download and names the offered
    /// file. Elsewhere than in `Connected` nothing happens.
    pub fn accept<F: FnOnce(Q) -> (OperationHandle<Result<String, PortalError>>, R, String)>(
        &mut self,
        start: F,
    )
        requires
            forall|q: Q| start.requires((q,)),
        ensures
            *old(self) matches ReceiveState::Connected(q) ==> (*final(self) matches ReceiveState::Receiving(
                h,
                r,
                name,
            ) && call_ensures(start, (q,), (h, r, name))),
            !(*old(self) is Connected) ==> *final(self) == *old(self),
    {
        if let ReceiveState::Connected(_) = self {
            let mut current = Self::initial();
            std::mem::swap(self, &mut current);
            if let ReceiveState::Connected(request) = current {
                let (handle, controller, filename) = start(request);
                *self = ReceiveState::Receiving(handle, controller, filename);
            }
        }
    }

    /// Turns the peer's offer down; `start` sends the answer. Nothing is written to
    /// disk. Elsewhere than in `Connected` nothing happens.
    pub fn reject<F: FnOnce(Q) -> OperationHandle<Result<(), PortalError>>>(&mut self, start: F)
        requires
            forall|q: Q| start.requires((q,)),
        ensures
            *old(self) matches ReceiveState::Connected(q) ==> (*final(self) matches ReceiveState::Rejecting(
                h,
            ) && call_ensures(start, (q,), h)),
            !(*old(self) is Connected) ==> *final(self) == *old(self),
    {
        if let ReceiveState::Connected(_) = self {
            let mut current = Self::initial();
            std::mem::swap(self, &mut current);
            if let ReceiveState::Connected(request) = current {
                let handle = start(request);
                *self = ReceiveState::Rejecting(handle);
            }
        }
    }

    /// Leaves an error or a finished download for a new start.
    pub fn back(&mut self)
        ensures
            *old(self) is Error || *old(self) is Completed ==> is_blank_initial(*final(self)),
            !(*old(self) is Error || *old(self) is Completed) ==> *final(self) == *old(self),
    {
        match self {
            ReceiveState::Error(_) | ReceiveState::Completed(_) => {
                *self = Self::initial();
            },
            _ => {},
        }
    }
}

/// The receiving side of the application.
#[verifier::reject_recursive_types(Q)]
pub struct ReceiveView<C, Q, R> {
    pub state: ReceiveState<C, Q, R>,
}

impl<C, Q, R> ReceiveView<C, Q, R> {
    /// A view opened from a link: `uri_code` is the code that the link carried, or
    /// `None` where it could not be read; the code is then left for the user to type.
    pub fn new_with_uri(uri_code: Option<String>) -> (r: Self)
        ensures
            uri_code matches Some(code) ==> r.state == ReceiveState::<C, Q, R>::Initial(code),
            uri_code is None ==> is_blank_initial(r.state),
    {
        match uri_code {
            Some(code) => ReceiveView { state: ReceiveState::Initial(code) },
            None => ReceiveView { state: ReceiveState::initial() },
        }
    }

    pub fn show_switcher(&self) -> (r: bool)
        ensures
            r == (self.state is Initial),
    {
        self.state.show_switcher()
    }
}


/// The sending workflow; `C` controls a running send.
pub enum SendView<C> {
    Ready,
    /// The file picker is open.
    SelectingFile(OperationHandle<Option<Vec<String>>>),
    /// The send, and what is being sent. A failed send hands back the request to
    /// retry with, holding what was packed for it already.
    Sending(OperationHandle<Result<(), (PortalError, SendRequest)>>, C, SendRequest),
    /// The error, and the request to retry where there is one.
    Error(PortalError, Option<SendRequest>),
    Complete(SendRequest),
}

/// What a send begun for `paths` sends: nothing for no path, the path itself for one,
/// a selection for more.
pub open spec fn request_for(paths: Vec<String>, request: SendRequest) -> bool {
    &&& paths.len() > 1 ==> request == SendRequest::Selection(paths)
    &&& paths.len() == 1 ==> (request matches SendRequest::File(p) && p@ == paths[0]@) || (
    request matches SendRequest::Folder(p) && p@ == paths[0]@)
}

/// `next` is the send of `paths` begun by `start`, or `Ready` where there is nothing
/// to send.
pub open spec fn begins_sending<C, F: FnOnce(&SendRequest) -> (
    OperationHandle<Result<(), (PortalError, SendRequest)>>,
    C,
)>(paths: Vec<String>, start: F, next: SendView<C>) -> bool {
    if paths.len() == 0 {
        next is Ready
    } else {
        next matches SendView::Sending(h, c, request) && request_for(paths, request)
            && call_ensures(start, (&request,), (h, c))
    }
}

/// The table of `SelectingFile`.
pub open spec fn after_selecting<C, F: FnOnce(&SendRequest) -> (
    OperationHandle<Result<(), (PortalError, SendRequest)>>,
    C,
)>(picked: Option<Vec<String>>, start: F, next: SendView<C>) -> bool {
    match picked {
        None => next is Ready,
        Some(paths) => begins_sending(paths, start, next),
    }
}

/// The table of `Sending`.
pub open spec fn after_sending<C>(
    result: Result<(), (PortalError, SendRequest)>,
    request: SendRequest,
    next: SendView<C>,
) -> bool {
    match result {
        Ok(()) => next == SendView::<C>::Complete(request),
        Err((PortalError::Canceled, _)) => next is Ready,
        Err((error, retry)) => next == SendView::<C>::Error(error, Some(retry)),
    }
}

impl<C> SendView<C> {
    pub fn sending_table(result: Result<(), (PortalError, SendRequest)>, request: SendRequest) -> (r:
        Self)
        ensures
            after_sending(result, request, r),
    {
        match result {
            Ok(()) => SendView::Complete(request),
            Err((PortalError::Canceled, _)) => SendView::Ready,
            Err((error, retry)) => SendView::Error(error, Some(retry)),
        }
    }

    /// Begins sending `paths`, or stays `Ready` where there is nothing to send.
    pub fn begin_sending<F: FnOnce(&SendRequest) -> (
        OperationHandle<Result<(), (PortalError, SendRequest)>>,
        C,
    )>(paths: Vec<String>, start: F) -> (r: Self)
        requires
            forall|q: &SendRequest| start.requires((q,)),
        ensures
            begins_sending(paths, start, r),
    {
        match SendRequest::from_paths(paths) {
            Some(request) => {
                let (handle, controller) = start(&request);
                SendView::Sending(handle, controller, request)
            },
            None => SendView::Ready,
        }
    }

    pub fn selecting_table<F: FnOnce(&SendRequest) -> (
        OperationHandle<Result<(), (PortalError, SendRequest)>>,
        C,
    )>(picked: Option<Vec<String>>, start: F) -> (r: Self)
        requires
            forall|q: &SendRequest| start.requires((q,)),
        ensures
            after_selecting(picked, start, r),
    {
        match picked {
            None => SendView::Ready,
            Some(paths) => Self::begin_sending(paths, start),
        }
    }

    /// The state that `old` settles in when its handle delivered; `start` begins a
    /// send where the file picker delivered paths.
    pub open spec fn settles<F: FnOnce(&SendRequest) -> (
        OperationHandle<Result<(), (PortalError, SendRequest)>>,
        C,
    )>(
        old: Self,
        next: Self,
        start: F,
        picked: Delivery<Option<Vec<String>>>,
        sent: Delivery<Result<(), (PortalError, SendRequest)>>,
    ) -> bool {
        match old {
            SendView::SelectingFile(..) => settled(
                picked,
                old,
                |v, s| after_selecting(v, start, s),
                SendView::Error(PortalError::Disconnected, None),
                next,
            ),
            SendView::Sending(_, _, request) => settled(
                sent,
                old,
                |v, s| after_sending(v, request, s),
                SendView::Error(PortalError::Disconnected, Some(request)),
                next,
            ),
            _ => next == old,
        }
    }

    /// `SelectingFile` after the file picker delivered `delivery`; `start` begins a
    /// send where it delivered paths.
    pub fn settle_selecting<F: FnOnce(&SendRequest) -> (
        OperationHandle<Result<(), (PortalError, SendRequest)>>,
        C,
    )>(
        handle: OperationHandle<Option<Vec<String>>>,
        delivery: Delivery<Option<Vec<String>>>,
        start: F,
    ) -> (r: Self)
        requires
            forall|q: &SendRequest| start.requires((q,)),
        ensures
            delivery is Pending ==> r == SendView::<C>::SelectingFile(handle),
            delivery matches Delivery::Ready(v) ==> after_selecting(v, start, r),
            delivery is Disconnected ==> r == SendView::<C>::Error(PortalError::Disconnected, None),
    {
        match delivery {
            Delivery::Pending => SendView::SelectingFile(handle),
            Delivery::Ready(picked) => Self::selecting_table(picked, start),
            Delivery::Disconnected => SendView::Error(PortalError::Disconnected, None),
        }
    }

    /// `Sending` after the send delivered `delivery`.
    pub fn settle_sending(
        handle: OperationHandle<Result<(), (PortalError, SendRequest)>>,
        controller: C,
        request: SendRequest,
        delivery: Delivery<Result<(), (PortalError, SendRequest)>>,
    ) -> (r: Self)
        ensures
            delivery is Pending ==> r == SendView::<C>::Sending(handle, controller, request),
            delivery matches Delivery::Ready(v) ==> after_sending(v, request, r),
            delivery is Disconnected ==> r == SendView::<C>::Error(
                PortalError::Disconnected,
                Some(request),
            ),
    {
        match delivery {
            Delivery::Pending => SendView::Sending(handle, controller, request),
            Delivery::Ready(result) => Self::sending_table(result, request),
            Delivery::Disconnected => SendView::Error(PortalError::Disconnected, Some(request)),
        }
    }

    /// Makes at most one transition: where the current state waits on a handle that
    /// has delivered, to the state that its table gives.
    pub fn advance<F: FnOnce(&SendRequest) -> (
        OperationHandle<Result<(), (PortalError, SendRequest)>>,
        C,
    )>(&mut self, start: F)
        requires
            forall|q: &SendRequest| start.requires((q,)),
        ensures
            exists|
                picked: Delivery<Option<Vec<String>>>,
                sent: Delivery<Result<(), (PortalError, SendRequest)>>,
            | Self::settles(*old(self), *final(self), start, picked, sent),
    {
        let mut current = SendView::Ready;
        std::mem::swap(self, &mut current);
        let ghost begin = current;
        let next = match current {
            SendView::SelectingFile(handle) => {
                let delivery = handle.poll();
                let ghost d = delivery;
                let next = Self::settle_selecting(handle, delivery, start);
                assert(Self::settles(begin, next, start, d, Delivery::Pending));
                next
            },
            SendView::Sending(handle, controller, request) => {
                let delivery = handle.poll();
                let ghost d = delivery;
                let next = Self::settle_sending(handle, controller, request, delivery);
                assert(Self::settles(begin, next, start, Delivery::Pending, d));
                next
            },
            other => {
                assert(Self::settles(begin, other, start, Delivery::Pending, Delivery::Pending));
                other
            },
        };
        *self = next;
    }

    /// Opens the file picker, whose answer `picked` will deliver. Only from `Ready`.
    pub fn select_file(&mut self, picked: OperationHandle<Option<Vec<String>>>)
        ensures
            *old(self) is Ready ==> *final(self) == SendView::<C>::SelectingFile(picked),
            !(*old(self) is Ready) ==> *final(self) == *old(self),
    {
        if let SendView::Ready = self {
            *self = SendView::SelectingFile(picked);
        }
    }

    /// Sends paths that were dropped on the window, where no transfer is under way.
    pub fn accept_dropped_files<F: FnOnce(&SendRequest) -> (
        OperationHandle<Result<(), (PortalError, SendRequest)>>,
        C,
    )>(&mut self, paths: Vec<String>, start: F)
        requires
            forall|q: &SendRequest| start.requires((q,)),
        ensures
            (*old(self) is Ready || *old(self) is Complete) && paths.len() > 0 ==> begins_sending(
                paths,
                start,
                *final(self),
            ),
            !((*old(self) is Ready || *old(self) is Complete) && paths.len() > 0) ==> *final(self)
                == *old(self),
    {
        let idle = match self {
            SendView::Ready | SendView::Complete(_) => true,
            _ => false,
        };
        if idle && paths.len() > 0 {
            *self = Self::begin_sending(paths, start);
        }
    }

    /// Sends again what failed, reusing what was packed for it.
    pub fn retry<F: FnOnce(&SendRequest) -> (
        OperationHandle<Result<(), (PortalError, SendRequest)>>,
        C,
    )>(&mut self, start: F)
        requires
            forall|q: &SendRequest| start.requires((q,)),
        ensures
            *old(self) matches SendView::Error(_, Some(request)) ==> (*final(self) matches SendView::Sending(
                h,
                c,
                again,
            ) && again == request && call_ensures(start, (&request,), (h, c))),
            !(*old(self) matches SendView::Error(_, Some(_))) ==> *final(self) == *old(self),
    {
        if let SendView::Error(_, Some(_)) = self {
            let mut current = SendView::Ready;
            std::mem::swap(self, &mut current);
            if let SendView::Error(_, Some(request)) = current {
                let (handle, controller) = start(&request);
                *self = SendView::Sending(handle, controller, request);
            }
        }
    }

    /// Leaves an error or a finished send for a new start.
    pub fn back(&mut self)
        ensures
            *old(self) is Error || *old(self) is Complete ==> *final(self) is Ready,
            !(*old(self) is Error || *old(self) is Complete) ==> *final(self) == *old(self),
    {
        match self {
            SendView::Error(..) | SendView::Complete(_) => {
                *self = SendView::Ready;
            },
            _ => {},
        }
    }

    /// Whether the switch between sending and receiving is offered: only while
    /// nothing is being sent.
    pub fn show_switcher(&self) -> (r: bool)
        ensures
            r == (self is Ready || self is SelectingFile),
    {
        match self {
            SendView::Ready | SendView::SelectingFile(_) => true,
            _ => false,
        }
    }

    /// Whether the view takes input: not while the file picker is open.
    pub fn ui_enabled(&self) -> (r: bool)
        ensures
            r == !(self is SelectingFile),
    {
        match self {
            SendView::SelectingFile(_) => false,
            _ => true,
        }
    }
}

/// Bytes moved so far, of how many.
#[derive(Clone, Copy, Debug, PartialEq, Eq, Structural)]
pub struct Progress {
    pub value: u64,
    pub total: u64,
}

impl Progress {
    pub fn new() -> (r: Progress)
        ensures
            r == (Progress { value: 0, total: 0 }),
    {
        Progress { value: 0, total: 0 }
    }
}

/// The milestones of a send that the user sees; `I` describes how the peers are
/// connected.
pub enum SendingProgress<I> {
    Packing,
    Connecting,
    /// The code that the receiver types.
    Connected(String),
    PreparingToSend,
    Sending(I, Progress),
}

impl<I> SendingProgress<I> {
    /// The milestone once the transfer library reported how the peers connected.
    pub fn on_transit(info: I) -> (r: Self)
        ensures
            r == SendingProgress::Sending(info, Progress { value: 0, total: 0 }),
    {
        SendingProgress::Sending(info, Progress::new())
    }

    /// The milestone after the transfer library reported `value` of `total` bytes
    /// sent; before the connection is known there is nothing to show it with.
    pub fn on_bytes(self, value: u64, total: u64) -> (r: Self)
        ensures
            self matches SendingProgress::Sending(info, _) ==> r == SendingProgress::Sending(
                info,
                Progress { value, total },
            ),
            !(self is Sending) ==> r == self,
    {
        match self {
            SendingProgress::Sending(info, _) => SendingProgress::Sending(
                info,
                Progress { value, total },
            ),
            other => other,
        }
    }
}

/// Which of the two views is shown.
#[derive(Clone, Copy, Debug, PartialEq, Eq, Structural)]
pub enum ActiveView {
    Send,
    Receive,
}

impl ActiveView {
    /// The view that the toggle selects: on is receiving.
    pub fn from_toggle(on: bool) -> (r: ActiveView)
        ensures
            r == (if on {
                ActiveView::Receive
            } else {
                ActiveView::Send
            }),
    {
        if on {
            ActiveView::Receive
        } else {
            ActiveView::Send
        }
    }
}

/// Both workflows and the toggle between them.
#[verifier::reject_recursive_types(Q)]
pub struct MainViewState<SC, C, Q, R> {
    pub send_view: SendView<SC>,
    pub receive_view: ReceiveView<C, Q, R>,
    pub view_toggle: bool,
}

impl<SC, C, Q, R> MainViewState<SC, C, Q, R> {
    /// Both workflows at their start, showing the sending view.
    pub fn new() -> (r: Self)
        ensures
            r.send_view is Ready,
            is_blank_initial(r.receive_view.state),
            !r.view_toggle,
    {
        MainViewState {
            send_view: SendView::Ready,
            receive_view: ReceiveView { state: ReceiveState::initial() },
            view_toggle: false,
        }
    }

    /// Opened by a link to receive a file: the receiving view, with the link's code.
    pub fn from_receive_file_action(action: ReceiveFileAction) -> (r: Self)
        ensures
            r.send_view is Ready,
            r.receive_view.state == ReceiveState::<C, Q, R>::Initial(action.code),
            r.view_toggle,
    {
        MainViewState {
            send_view: SendView::Ready,
            receive_view: ReceiveView::new_with_uri(Some(action.code)),
            view_toggle: true,
        }
    }
}

/// Whether the toggle between the views is offered.
pub fn show_switcher<SC, C, Q, R>(state: &MainViewState<SC, C, Q, R>, view: ActiveView) -> (r: bool)
    ensures
        view == ActiveView::Send ==> r == (state.send_view is Ready || state.send_view is SelectingFile),
        view == ActiveView::Receive ==> r == (state.receive_view.state is Initial),
{
    match view {
        ActiveView::Send => state.send_view.show_switcher(),
        ActiveView::Receive => state.receive_view.show_switcher(),
    }
}

/// Whether the shown view takes input.
pub fn ui_enabled<SC, C, Q, R>(state: &MainViewState<SC, C, Q, R>, view: ActiveView) -> (r: bool)
    ensures
        r == (view == ActiveView::Receive || !(state.send_view is SelectingFile)),
{
    match view {
        ActiveView::Send => state.send_view.ui_enabled(),
        ActiveView::Receive => true,
    }
}

} // verus!
