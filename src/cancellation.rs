//! The shared state behind a cancellation source and its tokens.
//!
//! The state is a flag and the actions registered while it was down. Whoever holds
//! the state behind a lock calls [`CancellationState::register`] and
//! [`CancellationState::cancel`] inside the critical section and runs the actions
//! that they hand back after leaving it; so every action runs exactly once, and an
//! action registered after cancellation runs at once.
use vstd::prelude::*;

verus! {

/// The flag and the pending actions, as values.
pub ghost struct CancellationModel<A> {
    pub canceled: bool,
    pub pending: Seq<A>,
}

/// One call on the state.
pub ghost enum CancellationOp<A> {
    Register(A),
    Cancel,
}

/// The state after registering `a` on `m`, and the actions to run now.
pub open spec fn register_step<A>(m: CancellationModel<A>, a: A) -> (CancellationModel<A>, Seq<A>) {
    if m.canceled {
        (m, seq![a])
    } else {
        (CancellationModel { canceled: false, pending: m.pending.push(a) }, Seq::empty())
    }
}

/// The state after canceling `m`, and the actions to run now.
pub open spec fn cancel_step<A>(m: CancellationModel<A>) -> (CancellationModel<A>, Seq<A>) {
    (CancellationModel { canceled: true, pending: Seq::empty() }, m.pending)
}

pub open spec fn op_step<A>(m: CancellationModel<A>, op: CancellationOp<A>) -> (
    CancellationModel<A>,
    Seq<A>,
) {
    match op {
        CancellationOp::Register(a) => register_step(m, a),
        CancellationOp::Cancel => cancel_step(m),
    }
}

pub open spec fn initial_model<A>() -> CancellationModel<A> {
    CancellationModel { canceled: false, pending: Seq::empty() }
}

/// The state after `ops` applied in order from a fresh state.
pub open spec fn model_after<A>(ops: Seq<CancellationOp<A>>) -> CancellationModel<A>
    decreases ops.len(),
{
    if ops.len() == 0 {
        initial_model()
    } else {
        op_step(model_after(ops.drop_last()), ops.last()).0
    }
}

/// Every action handed out to run while `ops` were applied, in order.
pub open spec fn fired<A>(ops: Seq<CancellationOp<A>>) -> Seq<A>
    decreases ops.len(),
{
    if ops.len() == 0 {
        Seq::empty()
    } else {
        fired(ops.drop_last()) + op_step(model_after(ops.drop_last()), ops.last()).1
    }
}

/// The actions registered by `ops`, in order.
pub open spec fn registered<A>(ops: Seq<CancellationOp<A>>) -> Seq<A>
    decreases ops.len(),
{
    if ops.len() == 0 {
        Seq::empty()
    } else {
        match ops.last() {
            CancellationOp::Register(a) => registered(ops.drop_last()).push(a),
            CancellationOp::Cancel => registered(ops.drop_last()),
        }
    }
}

pub open spec fn has_cancel<A>(ops: Seq<CancellationOp<A>>) -> bool {
    exists|i: int| 0 <= i < ops.len() && ops[i] is Cancel
}

/// The error of an operation that stopped because it was canceled.
#[derive(Debug)]
pub struct CancellationError;

/// The flag and the actions waiting for cancellation.
pub struct CancellationState<A> {
    canceled: bool,
    pending: Vec<A>,
}

impl<A> CancellationState<A> {
    pub closed spec fn model(&self) -> CancellationModel<A> {
        CancellationModel { canceled: self.canceled, pending: self.pending@ }
    }

    pub fn new() -> (r: Self)
        ensures
            r.model() == initial_model::<A>(),
    {
        CancellationState { canceled: false, pending: Vec::new() }
    }

    pub fn is_canceled(&self) -> (r: bool)
        ensures
            r == self.model().canceled,
    {
        self.canceled
    }

    /// `Err` once canceled: for code that checks between steps of synchronous work.
    pub fn error_if_canceled(&self) -> (r: Result<(), CancellationError>)
        ensures
            r is Err <==> self.model().canceled,
    {
        if self.canceled {
            Err(CancellationError)
        } else {
            Ok(())
        }
    }

    /// Records `action` to run on cancellation. Once canceled, the action is handed
    /// back at once to run now.
    pub fn register(&mut self, action: A) -> (r: Option<A>)
        ensures
            final(self).model() == register_step(old(self).model(), action).0,
            r matches Some(a) ==> seq![a] == register_step(old(self).model(), action).1,
            r is None ==> register_step(old(self).model(), action).1 == Seq::<A>::empty(),
    {
        if self.canceled {
            Some(action)
        } else {
            self.pending.push(action);
            None
        }
    }

    /// Sets the flag and hands out every pending action, each once. Later calls hand
    /// out nothing.
    pub fn cancel(&mut self) -> (r: Vec<A>)
        ensures
            final(self).model() == cancel_step(old(self).model()).0,
            r@ == cancel_step(old(self).model()).1,
    {
        self.canceled = true;
        let mut taken = Vec::new();
        std::mem::swap(&mut taken, &mut self.pending);
        taken
    }
}

/// Runs each action in order.
pub fn run_actions<A: FnOnce()>(actions: Vec<A>)
    requires
        forall|i: int| 0 <= i < actions.len() ==> (#[trigger] actions[i]).requires(()),
{
    let mut rest = actions;
    while rest.len() > 0
        invariant
            forall|i: int| 0 <= i < rest.len() ==> (#[trigger] rest[i]).requires(()),
        decreases rest.len(),
    {
        let action = rest.remove(0);
        action();
    }
}

proof fn lemma_model_invariant<A>(ops: Seq<CancellationOp<A>>)
    ensures
        fired(ops) + model_after(ops).pending == registered(ops),
        model_after(ops).canceled == has_cancel(ops),
        model_after(ops).canceled ==> model_after(ops).pending.len() == 0,
    decreases ops.len(),
{
    if ops.len() > 0 {
        let pre = ops.drop_last();
        lemma_model_invariant(pre);
        assert(fired(ops) + model_after(ops).pending =~= registered(ops));
        if has_cancel(pre) {
            let i = choose|i: int| 0 <= i < pre.len() && pre[i] is Cancel;
            assert(ops[i] is Cancel);
        }
        if has_cancel(ops) && !(ops.last() is Cancel) {
            let i = choose|i: int| 0 <= i < ops.len() && ops[i] is Cancel;
            assert(pre[i] is Cancel);
        }
        if ops.last() is Cancel {
            assert(ops[ops.len() - 1] is Cancel);
        }
    }
}

/// Canceling once or many times, with registrations before, between and after, runs
/// every registered action exactly once, in the order of registration; and the state
/// reads as canceled from the first cancellation on. Without a cancellation nothing
/// runs.
pub proof fn lemma_each_action_runs_once<A>(ops: Seq<CancellationOp<A>>)
    ensures
        has_cancel(ops) ==> fired(ops) == registered(ops),
        !has_cancel(ops) ==> fired(ops) == Seq::<A>::empty(),
        model_after(ops).canceled <==> has_cancel(ops),
{
    lemma_model_invariant(ops);
    if has_cancel(ops) {
        assert(fired(ops) + model_after(ops).pending =~= fired(ops));
    } else {
        assert(registered(ops).len() == fired(ops).len() + model_after(ops).pending.len());
        lemma_nothing_fires_before_cancel(ops);
    }
}

proof fn lemma_nothing_fires_before_cancel<A>(ops: Seq<CancellationOp<A>>)
    requires
        !has_cancel(ops),
    ensures
        fired(ops) == Seq::<A>::empty(),
        !model_after(ops).canceled,
    decreases ops.len(),
{
    if ops.len() > 0 {
        let pre = ops.drop_last();
        assert(!has_cancel(pre)) by {
            if has_cancel(pre) {
                let i = choose|i: int| 0 <= i < pre.len() && pre[i] is Cancel;
                assert(ops[i] is Cancel);
            }
        }
        lemma_nothing_fires_before_cancel(pre);
        assert(!(ops[ops.len() - 1] is Cancel));
        assert(fired(ops) =~= Seq::<A>::empty());
    }
}

/// Registering on a canceled state runs the action at once, exactly once, and
/// leaves the state as it was.
pub proof fn lemma_late_registration<A>(m: CancellationModel<A>, a: A)
    requires
        m.canceled,
    ensures
        register_step(m, a) == (m, seq![a]),
{
}

} // verus!
