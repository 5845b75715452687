use vstd::prelude::*;
use crate::action::{Action, ActionError, CallError, Payload};
use crate::retry::{verdict_of, RetryState, Verdict, REQUEST_RETRY, RETRY_BACKOFF_MS};

verus! {

/// Which step of a dispatch failed, and why.
#[derive(Debug, PartialEq, Eq)]
pub struct StepFailure {
    pub step: usize,
    pub error: CallError,
}

/// What the dispatcher asks its driver to do next.
#[derive(Debug, PartialEq, Eq)]
pub enum Directive {
    /// Make one round trip with this action now.
    Send(Action),
    /// Wait this many milliseconds, then make one round trip with this action.
    SendAfter(u64, Action),
    /// Nothing more to send: every action succeeded, or this one step failed.
    Finished(Result<(), StepFailure>),
}

/// Drives an ordered list of actions to the engine, one round trip at a time. Attachments are
/// retried while the engine answers "not ready"; the first failure ends the whole list, and
/// no later action is sent.
///
/// The dispatcher decides; its driver performs each `Directive` (a round trip, a wait) and
/// hands the reply back through `on_reply`.
pub struct Dispatcher {
    pub actions: Vec<Action>,
    pub next: usize,
    pub retry: RetryState,
    pub failure: Option<StepFailure>,
}

/// The mathematical state of a dispatcher.
pub struct DispatchModel {
    pub actions: Seq<Action>,
    pub next: int,
    pub attempts: nat,
    pub failure: Option<StepFailure>,
}

impl View for Dispatcher {
    type V = DispatchModel;

    open spec fn view(&self) -> DispatchModel {
        DispatchModel {
            actions: self.actions@,
            next: self.next as int,
            attempts: self.retry.attempts as nat,
            failure: self.failure,
        }
    }
}

/// The dispatcher's state before anything was sent.
pub open spec fn initial_model(actions: Seq<Action>) -> DispatchModel {
    DispatchModel { actions, next: 0, attempts: 0, failure: None }
}

/// What a dispatcher in state `m` wants done, when it is not waiting out a back-off.
pub open spec fn pending_directive(m: DispatchModel) -> Directive {
    match m.failure {
        Some(f) => Directive::Finished(Err(f)),
        None => if 0 <= m.next < m.actions.len() {
            Directive::Send(m.actions[m.next])
        } else {
            Directive::Finished(Ok(()))
        },
    }
}

/// The state after the reply `r` to the action in flight, and the directive that follows.
pub open spec fn reply_step(m: DispatchModel, r: Result<Payload, CallError>) -> (
    DispatchModel,
    Directive,
) {
    if m.failure is None && 0 <= m.next < m.actions.len() {
        let a = m.actions[m.next];
        let v = if a.is_attachment() {
            verdict_of(m.attempts, r)
        } else {
            Verdict::Settled(r)
        };
        match v {
            Verdict::Again => (
                DispatchModel { attempts: m.attempts + 1, ..m },
                Directive::SendAfter(RETRY_BACKOFF_MS, a),
            ),
            Verdict::Settled(Ok(_)) => {
                let m2 = DispatchModel { next: m.next + 1, attempts: 0, ..m };
                (m2, pending_directive(m2))
            },
            Verdict::Settled(Err(e)) => {
                let f = StepFailure { step: m.next as usize, error: e };
                (DispatchModel { failure: Some(f), ..m }, Directive::Finished(Err(f)))
            },
        }
    } else {
        (m, pending_directive(m))
    }
}

impl Dispatcher {
    pub fn new(actions: Vec<Action>) -> (d: Dispatcher)
        ensures
            d@ == initial_model(actions@),
    {
        Dispatcher { actions, next: 0, retry: RetryState::new(), failure: None }
    }

    /// The first directive, or the current one when no back-off is pending.
    pub fn start(&self) -> (d: Directive)
        ensures
            d == pending_directive(self@),
    {
        match &self.failure {
            Some(f) => Directive::Finished(
                Err(StepFailure { step: f.step, error: clone_call_error(&f.error) }),
            ),
            None => if self.next < self.actions.len() {
                Directive::Send(self.actions[self.next].clone())
            } else {
                Directive::Finished(Ok(()))
            },
        }
    }

    /// Takes the reply to the action in flight and says what to do next.
    pub fn on_reply(&mut self, r: Result<Payload, CallError>) -> (d: Directive)
        ensures
            (final(self)@, d) == reply_step(old(self)@, r),
    {
        if self.failure.is_some() || self.next >= self.actions.len() {
            return self.start();
        }
        let v = if self.actions[self.next].needs_retry() {
            self.retry.observe(r)
        } else {
            Verdict::Settled(r)
        };
        match v {
            Verdict::Again => Directive::SendAfter(
                RETRY_BACKOFF_MS,
                self.actions[self.next].clone(),
            ),
            Verdict::Settled(Ok(_)) => {
                self.next = self.next + 1;
                self.retry = RetryState::new();
                self.start()
            },
            Verdict::Settled(Err(e)) => {
                let err = clone_call_error(&e);
                self.failure = Some(StepFailure { step: self.next, error: e });
                Directive::Finished(Err(StepFailure { step: self.next, error: err }))
            },
        }
    }

    pub fn is_finished(&self) -> (b: bool)
        ensures
            b == (pending_directive(self@) is Finished),
    {
        self.failure.is_some() || self.next >= self.actions.len()
    }
}

fn clone_call_error(e: &CallError) -> (r: CallError)
    ensures
        r == *e,
{
    match e {
        CallError::ChannelClosed => CallError::ChannelClosed,
        CallError::Rejected(a) => CallError::Rejected(clone_action_error(a)),
        CallError::RetriesExhausted => CallError::RetriesExhausted,
    }
}

fn clone_action_error(e: &ActionError) -> (r: ActionError)
    ensures
        r == *e,
{
    match e {
        ActionError::NotReady => ActionError::NotReady,
        ActionError::Other(s) => ActionError::Other(s.clone()),
    }
}


pub open spec fn has_vm_configuration(s: Seq<Action>) -> bool {
    exists|i: int| 0 <= i < s.len() && #[trigger] s[i] is SetVmConfiguration
}

pub open spec fn has_boot_source(s: Seq<Action>) -> bool {
    exists|i: int| 0 <= i < s.len() && #[trigger] s[i] is ConfigureBootSource
}

/// Step `j` of a plan is in order: if it inserts a block device, a VM configuration and a
/// boot source come before it.
pub open spec fn in_order_at(plan: Seq<Action>, j: int) -> bool {
    plan[j] is InsertBlockDevice ==> has_vm_configuration(plan.take(j)) && has_boot_source(
        plan.take(j),
    )
}

pub open spec fn in_order(plan: Seq<Action>) -> bool {
    forall|j: int| 0 <= j < plan.len() ==> #[trigger] in_order_at(plan, j)
}

/// An engine stub that refuses, with `refusal`, to insert a block device before it has
/// accepted both a VM configuration and a boot source, and accepts everything else.
pub open spec fn ordering_stub(accepted: Seq<Action>, a: Action, refusal: ActionError) -> Result<
    Payload,
    CallError,
> {
    if a is InsertBlockDevice && !(has_vm_configuration(accepted) && has_boot_source(accepted)) {
        Err(CallError::Rejected(refusal))
    } else {
        Ok(Payload::Empty)
    }
}

/// Drives a dispatcher against `ordering_stub` for at most `fuel` round trips. The stub has
/// accepted exactly the steps before the one in flight.
pub open spec fn stub_run(m: DispatchModel, refusal: ActionError, fuel: nat) -> Option<
    Result<(), StepFailure>,
>
    decreases fuel,
{
    match pending_directive(m) {
        Directive::Finished(res) => Some(res),
        Directive::Send(a) | Directive::SendAfter(_, a) => if fuel == 0 {
            None
        } else {
            let r = ordering_stub(m.actions.take(m.next), a, refusal);
            stub_run(reply_step(m, r).0, refusal, (fuel - 1) as nat)
        },
    }
}

/// The error a dispatch ends with when the engine keeps refusing one step with `refusal`:
/// the refusal itself, or `RetriesExhausted` when it is "not ready" (the refused step, a block
/// device, is an attachment and so is retried).
pub open spec fn persistent_refusal_error(refusal: ActionError) -> CallError {
    if refusal is NotReady {
        CallError::RetriesExhausted
    } else {
        CallError::Rejected(refusal)
    }
}

/// Against an engine that refuses a block device until the VM configuration and the boot
/// source were accepted, a plan succeeds exactly when it is in order; otherwise it fails at
/// its first block device that comes too early, and nothing after that step is sent.
pub proof fn lemma_ordering_decides_success(plan: Seq<Action>, refusal: ActionError)
    requires
        plan.len() <= usize::MAX,
    ensures
        in_order(plan) ==> stub_run(initial_model(plan), refusal, plan.len() + REQUEST_RETRY as nat)
            == Some(Ok::<(), StepFailure>(())),
        !in_order(plan) ==> {
            let res = stub_run(initial_model(plan), refusal, plan.len() + REQUEST_RETRY as nat);
            &&& res matches Some(Err(f))
            &&& 0 <= f.step < plan.len()
            &&& !in_order_at(plan, f.step as int)
            &&& forall|j: int| 0 <= j < f.step ==> #[trigger] in_order_at(plan, j)
            &&& f.error == persistent_refusal_error(refusal)
        },
{
    lemma_stub_run_from(initial_model(plan), refusal, (plan.len() + REQUEST_RETRY as nat) as nat);
}

/// A step the stub refuses is refused on every attempt, until the dispatcher gives up on it.
proof fn lemma_stub_refuses_step(m: DispatchModel, refusal: ActionError, fuel: nat)
    requires
        m.failure is None,
        0 <= m.next < m.actions.len(),
        m.actions.len() <= usize::MAX,
        m.attempts < REQUEST_RETRY,
        fuel >= REQUEST_RETRY - m.attempts,
        !in_order_at(m.actions, m.next),
    ensures
        stub_run(m, refusal, fuel) == Some(
            Err::<(), StepFailure>(
                StepFailure { step: m.next as usize, error: persistent_refusal_error(refusal) },
            ),
        ),
    decreases REQUEST_RETRY - m.attempts,
{
    let a = m.actions[m.next];
    let r = ordering_stub(m.actions.take(m.next), a, refusal);
    assert(r == Err::<Payload, CallError>(CallError::Rejected(refusal)));
    assert(a.is_attachment());
    let m2 = reply_step(m, r).0;
    assert(pending_directive(m) == Directive::Send(a));
    assert(stub_run(m, refusal, fuel) == stub_run(m2, refusal, (fuel - 1) as nat));
    if refusal is NotReady && m.attempts + 1 < REQUEST_RETRY {
        assert(m2 == DispatchModel { attempts: m.attempts + 1, ..m });
        lemma_stub_refuses_step(m2, refusal, (fuel - 1) as nat);
    } else {
        let f = StepFailure { step: m.next as usize, error: persistent_refusal_error(refusal) };
        assert(m2 == DispatchModel { failure: Some(f), ..m });
        assert(pending_directive(m2) == Directive::Finished(Err::<(), StepFailure>(f)));
    }
}

proof fn lemma_stub_run_from(m: DispatchModel, refusal: ActionError, fuel: nat)
    requires
        m.failure is None,
        m.attempts == 0,
        0 <= m.next <= m.actions.len(),
        m.actions.len() <= usize::MAX,
        fuel >= m.actions.len() - m.next + REQUEST_RETRY,
        forall|j: int| 0 <= j < m.next ==> #[trigger] in_order_at(m.actions, j),
    ensures
        in_order(m.actions) ==> stub_run(m, refusal, fuel) == Some(Ok::<(), StepFailure>(())),
        !in_order(m.actions) ==> {
            let res = stub_run(m, refusal, fuel);
            &&& res matches Some(Err(f))
            &&& m.next <= f.step < m.actions.len()
            &&& !in_order_at(m.actions, f.step as int)
            &&& forall|j: int| 0 <= j < f.step ==> #[trigger] in_order_at(m.actions, j)
            &&& f.error == persistent_refusal_error(refusal)
        },
    decreases fuel,
{
    let plan = m.actions;
    if m.next == plan.len() {
        assert forall|j: int| 0 <= j < plan.len() implies #[trigger] in_order_at(plan, j) by {}
    } else {
        let a = plan[m.next];
        let r = ordering_stub(plan.take(m.next), a, refusal);
        if in_order_at(plan, m.next) {
            assert(r == Ok::<Payload, CallError>(Payload::Empty));
            let m2 = reply_step(m, r).0;
            assert(m2 == DispatchModel { next: m.next + 1, attempts: 0, ..m });
            assert forall|j: int| 0 <= j < m2.next implies #[trigger] in_order_at(m2.actions, j) by {}
            lemma_stub_run_from(m2, refusal, (fuel - 1) as nat);
        } else {
            lemma_stub_refuses_step(m, refusal, fuel);
            assert(!in_order(plan));
        }
    }
}

} // verus!
