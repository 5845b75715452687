use vstd::prelude::*;
use crossbeam_channel::{Receiver, Sender};
use vmm_sys_util::eventfd::EventFd;
use crate::action::{settle, settled, Action, ActionOutcome, CallError, Payload, TransportError};

verus! {

#[verifier::external_type_specification]
#[verifier::external_body]
#[verifier::reject_recursive_types(T)]
pub struct ExSender<T>(Sender<T>);

#[verifier::external_type_specification]
#[verifier::external_body]
#[verifier::reject_recursive_types(T)]
pub struct ExReceiver<T>(Receiver<T>);

#[verifier::external_type_specification]
#[verifier::external_body]
pub struct ExEventFd(EventFd);

/// Relies on crossbeam_channel::unbounded for a fresh queue with no bound on its length.
pub assume_specification<T>[ crossbeam_channel::unbounded::<T> ]() -> (Sender<T>, Receiver<T>);

/// Relies on crossbeam_channel::Sender::send, which fails only when every receiver is gone.
#[verifier::external_body]
fn send_message<T>(tx: &Sender<T>, msg: T) -> Result<(), TransportError> {
    match tx.send(msg) {
        Ok(()) => Ok(()),
        Err(_) => Err(TransportError::Disconnected),
    }
}

/// Relies on crossbeam_channel::Receiver::recv, which blocks until a message comes and fails
/// only when the queue is empty and every sender is gone.
#[verifier::external_body]
fn receive_message<T>(rx: &Receiver<T>) -> Result<T, TransportError> {
    match rx.recv() {
        Ok(m) => Ok(m),
        Err(_) => Err(TransportError::Disconnected),
    }
}

/// Relies on crossbeam_channel::Receiver::try_iter: takes every message queued now, in the
/// order they were sent, without blocking.
#[verifier::external_body]
fn take_queued<T>(rx: &Receiver<T>) -> Vec<T> {
    rx.try_iter().collect()
}

/// Relies on vmm_sys_util's EventFd::write: adds one to the eventfd's counter.
#[verifier::external_body]
fn signal(fd: &EventFd) -> Result<(), TransportError> {
    match fd.write(1) {
        Ok(()) => Ok(()),
        Err(_) => Err(TransportError::Disconnected),
    }
}

/// Relies on vmm_sys_util's EventFd::read: takes the counter and resets it; `None` when the
/// read fails, as it does on a non-blocking eventfd whose counter is zero.
#[verifier::external_body]
fn consume_signals(fd: &EventFd) -> Option<u64> {
    fd.read().ok()
}

/// A command travelling to the worker.
#[derive(Debug, PartialEq, Eq)]
pub enum Request {
    Sync(Action),
}

/// The callers' end of the control channel: commands go out, outcomes come back, and an
/// eventfd tells the worker that commands are waiting.
///
/// Outcomes carry no correlation id, so every method that touches the channel takes
/// `&mut self`: a round trip holds exclusive access from its submit to its await, and
/// threads share one `VmmChannel` behind a lock taken for the whole call.
pub struct VmmChannel {
    to_vmm: Sender<Request>,
    from_vmm: Receiver<ActionOutcome>,
    to_vmm_fd: EventFd,
    /// Every command this end has queued for the worker, in order.
    sent: Ghost<Seq<Action>>,
    /// How many wake signals this end has given.
    signals: Ghost<nat>,
    /// How many of the commands queued last still await their outcome.
    unanswered: usize,
}

/// The worker's end of the control channel.
pub struct WorkerEnd {
    from_callers: Receiver<Request>,
    to_callers: Sender<ActionOutcome>,
    wake_fd: EventFd,
}

/// Builds both ends of a control channel. `caller_fd` and `worker_fd` are two handles to one
/// eventfd: the callers write it, the worker reads it.
pub fn control_channel(caller_fd: EventFd, worker_fd: EventFd) -> (r: (VmmChannel, WorkerEnd))
    ensures
        r.0.sent() == Seq::<Action>::empty(),
        r.0.signals() == 0,
        r.0.is_idle(),
{
    let (to_vmm, from_callers) = crossbeam_channel::unbounded::<Request>();
    let (to_callers, from_vmm) = crossbeam_channel::unbounded::<ActionOutcome>();
    (
        VmmChannel {
            to_vmm,
            from_vmm,
            to_vmm_fd: caller_fd,
            sent: Ghost(Seq::empty()),
            signals: Ghost(0),
            unanswered: 0,
        },
        WorkerEnd { from_callers, to_callers, wake_fd: worker_fd },
    )
}

impl VmmChannel {
    /// Every command queued for the worker through this end, in order.
    pub closed spec fn sent(&self) -> Seq<Action> {
        self.sent@
    }

    /// How many wake signals this end has given the worker.
    pub closed spec fn signals(&self) -> nat {
        self.signals@
    }

    /// How many of the last commands in `sent()` still await their outcome. The worker
    /// answers commands in the order they were queued.
    pub closed spec fn outstanding(&self) -> nat {
        self.unanswered as nat
    }

    /// No command is waiting for its outcome.
    pub open spec fn is_idle(&self) -> bool {
        self.outstanding() == 0
    }

    /// Enqueues one command for the worker, then wakes it. When the enqueue fails (the worker
    /// is gone) nothing is queued and no wake is given. When the enqueue succeeds the command
    /// stays queued, and one wake is given unless the result is the wake's own error.
    ///
    /// It also fails, queuing nothing, when `usize::MAX` commands already await outcomes.
    pub fn submit(&mut self, action: Action) -> (r: Result<(), TransportError>)
        ensures
            final(self).sent() == old(self).sent() || final(self).sent() == old(self).sent().push(
                action,
            ),
            final(self).sent() == old(self).sent() ==> {
                &&& r is Err
                &&& final(self).signals() == old(self).signals()
                &&& final(self).outstanding() == old(self).outstanding()
            },
            final(self).sent() == old(self).sent().push(action) ==> {
                &&& final(self).outstanding() == old(self).outstanding() + 1
                &&& r is Ok ==> final(self).signals() == old(self).signals() + 1
                &&& r is Err ==> final(self).signals() == old(self).signals()
            },
    {
        let ghost queued = action;
        assert(self.sent@.push(queued).len() != self.sent@.len());
        if self.unanswered == usize::MAX {
            return Err(TransportError::Disconnected);
        }
        match send_message(&self.to_vmm, Request::Sync(action)) {
            Ok(()) => {
                self.sent = Ghost(self.sent@.push(queued));
                self.unanswered = self.unanswered + 1;
                match signal(&self.to_vmm_fd) {
                    Ok(()) => {
                        self.signals = Ghost(self.signals@ + 1);
                        Ok(())
                    },
                    Err(e) => Err(e),
                }
            },
            Err(e) => Err(e),
        }
    }

    /// Blocks until the worker hands back the outcome of the oldest unanswered command.
    fn await_outcome(&mut self) -> (r: Result<ActionOutcome, TransportError>)
        requires
            old(self).outstanding() > 0,
        ensures
            final(self).sent() == old(self).sent(),
            final(self).signals() == old(self).signals(),
            r is Ok ==> final(self).outstanding() == old(self).outstanding() - 1,
            r is Err ==> final(self).outstanding() == old(self).outstanding(),
    {
        let r = receive_message(&self.from_vmm);
        if r.is_ok() {
            self.unanswered = self.unanswered - 1;
        }
        r
    }

    /// One round trip: submits the action and awaits its outcome, with no other round trip
    /// in between. Outcomes still owed to commands queued earlier (by a round trip that
    /// failed after its enqueue) are taken and dropped first, so the outcome returned is the
    /// one for `action`. Nothing is awaited when the submit fails.
    pub fn send_request(&mut self, action: Action) -> (r: Result<ActionOutcome, TransportError>)
        ensures
            final(self).sent() == old(self).sent() || final(self).sent() == old(self).sent().push(
                action,
            ),
            final(self).sent() == old(self).sent() ==> {
                &&& r is Err
                &&& final(self).signals() == old(self).signals()
                &&& final(self).outstanding() == old(self).outstanding()
            },
            final(self).sent() == old(self).sent().push(action) ==> {
                ||| final(self).signals() == old(self).signals() + 1
                ||| r is Err && final(self).signals() == old(self).signals()
            },
            r is Ok ==> {
                &&& final(self).sent() == old(self).sent().push(action)
                &&& final(self).signals() == old(self).signals() + 1
                &&& final(self).is_idle()
            },
            r is Err && final(self).sent() == old(self).sent().push(action)
                ==> final(self).outstanding() > 0,
    {
        let ghost sent0 = self.sent();
        let ghost queued = action;
        assert(sent0.push(queued).len() != sent0.len());
        let stale = self.unanswered;
        match self.submit(action) {
            Err(e) => Err(e),
            Ok(()) => {
                let ghost sent1 = self.sent();
                let ghost signals1 = self.signals();
                assert(sent1 == sent0.push(queued));
                let mut i: usize = 0;
                while i < stale
                    invariant
                        i <= stale,
                        sent0 == old(self).sent(),
                        queued == action,
                        signals1 == old(self).signals() + 1,
                        sent1 == sent0.push(queued),
                        sent1.len() != sent0.len(),
                        self.outstanding() == stale - i + 1,
                        self.sent() == sent1,
                        self.signals() == signals1,
                    decreases stale - i,
                {
                    match self.await_outcome() {
                        Ok(_) => {},
                        Err(e) => {
                            return Err(e);
                        },
                    }
                    i = i + 1;
                }
                self.await_outcome()
            },
        }
    }

    /// Runs an action through one round trip. The result is the engine's payload, its
    /// refusal, or `ChannelClosed`: never `RetriesExhausted`. Unless the channel closed, the
    /// action was queued, the worker woken once, and the call ends with no command pending.
    /// When the enqueue failed, no wake was given; when a later stage failed, the action
    /// stays queued and still awaits its outcome.
    pub fn call(&mut self, action: Action) -> (r: Result<Payload, CallError>)
        ensures
            exists|o: Result<ActionOutcome, TransportError>| r == settled(o),
            final(self).sent() == old(self).sent() || final(self).sent() == old(self).sent().push(
                action,
            ),
            final(self).sent() == old(self).sent() ==> {
                &&& r == Err::<Payload, CallError>(CallError::ChannelClosed)
                &&& final(self).signals() == old(self).signals()
                &&& final(self).outstanding() == old(self).outstanding()
            },
            final(self).sent() == old(self).sent().push(action) ==> {
                ||| final(self).signals() == old(self).signals() + 1
                ||| r == Err::<Payload, CallError>(CallError::ChannelClosed) && final(self).signals()
                    == old(self).signals()
            },
            r != Err::<Payload, CallError>(CallError::ChannelClosed) ==> {
                &&& final(self).sent() == old(self).sent().push(action)
                &&& final(self).signals() == old(self).signals() + 1
                &&& final(self).is_idle()
            },
            r == Err::<Payload, CallError>(CallError::ChannelClosed) && final(self).sent() == old(
                self,
            ).sent().push(action) ==> final(self).outstanding() > 0,
    {
        settle(self.send_request(action))
    }
}

impl WorkerEnd {
    /// One poll cycle: consumes every wake signal given since the last cycle at once and, if
    /// there was any, takes every command queued, in the order it was submitted.
    pub fn poll(&self) -> Vec<Request> {
        match consume_signals(&self.wake_fd) {
            Some(_) => take_queued(&self.from_callers),
            None => Vec::new(),
        }
    }

    /// Hands the outcome of the oldest command back to its caller.
    pub fn reply(&self, outcome: ActionOutcome) -> Result<(), TransportError> {
        send_message(&self.to_callers, outcome)
    }
}

} // verus!
