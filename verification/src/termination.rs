//! Waiting for a watched process to end, and what it did until then.
//!
//! `S` is the status with which a process exits, `A` is one recorded access to a path, and
//! `E` is an error of the host. Values of all three are only passed on.

use vstd::prelude::*;

verus! {

/// The records of a channel that takes no further ones.
#[derive(Debug, PartialEq, Eq)]
pub struct OwnedReceiverLockGuard<A> {
    pub path_accesses: Vec<A>,
}

impl<A> OwnedReceiverLockGuard<A> {
    /// The recorded accesses, in the order in which they were recorded.
    pub fn iter_path_accesses(&self) -> (accesses: core::slice::Iter<'_, A>)
        ensures
            vstd::std_specs::iter::IteratorSpec::remaining(&accesses).unref()
                == self.path_accesses@,
            vstd::std_specs::iter::IteratorSpec::decrease(&accesses) is Some,
    {
        let accesses = self.path_accesses.as_slice().iter();
        accesses
    }
}

/// What a process did to paths until it ended.
#[derive(Debug, PartialEq, Eq)]
pub struct PathAccessIterable<A> {
    pub ipc_receiver_lock_guard: OwnedReceiverLockGuard<A>,
}

impl<A> PathAccessIterable<A> {
    /// The recorded accesses, in the order in which they were recorded.
    pub fn iter(&self) -> (accesses: core::slice::Iter<'_, A>)
        ensures
            vstd::std_specs::iter::IteratorSpec::remaining(&accesses).unref()
                == self.ipc_receiver_lock_guard.path_accesses@,
            vstd::std_specs::iter::IteratorSpec::decrease(&accesses) is Some,
    {
        self.ipc_receiver_lock_guard.iter_path_accesses()
    }
}

/// How a process ended.
#[derive(Debug, PartialEq, Eq)]
pub struct ChildTermination<S, A> {
    pub status: S,
    pub path_accesses: PathAccessIterable<A>,
}

/// A call that a wait waits for.
#[derive(Debug, Clone, Copy, PartialEq, Eq, Structural)]
pub enum WaitCall {
    /// Waits until the process exits or the start is cancelled, whichever comes first.
    WaitOrCancel,
    /// Begins to kill the process.
    StartKill,
    /// Waits until the process exits.
    Wait,
    /// Locks the channel against further records.
    LockChannel,
}

/// What a call gave back.
#[derive(Debug, PartialEq, Eq)]
pub enum WaitReply<S, A, E> {
    Exited(Result<S, E>),
    Cancelled,
    KillStarted(Result<(), E>),
    Locked(Result<OwnedReceiverLockGuard<A>, E>),
}

/// The wait for a process, and how far it has come.
#[derive(Debug, PartialEq, Eq)]
pub enum Waiting<S, A, E> {
    Racing,
    Killing,
    Reaping,
    Locking { status: S },
    Finished { outcome: Result<ChildTermination<S, A>, E> },
}

impl<S, A, E> Waiting<S, A, E> {
    /// The call that the wait waits for; none once it has finished.
    pub open spec fn pending(&self) -> Option<WaitCall> {
        match self {
            Waiting::Racing => Some(WaitCall::WaitOrCancel),
            Waiting::Killing => Some(WaitCall::StartKill),
            Waiting::Reaping => Some(WaitCall::Wait),
            Waiting::Locking { .. } => Some(WaitCall::LockChannel),
            Waiting::Finished { .. } => None,
        }
    }

    /// The reply is one that the pending call can give.
    pub open spec fn awaits(self, reply: WaitReply<S, A, E>) -> bool {
        match self {
            Waiting::Racing => reply is Exited || reply is Cancelled,
            Waiting::Killing => reply is KillStarted,
            Waiting::Reaping => reply is Exited,
            Waiting::Locking { .. } => reply is Locked,
            Waiting::Finished { .. } => false,
        }
    }

    /// The wait after a reply. A reply to another call changes nothing.
    pub open spec fn after(self, reply: WaitReply<S, A, E>) -> Waiting<S, A, E> {
        match (self, reply) {
            (Waiting::Racing, WaitReply::Cancelled) => Waiting::Killing,
            (Waiting::Killing, WaitReply::KillStarted(Ok(_))) => Waiting::Reaping,
            (Waiting::Killing, WaitReply::KillStarted(Err(error))) => Waiting::Finished {
                outcome: Err(error),
            },
            (Waiting::Racing, WaitReply::Exited(Ok(status))) => Waiting::Locking { status },
            (Waiting::Racing, WaitReply::Exited(Err(error))) => Waiting::Finished {
                outcome: Err(error),
            },
            (Waiting::Reaping, WaitReply::Exited(Ok(status))) => Waiting::Locking { status },
            (Waiting::Reaping, WaitReply::Exited(Err(error))) => Waiting::Finished {
                outcome: Err(error),
            },
            (Waiting::Locking { status }, WaitReply::Locked(Ok(guard))) => Waiting::Finished {
                outcome: Ok(
                    ChildTermination {
                        status,
                        path_accesses: PathAccessIterable { ipc_receiver_lock_guard: guard },
                    },
                ),
            },
            (Waiting::Locking { .. }, WaitReply::Locked(Err(error))) => Waiting::Finished {
                outcome: Err(error),
            },
            (state, _) => state,
        }
    }

    /// The wait for a process that has just been started.
    pub fn new() -> (waiting: Waiting<S, A, E>)
        ensures
            waiting is Racing,
    {
        Waiting::Racing
    }

    /// The call that the wait waits for; none once it has finished.
    pub fn call(&self) -> (call: Option<WaitCall>)
        ensures
            call == self.pending(),
    {
        match self {
            Waiting::Racing => Some(WaitCall::WaitOrCancel),
            Waiting::Killing => Some(WaitCall::StartKill),
            Waiting::Reaping => Some(WaitCall::Wait),
            Waiting::Locking { .. } => Some(WaitCall::LockChannel),
            Waiting::Finished { .. } => None,
        }
    }

    /// Takes the reply to the pending call. A reply to another call changes nothing.
    pub fn step(self, reply: WaitReply<S, A, E>) -> (next: Waiting<S, A, E>)
        ensures
            next == self.after(reply),
    {
        match (self, reply) {
            (Waiting::Racing, WaitReply::Cancelled) => Waiting::Killing,
            (Waiting::Killing, WaitReply::KillStarted(started)) => match started {
                Ok(_) => Waiting::Reaping,
                Err(error) => Waiting::Finished { outcome: Err(error) },
            },
            (Waiting::Racing, WaitReply::Exited(exited)) => match exited {
                Ok(status) => Waiting::Locking { status },
                Err(error) => Waiting::Finished { outcome: Err(error) },
            },
            (Waiting::Reaping, WaitReply::Exited(exited)) => match exited {
                Ok(status) => Waiting::Locking { status },
                Err(error) => Waiting::Finished { outcome: Err(error) },
            },
            (Waiting::Locking { status }, WaitReply::Locked(locked)) => match locked {
                Ok(guard) => {
                    let path_accesses = PathAccessIterable { ipc_receiver_lock_guard: guard };
                    Waiting::Finished { outcome: Ok(ChildTermination { status, path_accesses }) }
                },
                Err(error) => Waiting::Finished { outcome: Err(error) },
            },
            (state, _) => state,
        }
    }

    /// The wait after a sequence of replies.
    pub open spec fn run(self, replies: Seq<WaitReply<S, A, E>>) -> Waiting<S, A, E>
        decreases replies.len(),
    {
        if replies.len() == 0 {
            self
        } else {
            self.after(replies.first()).run(replies.drop_first())
        }
    }

    /// Every reply answers the call that is pending when it comes.
    pub open spec fn answered(self, replies: Seq<WaitReply<S, A, E>>) -> bool
        decreases replies.len(),
    {
        replies.len() > 0 ==> self.awaits(replies.first()) && self.after(replies.first()).answered(
            replies.drop_first(),
        )
    }
}

/// What a task returned: its own result, or the error with which it could not be joined.
pub fn flatten<T, E>(joined: Result<Result<T, E>, E>) -> (result: Result<T, E>)
    ensures
        result == match joined {
            Ok(inner) => inner,
            Err(error) => Err(error),
        },
{
    match joined {
        Ok(inner) => inner,
        Err(error) => Err(error),
    }
}

/// How many calls a wait can still make.
spec fn remaining<S, A, E>(waiting: Waiting<S, A, E>) -> nat {
    match waiting {
        Waiting::Racing => 4,
        Waiting::Killing => 3,
        Waiting::Reaping => 2,
        Waiting::Locking { .. } => 1,
        Waiting::Finished { .. } => 0,
    }
}

/// What the last reply of a wait says about where the wait stands, and what it cannot have
/// been without a cancellation.
proof fn lemma_last_reply<S, A, E>(waiting: Waiting<S, A, E>, replies: Seq<WaitReply<S, A, E>>)
    requires
        waiting.answered(replies),
    ensures
        replies.len() + remaining(waiting.run(replies)) <= remaining(waiting),
        replies.len() == 0 ==> waiting.run(replies) == waiting,
        replies.len() > 0 ==> match waiting.run(replies) {
            Waiting::Racing => false,
            Waiting::Killing => waiting is Racing && replies.len() == 1 && replies[0] is Cancelled,
            Waiting::Reaping => replies.last() matches WaitReply::KillStarted(Ok(_)),
            Waiting::Locking { status } => replies.last() == WaitReply::<S, A, E>::Exited(Ok(status)),
            Waiting::Finished { outcome: Ok(ended) } => {
                &&& replies.last() == WaitReply::<S, A, E>::Locked(
                    Ok(ended.path_accesses.ipc_receiver_lock_guard),
                )
                &&& replies.len() > 1 ==> replies[replies.len() - 2] == WaitReply::<S, A, E>::Exited(
                    Ok(ended.status),
                )
                &&& replies.len() == 1 ==> waiting == (Waiting::<S, A, E>::Locking {
                    status: ended.status,
                })
            },
            Waiting::Finished { outcome: Err(error) } => {
                ||| replies.last() == WaitReply::<S, A, E>::Exited(Err(error))
                ||| replies.last() == WaitReply::<S, A, E>::KillStarted(Err(error))
                ||| replies.last() == WaitReply::<S, A, E>::Locked(Err(error))
            },
        },
    decreases replies.len(),
{
    if replies.len() > 0 {
        let next = waiting.after(replies.first());
        let rest = replies.drop_first();
        lemma_last_reply(next, rest);
        if rest.len() > 0 {
            assert(next.answered(rest));
            assert(rest.last() == replies.last());
            if rest.len() > 1 {
                assert(rest[rest.len() - 2] == replies[replies.len() - 2]);
            }
        }
    }
}

/// The channel is locked only once the process has exited, and then at once: accesses that
/// others make after that are of no interest.
pub proof fn channel_is_locked_right_after_the_exit<S, A, E>(
    waiting: Waiting<S, A, E>,
    replies: Seq<WaitReply<S, A, E>>,
)
    requires
        waiting is Racing,
        waiting.answered(replies),
    ensures
        waiting.run(replies).pending() == Some(WaitCall::LockChannel) <==> replies.len() > 0
            && replies.last() matches WaitReply::Exited(Ok(_)),
{
    lemma_last_reply(waiting, replies);
}

/// The process is killed exactly if the start was cancelled before the process exited.
pub proof fn killed_only_when_cancelled<S, A, E>(
    waiting: Waiting<S, A, E>,
    replies: Seq<WaitReply<S, A, E>>,
)
    requires
        waiting is Racing,
        waiting.answered(replies),
    ensures
        waiting.run(replies).pending() == Some(WaitCall::StartKill) <==> replies.len() > 0
            && replies.last() is Cancelled,
{
    lemma_last_reply(waiting, replies);
}

/// A wait ends after at most four calls, and it waits for a call exactly as long as it has
/// not ended.
pub proof fn wait_ends<S, A, E>(waiting: Waiting<S, A, E>, replies: Seq<WaitReply<S, A, E>>)
    requires
        waiting is Racing,
        waiting.answered(replies),
    ensures
        replies.len() <= 4,
        waiting.run(replies).pending() is None <==> waiting.run(replies) is Finished,
        replies.len() == 4 ==> waiting.run(replies) is Finished,
{
    lemma_last_reply(waiting, replies);
}

/// A wait returns the status with which the process exited and the records that the lock
/// gave, or else the error of its last call.
pub proof fn wait_returns_exit_and_records<S, A, E>(
    waiting: Waiting<S, A, E>,
    replies: Seq<WaitReply<S, A, E>>,
)
    requires
        waiting is Racing,
        waiting.answered(replies),
        waiting.run(replies) is Finished,
    ensures
        match waiting.run(replies)->outcome {
            Ok(ended) => {
                &&& replies.len() >= 2
                &&& replies[replies.len() - 2] == WaitReply::<S, A, E>::Exited(Ok(ended.status))
                &&& replies.last() == WaitReply::<S, A, E>::Locked(
                    Ok(ended.path_accesses.ipc_receiver_lock_guard),
                )
            },
            Err(error) => {
                ||| replies.last() == WaitReply::<S, A, E>::Exited(Err(error))
                ||| replies.last() == WaitReply::<S, A, E>::KillStarted(Err(error))
                ||| replies.last() == WaitReply::<S, A, E>::Locked(Err(error))
            },
        },
{
    lemma_last_reply(waiting, replies);
}

/// A wait that is not cancelled waits for the exit, locks the channel, and returns the status
/// of that exit with the records of that lock.
pub proof fn wait_call_by_call<S, A, E>(
    waiting: Waiting<S, A, E>,
    racing: Option<WaitCall>,
    status: S,
    exited: Waiting<S, A, E>,
    locking: Option<WaitCall>,
    guard: OwnedReceiverLockGuard<A>,
    ended: Waiting<S, A, E>,
    last: Option<WaitCall>,
)
    requires
        call_ensures(Waiting::<S, A, E>::new, (), waiting),
        call_ensures(Waiting::<S, A, E>::call, (&waiting,), racing),
        call_ensures(Waiting::<S, A, E>::step, (waiting, WaitReply::Exited(Ok(status))), exited),
        call_ensures(Waiting::<S, A, E>::call, (&exited,), locking),
        call_ensures(Waiting::<S, A, E>::step, (exited, WaitReply::Locked(Ok(guard))), ended),
        call_ensures(Waiting::<S, A, E>::call, (&ended,), last),
    ensures
        racing == Some(WaitCall::WaitOrCancel),
        locking == Some(WaitCall::LockChannel),
        last is None,
        ended matches Waiting::Finished { outcome: Ok(termination) } && {
            &&& termination.status == status
            &&& termination.path_accesses.ipc_receiver_lock_guard == guard
        },
{
}

/// A wait that is cancelled kills the process and waits for its exit, and from then on goes
/// on just as one that was not cancelled.
pub proof fn cancelled_wait_call_by_call<S, A, E>(
    waiting: Waiting<S, A, E>,
    cancelled: Waiting<S, A, E>,
    killing: Option<WaitCall>,
    killed: Waiting<S, A, E>,
    reaping: Option<WaitCall>,
    result: Result<S, E>,
    reaped: Waiting<S, A, E>,
    exited: Waiting<S, A, E>,
)
    requires
        call_ensures(Waiting::<S, A, E>::new, (), waiting),
        call_ensures(Waiting::<S, A, E>::step, (waiting, WaitReply::Cancelled), cancelled),
        call_ensures(Waiting::<S, A, E>::call, (&cancelled,), killing),
        call_ensures(Waiting::<S, A, E>::step, (cancelled, WaitReply::KillStarted(Ok(()))), killed),
        call_ensures(Waiting::<S, A, E>::call, (&killed,), reaping),
        call_ensures(Waiting::<S, A, E>::step, (killed, WaitReply::Exited(result)), reaped),
        call_ensures(Waiting::<S, A, E>::step, (waiting, WaitReply::Exited(result)), exited),
    ensures
        killing == Some(WaitCall::StartKill),
        reaping == Some(WaitCall::Wait),
        reaped == exited,
{
}

/// The error that a reply brings.
pub open spec fn error_in<S, A, E>(reply: WaitReply<S, A, E>) -> Option<E> {
    match reply {
        WaitReply::Exited(Err(error)) => Some(error),
        WaitReply::KillStarted(Err(error)) => Some(error),
        WaitReply::Locked(Err(error)) => Some(error),
        _ => None,
    }
}

/// The reply is of the kind that the call gives back.
pub open spec fn fits<S, A, E>(call: Option<WaitCall>, reply: WaitReply<S, A, E>) -> bool {
    match call {
        Some(WaitCall::WaitOrCancel) => reply is Exited || reply is Cancelled,
        Some(WaitCall::StartKill) => reply is KillStarted,
        Some(WaitCall::Wait) => reply is Exited,
        Some(WaitCall::LockChannel) => reply is Locked,
        None => false,
    }
}

/// A wait moves on with a reply exactly if the reply is of the kind that its call gives back;
/// any other reply leaves it as it is. Where such a reply brings an error, the wait ends with
/// that very error.
pub proof fn wait_moves_on_with_its_reply_alone<S, A, E>(
    waiting: Waiting<S, A, E>,
    call: Option<WaitCall>,
    reply: WaitReply<S, A, E>,
    next: Waiting<S, A, E>,
    next_call: Option<WaitCall>,
)
    requires
        call_ensures(Waiting::<S, A, E>::call, (&waiting,), call),
        call_ensures(Waiting::<S, A, E>::step, (waiting, reply), next),
        call_ensures(Waiting::<S, A, E>::call, (&next,), next_call),
    ensures
        fits(call, reply) <==> next != waiting,
        call is None <==> waiting is Finished,
        waiting.awaits(reply) <==> fits(call, reply),
        fits(call, reply) ==> (error_in(reply) matches Some(error) ==> {
            &&& next == (Waiting::<S, A, E>::Finished { outcome: Err(error) })
            &&& next_call is None
        }),
{
}

} // verus!
