//! What holds of a whole start of a process, whatever the host replies.

use vstd::prelude::*;

use crate::inject::{InjectCall, InjectReply, InjectStage, RESUME_FAILED, TRUE};
use crate::io_error::IoError;
use crate::payload;
use crate::spawn::{SpawnCall, SpawnError, SpawnFailure, SpawnReply, SpawnStage, Spawning};
use crate::token;

verus! {

/// A course of a start: the states that it goes through, from the first one on, and the
/// replies between them, each to the call that is pending when it comes.
pub open spec fn course<E>(states: Seq<Spawning<'_, E>>, replies: Seq<SpawnReply<E>>) -> bool {
    &&& states.len() == replies.len() + 1
    &&& states[0].stage is CreatingChannel
    &&& forall|i: int|
        #![trigger replies[i]]
        0 <= i < replies.len() ==> {
            &&& states[i].awaits(replies[i])
            &&& states[i].accepts(replies[i])
            &&& states[i].leads_to(replies[i], states[i + 1])
        }
}

/// The call behind a reply did what it was to do.
pub open spec fn succeeded<E>(reply: SpawnReply<E>) -> bool {
    match reply {
        SpawnReply::Channel(result) => result is Ok,
        SpawnReply::Spawned(result) => result is Ok,
        SpawnReply::Status(status) => status >= 0,
        SpawnReply::Inject(InjectReply::Bool(success)) => success == TRUE,
        SpawnReply::Inject(InjectReply::SuspendCount(count)) => count != RESUME_FAILED,
        SpawnReply::Inject(InjectReply::OsError(_)) => false,
        SpawnReply::Adopted(result) => result is Ok,
        SpawnReply::Duplicated(result) => result is Ok,
    }
}

/// The error is the one that the reply brought: an error of the host as it is, the number
/// that stands for a refused token, or the last error of the operating system.
pub open spec fn carries<E>(error: SpawnError<E>, reply: SpawnReply<E>) -> bool {
    match reply {
        SpawnReply::Channel(Err(host)) => error == SpawnError::<E>::ChannelCreation(host),
        SpawnReply::Spawned(Err(host)) => error == SpawnError::<E>::Injection(
            SpawnFailure::Host(host),
        ),
        SpawnReply::Status(status) => status < 0 && error == SpawnError::<E>::OsSpawn(
            SpawnFailure::Made(IoError::Os(token::STATUS_ACCESS_DENIED)),
        ),
        SpawnReply::Inject(InjectReply::OsError(code)) => error == SpawnError::<E>::OsSpawn(
            SpawnFailure::Made(IoError::Os(code)),
        ),
        SpawnReply::Adopted(Err(host)) => error == SpawnError::<E>::OsSpawn(
            SpawnFailure::Host(host),
        ),
        SpawnReply::Duplicated(Err(host)) => error == SpawnError::<E>::OsSpawn(
            SpawnFailure::Host(host),
        ),
        _ => false,
    }
}

/// Where the call stands that made a start fail, among the replies of that start: at the
/// end, or before the last error of the operating system where that was asked for.
pub open spec fn first_failure<E>(replies: Seq<SpawnReply<E>>) -> int {
    if replies.last() matches SpawnReply::Inject(InjectReply::OsError(_)) {
        replies.len() - 2
    } else {
        replies.len() - 1
    }
}

/// How many calls come before the injection: two, and one more where there is a token.
pub open spec fn calls_before_injection<E>(start: Spawning<'_, E>) -> int {
    if start.plan.raw_token is Some {
        3
    } else {
        2
    }
}

/// The first `count` calls did what they were to do.
spec fn all_succeeded<E>(replies: Seq<SpawnReply<E>>, count: int) -> bool {
    forall|i: int| 0 <= i < count ==> succeeded(#[trigger] replies[i])
}

/// What has happened when a course has come to its `k`th state.
spec fn history<E>(states: Seq<Spawning<'_, E>>, replies: Seq<SpawnReply<E>>, k: int) -> bool {
    let plan = states[0].plan;
    let before = calls_before_injection(states[0]);
    &&& states[k].plan == plan
    &&& match states[k].stage {
        SpawnStage::CreatingChannel => k == 0,
        SpawnStage::Launching { channel_conf } => {
            &&& k == 1
            &&& all_succeeded(replies, k)
            &&& replies[0] == SpawnReply::<E>::Channel(Ok(channel_conf))
        },
        SpawnStage::SettingToken { child, channel_conf, call } => {
            &&& k == 2
            &&& all_succeeded(replies, k)
            &&& replies[0] == SpawnReply::<E>::Channel(Ok(channel_conf))
            &&& replies[1] == SpawnReply::<E>::Spawned(Ok(child))
            &&& plan.raw_token matches Some(token) && call == token::token_call(
                child.process,
                token,
            )
        },
        SpawnStage::Injecting { child, injection } => {
            &&& k >= before
            &&& replies[0] matches SpawnReply::Channel(Ok(channel_conf)) && injection.payload@
                == payload::payload_encoding(channel_conf.encoded@, plan.dll_path@)
            &&& replies[1] == SpawnReply::<E>::Spawned(Ok(child))
            &&& injection.child == child
            &&& injection.dll_path == plan.dll_path
            &&& injection.payload_id == plan.payload_id
            &&& match injection.stage {
                InjectStage::UpdatingProcess => k == before && all_succeeded(replies, k),
                InjectStage::CopyingPayload { length } => {
                    &&& k == before + 1 && all_succeeded(replies, k)
                    &&& length == injection.payload@.len()
                },
                InjectStage::Resuming => k == before + 2 && all_succeeded(replies, k),
                InjectStage::ReadingLastError => {
                    &&& before < k <= before + 3
                    &&& !succeeded(replies[k - 1])
                    &&& !(replies[k - 1] matches SpawnReply::Inject(InjectReply::OsError(_)))
                    &&& all_succeeded(replies, k - 1)
                },
                InjectStage::Finished { .. } => false,
            }
        },
        SpawnStage::Adopting { child } => {
            &&& k == before + 3
            &&& replies[1] == SpawnReply::<E>::Spawned(Ok(child))
            &&& all_succeeded(replies, k)
        },
        SpawnStage::Duplicating { child } => {
            &&& k == before + 4
            &&& replies[1] == SpawnReply::<E>::Spawned(Ok(child))
            &&& all_succeeded(replies, k)
        },
        SpawnStage::Finished { outcome } => {
            &&& 1 <= k <= before + 5
            &&& k == replies.len()
            &&& match outcome {
                Ok(child) => {
                    &&& k == before + 5
                    &&& all_succeeded(replies, k)
                    &&& replies[k - 1] == SpawnReply::<E>::Duplicated(Ok(child.process_handle))
                },
                Err(error) => {
                    &&& !succeeded(replies[k - 1])
                    &&& carries(error, replies[k - 1])
                    &&& !succeeded(replies[first_failure(replies)])
                    &&& all_succeeded(replies, first_failure(replies))
                    &&& error is ChannelCreation <==> k == 1
                    &&& error is Injection <==> k == 2
                    &&& k == 2 ==> replies[1] is Spawned
                    &&& k > 2 ==> replies[1] matches SpawnReply::Spawned(Ok(_))
                },
            }
        },
    }
}

proof fn lemma_history<E>(states: Seq<Spawning<'_, E>>, replies: Seq<SpawnReply<E>>, k: int)
    requires
        course(states, replies),
        0 <= k < states.len(),
    ensures
        history(states, replies, k),
    decreases k,
{
    if k > 0 {
        lemma_history(states, replies, k - 1);
        let reply = replies[k - 1];
        assert(states[k - 1].awaits(reply));
        assert(states[k - 1].leads_to(reply, states[k]));
        if states[k].stage is Finished && k < replies.len() {
            assert(states[k].awaits(replies[k]));
        }
    }
}

/// The main thread of the process is resumed only in a process that was started suspended,
/// into which the library was loaded and where the payload was left; and if a token was
/// given, it has been made the primary token of the process before all that.
pub proof fn resumed_only_when_ready<E>(
    states: Seq<Spawning<'_, E>>,
    replies: Seq<SpawnReply<E>>,
    k: int,
    thread: usize,
)
    requires
        course(states, replies),
        0 <= k < states.len(),
        states[k].pending() == Some(SpawnCall::Inject(InjectCall::ResumeThread { thread })),
    ensures
        ({
            let plan = states[0].plan;
            let before = calls_before_injection(states[0]);
            &&& k == before + 2
            &&& states[1].pending() matches Some(SpawnCall::Spawn { creation_flags, .. })
                && creation_flags == crate::spawn::CREATE_SUSPENDED
            &&& replies[1] matches SpawnReply::Spawned(Ok(child)) && {
                &&& thread == child.main_thread
                &&& plan.raw_token matches Some(token) ==> {
                    &&& states[2].pending() == Some(
                        SpawnCall::SetInformationProcess(
                            token::token_call(child.process, token),
                        ),
                    )
                    &&& replies[2] matches SpawnReply::Status(status) && status >= 0
                }
                &&& states[before].pending() == Some(
                    SpawnCall::Inject(
                        InjectCall::UpdateProcessWithDll {
                            process: child.process,
                            dll_path: plan.dll_path,
                            count: 1,
                        },
                    ),
                )
                &&& replies[before] == SpawnReply::<E>::Inject(InjectReply::Bool(TRUE))
                &&& replies[0] matches SpawnReply::Channel(Ok(channel_conf))
                    && states[before + 1].pending() matches Some(
                    SpawnCall::Inject(
                        InjectCall::CopyPayloadToProcess { process, id, payload: bytes, length },
                    ),
                ) && {
                    &&& process == child.process
                    &&& id == plan.payload_id
                    &&& length == bytes@.len()
                    &&& bytes@ == payload::payload_encoding(
                        channel_conf.encoded@,
                        plan.dll_path@,
                    )
                }
                &&& replies[before + 1] == SpawnReply::<E>::Inject(InjectReply::Bool(TRUE))
            }
        }),
{
    let before = calls_before_injection(states[0]);
    lemma_history(states, replies, k);
    assert(states[k].stage is Injecting);
    assert forall|i: int| 0 <= i <= k implies #[trigger] history(states, replies, i) by {
        lemma_history(states, replies, i);
    }
    lemma_course_so_far(states, replies, 0);
    lemma_course_so_far(states, replies, 1);
    lemma_course_so_far(states, replies, 2);
    lemma_course_so_far(states, replies, before);
    lemma_course_so_far(states, replies, before + 1);
    assert(succeeded(replies[0]) && succeeded(replies[1]) && succeeded(replies[2]));
    assert(succeeded(replies[before]) && succeeded(replies[before + 1]));
}

/// One step of a course, named by its reply.
proof fn lemma_course_so_far<E>(
    states: Seq<Spawning<'_, E>>,
    replies: Seq<SpawnReply<E>>,
    i: int,
)
    requires
        course(states, replies),
        0 <= i < replies.len(),
    ensures
        states[i].awaits(replies[i]),
        states[i].leads_to(replies[i], states[i + 1]),
        history(states, replies, i),
        history(states, replies, i + 1),
{
    assert(states[i].awaits(replies[i]));
    lemma_history(states, replies, i);
    lemma_history(states, replies, i + 1);
}

/// A token is set only if one was given, in the process that was started and as the first
/// thing done to it.
pub proof fn token_is_set_first_or_never<E>(
    states: Seq<Spawning<'_, E>>,
    replies: Seq<SpawnReply<E>>,
    k: int,
    call: token::SetInformationProcess,
)
    requires
        course(states, replies),
        0 <= k < states.len(),
        states[k].pending() == Some(SpawnCall::SetInformationProcess(call)),
    ensures
        k == 2,
        replies[1] matches SpawnReply::Spawned(Ok(child)) && states[0].plan.raw_token matches Some(
            token,
        ) && call == token::token_call(child.process, token),
{
    lemma_history(states, replies, k);
}

/// A start ends after at most eight calls, and it waits for a call exactly as long as it
/// has not ended.
pub proof fn start_ends<E>(states: Seq<Spawning<'_, E>>, replies: Seq<SpawnReply<E>>)
    requires
        course(states, replies),
    ensures
        replies.len() <= 8,
        states.last().pending() is None <==> states.last().stage is Finished,
        replies.len() == 8 ==> states.last().stage is Finished,
{
    lemma_history(states, replies, states.len() - 1);
}

/// A start succeeds exactly if every one of its calls did, and then it returns the handle
/// that was made last.
pub proof fn start_succeeds_if_every_call_did<E>(
    states: Seq<Spawning<'_, E>>,
    replies: Seq<SpawnReply<E>>,
)
    requires
        course(states, replies),
        states.last().stage is Finished,
    ensures
        states.last().stage->outcome is Ok <==> forall|i: int|
            0 <= i < replies.len() ==> succeeded(#[trigger] replies[i]),
        states.last().stage->outcome matches Ok(child) ==> replies.last() == SpawnReply::<
            E,
        >::Duplicated(Ok(child.process_handle)),
{
    lemma_history(states, replies, states.len() - 1);
    if states.last().stage->outcome is Err {
        assert(!succeeded(replies[replies.len() - 1]));
    }
}

/// The error of a start that failed is the one that the last reply brought, and it tells how
/// far the start had come: to no channel, to a channel but no process, or to a process that
/// was created. The last error of the operating system is asked for right after the call
/// that failed, and every call before that one had succeeded.
pub proof fn error_tells_how_far_the_start_came<E>(
    states: Seq<Spawning<'_, E>>,
    replies: Seq<SpawnReply<E>>,
    error: SpawnError<E>,
)
    requires
        course(states, replies),
        states.last().stage matches SpawnStage::Finished { outcome: Err(failed) } && failed == error,
    ensures
        carries(error, replies.last()),
        0 <= first_failure(replies) < replies.len(),
        !succeeded(replies[first_failure(replies)]),
        forall|i: int| 0 <= i < first_failure(replies) ==> succeeded(#[trigger] replies[i]),
        error is ChannelCreation <==> replies.len() == 1,
        error is Injection <==> replies.len() == 2,
        error is OsSpawn <==> replies.len() > 2,
        replies.len() == 1 ==> replies[0] matches SpawnReply::Channel(Err(_)),
        replies.len() == 2 ==> replies[1] matches SpawnReply::Spawned(Err(_)),
        replies.len() > 2 ==> replies[1] matches SpawnReply::Spawned(Ok(_)),
{
    lemma_history(states, replies, states.len() - 1);
    lemma_course_so_far(states, replies, 0);
}

/// Only the process that was started is handed over to the runtime, and only a second handle
/// of that very process is made, with a token or without one.
pub proof fn only_the_started_process_is_adopted_and_duplicated<E>(
    states: Seq<Spawning<'_, E>>,
    replies: Seq<SpawnReply<E>>,
    k: int,
)
    requires
        course(states, replies),
        0 <= k < states.len(),
    ensures
        states[k].pending() matches Some(SpawnCall::AdoptChild { process }) ==> {
            &&& replies.len() >= 2
            &&& replies[1] matches SpawnReply::Spawned(Ok(child)) && process == child.process
        },
        states[k].pending() matches Some(SpawnCall::DuplicateHandle { process }) ==> {
            &&& replies.len() >= 2
            &&& replies[1] matches SpawnReply::Spawned(Ok(child)) && process == child.process
        },
{
    lemma_history(states, replies, k);
}

/// A start that succeeds has handed the started process over, and right before its last
/// reply it has asked for a second handle of that process; that handle is what it returns.
pub proof fn successful_start_duplicated_the_process_last<E>(
    states: Seq<Spawning<'_, E>>,
    replies: Seq<SpawnReply<E>>,
)
    requires
        course(states, replies),
        states.last().stage matches SpawnStage::Finished { outcome: Ok(_) },
    ensures
        replies.len() >= 7,
        replies[1] matches SpawnReply::Spawned(Ok(child)) && {
            &&& states[replies.len() - 2].pending() == Some(
                SpawnCall::AdoptChild { process: child.process },
            )
            &&& states[replies.len() - 1].pending() == Some(
                SpawnCall::DuplicateHandle { process: child.process },
            )
        },
        replies.last() matches SpawnReply::Duplicated(Ok(handle)) && states.last().stage
            matches SpawnStage::Finished { outcome: Ok(started) } && started.process_handle == handle,
{
    let end = replies.len() as int;
    lemma_history(states, replies, end);
    lemma_course_so_far(states, replies, end - 1);
    lemma_course_so_far(states, replies, end - 2);
    lemma_course_so_far(states, replies, 1);
    assert(succeeded(replies[1]));
}

/// In every start with a token, what is set in the started process is that very token, with
/// no thread beside it, and this is done right after the process was started. No thread is
/// resumed without it.
pub proof fn given_token_is_set_before_the_resume<E>(
    states: Seq<Spawning<'_, E>>,
    replies: Seq<SpawnReply<E>>,
    token: usize,
    k: int,
    thread: usize,
)
    requires
        course(states, replies),
        states[0].plan.raw_token == Some(token),
        0 <= k < states.len(),
        states[k].pending() == Some(SpawnCall::Inject(InjectCall::ResumeThread { thread })),
    ensures
        2 < k,
        replies[1] matches SpawnReply::Spawned(Ok(child)) && states[2].pending() matches Some(
            SpawnCall::SetInformationProcess(call),
        ) && {
            &&& call.process == child.process
            &&& call.class == 9
            &&& call.info.token == token
            &&& call.info.thread == 0
            &&& call.length == 2 * (usize::BITS / 8)
        },
        replies[2] matches SpawnReply::Status(status) && status >= 0,
{
    resumed_only_when_ready(states, replies, k, thread);
}

/// Without a token none is ever set.
pub proof fn no_token_is_set_without_one<E>(
    states: Seq<Spawning<'_, E>>,
    replies: Seq<SpawnReply<E>>,
    k: int,
)
    requires
        course(states, replies),
        states[0].plan.raw_token is None,
        0 <= k < states.len(),
    ensures
        !(states[k].pending() matches Some(SpawnCall::SetInformationProcess(_))),
{
    lemma_history(states, replies, k);
}

} // verus!
