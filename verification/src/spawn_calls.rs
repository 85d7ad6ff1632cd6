//! Which call a start makes at every point, and what it returns, told from its arguments and
//! the replies alone.

use vstd::prelude::*;

use crate::inject::{ChildHandles, Guid, InjectCall, InjectReply, RESUME_FAILED, TRUE};
use crate::inject_calls;
use crate::io_error::IoError;
use crate::payload::ChannelConf;
use crate::payload;
use crate::spawn::{
    SpawnCall, SpawnError, SpawnFailure, SpawnReply, SpawnStage, Spawning, TrackedChild,
    CREATE_SUSPENDED,
};
use crate::spy::SpyImpl;

verus! {

/// The start has ended with this outcome, and makes no further call.
pub open spec fn ended_with<E>(
    start: Spawning<'_, E>,
    outcome: Result<TrackedChild, SpawnError<E>>,
) -> bool {
    &&& start.stage matches SpawnStage::Finished { outcome: returned } && returned == outcome
    &&& forall|call: Option<SpawnCall<'_>>| #[trigger]
        call_ensures(Spawning::<E>::call, (&start,), call) ==> call is None
}

/// A start first creates a channel of the given capacity and then starts the process,
/// suspended and with the variable that tells it of the spy. Where either fails, the error
/// says which of the two it was and holds the error of the host.
pub proof fn start_creates_a_channel_and_a_suspended_process<E>(
    spy: &SpyImpl,
    raw_token: Option<usize>,
    payload_id: Guid,
    capacity: usize,
    start: Spawning<'_, E>,
    creating: Option<SpawnCall<'_>>,
    channel_conf: ChannelConf,
    launching: Spawning<'_, E>,
    spawning: Option<SpawnCall<'_>>,
    error: E,
    no_channel: Spawning<'_, E>,
    no_process: Spawning<'_, E>,
)
    requires
        call_ensures(SpyImpl::spawn::<E>, (spy, raw_token, payload_id, capacity), start),
        call_ensures(Spawning::<E>::call, (&start,), creating),
        call_ensures(
            Spawning::<E>::step,
            (start, SpawnReply::Channel(Ok(channel_conf))),
            launching,
        ),
        call_ensures(Spawning::<E>::call, (&launching,), spawning),
        call_ensures(Spawning::<E>::step, (start, SpawnReply::Channel(Err(error))), no_channel),
        call_ensures(Spawning::<E>::step, (launching, SpawnReply::Spawned(Err(error))), no_process),
    ensures
        creating == Some(SpawnCall::CreateChannel { capacity }),
        spawning matches Some(SpawnCall::Spawn { variable, value, creation_flags }) && {
            &&& variable@ == "FSPY"@
            &&& value@ == "1"@
            &&& creation_flags == CREATE_SUSPENDED
        },
        ended_with(no_channel, Err(SpawnError::ChannelCreation(error))),
        ended_with(no_process, Err(SpawnError::Injection(SpawnFailure::Host(error)))),
{
}

/// With a token, the first thing done to the started process is to set that very token in it,
/// with no thread beside it. Where Windows refuses that, the start ends as an access that was
/// denied; otherwise the library is put into the process next.
pub proof fn start_then_sets_the_token<E>(
    spy: &SpyImpl,
    token: usize,
    payload_id: Guid,
    capacity: usize,
    start: Spawning<'_, E>,
    channel_conf: ChannelConf,
    launching: Spawning<'_, E>,
    child: ChildHandles,
    spawned: Spawning<'_, E>,
    call: Option<SpawnCall<'_>>,
    status: i32,
    next: Spawning<'_, E>,
    next_call: Option<SpawnCall<'_>>,
)
    requires
        call_ensures(SpyImpl::spawn::<E>, (spy, Some(token), payload_id, capacity), start),
        call_ensures(
            Spawning::<E>::step,
            (start, SpawnReply::Channel(Ok(channel_conf))),
            launching,
        ),
        call_ensures(Spawning::<E>::step, (launching, SpawnReply::Spawned(Ok(child))), spawned),
        call_ensures(Spawning::<E>::call, (&spawned,), call),
        call_ensures(Spawning::<E>::step, (spawned, SpawnReply::Status(status)), next),
        call_ensures(Spawning::<E>::call, (&next,), next_call),
    ensures
        call matches Some(SpawnCall::SetInformationProcess(setting)) && {
            &&& setting.process == child.process
            &&& setting.class == 9
            &&& setting.info.token == token
            &&& setting.info.thread == 0
            &&& setting.length == 2 * (usize::BITS / 8)
        },
        status < 0 ==> {
            &&& next_call is None
            &&& next.stage matches SpawnStage::Finished {
                outcome: Err(SpawnError::OsSpawn(SpawnFailure::Made(IoError::Os(code)))),
            } && code == -1_073_741_790
        },
        status >= 0 ==> next_call == Some(
            SpawnCall::Inject(
                InjectCall::UpdateProcessWithDll {
                    process: child.process,
                    dll_path: &spy.ansi_dll_path_with_nul,
                    count: 1,
                },
            ),
        ),
{
}

/// The start has come to the injection: the process was started, and the token was set if
/// there was one.
pub open spec fn comes_to_the_injection<E>(
    spy: &SpyImpl,
    raw_token: Option<usize>,
    payload_id: Guid,
    capacity: usize,
    channel_conf: ChannelConf,
    child: ChildHandles,
    ready: Spawning<'_, E>,
) -> bool {
    exists|
        start: Spawning<'_, E>,
        launching: Spawning<'_, E>,
        spawned: Spawning<'_, E>,
        status: i32,
    |
        {
            &&& #[trigger] call_ensures(
                SpyImpl::spawn::<E>,
                (spy, raw_token, payload_id, capacity),
                start,
            )
            &&& #[trigger] call_ensures(
                Spawning::<E>::step,
                (start, SpawnReply::Channel(Ok(channel_conf))),
                launching,
            )
            &&& #[trigger] call_ensures(
                Spawning::<E>::step,
                (launching, SpawnReply::Spawned(Ok(child))),
                spawned,
            )
            &&& status >= 0
            &&& raw_token is None ==> ready == spawned
            &&& raw_token is Some ==> #[trigger] call_ensures(
                Spawning::<E>::step,
                (spawned, SpawnReply::Status(status)),
                ready,
            )
        }
}

/// With a token or without one, a start puts the library into the started process, leaves the
/// payload there, resumes the main thread of that process, hands that process over to the
/// runtime, makes a second handle of that process, and returns that handle.
pub proof fn start_call_by_call<E>(
    spy: &SpyImpl,
    raw_token: Option<usize>,
    payload_id: Guid,
    capacity: usize,
    channel_conf: ChannelConf,
    child: ChildHandles,
    ready: Spawning<'_, E>,
    updating: Option<SpawnCall<'_>>,
    updated: Spawning<'_, E>,
    copying: Option<SpawnCall<'_>>,
    copied: Spawning<'_, E>,
    resuming: Option<SpawnCall<'_>>,
    count: u32,
    resumed: Spawning<'_, E>,
    adopting: Option<SpawnCall<'_>>,
    adopted: Spawning<'_, E>,
    duplicating: Option<SpawnCall<'_>>,
    handle: usize,
    ended: Spawning<'_, E>,
)
    requires
        comes_to_the_injection(spy, raw_token, payload_id, capacity, channel_conf, child, ready),
        (channel_conf.encoded@ + payload::slice_encoding(spy.ansi_dll_path_with_nul@)).len()
            <= u32::MAX,
        call_ensures(Spawning::<E>::call, (&ready,), updating),
        call_ensures(
            Spawning::<E>::step,
            (ready, SpawnReply::Inject(InjectReply::Bool(TRUE))),
            updated,
        ),
        call_ensures(Spawning::<E>::call, (&updated,), copying),
        call_ensures(
            Spawning::<E>::step,
            (updated, SpawnReply::Inject(InjectReply::Bool(TRUE))),
            copied,
        ),
        call_ensures(Spawning::<E>::call, (&copied,), resuming),
        count != RESUME_FAILED,
        call_ensures(
            Spawning::<E>::step,
            (copied, SpawnReply::Inject(InjectReply::SuspendCount(count))),
            resumed,
        ),
        call_ensures(Spawning::<E>::call, (&resumed,), adopting),
        call_ensures(Spawning::<E>::step, (resumed, SpawnReply::Adopted(Ok(()))), adopted),
        call_ensures(Spawning::<E>::call, (&adopted,), duplicating),
        call_ensures(Spawning::<E>::step, (adopted, SpawnReply::Duplicated(Ok(handle))), ended),
    ensures
        updating == Some(
            SpawnCall::Inject(
                InjectCall::UpdateProcessWithDll {
                    process: child.process,
                    dll_path: &spy.ansi_dll_path_with_nul,
                    count: 1,
                },
            ),
        ),
        copying matches Some(
            SpawnCall::Inject(
                InjectCall::CopyPayloadToProcess { process, id, payload: bytes, length },
            ),
        ) && {
            &&& process == child.process
            &&& id == payload_id
            &&& length == bytes@.len()
            &&& bytes@ == channel_conf.encoded@ + payload::slice_encoding(
                spy.ansi_dll_path_with_nul@,
            )
        },
        resuming == Some(
            SpawnCall::Inject(InjectCall::ResumeThread { thread: child.main_thread }),
        ),
        adopting == Some(SpawnCall::AdoptChild { process: child.process }),
        duplicating == Some(SpawnCall::DuplicateHandle { process: child.process }),
        ended_with(ended, Ok(TrackedChild { process_handle: handle })),
{
}

/// The start asks for the last error of the operating system and then returns it as the error
/// of a process that was created.
pub open spec fn ends_with_the_last_error<E>(start: Spawning<'_, E>) -> bool {
    &&& forall|call: Option<SpawnCall<'_>>| #[trigger]
        call_ensures(Spawning::<E>::call, (&start,), call) ==> call == Some(
            SpawnCall::Inject(InjectCall::LastOsError),
        )
    &&& forall|code: i32, ended: Spawning<'_, E>| #[trigger]
        call_ensures(
            Spawning::<E>::step,
            (start, SpawnReply::Inject(InjectReply::OsError(code))),
            ended,
        ) ==> ended_with(ended, Err(SpawnError::OsSpawn(SpawnFailure::Made(IoError::Os(code)))))
}

/// Wherever a step of the injection fails, a start returns the last error of the operating
/// system; where the process cannot be handed over or no second handle can be made, it
/// returns that error of the host. Both are errors of a process that was created.
pub proof fn failed_call_ends_the_start<E>(
    spy: &SpyImpl,
    raw_token: Option<usize>,
    payload_id: Guid,
    capacity: usize,
    channel_conf: ChannelConf,
    child: ChildHandles,
    ready: Spawning<'_, E>,
    updated: Spawning<'_, E>,
    copied: Spawning<'_, E>,
    count: u32,
    resumed: Spawning<'_, E>,
    adopted: Spawning<'_, E>,
    success: i32,
    not_updated: Spawning<'_, E>,
    not_copied: Spawning<'_, E>,
    not_resumed: Spawning<'_, E>,
    error: E,
    not_adopted: Spawning<'_, E>,
    not_duplicated: Spawning<'_, E>,
)
    requires
        comes_to_the_injection(spy, raw_token, payload_id, capacity, channel_conf, child, ready),
        call_ensures(
            Spawning::<E>::step,
            (ready, SpawnReply::Inject(InjectReply::Bool(TRUE))),
            updated,
        ),
        call_ensures(
            Spawning::<E>::step,
            (updated, SpawnReply::Inject(InjectReply::Bool(TRUE))),
            copied,
        ),
        count != RESUME_FAILED,
        call_ensures(
            Spawning::<E>::step,
            (copied, SpawnReply::Inject(InjectReply::SuspendCount(count))),
            resumed,
        ),
        call_ensures(Spawning::<E>::step, (resumed, SpawnReply::Adopted(Ok(()))), adopted),
        success != TRUE,
        call_ensures(
            Spawning::<E>::step,
            (ready, SpawnReply::Inject(InjectReply::Bool(success))),
            not_updated,
        ),
        call_ensures(
            Spawning::<E>::step,
            (updated, SpawnReply::Inject(InjectReply::Bool(success))),
            not_copied,
        ),
        call_ensures(
            Spawning::<E>::step,
            (copied, SpawnReply::Inject(InjectReply::SuspendCount(RESUME_FAILED))),
            not_resumed,
        ),
        call_ensures(Spawning::<E>::step, (resumed, SpawnReply::Adopted(Err(error))), not_adopted),
        call_ensures(
            Spawning::<E>::step,
            (adopted, SpawnReply::Duplicated(Err(error))),
            not_duplicated,
        ),
    ensures
        ends_with_the_last_error(not_updated),
        ends_with_the_last_error(not_copied),
        ends_with_the_last_error(not_resumed),
        ended_with(not_adopted, Err(SpawnError::OsSpawn(SpawnFailure::Host(error)))),
        ended_with(not_duplicated, Err(SpawnError::OsSpawn(SpawnFailure::Host(error)))),
{
}

/// The reply is of the kind that the call gives back.
pub open spec fn fits<E>(call: Option<SpawnCall<'_>>, reply: SpawnReply<E>) -> bool {
    match call {
        Some(SpawnCall::CreateChannel { .. }) => reply is Channel,
        Some(SpawnCall::Spawn { .. }) => reply is Spawned,
        Some(SpawnCall::SetInformationProcess(_)) => reply is Status,
        Some(SpawnCall::Inject(inner)) => reply matches SpawnReply::Inject(answer)
            && inject_calls::fits(Some(inner), answer),
        Some(SpawnCall::AdoptChild { .. }) => reply is Adopted,
        Some(SpawnCall::DuplicateHandle { .. }) => reply is Duplicated,
        None => false,
    }
}

/// A start moves on with a reply exactly if the reply is of the kind that its call gives
/// back; any other reply leaves it as it is. What it was started with never changes. A reply
/// can be taken unless it calls for a payload whose length does not fit in 32 bits.
pub proof fn start_moves_on_with_its_reply_alone<E>(
    start: Spawning<'_, E>,
    call: Option<SpawnCall<'_>>,
    reply: SpawnReply<E>,
    accepted: bool,
    next: Spawning<'_, E>,
)
    requires
        start.stage matches SpawnStage::Injecting { injection, .. } ==> injection.stage
            !is Finished,
        call_ensures(Spawning::<E>::call, (&start,), call),
        call_ensures(Spawning::<E>::can_take, (&start, &reply), accepted),
        call_ensures(Spawning::<E>::step, (start, reply), next),
    ensures
        fits(call, reply) <==> next != start,
        next.plan == start.plan,
        next.stage matches SpawnStage::Injecting { injection, .. } ==> injection.stage
            !is Finished,
        call is None <==> start.stage is Finished,
        start.awaits(reply) <==> fits(call, reply),
        accepted <==> !(start.stage matches SpawnStage::Injecting { injection, .. }
            && call matches Some(SpawnCall::Inject(InjectCall::UpdateProcessWithDll { .. }))
            && reply == SpawnReply::<E>::Inject(InjectReply::Bool(1))
            && injection.payload@.len() > 0xFFFF_FFFF),
{
    assert(fits(call, reply) ==> next.stage != start.stage) by {
        if let SpawnStage::Injecting { injection, .. } = start.stage {
            if let SpawnReply::Inject(inner) = reply {
                assert(injection.awaits(inner) ==> injection.after(inner).stage
                    != injection.stage);
            }
        }
    }
}

} // verus!
