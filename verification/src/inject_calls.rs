//! Which call an injection makes at every point, and what it returns, told from its
//! arguments and the replies alone.

use vstd::prelude::*;

use crate::ansi::NulTerminated;
use crate::inject::{
    inject_and_resume, ChildHandles, Guid, InjectCall, InjectReply, InjectStage, Injection,
    RESUME_FAILED, TRUE,
};
use crate::inject;
use crate::io_error::IoError;
use crate::payload::ChannelConf;
use crate::payload;

verus! {

/// An injection first puts the one library into the process, then leaves the whole payload
/// there under its identifier, then resumes the main thread, and then has succeeded. Each
/// step follows the success of the one before it, whatever the arguments are.
pub proof fn injection_call_by_call(
    child: ChildHandles,
    dll_path: &NulTerminated,
    channel_conf: &ChannelConf,
    payload_id: Guid,
    injection: Injection<'_>,
    updating: Option<InjectCall<'_>>,
    updated: Injection<'_>,
    copying: Option<InjectCall<'_>>,
    copied: Injection<'_>,
    resuming: Option<InjectCall<'_>>,
    count: u32,
    resumed: Injection<'_>,
    last: Option<InjectCall<'_>>,
)
    requires
        call_ensures(inject_and_resume, (child, dll_path, channel_conf, payload_id), injection),
        injection.payload@.len() <= u32::MAX,
        call_ensures(Injection::call, (&injection,), updating),
        call_ensures(Injection::step, (injection, InjectReply::Bool(TRUE)), updated),
        call_ensures(Injection::call, (&updated,), copying),
        call_ensures(Injection::step, (updated, InjectReply::Bool(TRUE)), copied),
        call_ensures(Injection::call, (&copied,), resuming),
        count != RESUME_FAILED,
        call_ensures(Injection::step, (copied, InjectReply::SuspendCount(count)), resumed),
        call_ensures(Injection::call, (&resumed,), last),
    ensures
        updating == Some(
            InjectCall::UpdateProcessWithDll { process: child.process, dll_path, count: 1 },
        ),
        copying matches Some(
            InjectCall::CopyPayloadToProcess { process, id, payload: bytes, length },
        ) && {
            &&& process == child.process
            &&& id == payload_id
            &&& length == bytes@.len()
            &&& bytes@ == channel_conf.encoded@ + payload::slice_encoding(dll_path@)
        },
        resuming == Some(InjectCall::ResumeThread { thread: child.main_thread }),
        last is None,
        resumed.stage == (InjectStage::Finished { outcome: Ok(()) }),
{
}

/// Wherever a call of an injection fails, the last error of the operating system is asked for
/// next and becomes the error of the injection; nothing else is done to the process.
pub proof fn failed_call_ends_the_injection(
    child: ChildHandles,
    dll_path: &NulTerminated,
    channel_conf: &ChannelConf,
    payload_id: Guid,
    injection: Injection<'_>,
    updated: Injection<'_>,
    copied: Injection<'_>,
    success: i32,
    not_updated: Injection<'_>,
    not_copied: Injection<'_>,
    not_resumed: Injection<'_>,
)
    requires
        call_ensures(inject_and_resume, (child, dll_path, channel_conf, payload_id), injection),
        call_ensures(Injection::step, (injection, InjectReply::Bool(TRUE)), updated),
        call_ensures(Injection::step, (updated, InjectReply::Bool(TRUE)), copied),
        success != TRUE,
        call_ensures(Injection::step, (injection, InjectReply::Bool(success)), not_updated),
        call_ensures(Injection::step, (updated, InjectReply::Bool(success)), not_copied),
        call_ensures(
            Injection::step,
            (copied, InjectReply::SuspendCount(RESUME_FAILED)),
            not_resumed,
        ),
    ensures
        ends_with_the_last_error(not_updated),
        ends_with_the_last_error(not_copied),
        ends_with_the_last_error(not_resumed),
{
}

/// The injection asks for the last error of the operating system and then returns it.
pub open spec fn ends_with_the_last_error(injection: Injection<'_>) -> bool {
    &&& forall|call: Option<InjectCall<'_>>| #[trigger]
        call_ensures(Injection::call, (&injection,), call) ==> call == Some(InjectCall::LastOsError)
    &&& forall|code: i32, ended: Injection<'_>| #[trigger]
        call_ensures(Injection::step, (injection, InjectReply::OsError(code)), ended) ==> {
            &&& ended.stage == (InjectStage::Finished { outcome: Err(IoError::Os(code)) })
            &&& forall|call: Option<InjectCall<'_>>| #[trigger]
                call_ensures(Injection::call, (&ended,), call) ==> call is None
        }
}

/// The reply is of the kind that the call gives back.
pub open spec fn fits(call: Option<InjectCall<'_>>, reply: InjectReply) -> bool {
    match call {
        Some(InjectCall::UpdateProcessWithDll { .. }) => reply is Bool,
        Some(InjectCall::CopyPayloadToProcess { .. }) => reply is Bool,
        Some(InjectCall::ResumeThread { .. }) => reply is SuspendCount,
        Some(InjectCall::LastOsError) => reply is OsError,
        None => false,
    }
}

/// An injection moves on with a reply exactly if the reply is of the kind that its call gives
/// back; any other reply leaves it as it is. What it was started with never changes. A reply
/// can be taken unless it calls for a payload whose length does not fit in 32 bits.
pub proof fn injection_moves_on_with_its_reply_alone(
    injection: Injection<'_>,
    call: Option<InjectCall<'_>>,
    reply: InjectReply,
    accepted: bool,
    next: Injection<'_>,
)
    requires
        call_ensures(Injection::call, (&injection,), call),
        call_ensures(Injection::can_take, (&injection, reply), accepted),
        call_ensures(Injection::step, (injection, reply), next),
    ensures
        fits(call, reply) <==> next != injection,
        next.child == injection.child,
        next.dll_path == injection.dll_path,
        next.payload_id == injection.payload_id,
        next.payload == injection.payload,
        call is None <==> injection.stage is Finished,
        injection.awaits(reply) <==> fits(call, reply),
        accepted <==> !(call matches Some(InjectCall::UpdateProcessWithDll { .. }) && reply
            == InjectReply::Bool(1) && injection.payload@.len() > 0xFFFF_FFFF),
{
    assert(fits(call, reply) ==> next.stage != injection.stage);
}

/// The calls that the replies answer, in order.
pub open spec fn calls<'a>(injection: &'a Injection<'a>, replies: Seq<InjectReply>) -> Seq<
    InjectCall<'a>,
>
    decreases replies.len(),
{
    if replies.len() == 0 {
        Seq::empty()
    } else {
        seq![injection.pending()->0] + calls(
            &injection.after(replies.first()),
            replies.drop_first(),
        )
    }
}

/// An injection that finishes with success has made exactly three calls: it put the library
/// into the process of the child, left the payload there, and resumed the main thread of the
/// child, in this order.
pub proof fn successful_injection_made_three_calls(
    child: ChildHandles,
    dll_path: &NulTerminated,
    channel_conf: &ChannelConf,
    payload_id: Guid,
    injection: Injection<'_>,
    replies: Seq<InjectReply>,
)
    requires
        call_ensures(inject_and_resume, (child, dll_path, channel_conf, payload_id), injection),
        injection.answered(replies),
        injection.payload@.len() <= u32::MAX,
        injection.run(replies).stage == (InjectStage::Finished { outcome: Ok(()) }),
    ensures
        calls(&injection, replies) == seq![
            InjectCall::UpdateProcessWithDll { process: child.process, dll_path, count: 1 },
            InjectCall::CopyPayloadToProcess {
                process: child.process,
                id: payload_id,
                payload: &injection.payload,
                length: injection.payload@.len() as u32,
            },
            InjectCall::ResumeThread { thread: child.main_thread },
        ],
{
    inject::injection_reports_the_last_error(injection, replies);
    let second = injection.after(replies[0]);
    let third = second.after(replies[1]);
    let rest = replies.drop_first();
    let end = rest.drop_first();
    assert(rest.first() == replies[1] && end.first() == replies[2]);
    reveal_with_fuel(calls, 4);
    assert(calls(&injection, replies) =~= seq![
        injection.pending()->0,
        second.pending()->0,
        third.pending()->0,
    ]);
}

} // verus!
