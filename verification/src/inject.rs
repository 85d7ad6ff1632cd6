//! Loading a library into a suspended process, and letting the process run.

use vstd::prelude::*;

use crate::ansi::NulTerminated;
use crate::io_error::IoError;
use crate::payload::{ChannelConf, Payload};
use crate::payload;

verus! {

/// What a Windows function returns for success.
pub const TRUE: i32 = 1;

/// What `ResumeThread` returns for a failure.
pub const RESUME_FAILED: u32 = 0xFFFF_FFFF;

/// An identifier of a kind of payload.
#[derive(Debug, Clone, Copy, PartialEq, Eq)]
pub struct Guid {
    pub data1: u32,
    pub data2: u16,
    pub data3: u16,
    pub data4: [u8; 8],
}

/// The handles of a child process and of its main thread.
#[derive(Debug, Clone, Copy, PartialEq, Eq, Structural)]
pub struct ChildHandles {
    pub process: usize,
    pub main_thread: usize,
}

/// A call that an injection waits for.
#[derive(Debug, Clone, Copy, PartialEq, Eq)]
pub enum InjectCall<'a> {
    /// `DetourUpdateProcessWithDll`; the paths are `count` in number and begin with `dll_path`.
    UpdateProcessWithDll { process: usize, dll_path: &'a NulTerminated, count: u32 },
    /// `DetourCopyPayloadToProcess`
    CopyPayloadToProcess { process: usize, id: Guid, payload: &'a Vec<u8>, length: u32 },
    /// `ResumeThread`
    ResumeThread { thread: usize },
    /// The last error of the operating system.
    LastOsError,
}

/// What a call gave back.
#[derive(Debug, Clone, Copy, PartialEq, Eq, Structural)]
pub enum InjectReply {
    /// Whether the call succeeded.
    Bool(i32),
    /// How often the thread had been suspended.
    SuspendCount(u32),
    /// The number of the last error.
    OsError(i32),
}

/// How far an injection has come.
#[derive(Debug, PartialEq, Eq)]
pub enum InjectStage {
    UpdatingProcess,
    /// The length of the payload is handed over in 32 bits.
    CopyingPayload { length: u32 },
    Resuming,
    ReadingLastError,
    Finished { outcome: Result<(), IoError> },
}

/// An injection under way.
#[derive(Debug, PartialEq, Eq)]
pub struct Injection<'a> {
    pub child: ChildHandles,
    pub dll_path: &'a NulTerminated,
    pub payload_id: Guid,
    pub payload: Vec<u8>,
    pub stage: InjectStage,
}

impl<'a> Injection<'a> {
    /// The call that the injection waits for; none once it has finished.
    pub open spec fn pending(&self) -> Option<InjectCall<'_>> {
        match self.stage {
            InjectStage::UpdatingProcess => Some(
                InjectCall::UpdateProcessWithDll {
                    process: self.child.process,
                    dll_path: self.dll_path,
                    count: 1,
                },
            ),
            InjectStage::CopyingPayload { length } => Some(
                InjectCall::CopyPayloadToProcess {
                    process: self.child.process,
                    id: self.payload_id,
                    payload: &self.payload,
                    length,
                },
            ),
            InjectStage::Resuming => Some(
                InjectCall::ResumeThread { thread: self.child.main_thread },
            ),
            InjectStage::ReadingLastError => Some(InjectCall::LastOsError),
            InjectStage::Finished { .. } => None,
        }
    }

    /// The reply is one that the pending call can give.
    pub open spec fn awaits(self, reply: InjectReply) -> bool {
        match self.stage {
            InjectStage::UpdatingProcess | InjectStage::CopyingPayload { .. } => reply is Bool,
            InjectStage::Resuming => reply is SuspendCount,
            InjectStage::ReadingLastError => reply is OsError,
            InjectStage::Finished { .. } => false,
        }
    }

    /// The reply does not call for a payload that is too long to be handed over.
    pub open spec fn accepts(self, reply: InjectReply) -> bool {
        self.stage is UpdatingProcess && reply == InjectReply::Bool(TRUE) ==> self.payload@.len()
            <= u32::MAX
    }

    /// The stage that follows a reply. A reply to another call changes nothing.
    pub open spec fn stage_after(self, reply: InjectReply) -> InjectStage {
        match (self.stage, reply) {
            (InjectStage::UpdatingProcess, InjectReply::Bool(success)) => {
                if success == TRUE {
                    InjectStage::CopyingPayload { length: self.payload@.len() as u32 }
                } else {
                    InjectStage::ReadingLastError
                }
            },
            (InjectStage::CopyingPayload { .. }, InjectReply::Bool(success)) => {
                if success == TRUE {
                    InjectStage::Resuming
                } else {
                    InjectStage::ReadingLastError
                }
            },
            (InjectStage::Resuming, InjectReply::SuspendCount(count)) => {
                if count == RESUME_FAILED {
                    InjectStage::ReadingLastError
                } else {
                    InjectStage::Finished { outcome: Ok(()) }
                }
            },
            (InjectStage::ReadingLastError, InjectReply::OsError(code)) => {
                InjectStage::Finished { outcome: Err(IoError::Os(code)) }
            },
            (stage, _) => stage,
        }
    }

    /// The injection after a reply.
    pub open spec fn after(self, reply: InjectReply) -> Injection<'a> {
        Injection { stage: self.stage_after(reply), ..self }
    }

    /// The call that the injection waits for; none once it has finished.
    pub fn call(&self) -> (call: Option<InjectCall<'_>>)
        ensures
            call == self.pending(),
    {
        match &self.stage {
            InjectStage::UpdatingProcess => Some(
                InjectCall::UpdateProcessWithDll {
                    process: self.child.process,
                    dll_path: self.dll_path,
                    count: 1,
                },
            ),
            InjectStage::CopyingPayload { length } => Some(
                InjectCall::CopyPayloadToProcess {
                    process: self.child.process,
                    id: self.payload_id,
                    payload: &self.payload,
                    length: *length,
                },
            ),
            InjectStage::Resuming => Some(
                InjectCall::ResumeThread { thread: self.child.main_thread },
            ),
            InjectStage::ReadingLastError => Some(InjectCall::LastOsError),
            InjectStage::Finished { .. } => None,
        }
    }

    /// Whether the reply can be taken: a payload that comes next has to be short enough for
    /// its length to be handed over.
    pub fn can_take(&self, reply: InjectReply) -> (accepted: bool)
        ensures
            accepted == self.accepts(reply),
    {
        match (&self.stage, reply) {
            (InjectStage::UpdatingProcess, InjectReply::Bool(success)) => {
                success != TRUE || self.payload.len() <= 0xFFFF_FFFF
            },
            _ => true,
        }
    }

    /// Takes the reply to the pending call. A reply to another call changes nothing.
    pub fn step(self, reply: InjectReply) -> (next: Injection<'a>)
        requires
            self.accepts(reply),
        ensures
            next == self.after(reply),
    {
        let Injection { child, dll_path, payload_id, payload, stage } = self;
        let stage = match (stage, reply) {
            (InjectStage::UpdatingProcess, InjectReply::Bool(success)) => {
                if success == TRUE {
                    InjectStage::CopyingPayload { length: payload.len() as u32 }
                } else {
                    InjectStage::ReadingLastError
                }
            },
            (InjectStage::CopyingPayload { .. }, InjectReply::Bool(success)) => {
                if success == TRUE {
                    InjectStage::Resuming
                } else {
                    InjectStage::ReadingLastError
                }
            },
            (InjectStage::Resuming, InjectReply::SuspendCount(count)) => {
                if count == RESUME_FAILED {
                    InjectStage::ReadingLastError
                } else {
                    InjectStage::Finished { outcome: Ok(()) }
                }
            },
            (InjectStage::ReadingLastError, InjectReply::OsError(code)) => {
                InjectStage::Finished { outcome: Err(IoError::Os(code)) }
            },
            (stage, _) => stage,
        };
        Injection { child, dll_path, payload_id, payload, stage }
    }

    /// The injection after a sequence of replies.
    pub open spec fn run(self, replies: Seq<InjectReply>) -> Injection<'a>
        decreases replies.len(),
    {
        if replies.len() == 0 {
            self
        } else {
            self.after(replies.first()).run(replies.drop_first())
        }
    }

    /// Every reply answers the call that is pending when it comes.
    pub open spec fn answered(self, replies: Seq<InjectReply>) -> bool
        decreases replies.len(),
    {
        replies.len() > 0 ==> self.awaits(replies.first()) && self.after(replies.first()).answered(
            replies.drop_first(),
        )
    }
}

/// Starts to load the library at `dll_path` into a suspended process, to leave the payload
/// there, and to resume the main thread.
pub fn inject_and_resume<'a>(
    child: ChildHandles,
    dll_path: &'a NulTerminated,
    channel_conf: &ChannelConf,
    payload_id: Guid,
) -> (injection: Injection<'a>)
    ensures
        injection.child == child,
        injection.dll_path == dll_path,
        injection.payload_id == payload_id,
        injection.payload@ == payload::payload_encoding(channel_conf.encoded@, dll_path@),
        injection.stage is UpdatingProcess,
{
    let payload = Payload { channel_conf, ansi_dll_path_with_nul: dll_path.to_bytes() }.encode();
    Injection { child, dll_path, payload_id, payload, stage: InjectStage::UpdatingProcess }
}

/// Once the library was put into the process, the whole payload is left there, and what is
/// left reads back to the configuration of the channel and the path of the library.
pub proof fn copied_payload_reads_back(
    injection: Injection<'_>,
    channel_conf: Seq<u8>,
    reply: InjectReply,
)
    requires
        injection.stage is UpdatingProcess,
        injection.payload@ == payload::payload_encoding(channel_conf, injection.dll_path@),
        reply == InjectReply::Bool(TRUE),
        injection.accepts(reply),
    ensures
        injection.after(reply).pending() matches Some(
            InjectCall::CopyPayloadToProcess { process, id, payload: bytes, length },
        ) && {
            &&& process == injection.child.process
            &&& id == injection.payload_id
            &&& length == bytes@.len()
            &&& bytes@.take(channel_conf.len() as int) == channel_conf
            &&& payload::read_slice(bytes@.skip(channel_conf.len() as int)) == Some(
                (injection.dll_path@, Seq::<u8>::empty()),
            )
        },
{
    payload::payload_reads_back(channel_conf, injection.dll_path@);
}

/// The main thread is resumed only after the library was put into the process and the
/// payload was left there.
pub proof fn resumed_only_after_library_and_payload(
    injection: Injection<'_>,
    replies: Seq<InjectReply>,
)
    requires
        injection.stage is UpdatingProcess,
        injection.answered(replies),
        injection.run(replies).pending() matches Some(InjectCall::ResumeThread { .. }),
    ensures
        replies == seq![InjectReply::Bool(TRUE), InjectReply::Bool(TRUE)],
{
    reveal_with_fuel(Injection::run, 5);
    reveal_with_fuel(Injection::answered, 5);
    assert(replies.len() > 0);
    let rest = replies.drop_first();
    assert(rest.len() > 0);
    assert(rest.drop_first().len() == 0);
    assert(replies =~= seq![InjectReply::Bool(TRUE), InjectReply::Bool(TRUE)]);
}

/// The number of calls that an injection can still make.
spec fn remaining(stage: InjectStage) -> nat {
    match stage {
        InjectStage::UpdatingProcess => 4,
        InjectStage::CopyingPayload { .. } => 3,
        InjectStage::Resuming => 2,
        InjectStage::ReadingLastError => 1,
        InjectStage::Finished { .. } => 0,
    }
}

proof fn lemma_remaining(injection: Injection<'_>, replies: Seq<InjectReply>)
    requires
        injection.answered(replies),
    ensures
        replies.len() + remaining(injection.run(replies).stage) <= remaining(injection.stage),
    decreases replies.len(),
{
    if replies.len() > 0 {
        lemma_remaining(injection.after(replies.first()), replies.drop_first());
    }
}

/// An injection ends after at most four calls, and it waits for a call exactly as long as
/// it has not ended.
pub proof fn injection_ends(injection: Injection<'_>, replies: Seq<InjectReply>)
    requires
        injection.stage is UpdatingProcess,
        injection.answered(replies),
    ensures
        replies.len() <= 4,
        injection.run(replies).pending() is None <==> injection.run(replies).stage is Finished,
        replies.len() == 4 ==> injection.run(replies).stage is Finished,
{
    lemma_remaining(injection, replies);
}

/// The reply tells of a call that did not do what it was to do.
pub open spec fn tells_of_failure(reply: InjectReply) -> bool {
    match reply {
        InjectReply::Bool(success) => success != TRUE,
        InjectReply::SuspendCount(count) => count == RESUME_FAILED,
        InjectReply::OsError(_) => false,
    }
}

proof fn lemma_outcome(injection: Injection<'_>, replies: Seq<InjectReply>)
    requires
        injection.answered(replies),
        injection.run(replies).stage is Finished,
        injection.stage !is Finished,
    ensures
        replies.len() > 0,
        match injection.run(replies).stage->Finished_outcome {
            Ok(_) => {
                &&& replies.last() matches InjectReply::SuspendCount(count) && count
                    != RESUME_FAILED
                &&& injection.stage !is ReadingLastError
                &&& replies.len() == remaining(injection.stage) - 1
                &&& forall|i: int|
                    0 <= i < replies.len() - 1 ==> #[trigger] replies[i] == InjectReply::Bool(TRUE)
            },
            Err(error) => {
                &&& replies.last() matches InjectReply::OsError(code) && error == IoError::Os(code)
                &&& injection.stage is ReadingLastError <==> replies.len() == 1
                &&& replies.len() >= 2 ==> tells_of_failure(replies[replies.len() - 2])
                &&& forall|i: int|
                    0 <= i < replies.len() - 2 ==> #[trigger] replies[i] == InjectReply::Bool(TRUE)
            },
        },
    decreases replies.len(),
{
    assert(replies.len() > 0);
    let next = injection.after(replies.first());
    let rest = replies.drop_first();
    if next.stage is Finished {
        assert(next.answered(rest));
        assert(rest.len() == 0);
        assert(next.run(rest) == next);
    } else {
        lemma_outcome(next, rest);
        assert(replies.last() == rest.last());
        assert forall|i: int| 1 <= i < replies.len() implies #[trigger] replies[i] == rest[i
            - 1] by {}
    }
}

/// An injection succeeds exactly if the library was put into the process, the payload was
/// left there and the thread was resumed; otherwise its error is the last error of the
/// operating system, asked for right after the call that failed, and every call before that
/// one had succeeded.
pub proof fn injection_reports_the_last_error(
    injection: Injection<'_>,
    replies: Seq<InjectReply>,
)
    requires
        injection.stage is UpdatingProcess,
        injection.answered(replies),
        injection.run(replies).stage is Finished,
    ensures
        match injection.run(replies).stage->Finished_outcome {
            Ok(_) => {
                &&& replies.len() == 3
                &&& replies[0] == InjectReply::Bool(TRUE)
                &&& replies[1] == InjectReply::Bool(TRUE)
                &&& replies[2] matches InjectReply::SuspendCount(count) && count != RESUME_FAILED
            },
            Err(error) => {
                &&& replies.len() >= 2
                &&& replies.last() matches InjectReply::OsError(code) && error == IoError::Os(code)
                &&& tells_of_failure(replies[replies.len() - 2])
                &&& forall|i: int|
                    0 <= i < replies.len() - 2 ==> #[trigger] replies[i] == InjectReply::Bool(TRUE)
            },
        },
{
    lemma_outcome(injection, replies);
}

} // verus!
