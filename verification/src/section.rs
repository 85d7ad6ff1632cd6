//! Granting a security identifier access to a named section of shared memory.

use vstd::prelude::*;

use crate::acl::{grant_kernel_object_access, AclCall, AclReply, DaclGrant, GrantStage};
use crate::acl_laws;
use crate::io_error::IoError;
use crate::wide;

verus! {

/// Every access right of a section.
pub const SECTION_ALL_ACCESS: u32 = 0x000F_001F;

/// Every access right of a mapped file.
pub const FILE_MAP_ALL_ACCESS: u32 = 0x000F_001F;

/// A grant on a section, and how far it has come.
#[derive(Debug, PartialEq, Eq)]
pub enum SectionGrant {
    /// The section is opened by its name, in code units that end in a zero.
    Opening { os_id: String, name: Vec<u16>, sid: usize },
    /// The section could not be opened, and the reason is asked for.
    ReadingLastError { os_id: String, name: Vec<u16> },
    Granting { handle: usize, grant: DaclGrant },
    Closing { handle: usize, outcome: Result<(), IoError> },
    Finished { outcome: Result<(), IoError> },
}

/// The grant on an open section, at its start.
pub open spec fn kernel_grant(handle: usize, sid: usize) -> DaclGrant {
    DaclGrant {
        target: crate::acl::GrantTarget::KernelObject { handle },
        entry: crate::acl::ExplicitAccessW::granting(
            sid,
            SECTION_ALL_ACCESS,
            crate::acl::SET_ACCESS,
            0,
        ),
        stage: GrantStage::Reading,
    }
}

impl SectionGrant {
    /// The call that the grant waits for; none once it has finished.
    pub open spec fn pending(&self) -> Option<AclCall<'_>> {
        match self {
            SectionGrant::Opening { name, .. } => Some(
                AclCall::OpenFileMapping { access: FILE_MAP_ALL_ACCESS, inherit: 0, name },
            ),
            SectionGrant::ReadingLastError { .. } => Some(AclCall::GetLastError),
            SectionGrant::Granting { grant, .. } => grant.pending(),
            SectionGrant::Closing { handle, .. } => Some(AclCall::CloseHandle { handle: *handle }),
            SectionGrant::Finished { .. } => None,
        }
    }

    /// The reply is one that the pending call can give.
    pub open spec fn awaits(self, reply: AclReply) -> bool {
        match self {
            SectionGrant::Opening { .. } => reply is Handle,
            SectionGrant::ReadingLastError { .. } => reply is Code,
            SectionGrant::Granting { grant, .. } => grant.awaits(reply),
            SectionGrant::Closing { .. } => reply is Done,
            SectionGrant::Finished { .. } => false,
        }
    }

    /// The grant after a reply. A reply to another call changes nothing.
    pub open spec fn after(self, reply: AclReply) -> SectionGrant {
        match (self, reply) {
            (SectionGrant::Opening { os_id, name, sid }, AclReply::Handle(handle)) => {
                if handle == 0 {
                    SectionGrant::ReadingLastError { os_id, name }
                } else {
                    SectionGrant::Granting { handle, grant: kernel_grant(handle, sid) }
                }
            },
            (SectionGrant::ReadingLastError { os_id, .. }, AclReply::Code(code)) => {
                SectionGrant::Finished { outcome: Err(IoError::OpenSection { os_id, code }) }
            },
            (SectionGrant::Granting { handle, grant }, reply) => {
                match grant.after(reply).stage {
                    GrantStage::Finished { outcome } => SectionGrant::Closing { handle, outcome },
                    _ => SectionGrant::Granting { handle, grant: grant.after(reply) },
                }
            },
            (SectionGrant::Closing { outcome, .. }, AclReply::Done) => {
                SectionGrant::Finished { outcome }
            },
            (state, _) => state,
        }
    }

    /// The call that the grant waits for; none once it has finished.
    pub fn call(&self) -> (call: Option<AclCall<'_>>)
        ensures
            call == self.pending(),
    {
        match self {
            SectionGrant::Opening { name, .. } => Some(
                AclCall::OpenFileMapping { access: FILE_MAP_ALL_ACCESS, inherit: 0, name },
            ),
            SectionGrant::ReadingLastError { .. } => Some(AclCall::GetLastError),
            SectionGrant::Granting { grant, .. } => grant.call(),
            SectionGrant::Closing { handle, .. } => Some(AclCall::CloseHandle { handle: *handle }),
            SectionGrant::Finished { .. } => None,
        }
    }

    /// Takes the reply to the pending call. A reply to another call changes nothing.
    pub fn step(self, reply: AclReply) -> (next: SectionGrant)
        ensures
            next == self.after(reply),
    {
        match (self, reply) {
            (SectionGrant::Opening { os_id, name, sid }, AclReply::Handle(handle)) => {
                if handle == 0 {
                    SectionGrant::ReadingLastError { os_id, name }
                } else {
                    let grant = grant_kernel_object_access(handle, sid, SECTION_ALL_ACCESS);
                    SectionGrant::Granting { handle, grant }
                }
            },
            (SectionGrant::ReadingLastError { os_id, .. }, AclReply::Code(code)) => {
                SectionGrant::Finished { outcome: Err(IoError::OpenSection { os_id, code }) }
            },
            (SectionGrant::Granting { handle, grant }, reply) => {
                let DaclGrant { target, entry, stage } = grant.step(reply);
                match stage {
                    GrantStage::Finished { outcome } => SectionGrant::Closing { handle, outcome },
                    stage => SectionGrant::Granting {
                        handle,
                        grant: DaclGrant { target, entry, stage },
                    },
                }
            },
            (SectionGrant::Closing { outcome, .. }, AclReply::Done) => {
                SectionGrant::Finished { outcome }
            },
            (state, _) => state,
        }
    }

    /// The grant after a sequence of replies.
    pub open spec fn run(self, replies: Seq<AclReply>) -> SectionGrant
        decreases replies.len(),
    {
        if replies.len() == 0 {
            self
        } else {
            self.after(replies.first()).run(replies.drop_first())
        }
    }

    /// Every reply answers the call that is pending when it comes.
    pub open spec fn answered(self, replies: Seq<AclReply>) -> bool
        decreases replies.len(),
    {
        replies.len() > 0 ==> self.awaits(replies.first()) && self.after(replies.first()).answered(
            replies.drop_first(),
        )
    }

    /// The calls that the replies answer, in order.
    pub open spec fn calls<'a>(&'a self, replies: Seq<AclReply>) -> Seq<AclCall<'a>>
        decreases replies.len(),
    {
        if replies.len() == 0 {
            Seq::empty()
        } else {
            seq![self.pending()->0] + self.after(replies.first()).calls(replies.drop_first())
        }
    }
}

/// Starts to grant the identifier at `sid` every access to the section named `os_id`.
pub fn grant_section_access(os_id: &str, sid: usize) -> (grant: SectionGrant)
    ensures
        grant matches SectionGrant::Opening { os_id: kept, name, sid: trustee } && {
            &&& kept@ == os_id@
            &&& name@ == wide::utf16(os_id@).push(0)
            &&& trustee == sid
        },
{
    SectionGrant::Opening {
        os_id: String::from_str(os_id),
        name: wide::wide_with_nul(os_id),
        sid,
    }
}

proof fn lemma_granting(handle: usize, grant: DaclGrant, replies: Seq<AclReply>)
    requires
        (SectionGrant::Granting { handle, grant }).answered(replies),
        (SectionGrant::Granting { handle, grant }).run(replies) is Finished,
    ensures
        ({
            let section = SectionGrant::Granting { handle, grant };
            let inner = replies.drop_last();
            &&& replies.len() > 0
            &&& replies.last() is Done
            &&& grant.answered(inner)
            &&& section.calls(replies) == grant.calls(inner).push(AclCall::CloseHandle { handle })
            &&& grant.run(inner).stage == (GrantStage::Finished {
                outcome: section.run(replies)->Finished_outcome,
            })
        }),
    decreases replies.len(),
{
    let section = SectionGrant::Granting { handle, grant };
    let next = section.after(replies.first());
    let rest = replies.drop_first();
    let inner = replies.drop_last();
    assert(next.answered(rest));
    assert(section.calls(replies) == seq![section.pending()->0] + next.calls(rest));
    match next {
        SectionGrant::Closing { handle: open, outcome } => {
            assert(next.run(rest) is Finished);
            assert(next.after(rest.first()).answered(rest.drop_first()));
            assert(rest.drop_first().len() == 0);
            assert(inner =~= seq![replies.first()]);
            assert(inner.drop_first() =~= Seq::empty());
            reveal_with_fuel(DaclGrant::run, 2);
            reveal_with_fuel(DaclGrant::answered, 2);
            reveal_with_fuel(DaclGrant::calls, 2);
            reveal_with_fuel(SectionGrant::run, 3);
            reveal_with_fuel(SectionGrant::calls, 3);
            assert(section.calls(replies) =~= grant.calls(inner).push(
                AclCall::CloseHandle { handle },
            ));
        },
        SectionGrant::Granting { grant: further, .. } => {
            lemma_granting(handle, further, rest);
            assert(inner.drop_first() =~= rest.drop_last());
            assert(inner.first() == replies.first());
            assert(section.calls(replies) =~= grant.calls(inner).push(
                AclCall::CloseHandle { handle },
            ));
        },
        _ => {},
    }
}

/// On a section that was opened, the grant makes the calls of a grant on that kernel
/// object between the opening and the closing, and returns what that grant returns. So
/// the section is closed once, after everything else, whether or not the grant succeeds.
pub proof fn opened_section_is_granted_and_closed(section: SectionGrant, replies: Seq<AclReply>)
    requires
        section is Opening,
        section.answered(replies),
        section.run(replies) is Finished,
        replies.first() matches AclReply::Handle(handle) && handle != 0,
    ensures
        ({
            let handle = replies.first()->Handle_0;
            let grant = kernel_grant(handle, section->sid);
            let inner = replies.subrange(1, replies.len() - 1);
            &&& replies.len() >= 2
            &&& grant.answered(inner)
            &&& section.calls(replies) == seq![section.pending()->0] + grant.calls(inner) + seq![
                AclCall::CloseHandle { handle },
            ]
            &&& grant.run(inner).stage == (GrantStage::Finished {
                outcome: section.run(replies)->Finished_outcome,
            })
        }),
{
    let handle = replies.first()->Handle_0;
    let grant = kernel_grant(handle, section->sid);
    let rest = replies.drop_first();
    let inner = replies.subrange(1, replies.len() - 1);
    lemma_granting(handle, grant, rest);
    assert(rest.drop_last() =~= inner);
    assert(section.calls(replies) =~= seq![section.pending()->0] + grant.calls(inner) + seq![
        AclCall::CloseHandle { handle },
    ]);
}

/// A section that could not be opened is neither granted nor closed: the only further
/// call asks for the reason, and the error names the section and that reason.
pub proof fn missing_section_is_reported(section: SectionGrant, replies: Seq<AclReply>)
    requires
        section is Opening,
        section.answered(replies),
        section.run(replies) is Finished,
        replies.first() == AclReply::Handle(0),
    ensures
        replies.len() == 2,
        replies[1] is Code,
        section.calls(replies) == seq![section.pending()->0, AclCall::GetLastError],
        section.run(replies)->Finished_outcome == Err::<(), IoError>(
            IoError::OpenSection { os_id: section->Opening_os_id, code: replies[1]->Code_0 },
        ),
{
    let next = section.after(replies.first());
    let rest = replies.drop_first();
    assert(next.answered(rest));
    assert(next.run(rest) is Finished);
    assert(rest.first() == replies[1]);
    let last = next.after(rest.first());
    assert(last.answered(rest.drop_first()));
    assert(rest.drop_first().len() == 0);
    reveal_with_fuel(SectionGrant::run, 3);
    reveal_with_fuel(SectionGrant::calls, 3);
    assert(section.calls(replies) =~= seq![section.pending()->0, AclCall::GetLastError]);
}

/// How many calls a grant on a section can still make.
spec fn section_remaining(section: SectionGrant) -> nat {
    match section {
        SectionGrant::Opening { .. } => 7,
        SectionGrant::Granting { grant, .. } => acl_laws::remaining(grant.stage) + 1,
        SectionGrant::ReadingLastError { .. } | SectionGrant::Closing { .. } => 1,
        SectionGrant::Finished { .. } => 0,
    }
}

proof fn lemma_section_remaining(section: SectionGrant, replies: Seq<AclReply>)
    requires
        section.answered(replies),
        section matches SectionGrant::Granting { grant, .. } ==> grant.stage !is Finished,
    ensures
        replies.len() + section_remaining(section.run(replies)) <= section_remaining(section),
        section.run(replies) matches SectionGrant::Granting { grant, .. } ==> grant.stage
            !is Finished,
    decreases replies.len(),
{
    if replies.len() > 0 {
        lemma_section_remaining(section.after(replies.first()), replies.drop_first());
    }
}

/// A grant on a section ends after at most seven calls, and it waits for a call exactly
/// as long as it has not ended.
pub proof fn section_grant_ends(section: SectionGrant, replies: Seq<AclReply>)
    requires
        section is Opening,
        section.answered(replies),
    ensures
        replies.len() <= 7,
        section.run(replies).pending() is None <==> section.run(replies) is Finished,
        replies.len() == 7 ==> section.run(replies) is Finished,
{
    lemma_section_remaining(section, replies);
}

} // verus!
