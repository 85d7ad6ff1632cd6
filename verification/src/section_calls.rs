//! Which call a grant on a section makes at every point, and what it returns, told from its
//! arguments and the replies alone.

use vstd::prelude::*;

use crate::acl::{
    grant_kernel_object_access, AclCall, AclReply, DaclGrant, ExplicitAccessW, GrantStage,
    DACL_SECURITY_INFORMATION, SE_KERNEL_OBJECT, SET_ACCESS, TRUSTEE_IS_SID,
};
use crate::grant_calls;
use crate::io_error::IoError;
use crate::section::{
    grant_section_access, SectionGrant, FILE_MAP_ALL_ACCESS, SECTION_ALL_ACCESS,
};
use crate::wide;

verus! {

/// The first call of a grant on a section opens the section of that very name, for every
/// access and not to be inherited.
pub proof fn section_grant_first_opens_that_section(
    os_id: &str,
    sid: usize,
    section: SectionGrant,
    call: Option<AclCall<'_>>,
)
    requires
        call_ensures(grant_section_access, (os_id, sid), section),
        call_ensures(SectionGrant::call, (&section,), call),
    ensures
        call matches Some(AclCall::OpenFileMapping { access, inherit, name }) && {
            &&& access == FILE_MAP_ALL_ACCESS
            &&& inherit == 0
            &&& name@ == wide::utf16(os_id@).push(0)
        },
{
}

/// Where the section could not be opened, the reason is asked for at once. The grant then
/// ends with an error that holds the name as it was given and that reason.
pub proof fn section_that_was_not_opened(
    os_id: &str,
    sid: usize,
    section: SectionGrant,
    failed: SectionGrant,
    call: Option<AclCall<'_>>,
    code: u32,
    ended: SectionGrant,
    last: Option<AclCall<'_>>,
)
    requires
        call_ensures(grant_section_access, (os_id, sid), section),
        call_ensures(SectionGrant::step, (section, AclReply::Handle(0)), failed),
        call_ensures(SectionGrant::call, (&failed,), call),
        call_ensures(SectionGrant::step, (failed, AclReply::Code(code)), ended),
        call_ensures(SectionGrant::call, (&ended,), last),
    ensures
        call == Some(AclCall::GetLastError),
        last is None,
        ended matches SectionGrant::Finished {
            outcome: Err(IoError::OpenSection { os_id: kept, code: reason }),
        } && kept@ == os_id@ && reason == code,
{
}

/// A section that was opened is granted as the kernel object behind its handle is, with
/// every access.
pub proof fn opened_section_is_granted_as_a_kernel_object(
    os_id: &str,
    sid: usize,
    section: SectionGrant,
    handle: usize,
    opened: SectionGrant,
    grant: DaclGrant,
)
    requires
        call_ensures(grant_section_access, (os_id, sid), section),
        handle != 0,
        call_ensures(SectionGrant::step, (section, AclReply::Handle(handle)), opened),
        call_ensures(grant_kernel_object_access, (handle, sid, SECTION_ALL_ACCESS), grant),
    ensures
        opened == (SectionGrant::Granting { handle, grant }),
{
}

/// While it grants, a grant on a section makes the calls of the grant inside it and hands
/// that grant every reply. Once that grant has ended, the section is closed by the handle
/// with which it was opened, and then the outcome of that grant is returned.
pub proof fn section_follows_the_grant_inside_it(
    handle: usize,
    grant: DaclGrant,
    call: Option<AclCall<'_>>,
    inner_call: Option<AclCall<'_>>,
    reply: AclReply,
    next: SectionGrant,
    inner_next: DaclGrant,
    next_call: Option<AclCall<'_>>,
    after_close: SectionGrant,
    last: Option<AclCall<'_>>,
)
    requires
        call_ensures(SectionGrant::call, (&SectionGrant::Granting { handle, grant },), call),
        call_ensures(DaclGrant::call, (&grant,), inner_call),
        call_ensures(SectionGrant::step, (SectionGrant::Granting { handle, grant }, reply), next),
        call_ensures(DaclGrant::step, (grant, reply), inner_next),
        call_ensures(SectionGrant::call, (&next,), next_call),
        call_ensures(SectionGrant::step, (next, AclReply::Done), after_close),
        call_ensures(SectionGrant::call, (&after_close,), last),
    ensures
        call == inner_call,
        inner_next.stage !is Finished ==> next == (SectionGrant::Granting {
            handle,
            grant: inner_next,
        }),
        inner_next.stage matches GrantStage::Finished { outcome } ==> {
            &&& next_call == Some(AclCall::CloseHandle { handle })
            &&& after_close == (SectionGrant::Finished { outcome })
            &&& last is None
        },
{
}

/// Everything that a grant on a section does once the section was opened, its list read and
/// the entry merged: which calls it makes, with which arguments, and what it returns.
pub proof fn opened_section_call_by_call(
    os_id: &str,
    sid: usize,
    section: SectionGrant,
    handle: usize,
    opened: SectionGrant,
    reading: Option<AclCall<'_>>,
    dacl: usize,
    descriptor: usize,
    read: SectionGrant,
    merging: Option<AclCall<'_>>,
    acl: usize,
    merged: SectionGrant,
    writing: Option<AclCall<'_>>,
    status: u32,
    written: SectionGrant,
    first_free: Option<AclCall<'_>>,
    freed: SectionGrant,
    second_free: Option<AclCall<'_>>,
    granted: SectionGrant,
    closing: Option<AclCall<'_>>,
    ended: SectionGrant,
    last: Option<AclCall<'_>>,
)
    requires
        call_ensures(grant_section_access, (os_id, sid), section),
        handle != 0,
        call_ensures(SectionGrant::step, (section, AclReply::Handle(handle)), opened),
        call_ensures(SectionGrant::call, (&opened,), reading),
        call_ensures(
            SectionGrant::step,
            (opened, AclReply::Dacl { status: 0, dacl, descriptor }),
            read,
        ),
        call_ensures(SectionGrant::call, (&read,), merging),
        acl != 0,
        call_ensures(SectionGrant::step, (read, AclReply::Acl { status: 0, acl }), merged),
        call_ensures(SectionGrant::call, (&merged,), writing),
        call_ensures(SectionGrant::step, (merged, AclReply::Code(status)), written),
        call_ensures(SectionGrant::call, (&written,), first_free),
        call_ensures(SectionGrant::step, (written, AclReply::Done), freed),
        call_ensures(SectionGrant::call, (&freed,), second_free),
        call_ensures(SectionGrant::step, (freed, AclReply::Done), granted),
        call_ensures(SectionGrant::call, (&granted,), closing),
        call_ensures(SectionGrant::step, (granted, AclReply::Done), ended),
        call_ensures(SectionGrant::call, (&ended,), last),
    ensures
        reading == Some(
            AclCall::GetSecurityInfo {
                handle,
                object_type: SE_KERNEL_OBJECT,
                security_info: DACL_SECURITY_INFORMATION,
                owner: 0,
                group: 0,
                sacl: 0,
            },
        ),
        merging matches Some(AclCall::SetEntriesInAcl { count, entry, old_acl }) && {
            &&& count == 1
            &&& old_acl == dacl
            &&& gives_every_access_to(entry, sid)
        },
        writing == Some(
            AclCall::SetSecurityInfo {
                handle,
                object_type: SE_KERNEL_OBJECT,
                security_info: DACL_SECURITY_INFORMATION,
                owner: 0,
                group: 0,
                dacl: acl,
                sacl: 0,
            },
        ),
        first_free == Some(AclCall::LocalFree { mem: acl }),
        second_free == Some(AclCall::LocalFree { mem: descriptor }),
        closing == Some(AclCall::CloseHandle { handle }),
        last is None,
        ended matches SectionGrant::Finished { outcome } && grant_calls::tells_of_status(
            outcome,
            status,
        ),
{
}

/// The entry sets every access to a section for the identifier at `sid`, and is passed on to
/// nothing.
pub open spec fn gives_every_access_to(entry: ExplicitAccessW, sid: usize) -> bool {
    &&& entry.access_permissions == SECTION_ALL_ACCESS
    &&& entry.access_mode == SET_ACCESS
    &&& entry.inheritance == 0
    &&& entry.trustee.multiple_trustee == 0
    &&& entry.trustee.multiple_trustee_operation == 0
    &&& entry.trustee.trustee_form == TRUSTEE_IS_SID
    &&& entry.trustee.trustee_type == 0
    &&& entry.trustee.name == sid
}

proof fn lemma_entry_stays(sid: usize, section: SectionGrant, replies: Seq<AclReply>)
    requires
        match section {
            SectionGrant::Opening { sid: trustee, .. } => trustee == sid,
            SectionGrant::Granting { grant, .. } => gives_every_access_to(grant.entry, sid),
            _ => true,
        },
    ensures
        section.run(replies).pending() matches Some(AclCall::SetEntriesInAcl { entry, .. })
            ==> gives_every_access_to(entry, sid),
    decreases replies.len(),
{
    if replies.len() > 0 {
        lemma_entry_stays(sid, section.after(replies.first()), replies.drop_first());
    }
}

/// Whatever the replies are, every entry that a grant on a section hands over to be merged
/// sets every access to a section, for the identifier that the grant was started with.
pub proof fn section_grant_hands_over_one_entry_only(
    os_id: &str,
    sid: usize,
    section: SectionGrant,
    replies: Seq<AclReply>,
    call: Option<AclCall<'_>>,
)
    requires
        call_ensures(grant_section_access, (os_id, sid), section),
        call_ensures(SectionGrant::call, (&section.run(replies),), call),
    ensures
        call matches Some(AclCall::SetEntriesInAcl { count, entry, .. }) ==> {
            &&& count == 1
            &&& entry.access_permissions == SECTION_ALL_ACCESS
            &&& entry.access_mode == SET_ACCESS
            &&& entry.inheritance == 0
            &&& entry.trustee.multiple_trustee == 0
            &&& entry.trustee.multiple_trustee_operation == 0
            &&& entry.trustee.trustee_form == TRUSTEE_IS_SID
            &&& entry.trustee.trustee_type == 0
            &&& entry.trustee.name == sid
        },
{
    lemma_entry_stays(sid, section, replies);
}

/// A grant on a section moves on with a reply exactly if the reply is of the kind that its
/// call gives back; any other reply leaves it as it is, and so does every reply once it has
/// ended.
pub proof fn section_moves_on_with_its_reply_alone(
    section: SectionGrant,
    call: Option<AclCall<'_>>,
    reply: AclReply,
    next: SectionGrant,
)
    requires
        section matches SectionGrant::Granting { grant, .. } ==> grant.stage !is Finished,
        call_ensures(SectionGrant::call, (&section,), call),
        call_ensures(SectionGrant::step, (section, reply), next),
    ensures
        grant_calls::fits(call, reply) <==> next != section,
        next matches SectionGrant::Granting { grant, .. } ==> grant.stage !is Finished,
        call is None <==> section is Finished,
        section.awaits(reply) <==> grant_calls::fits(call, reply),
{
    if let SectionGrant::Granting { handle, grant } = section {
        let inner = grant.after(reply);
        assert(grant.awaits(reply) ==> inner.stage != grant.stage);
    }
}

} // verus!
