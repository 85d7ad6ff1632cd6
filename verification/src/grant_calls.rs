//! Which call a grant makes at every point, and what it returns, told from its arguments
//! and the replies alone.

use vstd::prelude::*;

use crate::acl::{
    grant_file_access, grant_file_access_with_mask, grant_kernel_object_access, AclCall, AclReply,
    DaclGrant, GrantStage, DACL_SECURITY_INFORMATION, GENERIC_ALL, GRANT_ACCESS, SE_FILE_OBJECT,
    SE_KERNEL_OBJECT, SET_ACCESS, SUB_CONTAINERS_AND_OBJECTS_INHERIT, TRUSTEE_IS_SID,
};
use crate::io_error::IoError;

verus! {

/// The first call of a grant on a file reads the access control list of the file at that
/// very path, and nothing else of it.
pub proof fn file_grant_first_reads_that_file(
    path: &[u16],
    sid: usize,
    access_mask: u32,
    grant: DaclGrant,
    call: Option<AclCall<'_>>,
)
    requires
        call_ensures(grant_file_access_with_mask, (path, sid, access_mask), grant),
        call_ensures(DaclGrant::call, (&grant,), call),
    ensures
        call matches Some(
            AclCall::GetNamedSecurityInfo { name, object_type, security_info, owner, group, sacl },
        ) && {
            &&& name@ == path@.push(0)
            &&& object_type == SE_FILE_OBJECT
            &&& security_info == DACL_SECURITY_INFORMATION
            &&& owner == 0 && group == 0 && sacl == 0
        },
{
}

/// The first call of a grant on a kernel object reads the access control list of the object
/// behind that very handle, and nothing else of it.
pub proof fn object_grant_first_reads_that_object(
    handle: usize,
    sid: usize,
    access_mask: u32,
    grant: DaclGrant,
    call: Option<AclCall<'_>>,
)
    requires
        call_ensures(grant_kernel_object_access, (handle, sid, access_mask), grant),
        call_ensures(DaclGrant::call, (&grant,), call),
    ensures
        call == Some(
            AclCall::GetSecurityInfo {
                handle,
                object_type: SE_KERNEL_OBJECT,
                security_info: DACL_SECURITY_INFORMATION,
                owner: 0,
                group: 0,
                sacl: 0,
            },
        ),
{
}

/// To grant every access to a file is to grant it by its mask: the two grants are the same.
pub proof fn every_access_is_granted_by_its_mask(
    path: &[u16],
    sid: usize,
    every: DaclGrant,
    masked: DaclGrant,
)
    requires
        call_ensures(grant_file_access, (path, sid), every),
        call_ensures(grant_file_access_with_mask, (path, sid, GENERIC_ALL), masked),
    ensures
        every.stage == masked.stage,
        every.entry == masked.entry,
        every.entry.access_permissions == 0x1000_0000,
        every.target->path@ == masked.target->path@,
{
}

/// A grant on a file whose list was read merges one entry into that very list: an entry that
/// adds the given mask for the given identifier and is passed on in a directory. A file
/// without a list gets no entry, and its descriptor is released at once.
pub proof fn file_grant_then_merges_one_entry(
    path: &[u16],
    sid: usize,
    access_mask: u32,
    grant: DaclGrant,
    dacl: usize,
    descriptor: usize,
    read: DaclGrant,
    call: Option<AclCall<'_>>,
)
    requires
        call_ensures(grant_file_access_with_mask, (path, sid, access_mask), grant),
        call_ensures(
            DaclGrant::step,
            (grant, AclReply::Dacl { status: 0, dacl, descriptor }),
            read,
        ),
        call_ensures(DaclGrant::call, (&read,), call),
    ensures
        dacl == 0 ==> call == Some(AclCall::LocalFree { mem: descriptor }),
        dacl != 0 ==> (call matches Some(AclCall::SetEntriesInAcl { count, entry, old_acl }) && {
            &&& count == 1
            &&& old_acl == dacl
            &&& entry.access_permissions == access_mask
            &&& entry.access_mode == GRANT_ACCESS
            &&& entry.inheritance == SUB_CONTAINERS_AND_OBJECTS_INHERIT
            &&& entry.trustee.multiple_trustee == 0
            &&& entry.trustee.multiple_trustee_operation == 0
            &&& entry.trustee.trustee_form == TRUSTEE_IS_SID
            &&& entry.trustee.trustee_type == 0
            &&& entry.trustee.name == sid
        }),
{
}

/// A grant on a kernel object whose list was read merges one entry into that very list: an
/// entry that sets the given mask for the given identifier and is passed on to nothing.
pub proof fn object_grant_then_merges_one_entry(
    handle: usize,
    sid: usize,
    access_mask: u32,
    grant: DaclGrant,
    dacl: usize,
    descriptor: usize,
    read: DaclGrant,
    call: Option<AclCall<'_>>,
)
    requires
        call_ensures(grant_kernel_object_access, (handle, sid, access_mask), grant),
        call_ensures(
            DaclGrant::step,
            (grant, AclReply::Dacl { status: 0, dacl, descriptor }),
            read,
        ),
        call_ensures(DaclGrant::call, (&read,), call),
    ensures
        call matches Some(AclCall::SetEntriesInAcl { count, entry, old_acl }) && {
            &&& count == 1
            &&& old_acl == dacl
            &&& entry.access_permissions == access_mask
            &&& entry.access_mode == SET_ACCESS
            &&& entry.inheritance == 0
            &&& entry.trustee.multiple_trustee == 0
            &&& entry.trustee.multiple_trustee_operation == 0
            &&& entry.trustee.trustee_form == TRUSTEE_IS_SID
            &&& entry.trustee.trustee_type == 0
            &&& entry.trustee.name == sid
        },
{
}

/// A grant on a file writes the list that the merge made, and nothing else, to the file at
/// that very path.
pub proof fn file_grant_then_writes_the_merged_list(
    path: &[u16],
    sid: usize,
    access_mask: u32,
    grant: DaclGrant,
    dacl: usize,
    descriptor: usize,
    read: DaclGrant,
    acl: usize,
    merged: DaclGrant,
    call: Option<AclCall<'_>>,
)
    requires
        call_ensures(grant_file_access_with_mask, (path, sid, access_mask), grant),
        dacl != 0,
        call_ensures(
            DaclGrant::step,
            (grant, AclReply::Dacl { status: 0, dacl, descriptor }),
            read,
        ),
        call_ensures(DaclGrant::step, (read, AclReply::Acl { status: 0, acl }), merged),
        call_ensures(DaclGrant::call, (&merged,), call),
    ensures
        call matches Some(
            AclCall::SetNamedSecurityInfo {
                name,
                object_type,
                security_info,
                owner,
                group,
                dacl: written,
                sacl,
            },
        ) && {
            &&& name@ == path@.push(0)
            &&& object_type == SE_FILE_OBJECT
            &&& security_info == DACL_SECURITY_INFORMATION
            &&& written == acl
            &&& owner == 0 && group == 0 && sacl == 0
        },
{
}

/// A grant on a kernel object writes the list that the merge made, and nothing else, to the
/// object behind that very handle.
pub proof fn object_grant_then_writes_the_merged_list(
    handle: usize,
    sid: usize,
    access_mask: u32,
    grant: DaclGrant,
    dacl: usize,
    descriptor: usize,
    read: DaclGrant,
    acl: usize,
    merged: DaclGrant,
    call: Option<AclCall<'_>>,
)
    requires
        call_ensures(grant_kernel_object_access, (handle, sid, access_mask), grant),
        call_ensures(
            DaclGrant::step,
            (grant, AclReply::Dacl { status: 0, dacl, descriptor }),
            read,
        ),
        call_ensures(DaclGrant::step, (read, AclReply::Acl { status: 0, acl }), merged),
        call_ensures(DaclGrant::call, (&merged,), call),
    ensures
        call == Some(
            AclCall::SetSecurityInfo {
                handle,
                object_type: SE_KERNEL_OBJECT,
                security_info: DACL_SECURITY_INFORMATION,
                owner: 0,
                group: 0,
                dacl: acl,
                sacl: 0,
            },
        ),
{
}

/// The grant is one on a file or on a kernel object, as it was started.
pub open spec fn just_started(grant: DaclGrant) -> bool {
    ||| exists|path: &[u16], sid: usize| call_ensures(grant_file_access, (path, sid), grant)
    ||| exists|path: &[u16], sid: usize, access_mask: u32|
        call_ensures(grant_file_access_with_mask, (path, sid, access_mask), grant)
    ||| exists|handle: usize, sid: usize, access_mask: u32|
        call_ensures(grant_kernel_object_access, (handle, sid, access_mask), grant)
}

/// The outcome is success for the status zero, and otherwise the error whose number has the
/// same 32 bits as the status.
pub open spec fn tells_of_status(outcome: Result<(), IoError>, status: u32) -> bool {
    match outcome {
        Ok(_) => status == 0,
        Err(IoError::Os(number)) => status != 0 && (number - status) % 0x1_0000_0000 == 0,
        Err(_) => false,
    }
}

/// A list that could not be read ends the grant at once, with nothing to release. For a file
/// the error says that its list could not be read and with which code; for a kernel object
/// it is the number of that code.
pub proof fn failed_read_ends_the_grant(
    grant: DaclGrant,
    status: u32,
    dacl: usize,
    descriptor: usize,
    ended: DaclGrant,
    call: Option<AclCall<'_>>,
)
    requires
        just_started(grant),
        status != 0,
        call_ensures(DaclGrant::step, (grant, AclReply::Dacl { status, dacl, descriptor }), ended),
        call_ensures(DaclGrant::call, (&ended,), call),
    ensures
        call is None,
        ended.stage matches GrantStage::Finished { outcome } && {
            if grant.target is File {
                outcome == Err::<(), IoError>(IoError::ReadNamedDacl { code: status })
            } else {
                tells_of_status(outcome, status)
            }
        },
{
}

/// A grant on a file without a list succeeds once the descriptor is released.
pub proof fn file_without_a_list_is_a_success(
    path: &[u16],
    sid: usize,
    access_mask: u32,
    grant: DaclGrant,
    descriptor: usize,
    read: DaclGrant,
    ended: DaclGrant,
    call: Option<AclCall<'_>>,
)
    requires
        call_ensures(grant_file_access_with_mask, (path, sid, access_mask), grant),
        call_ensures(
            DaclGrant::step,
            (grant, AclReply::Dacl { status: 0, dacl: 0, descriptor }),
            read,
        ),
        call_ensures(DaclGrant::step, (read, AclReply::Done), ended),
        call_ensures(DaclGrant::call, (&ended,), call),
    ensures
        call is None,
        ended.stage == (GrantStage::Finished { outcome: Ok(()) }),
{
}

/// A merge that failed is followed by the release of the descriptor and by nothing else, and
/// the grant returns the error of the merge.
pub proof fn failed_merge_ends_the_grant(
    grant: DaclGrant,
    dacl: usize,
    descriptor: usize,
    read: DaclGrant,
    status: u32,
    acl: usize,
    failed: DaclGrant,
    call: Option<AclCall<'_>>,
    ended: DaclGrant,
    last: Option<AclCall<'_>>,
)
    requires
        just_started(grant),
        grant.target is File ==> dacl != 0,
        call_ensures(
            DaclGrant::step,
            (grant, AclReply::Dacl { status: 0, dacl, descriptor }),
            read,
        ),
        status != 0,
        call_ensures(DaclGrant::step, (read, AclReply::Acl { status, acl }), failed),
        call_ensures(DaclGrant::call, (&failed,), call),
        call_ensures(DaclGrant::step, (failed, AclReply::Done), ended),
        call_ensures(DaclGrant::call, (&ended,), last),
    ensures
        call == Some(AclCall::LocalFree { mem: descriptor }),
        last is None,
        ended.stage matches GrantStage::Finished { outcome } && tells_of_status(outcome, status),
{
}

/// After the write, whatever its status, the merged list is released, if there is one, and
/// then the descriptor; the grant returns what the write told.
pub proof fn written_list_and_descriptor_are_released(
    grant: DaclGrant,
    dacl: usize,
    descriptor: usize,
    read: DaclGrant,
    acl: usize,
    merged: DaclGrant,
    status: u32,
    written: DaclGrant,
    first: Option<AclCall<'_>>,
    released: DaclGrant,
    second: Option<AclCall<'_>>,
    ended: DaclGrant,
    last: Option<AclCall<'_>>,
)
    requires
        just_started(grant),
        grant.target is File ==> dacl != 0,
        call_ensures(
            DaclGrant::step,
            (grant, AclReply::Dacl { status: 0, dacl, descriptor }),
            read,
        ),
        call_ensures(DaclGrant::step, (read, AclReply::Acl { status: 0, acl }), merged),
        call_ensures(DaclGrant::step, (merged, AclReply::Code(status)), written),
        call_ensures(DaclGrant::call, (&written,), first),
        call_ensures(DaclGrant::step, (written, AclReply::Done), released),
        call_ensures(DaclGrant::call, (&released,), second),
        call_ensures(DaclGrant::step, (released, AclReply::Done), ended),
        call_ensures(DaclGrant::call, (&ended,), last),
    ensures
        acl != 0 ==> {
            &&& first == Some(AclCall::LocalFree { mem: acl })
            &&& second == Some(AclCall::LocalFree { mem: descriptor })
        },
        acl == 0 ==> {
            &&& first == Some(AclCall::LocalFree { mem: descriptor })
            &&& second is None
        },
        last is None,
        ended.stage matches GrantStage::Finished { outcome } && tells_of_status(outcome, status),
{
}

/// The reply is of the kind that the call gives back.
pub open spec fn fits(call: Option<AclCall<'_>>, reply: AclReply) -> bool {
    match call {
        Some(AclCall::OpenFileMapping { .. }) => reply is Handle,
        Some(AclCall::GetLastError) => reply is Code,
        Some(AclCall::GetSecurityInfo { .. }) => reply is Dacl,
        Some(AclCall::GetNamedSecurityInfo { .. }) => reply is Dacl,
        Some(AclCall::SetEntriesInAcl { .. }) => reply is Acl,
        Some(AclCall::SetSecurityInfo { .. }) => reply is Code,
        Some(AclCall::SetNamedSecurityInfo { .. }) => reply is Code,
        Some(AclCall::LocalFree { .. }) => reply is Done,
        Some(AclCall::CloseHandle { .. }) => reply is Done,
        None => false,
    }
}

/// A grant moves on with a reply exactly if the reply is of the kind that its call gives
/// back; any other reply leaves it as it is, and so does every reply once it has ended.
pub proof fn grant_moves_on_with_its_reply_alone(
    grant: DaclGrant,
    call: Option<AclCall<'_>>,
    reply: AclReply,
    next: DaclGrant,
)
    requires
        call_ensures(DaclGrant::call, (&grant,), call),
        call_ensures(DaclGrant::step, (grant, reply), next),
    ensures
        fits(call, reply) <==> next != grant,
        next.target == grant.target,
        next.entry == grant.entry,
        call is None <==> grant.stage is Finished,
        grant.awaits(reply) <==> fits(call, reply),
{
    assert(fits(call, reply) ==> next.stage != grant.stage);
}

} // verus!
