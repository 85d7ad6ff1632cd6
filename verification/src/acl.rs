//! Granting a security identifier access to a file or to a kernel object.
//!
//! A grant reads the access control list that is there, merges one entry into it and
//! writes the result back. Addresses are carried as numbers; zero is the null pointer.

use vstd::prelude::*;

use crate::io_error::IoError;
use crate::wide;

verus! {

/// Every access right of a file.
pub const GENERIC_ALL: u32 = 0x1000_0000;

/// An entry is passed on to the containers and the objects in a directory.
pub const SUB_CONTAINERS_AND_OBJECTS_INHERIT: u32 = 0x3;

/// The mode of an entry whose rights are combined with those that the trustee has.
pub const GRANT_ACCESS: u32 = 1;

/// The mode of an entry whose rights take the place of those that the trustee has.
pub const SET_ACCESS: u32 = 2;

/// A trustee is named by a security identifier.
pub const TRUSTEE_IS_SID: u32 = 0;

/// An object is a kernel object.
pub const SE_KERNEL_OBJECT: u32 = 6;

/// An object is a file or a directory.
pub const SE_FILE_OBJECT: u32 = 1;

/// Of all security information, the discretionary access control list.
pub const DACL_SECURITY_INFORMATION: u32 = 0x0000_0004;

/// Who an entry is for.
#[derive(Debug, Clone, Copy, PartialEq, Eq, Structural)]
pub struct TrusteeW {
    pub multiple_trustee: usize,
    pub multiple_trustee_operation: u32,
    pub trustee_form: u32,
    pub trustee_type: u32,
    pub name: usize,
}

/// One entry that is merged into an access control list.
#[derive(Debug, Clone, Copy, PartialEq, Eq, Structural)]
pub struct ExplicitAccessW {
    pub access_permissions: u32,
    pub access_mode: u32,
    pub inheritance: u32,
    pub trustee: TrusteeW,
}

impl ExplicitAccessW {
    /// The entry that gives `access_mask` to the identifier at `sid`.
    pub open spec fn granting(
        sid: usize,
        access_mask: u32,
        access_mode: u32,
        inheritance: u32,
    ) -> ExplicitAccessW {
        ExplicitAccessW {
            access_permissions: access_mask,
            access_mode,
            inheritance,
            trustee: TrusteeW {
                multiple_trustee: 0,
                multiple_trustee_operation: 0,
                trustee_form: TRUSTEE_IS_SID,
                trustee_type: 0,
                name: sid,
            },
        }
    }

    /// The entry that gives `access_mask` to the identifier at `sid`.
    pub fn new(
        sid: usize,
        access_mask: u32,
        access_mode: u32,
        inheritance: u32,
    ) -> (entry: ExplicitAccessW)
        ensures
            entry == ExplicitAccessW::granting(sid, access_mask, access_mode, inheritance),
            entry.access_permissions == access_mask,
            entry.access_mode == access_mode,
            entry.inheritance == inheritance,
            entry.trustee.multiple_trustee == 0,
            entry.trustee.multiple_trustee_operation == 0,
            entry.trustee.trustee_form == TRUSTEE_IS_SID,
            entry.trustee.trustee_type == 0,
            entry.trustee.name == sid,
    {
        ExplicitAccessW {
            access_permissions: access_mask,
            access_mode,
            inheritance,
            trustee: TrusteeW {
                multiple_trustee: 0,
                multiple_trustee_operation: 0,
                trustee_form: TRUSTEE_IS_SID,
                trustee_type: 0,
                name: sid,
            },
        }
    }
}

/// A call that a grant waits for.
#[derive(Debug, Clone, Copy, PartialEq, Eq)]
pub enum AclCall<'a> {
    /// `OpenFileMappingW`
    OpenFileMapping { access: u32, inherit: i32, name: &'a Vec<u16> },
    /// `GetLastError`
    GetLastError,
    /// `GetSecurityInfo`; of `owner`, `group` and `sacl`, where the answers are put, a null
    /// one is not asked for.
    GetSecurityInfo {
        handle: usize,
        object_type: u32,
        security_info: u32,
        owner: usize,
        group: usize,
        sacl: usize,
    },
    /// `GetNamedSecurityInfoW`; the same holds of `owner`, `group` and `sacl`.
    GetNamedSecurityInfo {
        name: &'a Vec<u16>,
        object_type: u32,
        security_info: u32,
        owner: usize,
        group: usize,
        sacl: usize,
    },
    /// `SetEntriesInAclW`; the entries are `count` in number and begin with `entry`.
    SetEntriesInAcl { count: u32, entry: ExplicitAccessW, old_acl: usize },
    /// `SetSecurityInfo`
    SetSecurityInfo {
        handle: usize,
        object_type: u32,
        security_info: u32,
        owner: usize,
        group: usize,
        dacl: usize,
        sacl: usize,
    },
    /// `SetNamedSecurityInfoW`
    SetNamedSecurityInfo {
        name: &'a Vec<u16>,
        object_type: u32,
        security_info: u32,
        owner: usize,
        group: usize,
        dacl: usize,
        sacl: usize,
    },
    /// `LocalFree`
    LocalFree { mem: usize },
    /// `CloseHandle`
    CloseHandle { handle: usize },
}

/// What a call gave back.
#[derive(Debug, Clone, Copy, PartialEq, Eq, Structural)]
pub enum AclReply {
    /// The handle of a section, or zero.
    Handle(usize),
    /// A status or an error code.
    Code(u32),
    /// The status of a read, the list and the descriptor that holds it.
    Dacl { status: u32, dacl: usize, descriptor: usize },
    /// The status of a merge, and the list that it made.
    Acl { status: u32, acl: usize },
    /// The call has been made, whatever it returned.
    Done,
}

/// Whose access control list is changed.
#[derive(Debug, PartialEq, Eq)]
pub enum GrantTarget {
    KernelObject { handle: usize },
    /// A file or a directory, by its path in code units that end in a zero.
    File { path: Vec<u16> },
}

/// How far a grant has come.
#[derive(Debug, PartialEq, Eq)]
pub enum GrantStage {
    Reading,
    Merging { old_dacl: usize, descriptor: usize },
    Writing { new_dacl: usize, descriptor: usize },
    FreeingDacl { new_dacl: usize, descriptor: usize, outcome: Result<(), IoError> },
    FreeingDescriptor { descriptor: usize, outcome: Result<(), IoError> },
    Finished { outcome: Result<(), IoError> },
}

/// A grant under way.
#[derive(Debug, PartialEq, Eq)]
pub struct DaclGrant {
    pub target: GrantTarget,
    pub entry: ExplicitAccessW,
    pub stage: GrantStage,
}

impl DaclGrant {
    /// The grant stands at its start and is to give `access_mask` on the file at `path` to
    /// the identifier at `sid`.
    pub open spec fn begins_on_file(self, path: Seq<u16>, sid: usize, access_mask: u32) -> bool {
        &&& self.stage is Reading
        &&& self.target matches GrantTarget::File { path: name } && name@ == path.push(0)
        &&& self.entry == ExplicitAccessW::granting(
            sid,
            access_mask,
            GRANT_ACCESS,
            SUB_CONTAINERS_AND_OBJECTS_INHERIT,
        )
    }

    /// The call that the grant waits for; none once it has finished.
    pub open spec fn pending(&self) -> Option<AclCall<'_>> {
        match self.stage {
            GrantStage::Reading => Some(
                match &self.target {
                    GrantTarget::KernelObject { handle } => AclCall::GetSecurityInfo {
                        handle: *handle,
                        object_type: SE_KERNEL_OBJECT,
                        security_info: DACL_SECURITY_INFORMATION,
                        owner: 0,
                        group: 0,
                        sacl: 0,
                    },
                    GrantTarget::File { path } => AclCall::GetNamedSecurityInfo {
                        name: path,
                        object_type: SE_FILE_OBJECT,
                        security_info: DACL_SECURITY_INFORMATION,
                        owner: 0,
                        group: 0,
                        sacl: 0,
                    },
                },
            ),
            GrantStage::Merging { old_dacl, .. } => Some(
                AclCall::SetEntriesInAcl { count: 1, entry: self.entry, old_acl: old_dacl },
            ),
            GrantStage::Writing { new_dacl, .. } => Some(
                match &self.target {
                    GrantTarget::KernelObject { handle } => AclCall::SetSecurityInfo {
                        handle: *handle,
                        object_type: SE_KERNEL_OBJECT,
                        security_info: DACL_SECURITY_INFORMATION,
                        owner: 0,
                        group: 0,
                        dacl: new_dacl,
                        sacl: 0,
                    },
                    GrantTarget::File { path } => AclCall::SetNamedSecurityInfo {
                        name: path,
                        object_type: SE_FILE_OBJECT,
                        security_info: DACL_SECURITY_INFORMATION,
                        owner: 0,
                        group: 0,
                        dacl: new_dacl,
                        sacl: 0,
                    },
                },
            ),
            GrantStage::FreeingDacl { new_dacl, .. } => Some(AclCall::LocalFree { mem: new_dacl }),
            GrantStage::FreeingDescriptor { descriptor, .. } => Some(
                AclCall::LocalFree { mem: descriptor },
            ),
            GrantStage::Finished { .. } => None,
        }
    }

    /// The reply is one that the pending call can give.
    pub open spec fn awaits(self, reply: AclReply) -> bool {
        match self.stage {
            GrantStage::Reading => reply is Dacl,
            GrantStage::Merging { .. } => reply is Acl,
            GrantStage::Writing { .. } => reply is Code,
            GrantStage::FreeingDacl { .. } | GrantStage::FreeingDescriptor { .. } => reply is Done,
            GrantStage::Finished { .. } => false,
        }
    }

    /// The stage that follows a reply. A reply to another call changes nothing.
    ///
    /// A file without a list lets everyone in. A list merged into none would hold the one
    /// entry and shut everyone else out, so such a file is left as it is.
    pub open spec fn stage_after(self, reply: AclReply) -> GrantStage {
        match (self.stage, reply) {
            (GrantStage::Reading, AclReply::Dacl { status, dacl, descriptor }) => {
                if status == 0 && dacl == 0 && self.target is File {
                    GrantStage::FreeingDescriptor { descriptor, outcome: Ok(()) }
                } else if status == 0 {
                    GrantStage::Merging { old_dacl: dacl, descriptor }
                } else {
                    GrantStage::Finished { outcome: Err(self.read_error(status)) }
                }
            },
            (GrantStage::Merging { descriptor, .. }, AclReply::Acl { status, acl }) => {
                if status == 0 {
                    GrantStage::Writing { new_dacl: acl, descriptor }
                } else {
                    GrantStage::FreeingDescriptor { descriptor, outcome: write_outcome(status) }
                }
            },
            (GrantStage::Writing { new_dacl, descriptor }, AclReply::Code(status)) => {
                if new_dacl != 0 {
                    GrantStage::FreeingDacl { new_dacl, descriptor, outcome: write_outcome(status) }
                } else {
                    GrantStage::FreeingDescriptor { descriptor, outcome: write_outcome(status) }
                }
            },
            (GrantStage::FreeingDacl { descriptor, outcome, .. }, AclReply::Done) => {
                GrantStage::FreeingDescriptor { descriptor, outcome }
            },
            (GrantStage::FreeingDescriptor { outcome, .. }, AclReply::Done) => {
                GrantStage::Finished { outcome }
            },
            (stage, _) => stage,
        }
    }

    /// The grant after a reply.
    pub open spec fn after(self, reply: AclReply) -> DaclGrant {
        DaclGrant { target: self.target, entry: self.entry, stage: self.stage_after(reply) }
    }

    /// The error of a read that failed.
    pub open spec fn read_error(self, status: u32) -> IoError {
        match self.target {
            GrantTarget::KernelObject { .. } => IoError::of_code(status),
            GrantTarget::File { .. } => IoError::ReadNamedDacl { code: status },
        }
    }

    /// The call that the grant waits for; none once it has finished.
    pub fn call(&self) -> (call: Option<AclCall<'_>>)
        ensures
            call == self.pending(),
    {
        match &self.stage {
            GrantStage::Reading => Some(
                match &self.target {
                    GrantTarget::KernelObject { handle } => AclCall::GetSecurityInfo {
                        handle: *handle,
                        object_type: SE_KERNEL_OBJECT,
                        security_info: DACL_SECURITY_INFORMATION,
                        owner: 0,
                        group: 0,
                        sacl: 0,
                    },
                    GrantTarget::File { path } => AclCall::GetNamedSecurityInfo {
                        name: path,
                        object_type: SE_FILE_OBJECT,
                        security_info: DACL_SECURITY_INFORMATION,
                        owner: 0,
                        group: 0,
                        sacl: 0,
                    },
                },
            ),
            GrantStage::Merging { old_dacl, .. } => Some(
                AclCall::SetEntriesInAcl { count: 1, entry: self.entry, old_acl: *old_dacl },
            ),
            GrantStage::Writing { new_dacl, .. } => Some(
                match &self.target {
                    GrantTarget::KernelObject { handle } => AclCall::SetSecurityInfo {
                        handle: *handle,
                        object_type: SE_KERNEL_OBJECT,
                        security_info: DACL_SECURITY_INFORMATION,
                        owner: 0,
                        group: 0,
                        dacl: *new_dacl,
                        sacl: 0,
                    },
                    GrantTarget::File { path } => AclCall::SetNamedSecurityInfo {
                        name: path,
                        object_type: SE_FILE_OBJECT,
                        security_info: DACL_SECURITY_INFORMATION,
                        owner: 0,
                        group: 0,
                        dacl: *new_dacl,
                        sacl: 0,
                    },
                },
            ),
            GrantStage::FreeingDacl { new_dacl, .. } => Some(
                AclCall::LocalFree { mem: *new_dacl },
            ),
            GrantStage::FreeingDescriptor { descriptor, .. } => Some(
                AclCall::LocalFree { mem: *descriptor },
            ),
            GrantStage::Finished { .. } => None,
        }
    }

    /// Takes the reply to the pending call. A reply to another call changes nothing.
    pub fn step(self, reply: AclReply) -> (next: DaclGrant)
        ensures
            next == self.after(reply),
    {
        let DaclGrant { target, entry, stage } = self;
        let stage = match (stage, reply) {
            (GrantStage::Reading, AclReply::Dacl { status, dacl, descriptor }) => {
                let unrestricted = match &target {
                    GrantTarget::KernelObject { .. } => false,
                    GrantTarget::File { .. } => dacl == 0,
                };
                if status == 0 && unrestricted {
                    GrantStage::FreeingDescriptor { descriptor, outcome: Ok(()) }
                } else if status == 0 {
                    GrantStage::Merging { old_dacl: dacl, descriptor }
                } else {
                    let error = match &target {
                        GrantTarget::KernelObject { .. } => IoError::from_code(status),
                        GrantTarget::File { .. } => IoError::ReadNamedDacl { code: status },
                    };
                    GrantStage::Finished { outcome: Err(error) }
                }
            },
            (GrantStage::Merging { descriptor, .. }, AclReply::Acl { status, acl }) => {
                if status == 0 {
                    GrantStage::Writing { new_dacl: acl, descriptor }
                } else {
                    GrantStage::FreeingDescriptor { descriptor, outcome: outcome_of(status) }
                }
            },
            (GrantStage::Writing { new_dacl, descriptor }, AclReply::Code(status)) => {
                let outcome = outcome_of(status);
                if new_dacl != 0 {
                    GrantStage::FreeingDacl { new_dacl, descriptor, outcome }
                } else {
                    GrantStage::FreeingDescriptor { descriptor, outcome }
                }
            },
            (GrantStage::FreeingDacl { descriptor, outcome, .. }, AclReply::Done) => {
                GrantStage::FreeingDescriptor { descriptor, outcome }
            },
            (GrantStage::FreeingDescriptor { outcome, .. }, AclReply::Done) => {
                GrantStage::Finished { outcome }
            },
            (stage, _) => stage,
        };
        DaclGrant { target, entry, stage }
    }
}

/// What a merge or a write with this status makes of the whole grant.
pub open spec fn write_outcome(status: u32) -> Result<(), IoError> {
    if status == 0 {
        Ok(())
    } else {
        Err(IoError::of_code(status))
    }
}

fn outcome_of(status: u32) -> (outcome: Result<(), IoError>)
    ensures
        outcome == write_outcome(status),
{
    if status == 0 {
        Ok(())
    } else {
        Err(IoError::from_code(status))
    }
}

/// Starts to grant the identifier at `sid` every access to a file or a directory.
///
/// The existing access control list is read and an entry for the identifier is added to
/// it, so that the existing permissions are preserved, those of the identifier too. A file
/// without a list lets everyone in; it is left as it is and gets no entry. The path is
/// given in code units, without a zero at its end.
pub fn grant_file_access(path: &[u16], sid: usize) -> (grant: DaclGrant)
    ensures
        grant.begins_on_file(path@, sid, GENERIC_ALL),
{
    grant_file_access_with_mask(path, sid, GENERIC_ALL)
}

/// Starts to grant the identifier at `sid` the given access to a file or a directory.
///
/// As with every access, the entry is added to the existing list, and a file without a list
/// is left as it is and gets no entry.
pub fn grant_file_access_with_mask(path: &[u16], sid: usize, access_mask: u32) -> (grant: DaclGrant)
    ensures
        grant.begins_on_file(path@, sid, access_mask),
{
    DaclGrant {
        target: GrantTarget::File { path: wide::with_nul(path) },
        entry: ExplicitAccessW::new(
            sid,
            access_mask,
            GRANT_ACCESS,
            SUB_CONTAINERS_AND_OBJECTS_INHERIT,
        ),
        stage: GrantStage::Reading,
    }
}

/// Starts to grant the identifier at `sid` the given access to an open kernel object.
pub fn grant_kernel_object_access(handle: usize, sid: usize, access_mask: u32) -> (grant: DaclGrant)
    ensures
        grant.stage is Reading,
        grant.target == (GrantTarget::KernelObject { handle }),
        grant.entry == ExplicitAccessW::granting(sid, access_mask, SET_ACCESS, 0),
{
    DaclGrant {
        target: GrantTarget::KernelObject { handle },
        entry: ExplicitAccessW::new(sid, access_mask, SET_ACCESS, 0),
        stage: GrantStage::Reading,
    }
}

} // verus!
