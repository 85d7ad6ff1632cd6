use fspy_windows::acl::{
    AclCall, AclReply, DaclGrant, ExplicitAccessW, GrantStage, TrusteeW,
};
use fspy_windows::section::SectionGrant;
use fspy_windows::{
    grant_file_access, grant_file_access_with_mask, grant_kernel_object_access,
    grant_section_access, IoError,
};

const SID: usize = 0x51D;

fn entry(access_permissions: u32, access_mode: u32, inheritance: u32) -> ExplicitAccessW {
    ExplicitAccessW {
        access_permissions,
        access_mode,
        inheritance,
        trustee: TrusteeW {
            multiple_trustee: 0,
            multiple_trustee_operation: 0,
            trustee_form: 0,
            trustee_type: 0,
            name: SID,
        },
    }
}

/// The calls that a grant makes, as text, and what it returns in the end.
fn drive(mut grant: DaclGrant, replies: &[AclReply]) -> (Vec<String>, GrantStage) {
    let mut calls = Vec::new();
    for reply in replies {
        calls.push(match grant.call() {
            Some(call) => format!("{:?}", call),
            None => panic!("the grant has ended before {:?}", reply),
        });
        grant = grant.step(*reply);
    }
    (calls, grant.stage)
}

fn read(status: u32) -> AclReply {
    AclReply::Dacl { status, dacl: 0xDAC1, descriptor: 0x5D }
}

fn merged(status: u32, acl: usize) -> AclReply {
    AclReply::Acl { status, acl }
}

fn free(mem: usize) -> String {
    format!("{:?}", AclCall::LocalFree { mem })
}

#[test]
fn file_grant_makes_its_calls_in_order() {
    let path = vec![67, 58, 92, 0];
    let (calls, stage) = drive(
        grant_file_access(&[67, 58, 92], SID),
        &[read(0), merged(0, 0xAC1), AclReply::Code(0), AclReply::Done, AclReply::Done],
    );
    let expected = [
        AclCall::GetNamedSecurityInfo {
            name: &path,
            object_type: 1,
            security_info: 4,
            owner: 0,
            group: 0,
            sacl: 0,
        },
        AclCall::SetEntriesInAcl { count: 1, entry: entry(0x1000_0000, 1, 3), old_acl: 0xDAC1 },
        AclCall::SetNamedSecurityInfo {
            name: &path,
            object_type: 1,
            security_info: 4,
            owner: 0,
            group: 0,
            dacl: 0xAC1,
            sacl: 0,
        },
        AclCall::LocalFree { mem: 0xAC1 },
        AclCall::LocalFree { mem: 0x5D },
    ];
    let expected: Vec<String> = expected.iter().map(|call| format!("{:?}", call)).collect();
    assert_eq!(calls, expected);
    assert_eq!(stage, GrantStage::Finished { outcome: Ok(()) });
}

#[test]
fn file_grant_uses_the_given_mask() {
    let grant = grant_file_access_with_mask(&[65], SID, 0x8000_0000);
    assert_eq!(grant.entry, entry(0x8000_0000, 1, 3));
    assert_eq!(grant_file_access(&[65], SID), grant_file_access_with_mask(&[65], SID, 0x1000_0000));
}

#[test]
fn kernel_grant_makes_its_calls_in_order() {
    let (calls, stage) = drive(
        grant_kernel_object_access(7, SID, 0xF_001F),
        &[read(0), merged(0, 0xAC1), AclReply::Code(0), AclReply::Done, AclReply::Done],
    );
    let expected = [
        AclCall::GetSecurityInfo {
            handle: 7,
            object_type: 6,
            security_info: 4,
            owner: 0,
            group: 0,
            sacl: 0,
        },
        AclCall::SetEntriesInAcl { count: 1, entry: entry(0xF_001F, 2, 0), old_acl: 0xDAC1 },
        AclCall::SetSecurityInfo {
            handle: 7,
            object_type: 6,
            security_info: 4,
            owner: 0,
            group: 0,
            dacl: 0xAC1,
            sacl: 0,
        },
        AclCall::LocalFree { mem: 0xAC1 },
        AclCall::LocalFree { mem: 0x5D },
    ];
    let expected: Vec<String> = expected.iter().map(|call| format!("{:?}", call)).collect();
    assert_eq!(calls, expected);
    assert_eq!(stage, GrantStage::Finished { outcome: Ok(()) });
}

#[test]
fn failed_read_frees_nothing() {
    let (calls, stage) = drive(grant_file_access(&[65], SID), &[read(5)]);
    assert_eq!(calls.len(), 1);
    assert_eq!(stage, GrantStage::Finished { outcome: Err(IoError::ReadNamedDacl { code: 5 }) });

    let (calls, stage) = drive(grant_kernel_object_access(7, SID, 1), &[read(6)]);
    assert_eq!(calls.len(), 1);
    assert_eq!(stage, GrantStage::Finished { outcome: Err(IoError::Os(6)) });
}

#[test]
fn failed_merge_frees_the_descriptor_only() {
    let (calls, stage) = drive(
        grant_file_access(&[65], SID),
        &[read(0), merged(1337, 0xAC1), AclReply::Done],
    );
    assert_eq!(calls.len(), 3);
    assert_eq!(calls[2], free(0x5D));
    assert_eq!(stage, GrantStage::Finished { outcome: Err(IoError::Os(1337)) });
}

#[test]
fn failed_write_frees_both() {
    let (calls, stage) = drive(
        grant_kernel_object_access(7, SID, 1),
        &[read(0), merged(0, 0xAC1), AclReply::Code(0x8000_0005), AclReply::Done, AclReply::Done],
    );
    assert_eq!(calls[3..], [free(0xAC1), free(0x5D)]);
    assert_eq!(stage, GrantStage::Finished { outcome: Err(IoError::Os(-2_147_483_643)) });
}

#[test]
fn null_list_is_not_freed() {
    let (calls, stage) = drive(
        grant_file_access(&[65], SID),
        &[read(0), merged(0, 0), AclReply::Code(0), AclReply::Done],
    );
    assert_eq!(calls.len(), 4);
    assert_eq!(calls[3], free(0x5D));
    assert_eq!(stage, GrantStage::Finished { outcome: Ok(()) });
}

#[test]
fn file_without_a_list_is_left_alone() {
    let unrestricted = AclReply::Dacl { status: 0, dacl: 0, descriptor: 0x5D };
    let (calls, stage) = drive(grant_file_access(&[65], SID), &[unrestricted, AclReply::Done]);
    assert_eq!(calls.len(), 2);
    assert_eq!(calls[1], free(0x5D));
    assert_eq!(stage, GrantStage::Finished { outcome: Ok(()) });

    let failed = AclReply::Dacl { status: 2, dacl: 0, descriptor: 0 };
    let (_, stage) = drive(grant_file_access_with_mask(&[65], SID, 1), &[failed]);
    assert_eq!(stage, GrantStage::Finished { outcome: Err(IoError::ReadNamedDacl { code: 2 }) });
}

#[test]
fn kernel_object_without_a_list_gets_one() {
    let unrestricted = AclReply::Dacl { status: 0, dacl: 0, descriptor: 0x5D };
    let grant = grant_kernel_object_access(7, SID, 1).step(unrestricted);
    let merge = AclCall::SetEntriesInAcl { count: 1, entry: entry(1, 2, 0), old_acl: 0 };
    assert_eq!(grant.call(), Some(merge));
}

#[test]
fn two_grants_differ_in_the_mask_alone() {
    let first = grant_file_access_with_mask(&[65], SID, 1);
    let second = grant_file_access_with_mask(&[65], SID, 2);
    assert_eq!(first.target, second.target);
    assert_eq!(second.entry, ExplicitAccessW { access_permissions: 2, ..first.entry });

    let first = first.step(AclReply::Dacl { status: 0, dacl: 0xA, descriptor: 0xB });
    let second = second.step(AclReply::Dacl { status: 0, dacl: 0xC, descriptor: 0xD });
    let merge = AclCall::SetEntriesInAcl { count: 1, entry: entry(1, 1, 3), old_acl: 0xA };
    assert_eq!(first.call(), Some(merge));
    let merge = AclCall::SetEntriesInAcl { count: 1, entry: entry(2, 1, 3), old_acl: 0xC };
    assert_eq!(second.call(), Some(merge));
}

#[test]
fn foreign_reply_changes_nothing() {
    let grant = grant_file_access(&[65], SID).step(AclReply::Done).step(AclReply::Code(3));
    assert_eq!(grant, grant_file_access(&[65], SID));
    let (_, stage) = drive(grant, &[read(5)]);
    assert_eq!(stage, GrantStage::Finished { outcome: Err(IoError::ReadNamedDacl { code: 5 }) });
}

fn drive_section(mut grant: SectionGrant, replies: &[AclReply]) -> (Vec<String>, SectionGrant) {
    let mut calls = Vec::new();
    for reply in replies {
        calls.push(match grant.call() {
            Some(call) => format!("{:?}", call),
            None => panic!("the grant has ended before {:?}", reply),
        });
        grant = grant.step(*reply);
    }
    (calls, grant)
}

#[test]
fn opened_section_is_granted_and_closed() {
    let inner =
        [read(0), merged(0, 0xAC1), AclReply::Code(0), AclReply::Done, AclReply::Done];
    let mut replies = vec![AclReply::Handle(0x44)];
    replies.extend(inner);
    replies.push(AclReply::Done);
    let (calls, end) = drive_section(grant_section_access("s", SID), &replies);

    let (inner_calls, _) = drive(grant_kernel_object_access(0x44, SID, 0xF_001F), &inner);
    let name = vec![115, 0];
    let open = AclCall::OpenFileMapping { access: 0xF_001F, inherit: 0, name: &name };
    assert_eq!(calls[0], format!("{:?}", open));
    assert_eq!(calls[1..6], inner_calls);
    assert_eq!(calls[6], format!("{:?}", AclCall::CloseHandle { handle: 0x44 }));
    assert_eq!(calls.len(), 7);
    assert!(end.call().is_none());
    assert_eq!(end, SectionGrant::Finished { outcome: Ok(()) });
}

#[test]
fn section_is_closed_when_the_grant_fails() {
    let (calls, end) = drive_section(
        grant_section_access("s", SID),
        &[AclReply::Handle(0x44), read(5), AclReply::Done],
    );
    assert_eq!(calls[2], format!("{:?}", AclCall::CloseHandle { handle: 0x44 }));
    assert_eq!(end, SectionGrant::Finished { outcome: Err(IoError::Os(5)) });
}

#[test]
fn missing_section_is_reported() {
    let (calls, end) = drive_section(
        grant_section_access("shm", SID),
        &[AclReply::Handle(0), AclReply::Code(2)],
    );
    assert_eq!(calls[1], format!("{:?}", AclCall::GetLastError));
    let error = IoError::OpenSection { os_id: String::from("shm"), code: 2 };
    assert_eq!(
        error.message(),
        Some(String::from("OpenFileMappingW failed for 'shm': error 2"))
    );
    assert_eq!(end, SectionGrant::Finished { outcome: Err(error) });
}
