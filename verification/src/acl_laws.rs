//! What holds of a whole grant, whatever Windows replies.

use vstd::prelude::*;

use crate::acl::{
    AclCall, AclReply, DaclGrant, ExplicitAccessW, GrantStage, GrantTarget,
    DACL_SECURITY_INFORMATION, GRANT_ACCESS, SE_FILE_OBJECT, SE_KERNEL_OBJECT,
};
use crate::io_error::IoError;

verus! {

impl DaclGrant {
    /// The grant after a sequence of replies.
    pub open spec fn run(self, replies: Seq<AclReply>) -> DaclGrant
        decreases replies.len(),
    {
        if replies.len() == 0 {
            self
        } else {
            self.after(replies.first()).run(replies.drop_first())
        }
    }

    /// Every reply answers the call that is pending when it comes.
    pub open spec fn answered(self, replies: Seq<AclReply>) -> bool
        decreases replies.len(),
    {
        replies.len() > 0 ==> self.awaits(replies.first()) && self.after(replies.first()).answered(
            replies.drop_first(),
        )
    }

    /// The calls that the replies answer, in order.
    pub open spec fn calls<'a>(&'a self, replies: Seq<AclReply>) -> Seq<AclCall<'a>>
        decreases replies.len(),
    {
        if replies.len() == 0 {
            Seq::empty()
        } else {
            seq![self.pending()->0] + self.after(replies.first()).calls(replies.drop_first())
        }
    }
}

/// The memory that one call releases.
pub open spec fn freed_by(call: AclCall<'_>) -> Seq<usize> {
    match call {
        AclCall::LocalFree { mem } => seq![mem],
        _ => Seq::empty(),
    }
}

/// The memory that a sequence of calls releases, in order.
pub open spec fn freed(calls: Seq<AclCall<'_>>) -> Seq<usize>
    decreases calls.len(),
{
    if calls.len() == 0 {
        Seq::empty()
    } else {
        freed_by(calls.first()) + freed(calls.drop_first())
    }
}

/// The memory that one reply leaves to the caller: the descriptor of a read that
/// succeeded, and the list of a merge that succeeded and made one.
pub open spec fn allocated_by(reply: AclReply) -> Seq<usize> {
    match reply {
        AclReply::Dacl { status, descriptor, .. } => if status == 0 {
            seq![descriptor]
        } else {
            Seq::empty()
        },
        AclReply::Acl { status, acl } => if status == 0 && acl != 0 {
            seq![acl]
        } else {
            Seq::empty()
        },
        _ => Seq::empty(),
    }
}

/// The memory that a sequence of replies leaves to the caller, in order.
pub open spec fn allocated(replies: Seq<AclReply>) -> Seq<usize>
    decreases replies.len(),
{
    if replies.len() == 0 {
        Seq::empty()
    } else {
        allocated_by(replies.first()) + allocated(replies.drop_first())
    }
}

/// The status or error code of a reply; zero where it has none.
pub open spec fn code_of(reply: AclReply) -> u32 {
    match reply {
        AclReply::Dacl { status, .. } => status,
        AclReply::Acl { status, .. } => status,
        AclReply::Code(code) => code,
        _ => 0,
    }
}

/// What a grant has still to release, in the order in which it will.
spec fn held(stage: GrantStage) -> Seq<usize> {
    match stage {
        GrantStage::Merging { descriptor, .. } => seq![descriptor],
        GrantStage::Writing { new_dacl, descriptor } => if new_dacl != 0 {
            seq![new_dacl, descriptor]
        } else {
            seq![descriptor]
        },
        GrantStage::FreeingDacl { new_dacl, descriptor, .. } => seq![new_dacl, descriptor],
        GrantStage::FreeingDescriptor { descriptor, .. } => seq![descriptor],
        _ => Seq::empty(),
    }
}

/// How many calls a grant can still make.
pub open spec fn remaining(stage: GrantStage) -> nat {
    match stage {
        GrantStage::Reading => 5,
        GrantStage::Merging { .. } => 4,
        GrantStage::Writing { .. } => 3,
        GrantStage::FreeingDacl { .. } => 2,
        GrantStage::FreeingDescriptor { .. } => 1,
        GrantStage::Finished { .. } => 0,
    }
}

proof fn lemma_no_more_allocations(grant: DaclGrant, replies: Seq<AclReply>)
    requires
        grant.answered(replies),
        remaining(grant.stage) <= 2,
    ensures
        allocated(replies) == Seq::<usize>::empty(),
    decreases replies.len(),
{
    if replies.len() > 0 {
        lemma_no_more_allocations(grant.after(replies.first()), replies.drop_first());
        assert(allocated(replies) =~= Seq::empty());
    }
}

proof fn lemma_freed(grant: DaclGrant, replies: Seq<AclReply>)
    requires
        grant.answered(replies),
        grant.run(replies).stage is Finished,
    ensures
        freed(grant.calls(replies)) == allocated(replies).reverse() + held(grant.stage),
    decreases replies.len(),
{
    let calls = grant.calls(replies);
    if replies.len() == 0 {
        assert(calls =~= Seq::empty());
        assert(allocated(replies) =~= Seq::empty());
        assert(held(grant.stage) =~= Seq::empty());
        assert(allocated(replies).reverse() + held(grant.stage) =~= Seq::empty());
    } else {
        let next = grant.after(replies.first());
        let rest = replies.drop_first();
        lemma_freed(next, rest);
        assert(calls.drop_first() =~= next.calls(rest));
        assert(freed(calls) == freed_by(calls.first()) + freed(next.calls(rest)));
        assert(allocated(replies).reverse() =~= allocated(rest).reverse() + allocated_by(
            replies.first(),
        ));
        if remaining(grant.stage) <= 2 {
            lemma_no_more_allocations(next, rest);
            assert(freed_by(calls.first()) + held(next.stage) =~= held(grant.stage));
        } else {
            assert(held(next.stage) =~= allocated_by(replies.first()) + held(grant.stage));
        }
        assert(freed(calls) =~= allocated(replies).reverse() + held(grant.stage));
    }
}

/// A finished grant has released everything that Windows allocated for it, each piece
/// once and the last one first, and nothing else.
pub proof fn grant_frees_what_was_allocated(grant: DaclGrant, replies: Seq<AclReply>)
    requires
        grant.stage is Reading,
        grant.answered(replies),
        grant.run(replies).stage is Finished,
    ensures
        freed(grant.calls(replies)) == allocated(replies).reverse(),
{
    lemma_freed(grant, replies);
    assert(allocated(replies).reverse() + held(grant.stage) =~= allocated(replies).reverse());
}

proof fn lemma_frees_come_last(grant: DaclGrant, replies: Seq<AclReply>, i: int, j: int)
    requires
        grant.answered(replies),
        0 <= i <= j < replies.len(),
        grant.calls(replies)[i] is LocalFree,
    ensures
        grant.calls(replies).len() == replies.len(),
        grant.calls(replies)[j] is LocalFree,
    decreases replies.len(),
{
    let next = grant.after(replies.first());
    let rest = replies.drop_first();
    lemma_calls_len(grant, replies);
    lemma_calls_len(next, rest);
    if i > 0 {
        assert(grant.calls(replies)[i] == next.calls(rest)[i - 1]);
        assert(grant.calls(replies)[j] == next.calls(rest)[j - 1]);
        lemma_frees_come_last(next, rest, i - 1, j - 1);
    } else if j > 0 {
        assert(next.answered(rest));
        assert(grant.calls(replies)[j] == next.calls(rest)[j - 1]);
        assert(next.calls(rest)[0] is LocalFree);
        lemma_frees_come_last(next, rest, 0, j - 1);
    }
}

/// Once a grant has released some memory, it makes no call any more that could use it:
/// all that follows is to release the rest.
pub proof fn grant_uses_nothing_after_a_free(
    grant: DaclGrant,
    replies: Seq<AclReply>,
    i: int,
    j: int,
)
    requires
        grant.stage is Reading,
        grant.answered(replies),
        0 <= i < j < replies.len(),
        grant.calls(replies)[i] is LocalFree,
    ensures
        grant.calls(replies)[j] is LocalFree,
{
    lemma_frees_come_last(grant, replies, i, j);
}

proof fn lemma_calls_len(grant: DaclGrant, replies: Seq<AclReply>)
    ensures
        grant.calls(replies).len() == replies.len(),
    decreases replies.len(),
{
    if replies.len() > 0 {
        lemma_calls_len(grant.after(replies.first()), replies.drop_first());
    }
}

proof fn lemma_remaining(grant: DaclGrant, replies: Seq<AclReply>)
    requires
        grant.answered(replies),
    ensures
        replies.len() + remaining(grant.run(replies).stage) <= remaining(grant.stage),
    decreases replies.len(),
{
    if replies.len() > 0 {
        lemma_remaining(grant.after(replies.first()), replies.drop_first());
    }
}

/// A grant ends after at most five calls, and it waits for a call exactly as long as it
/// has not ended.
pub proof fn grant_ends(grant: DaclGrant, replies: Seq<AclReply>)
    requires
        grant.stage is Reading,
        grant.answered(replies),
    ensures
        replies.len() <= 5,
        grant.run(replies).pending() is None <==> grant.run(replies).stage is Finished,
        replies.len() == 5 ==> grant.run(replies).stage is Finished,
{
    lemma_remaining(grant, replies);
}

proof fn lemma_outcome(grant: DaclGrant, replies: Seq<AclReply>)
    requires
        grant.answered(replies),
        grant.run(replies).stage is Finished,
    ensures
        ({
            let outcome = grant.run(replies).stage->Finished_outcome;
            &&& match grant.stage {
                GrantStage::FreeingDacl { outcome: kept, .. } => {
                    outcome == kept && forall|i: int|
                        0 <= i < replies.len() ==> code_of(#[trigger] replies[i]) == 0
                },
                GrantStage::FreeingDescriptor { outcome: kept, .. } => {
                    outcome == kept && forall|i: int|
                        0 <= i < replies.len() ==> code_of(#[trigger] replies[i]) == 0
                },
                GrantStage::Finished { outcome: kept } => outcome == kept && replies.len() == 0,
                _ => {
                    &&& outcome is Ok <==> forall|i: int|
                        0 <= i < replies.len() ==> code_of(#[trigger] replies[i]) == 0
                    &&& forall|i: int|
                        0 <= i < replies.len() && code_of(#[trigger] replies[i]) != 0 ==> outcome
                            == Err::<(), IoError>(
                            if i == 0 && grant.stage is Reading {
                                grant.read_error(code_of(replies[i]))
                            } else {
                                IoError::of_code(code_of(replies[i]))
                            },
                        )
                },
            }
        }),
    decreases replies.len(),
{
    if replies.len() > 0 {
        let next = grant.after(replies.first());
        let rest = replies.drop_first();
        lemma_outcome(next, rest);
        assert forall|i: int| 1 <= i < replies.len() implies #[trigger] replies[i] == rest[i - 1] by {}
        assert forall|i: int| 0 <= i < rest.len() implies #[trigger] rest[i] == replies[i + 1] by {}
    }
}

/// A grant succeeds exactly if every call that reports a status reported success, and
/// otherwise its error is that of the call that failed: for the read of a file's list an
/// error of its own, for every other call the number that it gave.
pub proof fn grant_reports_the_failed_call(grant: DaclGrant, replies: Seq<AclReply>, i: int)
    requires
        grant.stage is Reading,
        grant.answered(replies),
        grant.run(replies).stage is Finished,
        0 <= i < replies.len(),
    ensures
        grant.run(replies).stage->Finished_outcome is Ok <==> forall|k: int|
            0 <= k < replies.len() ==> code_of(#[trigger] replies[k]) == 0,
        code_of(replies[i]) != 0 ==> grant.run(replies).stage->Finished_outcome == Err::<
            (),
            IoError,
        >(
            if i == 0 {
                grant.read_error(code_of(replies[i]))
            } else {
                IoError::of_code(code_of(replies[i]))
            },
        ),
{
    lemma_outcome(grant, replies);
}

/// The call with which a grant writes the list at `dacl`.
pub open spec fn writing_call<'a>(grant: &'a DaclGrant, dacl: usize) -> AclCall<'a> {
    match &grant.target {
        GrantTarget::KernelObject { handle } => AclCall::SetSecurityInfo {
            handle: *handle,
            object_type: SE_KERNEL_OBJECT,
            security_info: DACL_SECURITY_INFORMATION,
            owner: 0,
            group: 0,
            dacl,
            sacl: 0,
        },
        GrantTarget::File { path } => AclCall::SetNamedSecurityInfo {
            name: path,
            object_type: SE_FILE_OBJECT,
            security_info: DACL_SECURITY_INFORMATION,
            owner: 0,
            group: 0,
            dacl,
            sacl: 0,
        },
    }
}

/// Unless it is on a file without a list, a grant succeeds exactly if the list was read, the
/// entry was merged into it and the result was written, in this order.
pub proof fn grant_succeeds_if_read_merged_and_written(grant: DaclGrant, replies: Seq<AclReply>)
    requires
        grant.stage is Reading,
        grant.answered(replies),
        grant.run(replies).stage is Finished,
        grant.target is File ==> !(replies.first() matches AclReply::Dacl { status: 0, dacl: 0, .. }),
    ensures
        grant.run(replies).stage->Finished_outcome is Ok <==> {
            &&& replies.len() >= 3
            &&& replies[0] is Dacl && code_of(replies[0]) == 0
            &&& replies[1] is Acl && code_of(replies[1]) == 0
            &&& replies[2] == AclReply::Code(0)
            &&& grant.calls(replies)[0] == grant.pending()->0
            &&& grant.calls(replies)[1] == (AclCall::SetEntriesInAcl {
                count: 1,
                entry: grant.entry,
                old_acl: replies[0]->dacl,
            })
            &&& grant.calls(replies)[2] == writing_call(&grant, replies[1]->acl)
        },
{
    lemma_outcome(grant, replies);
    lemma_calls_len(grant, replies);
    let second = grant.after(replies.first());
    let rest = replies.drop_first();
    assert(second.answered(rest));
    assert(second.run(rest) == grant.run(replies));
    if second.stage is Merging {
        let third = second.after(rest.first());
        let tail = rest.drop_first();
        assert(second.run(rest) == third.run(tail));
        assert(third.answered(tail));
        assert(rest.len() > 0 && rest.first() == replies[1]);
        lemma_calls_len(second, rest);
        lemma_calls_len(third, tail);
        assert(grant.calls(replies)[1] == second.calls(rest)[0]);
        if third.stage is Writing {
            let fourth = third.after(tail.first());
            assert(third.run(tail) == fourth.run(tail.drop_first()));
            assert(tail.len() > 0 && tail.first() == replies[2]);
            assert(grant.calls(replies)[2] == second.calls(rest)[1]);
            assert(second.calls(rest)[1] == third.calls(tail)[0]);
            lemma_outcome(fourth, tail.drop_first());
        } else {
            assert(code_of(replies[1]) != 0);
        }
    } else {
        assert(code_of(replies[0]) != 0);
    }
}

/// A list is written only after a list was read and the entry was merged into that very
/// list, and what is written is what the merge made. For a file there was a list to merge
/// into.
pub proof fn grant_writes_what_it_merged_into_what_it_read(
    grant: DaclGrant,
    replies: Seq<AclReply>,
    i: int,
    written: usize,
)
    requires
        grant.stage is Reading,
        grant.answered(replies),
        0 <= i < replies.len(),
        match grant.calls(replies)[i] {
            AclCall::SetSecurityInfo { dacl, .. } => dacl == written,
            AclCall::SetNamedSecurityInfo { dacl, .. } => dacl == written,
            _ => false,
        },
    ensures
        i == 2,
        grant.calls(replies)[0] == grant.pending()->0,
        replies[0] is Dacl && code_of(replies[0]) == 0,
        grant.target is File ==> replies[0]->dacl != 0,
        grant.calls(replies)[1] == (AclCall::SetEntriesInAcl {
            count: 1,
            entry: grant.entry,
            old_acl: replies[0]->dacl,
        }),
        replies[1] == (AclReply::Acl { status: 0, acl: written }),
{
    lemma_calls_len(grant, replies);
    let second = grant.after(replies.first());
    let rest = replies.drop_first();
    if i > 0 {
        assert(grant.calls(replies)[i] == second.calls(rest)[i - 1]);
        assert(grant.calls(replies)[1] == second.calls(rest)[0]);
        assert(second.answered(rest));
        assert(rest.first() == replies[1]);
        let third = second.after(rest.first());
        let tail = rest.drop_first();
        if i > 1 {
            assert(second.calls(rest)[i - 1] == third.calls(tail)[i - 2]);
            assert(third.answered(tail));
            assert(tail.first() == replies[2]);
            if third.stage is FreeingDescriptor {
                lemma_frees_come_last(third, tail, 0, i - 2);
            } else if i > 2 {
                let fourth = third.after(tail.first());
                let end = tail.drop_first();
                assert(third.calls(tail)[i - 2] == fourth.calls(end)[i - 3]);
                assert(fourth.answered(end));
                lemma_frees_come_last(fourth, end, 0, i - 3);
            }
        }
    }
}

proof fn lemma_merge_comes_second(grant: DaclGrant, replies: Seq<AclReply>, i: int)
    requires
        grant.stage is Reading,
        grant.answered(replies),
        0 <= i < replies.len(),
        grant.calls(replies)[i] is SetEntriesInAcl,
    ensures
        i == 1,
        replies[0] is Dacl && code_of(replies[0]) == 0,
        grant.target is File ==> replies[0]->dacl != 0,
        grant.calls(replies)[0] == grant.pending()->0,
        grant.calls(replies)[1] == (AclCall::SetEntriesInAcl {
            count: 1,
            entry: grant.entry,
            old_acl: replies[0]->dacl,
        }),
{
    let second = grant.after(replies.first());
    let rest = replies.drop_first();
    lemma_calls_len(grant, replies);
    lemma_calls_len(second, rest);
    if i > 0 {
        assert(grant.calls(replies)[i] == second.calls(rest)[i - 1]);
        assert(grant.calls(replies)[1] == second.calls(rest)[0]);
        assert(second.answered(rest));
        if i > 1 {
            let third = second.after(rest.first());
            lemma_calls_len(third, rest.drop_first());
            assert(second.calls(rest)[i - 1] == third.calls(rest.drop_first())[i - 2]);
            lemma_no_further_merge(third, rest.drop_first(), i - 2);
        }
    }
}

proof fn lemma_no_further_merge(grant: DaclGrant, replies: Seq<AclReply>, i: int)
    requires
        grant.answered(replies),
        remaining(grant.stage) <= 3,
        0 <= i < replies.len(),
    ensures
        !(grant.calls(replies)[i] is SetEntriesInAcl),
    decreases replies.len(),
{
    let next = grant.after(replies.first());
    lemma_calls_len(grant, replies);
    lemma_calls_len(next, replies.drop_first());
    if i > 0 {
        assert(grant.calls(replies)[i] == next.calls(replies.drop_first())[i - 1]);
        lemma_no_further_merge(next, replies.drop_first(), i - 1);
    }
}

proof fn lemma_only_freeing(grant: DaclGrant, replies: Seq<AclReply>)
    requires
        grant.answered(replies),
        remaining(grant.stage) <= 1,
    ensures
        remaining(grant.run(replies).stage) <= 1,
        grant.stage matches GrantStage::FreeingDescriptor { outcome, .. } ==> {
            ||| grant.run(replies).stage == grant.stage
            ||| grant.run(replies).stage == (GrantStage::Finished { outcome })
        },
        grant.stage is Finished ==> grant.run(replies).stage == grant.stage,
    decreases replies.len(),
{
    if replies.len() > 0 {
        lemma_only_freeing(grant.after(replies.first()), replies.drop_first());
    }
}

/// A file that has no list lets everyone in, and a grant on it leaves that so: no list is
/// ever merged into none, nothing is ever written, and the grant succeeds.
pub proof fn file_without_a_list_is_left_alone(grant: DaclGrant, replies: Seq<AclReply>)
    requires
        grant.stage is Reading,
        grant.target is File,
        grant.answered(replies),
        replies.len() > 0,
        replies.first() matches AclReply::Dacl { status, dacl, .. } && status == 0 && dacl == 0,
    ensures
        ({
            let pending = grant.run(replies).pending();
            &&& !(pending matches Some(AclCall::SetEntriesInAcl { .. }))
            &&& !(pending matches Some(AclCall::SetNamedSecurityInfo { .. }))
            &&& pending matches Some(call) ==> call == (AclCall::LocalFree {
                mem: replies.first()->descriptor,
            })
            &&& grant.run(replies).stage matches GrantStage::Finished { outcome } ==> outcome is Ok
        }),
{
    let next = grant.after(replies.first());
    assert(next.answered(replies.drop_first()));
    lemma_only_freeing(next, replies.drop_first());
}

/// A grant on a file adds to the list that was there: the entry is merged into that list,
/// which is never a missing one, and in the mode that combines its rights with those that
/// the identifier has.
pub proof fn file_grant_adds_to_the_existing_list(
    path: Seq<u16>,
    sid: usize,
    access_mask: u32,
    grant: DaclGrant,
    replies: Seq<AclReply>,
    i: int,
)
    requires
        grant.begins_on_file(path, sid, access_mask),
        grant.answered(replies),
        0 <= i < replies.len(),
        grant.calls(replies)[i] is SetEntriesInAcl,
    ensures
        grant.calls(replies)[0] matches AclCall::GetNamedSecurityInfo { name, .. } && name@
            == path.push(0),
        replies[0] matches AclReply::Dacl { status, dacl, .. } && status == 0 && dacl != 0,
        grant.calls(replies)[i] matches AclCall::SetEntriesInAcl { count, entry, old_acl } && {
            &&& count == 1
            &&& old_acl == replies[0]->dacl
            &&& entry.access_mode == GRANT_ACCESS
            &&& entry.access_permissions == access_mask
            &&& entry.trustee.name == sid
        },
{
    lemma_merge_comes_second(grant, replies, i);
}

/// Two grants on one file to one identifier read the same file and hand over entries that
/// differ in the mask alone. Each entry is merged once, into the list that its own grant
/// has read.
pub proof fn two_grants_on_one_file(
    path: Seq<u16>,
    sid: usize,
    first: DaclGrant,
    first_mask: u32,
    first_replies: Seq<AclReply>,
    i: int,
    second: DaclGrant,
    second_mask: u32,
    second_replies: Seq<AclReply>,
    j: int,
)
    requires
        first.begins_on_file(path, sid, first_mask),
        first.answered(first_replies),
        0 <= i < first_replies.len(),
        first.calls(first_replies)[i] is SetEntriesInAcl,
        second.begins_on_file(path, sid, second_mask),
        second.answered(second_replies),
        0 <= j < second_replies.len(),
        second.calls(second_replies)[j] is SetEntriesInAcl,
    ensures
        first.target->path@ == second.target->path@,
        first.entry.access_permissions == first_mask,
        second.entry == (ExplicitAccessW { access_permissions: second_mask, ..first.entry }),
        i == 1 && j == 1,
        first_replies[0] is Dacl && second_replies[0] is Dacl,
        first.calls(first_replies)[i] == (AclCall::SetEntriesInAcl {
            count: 1,
            entry: first.entry,
            old_acl: first_replies[0]->dacl,
        }),
        second.calls(second_replies)[j] == (AclCall::SetEntriesInAcl {
            count: 1,
            entry: second.entry,
            old_acl: second_replies[0]->dacl,
        }),
{
    lemma_merge_comes_second(first, first_replies, i);
    lemma_merge_comes_second(second, second_replies, j);
}

} // verus!
