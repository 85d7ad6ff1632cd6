use fspy_windows::ansi::NulTerminated;
use fspy_windows::inject::{
    ChildHandles, Guid, InjectCall, InjectReply, InjectStage, Injection,
};
use fspy_windows::payload::ChannelConf;
use fspy_windows::spawn::{SpawnCall, SpawnFailure, SpawnReply, SpawnStage, Spawning};
use fspy_windows::token::{ProcessAccessTokenInfo, SetInformationProcess};
use fspy_windows::{
    inject_and_resume, set_process_token, IoError, SpawnError, SpyImpl, TrackedChild,
};

const ID: Guid = Guid { data1: 1, data2: 2, data3: 3, data4: [4; 8] };
const CHILD: ChildHandles = ChildHandles { process: 0x10, main_thread: 0x20 };

fn conf() -> ChannelConf {
    ChannelConf { encoded: vec![9, 8] }
}

fn spy() -> SpyImpl {
    SpyImpl { ansi_dll_path_with_nul: NulTerminated::new(vec![67, 58]) }
}

#[test]
fn token_call_hands_over_token_and_null() {
    let call = set_process_token(0x10, 0x70);
    assert_eq!(
        call,
        SetInformationProcess {
            process: 0x10,
            class: 9,
            info: ProcessAccessTokenInfo { token: 0x70, thread: 0 },
            length: 2 * std::mem::size_of::<usize>() as u32,
        }
    );
    assert_eq!(call.outcome(0), Ok(()));
    assert_eq!(call.outcome(0x103), Ok(()));
    assert_eq!(call.outcome(-1), Err(IoError::Os(-1_073_741_790)));
    assert_eq!(call.outcome(i32::MIN), Err(IoError::Os(0xC000_0022u32 as i32)));
}

fn drive_injection(replies: &[InjectReply]) -> (Vec<String>, InjectStage) {
    let path = NulTerminated::new(vec![67, 58]);
    let mut injection: Injection = inject_and_resume(CHILD, &path, &conf(), ID);
    let mut calls = Vec::new();
    for reply in replies {
        calls.push(match injection.call() {
            Some(call) => format!("{:?}", call),
            None => panic!("the injection has ended before {:?}", reply),
        });
        assert!(injection.can_take(*reply));
        injection = injection.step(*reply);
    }
    (calls, injection.stage)
}

#[test]
fn injection_loads_copies_and_resumes() {
    let (calls, stage) = drive_injection(&[
        InjectReply::Bool(1),
        InjectReply::Bool(1),
        InjectReply::SuspendCount(1),
    ]);
    let path = NulTerminated::new(vec![67, 58]);
    let payload = vec![9, 8, 2, 67, 58];
    let expected = [
        InjectCall::UpdateProcessWithDll { process: 0x10, dll_path: &path, count: 1 },
        InjectCall::CopyPayloadToProcess { process: 0x10, id: ID, payload: &payload, length: 5 },
        InjectCall::ResumeThread { thread: 0x20 },
    ];
    let expected: Vec<String> = expected.iter().map(|call| format!("{:?}", call)).collect();
    assert_eq!(calls, expected);
    assert_eq!(stage, InjectStage::Finished { outcome: Ok(()) });
}

#[test]
fn injection_reports_the_last_error() {
    let failed = InjectStage::Finished { outcome: Err(IoError::Os(87)) };
    let last = format!("{:?}", InjectCall::LastOsError);

    let (calls, stage) = drive_injection(&[InjectReply::Bool(0), InjectReply::OsError(87)]);
    assert_eq!((&calls[1], &stage), (&last, &failed));

    let (calls, stage) = drive_injection(&[
        InjectReply::Bool(1),
        InjectReply::Bool(2),
        InjectReply::OsError(87),
    ]);
    assert_eq!((&calls[2], &stage), (&last, &failed));

    let (calls, stage) = drive_injection(&[
        InjectReply::Bool(1),
        InjectReply::Bool(1),
        InjectReply::SuspendCount(u32::MAX),
        InjectReply::OsError(87),
    ]);
    assert_eq!((&calls[3], &stage), (&last, &failed));
}

fn drive(
    token: Option<usize>,
    replies: Vec<SpawnReply<&'static str>>,
) -> (Vec<String>, Option<Result<TrackedChild, SpawnError<&'static str>>>) {
    let spy = spy();
    let mut spawning: Spawning<&'static str> = spy.spawn(token, ID, 4096);
    let mut calls = Vec::new();
    for reply in replies {
        calls.push(match spawning.call() {
            Some(call) => format!("{:?}", call),
            None => panic!("the start has ended before {:?}", reply),
        });
        assert!(spawning.can_take(&reply));
        spawning = spawning.step(reply);
    }
    match spawning.stage {
        SpawnStage::Finished { outcome } => (calls, Some(outcome)),
        _ => (calls, None),
    }
}

fn injected() -> Vec<SpawnReply<&'static str>> {
    vec![
        SpawnReply::Inject(InjectReply::Bool(1)),
        SpawnReply::Inject(InjectReply::Bool(1)),
        SpawnReply::Inject(InjectReply::SuspendCount(1)),
        SpawnReply::Adopted(Ok(())),
    ]
}

#[test]
fn process_starts_without_a_token() {
    let mut replies = vec![SpawnReply::Channel(Ok(conf())), SpawnReply::Spawned(Ok(CHILD))];
    replies.extend(injected());
    replies.push(SpawnReply::Duplicated(Ok(0x99)));
    let (calls, outcome) = drive(None, replies);
    assert_eq!(calls[0], format!("{:?}", SpawnCall::CreateChannel { capacity: 4096 }));
    assert_eq!(
        calls[1],
        format!("{:?}", SpawnCall::Spawn { variable: "FSPY", value: "1", creation_flags: 4 })
    );
    let resume = SpawnCall::Inject(InjectCall::ResumeThread { thread: 0x20 });
    assert_eq!(calls[4], format!("{:?}", resume));
    assert_eq!(calls[5], format!("{:?}", SpawnCall::AdoptChild { process: 0x10 }));
    assert_eq!(calls[6], format!("{:?}", SpawnCall::DuplicateHandle { process: 0x10 }));
    assert_eq!(calls.len(), 7);
    assert_eq!(outcome, Some(Ok(TrackedChild { process_handle: 0x99 })));
}

#[test]
fn token_is_set_before_the_thread_is_resumed() {
    let mut replies = vec![
        SpawnReply::Channel(Ok(conf())),
        SpawnReply::Spawned(Ok(CHILD)),
        SpawnReply::Status(0),
    ];
    replies.extend(injected());
    replies.push(SpawnReply::Duplicated(Ok(0x99)));
    let (calls, outcome) = drive(Some(0x70), replies);
    let set = SpawnCall::SetInformationProcess(set_process_token(0x10, 0x70));
    assert_eq!(calls[2], format!("{:?}", set));
    let resume = SpawnCall::Inject(InjectCall::ResumeThread { thread: 0x20 });
    assert_eq!(calls[5], format!("{:?}", resume));
    assert_eq!(calls.len(), 8);
    assert_eq!(outcome, Some(Ok(TrackedChild { process_handle: 0x99 })));
}

#[test]
fn refused_token_ends_the_start() {
    let (calls, outcome) = drive(
        Some(0x70),
        vec![
            SpawnReply::Channel(Ok(conf())),
            SpawnReply::Spawned(Ok(CHILD)),
            SpawnReply::Status(-1),
        ],
    );
    assert_eq!(calls.len(), 3);
    let error = SpawnFailure::Made(IoError::Os(-1_073_741_790));
    assert_eq!(outcome, Some(Err(SpawnError::OsSpawn(error))));
}

#[test]
fn errors_tell_how_far_the_start_came() {
    let (_, outcome) = drive(None, vec![SpawnReply::Channel(Err("full"))]);
    assert_eq!(outcome, Some(Err(SpawnError::ChannelCreation("full"))));

    let (_, outcome) =
        drive(None, vec![SpawnReply::Channel(Ok(conf())), SpawnReply::Spawned(Err("missing"))]);
    assert_eq!(outcome, Some(Err(SpawnError::Injection(SpawnFailure::Host("missing")))));

    let (_, outcome) = drive(
        None,
        vec![
            SpawnReply::Channel(Ok(conf())),
            SpawnReply::Spawned(Ok(CHILD)),
            SpawnReply::Inject(InjectReply::Bool(0)),
            SpawnReply::Inject(InjectReply::OsError(8)),
        ],
    );
    assert_eq!(outcome, Some(Err(SpawnError::OsSpawn(SpawnFailure::Made(IoError::Os(8))))));

    let mut replies = vec![SpawnReply::Channel(Ok(conf())), SpawnReply::Spawned(Ok(CHILD))];
    replies.extend(injected());
    replies.pop();
    replies.push(SpawnReply::Adopted(Err("runtime")));
    let (_, outcome) = drive(None, replies);
    assert_eq!(outcome, Some(Err(SpawnError::OsSpawn(SpawnFailure::Host("runtime")))));

    let mut replies = vec![SpawnReply::Channel(Ok(conf())), SpawnReply::Spawned(Ok(CHILD))];
    replies.extend(injected());
    replies.push(SpawnReply::Duplicated(Err("handles")));
    let (_, outcome) = drive(None, replies);
    assert_eq!(outcome, Some(Err(SpawnError::OsSpawn(SpawnFailure::Host("handles")))));
}

#[test]
fn foreign_replies_change_nothing() {
    let (calls, outcome) = drive(None, vec![SpawnReply::Status(-1), SpawnReply::Status(-1)]);
    assert_eq!(calls[0], calls[1]);
    assert_eq!(outcome, None);
}
