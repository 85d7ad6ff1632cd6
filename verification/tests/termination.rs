use fspy_windows::termination::{flatten, OwnedReceiverLockGuard, WaitCall, WaitReply, Waiting};
use fspy_windows::{ChildTermination, PathAccessIterable};

type Reply = WaitReply<u32, &'static str, u8>;
type Outcome = Result<ChildTermination<u32, &'static str>, u8>;

fn guard() -> OwnedReceiverLockGuard<&'static str> {
    OwnedReceiverLockGuard { path_accesses: vec!["a", "b", "a"] }
}

fn drive(replies: Vec<Reply>) -> (Vec<WaitCall>, Option<Outcome>) {
    let mut waiting = Waiting::new();
    let mut calls = Vec::new();
    for reply in replies {
        calls.push(match waiting.call() {
            Some(call) => call,
            None => panic!("the wait has ended before {:?}", reply),
        });
        waiting = waiting.step(reply);
    }
    match waiting {
        Waiting::Finished { outcome } => (calls, Some(outcome)),
        _ => (calls, None),
    }
}

#[test]
fn accesses_are_iterated_in_order() {
    let accesses = PathAccessIterable { ipc_receiver_lock_guard: guard() };
    let listed: Vec<&&str> = accesses.iter().collect();
    assert_eq!(listed, vec![&"a", &"b", &"a"]);
    let none: PathAccessIterable<u8> = PathAccessIterable {
        ipc_receiver_lock_guard: OwnedReceiverLockGuard { path_accesses: vec![] },
    };
    assert_eq!(none.iter().next(), None);
}

#[test]
fn channel_is_locked_after_the_exit() {
    let (calls, outcome) = drive(vec![Reply::Exited(Ok(3)), Reply::Locked(Ok(guard()))]);
    assert_eq!(calls, vec![WaitCall::WaitOrCancel, WaitCall::LockChannel]);
    let ended = ChildTermination {
        status: 3,
        path_accesses: PathAccessIterable { ipc_receiver_lock_guard: guard() },
    };
    assert_eq!(outcome, Some(Ok(ended)));
}

#[test]
fn cancelled_process_is_killed_and_reaped() {
    let (calls, outcome) = drive(vec![
        Reply::Cancelled,
        Reply::KillStarted(Ok(())),
        Reply::Exited(Ok(1)),
        Reply::Locked(Ok(guard())),
    ]);
    assert_eq!(
        calls,
        vec![WaitCall::WaitOrCancel, WaitCall::StartKill, WaitCall::Wait, WaitCall::LockChannel]
    );
    assert_eq!(outcome.unwrap().unwrap().status, 1);
}

#[test]
fn wait_reports_the_error_of_its_last_call() {
    assert_eq!(drive(vec![Reply::Exited(Err(1))]).1, Some(Err(1)));
    assert_eq!(drive(vec![Reply::Cancelled, Reply::KillStarted(Err(2))]).1, Some(Err(2)));
    assert_eq!(
        drive(vec![Reply::Cancelled, Reply::KillStarted(Ok(())), Reply::Exited(Err(3))]).1,
        Some(Err(3))
    );
    assert_eq!(drive(vec![Reply::Exited(Ok(0)), Reply::Locked(Err(4))]).1, Some(Err(4)));
}

#[test]
fn foreign_wait_reply_changes_nothing() {
    let (calls, outcome) = drive(vec![Reply::KillStarted(Ok(())), Reply::Locked(Err(4))]);
    assert_eq!(calls, vec![WaitCall::WaitOrCancel, WaitCall::WaitOrCancel]);
    assert_eq!(outcome, None);
}

#[test]
fn joined_results_are_flattened() {
    assert_eq!(flatten::<u8, u8>(Ok(Ok(1))), Ok(1));
    assert_eq!(flatten::<u8, u8>(Ok(Err(2))), Err(2));
    assert_eq!(flatten::<u8, u8>(Err(3)), Err(3));
}
