//! Starting a process under the eyes of a spy.
//!
//! `E` is the type of the host's own errors, which are only passed on.

use vstd::prelude::*;

use crate::ansi::NulTerminated;
use crate::inject::{inject_and_resume, ChildHandles, Guid, InjectCall, InjectReply, InjectStage, Injection};
use crate::io_error::IoError;
use crate::payload::ChannelConf;
use crate::payload;
use crate::spy::SpyImpl;
use crate::token::{set_process_token, SetInformationProcess};
use crate::token;

verus! {

/// The main thread of a new process does not run until it is resumed.
pub const CREATE_SUSPENDED: u32 = 0x0000_0004;

/// The variable that tells a process that it is watched.
pub const SPY_VARIABLE: &'static str = "FSPY";

/// The value of that variable.
pub const SPY_VALUE: &'static str = "1";

/// Why a step failed.
#[derive(Debug, PartialEq, Eq)]
pub enum SpawnFailure<E> {
    /// An error of the host.
    Host(E),
    /// An error made here.
    Made(IoError),
}

/// Why a process could not be started.
#[derive(Debug, PartialEq, Eq)]
pub enum SpawnError<E> {
    ChannelCreation(E),
    Injection(SpawnFailure<E>),
    OsSpawn(SpawnFailure<E>),
}

/// A started process.
#[derive(Debug, Clone, Copy, PartialEq, Eq, Structural)]
pub struct TrackedChild {
    /// A handle of its own, which stays valid after the process has exited.
    pub process_handle: usize,
}

/// A call that a start waits for.
#[derive(Debug, Clone, Copy, PartialEq, Eq)]
pub enum SpawnCall<'a> {
    /// Creates the channel of the spy.
    CreateChannel { capacity: usize },
    /// Starts the process, with one more variable and with these flags.
    Spawn { variable: &'static str, value: &'static str, creation_flags: u32 },
    SetInformationProcess(SetInformationProcess),
    Inject(InjectCall<'a>),
    /// Hands the process over to the runtime of the host.
    AdoptChild { process: usize },
    /// Makes a second handle of the process.
    DuplicateHandle { process: usize },
}

/// What a call gave back.
#[derive(Debug, PartialEq, Eq)]
pub enum SpawnReply<E> {
    Channel(Result<ChannelConf, E>),
    Spawned(Result<ChildHandles, E>),
    Status(i32),
    Inject(InjectReply),
    Adopted(Result<(), E>),
    Duplicated(Result<usize, E>),
}

/// What stays the same during a start.
#[derive(Debug, Clone, Copy, PartialEq, Eq)]
pub struct SpawnPlan<'a> {
    pub dll_path: &'a NulTerminated,
    pub raw_token: Option<usize>,
    pub payload_id: Guid,
    pub capacity: usize,
}

/// How far a start has come.
#[derive(Debug, PartialEq, Eq)]
pub enum SpawnStage<'a, E> {
    CreatingChannel,
    Launching { channel_conf: ChannelConf },
    SettingToken { child: ChildHandles, channel_conf: ChannelConf, call: SetInformationProcess },
    Injecting { child: ChildHandles, injection: Injection<'a> },
    Adopting { child: ChildHandles },
    Duplicating { child: ChildHandles },
    Finished { outcome: Result<TrackedChild, SpawnError<E>> },
}

/// A start under way.
#[derive(Debug, PartialEq, Eq)]
pub struct Spawning<'a, E> {
    pub plan: SpawnPlan<'a>,
    pub stage: SpawnStage<'a, E>,
}

/// The error of a start that failed before or after the process was created.
pub open spec fn spawn_error_of<E>(spawned: bool, failure: SpawnFailure<E>) -> SpawnError<E> {
    if spawned {
        SpawnError::OsSpawn(failure)
    } else {
        SpawnError::Injection(failure)
    }
}

fn spawn_error<E>(spawned: bool, failure: SpawnFailure<E>) -> (error: SpawnError<E>)
    ensures
        error == spawn_error_of(spawned, failure),
{
    if spawned {
        SpawnError::OsSpawn(failure)
    } else {
        SpawnError::Injection(failure)
    }
}

impl<'a, E> Spawning<'a, E> {
    /// The reply does not call for a payload that is too long to be handed over.
    pub open spec fn accepts(self, reply: SpawnReply<E>) -> bool {
        match (self.stage, reply) {
            (SpawnStage::Injecting { injection, .. }, SpawnReply::Inject(inner)) => {
                injection.accepts(inner)
            },
            _ => true,
        }
    }

    /// The call that the start waits for; none once it has finished.
    pub open spec fn pending(&self) -> Option<SpawnCall<'_>> {
        match &self.stage {
            SpawnStage::CreatingChannel => Some(
                SpawnCall::CreateChannel { capacity: self.plan.capacity },
            ),
            SpawnStage::Launching { .. } => Some(
                SpawnCall::Spawn {
                    variable: SPY_VARIABLE,
                    value: SPY_VALUE,
                    creation_flags: CREATE_SUSPENDED,
                },
            ),
            SpawnStage::SettingToken { call, .. } => Some(SpawnCall::SetInformationProcess(*call)),
            SpawnStage::Injecting { injection, .. } => match injection.pending() {
                Some(call) => Some(SpawnCall::Inject(call)),
                None => None,
            },
            SpawnStage::Adopting { child } => Some(
                SpawnCall::AdoptChild { process: child.process },
            ),
            SpawnStage::Duplicating { child } => Some(
                SpawnCall::DuplicateHandle { process: child.process },
            ),
            SpawnStage::Finished { .. } => None,
        }
    }

    /// The reply is one that the pending call can give.
    pub open spec fn awaits(self, reply: SpawnReply<E>) -> bool {
        match self.stage {
            SpawnStage::CreatingChannel => reply is Channel,
            SpawnStage::Launching { .. } => reply is Spawned,
            SpawnStage::SettingToken { .. } => reply is Status,
            SpawnStage::Injecting { injection, .. } => reply matches SpawnReply::Inject(inner)
                && injection.awaits(inner),
            SpawnStage::Adopting { .. } => reply is Adopted,
            SpawnStage::Duplicating { .. } => reply is Duplicated,
            SpawnStage::Finished { .. } => false,
        }
    }

    /// `next` is the same start at the beginning of the injection into `child`.
    pub open spec fn begins_injection(
        self,
        child: ChildHandles,
        channel_conf: ChannelConf,
        next: Spawning<'a, E>,
    ) -> bool {
        next.stage matches SpawnStage::Injecting { child: kept, injection } && {
            &&& next.plan == self.plan
            &&& kept == child
            &&& injection.child == child
            &&& injection.dll_path == self.plan.dll_path
            &&& injection.payload_id == self.plan.payload_id
            &&& injection.payload@ == payload::payload_encoding(
                channel_conf.encoded@,
                self.plan.dll_path@,
            )
            &&& injection.stage is UpdatingProcess
        }
    }

    /// The same start at another stage.
    pub open spec fn at(self, stage: SpawnStage<'a, E>) -> Spawning<'a, E> {
        Spawning { plan: self.plan, stage }
    }

    /// `next` is the start after a reply. A reply to another call changes nothing.
    pub open spec fn leads_to(self, reply: SpawnReply<E>, next: Spawning<'a, E>) -> bool {
        match (self.stage, reply) {
            (SpawnStage::CreatingChannel, SpawnReply::Channel(Ok(channel_conf))) => {
                next == self.at(SpawnStage::Launching { channel_conf })
            },
            (SpawnStage::CreatingChannel, SpawnReply::Channel(Err(error))) => {
                next == self.at(SpawnStage::Finished {
                    outcome: Err(SpawnError::ChannelCreation(error)),
                })
            },
            (SpawnStage::Launching { channel_conf }, SpawnReply::Spawned(Ok(child))) => {
                match self.plan.raw_token {
                    Some(token) => next == self.at(SpawnStage::SettingToken {
                        child,
                        channel_conf,
                        call: token::token_call(child.process, token),
                    }),
                    None => self.begins_injection(child, channel_conf, next),
                }
            },
            (SpawnStage::Launching { .. }, SpawnReply::Spawned(Err(error))) => {
                next == self.at(SpawnStage::Finished {
                    outcome: Err(spawn_error_of(false, SpawnFailure::Host(error))),
                })
            },
            (
                SpawnStage::SettingToken { child, channel_conf, .. },
                SpawnReply::Status(status),
            ) => {
                match token::token_outcome(status) {
                    Ok(_) => self.begins_injection(child, channel_conf, next),
                    Err(error) => next == self.at(SpawnStage::Finished {
                        outcome: Err(spawn_error_of(true, SpawnFailure::Made(error))),
                    }),
                }
            },
            (SpawnStage::Injecting { child, injection }, SpawnReply::Inject(inner)) => {
                match injection.after(inner).stage {
                    InjectStage::Finished { outcome: Ok(_) } => {
                        next == self.at(SpawnStage::Adopting { child })
                    },
                    InjectStage::Finished { outcome: Err(error) } => {
                        next == self.at(SpawnStage::Finished {
                            outcome: Err(spawn_error_of(true, SpawnFailure::Made(error))),
                        })
                    },
                    _ => next == self.at(SpawnStage::Injecting {
                        child,
                        injection: injection.after(inner),
                    }),
                }
            },
            (SpawnStage::Adopting { child }, SpawnReply::Adopted(Ok(_))) => {
                next == self.at(SpawnStage::Duplicating { child })
            },
            (SpawnStage::Adopting { .. }, SpawnReply::Adopted(Err(error))) => {
                next == self.at(SpawnStage::Finished {
                    outcome: Err(spawn_error_of(true, SpawnFailure::Host(error))),
                })
            },
            (SpawnStage::Duplicating { .. }, SpawnReply::Duplicated(Ok(process_handle))) => {
                next == self.at(SpawnStage::Finished {
                    outcome: Ok(TrackedChild { process_handle }),
                })
            },
            (SpawnStage::Duplicating { .. }, SpawnReply::Duplicated(Err(error))) => {
                next == self.at(SpawnStage::Finished {
                    outcome: Err(SpawnError::OsSpawn(SpawnFailure::Host(error))),
                })
            },
            _ => next == self,
        }
    }

    /// The call that the start waits for; none once it has finished.
    pub fn call(&self) -> (call: Option<SpawnCall<'_>>)
        ensures
            call == self.pending(),
    {
        match &self.stage {
            SpawnStage::CreatingChannel => Some(
                SpawnCall::CreateChannel { capacity: self.plan.capacity },
            ),
            SpawnStage::Launching { .. } => Some(
                SpawnCall::Spawn {
                    variable: SPY_VARIABLE,
                    value: SPY_VALUE,
                    creation_flags: CREATE_SUSPENDED,
                },
            ),
            SpawnStage::SettingToken { call, .. } => Some(SpawnCall::SetInformationProcess(*call)),
            SpawnStage::Injecting { injection, .. } => match injection.call() {
                Some(call) => Some(SpawnCall::Inject(call)),
                None => None,
            },
            SpawnStage::Adopting { child } => Some(
                SpawnCall::AdoptChild { process: child.process },
            ),
            SpawnStage::Duplicating { child } => Some(
                SpawnCall::DuplicateHandle { process: child.process },
            ),
            SpawnStage::Finished { .. } => None,
        }
    }

    /// Whether the reply can be taken: a payload that comes next has to be short enough for
    /// its length to be handed over.
    pub fn can_take(&self, reply: &SpawnReply<E>) -> (accepted: bool)
        ensures
            accepted == self.accepts(*reply),
    {
        match (&self.stage, reply) {
            (SpawnStage::Injecting { injection, .. }, SpawnReply::Inject(inner)) => {
                injection.can_take(*inner)
            },
            _ => true,
        }
    }

    /// Takes the reply to the pending call. A reply to another call changes nothing.
    pub fn step(self, reply: SpawnReply<E>) -> (next: Spawning<'a, E>)
        requires
            self.accepts(reply),
        ensures
            self.leads_to(reply, next),
    {
        let Spawning { plan, stage } = self;
        let stage = match (stage, reply) {
            (SpawnStage::CreatingChannel, SpawnReply::Channel(Ok(channel_conf))) => {
                SpawnStage::Launching { channel_conf }
            },
            (SpawnStage::CreatingChannel, SpawnReply::Channel(Err(error))) => {
                SpawnStage::Finished { outcome: Err(SpawnError::ChannelCreation(error)) }
            },
            (SpawnStage::Launching { channel_conf }, SpawnReply::Spawned(Ok(child))) => {
                match plan.raw_token {
                    Some(token) => SpawnStage::SettingToken {
                        child,
                        channel_conf,
                        call: set_process_token(child.process, token),
                    },
                    None => {
                        let injection = inject_and_resume(
                            child,
                            plan.dll_path,
                            &channel_conf,
                            plan.payload_id,
                        );
                        SpawnStage::Injecting { child, injection }
                    },
                }
            },
            (SpawnStage::Launching { .. }, SpawnReply::Spawned(Err(error))) => {
                let error = spawn_error(false, SpawnFailure::Host(error));
                SpawnStage::Finished { outcome: Err(error) }
            },
            (
                SpawnStage::SettingToken { child, channel_conf, call },
                SpawnReply::Status(status),
            ) => {
                match call.outcome(status) {
                    Ok(_) => {
                        let injection = inject_and_resume(
                            child,
                            plan.dll_path,
                            &channel_conf,
                            plan.payload_id,
                        );
                        SpawnStage::Injecting { child, injection }
                    },
                    Err(error) => SpawnStage::Finished {
                        outcome: Err(spawn_error(true, SpawnFailure::Made(error))),
                    },
                }
            },
            (SpawnStage::Injecting { child, injection }, SpawnReply::Inject(inner)) => {
                let Injection {
                    child: target,
                    dll_path,
                    payload_id,
                    payload,
                    stage,
                } = injection.step(inner);
                match stage {
                    InjectStage::Finished { outcome: Ok(_) } => SpawnStage::Adopting { child },
                    InjectStage::Finished { outcome: Err(error) } => SpawnStage::Finished {
                        outcome: Err(spawn_error(true, SpawnFailure::Made(error))),
                    },
                    stage => SpawnStage::Injecting {
                        child,
                        injection: Injection {
                            child: target,
                            dll_path,
                            payload_id,
                            payload,
                            stage,
                        },
                    },
                }
            },
            (SpawnStage::Adopting { child }, SpawnReply::Adopted(Ok(_))) => {
                SpawnStage::Duplicating { child }
            },
            (SpawnStage::Adopting { .. }, SpawnReply::Adopted(Err(error))) => {
                let error = spawn_error(true, SpawnFailure::Host(error));
                SpawnStage::Finished { outcome: Err(error) }
            },
            (SpawnStage::Duplicating { .. }, SpawnReply::Duplicated(Ok(process_handle))) => {
                SpawnStage::Finished { outcome: Ok(TrackedChild { process_handle }) }
            },
            (SpawnStage::Duplicating { .. }, SpawnReply::Duplicated(Err(error))) => {
                SpawnStage::Finished {
                    outcome: Err(SpawnError::OsSpawn(SpawnFailure::Host(error))),
                }
            },
            (stage, _) => stage,
        };
        Spawning { plan, stage }
    }
}

impl SpyImpl {
    /// Begins to start a process under the eyes of this spy. With a token, the process
    /// gets it as its primary token before it runs.
    pub fn spawn<E>(
        &self,
        raw_token: Option<usize>,
        payload_id: Guid,
        capacity: usize,
    ) -> (spawning: Spawning<'_, E>)
        ensures
            spawning.plan == (SpawnPlan {
                dll_path: &self.ansi_dll_path_with_nul,
                raw_token,
                payload_id,
                capacity,
            }),
            spawning.stage is CreatingChannel,
    {
        Spawning {
            plan: SpawnPlan {
                dll_path: &self.ansi_dll_path_with_nul,
                raw_token,
                payload_id,
                capacity,
            },
            stage: SpawnStage::CreatingChannel,
        }
    }
}

} // verus!
