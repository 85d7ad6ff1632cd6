//! The spy, and how it is set up.

use vstd::prelude::*;

use crate::ansi::NulTerminated;
use crate::ansi;
use crate::artifact::Artifact;
use crate::artifact;
use crate::io_error::IoError;
use crate::text;

verus! {

/// The code page of the system.
pub const CP_ACP: u16 = 0;

/// No flag of a conversion.
pub const WC_NO_VALUE: u32 = 0;

/// What the library that is loaded into child processes is written with at its end.
pub const DLL_SUFFIX: &'static str = ".dll";

/// A spy that is ready to start processes.
#[derive(Debug, PartialEq, Eq)]
pub struct SpyImpl {
    /// Where the library lies, in the code page of the system.
    pub ansi_dll_path_with_nul: NulTerminated,
}

impl Clone for SpyImpl {
    fn clone(&self) -> (copy: SpyImpl)
        ensures
            copy.ansi_dll_path_with_nul@ == self.ansi_dll_path_with_nul@,
    {
        SpyImpl { ansi_dll_path_with_nul: self.ansi_dll_path_with_nul.clone() }
    }
}

/// A call that the set-up of a spy waits for.
#[derive(Debug, Clone, Copy, PartialEq, Eq)]
pub enum InitCall<'a> {
    /// Writes an artifact into a directory.
    WriteArtifact { artifact: &'a Artifact<'a>, directory: &'a Vec<u16>, suffix: &'static str },
    /// `WideCharToMultiByte`
    WideCharToMultiByte {
        code_page: u16,
        flags: u32,
        wide: &'a Vec<u16>,
        default_char: Option<u8>,
        /// Whether it is to be told if the default character was used.
        report_default_char: bool,
    },
}

/// What a call gave back.
#[derive(Debug, PartialEq, Eq)]
pub enum InitReply {
    /// The path of the file that was written.
    Written(Vec<u16>),
    /// The converted text, or an error code.
    Converted(Result<Vec<u8>, u32>),
}

/// The set-up of a spy, and how far it has come.
#[derive(Debug, PartialEq, Eq)]
pub enum InitIn<'a> {
    Writing { directory: Vec<u16>, artifact: Artifact<'a> },
    Converting { wide_dll_path: Vec<u16> },
    Finished { outcome: Result<SpyImpl, IoError> },
}

impl<'a> InitIn<'a> {
    /// The call that the set-up waits for; none once it has finished.
    pub open spec fn pending(&self) -> Option<InitCall<'_>> {
        match self {
            InitIn::Writing { directory, artifact } => Some(
                InitCall::WriteArtifact { artifact, directory, suffix: DLL_SUFFIX },
            ),
            InitIn::Converting { wide_dll_path } => Some(
                InitCall::WideCharToMultiByte {
                    code_page: CP_ACP,
                    flags: WC_NO_VALUE,
                    wide: wide_dll_path,
                    default_char: None,
                    report_default_char: false,
                },
            ),
            InitIn::Finished { .. } => None,
        }
    }

    /// `next` is the set-up after a reply. A reply to another call changes nothing.
    pub open spec fn leads_to(self, reply: InitReply, next: InitIn<'a>) -> bool {
        match (self, reply) {
            (InitIn::Writing { .. }, InitReply::Written(path)) => {
                next == (InitIn::Converting { wide_dll_path: path })
            },
            (InitIn::Converting { .. }, InitReply::Converted(Ok(bytes))) => {
                next matches InitIn::Finished { outcome: Ok(spy) }
                    && spy.ansi_dll_path_with_nul@ == bytes@
            },
            (InitIn::Converting { .. }, InitReply::Converted(Err(code))) => {
                next == (InitIn::Finished { outcome: Err(IoError::of_code(code)) })
            },
            (state, _) => next == state,
        }
    }

    /// The call that the set-up waits for; none once it has finished.
    pub fn call(&self) -> (call: Option<InitCall<'_>>)
        ensures
            call == self.pending(),
    {
        match self {
            InitIn::Writing { directory, artifact } => Some(
                InitCall::WriteArtifact { artifact, directory, suffix: DLL_SUFFIX },
            ),
            InitIn::Converting { wide_dll_path } => Some(
                InitCall::WideCharToMultiByte {
                    code_page: CP_ACP,
                    flags: WC_NO_VALUE,
                    wide: wide_dll_path,
                    default_char: None,
                    report_default_char: false,
                },
            ),
            InitIn::Finished { .. } => None,
        }
    }

    /// Takes the reply to the pending call. A reply to another call changes nothing.
    pub fn step(self, reply: InitReply) -> (next: InitIn<'a>)
        ensures
            self.leads_to(reply, next),
    {
        match (self, reply) {
            (InitIn::Writing { .. }, InitReply::Written(path)) => {
                InitIn::Converting { wide_dll_path: path }
            },
            (InitIn::Converting { .. }, InitReply::Converted(Ok(bytes))) => {
                let spy = SpyImpl { ansi_dll_path_with_nul: NulTerminated::new(bytes) };
                InitIn::Finished { outcome: Ok(spy) }
            },
            (InitIn::Converting { .. }, InitReply::Converted(Err(code))) => {
                InitIn::Finished { outcome: Err(IoError::from_code(code)) }
            },
            (state, _) => state,
        }
    }
}

impl SpyImpl {
    /// Starts to set up a spy whose library, with the given content, is written into
    /// `directory`.
    pub fn init_in<'a>(directory: Vec<u16>, binary: &'a [u8]) -> (init: InitIn<'a>)
        ensures
            init matches InitIn::Writing { directory: kept, artifact } && {
                &&& kept == directory
                &&& artifact.name@ == "fsyp_preload"@
                &&& artifact.content == binary
                &&& artifact.hash@ == text::digits(
                    artifact::xxh3_128_digest(binary@) as nat,
                    16,
                )
            },
    {
        InitIn::Writing { directory, artifact: Artifact::interpose_cdylib(binary) }
    }
}

/// A set-up whose library was written converts the path of that very file, and it succeeds
/// exactly if the conversion does. A reader of C strings then gets the whole path, if there
/// is no zero in it.
pub proof fn set_up_keeps_the_path_of_the_library<'a>(
    first: InitIn<'a>,
    path: Vec<u16>,
    second: InitIn<'a>,
    converted: Result<Vec<u8>, u32>,
    third: InitIn<'a>,
)
    requires
        first is Writing,
        first.leads_to(InitReply::Written(path), second),
        second.leads_to(InitReply::Converted(converted), third),
    ensures
        second.pending() == Some(
            InitCall::WideCharToMultiByte {
                code_page: CP_ACP,
                flags: WC_NO_VALUE,
                wide: &path,
                default_char: None,
                report_default_char: false,
            },
        ),
        match converted {
            Ok(bytes) => {
                &&& third matches InitIn::Finished { outcome: Ok(spy) } && {
                    &&& spy.ansi_dll_path_with_nul@ == bytes@
                    &&& !bytes@.contains(0) ==> ansi::c_string(
                        spy.ansi_dll_path_with_nul@.push(0),
                    ) == bytes@
                }
            },
            Err(code) => third matches InitIn::Finished { outcome: Err(error) } && error
                == IoError::of_code(code),
        },
{
    if let Ok(bytes) = converted {
        if !bytes@.contains(0) {
            ansi::terminated_content_is_read_whole(bytes@);
        }
    }
}

/// A set-up first writes the library with the given content into the given directory, as a
/// file that ends in `.dll`. It then converts the path of the file that was written into the
/// code page of the system, and the spy keeps the converted path with a zero behind it. A
/// conversion that failed gives the error whose number has the same 32 bits as the code.
pub proof fn set_up_call_by_call<'a>(
    directory: Vec<u16>,
    binary: &'a [u8],
    init: InitIn<'a>,
    writing: Option<InitCall<'_>>,
    path: Vec<u16>,
    written: InitIn<'a>,
    converting: Option<InitCall<'_>>,
    bytes: Vec<u8>,
    converted: InitIn<'a>,
    code: u32,
    failed: InitIn<'a>,
)
    requires
        call_ensures(SpyImpl::init_in, (directory, binary), init),
        call_ensures(InitIn::call, (&init,), writing),
        call_ensures(InitIn::step, (init, InitReply::Written(path)), written),
        call_ensures(InitIn::call, (&written,), converting),
        call_ensures(InitIn::step, (written, InitReply::Converted(Ok(bytes))), converted),
        call_ensures(InitIn::step, (written, InitReply::Converted(Err(code))), failed),
    ensures
        writing matches Some(InitCall::WriteArtifact { artifact, directory: target, suffix }) && {
            &&& artifact.name@ == "fsyp_preload"@
            &&& artifact.content == binary
            &&& artifact.hash@ == text::digits(artifact::xxh3_128_digest(binary@) as nat, 16)
            &&& target == directory
            &&& suffix@ == ".dll"@
        },
        converting matches Some(
            InitCall::WideCharToMultiByte {
                code_page,
                flags,
                wide,
                default_char,
                report_default_char,
            },
        ) && {
            &&& code_page == 0
            &&& flags == 0
            &&& wide == path
            &&& default_char is None
            &&& !report_default_char
        },
        converted matches InitIn::Finished { outcome: Ok(spy) } && forall|kept: &[u8]| #[trigger]
            call_ensures(NulTerminated::to_bytes_with_nul, (&spy.ansi_dll_path_with_nul,), kept)
                ==> kept@ == bytes@.push(0),
        failed matches InitIn::Finished { outcome: Err(IoError::Os(number)) } && (number - code)
            % 0x1_0000_0000 == 0,
{
}

/// A set-up moves on with a reply exactly if the reply is of the kind that its call gives
/// back; any other reply leaves it as it is, and so does every reply once it has ended.
pub proof fn set_up_moves_on_with_its_reply_alone<'a>(
    init: InitIn<'a>,
    call: Option<InitCall<'_>>,
    reply: InitReply,
    next: InitIn<'a>,
)
    requires
        call_ensures(InitIn::call, (&init,), call),
        call_ensures(InitIn::step, (init, reply), next),
    ensures
        match call {
            Some(InitCall::WriteArtifact { .. }) => reply is Written,
            Some(InitCall::WideCharToMultiByte { .. }) => reply is Converted,
            None => false,
        } <==> next != init,
        call is None <==> init is Finished,
{
}

} // verus!
