//! The errors that the operations of this crate make themselves.

use vstd::prelude::*;

use crate::text;

verus! {

/// The kinds of the errors that carry a message.
#[derive(Debug, Clone, Copy, PartialEq, Eq, Structural)]
pub enum ErrorKind {
    NotFound,
    PermissionDenied,
}

/// An error of an input or output operation.
#[derive(Debug, PartialEq, Eq)]
pub enum IoError {
    /// A section could not be opened by its name.
    OpenSection { os_id: String, code: u32 },
    /// The access control list of a file could not be read.
    ReadNamedDacl { code: u32 },
    /// An error that is known by its number in the operating system alone.
    Os(i32),
}

/// The signed number with the same 32 bits.
pub open spec fn signed(bits: u32) -> int {
    if bits < 0x8000_0000 {
        bits as int
    } else {
        bits - 0x1_0000_0000
    }
}

impl IoError {
    /// The error with the number that Windows gave as an unsigned code.
    pub open spec fn of_code(code: u32) -> IoError {
        IoError::Os(signed(code) as i32)
    }

    /// The kind of an error that carries a message.
    pub open spec fn spec_kind(&self) -> Option<ErrorKind> {
        match self {
            IoError::OpenSection { .. } => Some(ErrorKind::NotFound),
            IoError::ReadNamedDacl { .. } => Some(ErrorKind::PermissionDenied),
            IoError::Os(_) => None,
        }
    }

    /// The text of an error that carries a message.
    pub open spec fn spec_message(&self) -> Option<Seq<char>> {
        match self {
            IoError::OpenSection { os_id, code } => Some(
                "OpenFileMappingW failed for '"@ + os_id@ + "': error "@ + text::digits(*code as nat, 10),
            ),
            IoError::ReadNamedDacl { code } => Some(
                "GetNamedSecurityInfoW: error "@ + text::digits(*code as nat, 10),
            ),
            IoError::Os(_) => None,
        }
    }

    /// The error with the number that Windows gave as an unsigned code.
    pub fn from_code(code: u32) -> (error: IoError)
        ensures
            error == IoError::of_code(code),
    {
        IoError::Os(cast_signed(code))
    }

    /// The kind of an error that carries a message, and nothing for a bare number.
    pub fn kind(&self) -> (kind: Option<ErrorKind>)
        ensures
            kind == self.spec_kind(),
    {
        match self {
            IoError::OpenSection { .. } => Some(ErrorKind::NotFound),
            IoError::ReadNamedDacl { .. } => Some(ErrorKind::PermissionDenied),
            IoError::Os(_) => None,
        }
    }

    /// The text of an error that carries a message, and nothing for a bare number.
    pub fn message(&self) -> (message: Option<String>)
        ensures
            match message {
                Some(written) => self.spec_message() == Some(written@),
                None => self.spec_message() is None,
            },
    {
        match self {
            IoError::OpenSection { os_id, code } => {
                let message = String::from_str("OpenFileMappingW failed for '").concat(
                    os_id.as_str(),
                ).concat("': error ").concat(text::decimal(*code).as_str());
                Some(message)
            },
            IoError::ReadNamedDacl { code } => {
                let message = String::from_str("GetNamedSecurityInfoW: error ").concat(
                    text::decimal(*code).as_str(),
                );
                Some(message)
            },
            IoError::Os(_) => None,
        }
    }

    /// The number of an error that is known by its number.
    pub fn raw_os_error(&self) -> (code: Option<i32>)
        ensures
            code == match self {
                IoError::Os(code) => Some(*code),
                _ => None,
            },
    {
        match self {
            IoError::Os(code) => Some(*code),
            _ => None,
        }
    }
}

/// The signed number with the same 32 bits.
pub fn cast_signed(bits: u32) -> (number: i32)
    ensures
        number == signed(bits),
{
    if bits < 0x8000_0000 {
        bits as i32
    } else {
        (bits as i64 - 0x1_0000_0000) as i32
    }
}

/// No two codes of Windows become the same error number.
pub proof fn signed_is_injective(first: u32, second: u32)
    requires
        signed(first) == signed(second),
    ensures
        first == second,
        i32::MIN <= signed(first) <= i32::MAX,
{
}

/// A code of Windows becomes the error number with the same 32 bits, and an error with a
/// number has neither a kind nor a text.
pub proof fn code_becomes_a_bare_number(
    code: u32,
    number: i32,
    error: IoError,
    raw: Option<i32>,
    kind: Option<ErrorKind>,
    message: Option<String>,
)
    requires
        call_ensures(cast_signed, (code,), number),
        call_ensures(IoError::from_code, (code,), error),
        call_ensures(IoError::raw_os_error, (&error,), raw),
        call_ensures(IoError::kind, (&error,), kind),
        call_ensures(IoError::message, (&error,), message),
    ensures
        (number - code) % 0x1_0000_0000 == 0,
        raw == Some(number),
        kind is None,
        message is None,
{
}

/// The error of a section that could not be opened says that something was not found, and its
/// text holds the name of the section, in quotes, and the code. It has no number.
pub proof fn open_section_error_names_section_and_code(
    os_id: String,
    code: u32,
    written: String,
    raw: Option<i32>,
    kind: Option<ErrorKind>,
    message: Option<String>,
)
    requires
        call_ensures(text::decimal, (code,), written),
        call_ensures(IoError::raw_os_error, (&IoError::OpenSection { os_id, code },), raw),
        call_ensures(IoError::kind, (&IoError::OpenSection { os_id, code },), kind),
        call_ensures(IoError::message, (&IoError::OpenSection { os_id, code },), message),
    ensures
        raw is None,
        kind == Some(ErrorKind::NotFound),
        message matches Some(text) && text@ == "OpenFileMappingW failed for '"@ + os_id@
            + "': error "@ + written@,
{
}

/// The error of a list that could not be read says that an access was denied, and its text
/// holds the code. It has no number.
pub proof fn read_dacl_error_names_the_code(
    code: u32,
    written: String,
    raw: Option<i32>,
    kind: Option<ErrorKind>,
    message: Option<String>,
)
    requires
        call_ensures(text::decimal, (code,), written),
        call_ensures(IoError::raw_os_error, (&IoError::ReadNamedDacl { code },), raw),
        call_ensures(IoError::kind, (&IoError::ReadNamedDacl { code },), kind),
        call_ensures(IoError::message, (&IoError::ReadNamedDacl { code },), message),
    ensures
        raw is None,
        kind == Some(ErrorKind::PermissionDenied),
        message matches Some(text) && text@ == "GetNamedSecurityInfoW: error "@ + written@,
{
}

} // verus!
