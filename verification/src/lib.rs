//! What a file-system spy decides on Windows, apart from the system calls it makes.
//!
//! Every operation that talks to Windows is a small machine. The machine says which
//! call comes next, the host makes that call and hands the reply back, and in the end
//! the machine says what the whole operation returns.

pub mod acl;
pub mod acl_laws;
pub mod ansi;
pub mod artifact;
pub mod grant_calls;
pub mod inject;
pub mod inject_calls;
pub mod io_error;
pub mod payload;
pub mod section;
pub mod section_calls;
pub mod spawn;
pub mod spawn_calls;
pub mod spawn_laws;
pub mod spy;
pub mod termination;
pub mod text;
pub mod token;
pub mod wide;

pub use acl::{grant_file_access, grant_file_access_with_mask, grant_kernel_object_access};
pub use inject::inject_and_resume;
pub use io_error::IoError;
pub use section::grant_section_access;
pub use spawn::{SpawnError, TrackedChild};
pub use spy::SpyImpl;
pub use termination::{ChildTermination, PathAccessIterable};
pub use token::set_process_token;
