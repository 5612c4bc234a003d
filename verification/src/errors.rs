//! The distinct fatal conditions of a launch. Every one of them ends the run
//! with exit status 1 after its diagnostic is printed; there is no retry.

use vstd::prelude::*;

verus! {

/// One fatal precondition failure. No variant is recoverable.
#[derive(Clone, Copy, Debug, PartialEq, Eq, Structural)]
pub enum LaunchError {
    /// The configuration file exists but cannot be parsed.
    ConfigUnparsable,
    /// The configured runtime path names no existing file.
    JavaPathInvalid,
    /// The configured archive directory names no existing path.
    WurstPathInvalid,
    /// The resolved archive file does not exist.
    ArchiveMissing,
    /// No candidate directory holds the runtime executable.
    JavaMissing,
}

/// The diagnostic printed for each fatal condition.
pub open spec fn message_spec(e: LaunchError) -> Seq<char> {
    match e {
        LaunchError::ConfigUnparsable => "Found wrapper config file but unable to parse."@,
        LaunchError::JavaPathInvalid => "Found configured java path but file not found.  Consider commenting out or deleting java_path from your wrapper_config.toml to automatically detect a java path."@,
        LaunchError::WurstPathInvalid => "Found configured wurst path but file not found.  Make sure the wurstscript.jar is inside the provided folder"@,
        LaunchError::ArchiveMissing => "wurstscript.jar could not be found!"@,
        LaunchError::JavaMissing => "Failed to locate javaw.exe"@,
    }
}

impl LaunchError {
    /// The diagnostic to print before exiting.
    pub fn message(&self) -> (r: String)
        ensures
            r@ == message_spec(*self),
    {
        match self {
            LaunchError::ConfigUnparsable => "Found wrapper config file but unable to parse.".to_owned(),
            LaunchError::JavaPathInvalid => "Found configured java path but file not found.  Consider commenting out or deleting java_path from your wrapper_config.toml to automatically detect a java path.".to_owned(),
            LaunchError::WurstPathInvalid => "Found configured wurst path but file not found.  Make sure the wurstscript.jar is inside the provided folder".to_owned(),
            LaunchError::ArchiveMissing => "wurstscript.jar could not be found!".to_owned(),
            LaunchError::JavaMissing => "Failed to locate javaw.exe".to_owned(),
        }
    }

    /// Every fatal condition ends the process with status 1.
    pub fn exit_code(&self) -> (r: i32)
        ensures
            r == 1,
    {
        1
    }
}

/// The wrapper exits with the child's own code; when the child was ended by
/// a signal and has no code, it exits with the sentinel -1.
pub fn child_exit_code(code: Option<i32>) -> (r: i32)
    ensures
        code matches Some(c) ==> r == c,
        code is None ==> r == -1,
{
    match code {
        Some(c) => c,
        None => -1,
    }
}

} // verus!
