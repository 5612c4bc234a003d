//! Decisions around the optional configuration file. Reading and parsing the
//! file happen outside this crate; what came of them enters here as a plain
//! outcome, and every decision taken on it is verified.

use vstd::prelude::*;
use crate::errors::LaunchError;
use crate::settings::Settings;

verus! {

/// What reading the configuration file came to.
pub enum LoadOutcome {
    /// The file does not exist. This is not an error.
    Missing,
    /// The file was read and parsed into settings.
    Parsed(Settings),
    /// The file exists but could not be parsed.
    Malformed,
}

/// Turns the load outcome into settings: an absent file yields the all-unset
/// settings and the run proceeds; a file that cannot be parsed is fatal; a
/// parsed file yields exactly its settings.
pub fn settings_of_outcome(o: LoadOutcome) -> (r: Result<Settings, LaunchError>)
    ensures
        o is Missing ==> (r matches Ok(s) && s.all_unset()),
        o matches LoadOutcome::Parsed(s) ==> r == Ok::<Settings, LaunchError>(s),
        o is Malformed ==> r == Err::<Settings, LaunchError>(LaunchError::ConfigUnparsable),
        r is Err <==> o is Malformed,
{
    match o {
        LoadOutcome::Missing => Ok(Settings::default()),
        LoadOutcome::Parsed(s) => Ok(s),
        LoadOutcome::Malformed => Err(LaunchError::ConfigUnparsable),
    }
}

/// Validates the two configured paths, in the order the settings are
/// processed: a configured runtime path that does not exist is reported
/// first, then a configured archive directory that does not exist. The
/// flags say whether each configured path exists; a flag is ignored when
/// the matching field is unset.
pub fn validate_settings(s: &Settings, java_path_ok: bool, wurst_path_ok: bool) -> (r: Result<
    (),
    LaunchError,
>)
    ensures
        s.java_path is Some && !java_path_ok ==> r == Err::<(), LaunchError>(
            LaunchError::JavaPathInvalid,
        ),
        (s.java_path is None || java_path_ok) && s.wurst_path is Some && !wurst_path_ok ==> r
            == Err::<(), LaunchError>(LaunchError::WurstPathInvalid),
        (s.java_path is None || java_path_ok) && (s.wurst_path is None || wurst_path_ok) ==> r
            is Ok,
{
    if s.java_path.is_some() && !java_path_ok {
        return Err(LaunchError::JavaPathInvalid);
    }
    if s.wurst_path.is_some() && !wurst_path_ok {
        return Err(LaunchError::WurstPathInvalid);
    }
    Ok(())
}

} // verus!
