//! Archive resolution: the configured directory wins; otherwise a fixed
//! directory under the user's home; with no home known, the archive is
//! looked up under its bare name in the working directory. The fixed archive
//! file name is appended to whichever directory was chosen.

use vstd::prelude::*;
use vstd::string::StringExecFns;
use crate::errors::LaunchError;

verus! {

/// The fixed name of the application archive.
pub open spec fn jar_name() -> Seq<char> {
    "wurstscript.jar"@
}

/// The directory prefix the archive is looked up in: the configured
/// directory when present, else `\.wurst\` under the home directory, else
/// the empty prefix (the working directory).
pub open spec fn archive_dir_spec(configured: Option<Seq<char>>, home: Option<Seq<char>>) -> Seq<
    char,
> {
    match configured {
        Some(c) => c,
        None => match home {
            Some(h) => h + "\\.wurst\\"@,
            None => Seq::<char>::empty(),
        },
    }
}

/// The full archive path: the chosen directory prefix with the fixed archive
/// file name appended.
pub open spec fn archive_path_spec(configured: Option<Seq<char>>, home: Option<Seq<char>>) -> Seq<
    char,
> {
    archive_dir_spec(configured, home) + jar_name()
}

/// Resolves the archive path from the configured directory and the home
/// directory.
pub fn archive_path(configured: Option<String>, home: Option<String>) -> (r: String)
    ensures
        ({
            let c = match configured {
                Some(s) => Some(s@),
                None => None,
            };
            let h = match home {
                Some(s) => Some(s@),
                None => None,
            };
            r@ == archive_path_spec(c, h)
        }),
{
    let mut dir: String = match configured {
        Some(c) => c,
        None => match home {
            Some(h) => {
                let mut d = h;
                d.append("\\.wurst\\");
                d
            },
            None => String::new(),
        },
    };
    dir.append("wurstscript.jar");
    proof {
        assert(Seq::<char>::empty() + jar_name() =~= jar_name());
    }
    dir
}

/// The archive must exist at its resolved path; a missing archive is fatal.
pub fn check_archive(path: String, archive_exists: bool) -> (r: Result<String, LaunchError>)
    ensures
        archive_exists ==> r == Ok::<String, LaunchError>(path),
        !archive_exists ==> r == Err::<String, LaunchError>(LaunchError::ArchiveMissing),
{
    if archive_exists {
        Ok(path)
    } else {
        Err(LaunchError::ArchiveMissing)
    }
}

} // verus!
