//! Where the lock that keeps a second copy of the program from running
//! lives: a file under the home directory on macOS, a named mutex on
//! Windows.

use vstd::prelude::*;
use crate::text::{join_path, path_join};

verus! {

/// The name of the Windows mutex held while the program runs.
pub const MUTEX_NAME: &'static str = "Global\\MacroPaste_SingleInstance";

/// The directory used when `HOME` is not set.
pub const FALLBACK_HOME: &'static str = "/tmp";

/// The directory that holds the lock file, given the `HOME` variable if it
/// is set.
pub open spec fn lock_dir_of(home: Option<Seq<char>>) -> Seq<char> {
    path_join(
        match home {
            Some(h) => h,
            None => FALLBACK_HOME@,
        },
        ".macropaste"@,
    )
}

/// The lock file, given the `HOME` variable if it is set.
pub open spec fn lock_file_of(home: Option<Seq<char>>) -> Seq<char> {
    path_join(lock_dir_of(home), "instance.lock"@)
}

pub open spec fn home_view(home: Option<&str>) -> Option<Seq<char>> {
    match home {
        Some(h) => Some(h@),
        None => None,
    }
}

/// The directory that holds the lock file, created before the file is
/// opened.
pub fn lock_dir(home: Option<&str>) -> (res: String)
    ensures
        res@ == lock_dir_of(home_view(home)),
{
    match home {
        Some(h) => join_path(h, ".macropaste"),
        None => join_path(FALLBACK_HOME, ".macropaste"),
    }
}

/// The lock file that the running copy holds an exclusive lock on.
pub fn lock_path(home: Option<&str>) -> (res: String)
    ensures
        res@ == lock_file_of(home_view(home)),
{
    let dir = lock_dir(home);
    join_path(dir.as_str(), "instance.lock")
}

} // verus!

verus! {

/// The lock file lies directly in the directory created before it is
/// opened.
pub proof fn lock_file_lies_in_lock_dir(home: Option<Seq<char>>)
    ensures
        lock_file_of(home) == lock_dir_of(home).push('/') + "instance.lock"@,
{
    reveal_strlit(".macropaste");
    crate::text::path_join_ends_with_component(
        match home {
            Some(h) => h,
            None => FALLBACK_HOME@,
        },
        ".macropaste"@,
    );
}

} // verus!
