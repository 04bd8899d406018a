//! Decisions the runner makes when a packed executable starts: where its
//! runtime is cached, whether it must be extracted again, and whether a
//! progress spinner is shown.

pub mod extractor;

use vstd::prelude::*;
use crate::staging::strings_view;
use crate::text::str_eq;

verus! {

/// The directory under the platform's local data directory that holds the
/// cache.
pub const DEFAULT_CACHE_NAMESPACE: &'static str = "pybin";

/// The cache folder of a packed executable: its file name, followed by `.`
/// and the build uid when there is one.
pub open spec fn spec_cache_folder_name(file_name: Seq<char>, build_uid: Seq<char>) -> Seq<char> {
    if build_uid.len() == 0 {
        file_name
    } else {
        file_name + "."@ + build_uid
    }
}

/// The cache folder of a packed executable named `file_name` whose bundle
/// has `build_uid`.
pub fn cache_folder_name(file_name: &str, build_uid: &str) -> (name: String)
    ensures
        name@ == spec_cache_folder_name(file_name@, build_uid@),
{
    let mut name = file_name.to_owned();
    if build_uid.unicode_len() != 0 {
        name.append(".");
        name.append(build_uid);
    }
    name
}

/// Why no cache directory could be chosen.
#[derive(Debug, Clone, Copy, PartialEq, Eq, Structural)]
pub enum RunnerError {
    /// Neither cache variable is set and the platform has no local data
    /// directory.
    NoLocalDataDir,
}

impl RunnerError {
    pub open spec fn spec_message(self) -> Seq<char> {
        "no local data directory was available for cache extraction"@
    }

    pub fn to_string(&self) -> (s: String)
        ensures
            s@ == self.spec_message(),
    {
        "no local data directory was available for cache extraction".to_owned()
    }
}

/// Declares `std::path::PathBuf`, the type of the platform's local data
/// directory.
#[verifier::external_type_specification]
#[verifier::external_body]
pub struct ExPathBuf(std::path::PathBuf);

/// The directory that a cache directory lies under.
#[derive(Debug)]
pub enum CacheBase {
    /// A directory named by `PYBIN_CACHE_DIR` or `WARP_CACHE_DIR`.
    Configured(String),
    /// The platform's local data directory, as `dirs` reports it.
    LocalData(std::path::PathBuf),
}

/// A cache directory: `base`, with each of `components` joined on in turn.
#[derive(Debug)]
pub struct CacheDir {
    pub base: CacheBase,
    pub components: Vec<String>,
}

/// The platform's local data directory.
///
/// Wraps `dirs::data_local_dir`. It depends on the environment
/// (`XDG_DATA_HOME`, `HOME`) and the platform, so nothing is claimed of it.
#[verifier::external_body]
fn local_data_dir() -> Option<std::path::PathBuf> {
    dirs::data_local_dir()
}

/// The cache directory for `target`, given the values of `PYBIN_CACHE_DIR`
/// and `WARP_CACHE_DIR` and the platform's local data directory:
/// `<PYBIN_CACHE_DIR>/packages/<target>`, else
/// `<WARP_CACHE_DIR>/packages/<target>`, else
/// `<local data directory>/pybin/packages/<target>`; without any of them
/// there is no cache directory.
pub fn cache_dir_for(
    pybin_cache_dir: Option<&str>,
    warp_cache_dir: Option<&str>,
    local_data_dir: Option<std::path::PathBuf>,
    target: &str,
) -> (r: Result<CacheDir, RunnerError>)
    ensures
        pybin_cache_dir matches Some(root) ==> r matches Ok(d) && d.base matches CacheBase::Configured(
            b,
        ) && b@ == root@ && strings_view(d.components@) == seq!["packages"@, target@],
        pybin_cache_dir is None ==> (warp_cache_dir matches Some(root) ==> r matches Ok(d)
            && d.base matches CacheBase::Configured(b) && b@ == root@ && strings_view(d.components@)
            == seq!["packages"@, target@]),
        pybin_cache_dir is None && warp_cache_dir is None ==> match local_data_dir {
            Some(dir) => r matches Ok(d) && d.base == CacheBase::LocalData(dir) && strings_view(
                d.components@,
            ) == seq!["pybin"@, "packages"@, target@],
            None => r == Err::<CacheDir, RunnerError>(RunnerError::NoLocalDataDir),
        },
{
    let mut components: Vec<String> = Vec::new();
    let base = match pybin_cache_dir {
        Some(root) => CacheBase::Configured(root.to_owned()),
        None => match warp_cache_dir {
            Some(root) => CacheBase::Configured(root.to_owned()),
            None => match local_data_dir {
                Some(dir) => {
                    components.push(DEFAULT_CACHE_NAMESPACE.to_owned());
                    CacheBase::LocalData(dir)
                },
                None => {
                    return Err(RunnerError::NoLocalDataDir);
                },
            },
        },
    };
    components.push("packages".to_owned());
    components.push(target.to_owned());
    proof {
        reveal_strlit("pybin");
    }
    assert(strings_view(components@) =~= if pybin_cache_dir is None && warp_cache_dir is None {
        seq!["pybin"@, "packages"@, target@]
    } else {
        seq!["packages"@, target@]
    });
    Ok(CacheDir { base, components })
}

/// The cache directory for `target`, given the values of `PYBIN_CACHE_DIR`
/// and `WARP_CACHE_DIR`, as `cache_dir_for` chooses it; the platform's local
/// data directory is asked for only when neither variable is set.
pub fn cache_path(pybin_cache_dir: Option<&str>, warp_cache_dir: Option<&str>, target: &str) -> (r:
    Result<CacheDir, RunnerError>)
    ensures
        pybin_cache_dir matches Some(root) ==> r matches Ok(d) && d.base matches CacheBase::Configured(
            b,
        ) && b@ == root@ && strings_view(d.components@) == seq!["packages"@, target@],
        pybin_cache_dir is None ==> (warp_cache_dir matches Some(root) ==> r matches Ok(d)
            && d.base matches CacheBase::Configured(b) && b@ == root@ && strings_view(d.components@)
            == seq!["packages"@, target@]),
        pybin_cache_dir is None && warp_cache_dir is None ==> match r {
            Ok(d) => d.base is LocalData && strings_view(d.components@) == seq![
                "pybin"@,
                "packages"@,
                target@,
            ],
            Err(e) => e == RunnerError::NoLocalDataDir,
        },
{
    if pybin_cache_dir.is_none() && warp_cache_dir.is_none() {
        cache_dir_for(None, None, local_data_dir(), target)
    } else {
        cache_dir_for(pybin_cache_dir, warp_cache_dir, None, target)
    }
}

/// What the runner finds in its cache directory.
#[derive(Debug, Clone, Copy, PartialEq, Eq, Structural)]
pub enum CacheState {
    /// No cache directory.
    Missing,
    /// A cache directory modified before the packed executable was.
    Stale,
    /// A cache directory at least as new as the packed executable.
    Current,
}

/// The state of the cache directory, from its modification time (`None` when
/// there is no cache directory) and the packed executable's, both counted in
/// nanoseconds from the Unix epoch (negative before it): stale when it was
/// modified before the executable.
pub fn cache_state(cache_modified: Option<i128>, executable_modified: i128) -> (s: CacheState)
    ensures
        s == match cache_modified {
            None => CacheState::Missing,
            Some(c) => if c < executable_modified {
                CacheState::Stale
            } else {
                CacheState::Current
            },
        },
{
    match cache_modified {
        None => CacheState::Missing,
        Some(c) => if c < executable_modified {
            CacheState::Stale
        } else {
            CacheState::Current
        },
    }
}

/// Whether the payload must be extracted: when the cache is missing or older
/// than the executable.
pub fn extraction_needed(state: CacheState) -> (r: bool)
    ensures
        r == (state != CacheState::Current),
{
    match state {
        CacheState::Missing => true,
        CacheState::Stale => true,
        CacheState::Current => false,
    }
}

/// Whether the runner shows a progress spinner: not when `PYBIN_NO_PROGRESS`
/// is set; otherwise when both standard streams are terminals and `TERM` is
/// not `dumb`.
pub fn progress_enabled_for(
    no_progress_set: bool,
    stderr_is_terminal: bool,
    stdout_is_terminal: bool,
    term: Option<&str>,
) -> (r: bool)
    ensures
        r == (!no_progress_set && stderr_is_terminal && stdout_is_terminal && match term {
            Some(t) => t@ != "dumb"@,
            None => true,
        }),
{
    if no_progress_set {
        return false;
    }
    stderr_is_terminal && stdout_is_terminal && match term {
        Some(t) => !str_eq(t, "dumb"),
        None => true,
    }
}

} // verus!
