//! The host checks: conda, and a supported project marker.

use vstd::prelude::*;
use vstd::utf8::{decode_utf8, valid_utf8};
use crate::text::{
    TrimPattern, char_index_in, chars_of, lemma_split_step, lines, split, str_eq,
    string_from_range, trim, trim_range,
};

verus! {

/// The characters that `String::from_utf8_lossy` makes of `bytes` (invalid
/// sequences replaced by U+FFFD).
pub uninterp spec fn utf8_lossy(bytes: Seq<u8>) -> Seq<char>;

/// Decodes bytes as UTF-8, replacing invalid sequences.
///
/// Wraps `String::from_utf8_lossy` (taking the owned string out of the
/// `Cow`). The contract claims that the result is the named decoding
/// `utf8_lossy(bytes)`, and that valid UTF-8 is decoded as it is.
#[verifier::external_body]
fn string_from_utf8_lossy(bytes: &[u8]) -> (s: String)
    ensures
        s@ == utf8_lossy(bytes@),
        valid_utf8(bytes@) ==> s@ == decode_utf8(bytes@),
{
    String::from_utf8_lossy(bytes).into_owned()
}

/// The opening of the guidance shown when conda is missing.
pub open spec fn guidance_intro() -> Seq<char> {
    "failed to run `conda --version`; `conda` does not appear to be installed or on PATH.\n\nRecommended installer: Miniforge from conda-forge.\n"@
}

/// The install steps for macOS and Linux.
pub open spec fn guidance_unix() -> Seq<char> {
    "Official quick install commands:\n  curl -L -O \"https://github.com/conda-forge/miniforge/releases/latest/download/Miniforge3-$(uname)-$(uname -m).sh\"\n  bash Miniforge3-$(uname)-$(uname -m).sh\n  ~/miniforge3/bin/conda init\n  exec $SHELL\n  conda --version\n"@
}

/// The install steps for Windows.
pub open spec fn guidance_windows() -> Seq<char> {
    "Official download page:\n  https://conda-forge.org/download/\nOfficial silent install command after downloading the installer:\n  start /wait \"\" Miniforge3-Windows-x86_64.exe /InstallationType=JustMe /RegisterPython=0 /S /D=%UserProfile%\\Miniforge3\nThen open a new shell and run:\n  conda --version\n"@
}

/// The install steps for other systems.
pub open spec fn guidance_other() -> Seq<char> {
    "Official download page:\n  https://conda-forge.org/download/\nAfter installing, open a new shell and run:\n  conda --version\n"@
}

/// The guidance shown when conda is missing, for the operating system `os`
/// (as `std::env::consts::OS` names it).
pub open spec fn spec_missing_conda_guidance(os: Seq<char>) -> Seq<char> {
    guidance_intro() + if os == "macos"@ || os == "linux"@ {
        guidance_unix()
    } else if os == "windows"@ {
        guidance_windows()
    } else {
        guidance_other()
    }
}

/// The guidance shown when `conda --version` cannot be run: Miniforge, with
/// the install steps for the operating system `os`.
pub fn missing_conda_guidance(os: &str) -> (message: String)
    ensures
        message@ == spec_missing_conda_guidance(os@),
{
    let mut message = "failed to run `conda --version`; `conda` does not appear to be installed or on PATH.\n\nRecommended installer: Miniforge from conda-forge.\n".to_owned();
    if str_eq(os, "macos") || str_eq(os, "linux") {
        message.append(
            "Official quick install commands:\n  curl -L -O \"https://github.com/conda-forge/miniforge/releases/latest/download/Miniforge3-$(uname)-$(uname -m).sh\"\n  bash Miniforge3-$(uname)-$(uname -m).sh\n  ~/miniforge3/bin/conda init\n  exec $SHELL\n  conda --version\n",
        );
    } else if str_eq(os, "windows") {
        message.append(
            "Official download page:\n  https://conda-forge.org/download/\nOfficial silent install command after downloading the installer:\n  start /wait \"\" Miniforge3-Windows-x86_64.exe /InstallationType=JustMe /RegisterPython=0 /S /D=%UserProfile%\\Miniforge3\nThen open a new shell and run:\n  conda --version\n",
        );
    } else {
        message.append(
            "Official download page:\n  https://conda-forge.org/download/\nAfter installing, open a new shell and run:\n  conda --version\n",
        );
    }
    message
}

/// The first trimmed line that is not empty.
pub open spec fn first_non_empty(ls: Seq<Seq<char>>) -> Option<Seq<char>>
    decreases ls.len(),
{
    if ls.len() == 0 {
        None
    } else if trim(ls[0]).len() > 0 {
        Some(trim(ls[0]))
    } else {
        first_non_empty(ls.drop_first())
    }
}

/// The first non-empty line of some command output, trimmed.
pub open spec fn spec_first_non_empty_line(bytes: Seq<u8>) -> Option<Seq<char>> {
    first_non_empty(lines(utf8_lossy(bytes)))
}

/// The first non-empty line of some command output (decoded leniently),
/// trimmed.
pub fn first_non_empty_line(bytes: &[u8]) -> (r: Option<String>)
    ensures
        match r {
            Some(s) => spec_first_non_empty_line(bytes@) == Some(s@),
            None => spec_first_non_empty_line(bytes@) is None,
        },
{
    let text = string_from_utf8_lossy(bytes);
    let v = chars_of(text.as_str());
    let len = v.len();
    let mut pos: usize = 0;
    assert(v@.subrange(0, len as int) =~= v@);
    loop
        invariant
            pos <= len,
            len == v@.len(),
            spec_first_non_empty_line(bytes@) == first_non_empty(
                split(v@.subrange(pos as int, len as int), '\n'),
            ),
        decreases len - pos,
    {
        let next = char_index_in(&v, pos, len, '\n');
        proof {
            lemma_split_step(v@, pos as int, len as int, '\n');
        }
        let end = match next {
            Some(k) => k,
            None => len,
        };
        let (a, b) = trim_range(&v, pos, end, TrimPattern::Whitespace);
        if a < b {
            return Some(string_from_range(&v, a, b));
        }
        match next {
            Some(k) => {
                let ghost rest = split(v@.subrange(k + 1, len as int), '\n');
                assert((seq![v@.subrange(pos as int, k as int)] + rest).drop_first() =~= rest);
                pos = k + 1;
            },
            None => {
                assert(seq![v@.subrange(pos as int, len as int)].drop_first() =~= Seq::<
                    Seq<char>,
                >::empty());
                assert(first_non_empty(Seq::<Seq<char>>::empty()) is None);
                return None;
            },
        }
    }
}

/// The version line reported for conda: the first non-empty line of its
/// standard output, else of its standard error, else `conda <unknown>`.
pub fn conda_version_line(stdout: &[u8], stderr: &[u8]) -> (line: String)
    ensures
        line@ == match spec_first_non_empty_line(stdout@) {
            Some(l) => l,
            None => match spec_first_non_empty_line(stderr@) {
                Some(l) => l,
                None => "conda <unknown>"@,
            },
        },
{
    match first_non_empty_line(stdout) {
        Some(line) => line,
        None => match first_non_empty_line(stderr) {
            Some(line) => line,
            None => "conda <unknown>".to_owned(),
        },
    }
}

/// The error reported when `conda --version` ran but failed: both of its
/// outputs, decoded leniently.
pub fn conda_failure_message(stdout: &[u8], stderr: &[u8]) -> (message: String)
    ensures
        message@ == "`conda --version` failed.\nstdout:\n"@ + utf8_lossy(stdout@)
            + "\n\nstderr:\n"@ + utf8_lossy(stderr@),
{
    let mut message = "`conda --version` failed.\nstdout:\n".to_owned();
    message.append(string_from_utf8_lossy(stdout).as_str());
    message.append("\n\nstderr:\n");
    message.append(string_from_utf8_lossy(stderr).as_str());
    message
}

/// The error reported when a directory holds none of `pyproject.toml`,
/// `setup.py` and `requirements.txt`.
pub fn missing_marker_message(project_root: &str) -> (message: String)
    ensures
        message@ == "`"@ + project_root@
            + "` does not contain a supported project marker (`pyproject.toml`, `setup.py`, or `requirements.txt`)"@,
{
    let mut message = "`".to_owned();
    message.append(project_root);
    message.append(
        "` does not contain a supported project marker (`pyproject.toml`, `setup.py`, or `requirements.txt`)",
    );
    message
}

} // verus!
