//! Project metadata: the package name, console scripts and Python request of
//! a uv-managed project, taken from `[project]`, `[tool.poetry]` or a
//! `setup.py`, with the Python request overridden by the command line, a
//! `.python-version` file or the project's `.venv`.

use vstd::prelude::*;
use crate::scripts::ScriptTable;
use crate::text::{
    TrimPattern, char_index_in, chars_of, find, find_in, index_of, join, join_path,
    lemma_split_step, lines, split, starts_with, starts_with_in, string_from_range, trim, trim_by,
    trim_range, str_eq,
};

verus! {

// ---------------------------------------------------------------------------
// Reading a `.python-version` file
// ---------------------------------------------------------------------------

/// The first trimmed line that is neither empty nor a `#` comment.
pub open spec fn first_request_line(ls: Seq<Seq<char>>) -> Option<Seq<char>>
    decreases ls.len(),
{
    if ls.len() == 0 {
        None
    } else {
        let t = trim(ls[0]);
        if t.len() > 0 && t[0] != '#' {
            Some(t)
        } else {
            first_request_line(ls.drop_first())
        }
    }
}

/// The Python request a `.python-version` file holds.
pub open spec fn spec_python_version_request(contents: Seq<char>) -> Option<Seq<char>> {
    first_request_line(lines(contents))
}

/// The Python request in the contents of a `.python-version` file: its first
/// trimmed line that is neither empty nor a `#` comment.
pub fn python_version_request(contents: &str) -> (r: Option<String>)
    ensures
        match r {
            Some(s) => spec_python_version_request(contents@) == Some(s@),
            None => spec_python_version_request(contents@) is None,
        },
{
    let v = chars_of(contents);
    let len = v.len();
    let mut pos: usize = 0;
    assert(v@.subrange(0, len as int) =~= v@);
    loop
        invariant
            pos <= len,
            len == v@.len(),
            v@ == contents@,
            spec_python_version_request(contents@) == first_request_line(
                split(v@.subrange(pos as int, len as int), '\n'),
            ),
        decreases len - pos,
    {
        let next = char_index_in(&v, pos, len, '\n');
        proof {
            lemma_split_step(v@, pos as int, len as int, '\n');
        }
        let end = match next {
            Some(k) => k,
            None => len,
        };
        let (a, b) = trim_range(&v, pos, end, TrimPattern::Whitespace);
        if a < b && v[a] != '#' {
            return Some(string_from_range(&v, a, b));
        }
        match next {
            Some(k) => {
                let ghost rest = split(v@.subrange(k + 1, len as int), '\n');
                assert((seq![v@.subrange(pos as int, k as int)] + rest).drop_first() =~= rest);
                pos = k + 1;
            },
            None => {
                assert(seq![v@.subrange(pos as int, len as int)].drop_first() =~= Seq::<
                    Seq<char>,
                >::empty());
                assert(first_request_line(Seq::<Seq<char>>::empty()) is None);
                return None;
            },
        }
    }
}

// ---------------------------------------------------------------------------
// Reading a `.venv/pyvenv.cfg` file
// ---------------------------------------------------------------------------

/// The version a trimmed `pyvenv.cfg` line declares: the trimmed rest of a
/// line that begins with `version_info =` or else `version =`, when it is not
/// empty.
pub open spec fn venv_line_version(t: Seq<char>) -> Option<Seq<char>> {
    let rest = if starts_with(t, "version_info ="@) {
        Some(t.skip("version_info ="@.len() as int))
    } else if starts_with(t, "version ="@) {
        Some(t.skip("version ="@.len() as int))
    } else {
        None
    };
    match rest {
        Some(r) => if trim(r).len() > 0 {
            Some(trim(r))
        } else {
            None
        },
        None => None,
    }
}

/// The version the first declaring line declares.
pub open spec fn first_venv_version(ls: Seq<Seq<char>>) -> Option<Seq<char>>
    decreases ls.len(),
{
    if ls.len() == 0 {
        None
    } else {
        match venv_line_version(trim(ls[0])) {
            Some(v) => Some(v),
            None => first_venv_version(ls.drop_first()),
        }
    }
}

/// The Python version a `pyvenv.cfg` file declares.
pub open spec fn spec_venv_python_version(contents: Seq<char>) -> Option<Seq<char>> {
    first_venv_version(lines(contents))
}

/// The Python version in the contents of a `.venv/pyvenv.cfg` file: the first
/// non-empty value of a `version_info =` or `version =` line.
pub fn venv_python_version(contents: &str) -> (r: Option<String>)
    ensures
        match r {
            Some(s) => spec_venv_python_version(contents@) == Some(s@),
            None => spec_venv_python_version(contents@) is None,
        },
{
    let v = chars_of(contents);
    let long_key = chars_of("version_info =");
    let short_key = chars_of("version =");
    let len = v.len();
    let mut pos: usize = 0;
    assert(v@.subrange(0, len as int) =~= v@);
    loop
        invariant
            pos <= len,
            len == v@.len(),
            v@ == contents@,
            long_key@ == "version_info ="@,
            short_key@ == "version ="@,
            spec_venv_python_version(contents@) == first_venv_version(
                split(v@.subrange(pos as int, len as int), '\n'),
            ),
        decreases len - pos,
    {
        let next = char_index_in(&v, pos, len, '\n');
        proof {
            lemma_split_step(v@, pos as int, len as int, '\n');
        }
        let end = match next {
            Some(k) => k,
            None => len,
        };
        let (a, b) = trim_range(&v, pos, end, TrimPattern::Whitespace);
        let ghost t = v@.subrange(a as int, b as int);
        let rest_start = if starts_with_in(&v, a, b, &long_key) {
            Some(a + long_key.len())
        } else if starts_with_in(&v, a, b, &short_key) {
            Some(a + short_key.len())
        } else {
            None
        };
        if let Some(rs) = rest_start {
            assert(t.skip(rs - a) =~= v@.subrange(rs as int, b as int));
            let (c, d) = trim_range(&v, rs, b, TrimPattern::Whitespace);
            if c < d {
                return Some(string_from_range(&v, c, d));
            }
        }
        match next {
            Some(k) => {
                let ghost rest = split(v@.subrange(k + 1, len as int), '\n');
                assert((seq![v@.subrange(pos as int, k as int)] + rest).drop_first() =~= rest);
                pos = k + 1;
            },
            None => {
                assert(seq![v@.subrange(pos as int, len as int)].drop_first() =~= Seq::<
                    Seq<char>,
                >::empty());
                assert(first_venv_version(Seq::<Seq<char>>::empty()) is None);
                return None;
            },
        }
    }
}


// ---------------------------------------------------------------------------
// Reading a `setup.py`
// ---------------------------------------------------------------------------

/// The value of `key=<q>...<q>` in `contents`, for the first occurrence of
/// `key=<q>`, when a closing `q` follows it.
pub open spec fn keyword_value_quoted(contents: Seq<char>, key: Seq<char>, q: char) -> Option<
    Seq<char>,
> {
    let pattern = key + seq!['=', q];
    match find(contents, pattern) {
        Some(start) => {
            let value_start = start + pattern.len();
            match index_of(contents.subrange(value_start, contents.len() as int), q) {
                Some(end) => Some(contents.subrange(value_start, value_start + end)),
                None => None,
            }
        },
        None => None,
    }
}

/// The string value of keyword `key` in a `setup.py`: tried with double
/// quotes, then with single quotes.
pub open spec fn spec_setup_keyword_string(contents: Seq<char>, key: Seq<char>) -> Option<
    Seq<char>,
> {
    match keyword_value_quoted(contents, key, '"') {
        Some(v) => Some(v),
        None => keyword_value_quoted(contents, key, '\''),
    }
}

fn keyword_value_quoted_exec(v: &Vec<char>, key: &str, q: char) -> (r: Option<String>)
    ensures
        match r {
            Some(s) => keyword_value_quoted(v@, key@, q) == Some(s@),
            None => keyword_value_quoted(v@, key@, q) is None,
        },
{
    let len = v.len();
    let mut pattern = chars_of(key);
    pattern.push('=');
    pattern.push(q);
    assert(pattern@ =~= key@ + seq!['=', q]);
    assert(v@.subrange(0, len as int) =~= v@);
    match find_in(v, 0, len, &pattern) {
        Some(start) => {
            proof {
                crate::text::lemma_find(v@, pattern@);
            }
            assert(find(v@, key@ + seq!['=', q]) == Some(start as int));
            let value_start = start + pattern.len();
            match char_index_in(v, value_start, len, q) {
                Some(end) => Some(string_from_range(v, value_start, end)),
                None => None,
            }
        },
        None => None,
    }
}

/// The string value of keyword `key` in the contents of a `setup.py`
/// (`key="value"`, or else `key='value'`).
pub fn extract_setup_keyword_string(contents: &str, key: &str) -> (r: Option<String>)
    ensures
        match r {
            Some(s) => spec_setup_keyword_string(contents@, key@) == Some(s@),
            None => spec_setup_keyword_string(contents@, key@) is None,
        },
{
    let v = chars_of(contents);
    match keyword_value_quoted_exec(&v, key, '"') {
        Some(s) => Some(s),
        None => keyword_value_quoted_exec(&v, key, '\''),
    }
}

/// The text between the `[` that follows the first `console_scripts` and the
/// next `]`.
pub open spec fn console_scripts_body(c: Seq<char>) -> Option<Seq<char>> {
    match find(c, "console_scripts"@) {
        Some(s) => match index_of(c.subrange(s, c.len() as int), '[') {
            Some(o) => {
                let list_start = s + o + 1;
                match index_of(c.subrange(list_start, c.len() as int), ']') {
                    Some(e) => Some(c.subrange(list_start, list_start + e)),
                    None => None,
                }
            },
            None => None,
        },
        None => None,
    }
}

/// The script a `name = target` list entry declares: the entry is trimmed,
/// stripped of double and then single quotes, split at its first `=`, and both
/// sides trimmed; entries with an empty side declare nothing.
pub open spec fn script_entry(raw: Seq<char>) -> Option<(Seq<char>, Seq<char>)> {
    let entry = trim_by(trim_by(trim(raw), TrimPattern::Char('"')), TrimPattern::Char('\''));
    match index_of(entry, '=') {
        Some(i) => {
            let name = trim(entry.subrange(0, i));
            let target = trim(entry.subrange(i + 1, entry.len() as int));
            if name.len() > 0 && target.len() > 0 {
                Some((name, target))
            } else {
                None
            }
        },
        None => None,
    }
}

/// The scripts that a sequence of list entries declares, a later entry for
/// the same name replacing an earlier one.
pub open spec fn scripts_from_entries(entries: Seq<Seq<char>>) -> Map<Seq<char>, Seq<char>>
    decreases entries.len(),
{
    if entries.len() == 0 {
        Map::empty()
    } else {
        let m = scripts_from_entries(entries.drop_last());
        match script_entry(entries.last()) {
            Some((n, t)) => m.insert(n, t),
            None => m,
        }
    }
}

/// The console scripts that a `setup.py` declares.
pub open spec fn spec_console_scripts(contents: Seq<char>) -> Map<Seq<char>, Seq<char>> {
    match console_scripts_body(contents) {
        Some(body) => scripts_from_entries(split(body, ',')),
        None => Map::empty(),
    }
}

/// The scripts of a `setup.py` are those of the list that opens at the first
/// `[` after the first `console_scripts` and closes at the next `]`, whatever
/// lists come before `console_scripts`: for contents
/// `p + "console_scripts" + q + "[" + body + "]" + r` whose first
/// `console_scripts` is the one after `p`, with no `[` in `q` and no `]` in
/// `body`, they are the scripts of the comma-separated entries of `body`.
pub proof fn lemma_console_scripts_list(
    p: Seq<char>,
    q: Seq<char>,
    body: Seq<char>,
    r: Seq<char>,
)
    requires
        find(p + "console_scripts"@ + q + seq!['['] + body + seq![']'] + r, "console_scripts"@)
            == Some(p.len() as int),
        !q.contains('['),
        !body.contains(']'),
    ensures
        spec_console_scripts(p + "console_scripts"@ + q + seq!['['] + body + seq![']'] + r)
            == scripts_from_entries(split(body, ',')),
{
    reveal_strlit("console_scripts");
    let k = "console_scripts"@;
    let c = p + k + q + seq!['['] + body + seq![']'] + r;
    let s = p.len() as int;
    let after = c.subrange(s, c.len() as int);
    let o = (k.len() + q.len()) as int;
    assert(after[o] == '[');
    assert forall|j: int| 0 <= j < o implies after[j] != '[' by {
        if j < k.len() {
            assert(after[j] == k[j]);
        } else {
            assert(after[j] == q[j - k.len()]);
        }
    }
    crate::text::lemma_index_of_found(after, '[', o);
    let list_start = s + o + 1;
    let tail = c.subrange(list_start, c.len() as int);
    assert(tail[body.len() as int] == ']');
    assert forall|j: int| 0 <= j < body.len() implies tail[j] != ']' by {
        assert(tail[j] == body[j]);
    }
    crate::text::lemma_index_of_found(tail, ']', body.len() as int);
    assert(c.subrange(list_start, list_start + body.len()) =~= body);
}

/// Adds the script that the list entry `v[from..to]` declares, if any.
fn add_script_entry(v: &Vec<char>, from: usize, to: usize, scripts: &mut ScriptTable)
    requires
        from <= to <= v@.len(),
    ensures
        final(scripts)@ == match script_entry(v@.subrange(from as int, to as int)) {
            Some((n, t)) => old(scripts)@.insert(n, t),
            None => old(scripts)@,
        },
{
    let ghost piece = v@.subrange(from as int, to as int);
    let (a0, b0) = trim_range(v, from, to, TrimPattern::Whitespace);
    let (a1, b1) = trim_range(v, a0, b0, TrimPattern::Char('"'));
    let (a, b) = trim_range(v, a1, b1, TrimPattern::Char('\''));
    let ghost entry = v@.subrange(a as int, b as int);
    assert(entry == trim_by(trim_by(trim(piece), TrimPattern::Char('"')), TrimPattern::Char('\'')));
    if let Some(q) = char_index_in(v, a, b, '=') {
        let (na, nb) = trim_range(v, a, q, TrimPattern::Whitespace);
        let (ta, tb) = trim_range(v, q + 1, b, TrimPattern::Whitespace);
        assert(entry.subrange(0, q - a) =~= v@.subrange(a as int, q as int));
        assert(entry.subrange(q - a + 1, entry.len() as int) =~= v@.subrange(q + 1, b as int));
        if na < nb && ta < tb {
            let name = string_from_range(v, na, nb);
            let target = string_from_range(v, ta, tb);
            scripts.insert(name, target);
        }
    }
}

/// The console scripts declared in the contents of a `setup.py`: the
/// comma-separated `name = target` entries of the list after
/// `console_scripts`.
pub fn extract_console_scripts(contents: &str) -> (scripts: ScriptTable)
    ensures
        scripts@ == spec_console_scripts(contents@),
{
    let v = chars_of(contents);
    let len = v.len();
    let marker = chars_of("console_scripts");
    assert(v@.subrange(0, len as int) =~= v@);
    assert(marker@ == "console_scripts"@);
    let start = match find_in(&v, 0, len, &marker) {
        Some(s) => s,
        None => {
            assert(find(contents@, "console_scripts"@) is None);
            assert(console_scripts_body(contents@) is None);
            return ScriptTable::new();
        },
    };
    assert(find(contents@, "console_scripts"@) == Some(start as int));
    proof {
        crate::text::lemma_find(v@, marker@);
    }
    let open = match char_index_in(&v, start, len, '[') {
        Some(o) => o,
        None => {
            return ScriptTable::new();
        },
    };
    let list_start = open + 1;
    let list_end = match char_index_in(&v, list_start, len, ']') {
        Some(e) => e,
        None => {
            return ScriptTable::new();
        },
    };
    let ghost body = v@.subrange(list_start as int, list_end as int);
    assert(console_scripts_body(contents@) == Some(body));
    let mut scripts = ScriptTable::new();
    let ghost mut done: Seq<Seq<char>> = Seq::empty();
    let mut pos = list_start;
    assert(v@.subrange(list_start as int, list_end as int) =~= body);
    assert(split(body, ',') =~= done + split(v@.subrange(pos as int, list_end as int), ','));
    loop
        invariant
            list_start <= pos <= list_end <= len,
            len == v@.len(),
            body == v@.subrange(list_start as int, list_end as int),
            console_scripts_body(contents@) == Some(body),
            split(body, ',') == done + split(v@.subrange(pos as int, list_end as int), ','),
            scripts@ == scripts_from_entries(done),
        decreases list_end - pos,
    {
        let next = char_index_in(&v, pos, list_end, ',');
        proof {
            lemma_split_step(v@, pos as int, list_end as int, ',');
        }
        let end = match next {
            Some(k) => k,
            None => list_end,
        };
        let ghost piece = v@.subrange(pos as int, end as int);
        let ghost old_scripts = scripts@;
        add_script_entry(&v, pos, end, &mut scripts);
        assert(done.push(piece).drop_last() =~= done);
        match next {
            Some(k) => {
                let ghost rest = split(v@.subrange(k + 1, list_end as int), ',');
                assert(done + (seq![piece] + rest) =~= done.push(piece) + rest);
                proof {
                    done = done.push(piece);
                }
                pos = k + 1;
            },
            None => {
                assert(done + seq![piece] =~= done.push(piece));
                assert(split(body, ',') == done.push(piece));
                assert(done.push(piece).last() == piece);
                assert(scripts@ == scripts_from_entries(done.push(piece)));
                return scripts;
            },
        }
    }
}


// ---------------------------------------------------------------------------
// Project metadata
// ---------------------------------------------------------------------------

/// Where a Python request came from.
#[derive(Debug, Clone, Copy, PartialEq, Eq, Structural)]
pub enum PythonRequestSource {
    Override,
    DotPythonVersion,
    DotVenv,
    RequiresPython,
    PoetryDependency,
    SetupPyPythonRequires,
}

/// The Python version request handed to conda, with its source.
#[derive(Debug, Clone, PartialEq, Eq)]
pub struct PythonRequest {
    pub value: String,
    pub source: PythonRequestSource,
}

/// The contents of an optional Python request.
pub open spec fn request_view(r: Option<PythonRequest>) -> Option<(Seq<char>, PythonRequestSource)> {
    match r {
        Some(q) => Some((q.value@, q.source)),
        None => None,
    }
}

/// Which part of the project declared its metadata.
#[derive(Debug, Clone, Copy, PartialEq, Eq, Structural)]
pub enum ProjectMetadataSource {
    Pep621Project,
    Poetry,
    SetupPy,
}

impl ProjectMetadataSource {
    pub open spec fn spec_description(self) -> Seq<char> {
        match self {
            ProjectMetadataSource::Pep621Project => "[project] in pyproject.toml"@,
            ProjectMetadataSource::Poetry => "[tool.poetry] in pyproject.toml"@,
            ProjectMetadataSource::SetupPy => "setup.py fallback"@,
        }
    }

    /// A description of this source for people.
    pub fn description(self) -> (s: &'static str)
        ensures
            s@ == self.spec_description(),
    {
        match self {
            ProjectMetadataSource::Pep621Project => "[project] in pyproject.toml",
            ProjectMetadataSource::Poetry => "[tool.poetry] in pyproject.toml",
            ProjectMetadataSource::SetupPy => "setup.py fallback",
        }
    }
}

/// What a project declares.
#[derive(Debug, Clone)]
pub struct ProjectMetadata {
    pub project_root: String,
    pub package_name: String,
    pub project_scripts: ScriptTable,
    pub python_request: Option<PythonRequest>,
    pub uv_lock_present: bool,
    pub metadata_source: ProjectMetadataSource,
}

/// The contents of a `ProjectMetadata`.
pub struct ProjectMetadataView {
    pub project_root: Seq<char>,
    pub package_name: Seq<char>,
    pub project_scripts: Map<Seq<char>, Seq<char>>,
    pub python_request: Option<(Seq<char>, PythonRequestSource)>,
    pub uv_lock_present: bool,
    pub metadata_source: ProjectMetadataSource,
}

impl View for ProjectMetadata {
    type V = ProjectMetadataView;

    open spec fn view(&self) -> ProjectMetadataView {
        ProjectMetadataView {
            project_root: self.project_root@,
            package_name: self.package_name@,
            project_scripts: self.project_scripts@,
            python_request: request_view(self.python_request),
            uv_lock_present: self.uv_lock_present,
            metadata_source: self.metadata_source,
        }
    }
}

/// A file of the project as it was found on disk.
#[derive(Debug, Clone)]
pub enum SourceFile {
    /// There is no such file.
    Missing,
    /// The file is there but could not be read as text; the read error's text.
    Unreadable(String),
    /// The file's contents.
    Text(String),
}

/// The `[project]` table of `pyproject.toml`.
#[derive(Debug, Clone)]
pub struct ProjectSection {
    pub name: String,
    pub requires_python: Option<String>,
    pub scripts: ScriptTable,
}

/// A value in `[tool.poetry.dependencies]`: a string, or something else (a
/// table, an array, ...).
#[derive(Debug, Clone)]
pub enum DependencyValue {
    Text(String),
    Other,
}

impl DependencyValue {
    /// The value when it is a string.
    pub fn as_text(&self) -> (r: Option<String>)
        ensures
            match self {
                DependencyValue::Text(s) => r matches Some(t) && t@ == s@,
                DependencyValue::Other => r is None,
            },
    {
        match self {
            DependencyValue::Text(s) => Some(s.clone()),
            DependencyValue::Other => None,
        }
    }
}

/// The `[tool.poetry]` table of `pyproject.toml`.
#[derive(Debug, Clone)]
pub struct PoetrySection {
    pub name: String,
    pub scripts: ScriptTable,
    /// The dependencies, one entry per name.
    pub dependencies: Option<Vec<(String, DependencyValue)>>,
}

/// The parts of `pyproject.toml` that metadata is read from.
#[derive(Debug, Clone)]
pub struct PyProjectManifest {
    pub project: Option<ProjectSection>,
    pub poetry: Option<PoetrySection>,
}

/// What was found in a project directory besides `pyproject.toml`.
#[derive(Debug, Clone)]
pub struct ProjectFiles {
    pub uv_lock_present: bool,
    pub setup_py: SourceFile,
    pub python_version_file: SourceFile,
    pub venv_config: SourceFile,
}

/// Why project metadata could not be resolved.
#[derive(Debug, Clone, PartialEq, Eq)]
pub enum ProjectError {
    /// A file could not be read; the read error's text.
    Read(String),
    /// `.python-version` (at the path given) holds no request.
    EmptyPythonVersionFile(String),
    /// `.venv/pyvenv.cfg` (at the path given) declares no version.
    MissingVenvPythonVersion(String),
    /// `pyproject.toml` (at the path given) has no supported metadata and no
    /// parseable `setup.py` is beside it.
    MissingMetadata(String),
}

/// The contents of a `ProjectError`.
pub enum ProjectFailure {
    Read(Seq<char>),
    EmptyPythonVersionFile(Seq<char>),
    MissingVenvPythonVersion(Seq<char>),
    MissingMetadata(Seq<char>),
}

impl View for ProjectError {
    type V = ProjectFailure;

    open spec fn view(&self) -> ProjectFailure {
        match self {
            ProjectError::Read(m) => ProjectFailure::Read(m@),
            ProjectError::EmptyPythonVersionFile(p) => ProjectFailure::EmptyPythonVersionFile(p@),
            ProjectError::MissingVenvPythonVersion(p) => ProjectFailure::MissingVenvPythonVersion(p@),
            ProjectError::MissingMetadata(p) => ProjectFailure::MissingMetadata(p@),
        }
    }
}

impl ProjectError {
    /// The message shown for this error.
    pub open spec fn spec_message(self) -> Seq<char> {
        match self {
            ProjectError::Read(m) => m@,
            ProjectError::EmptyPythonVersionFile(p) => "`"@ + p@
                + "` exists but does not contain a Python request"@,
            ProjectError::MissingVenvPythonVersion(p) => "`"@ + p@
                + "` exists but does not declare a Python version"@,
            ProjectError::MissingMetadata(p) => "`"@ + p@
                + "` is missing supported project metadata; expected `[project]`, `[tool.poetry]`, or a parseable `setup.py`"@,
        }
    }

    pub fn to_string(&self) -> (s: String)
        ensures
            s@ == self.spec_message(),
    {
        match self {
            ProjectError::Read(m) => m.clone(),
            ProjectError::EmptyPythonVersionFile(p) => {
                let mut s = "`".to_owned();
                s.append(p.as_str());
                s.append("` exists but does not contain a Python request");
                s
            },
            ProjectError::MissingVenvPythonVersion(p) => {
                let mut s = "`".to_owned();
                s.append(p.as_str());
                s.append("` exists but does not declare a Python version");
                s
            },
            ProjectError::MissingMetadata(p) => {
                let mut s = "`".to_owned();
                s.append(p.as_str());
                s.append(
                    "` is missing supported project metadata; expected `[project]`, `[tool.poetry]`, or a parseable `setup.py`",
                );
                s
            },
        }
    }
}

/// The path of the project's `.python-version` file.
pub open spec fn python_version_path(root: Seq<char>) -> Seq<char> {
    join_path(root, ".python-version"@)
}

/// The path of the project's `.venv/pyvenv.cfg` file.
pub open spec fn venv_config_path(root: Seq<char>) -> Seq<char> {
    join_path(join_path(root, ".venv"@), "pyvenv.cfg"@)
}

/// The path of the project's `pyproject.toml`.
pub open spec fn manifest_path(root: Seq<char>) -> Seq<char> {
    join_path(root, "pyproject.toml"@)
}

/// The Python request that `.python-version` gives, if the file is there.
pub open spec fn spec_read_python_version_file(root: Seq<char>, f: SourceFile) -> Result<
    Option<Seq<char>>,
    ProjectFailure,
> {
    match f {
        SourceFile::Missing => Ok(None),
        SourceFile::Unreadable(m) => Err(ProjectFailure::Read(m@)),
        SourceFile::Text(c) => match spec_python_version_request(c@) {
            Some(r) => Ok(Some(r)),
            None => Err(ProjectFailure::EmptyPythonVersionFile(python_version_path(root))),
        },
    }
}

/// The Python version that `.venv/pyvenv.cfg` declares, if the file is there.
pub open spec fn spec_read_venv_python_version(root: Seq<char>, f: SourceFile) -> Result<
    Option<Seq<char>>,
    ProjectFailure,
> {
    match f {
        SourceFile::Missing => Ok(None),
        SourceFile::Unreadable(m) => Err(ProjectFailure::Read(m@)),
        SourceFile::Text(c) => match spec_venv_python_version(c@) {
            Some(v) => Ok(Some(v)),
            None => Err(ProjectFailure::MissingVenvPythonVersion(venv_config_path(root))),
        },
    }
}

/// The Python request: the override, else `.python-version`, else
/// `.venv/pyvenv.cfg`, else what the manifest declares. A file that is there
/// but gives no request is an error.
pub open spec fn spec_resolve_python_request(
    root: Seq<char>,
    python_override: Option<Seq<char>>,
    python_version_file: SourceFile,
    venv_config: SourceFile,
    manifest_request: Option<(Seq<char>, PythonRequestSource)>,
) -> Result<Option<(Seq<char>, PythonRequestSource)>, ProjectFailure> {
    match python_override {
        Some(v) => Ok(Some((v, PythonRequestSource::Override))),
        None => match spec_read_python_version_file(root, python_version_file) {
            Err(e) => Err(e),
            Ok(Some(v)) => Ok(Some((v, PythonRequestSource::DotPythonVersion))),
            Ok(None) => match spec_read_venv_python_version(root, venv_config) {
                Err(e) => Err(e),
                Ok(Some(v)) => Ok(Some((v, PythonRequestSource::DotVenv))),
                Ok(None) => Ok(manifest_request),
            },
        },
    }
}

/// The view of an optional borrowed string.
pub open spec fn opt_str_view(o: Option<&str>) -> Option<Seq<char>> {
    match o {
        Some(s) => Some(s@),
        None => None,
    }
}

fn read_python_version_file(root: &str, f: &SourceFile) -> (r: Result<Option<String>, ProjectError>)
    ensures
        match r {
            Ok(Some(s)) => spec_read_python_version_file(root@, *f) == Ok::<
                Option<Seq<char>>,
                ProjectFailure,
            >(Some(s@)),
            Ok(None) => spec_read_python_version_file(root@, *f) == Ok::<
                Option<Seq<char>>,
                ProjectFailure,
            >(None),
            Err(e) => spec_read_python_version_file(root@, *f) == Err::<
                Option<Seq<char>>,
                ProjectFailure,
            >(e@),
        },
{
    match f {
        SourceFile::Missing => Ok(None),
        SourceFile::Unreadable(m) => Err(ProjectError::Read(m.clone())),
        SourceFile::Text(c) => match python_version_request(c.as_str()) {
            Some(r) => Ok(Some(r)),
            None => Err(ProjectError::EmptyPythonVersionFile(join(root, ".python-version"))),
        },
    }
}

fn read_project_venv_python_version(root: &str, f: &SourceFile) -> (r: Result<
    Option<String>,
    ProjectError,
>)
    ensures
        match r {
            Ok(Some(s)) => spec_read_venv_python_version(root@, *f) == Ok::<
                Option<Seq<char>>,
                ProjectFailure,
            >(Some(s@)),
            Ok(None) => spec_read_venv_python_version(root@, *f) == Ok::<
                Option<Seq<char>>,
                ProjectFailure,
            >(None),
            Err(e) => spec_read_venv_python_version(root@, *f) == Err::<
                Option<Seq<char>>,
                ProjectFailure,
            >(e@),
        },
{
    match f {
        SourceFile::Missing => Ok(None),
        SourceFile::Unreadable(m) => Err(ProjectError::Read(m.clone())),
        SourceFile::Text(c) => match venv_python_version(c.as_str()) {
            Some(v) => Ok(Some(v)),
            None => {
                let venv = join(root, ".venv");
                Err(ProjectError::MissingVenvPythonVersion(join(venv.as_str(), "pyvenv.cfg")))
            },
        },
    }
}

/// The Python request for a project rooted at `root`.
pub fn resolve_python_request(
    root: &str,
    python_override: Option<&str>,
    python_version_file: &SourceFile,
    venv_config: &SourceFile,
    manifest_request: Option<PythonRequest>,
) -> (r: Result<Option<PythonRequest>, ProjectError>)
    ensures
        match r {
            Ok(q) => spec_resolve_python_request(
                root@,
                opt_str_view(python_override),
                *python_version_file,
                *venv_config,
                request_view(manifest_request),
            ) == Ok::<Option<(Seq<char>, PythonRequestSource)>, ProjectFailure>(request_view(q)),
            Err(e) => spec_resolve_python_request(
                root@,
                opt_str_view(python_override),
                *python_version_file,
                *venv_config,
                request_view(manifest_request),
            ) == Err::<Option<(Seq<char>, PythonRequestSource)>, ProjectFailure>(e@),
        },
{
    if let Some(value) = python_override {
        return Ok(Some(PythonRequest { value: value.to_owned(), source: PythonRequestSource::Override }));
    }
    if let Some(value) = read_python_version_file(root, python_version_file)? {
        return Ok(Some(PythonRequest { value, source: PythonRequestSource::DotPythonVersion }));
    }
    if let Some(value) = read_project_venv_python_version(root, venv_config)? {
        return Ok(Some(PythonRequest { value, source: PythonRequestSource::DotVenv }));
    }
    Ok(manifest_request)
}


/// The metadata a `setup.py` declares.
#[derive(Debug, Clone)]
pub struct SetupPyMetadata {
    pub name: String,
    pub python_requires: Option<String>,
    pub scripts: ScriptTable,
}

/// What a `setup.py` declares: nothing when the file is missing or has no
/// `name`.
pub open spec fn spec_setup_py_metadata(f: SourceFile) -> Result<
    Option<(Seq<char>, Option<Seq<char>>, Map<Seq<char>, Seq<char>>)>,
    ProjectFailure,
> {
    match f {
        SourceFile::Missing => Ok(None),
        SourceFile::Unreadable(m) => Err(ProjectFailure::Read(m@)),
        SourceFile::Text(c) => match spec_setup_keyword_string(c@, "name"@) {
            None => Ok(None),
            Some(name) => Ok(
                Some(
                    (
                        name,
                        spec_setup_keyword_string(c@, "python_requires"@),
                        spec_console_scripts(c@),
                    ),
                ),
            ),
        },
    }
}

/// The metadata of a `setup.py`, read with the keyword and console-script
/// scanners.
pub fn load_setup_py_metadata(f: &SourceFile) -> (r: Result<Option<SetupPyMetadata>, ProjectError>)
    ensures
        match r {
            Ok(Some(m)) => spec_setup_py_metadata(*f) == Ok::<
                Option<(Seq<char>, Option<Seq<char>>, Map<Seq<char>, Seq<char>>)>,
                ProjectFailure,
            >(Some((m.name@, opt_string_view(m.python_requires), m.scripts@))),
            Ok(None) => spec_setup_py_metadata(*f) == Ok::<
                Option<(Seq<char>, Option<Seq<char>>, Map<Seq<char>, Seq<char>>)>,
                ProjectFailure,
            >(None),
            Err(e) => spec_setup_py_metadata(*f) == Err::<
                Option<(Seq<char>, Option<Seq<char>>, Map<Seq<char>, Seq<char>>)>,
                ProjectFailure,
            >(e@),
        },
{
    let contents = match f {
        SourceFile::Missing => {
            return Ok(None);
        },
        SourceFile::Unreadable(m) => {
            return Err(ProjectError::Read(m.clone()));
        },
        SourceFile::Text(c) => c,
    };
    let name = extract_setup_keyword_string(contents.as_str(), "name");
    let python_requires = extract_setup_keyword_string(contents.as_str(), "python_requires");
    let scripts = extract_console_scripts(contents.as_str());
    match name {
        Some(name) => Ok(Some(SetupPyMetadata { name, python_requires, scripts })),
        None => Ok(None),
    }
}

/// The view of an optional string.
pub open spec fn opt_string_view(o: Option<String>) -> Option<Seq<char>> {
    match o {
        Some(s) => Some(s@),
        None => None,
    }
}

/// The `python` entry of Poetry's dependencies, when it is a string.
pub open spec fn spec_poetry_python(deps: Seq<(String, DependencyValue)>) -> Option<Seq<char>>
    decreases deps.len(),
{
    if deps.len() == 0 {
        None
    } else if deps[0].0@ == "python"@ {
        match deps[0].1 {
            DependencyValue::Text(s) => Some(s@),
            DependencyValue::Other => None,
        }
    } else {
        spec_poetry_python(deps.drop_first())
    }
}

/// The Python request that Poetry's `python` dependency makes.
pub open spec fn spec_poetry_python_requirement(deps: Option<Vec<(String, DependencyValue)>>) -> Option<
    (Seq<char>, PythonRequestSource),
> {
    match deps {
        Some(d) => match spec_poetry_python(d@) {
            Some(v) => Some((v, PythonRequestSource::PoetryDependency)),
            None => None,
        },
        None => None,
    }
}

/// The Python request that Poetry's dependencies make: the `python` entry,
/// when it is a string.
pub fn poetry_python_requirement(dependencies: &Option<Vec<(String, DependencyValue)>>) -> (r:
    Option<PythonRequest>)
    ensures
        request_view(r) == spec_poetry_python_requirement(*dependencies),
{
    let deps = match dependencies {
        Some(d) => d,
        None => {
            return None;
        },
    };
    let mut i: usize = 0;
    assert(deps@.skip(0) =~= deps@);
    while i < deps.len()
        invariant
            i <= deps@.len(),
            *dependencies == Some(*deps),
            spec_poetry_python(deps@) == spec_poetry_python(deps@.skip(i as int)),
        decreases deps@.len() - i,
    {
        assert(deps@.skip(i as int).drop_first() =~= deps@.skip(i + 1));
        assert(deps@.skip(i as int)[0] == deps@[i as int]);
        if str_eq(deps[i].0.as_str(), "python") {
            return match deps[i].1.as_text() {
                Some(value) => Some(PythonRequest { value, source: PythonRequestSource::PoetryDependency }),
                None => None,
            };
        }
        i = i + 1;
    }
    None
}

/// The metadata of the project rooted at `root`: `[project]` if
/// `pyproject.toml` has it, else `[tool.poetry]`, else a `setup.py` with a
/// `name`; the Python request as `spec_resolve_python_request` gives it.
pub open spec fn spec_project_metadata(
    root: Seq<char>,
    manifest: PyProjectManifest,
    files: ProjectFiles,
    python_override: Option<Seq<char>>,
) -> Result<ProjectMetadataView, ProjectFailure> {
    match manifest.project {
        Some(p) => match spec_resolve_python_request(
            root,
            python_override,
            files.python_version_file,
            files.venv_config,
            match p.requires_python {
                Some(v) => Some((v@, PythonRequestSource::RequiresPython)),
                None => None,
            },
        ) {
            Err(e) => Err(e),
            Ok(q) => Ok(
                ProjectMetadataView {
                    project_root: root,
                    package_name: p.name@,
                    project_scripts: p.scripts@,
                    python_request: q,
                    uv_lock_present: files.uv_lock_present,
                    metadata_source: ProjectMetadataSource::Pep621Project,
                },
            ),
        },
        None => match manifest.poetry {
            Some(p) => match spec_resolve_python_request(
                root,
                python_override,
                files.python_version_file,
                files.venv_config,
                spec_poetry_python_requirement(p.dependencies),
            ) {
                Err(e) => Err(e),
                Ok(q) => Ok(
                    ProjectMetadataView {
                        project_root: root,
                        package_name: p.name@,
                        project_scripts: p.scripts@,
                        python_request: q,
                        uv_lock_present: files.uv_lock_present,
                        metadata_source: ProjectMetadataSource::Poetry,
                    },
                ),
            },
            None => match spec_setup_py_metadata(files.setup_py) {
                Err(e) => Err(e),
                Ok(None) => Err(ProjectFailure::MissingMetadata(manifest_path(root))),
                Ok(Some((name, python_requires, scripts))) => match spec_resolve_python_request(
                    root,
                    python_override,
                    files.python_version_file,
                    files.venv_config,
                    match python_requires {
                        Some(v) => Some((v, PythonRequestSource::SetupPyPythonRequires)),
                        None => None,
                    },
                ) {
                    Err(e) => Err(e),
                    Ok(q) => Ok(
                        ProjectMetadataView {
                            project_root: root,
                            package_name: name,
                            project_scripts: scripts,
                            python_request: q,
                            uv_lock_present: files.uv_lock_present,
                            metadata_source: ProjectMetadataSource::SetupPy,
                        },
                    ),
                },
            },
        },
    }
}

/// The metadata of the project rooted at `project_root`, from its parsed
/// `pyproject.toml` and the other files found beside it.
pub fn resolve_project_metadata(
    project_root: &str,
    manifest: PyProjectManifest,
    files: ProjectFiles,
    python_override: Option<&str>,
) -> (r: Result<ProjectMetadata, ProjectError>)
    ensures
        match r {
            Ok(m) => spec_project_metadata(project_root@, manifest, files, opt_str_view(python_override))
                == Ok::<ProjectMetadataView, ProjectFailure>(m@),
            Err(e) => spec_project_metadata(
                project_root@,
                manifest,
                files,
                opt_str_view(python_override),
            ) == Err::<ProjectMetadataView, ProjectFailure>(e@),
        },
{
    let ghost old_manifest = manifest;
    if let Some(project) = manifest.project {
        let manifest_request = match project.requires_python {
            Some(value) => Some(PythonRequest { value, source: PythonRequestSource::RequiresPython }),
            None => None,
        };
        let python_request = resolve_python_request(
            project_root,
            python_override,
            &files.python_version_file,
            &files.venv_config,
            manifest_request,
        )?;
        return Ok(
            ProjectMetadata {
                project_root: project_root.to_owned(),
                package_name: project.name,
                project_scripts: project.scripts,
                python_request,
                uv_lock_present: files.uv_lock_present,
                metadata_source: ProjectMetadataSource::Pep621Project,
            },
        );
    }
    if let Some(poetry) = manifest.poetry {
        let python_request = resolve_python_request(
            project_root,
            python_override,
            &files.python_version_file,
            &files.venv_config,
            poetry_python_requirement(&poetry.dependencies),
        )?;
        return Ok(
            ProjectMetadata {
                project_root: project_root.to_owned(),
                package_name: poetry.name,
                project_scripts: poetry.scripts,
                python_request,
                uv_lock_present: files.uv_lock_present,
                metadata_source: ProjectMetadataSource::Poetry,
            },
        );
    }
    if let Some(setup) = load_setup_py_metadata(&files.setup_py)? {
        let manifest_request = match setup.python_requires {
            Some(value) => Some(
                PythonRequest { value, source: PythonRequestSource::SetupPyPythonRequires },
            ),
            None => None,
        };
        let python_request = resolve_python_request(
            project_root,
            python_override,
            &files.python_version_file,
            &files.venv_config,
            manifest_request,
        )?;
        return Ok(
            ProjectMetadata {
                project_root: project_root.to_owned(),
                package_name: setup.name,
                project_scripts: setup.scripts,
                python_request,
                uv_lock_present: files.uv_lock_present,
                metadata_source: ProjectMetadataSource::SetupPy,
            },
        );
    }
    Err(ProjectError::MissingMetadata(join(project_root, "pyproject.toml")))
}


/// The order in which a Python request is chosen: the override whatever the
/// files hold; else a readable `.python-version` with a request, whatever
/// `.venv` holds; else a readable `.venv/pyvenv.cfg` with a version; else the
/// manifest's request when neither file is there.
pub proof fn lemma_python_request_precedence(
    root: Seq<char>,
    python_override: Option<Seq<char>>,
    python_version_file: SourceFile,
    venv_config: SourceFile,
    manifest_request: Option<(Seq<char>, PythonRequestSource)>,
)
    ensures
        python_override matches Some(o) ==> spec_resolve_python_request(
            root,
            python_override,
            python_version_file,
            venv_config,
            manifest_request,
        ) == Ok::<Option<(Seq<char>, PythonRequestSource)>, ProjectFailure>(
            Some((o, PythonRequestSource::Override)),
        ),
        python_override is None ==> (python_version_file matches SourceFile::Text(c)
            ==> (spec_python_version_request(c@) matches Some(v) ==> spec_resolve_python_request(
            root,
            python_override,
            python_version_file,
            venv_config,
            manifest_request,
        ) == Ok::<Option<(Seq<char>, PythonRequestSource)>, ProjectFailure>(
            Some((v, PythonRequestSource::DotPythonVersion)),
        ))),
        python_override is None && python_version_file is Missing ==> (venv_config matches SourceFile::Text(
            c,
        ) ==> (spec_venv_python_version(c@) matches Some(v) ==> spec_resolve_python_request(
            root,
            python_override,
            python_version_file,
            venv_config,
            manifest_request,
        ) == Ok::<Option<(Seq<char>, PythonRequestSource)>, ProjectFailure>(
            Some((v, PythonRequestSource::DotVenv)),
        ))),
        python_override is None && python_version_file is Missing && venv_config is Missing
            ==> spec_resolve_python_request(
            root,
            python_override,
            python_version_file,
            venv_config,
            manifest_request,
        ) == Ok::<Option<(Seq<char>, PythonRequestSource)>, ProjectFailure>(manifest_request),
{
}

/// `[project]` is read when `pyproject.toml` has it, whatever `[tool.poetry]`
/// and `setup.py` hold; `[tool.poetry]` when there is no `[project]`,
/// whatever `setup.py` holds.
pub proof fn lemma_metadata_source_precedence(
    root: Seq<char>,
    manifest: PyProjectManifest,
    files: ProjectFiles,
    python_override: Option<Seq<char>>,
)
    ensures
        manifest.project matches Some(p) ==> match spec_project_metadata(root, manifest, files, python_override) {
            Ok(m) => m.metadata_source == ProjectMetadataSource::Pep621Project && m.package_name
                == p.name@ && m.project_scripts == p.scripts@,
            Err(_) => true,
        },
        manifest.project is None ==> (manifest.poetry matches Some(p) ==> match spec_project_metadata(
            root,
            manifest,
            files,
            python_override,
        ) {
            Ok(m) => m.metadata_source == ProjectMetadataSource::Poetry && m.package_name
                == p.name@ && m.project_scripts == p.scripts@,
            Err(_) => true,
        }),
        manifest.project is None && manifest.poetry is None && files.setup_py is Missing
            ==> spec_project_metadata(root, manifest, files, python_override) == Err::<
            ProjectMetadataView,
            ProjectFailure,
        >(ProjectFailure::MissingMetadata(manifest_path(root))),
{
}

/// With a `--python` override, the requested Python is the override, whichever
/// source (`[project]`, `[tool.poetry]` or `setup.py`) the metadata comes
/// from; the `.python-version` and `.venv/pyvenv.cfg` files are then not
/// consulted, so they cannot change the result; and a `pyproject.toml` with
/// `[project]` or `[tool.poetry]` always resolves.
pub proof fn lemma_python_override_wins(
    root: Seq<char>,
    manifest: PyProjectManifest,
    files: ProjectFiles,
    o: Seq<char>,
    other_python_version_file: SourceFile,
    other_venv_config: SourceFile,
)
    ensures
        spec_project_metadata(root, manifest, files, Some(o)) matches Ok(m) ==> m.python_request
            == Some((o, PythonRequestSource::Override)),
        spec_project_metadata(root, manifest, files, Some(o)) == spec_project_metadata(
            root,
            manifest,
            (ProjectFiles {
                uv_lock_present: files.uv_lock_present,
                setup_py: files.setup_py,
                python_version_file: other_python_version_file,
                venv_config: other_venv_config,
            }),
            Some(o),
        ),
        manifest.project is Some || manifest.poetry is Some ==> spec_project_metadata(
            root,
            manifest,
            files,
            Some(o),
        ) is Ok,
{
}

} // verus!
