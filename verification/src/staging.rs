//! The staged build: the conda and uv commands it runs, the launcher script
//! it writes into the staged tree, and where its artifacts go.

use vstd::prelude::*;
use crate::plan::BuildPlan;
use crate::project::{PythonRequest, PythonRequestSource};
use crate::text::{digits, format_digits, join, join_path};

verus! {

/// The strings of a list of strings.
pub open spec fn strings_view(v: Seq<String>) -> Seq<Seq<char>> {
    v.map_values(|s: String| s@)
}

/// Whether a Python requirement starts with a comparison operator.
pub open spec fn starts_with_operator(value: Seq<char>) -> bool {
    value.len() > 0 && (value[0] == '<' || value[0] == '>' || value[0] == '!' || value[0] == '='
        || value[0] == '~')
}

/// The conda package spec for Python: `python` when nothing is requested;
/// `python=<version>` for a pinned version (command line, `.python-version`,
/// `.venv`); for a requirement, `python<requirement>` when it starts with an
/// operator and `python=<requirement>` otherwise.
pub open spec fn spec_conda_python_spec(request: Option<(Seq<char>, PythonRequestSource)>) -> Seq<
    char,
> {
    match request {
        None => "python"@,
        Some((value, source)) => match source {
            PythonRequestSource::Override | PythonRequestSource::DotPythonVersion
            | PythonRequestSource::DotVenv => "python="@ + value,
            _ => if starts_with_operator(value) {
                "python"@ + value
            } else {
                "python="@ + value
            },
        },
    }
}

/// The conda spec for Python is `python` followed by the requested
/// constraint: a requirement (from `requires-python`, Poetry's `python`
/// dependency or `python_requires`) that already starts with one of `<`,
/// `>`, `!`, `=`, `~` is kept as it is; a pinned version (command line,
/// `.python-version`, `.venv`), or a requirement without such an operator,
/// gets `=` before it; no request gives bare `python`.
pub proof fn lemma_conda_python_spec(value: Seq<char>, source: PythonRequestSource)
    ensures
        spec_conda_python_spec(None) == "python"@,
        (source is RequiresPython || source is PoetryDependency || source is SetupPyPythonRequires)
            && value.len() > 0 && (value[0] == '<' || value[0] == '>' || value[0] == '!' || value[0]
            == '=' || value[0] == '~') ==> spec_conda_python_spec(Some((value, source))) == "python"@
            + value,
        (source is Override || source is DotPythonVersion || source is DotVenv)
            ==> spec_conda_python_spec(Some((value, source))) == "python="@ + value,
        value.len() == 0 || !(value[0] == '<' || value[0] == '>' || value[0] == '!' || value[0]
            == '=' || value[0] == '~') ==> spec_conda_python_spec(Some((value, source))) == "python="@
            + value,
{
}

/// The conda package spec for the requested Python.
pub fn conda_python_spec(request: Option<&PythonRequest>) -> (spec: String)
    ensures
        spec@ == spec_conda_python_spec(
            match request {
                Some(q) => Some((q.value@, q.source)),
                None => None,
            },
        ),
{
    match request {
        None => "python".to_owned(),
        Some(request) => {
            let pinned = match request.source {
                PythonRequestSource::Override => true,
                PythonRequestSource::DotPythonVersion => true,
                PythonRequestSource::DotVenv => true,
                _ => false,
            };
            let value = request.value.as_str();
            let operator = value.unicode_len() > 0 && {
                let c = value.get_char(0);
                c == '<' || c == '>' || c == '!' || c == '=' || c == '~'
            };
            let mut spec = if !pinned && operator {
                "python".to_owned()
            } else {
                "python=".to_owned()
            };
            spec.append(value);
            spec
        },
    }
}

/// The launcher's path inside the staged tree: `bin/pybin-<entrypoint>`.
pub fn launcher_relpath(entrypoint_name: &str) -> (p: String)
    ensures
        p@ == join_path("bin"@, "pybin-"@ + entrypoint_name@),
{
    let mut name = "pybin-".to_owned();
    name.append(entrypoint_name);
    join("bin", name.as_str())
}

/// The launcher script: it puts the inner environment's and the prefix's
/// `bin` directories first on `PATH` and executes the entrypoint of the inner
/// environment with the arguments it was given.
pub open spec fn spec_launcher_script(inner_env: Seq<char>, entrypoint: Seq<char>) -> Seq<char> {
    "#!/usr/bin/env bash\nSCRIPT_DIR=\"$(cd \"$(dirname \"$0\")\" && pwd)\"\nROOT_DIR=\"$(cd \"$SCRIPT_DIR/..\" && pwd)\"\nexport PATH=\"$ROOT_DIR/"@
        + inner_env + "/bin:$ROOT_DIR/bin:$PATH\"\nexec \"$ROOT_DIR/"@ + inner_env + "/bin/"@
        + entrypoint + "\" \"$@\"\n"@
}

/// The launcher script for a plan.
pub fn launcher_script(plan: &BuildPlan) -> (script: String)
    ensures
        script@ == spec_launcher_script(plan.inner_env_relative_path@, plan.entrypoint_name@),
{
    let inner = plan.inner_env_relative_path.as_str();
    let mut script = "#!/usr/bin/env bash\nSCRIPT_DIR=\"$(cd \"$(dirname \"$0\")\" && pwd)\"\nROOT_DIR=\"$(cd \"$SCRIPT_DIR/..\" && pwd)\"\nexport PATH=\"$ROOT_DIR/".to_owned();
    script.append(inner);
    script.append("/bin:$ROOT_DIR/bin:$PATH\"\nexec \"$ROOT_DIR/");
    script.append(inner);
    script.append("/bin/");
    script.append(plan.entrypoint_name.as_str());
    script.append("\" \"$@\"\n");
    script
}

/// The work directory of a build started at `timestamp` (seconds since the
/// Unix epoch) when none was given: `.pybin/builds/<package>-<timestamp>` in
/// the project root.
pub fn default_work_dir(plan: &BuildPlan, timestamp: u64) -> (dir: String)
    ensures
        dir@ == join_path(
            join_path(join_path(plan.project_root@, ".pybin"@), "builds"@),
            plan.package_name@ + "-"@ + digits(timestamp as nat, 10),
        ),
{
    let pybin = join(plan.project_root.as_str(), ".pybin");
    let builds = join(pybin.as_str(), "builds");
    let mut name = plan.package_name.clone();
    name.append("-");
    name.append(format_digits(timestamp as u128, 10).as_str());
    join(builds.as_str(), name.as_str())
}

fn owned(s: &str) -> (r: String)
    ensures
        r@ == s@,
{
    s.to_owned()
}

/// The arguments of `conda` that create the outer environment with Python,
/// uv and conda-pack.
pub fn create_env_args(conda_prefix: &str, python_spec: &str) -> (args: Vec<String>)
    ensures
        strings_view(args@) == seq![
            "create"@,
            "--yes"@,
            "--prefix"@,
            conda_prefix@,
            python_spec@,
            "uv"@,
            "conda-pack"@,
        ],
{
    let args = vec![
        owned("create"),
        owned("--yes"),
        owned("--prefix"),
        owned(conda_prefix),
        owned(python_spec),
        owned("uv"),
        owned("conda-pack"),
    ];
    assert(strings_view(args@) =~= seq![
        "create"@,
        "--yes"@,
        "--prefix"@,
        conda_prefix@,
        python_spec@,
        "uv"@,
        "conda-pack"@,
    ]);
    args
}

/// The arguments of `conda` that create the inner uv environment with the
/// prefix's Python.
pub fn create_inner_env_args(conda_prefix: &str, inner_env_path: &str) -> (args: Vec<String>)
    ensures
        strings_view(args@) == seq![
            "run"@,
            "--prefix"@,
            conda_prefix@,
            "uv"@,
            "venv"@,
            inner_env_path@,
            "--python"@,
            join_path(join_path(conda_prefix@, "bin"@), "python"@),
        ],
{
    let bin = join(conda_prefix, "bin");
    let python = join(bin.as_str(), "python");
    let args = vec![
        owned("run"),
        owned("--prefix"),
        owned(conda_prefix),
        owned("uv"),
        owned("venv"),
        owned(inner_env_path),
        owned("--python"),
        python,
    ];
    assert(strings_view(args@) =~= seq![
        "run"@,
        "--prefix"@,
        conda_prefix@,
        "uv"@,
        "venv"@,
        inner_env_path@,
        "--python"@,
        join_path(join_path(conda_prefix@, "bin"@), "python"@),
    ]);
    args
}

/// The arguments of `conda` that sync the project into the inner
/// environment without editable installs, frozen to `uv.lock` when there is
/// one.
pub fn sync_args(plan: &BuildPlan, conda_prefix: &str) -> (args: Vec<String>)
    ensures
        strings_view(args@) == seq![
            "run"@,
            "--prefix"@,
            conda_prefix@,
            "uv"@,
            "sync"@,
            "--project"@,
            plan.project_root@,
            "--no-editable"@,
        ] + if plan.uv_lock_present {
            seq!["--frozen"@]
        } else {
            Seq::<Seq<char>>::empty()
        },
{
    let mut args = vec![
        owned("run"),
        owned("--prefix"),
        owned(conda_prefix),
        owned("uv"),
        owned("sync"),
        owned("--project"),
        owned(plan.project_root.as_str()),
        owned("--no-editable"),
    ];
    let ghost base = args@;
    if plan.uv_lock_present {
        args.push(owned("--frozen"));
        assert(args@ == base.push(args@[8]));
    }
    assert(strings_view(args@) =~= seq![
        "run"@,
        "--prefix"@,
        conda_prefix@,
        "uv"@,
        "sync"@,
        "--project"@,
        plan.project_root@,
        "--no-editable"@,
    ] + if plan.uv_lock_present {
        seq!["--frozen"@]
    } else {
        Seq::<Seq<char>>::empty()
    });
    args
}

/// The environment of the sync: the inner environment as uv's project
/// environment, and copied (not linked) installs.
pub fn sync_env(inner_env_path: &str) -> (env: Vec<(String, String)>)
    ensures
        env@.len() == 2,
        env@[0].0@ == "UV_PROJECT_ENVIRONMENT"@ && env@[0].1@ == inner_env_path@,
        env@[1].0@ == "UV_LINK_MODE"@ && env@[1].1@ == "copy"@,
{
    vec![(owned("UV_PROJECT_ENVIRONMENT"), owned(inner_env_path)), (owned("UV_LINK_MODE"), owned("copy"))]
}

/// The arguments of `conda` that pack the outer environment with
/// conda-pack.
pub fn pack_env_args(conda_prefix: &str, packed_env_path: &str) -> (args: Vec<String>)
    ensures
        strings_view(args@) == seq![
            "run"@,
            "--prefix"@,
            conda_prefix@,
            "conda-pack"@,
            "--prefix"@,
            conda_prefix@,
            "--force"@,
            "--output"@,
            packed_env_path@,
        ],
{
    let args = vec![
        owned("run"),
        owned("--prefix"),
        owned(conda_prefix),
        owned("conda-pack"),
        owned("--prefix"),
        owned(conda_prefix),
        owned("--force"),
        owned("--output"),
        owned(packed_env_path),
    ];
    assert(strings_view(args@) =~= seq![
        "run"@,
        "--prefix"@,
        conda_prefix@,
        "conda-pack"@,
        "--prefix"@,
        conda_prefix@,
        "--force"@,
        "--output"@,
        packed_env_path@,
    ]);
    args
}

/// The strings of a list joined with single spaces.
pub open spec fn spaced(args: Seq<Seq<char>>) -> Seq<char>
    decreases args.len(),
{
    if args.len() == 0 {
        Seq::empty()
    } else if args.len() == 1 {
        args[0]
    } else {
        spaced(args.drop_last()) + " "@ + args.last()
    }
}

/// The error reported when a command exits unsuccessfully.
pub fn command_failure_message(program: &str, args: &Vec<String>) -> (message: String)
    ensures
        message@ == "command failed: "@ + program@ + " "@ + spaced(strings_view(args@)),
{
    let mut joined = String::new();
    let mut i: usize = 0;
    while i < args.len()
        invariant
            i <= args@.len(),
            joined@ == spaced(strings_view(args@.subrange(0, i as int))),
        decreases args@.len() - i,
    {
        let ghost prefix = args@.subrange(0, i as int);
        let ghost next = args@.subrange(0, i + 1);
        assert(strings_view(next).drop_last() =~= strings_view(prefix));
        assert(strings_view(next).last() == args@[i as int]@);
        if i > 0 {
            joined.append(" ");
        } else {
            assert(strings_view(prefix) =~= Seq::<Seq<char>>::empty());
            assert(joined@ =~= Seq::<char>::empty());
        }
        joined.append(args[i].as_str());
        i = i + 1;
    }
    assert(args@.subrange(0, args@.len() as int) =~= args@);
    let mut message = "command failed: ".to_owned();
    message.append(program);
    message.append(" ");
    message.append(joined.as_str());
    message
}

} // verus!
