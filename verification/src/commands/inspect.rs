//! What `inspect` reports about a project.

use vstd::prelude::*;
use crate::plan::BuildPlan;
use crate::project::{PythonRequest, PythonRequestSource};
use crate::text::{join, join_path};

verus! {

/// How a Python request's source is named in reports.
pub open spec fn source_label(source: PythonRequestSource) -> Seq<char> {
    match source {
        PythonRequestSource::Override => "override"@,
        PythonRequestSource::DotPythonVersion => ".python-version"@,
        PythonRequestSource::DotVenv => ".venv/pyvenv.cfg"@,
        PythonRequestSource::RequiresPython => "project.requires-python"@,
        PythonRequestSource::PoetryDependency => "tool.poetry.dependencies.python"@,
        PythonRequestSource::SetupPyPythonRequires => "setup.py python_requires"@,
    }
}

fn source_label_exec(source: PythonRequestSource) -> (s: &'static str)
    ensures
        s@ == source_label(source),
{
    match source {
        PythonRequestSource::Override => "override",
        PythonRequestSource::DotPythonVersion => ".python-version",
        PythonRequestSource::DotVenv => ".venv/pyvenv.cfg",
        PythonRequestSource::RequiresPython => "project.requires-python",
        PythonRequestSource::PoetryDependency => "tool.poetry.dependencies.python",
        PythonRequestSource::SetupPyPythonRequires => "setup.py python_requires",
    }
}

/// A Python request as reported: `<value> (<source>)`.
pub fn format_python_request(request: &PythonRequest) -> (s: String)
    ensures
        s@ == request.value@ + " ("@ + source_label(request.source) + ")"@,
{
    let mut s = request.value.clone();
    s.append(" (");
    s.append(source_label_exec(request.source));
    s.append(")");
    s
}

/// `"yes"` or `"no"`.
pub fn yes_no(value: bool) -> (s: &'static str)
    ensures
        s@ == if value {
            "yes"@
        } else {
            "no"@
        },
{
    if value {
        "yes"
    } else {
        "no"
    }
}

/// A value as reported: the text itself.
pub fn value(text: &str) -> (s: String)
    ensures
        s@ == text@,
{
    text.to_owned()
}

/// The file name of the final executable: the entrypoint's name, with
/// `.exe` on Windows.
pub open spec fn output_file_name(entrypoint_name: Seq<char>, windows: bool) -> Seq<char> {
    if windows {
        entrypoint_name + ".exe"@
    } else {
        entrypoint_name
    }
}

/// Where the final executable of a plan is written: `dist/<entrypoint>` in
/// the project root (`windows` says whether the host is Windows).
pub fn resolve_output_path(plan: &BuildPlan, windows: bool) -> (p: String)
    ensures
        p@ == join_path(
            join_path(plan.project_root@, "dist"@),
            output_file_name(plan.entrypoint_name@, windows),
        ),
{
    let mut filename = plan.entrypoint_name.clone();
    if windows {
        filename.append(".exe");
    }
    let dist = join(plan.project_root.as_str(), "dist");
    join(dist.as_str(), filename.as_str())
}

/// How the entrypoint was chosen, as reported.
pub fn entrypoint_source(explicit: bool) -> (s: &'static str)
    ensures
        s@ == if explicit {
            "set explicitly with `--entrypoint`"@
        } else {
            "auto-detected from project metadata"@
        },
{
    if explicit {
        "set explicitly with `--entrypoint`"
    } else {
        "auto-detected from project metadata"
    }
}

/// Where the inner uv environment lives, as reported.
pub fn inner_env_display(plan: &BuildPlan) -> (s: String)
    ensures
        s@ == "<conda-prefix>/"@ + plan.inner_env_relative_path@,
{
    let mut s = "<conda-prefix>/".to_owned();
    s.append(plan.inner_env_relative_path.as_str());
    s
}

/// The hint shown when a project has none of the supported markers.
pub fn missing_marker_hint(project_root: &str) -> (s: String)
    ensures
        s@ == "expected one of `"@ + join_path(project_root@, "pyproject.toml"@) + "`, `"@
            + join_path(project_root@, "setup.py"@) + "`, or `"@ + join_path(
            project_root@,
            "requirements.txt"@,
        ) + "`"@,
{
    let mut s = "expected one of `".to_owned();
    s.append(join(project_root, "pyproject.toml").as_str());
    s.append("`, `");
    s.append(join(project_root, "setup.py").as_str());
    s.append("`, or `");
    s.append(join(project_root, "requirements.txt").as_str());
    s.append("`");
    s
}

/// Why a project is not packable, from the conda check's error and the
/// planning error: both (plan first, `; ` between), either one, or `None`
/// when there is neither.
pub open spec fn spec_not_packable_message(
    conda_error: Option<Seq<char>>,
    plan_error: Option<Seq<char>>,
) -> Option<Seq<char>> {
    match (conda_error, plan_error) {
        (Some(c), Some(p)) => Some("project is not packable: "@ + p + "; "@ + c),
        (Some(c), None) => Some("project is not packable: "@ + c),
        (None, Some(p)) => Some("project is not packable: "@ + p),
        (None, None) => None,
    }
}

/// The error `inspect` ends with: `None` when conda is available and a build
/// plan resolved (the project is packable), the reasons otherwise.
pub fn not_packable_message(conda_error: Option<&str>, plan_error: Option<&str>) -> (r: Option<
    String,
>)
    ensures
        match r {
            Some(s) => spec_not_packable_message(
                crate::project::opt_str_view(conda_error),
                crate::project::opt_str_view(plan_error),
            ) == Some(s@),
            None => spec_not_packable_message(
                crate::project::opt_str_view(conda_error),
                crate::project::opt_str_view(plan_error),
            ) is None,
        },
{
    let reason = match (conda_error, plan_error) {
        (Some(error), Some(plan_error)) => {
            let mut s = plan_error.to_owned();
            s.append("; ");
            s.append(error);
            s
        },
        (Some(error), None) => error.to_owned(),
        (None, Some(plan_error)) => plan_error.to_owned(),
        (None, None) => {
            return None;
        },
    };
    let mut message = "project is not packable: ".to_owned();
    message.append(reason.as_str());
    Some(message)
}

/// Whether the interactive styling is used: both standard streams are
/// terminals and `TERM` is not `dumb` (an unset or unreadable `TERM` counts
/// as not `dumb`).
pub fn interactive_ui_enabled_for(stdout_is_terminal: bool, stderr_is_terminal: bool, term: Option<&str>) -> (r: bool)
    ensures
        r == (stdout_is_terminal && stderr_is_terminal && match term {
            Some(t) => t@ != "dumb"@,
            None => true,
        }),
{
    stdout_is_terminal && stderr_is_terminal && match term {
        Some(t) => !crate::text::str_eq(t, "dumb"),
        None => true,
    }
}


/// How a value of the report is styled on an interactive terminal.
#[derive(Debug, Clone, Copy, PartialEq, Eq, Structural)]
pub enum Tone {
    Plain,
    Subtle,
    Danger,
    Success,
    Path,
    PrimaryPath,
}

/// One line of the `inspect` report.
#[derive(Debug, Clone, PartialEq, Eq)]
pub enum ReportLine {
    /// A section heading.
    Heading(String),
    /// The heading of the closing section.
    HeadingDone(String),
    /// `  <label> <value>`, the value styled by the tone.
    Field(String, String, Tone),
    /// `  Entrypoint: <name> -> <target> (<how it was chosen>)`.
    Entrypoint(String, String, String),
    /// `  [ok] <text>` or `  [fail] <text>`.
    Check(bool, String),
    /// An indented detail under a check.
    Detail(String),
    /// An empty line.
    Blank,
}

/// The contents of a `ReportLine`.
pub enum ReportLineView {
    Heading(Seq<char>),
    HeadingDone(Seq<char>),
    Field(Seq<char>, Seq<char>, Tone),
    Entrypoint(Seq<char>, Seq<char>, Seq<char>),
    Check(bool, Seq<char>),
    Detail(Seq<char>),
    Blank,
}

impl View for ReportLine {
    type V = ReportLineView;

    open spec fn view(&self) -> ReportLineView {
        match self {
            ReportLine::Heading(t) => ReportLineView::Heading(t@),
            ReportLine::HeadingDone(t) => ReportLineView::HeadingDone(t@),
            ReportLine::Field(l, v, tone) => ReportLineView::Field(l@, v@, *tone),
            ReportLine::Entrypoint(n, t, h) => ReportLineView::Entrypoint(n@, t@, h@),
            ReportLine::Check(ok, t) => ReportLineView::Check(*ok, t@),
            ReportLine::Detail(t) => ReportLineView::Detail(t@),
            ReportLine::Blank => ReportLineView::Blank,
        }
    }
}

/// The contents of a list of report lines.
pub open spec fn lines_view(lines: Seq<ReportLine>) -> Seq<ReportLineView> {
    Seq::new(lines.len(), |i: int| lines[i]@)
}

fn push_line(lines: &mut Vec<ReportLine>, line: ReportLine)
    ensures
        lines_view(final(lines)@) == lines_view(old(lines)@).push(line@),
{
    let ghost v = line@;
    lines.push(line);
    assert(lines_view(lines@) =~= lines_view(old(lines)@).push(v));
}

fn field(label: &str, value: String, tone: Tone) -> (line: ReportLine)
    ensures
        line@ == ReportLineView::Field(label@, value@, tone),
{
    ReportLine::Field(label.to_owned(), value, tone)
}

/// The report lines about a resolved plan.
pub open spec fn plan_lines(plan: BuildPlan, explicit: bool, windows: bool) -> Seq<ReportLineView> {
    seq![
        ReportLineView::Field("Project root:"@, plan.project_root@, Tone::Path),
        ReportLineView::Field("Package:"@, plan.package_name@, Tone::Plain),
        ReportLineView::Field("Metadata source:"@, plan.metadata_source.spec_description(), Tone::Plain),
        ReportLineView::Field(
            "Final executable:"@,
            join_path(
                join_path(plan.project_root@, "dist"@),
                output_file_name(plan.entrypoint_name@, windows),
            ),
            Tone::PrimaryPath,
        ),
        ReportLineView::Entrypoint(
            plan.entrypoint_name@,
            plan.entrypoint_target@,
            if explicit {
                "set explicitly with `--entrypoint`"@
            } else {
                "auto-detected from project metadata"@
            },
        ),
        ReportLineView::Field(
            "Python request:"@,
            match plan.python_request {
                Some(q) => q.value@ + " ("@ + source_label(q.source) + ")"@,
                None => "<none>"@,
            },
            Tone::Plain,
        ),
        ReportLineView::Field(
            "uv.lock present:"@,
            if plan.uv_lock_present {
                "yes"@
            } else {
                "no"@
            },
            Tone::Plain,
        ),
        ReportLineView::Field("Inner uv env:"@, "<conda-prefix>/"@ + plan.inner_env_relative_path@, Tone::Plain),
        ReportLineView::Field("Release shape:"@, "single pybin binary used as the SFX stub"@, Tone::Plain),
    ]
}

/// The report lines when no plan resolved.
pub open spec fn plan_failure_lines(project: Seq<char>, error: Seq<char>) -> Seq<ReportLineView> {
    seq![
        ReportLineView::Field("Project root:"@, project, Tone::Path),
        ReportLineView::Field("Status:"@, "could not resolve a packable build plan"@, Tone::Danger),
        ReportLineView::Field("Reason:"@, error, Tone::Subtle),
    ]
}

/// The report lines about conda.
pub open spec fn conda_lines(conda_ok: bool, conda_text: Seq<char>) -> Seq<ReportLineView> {
    if conda_ok {
        seq![ReportLineView::Check(true, "conda available"@), ReportLineView::Detail(conda_text)]
    } else {
        seq![ReportLineView::Check(false, "conda unavailable"@), ReportLineView::Detail(conda_text)]
    }
}

/// The report lines about the project markers found.
pub open spec fn marker_lines(project: Seq<char>, markers: Seq<String>) -> Seq<ReportLineView> {
    if markers.len() > 0 {
        seq![ReportLineView::Check(true, "supported project marker found"@)] + markers.map_values(
            |m: String| ReportLineView::Detail(m@),
        )
    } else {
        seq![
            ReportLineView::Check(false, "supported project marker missing"@),
            ReportLineView::Detail(
                "expected one of `"@ + join_path(project, "pyproject.toml"@) + "`, `"@ + join_path(
                    project,
                    "setup.py"@,
                ) + "`, or `"@ + join_path(project, "requirements.txt"@) + "`"@,
            ),
        ]
    }
}

/// The whole `inspect` report.
pub open spec fn spec_inspect_report(
    project: Seq<char>,
    explicit: bool,
    plan: Option<BuildPlan>,
    plan_error: Seq<char>,
    conda_ok: bool,
    conda_text: Seq<char>,
    markers: Seq<String>,
    windows: bool,
) -> Seq<ReportLineView> {
    seq![ReportLineView::Heading("Resolved build plan"@)] + match plan {
        Some(p) => plan_lines(p, explicit, windows),
        None => plan_failure_lines(project, plan_error),
    } + seq![ReportLineView::Blank, ReportLineView::Heading("Host checks"@)] + conda_lines(
        conda_ok,
        conda_text,
    ) + marker_lines(project, markers) + seq![
        ReportLineView::Blank,
        ReportLineView::HeadingDone("Packable"@),
        ReportLineView::Field(
            "Status:"@,
            if conda_ok && plan is Some {
                "yes"@
            } else {
                "no"@
            },
            if conda_ok && plan is Some {
                Tone::Success
            } else {
                Tone::Danger
            },
        ),
    ]
}

fn push_plan_lines(lines: &mut Vec<ReportLine>, plan: &BuildPlan, explicit: bool, windows: bool)
    ensures
        lines_view(final(lines)@) == lines_view(old(lines)@) + plan_lines(*plan, explicit, windows),
{
    let ghost start = lines_view(lines@);
    push_line(lines, field("Project root:", plan.project_root.clone(), Tone::Path));
    push_line(lines, field("Package:", value(&plan.package_name), Tone::Plain));
    push_line(lines, field("Metadata source:", value(plan.metadata_source.description()), Tone::Plain));
    push_line(lines, field("Final executable:", resolve_output_path(plan, windows), Tone::PrimaryPath));
    push_line(
        lines,
        ReportLine::Entrypoint(
            plan.entrypoint_name.clone(),
            plan.entrypoint_target.clone(),
            entrypoint_source(explicit).to_owned(),
        ),
    );
    let request = match &plan.python_request {
        Some(q) => format_python_request(q),
        None => "<none>".to_owned(),
    };
    push_line(lines, field("Python request:", request, Tone::Plain));
    push_line(lines, field("uv.lock present:", value(yes_no(plan.uv_lock_present)), Tone::Plain));
    push_line(lines, field("Inner uv env:", inner_env_display(plan), Tone::Plain));
    push_line(
        lines,
        field("Release shape:", value("single pybin binary used as the SFX stub"), Tone::Plain),
    );
    assert(lines_view(lines@) =~= start + plan_lines(*plan, explicit, windows));
}

fn push_marker_lines(lines: &mut Vec<ReportLine>, project: &str, markers: &Vec<String>)
    ensures
        lines_view(final(lines)@) == lines_view(old(lines)@) + marker_lines(project@, markers@),
{
    let ghost start = lines_view(lines@);
    if markers.len() > 0 {
        push_line(lines, ReportLine::Check(true, "supported project marker found".to_owned()));
        let mut i: usize = 0;
        while i < markers.len()
            invariant
                i <= markers@.len(),
                lines_view(lines@) == start + seq![
                    ReportLineView::Check(true, "supported project marker found"@),
                ] + markers@.subrange(0, i as int).map_values(|m: String| ReportLineView::Detail(m@)),
            decreases markers@.len() - i,
        {
            let ghost before = lines_view(lines@);
            push_line(lines, ReportLine::Detail(markers[i].clone()));
            assert(markers@.subrange(0, i + 1).map_values(|m: String| ReportLineView::Detail(m@))
                =~= markers@.subrange(0, i as int).map_values(
                |m: String| ReportLineView::Detail(m@),
            ).push(ReportLineView::Detail(markers@[i as int]@)));
            i = i + 1;
        }
        assert(markers@.subrange(0, markers@.len() as int) =~= markers@);
    } else {
        push_line(lines, ReportLine::Check(false, "supported project marker missing".to_owned()));
        push_line(lines, ReportLine::Detail(missing_marker_hint(project)));
        assert(lines_view(lines@) =~= start + marker_lines(project@, markers@));
    }
}

/// The report `inspect` prints: the resolved plan (or why none resolved),
/// the host checks, and whether the project is packable.
///
/// `plan` is the resolved plan, `plan_error` the planning error's text when
/// there is none; `conda` is the conda version line, or the conda check's
/// error text; `markers` are the supported project markers found;
/// `windows` says whether the host is Windows.
pub fn inspect_report(
    project: &str,
    explicit: bool,
    plan: Option<&BuildPlan>,
    plan_error: &str,
    conda_ok: bool,
    conda_text: &str,
    markers: &Vec<String>,
    windows: bool,
) -> (lines: Vec<ReportLine>)
    ensures
        lines_view(lines@) == spec_inspect_report(
            project@,
            explicit,
            match plan {
                Some(p) => Some(*p),
                None => None,
            },
            plan_error@,
            conda_ok,
            conda_text@,
            markers@,
            windows,
        ),
{
    let mut lines: Vec<ReportLine> = Vec::new();
    assert(lines_view(lines@) =~= Seq::<ReportLineView>::empty());
    push_line(&mut lines, ReportLine::Heading("Resolved build plan".to_owned()));
    match plan {
        Some(p) => push_plan_lines(&mut lines, p, explicit, windows),
        None => {
            let ghost start = lines_view(lines@);
            push_line(&mut lines, field("Project root:", project.to_owned(), Tone::Path));
            push_line(
                &mut lines,
                field("Status:", "could not resolve a packable build plan".to_owned(), Tone::Danger),
            );
            push_line(&mut lines, field("Reason:", plan_error.to_owned(), Tone::Subtle));
            assert(lines_view(lines@) =~= start + plan_failure_lines(project@, plan_error@));
        },
    }
    push_line(&mut lines, ReportLine::Blank);
    push_line(&mut lines, ReportLine::Heading("Host checks".to_owned()));
    let ghost before_conda = lines_view(lines@);
    if conda_ok {
        push_line(&mut lines, ReportLine::Check(true, "conda available".to_owned()));
    } else {
        push_line(&mut lines, ReportLine::Check(false, "conda unavailable".to_owned()));
    }
    push_line(&mut lines, ReportLine::Detail(conda_text.to_owned()));
    assert(lines_view(lines@) =~= before_conda + conda_lines(conda_ok, conda_text@));
    push_marker_lines(&mut lines, project, markers);
    push_line(&mut lines, ReportLine::Blank);
    push_line(&mut lines, ReportLine::HeadingDone("Packable".to_owned()));
    let packable = conda_ok && plan.is_some();
    if packable {
        push_line(&mut lines, field("Status:", "yes".to_owned(), Tone::Success));
    } else {
        push_line(&mut lines, field("Status:", "no".to_owned(), Tone::Danger));
    }
    assert(lines_view(lines@) =~= spec_inspect_report(
        project@,
        explicit,
        match plan {
            Some(p) => Some(*p),
            None => None,
        },
        plan_error@,
        conda_ok,
        conda_text@,
        markers@,
        windows,
    ));
    lines
}

/// The report ends by calling the project packable (`Status: yes`, styled as
/// a success) exactly when conda is available and a build plan resolved, and
/// otherwise not packable (`Status: no`, styled as a danger), whatever else
/// it shows; so it says `yes` exactly when `inspect` ends without an error.
pub proof fn lemma_report_status(
    project: Seq<char>,
    explicit: bool,
    plan: Option<BuildPlan>,
    plan_error: Seq<char>,
    conda_ok: bool,
    conda_text: Seq<char>,
    markers: Seq<String>,
    windows: bool,
    conda_error: Option<Seq<char>>,
    plan_error_text: Option<Seq<char>>,
)
    ensures
        ({
            let last = spec_inspect_report(
                project,
                explicit,
                plan,
                plan_error,
                conda_ok,
                conda_text,
                markers,
                windows,
            ).last();
            &&& conda_ok && plan is Some ==> last == ReportLineView::Field(
                "Status:"@,
                "yes"@,
                Tone::Success,
            )
            &&& !(conda_ok && plan is Some) ==> last == ReportLineView::Field(
                "Status:"@,
                "no"@,
                Tone::Danger,
            )
            &&& (conda_ok <==> conda_error is None) && (plan is Some <==> plan_error_text is None)
                ==> (last == ReportLineView::Field("Status:"@, "yes"@, Tone::Success)
                <==> spec_not_packable_message(conda_error, plan_error_text) is None)
        }),
{
    reveal_strlit("yes");
    reveal_strlit("no");
    assert("yes"@.len() != "no"@.len());
}

} // verus!
