use pybin::commands::inspect::{ReportLine, Tone, inspect_report};
use pybin::plan::BuildPlan;
use pybin::project::{
    ProjectFiles, ProjectSection, PyProjectManifest, SourceFile, resolve_project_metadata,
};
use pybin::scripts::ScriptTable;

fn demo_plan() -> BuildPlan {
    let mut scripts = ScriptTable::new();
    scripts.insert("demo".to_string(), "demo.cli:main".to_string());
    let manifest = PyProjectManifest {
        project: Some(ProjectSection {
            name: "demo-app".to_string(),
            requires_python: None,
            scripts,
        }),
        poetry: None,
    };
    let files = ProjectFiles {
        uv_lock_present: true,
        setup_py: SourceFile::Missing,
        python_version_file: SourceFile::Text("3.12.7\n".to_string()),
        venv_config: SourceFile::Missing,
    };
    let metadata = resolve_project_metadata("/tmp/demo", manifest, files, None).expect("metadata");
    BuildPlan::resolve(metadata, None).expect("plan")
}

fn field(label: &str, value: &str, tone: Tone) -> ReportLine {
    ReportLine::Field(label.to_string(), value.to_string(), tone)
}

#[test]
fn report_for_a_packable_project() {
    let plan = demo_plan();
    let markers = vec!["/tmp/demo/pyproject.toml".to_string()];
    let lines = inspect_report(
        "/tmp/demo",
        false,
        Some(&plan),
        "",
        true,
        "conda 24.1.0",
        &markers,
        false,
    );
    let expected = vec![
        ReportLine::Heading("Resolved build plan".to_string()),
        field("Project root:", "/tmp/demo", Tone::Path),
        field("Package:", "demo-app", Tone::Plain),
        field("Metadata source:", "[project] in pyproject.toml", Tone::Plain),
        field("Final executable:", "/tmp/demo/dist/demo", Tone::PrimaryPath),
        ReportLine::Entrypoint(
            "demo".to_string(),
            "demo.cli:main".to_string(),
            "auto-detected from project metadata".to_string(),
        ),
        field("Python request:", "3.12.7 (.python-version)", Tone::Plain),
        field("uv.lock present:", "yes", Tone::Plain),
        field("Inner uv env:", "<conda-prefix>/uv-env", Tone::Plain),
        field("Release shape:", "single pybin binary used as the SFX stub", Tone::Plain),
        ReportLine::Blank,
        ReportLine::Heading("Host checks".to_string()),
        ReportLine::Check(true, "conda available".to_string()),
        ReportLine::Detail("conda 24.1.0".to_string()),
        ReportLine::Check(true, "supported project marker found".to_string()),
        ReportLine::Detail("/tmp/demo/pyproject.toml".to_string()),
        ReportLine::Blank,
        ReportLine::HeadingDone("Packable".to_string()),
        field("Status:", "yes", Tone::Success),
    ];
    assert_eq!(lines, expected);
}

#[test]
fn report_for_a_project_that_cannot_be_packed() {
    let lines = inspect_report(
        "/tmp/empty",
        true,
        None,
        "no project metadata found",
        false,
        "conda is not installed",
        &Vec::new(),
        true,
    );
    let expected = vec![
        ReportLine::Heading("Resolved build plan".to_string()),
        field("Project root:", "/tmp/empty", Tone::Path),
        field("Status:", "could not resolve a packable build plan", Tone::Danger),
        field("Reason:", "no project metadata found", Tone::Subtle),
        ReportLine::Blank,
        ReportLine::Heading("Host checks".to_string()),
        ReportLine::Check(false, "conda unavailable".to_string()),
        ReportLine::Detail("conda is not installed".to_string()),
        ReportLine::Check(false, "supported project marker missing".to_string()),
        ReportLine::Detail(
            "expected one of `/tmp/empty/pyproject.toml`, `/tmp/empty/setup.py`, or `/tmp/empty/requirements.txt`"
                .to_string(),
        ),
        ReportLine::Blank,
        ReportLine::HeadingDone("Packable".to_string()),
        field("Status:", "no", Tone::Danger),
    ];
    assert_eq!(lines, expected);
}

#[test]
fn explicit_entrypoint_and_windows_executable_name() {
    let plan = demo_plan();
    let lines = inspect_report("/tmp/demo", true, Some(&plan), "", true, "conda 24.1.0", &Vec::new(), true);
    assert_eq!(lines[4], field("Final executable:", "/tmp/demo/dist/demo.exe", Tone::PrimaryPath));
    assert_eq!(
        lines[5],
        ReportLine::Entrypoint(
            "demo".to_string(),
            "demo.cli:main".to_string(),
            "set explicitly with `--entrypoint`".to_string(),
        )
    );
}
