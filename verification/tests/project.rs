use pybin::plan::{BuildPlan, DEFAULT_INNER_ENV_NAME, PlanError};
use pybin::project::{
    DependencyValue, PoetrySection, ProjectError, ProjectFiles, ProjectMetadataSource,
    ProjectSection, PyProjectManifest, PythonRequestSource, SourceFile,
    extract_console_scripts, extract_setup_keyword_string, python_version_request,
    resolve_project_metadata, venv_python_version,
};
use pybin::scripts::ScriptTable;

fn scripts(entries: &[(&str, &str)]) -> ScriptTable {
    let mut table = ScriptTable::new();
    for (name, target) in entries {
        table.insert(name.to_string(), target.to_string());
    }
    table
}

fn project(name: &str, entries: &[(&str, &str)], requires_python: Option<&str>) -> PyProjectManifest {
    PyProjectManifest {
        project: Some(ProjectSection {
            name: name.to_string(),
            requires_python: requires_python.map(str::to_string),
            scripts: scripts(entries),
        }),
        poetry: None,
    }
}

fn files(python_version: SourceFile, venv: SourceFile) -> ProjectFiles {
    ProjectFiles {
        uv_lock_present: false,
        setup_py: SourceFile::Missing,
        python_version_file: python_version,
        venv_config: venv,
    }
}

#[test]
fn resolves_single_script_with_python_version_file() {
    let manifest = project("demo-app", &[("demo", "demo.cli:main")], None);
    let metadata = resolve_project_metadata(
        "/tmp/demo",
        manifest,
        files(SourceFile::Text("3.12.7\n".to_string()), SourceFile::Missing),
        None,
    )
    .expect("metadata");
    let plan = BuildPlan::resolve(metadata, None).expect("plan");

    assert_eq!(plan.package_name, "demo-app");
    assert_eq!(plan.entrypoint_name, "demo");
    assert_eq!(plan.entrypoint_target, "demo.cli:main");
    assert_eq!(
        plan.python_request.as_ref().map(|request| request.value.as_str()),
        Some("3.12.7")
    );
    assert_eq!(plan.inner_env_relative_path, DEFAULT_INNER_ENV_NAME);
}

#[test]
fn requires_entrypoint_override_for_multi_script_projects() {
    let manifest = project(
        "demo-app",
        &[("demo", "demo.cli:main"), ("admin", "demo.admin:main")],
        None,
    );
    let metadata = resolve_project_metadata(
        "/tmp/demo",
        manifest,
        files(SourceFile::Missing, SourceFile::Missing),
        None,
    )
    .expect("metadata");
    let error = BuildPlan::resolve(metadata, None).expect_err("should fail");

    assert!(error.to_string().contains("--entrypoint"));
}

#[test]
fn accepts_explicit_entrypoint_override() {
    let manifest = project(
        "demo-app",
        &[("demo", "demo.cli:main"), ("admin", "demo.admin:main")],
        Some(">=3.12,<3.13"),
    );
    let metadata = resolve_project_metadata(
        "/tmp/demo",
        manifest,
        files(SourceFile::Missing, SourceFile::Missing),
        None,
    )
    .expect("metadata");
    let plan = BuildPlan::resolve(metadata, Some("admin")).expect("plan");

    assert_eq!(plan.entrypoint_name, "admin");
    assert_eq!(plan.entrypoint_target, "demo.admin:main");
    assert_eq!(
        plan.python_request.as_ref().map(|request| request.value.as_str()),
        Some(">=3.12,<3.13")
    );
}

#[test]
fn prefers_dot_venv_python_version_when_no_python_version_file_exists() {
    let manifest = project("demo-app", &[("demo", "demo.cli:main")], Some(">=3.11"));
    let metadata = resolve_project_metadata(
        "/tmp/demo",
        manifest,
        files(
            SourceFile::Missing,
            SourceFile::Text("home = /tmp/python\nversion_info = 3.12.8\n".to_string()),
        ),
        None,
    )
    .expect("metadata");
    let request = metadata.python_request.expect("python request");

    assert_eq!(request.value, "3.12.8");
    assert!(matches!(request.source, PythonRequestSource::DotVenv));
}

#[test]
fn override_beats_every_file() {
    let manifest = project("demo-app", &[("demo", "demo.cli:main")], Some(">=3.11"));
    let metadata = resolve_project_metadata(
        "/tmp/demo",
        manifest,
        files(
            SourceFile::Unreadable("permission denied".to_string()),
            SourceFile::Text("version = 3.10\n".to_string()),
        ),
        Some("3.13"),
    )
    .expect("metadata");
    let request = metadata.python_request.expect("python request");
    assert_eq!(request.value, "3.13");
    assert_eq!(request.source, PythonRequestSource::Override);
}

#[test]
fn requires_python_is_used_when_no_file_pins_a_version() {
    let manifest = project("demo-app", &[("demo", "demo.cli:main")], Some(">=3.11"));
    let metadata = resolve_project_metadata(
        "/tmp/demo",
        manifest,
        files(SourceFile::Missing, SourceFile::Missing),
        None,
    )
    .expect("metadata");
    let request = metadata.python_request.expect("python request");
    assert_eq!(request.value, ">=3.11");
    assert_eq!(request.source, PythonRequestSource::RequiresPython);
    assert_eq!(metadata.metadata_source, ProjectMetadataSource::Pep621Project);
    assert_eq!(metadata.project_root, "/tmp/demo");
}

#[test]
fn empty_python_version_file_is_an_error() {
    let manifest = project("demo-app", &[], None);
    let error = resolve_project_metadata(
        "/tmp/demo",
        manifest,
        files(SourceFile::Text("# only a comment\n\n".to_string()), SourceFile::Missing),
        None,
    )
    .expect_err("no request");
    assert_eq!(error, ProjectError::EmptyPythonVersionFile("/tmp/demo/.python-version".to_string()));
    assert_eq!(
        error.to_string(),
        "`/tmp/demo/.python-version` exists but does not contain a Python request"
    );
}

#[test]
fn venv_config_without_version_is_an_error() {
    let manifest = project("demo-app", &[], None);
    let error = resolve_project_metadata(
        "/tmp/demo/",
        manifest,
        files(SourceFile::Missing, SourceFile::Text("home = /usr\n".to_string())),
        None,
    )
    .expect_err("no version");
    assert_eq!(
        error,
        ProjectError::MissingVenvPythonVersion("/tmp/demo/.venv/pyvenv.cfg".to_string())
    );
    assert_eq!(
        error.to_string(),
        "`/tmp/demo/.venv/pyvenv.cfg` exists but does not declare a Python version"
    );
}

#[test]
fn unreadable_file_reports_its_error() {
    let manifest = project("demo-app", &[], None);
    let error = resolve_project_metadata(
        "/tmp/demo",
        manifest,
        files(SourceFile::Unreadable("stream did not contain valid UTF-8".to_string()), SourceFile::Missing),
        None,
    )
    .expect_err("unreadable");
    assert_eq!(error.to_string(), "stream did not contain valid UTF-8");
}

#[test]
fn poetry_metadata_and_python_dependency() {
    let manifest = PyProjectManifest {
        project: None,
        poetry: Some(PoetrySection {
            name: "poetry-app".to_string(),
            scripts: scripts(&[("run", "app:main")]),
            dependencies: Some(vec![
                ("click".to_string(), DependencyValue::Text("^8".to_string())),
                ("python".to_string(), DependencyValue::Text("^3.11".to_string())),
            ]),
        }),
    };
    let metadata = resolve_project_metadata(
        "/p",
        manifest,
        files(SourceFile::Missing, SourceFile::Missing),
        None,
    )
    .expect("metadata");
    assert_eq!(metadata.package_name, "poetry-app");
    assert_eq!(metadata.metadata_source, ProjectMetadataSource::Poetry);
    let request = metadata.python_request.expect("request");
    assert_eq!(request.value, "^3.11");
    assert_eq!(request.source, PythonRequestSource::PoetryDependency);

    let table_python = PyProjectManifest {
        project: None,
        poetry: Some(PoetrySection {
            name: "x".to_string(),
            scripts: ScriptTable::new(),
            dependencies: Some(vec![("python".to_string(), DependencyValue::Other)]),
        }),
    };
    let metadata = resolve_project_metadata("/p", table_python, files(SourceFile::Missing, SourceFile::Missing), None)
        .expect("metadata");
    assert!(metadata.python_request.is_none());
}

#[test]
fn project_table_wins_over_poetry_and_setup_py() {
    let mut manifest = project("from-project", &[], None);
    manifest.poetry = Some(PoetrySection {
        name: "from-poetry".to_string(),
        scripts: ScriptTable::new(),
        dependencies: None,
    });
    let mut f = files(SourceFile::Missing, SourceFile::Missing);
    f.setup_py = SourceFile::Text("setup(name=\"from-setup\")".to_string());
    let metadata = resolve_project_metadata("/p", manifest, f, None).expect("metadata");
    assert_eq!(metadata.package_name, "from-project");
    assert_eq!(metadata.metadata_source, ProjectMetadataSource::Pep621Project);
}

#[test]
fn setup_py_fallback_and_missing_metadata() {
    let setup = "from setuptools import setup\nsetup(\n    name='legacy-app',\n    python_requires=\">=3.9\",\n    entry_points={'console_scripts': [\"legacy = legacy.cli:main\", 'extra=legacy.extra:run']},\n)\n";
    let manifest = PyProjectManifest { project: None, poetry: None };
    let mut f = files(SourceFile::Missing, SourceFile::Missing);
    f.setup_py = SourceFile::Text(setup.to_string());
    f.uv_lock_present = true;
    let metadata = resolve_project_metadata("/p", manifest, f, None).expect("metadata");
    assert_eq!(metadata.package_name, "legacy-app");
    assert_eq!(metadata.metadata_source, ProjectMetadataSource::SetupPy);
    assert!(metadata.uv_lock_present);
    let request = metadata.python_request.clone().expect("request");
    assert_eq!(request.value, ">=3.9");
    assert_eq!(request.source, PythonRequestSource::SetupPyPythonRequires);
    assert_eq!(metadata.project_scripts.len(), 2);
    assert_eq!(metadata.project_scripts.get("legacy").map(String::as_str), Some("legacy.cli:main"));
    assert_eq!(metadata.project_scripts.get("extra").map(String::as_str), Some("legacy.extra:run"));

    let manifest = PyProjectManifest { project: None, poetry: None };
    let mut f = files(SourceFile::Missing, SourceFile::Missing);
    f.setup_py = SourceFile::Text("setup(version='1')".to_string());
    let error = resolve_project_metadata("/p", manifest, f, None).expect_err("no metadata");
    assert_eq!(error, ProjectError::MissingMetadata("/p/pyproject.toml".to_string()));
    assert_eq!(
        error.to_string(),
        "`/p/pyproject.toml` is missing supported project metadata; expected `[project]`, `[tool.poetry]`, or a parseable `setup.py`"
    );
}

#[test]
fn setup_keyword_prefers_double_quotes() {
    assert_eq!(
        extract_setup_keyword_string("name='single', name=\"double\"", "name").as_deref(),
        Some("double")
    );
    assert_eq!(extract_setup_keyword_string("name='single'", "name").as_deref(), Some("single"));
    assert_eq!(extract_setup_keyword_string("name=\"open", "name"), None);
    assert_eq!(extract_setup_keyword_string("name = 'spaced'", "name"), None);
    assert_eq!(extract_setup_keyword_string("ñame=\"ü\"", "ñame").as_deref(), Some("ü"));
}

#[test]
fn console_scripts_later_entries_win_and_bad_entries_are_skipped() {
    let table = extract_console_scripts(
        "console_scripts = [ 'a = x:one', \"b=y:two\", 'junk', ' = z', 'a = x:three' ]",
    );
    assert_eq!(table.len(), 2);
    assert_eq!(table.get("a").map(String::as_str), Some("x:three"));
    assert_eq!(table.get("b").map(String::as_str), Some("y:two"));
    assert_eq!(extract_console_scripts("console_scripts = ['a=b'").len(), 0);
    assert_eq!(extract_console_scripts("no scripts here").len(), 0);
}

#[test]
fn python_version_file_skips_blank_and_comment_lines() {
    assert_eq!(python_version_request("\n# pinned\n  3.11.4  \r\n3.12\n").as_deref(), Some("3.11.4"));
    assert_eq!(python_version_request("   \n\t\n"), None);
    assert_eq!(python_version_request(""), None);
}

#[test]
fn venv_version_lines() {
    assert_eq!(venv_python_version("version = 3.10.2\n").as_deref(), Some("3.10.2"));
    assert_eq!(
        venv_python_version("version_info =\nversion = 3.9.1\n").as_deref(),
        Some("3.9.1")
    );
    assert_eq!(venv_python_version("versioned = 1\n"), None);
}

#[test]
fn unknown_and_missing_entrypoints() {
    let manifest = project("demo-app", &[("demo", "demo.cli:main")], None);
    let metadata = resolve_project_metadata("/p", manifest, files(SourceFile::Missing, SourceFile::Missing), None)
        .expect("metadata");
    let error = BuildPlan::resolve(metadata.clone(), Some("nope")).expect_err("unknown");
    assert_eq!(error, PlanError::UnknownEntrypoint("nope".to_string()));
    assert_eq!(error.to_string(), "requested entrypoint `nope` was not found in `[project.scripts]`");

    let empty = project("demo-app", &[], None);
    let metadata = resolve_project_metadata("/p", empty, files(SourceFile::Missing, SourceFile::Missing), None)
        .expect("metadata");
    let error = BuildPlan::resolve(metadata, None).expect_err("empty");
    assert_eq!(error, PlanError::NoScripts);
    assert!(error.to_string().contains("`[project.scripts]` is empty"));
}

#[test]
fn inner_env_lives_inside_the_conda_prefix() {
    let manifest = project("demo-app", &[("demo", "demo.cli:main")], None);
    let metadata = resolve_project_metadata("/p", manifest, files(SourceFile::Missing, SourceFile::Missing), None)
        .expect("metadata");
    let plan = BuildPlan::resolve(metadata, None).expect("plan");
    assert_eq!(plan.inner_env_path_for("/w/conda-prefix"), "/w/conda-prefix/uv-env");
    assert_eq!(plan.inner_env_path_for("/w/conda-prefix/"), "/w/conda-prefix/uv-env");
    assert_eq!(plan.inner_env_path_for(""), "uv-env");
}

#[test]
fn script_table_insert_replaces() {
    let mut table = ScriptTable::new();
    table.insert("a".to_string(), "1".to_string());
    table.insert("a".to_string(), "2".to_string());
    assert_eq!(table.len(), 1);
    assert_eq!(table.get("a").map(String::as_str), Some("2"));
    assert_eq!(table.get("b"), None);
    let copy = table.clone();
    assert_eq!(copy, table);
    assert_eq!(ProjectMetadataSource::Poetry.description(), "[tool.poetry] in pyproject.toml");
}

#[test]
fn script_tables_compare_by_content() {
    let a = scripts(&[("one", "m:one"), ("two", "m:two")]);
    let b = scripts(&[("two", "m:two"), ("one", "m:one")]);
    assert!(a == b);
    let c = scripts(&[("one", "m:one"), ("two", "m:other")]);
    assert!(a != c);
    let d = scripts(&[("one", "m:one")]);
    assert!(a != d);
}
