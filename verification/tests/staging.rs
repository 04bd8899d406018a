use pybin::commands::inspect::{inner_env_display, missing_marker_hint, resolve_output_path};
use pybin::plan::BuildPlan;
use pybin::project::{ProjectMetadataSource, PythonRequest, PythonRequestSource};
use pybin::staging::{
    command_failure_message, conda_python_spec, create_env_args, create_inner_env_args,
    default_work_dir, launcher_relpath, launcher_script, pack_env_args, sync_args, sync_env,
};

fn plan(uv_lock_present: bool) -> BuildPlan {
    BuildPlan {
        project_root: "/src/demo".to_string(),
        package_name: "demo-app".to_string(),
        python_request: None,
        metadata_source: ProjectMetadataSource::Pep621Project,
        entrypoint_name: "demo".to_string(),
        entrypoint_target: "demo.cli:main".to_string(),
        uv_lock_present,
        inner_env_relative_path: "uv-env".to_string(),
    }
}

fn request(value: &str, source: PythonRequestSource) -> PythonRequest {
    PythonRequest { value: value.to_string(), source }
}

#[test]
fn conda_python_specs() {
    assert_eq!(conda_python_spec(None), "python");
    assert_eq!(
        conda_python_spec(Some(&request("3.12.7", PythonRequestSource::DotPythonVersion))),
        "python=3.12.7"
    );
    assert_eq!(
        conda_python_spec(Some(&request("3.11", PythonRequestSource::Override))),
        "python=3.11"
    );
    assert_eq!(
        conda_python_spec(Some(&request(">=3.12,<3.13", PythonRequestSource::RequiresPython))),
        "python>=3.12,<3.13"
    );
    assert_eq!(
        conda_python_spec(Some(&request("3.10", PythonRequestSource::RequiresPython))),
        "python=3.10"
    );
    assert_eq!(
        conda_python_spec(Some(&request("~=3.9", PythonRequestSource::SetupPyPythonRequires))),
        "python~=3.9"
    );
}

#[test]
fn launcher_paths_and_script() {
    assert_eq!(launcher_relpath("demo"), "bin/pybin-demo");
    let script = launcher_script(&plan(false));
    assert!(script.starts_with("#!/usr/bin/env bash\n"));
    assert!(script.contains("export PATH=\"$ROOT_DIR/uv-env/bin:$ROOT_DIR/bin:$PATH\"\n"));
    assert!(script.ends_with("exec \"$ROOT_DIR/uv-env/bin/demo\" \"$@\"\n"));
}

#[test]
fn staged_build_commands() {
    assert_eq!(
        create_env_args("/w/p", "python=3.12"),
        vec!["create", "--yes", "--prefix", "/w/p", "python=3.12", "uv", "conda-pack"]
    );
    assert_eq!(
        create_inner_env_args("/w/p", "/w/p/uv-env"),
        vec!["run", "--prefix", "/w/p", "uv", "venv", "/w/p/uv-env", "--python", "/w/p/bin/python"]
    );
    assert_eq!(
        sync_args(&plan(false), "/w/p"),
        vec!["run", "--prefix", "/w/p", "uv", "sync", "--project", "/src/demo", "--no-editable"]
    );
    assert_eq!(sync_args(&plan(true), "/w/p").last().map(String::as_str), Some("--frozen"));
    assert_eq!(
        sync_env("/w/p/uv-env"),
        vec![
            ("UV_PROJECT_ENVIRONMENT".to_string(), "/w/p/uv-env".to_string()),
            ("UV_LINK_MODE".to_string(), "copy".to_string()),
        ]
    );
    assert_eq!(
        pack_env_args("/w/p", "/w/env.tar.gz"),
        vec!["run", "--prefix", "/w/p", "conda-pack", "--prefix", "/w/p", "--force", "--output", "/w/env.tar.gz"]
    );
    assert_eq!(
        command_failure_message("conda", &vec!["run".to_string(), "x y".to_string()]),
        "command failed: conda run x y"
    );
    assert_eq!(command_failure_message("conda", &Vec::new()), "command failed: conda ");
}

#[test]
fn build_locations() {
    assert_eq!(default_work_dir(&plan(false), 1700000000), "/src/demo/.pybin/builds/demo-app-1700000000");
    assert_eq!(resolve_output_path(&plan(false), false), "/src/demo/dist/demo");
    assert_eq!(resolve_output_path(&plan(false), true), "/src/demo/dist/demo.exe");
    assert_eq!(inner_env_display(&plan(false)), "<conda-prefix>/uv-env");
    assert_eq!(
        missing_marker_hint("/p"),
        "expected one of `/p/pyproject.toml`, `/p/setup.py`, or `/p/requirements.txt`"
    );
}
