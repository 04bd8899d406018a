use pybin::commands::doctor::{
    conda_failure_message, conda_version_line, first_non_empty_line, missing_conda_guidance,
    missing_marker_message,
};
use pybin::commands::inspect::{
    entrypoint_source, format_python_request, interactive_ui_enabled_for, not_packable_message,
    value, yes_no,
};
use pybin::logging::log_filter_directive;
use pybin::project::{PythonRequest, PythonRequestSource};
use pybin::runner::{
    CacheBase, CacheDir, CacheState, RunnerError, cache_dir_for, cache_folder_name, cache_path,
    cache_state,
    extraction_needed, progress_enabled_for,
};
use std::path::PathBuf;

fn cache_dir_path(dir: CacheDir) -> PathBuf {
    let base = match dir.base {
        CacheBase::Configured(root) => PathBuf::from(root),
        CacheBase::LocalData(root) => root,
    };
    dir.components.iter().fold(base, |path, component| path.join(component))
}

#[test]
fn default_cache_path_uses_visible_pybin_namespace() {
    let path = cache_dir_path(cache_path(None, None, "demo-package").expect("default cache path"));
    assert!(path.ends_with("pybin/packages/demo-package"));
    assert!(!path.to_string_lossy().contains(".pybin"));
}

#[test]
fn cache_variables_take_precedence() {
    let dir = cache_path(Some("/a"), Some("/b"), "t").unwrap();
    assert!(matches!(&dir.base, CacheBase::Configured(root) if root == "/a"));
    assert_eq!(dir.components, vec!["packages".to_string(), "t".to_string()]);
    assert_eq!(cache_dir_path(dir), PathBuf::from("/a/packages/t"));
    let dir = cache_path(None, Some("/b/"), "t").unwrap();
    assert!(matches!(&dir.base, CacheBase::Configured(root) if root == "/b/"));
    assert_eq!(cache_dir_path(dir), PathBuf::from("/b/packages/t"));
    let dir = cache_path(None, None, "t").unwrap();
    assert!(matches!(&dir.base, CacheBase::LocalData(_)));
    assert_eq!(
        dir.components,
        vec!["pybin".to_string(), "packages".to_string(), "t".to_string()]
    );
    assert_eq!(
        RunnerError::NoLocalDataDir.to_string(),
        "no local data directory was available for cache extraction"
    );
}

#[test]
fn cache_folder_carries_the_build_uid() {
    assert_eq!(cache_folder_name("hello-sfx", "abc"), "hello-sfx.abc");
    assert_eq!(cache_folder_name("hello-sfx", ""), "hello-sfx");
}

#[test]
fn extraction_and_progress_decisions() {
    assert!(extraction_needed(CacheState::Missing));
    assert!(extraction_needed(CacheState::Stale));
    assert!(!extraction_needed(CacheState::Current));
    assert_eq!(cache_state(None, 5), CacheState::Missing);
    assert_eq!(cache_state(Some(4), 5), CacheState::Stale);
    assert_eq!(cache_state(Some(5), 5), CacheState::Current);
    assert_eq!(cache_state(Some(-3), -1), CacheState::Stale);
    assert!(progress_enabled_for(false, true, true, None));
    assert!(progress_enabled_for(false, true, true, Some("xterm")));
    assert!(!progress_enabled_for(false, true, true, Some("dumb")));
    assert!(!progress_enabled_for(true, true, true, None));
    assert!(!progress_enabled_for(false, false, true, None));
    assert!(interactive_ui_enabled_for(true, true, Some("xterm-256color")));
    assert!(!interactive_ui_enabled_for(true, false, None));
    assert!(!interactive_ui_enabled_for(true, true, Some("dumb")));
}

#[test]
fn missing_conda_guidance_mentions_miniforge() {
    let guidance = missing_conda_guidance("linux");
    assert!(guidance.contains("Miniforge"));
    assert!(
        guidance.contains("https://conda-forge.org/download/")
            || guidance.contains("github.com/conda-forge/miniforge/releases/latest/download")
    );
    assert!(guidance.contains("conda --version"));
}

#[test]
fn guidance_depends_on_the_operating_system() {
    assert!(missing_conda_guidance("macos").contains("curl -L -O"));
    assert!(missing_conda_guidance("windows").contains("Miniforge3-Windows-x86_64.exe"));
    let other = missing_conda_guidance("freebsd");
    assert!(other.contains("After installing, open a new shell and run:"));
    assert!(!other.contains("curl"));
}

#[test]
fn conda_output_lines() {
    assert_eq!(first_non_empty_line(b"\n  \n conda 24.11.2 \n").as_deref(), Some("conda 24.11.2"));
    assert_eq!(first_non_empty_line(b" \n\t"), None);
    assert_eq!(conda_version_line(b"", b"conda 23.1\n"), "conda 23.1");
    assert_eq!(conda_version_line(b"conda 24\n", b"x"), "conda 24");
    assert_eq!(conda_version_line(b"", b""), "conda <unknown>");
    assert_eq!(
        conda_failure_message(b"out", b"err"),
        "`conda --version` failed.\nstdout:\nout\n\nstderr:\nerr"
    );
    assert_eq!(first_non_empty_line(&[0xff, b'\n', b'a']).as_deref(), Some("\u{fffd}"));
    assert_eq!(
        missing_marker_message("/p"),
        "`/p` does not contain a supported project marker (`pyproject.toml`, `setup.py`, or `requirements.txt`)"
    );
}

#[test]
fn inspect_report_pieces() {
    let request = PythonRequest { value: "3.12".to_string(), source: PythonRequestSource::DotVenv };
    assert_eq!(format_python_request(&request), "3.12 (.venv/pyvenv.cfg)");
    assert_eq!(yes_no(true), "yes");
    assert_eq!(yes_no(false), "no");
    assert_eq!(value("x"), "x");
    assert_eq!(entrypoint_source(true), "set explicitly with `--entrypoint`");
    assert_eq!(not_packable_message(None, None), None);
    assert_eq!(
        not_packable_message(Some("no conda"), Some("no plan")).as_deref(),
        Some("project is not packable: no plan; no conda")
    );
    assert_eq!(
        not_packable_message(Some("no conda"), None).as_deref(),
        Some("project is not packable: no conda")
    );
    assert_eq!(
        not_packable_message(None, Some("no plan")).as_deref(),
        Some("project is not packable: no plan")
    );
}

#[test]
fn log_filters() {
    assert_eq!(log_filter_directive(3, true), Some("error"));
    assert_eq!(log_filter_directive(2, false), Some("debug"));
    assert_eq!(log_filter_directive(1, false), Some("info"));
    assert_eq!(log_filter_directive(0, false), None);
}

#[test]
fn local_data_directory_is_the_default_base() {
    let dir = cache_dir_for(None, None, Some(PathBuf::from("/home/u/.local/share")), "demo-package")
        .expect("cache dir");
    assert_eq!(
        cache_dir_path(dir),
        PathBuf::from("/home/u/.local/share/pybin/packages/demo-package")
    );
    let dir = cache_dir_for(Some("/a"), None, Some(PathBuf::from("/home/u/.local/share")), "t")
        .expect("cache dir");
    assert_eq!(cache_dir_path(dir), PathBuf::from("/a/packages/t"));
    assert!(matches!(
        cache_dir_for(None, None, None, "t"),
        Err(RunnerError::NoLocalDataDir)
    ));
}
