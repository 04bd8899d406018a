//! The build plan: which console script becomes the packed executable's
//! entrypoint, and where the inner uv environment lives in the conda prefix.

use vstd::prelude::*;
use crate::project::{ProjectMetadata, ProjectMetadataSource, PythonRequest, request_view};
use crate::scripts::ScriptTable;
use crate::text::{join, join_path};

verus! {

/// The name of the inner uv environment inside the conda prefix.
pub const DEFAULT_INNER_ENV_NAME: &'static str = "uv-env";

/// What a build will package.
#[derive(Debug, Clone)]
pub struct BuildPlan {
    pub project_root: String,
    pub package_name: String,
    pub python_request: Option<PythonRequest>,
    pub metadata_source: ProjectMetadataSource,
    pub entrypoint_name: String,
    pub entrypoint_target: String,
    pub uv_lock_present: bool,
    pub inner_env_relative_path: String,
}

/// Why no entrypoint could be chosen.
#[derive(Debug, Clone, PartialEq, Eq)]
pub enum PlanError {
    /// The requested entrypoint is not among the project's scripts.
    UnknownEntrypoint(String),
    /// The project declares no scripts.
    NoScripts,
    /// The project declares several scripts and none was requested.
    MultipleScripts,
}

impl PlanError {
    /// The message shown for this error.
    pub open spec fn spec_message(self) -> Seq<char> {
        match self {
            PlanError::UnknownEntrypoint(name) => "requested entrypoint `"@ + name@
                + "` was not found in `[project.scripts]`"@,
            PlanError::NoScripts => "project is not packable yet because `[project.scripts]` is empty; pass `--entrypoint` once additional entrypoint modes exist"@,
            PlanError::MultipleScripts => "project defines multiple scripts; rerun with `--entrypoint <name>` to choose one"@,
        }
    }

    pub fn to_string(&self) -> (s: String)
        ensures
            s@ == self.spec_message(),
    {
        match self {
            PlanError::UnknownEntrypoint(name) => {
                let mut s = "requested entrypoint `".to_owned();
                s.append(name.as_str());
                s.append("` was not found in `[project.scripts]`");
                s
            },
            PlanError::NoScripts => "project is not packable yet because `[project.scripts]` is empty; pass `--entrypoint` once additional entrypoint modes exist".to_owned(),
            PlanError::MultipleScripts => "project defines multiple scripts; rerun with `--entrypoint <name>` to choose one".to_owned(),
        }
    }
}

/// The entrypoint chosen among `scripts`: the requested one when it is
/// declared; with no request, the only script.
pub open spec fn entrypoint_choice(
    scripts: Map<Seq<char>, Seq<char>>,
    entrypoint_override: Option<Seq<char>>,
    name: Seq<char>,
    target: Seq<char>,
) -> bool {
    &&& scripts.contains_key(name)
    &&& scripts[name] == target
    &&& match entrypoint_override {
        Some(o) => name == o,
        None => scripts.dom() == set![name],
    }
}

/// Whether no entrypoint can be chosen among `scripts` for the request: the
/// requested one is not declared, or none was requested and there is not
/// exactly one script.
pub open spec fn entrypoint_unavailable(
    scripts: Map<Seq<char>, Seq<char>>,
    entrypoint_override: Option<Seq<char>>,
) -> bool {
    match entrypoint_override {
        Some(o) => !scripts.contains_key(o),
        None => scripts.dom().len() != 1,
    }
}

/// Chooses the entrypoint among the project's scripts.
fn select_entrypoint(scripts: &ScriptTable, entrypoint_override: Option<&str>) -> (r: Result<
    (String, String),
    PlanError,
>)
    ensures
        match r {
            Ok((name, target)) => entrypoint_choice(
                scripts@,
                crate::project::opt_str_view(entrypoint_override),
                name@,
                target@,
            ),
            Err(e) => match entrypoint_override {
                Some(o) => !scripts@.contains_key(o@) && (e matches PlanError::UnknownEntrypoint(n)
                    && n@ == o@),
                None => (scripts@.dom().len() == 0 && e == PlanError::NoScripts) || (
                scripts@.dom().len() > 1 && e == PlanError::MultipleScripts),
            },
        },
        r is Err <==> entrypoint_unavailable(scripts@, crate::project::opt_str_view(entrypoint_override)),
{
    if let Some(name) = entrypoint_override {
        if let Some(target) = scripts.get(name) {
            return Ok((name.to_owned(), target.clone()));
        }
        return Err(PlanError::UnknownEntrypoint(name.to_owned()));
    }
    let count = scripts.len();
    if count == 0 {
        Err(PlanError::NoScripts)
    } else if count == 1 {
        match scripts.first() {
            Some((name, target)) => {
                proof {
                    let m = scripts@;
                    assert(m.dom().finite());
                    assert(m.dom().contains(name@));
                    assert(m.dom() =~= set![name@]) by {
                        assert forall|k: Seq<char>| m.dom().contains(k) implies k == name@ by {
                            if k != name@ {
                                vstd::set_lib::lemma_set_subset_finite(
                                    m.dom(),
                                    set![name@, k],
                                );
                                assert(set![name@, k].len() == 2) by {
                                    assert(set![name@, k] =~= set![name@].insert(k));
                                }
                                vstd::set_lib::lemma_len_subset(set![name@, k], m.dom());
                            }
                        }
                    }
                }
                Ok((name.clone(), target.clone()))
            },
            None => Err(PlanError::NoScripts),
        }
    } else {
        Err(PlanError::MultipleScripts)
    }
}

impl BuildPlan {
    /// The plan for a project: its metadata with the chosen entrypoint and
    /// the default inner environment name.
    pub fn resolve(metadata: ProjectMetadata, entrypoint_override: Option<&str>) -> (r: Result<
        Self,
        PlanError,
    >)
        ensures
            match r {
                Ok(plan) => {
                    &&& entrypoint_choice(
                        metadata.project_scripts@,
                        crate::project::opt_str_view(entrypoint_override),
                        plan.entrypoint_name@,
                        plan.entrypoint_target@,
                    )
                    &&& plan.project_root@ == metadata.project_root@
                    &&& plan.package_name@ == metadata.package_name@
                    &&& request_view(plan.python_request) == request_view(metadata.python_request)
                    &&& plan.metadata_source == metadata.metadata_source
                    &&& plan.uv_lock_present == metadata.uv_lock_present
                    &&& plan.inner_env_relative_path@ == "uv-env"@
                },
                Err(e) => match entrypoint_override {
                    Some(o) => !metadata.project_scripts@.contains_key(o@)
                        && (e matches PlanError::UnknownEntrypoint(n) && n@ == o@),
                    None => (metadata.project_scripts@.dom().len() == 0 && e == PlanError::NoScripts)
                        || (metadata.project_scripts@.dom().len() > 1 && e
                        == PlanError::MultipleScripts),
                },
            },
            r is Err <==> entrypoint_unavailable(
                metadata.project_scripts@,
                crate::project::opt_str_view(entrypoint_override),
            ),
    {
        let (entrypoint_name, entrypoint_target) = select_entrypoint(
            &metadata.project_scripts,
            entrypoint_override,
        )?;
        Ok(
            BuildPlan {
                project_root: metadata.project_root,
                package_name: metadata.package_name,
                python_request: metadata.python_request,
                metadata_source: metadata.metadata_source,
                entrypoint_name,
                entrypoint_target,
                uv_lock_present: metadata.uv_lock_present,
                inner_env_relative_path: DEFAULT_INNER_ENV_NAME.to_owned(),
            },
        )
    }

    /// Where the inner uv environment lives inside `conda_prefix`.
    pub fn inner_env_path_for(&self, conda_prefix: &str) -> (p: String)
        ensures
            p@ == join_path(conda_prefix@, self.inner_env_relative_path@),
    {
        join(conda_prefix, self.inner_env_relative_path.as_str())
    }
}

} // verus!
