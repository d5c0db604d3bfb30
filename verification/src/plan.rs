//! The planner: the exact sequence of filesystem and process actions one run
//! performs, per input and at run start.
//!
//! The surrounding binary executes each action in order; the contracts here
//! pin the whole sequence, so the cache discipline — in particular that the
//! digest is written before the compiler runs — is part of what is proved.
use crate::bytes::NEWLINE;
use crate::bytes::append_bytes;
use crate::bytes::comp_seq;
use crate::bytes::comp_vec;
use crate::bytes::flag_debug_seq;
use crate::bytes::flag_debug_vec;
use crate::bytes::flag_no_opt_seq;
use crate::bytes::flag_no_opt_vec;
use crate::bytes::flag_output_seq;
use crate::bytes::flag_output_vec;
use crate::bytes::frag_seq;
use crate::bytes::frag_vec;
use crate::bytes::glslc_seq;
use crate::bytes::glslc_vec;
use crate::bytes::output_infix_seq;
use crate::bytes::output_infix_vec;
use crate::bytes::processing_prefix_seq;
use crate::bytes::processing_prefix_vec;
use crate::bytes::skipped_line_seq;
use crate::bytes::skipped_line_vec;
use crate::bytes::star_dot_seq;
use crate::bytes::star_dot_vec;
use crate::bytes::star_star_seq;
use crate::bytes::star_star_vec;
use crate::bytes::vec_of;
use crate::bytes::vert_seq;
use crate::bytes::vert_vec;
use crate::decide::Decision;
use crate::decide::decide;
use crate::decide::spec_decide;
use crate::digest::cache_line;
use crate::digest::make_cache_line;
use crate::paths::map_paths;
use crate::paths::middle_dirs;
use crate::paths::path_join;
use crate::paths::spec_artifact_path;
use crate::paths::spec_cache_dir;
use crate::paths::spec_cache_path;
use crate::paths::spec_spv_dir;
use vstd::prelude::*;

verus! {

/// One step a run takes against the world outside the library.
pub enum Action {
    /// Create this directory, and its parents, if it does not exist.
    EnsureDir(Vec<u8>),
    /// Remove this directory and everything under it.
    RemoveTree(Vec<u8>),
    /// Remove this file if it exists.
    RemoveFile(Vec<u8>),
    /// Create or truncate the first path and write the second value into it,
    /// flushing before moving on.
    WriteFile(Vec<u8>, Vec<u8>),
    /// Spawn the program named by the first argument with the remaining
    /// arguments, wait for it, and forward its standard error.
    RunCompiler(Vec<Vec<u8>>),
    /// Write these bytes to standard output.
    Print(Vec<u8>),
}

/// The mathematical shape of an [`Action`].
pub enum ActionModel {
    /// Create this directory, and its parents, if absent.
    EnsureDir(Seq<u8>),
    /// Remove this directory recursively.
    RemoveTree(Seq<u8>),
    /// Remove this file if it exists.
    RemoveFile(Seq<u8>),
    /// Write the value into the file, creating or truncating it.
    WriteFile(Seq<u8>, Seq<u8>),
    /// Spawn this argument vector and forward its standard error.
    RunCompiler(Seq<Seq<u8>>),
    /// Write these bytes to standard output.
    Print(Seq<u8>),
}

impl View for Action {
    type V = ActionModel;

    open spec fn view(&self) -> ActionModel {
        match self {
            Action::EnsureDir(p) => ActionModel::EnsureDir(p@),
            Action::RemoveTree(p) => ActionModel::RemoveTree(p@),
            Action::RemoveFile(p) => ActionModel::RemoveFile(p@),
            Action::WriteFile(p, v) => ActionModel::WriteFile(p@, v@),
            Action::RunCompiler(args) => ActionModel::RunCompiler(args.deep_view()),
            Action::Print(line) => ActionModel::Print(line@),
        }
    }
}

/// The views of a sequence of actions.
pub open spec fn action_views(actions: Seq<Action>) -> Seq<ActionModel> {
    actions.map_values(|a: Action| a@)
}

/// The progress line announced for one input, without a trailing newline.
pub open spec fn spec_progress_line(path: Seq<u8>, artifact: Seq<u8>) -> Seq<u8> {
    processing_prefix_seq() + path + output_infix_seq() + artifact
}

/// Renders the progress line for one input and its artifact path.
pub fn progress_line(path: &Vec<u8>, artifact: &Vec<u8>) -> (r: Vec<u8>)
    ensures
        r@ == spec_progress_line(path@, artifact@),
{
    let mut r = processing_prefix_vec();
    append_bytes(&mut r, path.as_slice());
    append_bytes(&mut r, output_infix_vec().as_slice());
    append_bytes(&mut r, artifact.as_slice());
    proof {
        assert(r@ =~= spec_progress_line(path@, artifact@));
    }
    r
}

/// The full argument vector of one compiler invocation, program name first:
/// `glslc <input> -g -O0 -o <artifact>`.
pub open spec fn spec_compiler_argv(input: Seq<u8>, artifact: Seq<u8>) -> Seq<Seq<u8>> {
    seq![glslc_seq(), input, flag_debug_seq(), flag_no_opt_seq(), flag_output_seq(), artifact]
}

/// Builds the argument vector of one compiler invocation.
pub fn compiler_argv(input: &Vec<u8>, artifact: &Vec<u8>) -> (r: Vec<Vec<u8>>)
    ensures
        r.deep_view() == spec_compiler_argv(input@, artifact@),
{
    let mut r: Vec<Vec<u8>> = Vec::new();
    r.push(glslc_vec());
    r.push(vec_of(input.as_slice()));
    r.push(flag_debug_vec());
    r.push(flag_no_opt_vec());
    r.push(flag_output_vec());
    r.push(vec_of(artifact.as_slice()));
    proof {
        assert(r.deep_view() =~~= spec_compiler_argv(input@, artifact@));
    }
    r
}

/// The actions every input causes before its decision is acted on: the
/// output root and both mirrored directories are ensured, and the progress
/// line is announced.
pub open spec fn spec_prelude_actions(
    output_root: Seq<u8>,
    dirs: Seq<u8>,
    progress: Seq<u8>,
) -> Seq<ActionModel> {
    seq![
        ActionModel::EnsureDir(output_root),
        ActionModel::EnsureDir(spec_spv_dir(output_root, dirs)),
        ActionModel::EnsureDir(spec_cache_dir(output_root, dirs)),
        ActionModel::Print(progress),
    ]
}

/// The actions a rebuild appends after the prelude: any stale artifact and
/// cache record are removed, the progress line is closed, the fresh digest
/// is written to the cache record, and only then is the compiler run.
pub open spec fn spec_rebuild_actions(
    input: Seq<u8>,
    artifact: Seq<u8>,
    cache_path: Seq<u8>,
    digest: Seq<u8>,
) -> Seq<ActionModel> {
    seq![
        ActionModel::RemoveFile(artifact),
        ActionModel::RemoveFile(cache_path),
        ActionModel::Print(seq![NEWLINE]),
        ActionModel::WriteFile(cache_path, cache_line(digest)),
        ActionModel::RunCompiler(spec_compiler_argv(input, artifact)),
    ]
}

/// The whole action sequence for one input, as decided by its fresh digest
/// and the raw contents of its cache record.
pub open spec fn spec_plan_actions(
    path: Seq<u8>,
    components: Seq<Seq<u8>>,
    output_root: Seq<u8>,
    digest: Seq<u8>,
    cached: Option<Seq<u8>>,
) -> Seq<ActionModel> {
    let dirs = middle_dirs(components);
    let name = components.last();
    let artifact = spec_artifact_path(output_root, dirs, name);
    let cache_path = spec_cache_path(output_root, dirs, name);
    let prelude = spec_prelude_actions(output_root, dirs, spec_progress_line(path, artifact));
    if spec_decide(digest, cached) == Decision::Skip {
        prelude + seq![ActionModel::Print(skipped_line_seq())]
    } else {
        prelude + spec_rebuild_actions(path, artifact, cache_path, digest)
    }
}

/// The plan for one input: the decision taken and the actions, in order,
/// that carry it out.
pub struct Plan {
    /// Whether the input is skipped or rebuilt.
    pub decision: Decision,
    /// The actions to perform, in order.
    pub actions: Vec<Action>,
}

/// Plans one input from its path, its path components, the output root, the
/// freshly computed digest of its contents, and the raw contents of its
/// cache record (`None` when no record exists).
pub fn plan_input(
    path: &Vec<u8>,
    components: &Vec<Vec<u8>>,
    output_root: &Vec<u8>,
    digest: &Vec<u8>,
    cached: &Option<Vec<u8>>,
) -> (p: Plan)
    requires
        components@.len() >= 3,
    ensures
        p.decision == spec_decide(digest@, cached.deep_view()),
        action_views(p.actions@) == spec_plan_actions(
            path@,
            components.deep_view(),
            output_root@,
            digest@,
            cached.deep_view(),
        ),
{
    let m = map_paths(components, output_root);
    let decision = decide(digest, cached);
    let progress = progress_line(path, &m.artifact_path);

    let mut actions: Vec<Action> = Vec::new();
    actions.push(Action::EnsureDir(vec_of(output_root.as_slice())));
    actions.push(Action::EnsureDir(m.spv_dir));
    actions.push(Action::EnsureDir(m.cache_dir));
    actions.push(Action::Print(progress));

    match decision {
        Decision::Skip => {
            actions.push(Action::Print(skipped_line_vec()));
        },
        Decision::Rebuild => {
            actions.push(Action::RemoveFile(vec_of(m.artifact_path.as_slice())));
            actions.push(Action::RemoveFile(vec_of(m.cache_path.as_slice())));
            let mut line_end: Vec<u8> = Vec::new();
            line_end.push(NEWLINE);
            actions.push(Action::Print(line_end));
            let argv = compiler_argv(path, &m.artifact_path);
            actions.push(Action::WriteFile(m.cache_path, make_cache_line(digest)));
            actions.push(Action::RunCompiler(argv));
        },
    }
    proof {
        assert(action_views(actions@) =~~= spec_plan_actions(
            path@,
            components.deep_view(),
            output_root@,
            digest@,
            cached.deep_view(),
        ));
    }
    Plan { decision, actions }
}

/// Plans the start of a run: with the force-rebuild flag set and an existing
/// output root, the whole output root is removed first; otherwise nothing
/// happens.
pub fn plan_run_start(force_all: bool, root_exists: bool, output_root: &Vec<u8>) -> (r: Option<
    Action,
>)
    ensures
        match r {
            Some(a) => force_all && root_exists && a@ == ActionModel::RemoveTree(output_root@),
            None => !(force_all && root_exists),
        },
{
    if force_all && root_exists {
        Some(Action::RemoveTree(vec_of(output_root.as_slice())))
    } else {
        None
    }
}

/// The recognised shader extensions, in the order a run visits them:
/// `vert`, then `frag`, then `comp`.
pub fn extensions() -> (r: Vec<Vec<u8>>)
    ensures
        r.deep_view() == seq![vert_seq(), frag_seq(), comp_seq()],
{
    let mut r: Vec<Vec<u8>> = Vec::new();
    r.push(vert_vec());
    r.push(frag_vec());
    r.push(comp_vec());
    proof {
        assert(r.deep_view() =~~= seq![vert_seq(), frag_seq(), comp_seq()]);
    }
    r
}

/// The glob pattern that enumerates one extension below the shader root:
/// `<shader_root>/**/*.<ext>`.
pub open spec fn spec_glob_pattern(shader_root: Seq<u8>, ext: Seq<u8>) -> Seq<u8> {
    path_join(path_join(shader_root, star_star_seq()), star_dot_seq() + ext)
}

/// Builds the glob pattern that enumerates one extension below the shader
/// root.
pub fn glob_pattern(shader_root: &Vec<u8>, ext: &Vec<u8>) -> (r: Vec<u8>)
    ensures
        r@ == spec_glob_pattern(shader_root@, ext@),
{
    let base = crate::paths::join_path(shader_root, star_star_vec().as_slice());
    let mut name = star_dot_vec();
    append_bytes(&mut name, ext.as_slice());
    crate::paths::join_path(&base, name.as_slice())
}

/// The cache record is written before the compiler runs: in every rebuild
/// plan the second-to-last action writes the fresh digest's cache line to
/// the cache path, the last action is the one compiler invocation, and no
/// other action writes a file or runs a process.
pub proof fn lemma_cache_write_before_compile(
    path: Seq<u8>,
    components: Seq<Seq<u8>>,
    output_root: Seq<u8>,
    digest: Seq<u8>,
    cached: Option<Seq<u8>>,
)
    requires
        components.len() >= 3,
        spec_decide(digest, cached) == Decision::Rebuild,
    ensures
        ({
            let p = spec_plan_actions(path, components, output_root, digest, cached);
            let dirs = middle_dirs(components);
            let name = components.last();
            let artifact = spec_artifact_path(output_root, dirs, name);
            let cache_path = spec_cache_path(output_root, dirs, name);
            &&& p.len() == 9
            &&& p[7] == ActionModel::WriteFile(cache_path, cache_line(digest))
            &&& p[8] == ActionModel::RunCompiler(spec_compiler_argv(path, artifact))
            &&& forall|i: int| 0 <= i < p.len() && i != 7 ==> !(#[trigger] p[i] is WriteFile)
            &&& forall|i: int| 0 <= i < p.len() && i != 8 ==> !(#[trigger] p[i] is RunCompiler)
        }),
{
}

/// A skipped input touches nothing: its plan only ensures directories and
/// prints, so no file is removed or written and no compiler runs.
pub proof fn lemma_skip_plan_is_passive(
    path: Seq<u8>,
    components: Seq<Seq<u8>>,
    output_root: Seq<u8>,
    digest: Seq<u8>,
    cached: Option<Seq<u8>>,
)
    requires
        components.len() >= 3,
        spec_decide(digest, cached) == Decision::Skip,
    ensures
        ({
            let p = spec_plan_actions(path, components, output_root, digest, cached);
            &&& p.len() == 5
            &&& p[4] == ActionModel::Print(skipped_line_seq())
            &&& forall|i: int|
                0 <= i < p.len() ==> (#[trigger] p[i] is EnsureDir || p[i] is Print)
        }),
{
}

} // verus!
