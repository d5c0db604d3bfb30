//! What a planned run does to the files on disk: a model of action
//! execution, and proofs that the cache discipline holds whatever the
//! external compiler does.
use crate::bytes::SLASH;
use crate::bytes::md5_suffix_seq;
use crate::bytes::spv_suffix_seq;
use crate::decide::Decision;
use crate::decide::spec_decide;
use crate::digest::cache_line;
use crate::paths::middle_dirs;
use crate::paths::path_join;
use crate::paths::spec_artifact_path;
use crate::paths::spec_cache_path;
use crate::plan::ActionModel;
use crate::plan::spec_compiler_argv;
use crate::plan::spec_plan_actions;
use vstd::prelude::*;

verus! {

/// Whether a path lies at or under a directory root.
pub open spec fn under_tree(root: Seq<u8>, path: Seq<u8>) -> bool {
    ||| path == root
    ||| (root.is_prefix_of(path) && path.len() > root.len() && (root.len() == 0
        || root.last() == SLASH || path[root.len() as int] == SLASH))
}

/// The files on disk after one action, as a map from path to contents.
///
/// Directories and console output are not part of the map. The compiler is
/// modelled as writing at most its own output path, the last entry of its
/// argument vector: `compiler_output` is what it leaves there, `None` when
/// it fails and leaves nothing.
pub open spec fn files_after_action(
    files: Map<Seq<u8>, Seq<u8>>,
    action: ActionModel,
    compiler_output: Option<Seq<u8>>,
) -> Map<Seq<u8>, Seq<u8>> {
    match action {
        ActionModel::EnsureDir(_) => files,
        ActionModel::Print(_) => files,
        ActionModel::RemoveTree(root) => Map::new(
            |k: Seq<u8>| files.dom().contains(k) && !under_tree(root, k),
            |k: Seq<u8>| files[k],
        ),
        ActionModel::RemoveFile(p) => files.remove(p),
        ActionModel::WriteFile(p, v) => files.insert(p, v),
        ActionModel::RunCompiler(argv) => match compiler_output {
            Some(out) => files.insert(argv.last(), out),
            None => files,
        },
    }
}

/// The files on disk after a sequence of actions that invokes the compiler
/// at most once, executed in order.
pub open spec fn files_after_plan(
    files: Map<Seq<u8>, Seq<u8>>,
    actions: Seq<ActionModel>,
    compiler_output: Option<Seq<u8>>,
) -> Map<Seq<u8>, Seq<u8>>
    decreases actions.len(),
{
    if actions.len() == 0 {
        files
    } else {
        files_after_action(
            files_after_plan(files, actions.drop_last(), compiler_output),
            actions.last(),
            compiler_output,
        )
    }
}

/// Joining a non-empty segment keeps the segment's last byte last.
proof fn lemma_path_join_last(base: Seq<u8>, segment: Seq<u8>)
    requires
        segment.len() > 0,
    ensures
        path_join(base, segment).len() > 0,
        path_join(base, segment).last() == segment.last(),
{
}

/// The artifact and cache-record paths of one source never coincide: one
/// ends in `.spv`, the other in `.md5`.
pub proof fn lemma_artifact_and_cache_differ(output_root: Seq<u8>, dirs: Seq<u8>, name: Seq<u8>)
    ensures
        spec_artifact_path(output_root, dirs, name) != spec_cache_path(output_root, dirs, name),
{
    lemma_path_join_last(
        crate::paths::spec_spv_dir(output_root, dirs),
        name + spv_suffix_seq(),
    );
    lemma_path_join_last(
        crate::paths::spec_cache_dir(output_root, dirs),
        name + md5_suffix_seq(),
    );
    assert((name + spv_suffix_seq()).last() == 118);
    assert((name + md5_suffix_seq()).last() == 53);
}

/// A joined path lies under its base.
proof fn lemma_path_join_under(base: Seq<u8>, segment: Seq<u8>)
    ensures
        under_tree(base, path_join(base, segment)),
{
    let k = path_join(base, segment);
    if base.len() == 0 {
        if segment.len() == 0 {
            assert(k == base);
        } else {
            assert(base.is_prefix_of(k));
        }
    } else if base.last() == SLASH {
        if segment.len() == 0 {
            assert(k =~= base);
        } else {
            assert(k.subrange(0, base.len() as int) =~= base);
        }
    } else {
        assert(k.subrange(0, base.len() as int) =~= base);
        assert(k[base.len() as int] == SLASH);
    }
}

/// Lying under a tree is transitive.
proof fn lemma_under_tree_trans(a: Seq<u8>, b: Seq<u8>, c: Seq<u8>)
    requires
        under_tree(a, b),
        under_tree(b, c),
    ensures
        under_tree(a, c),
{
    if b != a && c != b {
        assert(c.subrange(0, a.len() as int) =~= b.subrange(0, a.len() as int));
    }
}

/// Every path the mapper assigns lies under the output root, so wiping the
/// output root removes every artifact and every cache record.
pub proof fn lemma_mapped_paths_lie_under_output_root(
    output_root: Seq<u8>,
    dirs: Seq<u8>,
    name: Seq<u8>,
)
    ensures
        under_tree(output_root, spec_artifact_path(output_root, dirs, name)),
        under_tree(output_root, spec_cache_path(output_root, dirs, name)),
{
    let spv_base = path_join(output_root, crate::bytes::spv_seq());
    let spv_dir = crate::paths::spec_spv_dir(output_root, dirs);
    lemma_path_join_under(output_root, crate::bytes::spv_seq());
    lemma_path_join_under(spv_base, dirs);
    lemma_under_tree_trans(output_root, spv_base, spv_dir);
    lemma_path_join_under(spv_dir, name + spv_suffix_seq());
    lemma_under_tree_trans(output_root, spv_dir, spec_artifact_path(output_root, dirs, name));

    let cache_base = path_join(output_root, crate::bytes::cache_dirname_seq());
    let cache_dir = crate::paths::spec_cache_dir(output_root, dirs);
    lemma_path_join_under(output_root, crate::bytes::cache_dirname_seq());
    lemma_path_join_under(cache_base, dirs);
    lemma_under_tree_trans(output_root, cache_base, cache_dir);
    lemma_path_join_under(cache_dir, name + md5_suffix_seq());
    lemma_under_tree_trans(output_root, cache_dir, spec_cache_path(output_root, dirs, name));
}

/// Wiping the output root leaves no file at or under it; with every cache
/// record gone, the following run rebuilds every input.
pub proof fn lemma_wipe_clears_output_root(
    files: Map<Seq<u8>, Seq<u8>>,
    output_root: Seq<u8>,
    compiler_output: Option<Seq<u8>>,
)
    ensures
        forall|k: Seq<u8>| #[trigger]
            under_tree(output_root, k) ==> !files_after_action(
                files,
                ActionModel::RemoveTree(output_root),
                compiler_output,
            ).dom().contains(k),
{
}

/// After a rebuild plan runs, the cache record of the input holds exactly
/// the fresh digest's line — whether or not the compiler produced anything.
/// When the compiler does produce an artifact, artifact and cache record
/// co-exist afterwards.
pub proof fn lemma_rebuild_leaves_fresh_cache(
    files: Map<Seq<u8>, Seq<u8>>,
    path: Seq<u8>,
    components: Seq<Seq<u8>>,
    output_root: Seq<u8>,
    digest: Seq<u8>,
    cached: Option<Seq<u8>>,
    compiler_output: Option<Seq<u8>>,
)
    requires
        components.len() >= 3,
        spec_decide(digest, cached) == Decision::Rebuild,
    ensures
        ({
            let after = files_after_plan(
                files,
                spec_plan_actions(path, components, output_root, digest, cached),
                compiler_output,
            );
            let cache_path = spec_cache_path(
                output_root,
                middle_dirs(components),
                components.last(),
            );
            let artifact = spec_artifact_path(
                output_root,
                middle_dirs(components),
                components.last(),
            );
            &&& after.dom().contains(cache_path)
            &&& after[cache_path] == cache_line(digest)
            &&& compiler_output matches Some(out) ==> after.dom().contains(artifact)
                && after[artifact] == out
        }),
{
    let dirs = middle_dirs(components);
    let name = components.last();
    let artifact = spec_artifact_path(output_root, dirs, name);
    let cache_path = spec_cache_path(output_root, dirs, name);
    let p = spec_plan_actions(path, components, output_root, digest, cached);
    assert(p.len() == 9);
    assert(p.last() == ActionModel::RunCompiler(spec_compiler_argv(path, artifact)));
    let q = p.drop_last();
    assert(q.last() == p[7]);
    assert(p[7] == ActionModel::WriteFile(cache_path, cache_line(digest)));
    let before_write = files_after_plan(files, q.drop_last(), compiler_output);
    let after_write = files_after_plan(files, q, compiler_output);
    assert(after_write == before_write.insert(cache_path, cache_line(digest)));
    lemma_artifact_and_cache_differ(output_root, dirs, name);
    assert(spec_compiler_argv(path, artifact).last() == artifact);
}

/// A skipped input changes no file at all: executing its plan returns the
/// files unchanged.
pub proof fn lemma_skip_changes_no_file(
    files: Map<Seq<u8>, Seq<u8>>,
    path: Seq<u8>,
    components: Seq<Seq<u8>>,
    output_root: Seq<u8>,
    digest: Seq<u8>,
    cached: Option<Seq<u8>>,
    compiler_output: Option<Seq<u8>>,
)
    requires
        components.len() >= 3,
        spec_decide(digest, cached) == Decision::Skip,
    ensures
        files_after_plan(
            files,
            spec_plan_actions(path, components, output_root, digest, cached),
            compiler_output,
        ) == files,
{
    let p = spec_plan_actions(path, components, output_root, digest, cached);
    assert(p.len() == 5);
    let p4 = p.drop_last();
    let p3 = p4.drop_last();
    let p2 = p3.drop_last();
    let p1 = p2.drop_last();
    let p0 = p1.drop_last();
    assert(p0.len() == 0);
    let f0 = files_after_plan(files, p0, compiler_output);
    assert(f0 == files);
    let f1 = files_after_plan(files, p1, compiler_output);
    assert(p1.last() == p[0] && p[0] is EnsureDir);
    assert(f1 == files_after_action(f0, p1.last(), compiler_output));
    assert(f1 == f0);
    let f2 = files_after_plan(files, p2, compiler_output);
    assert(p2.last() == p[1] && p[1] is EnsureDir);
    assert(f2 == files_after_action(f1, p2.last(), compiler_output));
    assert(f2 == f1);
    let f3 = files_after_plan(files, p3, compiler_output);
    assert(p3.last() == p[2] && p[2] is EnsureDir);
    assert(f3 == files_after_action(f2, p3.last(), compiler_output));
    assert(f3 == f2);
    let f4 = files_after_plan(files, p4, compiler_output);
    assert(p4.last() == p[3] && p[3] is Print);
    assert(f4 == files_after_action(f3, p4.last(), compiler_output));
    assert(f4 == f3);
    let f5 = files_after_plan(files, p, compiler_output);
    assert(p.last() == p[4] && p[4] is Print);
    assert(f5 == files_after_action(f4, p.last(), compiler_output));
    assert(f5 == f4);
}

} // verus!
