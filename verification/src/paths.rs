//! The path mapper: from a discovered shader source to the mirrored artifact
//! and cache-record locations under the output root.
//!
//! A source path is handled as its ordered components. The first two
//! components are the shader-root prefix as the invoker spelled it and the
//! last is the file name; the components between them form the relative
//! directory that is mirrored below `spv/` and `.cache/`.
use crate::bytes::SLASH;
use crate::bytes::append_bytes;
use crate::bytes::cache_dirname_seq;
use crate::bytes::cache_dirname_vec;
use crate::bytes::md5_suffix_seq;
use crate::bytes::md5_suffix_vec;
use crate::bytes::spv_seq;
use crate::bytes::spv_suffix_seq;
use crate::bytes::spv_suffix_vec;
use crate::bytes::spv_vec;
use crate::bytes::vec_of;
use vstd::prelude::*;

verus! {

/// Joining one more path segment onto a base path, as the operating-system
/// path type does for relative segments: a separator is inserted only when
/// the base is non-empty and does not already end in one.
pub open spec fn path_join(base: Seq<u8>, segment: Seq<u8>) -> Seq<u8> {
    if base.len() == 0 {
        segment
    } else if base.last() == SLASH {
        base + segment
    } else {
        base + seq![SLASH] + segment
    }
}

/// Joins one relative path segment onto a base path.
pub fn join_path(base: &Vec<u8>, segment: &[u8]) -> (r: Vec<u8>)
    ensures
        r@ == path_join(base@, segment@),
{
    if base.len() == 0 {
        return vec_of(segment);
    }
    let mut r = vec_of(base.as_slice());
    if base[base.len() - 1] != SLASH {
        r.push(SLASH);
    }
    append_bytes(&mut r, segment);
    proof {
        assert(r@ =~= path_join(base@, segment@));
    }
    r
}

/// Path components joined with `/` into one relative path.
pub open spec fn join_components(parts: Seq<Seq<u8>>) -> Seq<u8>
    decreases parts.len(),
{
    if parts.len() == 0 {
        Seq::empty()
    } else if parts.len() == 1 {
        parts[0]
    } else {
        parts[0] + seq![SLASH] + join_components(parts.drop_first())
    }
}

/// Appending one more component to a join adds it after a separator.
proof fn lemma_join_components_push(parts: Seq<Seq<u8>>, part: Seq<u8>)
    ensures
        join_components(parts.push(part)) == if parts.len() == 0 {
            part
        } else {
            join_components(parts) + seq![SLASH] + part
        },
    decreases parts.len(),
{
    if parts.len() == 0 {
        assert(parts.push(part)[0] =~= part);
    } else {
        assert(parts.push(part).drop_first() =~= parts.drop_first().push(part));
        lemma_join_components_push(parts.drop_first(), part);
        if parts.len() == 1 {
            assert(join_components(parts.push(part)) =~= parts[0] + seq![SLASH] + part);
            assert(join_components(parts) == parts[0]);
        } else {
            assert(join_components(parts.push(part)) =~= join_components(parts) + seq![SLASH]
                + part);
        }
    }
}

/// The relative directory of a source path: every component but the two
/// leading ones and the file name, joined with `/`.
pub open spec fn middle_dirs(components: Seq<Seq<u8>>) -> Seq<u8> {
    join_components(components.subrange(2, components.len() - 1))
}

/// Extracts the relative directory from the components of a source path:
/// the two leading components and the final file name are dropped and the
/// rest are joined with `/`.
pub fn extract_dirs(components: &Vec<Vec<u8>>) -> (r: Vec<u8>)
    requires
        components@.len() >= 3,
    ensures
        r@ == middle_dirs(components.deep_view()),
{
    let ghost all = components.deep_view();
    let end: usize = components.len() - 1;
    let mut r: Vec<u8> = Vec::new();
    let mut i: usize = 2;
    proof {
        assert(all.subrange(2, 2) =~= Seq::<Seq<u8>>::empty());
    }
    while i < end
        invariant
            2 <= i <= end,
            end == all.len() - 1,
            all.len() == components@.len(),
            all == components.deep_view(),
            r@ == join_components(all.subrange(2, i as int)),
        decreases end - i,
    {
        proof {
            assert(all.subrange(2, i + 1) =~= all.subrange(2, i as int).push(all[i as int]));
            lemma_join_components_push(all.subrange(2, i as int), all[i as int]);
            assert(all[i as int] == components@[i as int]@);
        }
        if i > 2 {
            r.push(SLASH);
        }
        append_bytes(&mut r, components[i].as_slice());
        proof {
            assert(r@ =~= join_components(all.subrange(2, i + 1)));
        }
        i += 1;
    }
    r
}

/// Where the artifacts for a relative directory live: `spv/<dirs>` under the
/// output root.
pub open spec fn spec_spv_dir(output_root: Seq<u8>, dirs: Seq<u8>) -> Seq<u8> {
    path_join(path_join(output_root, spv_seq()), dirs)
}

/// Where the cache records for a relative directory live: `.cache/<dirs>`
/// under the output root.
pub open spec fn spec_cache_dir(output_root: Seq<u8>, dirs: Seq<u8>) -> Seq<u8> {
    path_join(path_join(output_root, cache_dirname_seq()), dirs)
}

/// The artifact path of a source: its file name with `.spv` appended, in the
/// mirrored directory under `spv/`.
pub open spec fn spec_artifact_path(output_root: Seq<u8>, dirs: Seq<u8>, name: Seq<u8>) -> Seq<
    u8,
> {
    path_join(spec_spv_dir(output_root, dirs), name + spv_suffix_seq())
}

/// The cache-record path of a source: its file name with `.md5` appended, in
/// the mirrored directory under `.cache/`.
pub open spec fn spec_cache_path(output_root: Seq<u8>, dirs: Seq<u8>, name: Seq<u8>) -> Seq<u8> {
    path_join(spec_cache_dir(output_root, dirs), name + md5_suffix_seq())
}

/// The four locations derived from one source path: the two mirrored
/// directories, the artifact file and the cache-record file.
pub struct MappedPaths {
    /// Directory that holds the artifact.
    pub spv_dir: Vec<u8>,
    /// Directory that holds the cache record.
    pub cache_dir: Vec<u8>,
    /// The compiled artifact file.
    pub artifact_path: Vec<u8>,
    /// The cache-record file.
    pub cache_path: Vec<u8>,
}

/// Whether a set of mapped paths is the one the mapping assigns to the given
/// source components under the given output root.
pub open spec fn maps_correctly(m: MappedPaths, components: Seq<Seq<u8>>, output_root: Seq<u8>) -> bool {
    let dirs = middle_dirs(components);
    let name = components.last();
    &&& m.spv_dir@ == spec_spv_dir(output_root, dirs)
    &&& m.cache_dir@ == spec_cache_dir(output_root, dirs)
    &&& m.artifact_path@ == spec_artifact_path(output_root, dirs, name)
    &&& m.cache_path@ == spec_cache_path(output_root, dirs, name)
}

/// Maps one source path, given as its components, to its artifact and
/// cache-record locations under the output root.
pub fn map_paths(components: &Vec<Vec<u8>>, output_root: &Vec<u8>) -> (m: MappedPaths)
    requires
        components@.len() >= 3,
    ensures
        maps_correctly(m, components.deep_view(), output_root@),
{
    let ghost all = components.deep_view();
    let dirs = extract_dirs(components);
    let name = &components[components.len() - 1];
    proof {
        assert(all.last() == components@[components@.len() - 1]@);
    }

    let spv_dir = join_path(&join_path(output_root, spv_vec().as_slice()), dirs.as_slice());
    let cache_dir = join_path(
        &join_path(output_root, cache_dirname_vec().as_slice()),
        dirs.as_slice(),
    );

    let mut artifact_name = vec_of(name.as_slice());
    append_bytes(&mut artifact_name, spv_suffix_vec().as_slice());
    let artifact_path = join_path(&spv_dir, artifact_name.as_slice());

    let mut cache_name = vec_of(name.as_slice());
    append_bytes(&mut cache_name, md5_suffix_vec().as_slice());
    let cache_path = join_path(&cache_dir, cache_name.as_slice());

    MappedPaths { spv_dir, cache_dir, artifact_path, cache_path }
}

/// The mapping is deterministic: two mapped results for the same components
/// and output root agree on every path.
pub proof fn lemma_mapping_deterministic(
    m1: MappedPaths,
    m2: MappedPaths,
    components: Seq<Seq<u8>>,
    output_root: Seq<u8>,
)
    requires
        maps_correctly(m1, components, output_root),
        maps_correctly(m2, components, output_root),
    ensures
        m1.spv_dir@ == m2.spv_dir@,
        m1.cache_dir@ == m2.cache_dir@,
        m1.artifact_path@ == m2.artifact_path@,
        m1.cache_path@ == m2.cache_path@,
{
}

} // verus!
