//! The decision engine: skip an input whose stored digest matches the fresh
//! one, rebuild otherwise.
use crate::bytes::bytes_eq;
use crate::bytes::vec_of;
use crate::digest::cache_line;
use crate::digest::is_md5_hex;
use crate::digest::lemma_cache_line_round_trip;
use crate::digest::lemma_md5_hex_no_line_end;
use crate::digest::remove_breakline;
use crate::digest::strip_line_end;
use vstd::prelude::*;

verus! {

/// What a run does with one input.
#[derive(Clone, Copy, Debug, PartialEq, Eq, Structural)]
pub enum Decision {
    /// The stored digest matches the fresh one: leave artifact and cache
    /// record untouched.
    Skip,
    /// No digest is stored, or it differs: recompile the input.
    Rebuild,
}

/// The decision for a fresh digest against the raw contents of the cache
/// record, if one exists: skip exactly when the stored record, with its line
/// end stripped, equals the fresh digest.
pub open spec fn spec_decide(fresh: Seq<u8>, cached: Option<Seq<u8>>) -> Decision {
    match cached {
        Some(stored) => if strip_line_end(stored) == fresh {
            Decision::Skip
        } else {
            Decision::Rebuild
        },
        None => Decision::Rebuild,
    }
}

/// Decides whether an input may be skipped, from its freshly computed digest
/// and the raw contents of its cache record (`None` when no record exists).
/// The decision touches nothing on disk.
pub fn decide(fresh: &Vec<u8>, cached: &Option<Vec<u8>>) -> (d: Decision)
    ensures
        d == spec_decide(fresh@, cached.deep_view()),
{
    match cached {
        None => Decision::Rebuild,
        Some(stored) => {
            proof {
                assert(stored.deep_view() =~= stored@);
            }
            let stripped = remove_breakline(vec_of(stored.as_slice()));
            if bytes_eq(&stripped, fresh) {
                Decision::Skip
            } else {
                Decision::Rebuild
            }
        },
    }
}

/// An input with no cache record is always rebuilt; in particular, after the
/// output root is wiped by a force rebuild, every input recompiles.
pub proof fn lemma_no_cache_rebuilds(fresh: Seq<u8>)
    ensures
        spec_decide(fresh, None) == Decision::Rebuild,
{
}

/// A second run over unchanged content skips: deciding a digest against the
/// cache record a rebuild wrote for that same digest yields `Skip`.
pub proof fn lemma_unchanged_skips(digest: Seq<u8>)
    requires
        is_md5_hex(digest),
    ensures
        spec_decide(digest, Some(cache_line(digest))) == Decision::Skip,
{
    lemma_md5_hex_no_line_end(digest);
    lemma_cache_line_round_trip(digest);
}

/// Change detection: against the cache record written for an old digest, a
/// fresh digest skips exactly when it equals the old one, and rebuilds
/// exactly when it differs.
pub proof fn lemma_change_detection(old_digest: Seq<u8>, fresh: Seq<u8>)
    requires
        is_md5_hex(old_digest),
    ensures
        spec_decide(fresh, Some(cache_line(old_digest))) == if fresh == old_digest {
            Decision::Skip
        } else {
            Decision::Rebuild
        },
{
    lemma_md5_hex_no_line_end(old_digest);
    lemma_cache_line_round_trip(old_digest);
}

} // verus!
