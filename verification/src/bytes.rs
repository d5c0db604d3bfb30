//! Byte-string helpers and the fixed byte literals the planner speaks of.
//!
//! Paths, digests and console text are modelled as byte vectors; the
//! surrounding binary converts operating-system strings to and from them.
use vstd::prelude::*;
use vstd::slice::slice_index_get;

verus! {

/// ASCII `/`, the path separator.
pub const SLASH: u8 = 47;

/// ASCII line feed.
pub const NEWLINE: u8 = 10;

/// ASCII carriage return.
pub const CARRIAGE_RETURN: u8 = 13;

/// Copies a byte slice into a fresh vector.
pub fn vec_of(s: &[u8]) -> (r: Vec<u8>)
    ensures
        r@ == s@,
{
    let mut v: Vec<u8> = Vec::new();
    let mut i: usize = 0;
    while i < s.len()
        invariant
            i <= s@.len(),
            v@ == s@.subrange(0, i as int),
        decreases s@.len() - i,
    {
        v.push(*slice_index_get(s, i));
        proof {
            assert(v@ =~= s@.subrange(0, i + 1));
        }
        i += 1;
    }
    proof {
        assert(v@ =~= s@);
    }
    v
}

/// Appends a byte slice to the end of a vector.
pub fn append_bytes(v: &mut Vec<u8>, tail: &[u8])
    ensures
        final(v)@ == old(v)@ + tail@,
{
    let mut i: usize = 0;
    proof {
        assert(v@ =~= v@ + tail@.subrange(0, 0));
    }
    while i < tail.len()
        invariant
            i <= tail@.len(),
            v@ == old(v)@ + tail@.subrange(0, i as int),
        decreases tail@.len() - i,
    {
        v.push(*slice_index_get(tail, i));
        proof {
            assert(v@ =~= old(v)@ + tail@.subrange(0, i + 1));
        }
        i += 1;
    }
    proof {
        assert(v@ =~= old(v)@ + tail@);
    }
}

/// Compares two byte vectors for equality of their contents.
pub fn bytes_eq(a: &Vec<u8>, b: &Vec<u8>) -> (r: bool)
    ensures
        r == (a@ == b@),
{
    let r = a == b;
    proof {
        if r {
            assert(a@ =~= b@);
        }
    }
    r
}

/// The byte string "spv", the artifact subtree name.
pub open spec fn spv_seq() -> Seq<u8> {
    seq![115u8, 112u8, 118u8]
}

/// Builds the byte string "spv".
pub fn spv_vec() -> (r: Vec<u8>)
    ensures
        r@ == spv_seq(),
{
    let a: [u8; 3] = [115, 112, 118];
    let r = vec_of(a.as_slice());
    proof {
        assert(r@ =~= spv_seq());
    }
    r
}

/// The byte string ".cache", the digest subtree name.
pub open spec fn cache_dirname_seq() -> Seq<u8> {
    seq![46u8, 99u8, 97u8, 99u8, 104u8, 101u8]
}

/// Builds the byte string ".cache".
pub fn cache_dirname_vec() -> (r: Vec<u8>)
    ensures
        r@ == cache_dirname_seq(),
{
    let a: [u8; 6] = [46, 99, 97, 99, 104, 101];
    let r = vec_of(a.as_slice());
    proof {
        assert(r@ =~= cache_dirname_seq());
    }
    r
}

/// The byte string ".spv", the suffix appended to an artifact name.
pub open spec fn spv_suffix_seq() -> Seq<u8> {
    seq![46u8, 115u8, 112u8, 118u8]
}

/// Builds the byte string ".spv".
pub fn spv_suffix_vec() -> (r: Vec<u8>)
    ensures
        r@ == spv_suffix_seq(),
{
    let a: [u8; 4] = [46, 115, 112, 118];
    let r = vec_of(a.as_slice());
    proof {
        assert(r@ =~= spv_suffix_seq());
    }
    r
}

/// The byte string ".md5", the suffix appended to a cache record name.
pub open spec fn md5_suffix_seq() -> Seq<u8> {
    seq![46u8, 109u8, 100u8, 53u8]
}

/// Builds the byte string ".md5".
pub fn md5_suffix_vec() -> (r: Vec<u8>)
    ensures
        r@ == md5_suffix_seq(),
{
    let a: [u8; 4] = [46, 109, 100, 53];
    let r = vec_of(a.as_slice());
    proof {
        assert(r@ =~= md5_suffix_seq());
    }
    r
}

/// The byte string "glslc", the external compiler's program name.
pub open spec fn glslc_seq() -> Seq<u8> {
    seq![103u8, 108u8, 115u8, 108u8, 99u8]
}

/// Builds the byte string "glslc".
pub fn glslc_vec() -> (r: Vec<u8>)
    ensures
        r@ == glslc_seq(),
{
    let a: [u8; 5] = [103, 108, 115, 108, 99];
    let r = vec_of(a.as_slice());
    proof {
        assert(r@ =~= glslc_seq());
    }
    r
}

/// The byte string "-g", the compiler's debug-info flag.
pub open spec fn flag_debug_seq() -> Seq<u8> {
    seq![45u8, 103u8]
}

/// Builds the byte string "-g".
pub fn flag_debug_vec() -> (r: Vec<u8>)
    ensures
        r@ == flag_debug_seq(),
{
    let a: [u8; 2] = [45, 103];
    let r = vec_of(a.as_slice());
    proof {
        assert(r@ =~= flag_debug_seq());
    }
    r
}

/// The byte string "-O0", the compiler's no-optimisation flag.
pub open spec fn flag_no_opt_seq() -> Seq<u8> {
    seq![45u8, 79u8, 48u8]
}

/// Builds the byte string "-O0".
pub fn flag_no_opt_vec() -> (r: Vec<u8>)
    ensures
        r@ == flag_no_opt_seq(),
{
    let a: [u8; 3] = [45, 79, 48];
    let r = vec_of(a.as_slice());
    proof {
        assert(r@ =~= flag_no_opt_seq());
    }
    r
}

/// The byte string "-o", the compiler's output flag.
pub open spec fn flag_output_seq() -> Seq<u8> {
    seq![45u8, 111u8]
}

/// Builds the byte string "-o".
pub fn flag_output_vec() -> (r: Vec<u8>)
    ensures
        r@ == flag_output_seq(),
{
    let a: [u8; 2] = [45, 111];
    let r = vec_of(a.as_slice());
    proof {
        assert(r@ =~= flag_output_seq());
    }
    r
}

/// The byte string "Processing: ", the start of a progress line.
pub open spec fn processing_prefix_seq() -> Seq<u8> {
    seq![80u8, 114u8, 111u8, 99u8, 101u8, 115u8, 115u8, 105u8, 110u8, 103u8, 58u8, 32u8]
}

/// Builds the byte string "Processing: ".
pub fn processing_prefix_vec() -> (r: Vec<u8>)
    ensures
        r@ == processing_prefix_seq(),
{
    let a: [u8; 12] = [80, 114, 111, 99, 101, 115, 115, 105, 110, 103, 58, 32];
    let r = vec_of(a.as_slice());
    proof {
        assert(r@ =~= processing_prefix_seq());
    }
    r
}

/// The byte string ", output_path: ", between the two paths of a progress
/// line.
pub open spec fn output_infix_seq() -> Seq<u8> {
    seq![
        44u8,
        32u8,
        111u8,
        117u8,
        116u8,
        112u8,
        117u8,
        116u8,
        95u8,
        112u8,
        97u8,
        116u8,
        104u8,
        58u8,
        32u8,
    ]
}

/// Builds the byte string ", output_path: ".
pub fn output_infix_vec() -> (r: Vec<u8>)
    ensures
        r@ == output_infix_seq(),
{
    let a: [u8; 15] = [44, 32, 111, 117, 116, 112, 117, 116, 95, 112, 97, 116, 104, 58, 32];
    let r = vec_of(a.as_slice());
    proof {
        assert(r@ =~= output_infix_seq());
    }
    r
}

/// The byte string "...skipped\n", ending the progress line of a skipped
/// input.
pub open spec fn skipped_line_seq() -> Seq<u8> {
    seq![46u8, 46u8, 46u8, 115u8, 107u8, 105u8, 112u8, 112u8, 101u8, 100u8, 10u8]
}

/// Builds the byte string "...skipped\n".
pub fn skipped_line_vec() -> (r: Vec<u8>)
    ensures
        r@ == skipped_line_seq(),
{
    let a: [u8; 11] = [46, 46, 46, 115, 107, 105, 112, 112, 101, 100, 10];
    let r = vec_of(a.as_slice());
    proof {
        assert(r@ =~= skipped_line_seq());
    }
    r
}

/// The byte string "vert", the vertex-shader extension.
pub open spec fn vert_seq() -> Seq<u8> {
    seq![118u8, 101u8, 114u8, 116u8]
}

/// Builds the byte string "vert".
pub fn vert_vec() -> (r: Vec<u8>)
    ensures
        r@ == vert_seq(),
{
    let a: [u8; 4] = [118, 101, 114, 116];
    let r = vec_of(a.as_slice());
    proof {
        assert(r@ =~= vert_seq());
    }
    r
}

/// The byte string "frag", the fragment-shader extension.
pub open spec fn frag_seq() -> Seq<u8> {
    seq![102u8, 114u8, 97u8, 103u8]
}

/// Builds the byte string "frag".
pub fn frag_vec() -> (r: Vec<u8>)
    ensures
        r@ == frag_seq(),
{
    let a: [u8; 4] = [102, 114, 97, 103];
    let r = vec_of(a.as_slice());
    proof {
        assert(r@ =~= frag_seq());
    }
    r
}

/// The byte string "comp", the compute-shader extension.
pub open spec fn comp_seq() -> Seq<u8> {
    seq![99u8, 111u8, 109u8, 112u8]
}

/// Builds the byte string "comp".
pub fn comp_vec() -> (r: Vec<u8>)
    ensures
        r@ == comp_seq(),
{
    let a: [u8; 4] = [99, 111, 109, 112];
    let r = vec_of(a.as_slice());
    proof {
        assert(r@ =~= comp_seq());
    }
    r
}

/// The byte string "**", the recursive segment of a glob pattern.
pub open spec fn star_star_seq() -> Seq<u8> {
    seq![42u8, 42u8]
}

/// Builds the byte string "**".
pub fn star_star_vec() -> (r: Vec<u8>)
    ensures
        r@ == star_star_seq(),
{
    let a: [u8; 2] = [42, 42];
    let r = vec_of(a.as_slice());
    proof {
        assert(r@ =~= star_star_seq());
    }
    r
}

/// The byte string "*.", the file-name segment of a glob pattern before the
/// extension.
pub open spec fn star_dot_seq() -> Seq<u8> {
    seq![42u8, 46u8]
}

/// Builds the byte string "*.".
pub fn star_dot_vec() -> (r: Vec<u8>)
    ensures
        r@ == star_dot_seq(),
{
    let a: [u8; 2] = [42, 46];
    let r = vec_of(a.as_slice());
    proof {
        assert(r@ =~= star_dot_seq());
    }
    r
}

} // verus!
