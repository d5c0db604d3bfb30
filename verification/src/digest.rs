//! Content digests and the single-line cache record format.
//!
//! A shader source is keyed by the lowercase hexadecimal MD5 of its bytes.
//! A cache record stores that digest followed by one line feed; reading a
//! record back tolerates a trailing `\n` or `\r\n`.
use crate::bytes::CARRIAGE_RETURN;
use crate::bytes::NEWLINE;
use crate::bytes::vec_of;
use vstd::prelude::*;

verus! {

/// Whether a byte is a lowercase hexadecimal digit.
pub open spec fn is_lower_hex_digit(b: u8) -> bool {
    (48 <= b <= 57) || (97 <= b <= 102)
}

/// Whether a byte string has the shape of a lowercase hex MD5 digest.
pub open spec fn is_md5_hex(s: Seq<u8>) -> bool {
    &&& s.len() == 32
    &&& forall|i: int| 0 <= i < s.len() ==> is_lower_hex_digit(#[trigger] s[i])
}

/// The lowercase hexadecimal MD5 digest of a byte string; it depends on the
/// bytes alone.
pub uninterp spec fn md5_hex(content: Seq<u8>) -> Seq<u8>;

/// Relies on `md5::compute` and the `LowerHex` impl of `md5::Digest`
/// (md5 0.7): the digest of the input bytes is sixteen bytes, each printed
/// as two lowercase hexadecimal digits, and depends on the input alone.
#[verifier::external_body]
fn md5_hex_bytes(content: &Vec<u8>) -> (r: Vec<u8>)
    ensures
        r@ == md5_hex(content@),
        is_md5_hex(r@),
{
    format!("{:x}", md5::compute(content)).into_bytes()
}

/// Computes the cache key of a shader source: the lowercase hex MD5 of its
/// full contents.
pub fn make_md5(content: &Vec<u8>) -> (r: Vec<u8>)
    ensures
        r@ == md5_hex(content@),
        is_md5_hex(r@),
{
    md5_hex_bytes(content)
}

/// A byte string with one trailing line end removed: a final `\n` is
/// dropped, and a `\r` just before it is dropped too. Anything else is
/// returned unchanged.
pub open spec fn strip_line_end(s: Seq<u8>) -> Seq<u8> {
    if s.len() > 0 && s.last() == NEWLINE {
        let t = s.drop_last();
        if t.len() > 0 && t.last() == CARRIAGE_RETURN {
            t.drop_last()
        } else {
            t
        }
    } else {
        s
    }
}

/// Strips one trailing `\n`, and a `\r` preceding it, from a byte string;
/// used to normalise a cache record read back from disk.
pub fn remove_breakline(s: Vec<u8>) -> (r: Vec<u8>)
    ensures
        r@ == strip_line_end(s@),
{
    let ghost s0 = s@;
    let mut v = s;
    if v.len() > 0 && v[v.len() - 1] == NEWLINE {
        v.pop();
        proof {
            assert(v@ =~= s0.drop_last());
        }
        if v.len() > 0 && v[v.len() - 1] == CARRIAGE_RETURN {
            v.pop();
            proof {
                assert(v@ =~= s0.drop_last().drop_last());
            }
        }
    }
    v
}

/// The on-disk form of a cache record: the digest followed by one `\n`.
pub open spec fn cache_line(digest: Seq<u8>) -> Seq<u8> {
    digest + seq![NEWLINE]
}

/// Renders a digest as the single line stored in its cache record.
pub fn make_cache_line(digest: &Vec<u8>) -> (r: Vec<u8>)
    ensures
        r@ == cache_line(digest@),
{
    let mut v = vec_of(digest.as_slice());
    v.push(NEWLINE);
    proof {
        assert(v@ =~= cache_line(digest@));
    }
    v
}

/// Reading a cache record back yields the digest that was written: stripping
/// the line end of a rendered cache line returns the digest, for any digest
/// that does not itself end in `\r`.
pub proof fn lemma_cache_line_round_trip(digest: Seq<u8>)
    requires
        digest.len() > 0 ==> digest.last() != CARRIAGE_RETURN,
    ensures
        strip_line_end(cache_line(digest)) == digest,
{
    let line = cache_line(digest);
    assert(line.last() == NEWLINE);
    assert(line.drop_last() =~= digest);
}

/// A lowercase hex digest never ends in `\r` or `\n`.
pub proof fn lemma_md5_hex_no_line_end(digest: Seq<u8>)
    requires
        is_md5_hex(digest),
    ensures
        digest.last() != CARRIAGE_RETURN,
        digest.last() != NEWLINE,
{
    assert(is_lower_hex_digit(digest[31]));
}

} // verus!
