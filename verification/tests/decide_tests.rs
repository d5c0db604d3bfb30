use shader_compiler::decide::{decide, Decision};
use shader_compiler::digest::{make_cache_line, make_md5};

fn b(s: &str) -> Vec<u8> {
    s.as_bytes().to_vec()
}

#[test]
fn no_cache_record_means_rebuild() {
    let fresh = make_md5(&b("void main(){}"));
    assert_eq!(decide(&fresh, &None), Decision::Rebuild);
}

#[test]
fn matching_record_means_skip() {
    let fresh = make_md5(&b("void main(){}"));
    let stored = make_cache_line(&fresh);
    assert_eq!(decide(&fresh, &Some(stored)), Decision::Skip);
}

#[test]
fn record_with_crlf_line_end_still_matches() {
    let fresh = make_md5(&b("void main(){}"));
    let mut stored = fresh.clone();
    stored.extend_from_slice(b"\r\n");
    assert_eq!(decide(&fresh, &Some(stored)), Decision::Skip);
}

#[test]
fn record_without_line_end_still_matches() {
    let fresh = make_md5(&b("void main(){}"));
    assert_eq!(decide(&fresh, &Some(fresh.clone())), Decision::Skip);
}

#[test]
fn differing_record_means_rebuild() {
    let fresh = make_md5(&b("void main(){}"));
    let stored = make_cache_line(&make_md5(&b("void main(){ }")));
    assert_eq!(decide(&fresh, &Some(stored)), Decision::Rebuild);
}

#[test]
fn flipping_one_byte_forces_a_rebuild() {
    let old = make_md5(&b("void main(){}"));
    let stored = make_cache_line(&old);
    let fresh = make_md5(&b("void main(){|"));
    assert_ne!(fresh, old);
    assert_eq!(decide(&fresh, &Some(stored.clone())), Decision::Rebuild);
    assert_eq!(decide(&old, &Some(stored)), Decision::Skip);
}

#[test]
fn garbage_record_means_rebuild() {
    let fresh = make_md5(&b("void main(){}"));
    assert_eq!(decide(&fresh, &Some(b("not a digest\n"))), Decision::Rebuild);
}
