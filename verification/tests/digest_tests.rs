use shader_compiler::digest::{make_cache_line, make_md5, remove_breakline};

fn b(s: &str) -> Vec<u8> {
    s.as_bytes().to_vec()
}

fn s(v: &[u8]) -> String {
    String::from_utf8(v.to_vec()).unwrap()
}

#[test]
fn md5_of_empty_input() {
    assert_eq!(s(&make_md5(&Vec::new())), "d41d8cd98f00b204e9800998ecf8427e");
}

#[test]
fn md5_of_abc() {
    assert_eq!(s(&make_md5(&b("abc"))), "900150983cd24fb0d6963f7d28e17f72");
}

#[test]
fn md5_matches_reference_implementation() {
    for text in ["", "void main(){}", "void main(){ }", "a", "shader"] {
        let expected = format!("{:x}", md5::compute(text));
        assert_eq!(s(&make_md5(&b(text))), expected);
    }
}

#[test]
fn md5_is_lowercase_hex_of_length_32() {
    let d = make_md5(&b("void main(){}"));
    assert_eq!(d.len(), 32);
    for byte in d {
        let c = byte as char;
        assert!(c.is_ascii_digit() || ('a'..='f').contains(&c));
    }
}

#[test]
fn md5_differs_when_one_byte_flips() {
    let d1 = make_md5(&b("void main(){}"));
    let d2 = make_md5(&b("void main(){ }"));
    assert_ne!(d1, d2);
}

#[test]
fn remove_breakline_strips_newline() {
    assert_eq!(s(&remove_breakline(b("abc\n"))), "abc");
}

#[test]
fn remove_breakline_strips_carriage_return_newline() {
    assert_eq!(s(&remove_breakline(b("abc\r\n"))), "abc");
}

#[test]
fn remove_breakline_keeps_bare_text() {
    assert_eq!(s(&remove_breakline(b("abc"))), "abc");
}

#[test]
fn remove_breakline_keeps_trailing_carriage_return_alone() {
    assert_eq!(s(&remove_breakline(b("abc\r"))), "abc\r");
}

#[test]
fn remove_breakline_strips_only_one_newline() {
    assert_eq!(s(&remove_breakline(b("abc\n\n"))), "abc\n");
}

#[test]
fn remove_breakline_of_lone_newline_is_empty() {
    assert_eq!(s(&remove_breakline(b("\n"))), "");
}

#[test]
fn remove_breakline_of_empty_is_empty() {
    assert_eq!(s(&remove_breakline(Vec::new())), "");
}

#[test]
fn cache_line_appends_one_newline() {
    let d = make_md5(&b("abc"));
    let line = make_cache_line(&d);
    assert_eq!(s(&line), "900150983cd24fb0d6963f7d28e17f72\n");
}

#[test]
fn cache_line_round_trips_through_remove_breakline() {
    let d = make_md5(&b("void main(){}"));
    let line = make_cache_line(&d);
    assert_eq!(remove_breakline(line), d);
}
