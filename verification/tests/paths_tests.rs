use shader_compiler::paths::{extract_dirs, join_path, map_paths};
use shader_compiler::plan::{extensions, glob_pattern};

fn b(s: &str) -> Vec<u8> {
    s.as_bytes().to_vec()
}

fn s(v: &[u8]) -> String {
    String::from_utf8(v.to_vec()).unwrap()
}

fn components(path: &str) -> Vec<Vec<u8>> {
    path.split('/').map(|c| c.as_bytes().to_vec()).collect()
}

#[test]
fn extract_dirs_takes_middle_components() {
    let c = components("./shaders/mesh/basic.vert");
    assert_eq!(s(&extract_dirs(&c)), "mesh");
}

#[test]
fn extract_dirs_joins_nested_directories() {
    let c = components("./shaders/scene/post/blur.frag");
    assert_eq!(s(&extract_dirs(&c)), "scene/post");
}

#[test]
fn extract_dirs_of_top_level_source_is_empty() {
    let c = components("./shaders/basic.vert");
    assert_eq!(s(&extract_dirs(&c)), "");
}

#[test]
fn join_path_inserts_separator_when_needed() {
    assert_eq!(s(&join_path(&b("out"), b"spv")), "out/spv");
    assert_eq!(s(&join_path(&b("out/"), b"spv")), "out/spv");
    assert_eq!(s(&join_path(&Vec::new(), b"spv")), "spv");
    assert_eq!(s(&join_path(&b("out"), b"")), "out/");
}

#[test]
fn map_paths_mirrors_the_source_tree() {
    let c = components("./shaders/mesh/basic.vert");
    let m = map_paths(&c, &b("./out"));
    assert_eq!(s(&m.spv_dir), "./out/spv/mesh");
    assert_eq!(s(&m.cache_dir), "./out/.cache/mesh");
    assert_eq!(s(&m.artifact_path), "./out/spv/mesh/basic.vert.spv");
    assert_eq!(s(&m.cache_path), "./out/.cache/mesh/basic.vert.md5");
}

#[test]
fn map_paths_with_no_middle_directory() {
    let c = components("./shaders/basic.vert");
    let m = map_paths(&c, &b("./out"));
    assert_eq!(s(&m.spv_dir), "./out/spv/");
    assert_eq!(s(&m.artifact_path), "./out/spv/basic.vert.spv");
    assert_eq!(s(&m.cache_path), "./out/.cache/basic.vert.md5");
}

#[test]
fn map_paths_keeps_the_source_extension_in_the_artifact_name() {
    let c = components("./shaders/fx/glow.frag");
    let m = map_paths(&c, &b("build"));
    assert_eq!(s(&m.artifact_path), "build/spv/fx/glow.frag.spv");
}

#[test]
fn map_paths_is_deterministic() {
    let c = components("./shaders/mesh/basic.vert");
    let m1 = map_paths(&c, &b("./out"));
    let m2 = map_paths(&c, &b("./out"));
    assert_eq!(m1.artifact_path, m2.artifact_path);
    assert_eq!(m1.cache_path, m2.cache_path);
    assert_eq!(m1.spv_dir, m2.spv_dir);
    assert_eq!(m1.cache_dir, m2.cache_dir);
}

#[test]
fn extensions_come_in_fixed_order() {
    let exts: Vec<String> = extensions().iter().map(|e| s(e)).collect();
    assert_eq!(exts, vec!["vert", "frag", "comp"]);
}

#[test]
fn glob_pattern_scans_recursively_per_extension() {
    assert_eq!(s(&glob_pattern(&b("./shaders"), &b("vert"))), "./shaders/**/*.vert");
    assert_eq!(s(&glob_pattern(&b("assets/"), &b("comp"))), "assets/**/*.comp");
}
