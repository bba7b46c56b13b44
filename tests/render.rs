use eth2fuzz::{int_to_text, render_template, replace_token, FsPath, TARGET_PLACEHOLDER};

fn path(parts: &[&str]) -> FsPath {
    FsPath { parts: parts.iter().map(|p| p.to_string()).collect() }
}

#[test]
fn render_replaces_single_placeholder() {
    let template = "fuzz_target!(|data: &[u8]| { ###TARGET###::fuzz(data); });\n";
    let out = render_template(template, "process_voluntary_exit");
    assert_eq!(out, "fuzz_target!(|data: &[u8]| { process_voluntary_exit::fuzz(data); });\n");
}

#[test]
fn render_without_placeholder_is_identity() {
    let template = "fn main() { run(\"###TARGET##\"); }";
    assert_eq!(render_template(template, "attestation"), template);
}

#[test]
fn render_replaces_every_placeholder() {
    let out = render_template("###TARGET###/###TARGET###", "block");
    assert_eq!(out, "block/block");
}

#[test]
fn render_empty_template() {
    assert_eq!(render_template("", "block"), "");
}

#[test]
fn render_keeps_non_ascii_text() {
    let out = render_template("é ###TARGET### ü", "deposit");
    assert_eq!(out, "é deposit ü");
}

#[test]
fn replace_token_scans_left_to_right_without_overlap() {
    assert_eq!(replace_token("aaa", "aa", "X"), "Xa");
    assert_eq!(replace_token("abab", "ab", ""), "");
    assert_eq!(replace_token("ab", "abc", "X"), "ab");
}

#[test]
fn placeholder_token_is_fixed() {
    assert_eq!(TARGET_PLACEHOLDER, "###TARGET###");
}

#[test]
fn int_to_text_matches_decimal_formatting() {
    for n in [0, 7, 10, 42, 60, 1234567, -1, -7, -100, i32::MAX, i32::MIN] {
        assert_eq!(int_to_text(n), format!("{}", n));
    }
}

#[test]
fn path_display_joins_with_slashes() {
    assert_eq!(path(&["", "home", "fuzz"]).display(), "/home/fuzz");
    assert_eq!(path(&["workspace"]).display(), "workspace");
    assert_eq!(path(&[]).display(), "");
}

#[test]
fn path_join_appends_component() {
    let p = path(&["", "root"]).join("workspace").join("afl");
    assert_eq!(p.parts, vec!["", "root", "workspace", "afl"]);
    assert_eq!(p.duplicate().parts, p.parts);
}
