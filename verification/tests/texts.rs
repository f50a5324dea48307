use rcat::paths::basename;
use rcat::text::{diagnostic_line, parse_error_line, usage_text, version_text};

#[test]
fn basename_takes_the_last_component() {
    assert_eq!(basename("usr/bin/tool"), "tool");
    assert_eq!(basename("/tool"), "tool");
}

#[test]
fn basename_without_slash_is_the_whole_path() {
    assert_eq!(basename("tool"), "tool");
}

#[test]
fn basename_of_trailing_slash_is_empty() {
    assert_eq!(basename("usr/bin/"), "");
    assert_eq!(basename("/"), "");
}

#[test]
fn basename_of_empty_is_empty() {
    assert_eq!(basename(""), "");
}

#[test]
fn diagnostic_line_exact() {
    assert_eq!(
        diagnostic_line("cat", "missing.txt", "No such file or directory"),
        "cat: missing.txt: No such file or directory\n"
    );
}

#[test]
fn parse_error_line_exact() {
    assert_eq!(
        parse_error_line("cat", "Unrecognized option: '--bogus'"),
        "cat: Unrecognized option: '--bogus'\n"
    );
}

#[test]
fn usage_text_exact() {
    assert_eq!(
        usage_text("cat"),
        "usage: cat [option] [file ...]\n      --help\t\tdisplay this help and exit\n      --version\t\toutput version information and exit\n"
    );
}

#[test]
fn version_banner_starts_with_program_and_v() {
    let banner = version_text("cat");
    assert!(banner.starts_with("cat v"));
    let after = &banner["cat v".len()..];
    let token = after.split_whitespace().next().unwrap();
    assert!(!token.is_empty());
}

#[test]
fn version_banner_is_deterministic() {
    assert_eq!(version_text("cat"), version_text("cat"));
    assert_eq!(
        version_text("cat"),
        "cat v0.1.0\nCopyright (c) the rcat authors. MIT license.\n"
    );
}
