//! Specifier parsing, version classification, and checkout strategy.

use ananke::mfe::{Microfrontend, VersionType};
use ananke::errors::SpecifierParseError;
use ananke::{create_branch_name, generate_arbitrary_string, get_child_path_from_string};

#[test]
fn parse_tag_specifier() {
    let m = Microfrontend::from_raw_format("betbook/shell@1.4.2".to_string()).unwrap();
    assert_eq!(m.project_group, "betbook");
    assert_eq!(m.project_name, "shell");
    assert_eq!(m.version, "1.4.2");
    assert_eq!(m.version_type, VersionType::Tag);
    assert_eq!(m.get_branch(), "tag/1.4.2");
    assert!(m.should_create_new_branch());
    assert!(!m.should_use_current_version());
}

#[test]
fn parse_branch_with_slashes() {
    let m = Microfrontend::from_raw_format("betbook/shell@feature/foo".to_string()).unwrap();
    assert_eq!(m.version, "feature/foo");
    assert_eq!(m.version_type, VersionType::Branch);
    assert_eq!(m.get_branch(), "feature/foo");
    assert!(!m.should_create_new_branch());
}

#[test]
fn parse_latest() {
    let m = Microfrontend::from_raw_format("betbook/shell@latest".to_string()).unwrap();
    assert_eq!(m.version_type, VersionType::Latest);
    assert_eq!(m.get_branch(), "master");
    assert!(!m.should_create_new_branch());
}

#[test]
fn parse_commit_hash() {
    let m = Microfrontend::from_raw_format("betbook/shell@a1b2c3d".to_string()).unwrap();
    assert_eq!(m.version_type, VersionType::CommitHash);
    assert_eq!(m.get_branch(), "a1b2c3d");
    assert!(m.should_create_new_branch());
}

#[test]
fn parse_default_version() {
    // A version-less specifier defaults to the literal "current", which the
    // priority rules classify as a branch named "current": checkout is not
    // skipped.
    let m = Microfrontend::from_raw_format("betbook/shell".to_string()).unwrap();
    assert_eq!(m.version, "current");
    assert_eq!(m.version_type, VersionType::Branch);
    assert_eq!(m.get_branch(), "current");
    assert!(!m.should_create_new_branch());
    assert!(!m.should_use_current_version());
}

#[test]
fn parse_trailing_at_defaults() {
    let m = Microfrontend::from_raw_format("betbook/shell@".to_string()).unwrap();
    assert_eq!(m.version, "current");
}

#[test]
fn parse_mixed_separators() {
    let m = Microfrontend::from_raw_format("a@b@c/d".to_string()).unwrap();
    assert_eq!(m.project_group, "a");
    assert_eq!(m.project_name, "b");
    assert_eq!(m.version, "c/d");
}

#[test]
fn parse_missing_name() {
    let r = Microfrontend::from_raw_format("betbook".to_string());
    assert_eq!(r.unwrap_err(), SpecifierParseError::MissingName);
}

#[test]
fn parse_empty_group() {
    let r = Microfrontend::from_raw_format("/shell@1.4.2".to_string());
    assert_eq!(r.unwrap_err(), SpecifierParseError::EmptyGroup);
}

#[test]
fn parse_empty_name() {
    let r = Microfrontend::from_raw_format("betbook/@1.4.2".to_string());
    assert_eq!(r.unwrap_err(), SpecifierParseError::EmptyName);
}

#[test]
fn classify_empty_is_current() {
    assert_eq!(Microfrontend::get_version_type(""), VersionType::Current);
}

#[test]
fn classify_hash_bounds() {
    assert_eq!(Microfrontend::get_version_type("abcde"), VersionType::CommitHash);
    assert_eq!(Microfrontend::get_version_type("abcd"), VersionType::Branch);
    let forty = "0123456789abcdef0123456789abcdef01234567";
    assert_eq!(forty.len(), 40);
    assert_eq!(Microfrontend::get_version_type(forty), VersionType::CommitHash);
    let forty_one = "0123456789abcdef0123456789abcdef012345678";
    assert_eq!(Microfrontend::get_version_type(forty_one), VersionType::Tag);
}

#[test]
fn classify_priority_hash_over_tag() {
    assert_eq!(Microfrontend::get_version_type("12345"), VersionType::CommitHash);
}

#[test]
fn classify_tag_needs_second_char() {
    assert_eq!(Microfrontend::get_version_type("1"), VersionType::Branch);
    assert_eq!(Microfrontend::get_version_type(".hidden"), VersionType::Tag);
}

#[test]
fn classify_uppercase_not_hash() {
    assert_eq!(Microfrontend::get_version_type("ABCDE"), VersionType::Branch);
    assert_eq!(Microfrontend::get_version_type("v1.2"), VersionType::Branch);
}

#[test]
fn repo_url_form() {
    let m = Microfrontend::from_raw_format("betbook/shell@latest".to_string()).unwrap();
    assert_eq!(m.build_repo_url("git.example.org"), "git@git.example.org:betbook/shell.git");
}

#[test]
fn child_path_text() {
    assert_eq!(get_child_path_from_string(&"shell".to_string()), "./shell");
}

#[test]
fn branch_name_shape() {
    let b = create_branch_name();
    assert_eq!(b.len(), 31);
    assert!(b.starts_with("ananke/dev/"));
    assert!(b[11..].chars().all(|c| c.is_ascii_alphanumeric()));
}

#[test]
fn arbitrary_string_shape() {
    let s = generate_arbitrary_string();
    assert_eq!(s.len(), 20);
    assert!(s.chars().all(|c| c.is_ascii_alphanumeric()));
}

#[test]
fn describe_line() {
    let m = Microfrontend::from_raw_format("betbook/shell@1.4.2".to_string()).unwrap();
    assert_eq!(m.describe(), "betbook shell 1.4.2 Tag");
}

#[test]
fn duplicate_keeps_fields() {
    let m = Microfrontend::from_raw_format("betbook/shell@latest".to_string()).unwrap();
    let d = m.duplicate();
    assert_eq!(d.project_group, m.project_group);
    assert_eq!(d.project_name, m.project_name);
    assert_eq!(d.version, m.version);
    assert_eq!(d.version_type, m.version_type);
}
