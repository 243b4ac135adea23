use rocket_launch::launch::{check_args, keep_env_var, run_args, DEFAULT_INTERVAL_MS};
use rocket_launch::text::{ends_with, join_with_spaces, split_on_spaces, starts_with};

fn strings(v: &[&str]) -> Vec<String> {
    v.iter().map(|s| s.to_string()).collect()
}

#[test]
fn suffix_and_prefix_checks() {
    assert!(ends_with("abc", "bc"));
    assert!(ends_with("abc", ""));
    assert!(!ends_with("bc", "abc"));
    assert!(!ends_with("abc", "ab"));
    assert!(starts_with("RUSTUP_HOME", "RUSTUP"));
    assert!(!starts_with("RUST", "RUSTUP"));
    assert!(!starts_with("xRUSTUP", "RUSTUP"));
}

#[test]
fn split_on_single_spaces() {
    assert_eq!(split_on_spaces("--release --bin app"), strings(&["--release", "--bin", "app"]));
}

#[test]
fn split_keeps_empty_pieces() {
    assert_eq!(split_on_spaces(""), strings(&[""]));
    assert_eq!(split_on_spaces("a  b"), strings(&["a", "", "b"]));
    assert_eq!(split_on_spaces(" a "), strings(&["", "a", ""]));
}

#[test]
fn join_then_split_round_trip() {
    let parts = strings(&["run", "--", "x"]);
    let joined = join_with_spaces(&parts);
    assert_eq!(joined, "run -- x");
    assert_eq!(split_on_spaces(&joined), parts);
    assert_eq!(join_with_spaces(&Vec::new()), "");
}

#[test]
fn manager_variables_are_dropped() {
    assert!(!keep_env_var("RUSTUP_TOOLCHAIN"));
    assert!(!keep_env_var("RUSTUP"));
    assert!(keep_env_var("PATH"));
    assert!(keep_env_var("CARGO_HOME"));
    assert!(keep_env_var("RUSTU"));
    assert!(keep_env_var(""));
}

#[test]
fn command_arguments() {
    assert_eq!(check_args(&Vec::new()), strings(&["check"]));
    assert_eq!(check_args(&strings(&["--release", "x"])), strings(&["check", "--release", "x"]));
    assert_eq!(run_args(&Vec::new()), strings(&["run"]));
    assert_eq!(run_args(&strings(&["--release", "x"])), strings(&["run", "--release", "x"]));
}

#[test]
fn default_interval_is_half_a_second() {
    assert_eq!(DEFAULT_INTERVAL_MS, 500);
}
