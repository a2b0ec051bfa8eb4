use ccb_cli::alias::{alias_already_present, alias_line, profile_file_for_shell};
use ccb_cli::text::{str_contains, str_eq};

#[test]
fn zsh_gets_its_own_profile() {
    assert_eq!(profile_file_for_shell("/bin/zsh"), ".zshrc");
}

#[test]
fn bash_gets_its_own_profile() {
    assert_eq!(profile_file_for_shell("/bin/bash"), ".bashrc");
}

#[test]
fn fish_gets_its_own_profile() {
    assert_eq!(profile_file_for_shell("/usr/bin/fish"), ".config/fish/config.fish");
}

#[test]
fn unknown_shells_fall_back_to_bashrc() {
    assert_eq!(profile_file_for_shell("tcsh"), ".bashrc");
    assert_eq!(profile_file_for_shell(""), ".bashrc");
}

#[test]
fn alias_line_quotes_the_binary_path() {
    assert_eq!(alias_line("/usr/local/bin/ccb"), "alias ccb=\"/usr/local/bin/ccb\"");
}

#[test]
fn alias_detection_in_profile_contents() {
    assert!(alias_already_present("export PATH=...\nalias ccb=\"/x/ccb\"\n"));
    assert!(!alias_already_present("export PATH=...\nalias gs=\"git status\"\n"));
    assert!(!alias_already_present(""));
}

#[test]
fn substring_search_basics() {
    assert!(str_contains("aab", "ab"));
    assert!(str_contains("abc", ""));
    assert!(str_contains("", ""));
    assert!(!str_contains("", "a"));
    assert!(!str_contains("abc", "abcd"));
    assert!(str_contains("abc", "abc"));
}

#[test]
fn string_equality_is_exact() {
    assert!(str_eq("", ""));
    assert!(str_eq("abc", "abc"));
    assert!(!str_eq("abc", "abd"));
    assert!(!str_eq("abc", "ab"));
}
