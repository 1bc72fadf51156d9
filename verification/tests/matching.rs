use rm_main::matching::{name_matches, MAX_MATCH_CHARS};

#[test]
fn pattern_matches_as_subsequence() {
    assert!(name_matches("ubuntu-24.04-desktop-amd64.iso", "ubu"));
    assert!(name_matches("ubuntu-24.04-desktop-amd64.iso", "u24iso"));
    assert!(name_matches("ubuntu-24.04-desktop-amd64.iso", "uuu"));
}

#[test]
fn pattern_must_keep_its_order() {
    assert!(name_matches("debian", "dbn"));
    assert!(!name_matches("debian", "nbd"));
    assert!(!name_matches("debian", "debiann"));
}

#[test]
fn pattern_not_contained_is_rejected() {
    assert!(!name_matches("ubuntu", "x"));
    assert!(!name_matches("", "a"));
    assert!(!name_matches("abc", "abcd"));
}

#[test]
fn matching_ignores_ascii_case_both_ways() {
    assert!(name_matches("Ubuntu Server", "us"));
    assert!(name_matches("ubuntu server", "US"));
    assert!(name_matches("UBUNTU", "ubuntu"));
    assert!(name_matches("ubuntu", "UbUnTu"));
}

#[test]
fn matching_does_not_fold_letters_outside_ascii() {
    assert!(name_matches("Äpfel", "Äp"));
    assert!(!name_matches("Äpfel", "äp"));
}

#[test]
fn empty_pattern_matches_everything() {
    assert!(name_matches("anything", ""));
    assert!(name_matches("", ""));
}

#[test]
fn texts_beyond_the_limit_match_like_any_other() {
    let long_name = format!("{}Ubuntu", "-".repeat(MAX_MATCH_CHARS));
    assert!(name_matches(&long_name, ""));
    assert!(name_matches(&long_name, "ubt"));
    assert!(name_matches(&long_name, "-U"));
    assert!(!name_matches(&long_name, "ubx"));
    assert!(!name_matches(&long_name, "u-"));
    let long_pattern = "a".repeat(MAX_MATCH_CHARS + 1);
    assert!(!name_matches("a", &long_pattern));
    assert!(!name_matches(&"A".repeat(MAX_MATCH_CHARS), &long_pattern));
    assert!(name_matches(&"A".repeat(MAX_MATCH_CHARS + 1), &long_pattern));
    assert!(name_matches(&"Ab".repeat(MAX_MATCH_CHARS + 1), &long_pattern));
}

#[test]
fn texts_at_the_limit_go_to_the_matcher() {
    let at_limit = "a".repeat(MAX_MATCH_CHARS);
    assert!(name_matches(&at_limit, "aa"));
    assert!(name_matches(&at_limit, "A"));
    assert!(!name_matches(&at_limit, "b"));
}

#[test]
fn the_limit_counts_characters_not_bytes() {
    let name = "\u{e9}".repeat(MAX_MATCH_CHARS);
    assert!(name.len() > MAX_MATCH_CHARS);
    assert!(name_matches(&name, "\u{e9}"));
    assert!(!name_matches(&name, "\u{c9}"));
}

#[test]
fn both_ways_of_matching_agree() {
    let names = ["ubuntu-24.04.iso", "Ubuntu Server", "debian", "", "\u{c4}pfel", "aBc"];
    let patterns = ["", "ubu", "UBU", "u24", "iso", "nbd", "\u{e4}p", "\u{c4}P", "abc", "cba"];
    let padding = " ".repeat(MAX_MATCH_CHARS);
    for name in names {
        for pattern in patterns {
            let padded = format!("{}{}", padding, name);
            assert_eq!(name_matches(&padded, pattern), name_matches(name, pattern));
        }
    }
}
