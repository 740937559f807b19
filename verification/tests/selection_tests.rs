use launcher::strutil::{str_eq, str_lex_le, str_starts_with};
use launcher::update::common::{find_files_by_extension_in, has_extension, select_latest_candidate};

fn names(v: &[&str]) -> Vec<String> {
    v.iter().map(|s| String::from(*s)).collect()
}

#[test]
fn extension_match_is_case_sensitive_and_exact() {
    assert!(has_extension("update.msix", "msix"));
    assert!(has_extension("update-1.0.0.msix.sha256", "sha256"));
    assert!(!has_extension("update.MSIX", "msix"));
    assert!(!has_extension("update.msix", "sha256"));
    assert!(!has_extension("msix", "msix"));
    // A file name that is nothing but a dot and the extension has no
    // extension at all.
    assert!(!has_extension(".sha256", "sha256"));
    assert!(!has_extension("update.msixx", "msix"));
}

#[test]
fn find_files_keeps_matching_names_in_order() {
    let listing = names(&["b.dmg", "a.txt", "a.dmg", "c.dmg.sha256"]);
    let found = find_files_by_extension_in(&listing, "dmg");
    assert_eq!(found, names(&["b.dmg", "a.dmg"]));
}

// The installer selects the lexicographically last candidate. This is an
// approximation of "latest version": it relies on file names sorting
// consistently with version order, and is not a semantic-version comparison.
#[test]
fn selects_lexicographically_last_candidate() {
    let listing = names(&["update-1.0.0.msix", "update-1.2.0.msix"]);
    let chosen = select_latest_candidate(&listing, "msix").unwrap();
    assert_eq!(chosen.as_str(), "update-1.2.0.msix");
    // Order in the listing does not matter.
    let listing = names(&["update-1.2.0.msix", "update-1.0.0.msix"]);
    let chosen = select_latest_candidate(&listing, "msix").unwrap();
    assert_eq!(chosen.as_str(), "update-1.2.0.msix");
}

// The known limit of the approximation: lexicographic order is not numeric
// order, so a two-digit version sorts before a one-digit one.
#[test]
fn lexicographic_selection_is_not_semantic_version_order() {
    let listing = names(&["update-2.msix", "update-10.msix"]);
    let chosen = select_latest_candidate(&listing, "msix").unwrap();
    assert_eq!(chosen.as_str(), "update-2.msix");
}

#[test]
fn selection_fails_without_candidates() {
    assert_eq!(select_latest_candidate(&names(&[]), "msix"), None);
    assert_eq!(select_latest_candidate(&names(&["a.dmg", "b.sha256"]), "msix"), None);
}

#[test]
fn lexicographic_order_on_strings() {
    assert!(str_lex_le("", "a"));
    assert!(str_lex_le("a", "a"));
    assert!(str_lex_le("abc", "abd"));
    assert!(!str_lex_le("abd", "abc"));
    assert!(str_lex_le("ab", "abc"));
    assert!(!str_lex_le("abc", "ab"));
    assert!(str_lex_le("update-10", "update-2"));
}

#[test]
fn string_helpers() {
    assert!(str_eq("same", "same"));
    assert!(!str_eq("same", "sane"));
    assert!(!str_eq("same", "samee"));
    assert!(str_starts_with("--threema-profile=work", "--threema-profile="));
    assert!(!str_starts_with("--threema", "--threema-profile="));
}
