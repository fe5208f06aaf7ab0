use dewpoint::is_allowed;

#[test]
fn allowlist_empty_matches_everything() {
    assert!(is_allowed("A4:C1:38:7A:93:C3", &[]));
}

#[test]
fn allowlist_matches_case_insensitively() {
    let allow = vec!["a4:c1:38:7a:93:c3".to_string()];
    assert!(is_allowed("A4:C1:38:7A:93:C3", &allow));
}

#[test]
fn allowlist_rejects_unlisted_address() {
    let allow = vec!["AA:BB:CC:DD:EE:FF".to_string()];
    assert!(!is_allowed("A4:C1:38:7A:93:C3", &allow));
}

#[test]
fn allowlist_empty_matches_empty_address() {
    assert!(is_allowed("", &[]));
}

#[test]
fn allowlist_exact_entry_matches() {
    let allow = vec!["AA:BB:CC:DD:EE:FF".to_string(), "A4:C1:38:7A:93:C3".to_string()];
    assert!(is_allowed("A4:C1:38:7A:93:C3", &allow));
    assert!(is_allowed("aa:bb:cc:dd:ee:ff", &allow));
}

#[test]
fn allowlist_case_of_address_does_not_matter() {
    let allow = vec!["A4:c1:38:7a:93:C3".to_string()];
    assert!(is_allowed("a4:C1:38:7A:93:c3", &allow));
    assert!(is_allowed("A4:C1:38:7A:93:C3", &allow));
    assert!(!is_allowed("a4:c1:38:7a:93:c4", &allow));
}

#[test]
fn allowlist_requires_same_length() {
    let allow = vec!["A4:C1:38:7A:93".to_string()];
    assert!(!is_allowed("A4:C1:38:7A:93:C3", &allow));
    assert!(!is_allowed("A4:C1:38:7A", &allow));
}

#[test]
fn allowlist_folds_only_ascii_letters() {
    // '[' and '{' differ by the same 32 as 'A' and 'a', but are not letters.
    let allow = vec!["[x]".to_string()];
    assert!(!is_allowed("{x}", &allow));
    assert!(is_allowed("[X]", &allow));
    // Non-ASCII letters are compared as they are.
    let accented = vec!["café".to_string()];
    assert!(is_allowed("CAFé", &accented));
    assert!(!is_allowed("CAFÉ", &accented));
}
