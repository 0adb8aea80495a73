use psy_lines_backend::text::str_eq;

#[test]
fn equal_strings_are_equal() {
    assert!(str_eq("", ""));
    assert!(str_eq("GET", "GET"));
    assert!(str_eq("/health", "/health"));
    let built = format!("/{}", "health");
    assert!(str_eq(&built, "/health"));
}

#[test]
fn different_lengths_are_unequal() {
    assert!(!str_eq("", "a"));
    assert!(!str_eq("a", ""));
    assert!(!str_eq("/health", "/healthy"));
    assert!(!str_eq("/healthy", "/health"));
}

#[test]
fn same_length_different_characters_are_unequal() {
    assert!(!str_eq("GET", "GEt"));
    assert!(!str_eq("GET", "PUT"));
    assert!(!str_eq("aET", "GET"));
}

#[test]
fn comparison_is_case_sensitive() {
    assert!(!str_eq("get", "GET"));
    assert!(!str_eq("/Health", "/health"));
}

#[test]
fn characters_outside_ascii_are_compared_too() {
    assert!(str_eq("santé", "santé"));
    assert!(!str_eq("santé", "sante"));
    assert!(!str_eq("é", "e\u{301}"));
    assert!(!str_eq("é", "è"));
}
