use esm_compiler::text::{ends_with, matches_at, starts_with, str_contains, str_eq};

#[test]
fn containment_edges() {
    assert!(str_contains("abc", ""));
    assert!(str_contains("", ""));
    assert!(!str_contains("", "a"));
    assert!(str_contains("abc", "abc"));
    assert!(str_contains("xabcy", "abc"));
    assert!(str_contains("xyabc", "abc"));
    assert!(!str_contains("ab", "abc"));
    assert!(!str_contains("axbxc", "abc"));
}

#[test]
fn prefix_suffix_and_equality() {
    assert!(starts_with("./mod.ts", "./"));
    assert!(!starts_with("/mod.ts", "./"));
    assert!(ends_with("mod.tsx", ".tsx"));
    assert!(!ends_with("mod.tsx", ".ts"));
    assert!(str_eq("same", "same"));
    assert!(!str_eq("same", "sam"));
    assert!(matches_at("abcd", 1, "bc"));
    assert!(!matches_at("abcd", 2, "bc"));
}
