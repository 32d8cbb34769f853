use esm_compiler::resolver::{DependencyKind, ImportHashMap, Resolver};
use esm_compiler::tree_shake::{to_str_lit, tree_shake};

#[test]
fn to_str_lit_wraps_in_quotes() {
    assert_eq!(to_str_lit("https://a/x.ts"), "\"https://a/x.ts\"");
    assert_eq!(to_str_lit(""), "\"\"");
}

#[test]
fn all_present_imports_are_kept_in_order() {
    // Two static imports whose rewritten specifiers are still quoted in the
    // emitted text: pruning keeps exactly both, in encounter order.
    let mut r = Resolver::new("/app.ts", ImportHashMap::default(), false);
    r.resolve("https://a/one.ts", DependencyKind::Static, 0, 0);
    r.resolve("https://a/two.ts", DependencyKind::Static, 1, 1);
    let code = "import a from \"https://a/one.ts\";\nimport b from \"https://a/two.ts\";\n";
    tree_shake(&mut r, code);
    let specs: Vec<&str> = r.deps.iter().map(|d| d.specifier.as_str()).collect();
    assert_eq!(specs, vec!["https://a/one.ts", "https://a/two.ts"]);
}

#[test]
fn unreferenced_dep_is_pruned() {
    let mut r = Resolver::new("/app.ts", ImportHashMap::default(), false);
    r.resolve("https://a/kept.ts", DependencyKind::Static, 0, 0);
    r.resolve("https://a/erased.ts", DependencyKind::Static, 1, 1);
    // A type-only import leaves no quoted literal behind.
    let code = "import a from \"https://a/kept.ts\";\n";
    tree_shake(&mut r, code);
    let specs: Vec<&str> = r.deps.iter().map(|d| d.specifier.as_str()).collect();
    assert_eq!(specs, vec!["https://a/kept.ts"]);
}

#[test]
fn unquoted_occurrence_does_not_retain() {
    let mut r = Resolver::new("/app.ts", ImportHashMap::default(), false);
    r.resolve("https://a/x.ts", DependencyKind::Static, 0, 0);
    // The specifier occurs, but not as a quoted string literal.
    let code = "// https://a/x.ts was stripped\n";
    tree_shake(&mut r, code);
    assert!(r.deps.is_empty());
}

#[test]
fn star_export_survives_without_literal() {
    // For `export * from "X"`, X's descriptor survives pruning even when no
    // quoted literal of X appears after rewriting.
    let mut r = Resolver::new("/app.ts", ImportHashMap::default(), false);
    r.resolve("https://a/star.ts", DependencyKind::ExportStar, 0, 0);
    let code = "export const nothing = 1;\n";
    tree_shake(&mut r, code);
    assert_eq!(r.deps.len(), 1);
    assert_eq!(r.deps[0].specifier, "https://a/star.ts");
    assert_eq!(r.deps[0].kind, DependencyKind::ExportStar);
    assert_eq!(r.star_exports, vec!["https://a/star.ts".to_string()]);
}

#[test]
fn mixed_pruning_preserves_relative_order() {
    let mut r = Resolver::new("/app.ts", ImportHashMap::default(), false);
    r.resolve("https://a/1.ts", DependencyKind::Static, 0, 0);
    r.resolve("https://a/2.ts", DependencyKind::Static, 1, 1);
    r.resolve("https://a/3.ts", DependencyKind::ExportStar, 2, 2);
    r.resolve("https://a/4.ts", DependencyKind::Dynamic, 3, 3);
    let code = "import x from \"https://a/4.ts\"; import y from \"https://a/1.ts\";";
    tree_shake(&mut r, code);
    let specs: Vec<&str> = r.deps.iter().map(|d| d.specifier.as_str()).collect();
    assert_eq!(specs, vec!["https://a/1.ts", "https://a/3.ts", "https://a/4.ts"]);
}
