use esm_compiler::resolver::{
    is_remote, lookup, DependencyKind, ImportHashMap, Resolver,
};

fn map_of(pairs: &[(&str, &str)]) -> ImportHashMap {
    ImportHashMap {
        imports: pairs
            .iter()
            .map(|(k, v)| (k.to_string(), v.to_string()))
            .collect(),
    }
}

#[test]
fn import_map_exact_match() {
    let map = map_of(&[("react", "https://esm.sh/react@17.0.2")]);
    let mut r = Resolver::new("/app.tsx", map, false);
    let out = r.resolve("react", DependencyKind::Static, 0, 5);
    assert_eq!(out, "https://esm.sh/react@17.0.2");
    assert_eq!(r.deps.len(), 1);
    assert_eq!(r.deps[0].specifier, "https://esm.sh/react@17.0.2");
    assert_eq!(r.deps[0].kind, DependencyKind::Static);
    assert_eq!(r.deps[0].span_lo, 0);
    assert_eq!(r.deps[0].span_hi, 5);
}

#[test]
fn import_map_prefix_match() {
    let map = map_of(&[("std/", "https://deno.land/std@0.100.0/")]);
    let mut r = Resolver::new("/app.ts", map, false);
    let out = r.resolve("std/http/server.ts", DependencyKind::Static, 0, 0);
    assert_eq!(out, "https://deno.land/std@0.100.0/http/server.ts");
}

#[test]
fn import_map_first_entry_wins() {
    let map = map_of(&[("a", "first"), ("a", "second")]);
    assert_eq!(lookup(&map, "a"), Some("first".to_string()));
    assert_eq!(lookup(&map, "b"), None);
}

#[test]
fn relative_specifier_normalized_against_remote_base() {
    let mut r = Resolver::new(
        "https://deno.land/x/mod.ts",
        ImportHashMap::default(),
        false,
    );
    let out = r.resolve("./util.ts", DependencyKind::Static, 0, 0);
    assert_eq!(out, "https://deno.land/x/util.ts");
    let out = r.resolve("../other/lib.ts", DependencyKind::Static, 0, 0);
    assert_eq!(out, "https://deno.land/other/lib.ts");
}

#[test]
fn relative_specifier_normalized_against_local_base() {
    let mut r = Resolver::new("/pages/app.ts", ImportHashMap::default(), false);
    assert_eq!(
        r.resolve("./c.ts", DependencyKind::Static, 0, 0),
        "/pages/c.ts"
    );
    assert_eq!(
        r.resolve("../shared/./util.ts", DependencyKind::Static, 0, 0),
        "/shared/util.ts"
    );
}

#[test]
fn unmatched_specifier_passes_through() {
    let mut r = Resolver::new("/app.ts", ImportHashMap::default(), false);
    assert_eq!(
        r.resolve("https://esm.sh/react", DependencyKind::Static, 0, 0),
        "https://esm.sh/react"
    );
}

#[test]
fn deps_recorded_in_encounter_order_without_dedup() {
    let mut r = Resolver::new("/app.ts", ImportHashMap::default(), false);
    r.resolve("https://a/one.ts", DependencyKind::Static, 0, 0);
    r.resolve("https://a/two.ts", DependencyKind::Dynamic, 1, 2);
    r.resolve("https://a/one.ts", DependencyKind::ExportFrom, 3, 4);
    let specs: Vec<&str> = r.deps.iter().map(|d| d.specifier.as_str()).collect();
    assert_eq!(
        specs,
        vec!["https://a/one.ts", "https://a/two.ts", "https://a/one.ts"]
    );
    assert_eq!(r.deps[1].kind, DependencyKind::Dynamic);
    assert!(r.star_exports.is_empty());
}

#[test]
fn export_star_recorded_in_star_set() {
    let mut r = Resolver::new("/app.ts", ImportHashMap::default(), false);
    r.resolve("./dep.ts", DependencyKind::ExportStar, 0, 0);
    assert_eq!(r.star_exports, vec!["/dep.ts".to_string()]);
    assert_eq!(r.deps[0].kind, DependencyKind::ExportStar);
    assert_eq!(r.deps[0].specifier, "/dep.ts");
}

#[test]
fn remote_flag_computed_from_own_specifier() {
    assert!(is_remote("https://deno.land/x/mod.ts"));
    assert!(is_remote("http://localhost/mod.ts"));
    assert!(!is_remote("/app.ts"));
    assert!(!is_remote("./mod.ts"));
    let r = Resolver::new("https://deno.land/x/mod.ts", ImportHashMap::default(), false);
    assert!(r.specifier_is_remote);
    let r = Resolver::new("/app.ts", ImportHashMap::default(), true);
    assert!(!r.specifier_is_remote);
    assert!(r.bundle_mode);
}
