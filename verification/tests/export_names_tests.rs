use esm_compiler::export_names::{Decl, ModuleAst, ModuleItem, Pat};

fn ident(name: &str) -> Pat {
    Pat::Ident(name.to_string())
}

fn names_of(items: Vec<ModuleItem>) -> Vec<String> {
    let module = ModuleAst { items };
    esm_compiler::export_names::parse_export_names(&module)
}

#[test]
fn parse_export_names() {
    let items = vec![
        // export const name = "alephjs"
        ModuleItem::ExportDecl(Decl::Var(vec![ident("name")])),
        // export const version = "1.0.1"
        ModuleItem::ExportDecl(Decl::Var(vec![ident("version")])),
        // const start = () => {}
        ModuleItem::Plain,
        // export default start
        ModuleItem::ExportDefault,
        // export const { build } = { build: () => {} }
        ModuleItem::ExportDecl(Decl::Var(vec![Pat::Object(vec![ident("build")])])),
        // export function dev() {}
        ModuleItem::ExportDecl(Decl::Fn("dev".to_string())),
        // export class Server {}
        ModuleItem::ExportDecl(Decl::Class("Server".to_string())),
        // export const { a: { a1, a2 }, 'b': [ b1, b2 ], c, ...rest } = ...
        ModuleItem::ExportDecl(Decl::Var(vec![Pat::Object(vec![
            Pat::KeyValue(
                "a".to_string(),
                Box::new(Pat::Object(vec![ident("a1"), ident("a2")])),
            ),
            Pat::KeyValue(
                "b".to_string(),
                Box::new(Pat::Array(vec![ident("b1"), ident("b2")])),
            ),
            ident("c"),
            Pat::Rest(Box::new(ident("rest"))),
        ])])),
        // export const [ d, e, ...{f, g, rest3} ] = ...
        ModuleItem::ExportDecl(Decl::Var(vec![Pat::Array(vec![
            ident("d"),
            ident("e"),
            Pat::Rest(Box::new(Pat::Object(vec![
                ident("f"),
                ident("g"),
                ident("rest3"),
            ]))),
        ])])),
        // let i
        ModuleItem::Plain,
        // export const j = i = [0, 0]
        ModuleItem::ExportDecl(Decl::Var(vec![ident("j")])),
        // export { exists, existsSync } from "https://deno.land/std/fs/exists.ts"
        ModuleItem::ExportNamed(vec!["exists".to_string(), "existsSync".to_string()]),
        // export * as DenoStdServer from "https://deno.land/std/http/sever.ts"
        ModuleItem::ExportStarAs(
            "DenoStdServer".to_string(),
            "https://deno.land/std/http/sever.ts".to_string(),
        ),
        // export * from "https://deno.land/std/http/sever.ts"
        ModuleItem::ExportStar("https://deno.land/std/http/sever.ts".to_string()),
    ];
    assert_eq!(
        names_of(items),
        vec![
            "name",
            "version",
            "default",
            "build",
            "dev",
            "Server",
            "a1",
            "a2",
            "b1",
            "b2",
            "c",
            "rest",
            "d",
            "e",
            "f",
            "g",
            "rest3",
            "j",
            "exists",
            "existsSync",
            "DenoStdServer",
            "{https://deno.land/std/http/sever.ts}",
        ]
        .into_iter()
        .map(|s| s.to_owned())
        .collect::<Vec<String>>()
    )
}

#[test]
fn nested_destructuring_depth_first() {
    // export const {a:{a1,a2}, b:[b1,b2], c, ...rest} = ...
    let items = vec![ModuleItem::ExportDecl(Decl::Var(vec![Pat::Object(vec![
        Pat::KeyValue(
            "a".to_string(),
            Box::new(Pat::Object(vec![ident("a1"), ident("a2")])),
        ),
        Pat::KeyValue(
            "b".to_string(),
            Box::new(Pat::Array(vec![ident("b1"), ident("b2")])),
        ),
        ident("c"),
        Pat::Rest(Box::new(ident("rest"))),
    ])]))];
    assert_eq!(names_of(items), vec!["a1", "a2", "b1", "b2", "c", "rest"]);
}

#[test]
fn array_holes_and_defaults() {
    // export const [ , x = 1 ] = ...
    let items = vec![ModuleItem::ExportDecl(Decl::Var(vec![Pat::Array(vec![
        Pat::Hole,
        Pat::Assign(Box::new(ident("x"))),
    ])]))];
    assert_eq!(names_of(items), vec!["x"]);
}

#[test]
fn star_reexport_sentinel() {
    // export * from "X"
    let items = vec![ModuleItem::ExportStar("X".to_string())];
    assert_eq!(names_of(items), vec!["{X}"]);
}

#[test]
fn namespace_reexport_alias() {
    // export * as Y from "X"
    let items = vec![ModuleItem::ExportStarAs("Y".to_string(), "X".to_string())];
    assert_eq!(names_of(items), vec!["Y"]);
}

#[test]
fn named_reexport_uses_local_names() {
    // export { a as b, c } from "X"
    let items = vec![ModuleItem::ExportNamed(vec![
        "b".to_string(),
        "c".to_string(),
    ])];
    assert_eq!(names_of(items), vec!["b", "c"]);
}

#[test]
fn empty_module_exports_nothing() {
    assert_eq!(names_of(vec![ModuleItem::Plain]), Vec::<String>::new());
}
