//! Source-type classification and grammar feature selection.
//!
//! A specifier's extension (or an explicit hint) decides the grammar variant,
//! which in turn fixes the feature flags handed to the parser collaborator.

use vstd::prelude::*;
use crate::text::{ends_with, spec_ends_with};

verus! {

/// Grammar variant of a module source.
#[derive(Clone, Copy, PartialEq, Eq, Structural, Debug)]
pub enum SourceType {
    JS,
    JSX,
    TS,
    TSX,
    Unknown,
}

/// The source type that a specifier's extension selects.
pub open spec fn spec_source_type_of(s: Seq<char>) -> SourceType {
    if spec_ends_with(s, seq!['.', 'j', 's']) || spec_ends_with(s, seq!['.', 'm', 'j', 's']) {
        SourceType::JS
    } else if spec_ends_with(s, seq!['.', 'j', 's', 'x']) {
        SourceType::JSX
    } else if spec_ends_with(s, seq!['.', 't', 's']) {
        SourceType::TS
    } else if spec_ends_with(s, seq!['.', 't', 's', 'x']) {
        SourceType::TSX
    } else {
        SourceType::Unknown
    }
}

/// The source type a compilation resolves to: an explicit hint wins unless it
/// is `Unknown`, in which case (or absent any hint) the extension decides.
pub open spec fn spec_resolve_source_type(s: Seq<char>, hint: Option<SourceType>) -> SourceType {
    match hint {
        Option::Some(t) => if t == SourceType::Unknown {
            spec_source_type_of(s)
        } else {
            t
        },
        Option::None => spec_source_type_of(s),
    }
}

/// Classify a specifier by its extension.
pub fn source_type_of(specifier: &str) -> (t: SourceType)
    ensures
        t == spec_source_type_of(specifier@),
{
    proof {
        reveal_strlit(".js");
        reveal_strlit(".mjs");
        reveal_strlit(".jsx");
        reveal_strlit(".ts");
        reveal_strlit(".tsx");
        assert(".js"@ =~= seq!['.', 'j', 's']);
        assert(".mjs"@ =~= seq!['.', 'm', 'j', 's']);
        assert(".jsx"@ =~= seq!['.', 'j', 's', 'x']);
        assert(".ts"@ =~= seq!['.', 't', 's']);
        assert(".tsx"@ =~= seq!['.', 't', 's', 'x']);
    }
    if ends_with(specifier, ".js") || ends_with(specifier, ".mjs") {
        SourceType::JS
    } else if ends_with(specifier, ".jsx") {
        SourceType::JSX
    } else if ends_with(specifier, ".ts") {
        SourceType::TS
    } else if ends_with(specifier, ".tsx") {
        SourceType::TSX
    } else {
        SourceType::Unknown
    }
}

/// Resolve the effective source type from a specifier and an optional hint.
pub fn resolve_source_type(specifier: &str, hint: Option<SourceType>) -> (t: SourceType)
    ensures
        t == spec_resolve_source_type(specifier@, hint),
{
    match hint {
        Option::Some(t) => if t == SourceType::Unknown {
            source_type_of(specifier)
        } else {
            t
        },
        Option::None => source_type_of(specifier),
    }
}

/// Feature flags for the ECMAScript grammar variant.
#[derive(Clone, Copy, PartialEq, Eq, Structural, Debug)]
pub struct EsSyntaxFlags {
    pub class_private_methods: bool,
    pub class_private_props: bool,
    pub class_props: bool,
    pub dynamic_import: bool,
    pub export_default_from: bool,
    pub export_namespace_from: bool,
    pub num_sep: bool,
    pub nullish_coalescing: bool,
    pub optional_chaining: bool,
    pub top_level_await: bool,
    pub import_meta: bool,
    pub import_assertions: bool,
    pub jsx: bool,
}

/// Feature flags for the TypeScript grammar variant.
#[derive(Clone, Copy, PartialEq, Eq, Structural, Debug)]
pub struct TsSyntaxFlags {
    pub decorators: bool,
    pub dynamic_import: bool,
    pub tsx: bool,
}

/// The grammar configuration handed to the parser collaborator.
#[derive(Clone, Copy, PartialEq, Eq, Structural, Debug)]
pub enum Syntax {
    Es(EsSyntaxFlags),
    Typescript(TsSyntaxFlags),
}

/// The ECMAScript feature set, with JSX syntax only if `jsx` is set.
pub open spec fn spec_es_config(jsx: bool) -> EsSyntaxFlags {
    EsSyntaxFlags {
        class_private_methods: true,
        class_private_props: true,
        class_props: true,
        dynamic_import: true,
        export_default_from: true,
        export_namespace_from: true,
        num_sep: true,
        nullish_coalescing: true,
        optional_chaining: true,
        top_level_await: true,
        import_meta: true,
        import_assertions: true,
        jsx,
    }
}

/// The TypeScript feature set, with TSX syntax only if `tsx` is set.
pub open spec fn spec_ts_config(tsx: bool) -> TsSyntaxFlags {
    TsSyntaxFlags { decorators: true, dynamic_import: true, tsx }
}

/// The grammar configuration that a source type selects.
pub open spec fn spec_get_syntax(t: SourceType) -> Syntax {
    match t {
        SourceType::JS => Syntax::Es(spec_es_config(false)),
        SourceType::JSX => Syntax::Es(spec_es_config(true)),
        SourceType::TS => Syntax::Typescript(spec_ts_config(false)),
        SourceType::TSX => Syntax::Typescript(spec_ts_config(true)),
        SourceType::Unknown => Syntax::Es(spec_es_config(false)),
    }
}

/// Build the ECMAScript grammar flags.
pub fn get_es_config(jsx: bool) -> (r: EsSyntaxFlags)
    ensures
        r == spec_es_config(jsx),
{
    EsSyntaxFlags {
        class_private_methods: true,
        class_private_props: true,
        class_props: true,
        dynamic_import: true,
        export_default_from: true,
        export_namespace_from: true,
        num_sep: true,
        nullish_coalescing: true,
        optional_chaining: true,
        top_level_await: true,
        import_meta: true,
        import_assertions: true,
        jsx,
    }
}

/// Build the TypeScript grammar flags.
pub fn get_ts_config(tsx: bool) -> (r: TsSyntaxFlags)
    ensures
        r == spec_ts_config(tsx),
{
    TsSyntaxFlags { decorators: true, dynamic_import: true, tsx }
}

/// Select the grammar configuration for a source type.
pub fn get_syntax(source_type: &SourceType) -> (r: Syntax)
    ensures
        r == spec_get_syntax(*source_type),
{
    match source_type {
        SourceType::JS => Syntax::Es(get_es_config(false)),
        SourceType::JSX => Syntax::Es(get_es_config(true)),
        SourceType::TS => Syntax::Typescript(get_ts_config(false)),
        SourceType::TSX => Syntax::Typescript(get_ts_config(true)),
        SourceType::Unknown => Syntax::Es(get_es_config(false)),
    }
}

} // verus!
