//! The ordered, conditionally gated transform stage plan.
//!
//! Each compilation runs a fixed stage sequence; individual stages are gated
//! by the emit options and the module's source type.  The order is
//! load-bearing: specifier rewriting must see the module after JSX
//! desugaring, and hygiene fixups come last.

use vstd::prelude::*;
use crate::source_type::SourceType;

verus! {

/// Options for transpiling a module.
#[derive(Debug)]
pub struct EmitOptions {
    pub jsx_factory: String,
    pub jsx_fragment_factory: String,
    pub source_map: bool,
    pub is_dev: bool,
}

impl Default for EmitOptions {
    /// The default factory names, no source map, production mode.
    fn default() -> (r: Self)
        ensures
            r.jsx_factory@ == "React.createElement"@,
            r.jsx_fragment_factory@ == "React.Fragment"@,
            !r.source_map,
            !r.is_dev,
    {
        EmitOptions {
            jsx_factory: String::from_str("React.createElement"),
            jsx_fragment_factory: String::from_str("React.Fragment"),
            source_map: false,
            is_dev: false,
        }
    }
}

/// One stage of the transform pipeline, in the order the pipeline runs them.
#[derive(Clone, Copy, PartialEq, Eq, Structural, Debug)]
pub enum Stage {
    /// Hot-reload instrumentation, development builds of local modules only.
    DevRefresh,
    /// Hygiene tagging of pre-existing top-level bindings, JSX/TSX only.
    BindingMarking,
    /// JSX element/fragment desugaring into factory calls, JSX/TSX only.
    JsxDesugar,
    /// Import/export specifier rewriting; always runs.
    ImportExportRewrite,
    /// Legacy-semantics decorator lowering; always runs.
    LegacyDecorators,
    /// Inlining of runtime helpers referenced by earlier stages; always runs.
    HelperInjection,
    /// Removal of type-only constructs, TS/TSX only.
    TypeStrip,
    /// Printing normalization and hygiene fixups; always runs last.
    Fixups,
}

/// The source type parses JSX syntax.
pub open spec fn spec_is_jsx(t: SourceType) -> bool {
    t == SourceType::JSX || t == SourceType::TSX
}

/// The source type carries TypeScript constructs.
pub open spec fn spec_is_typescript(t: SourceType) -> bool {
    t == SourceType::TS || t == SourceType::TSX
}

/// The stage sequence of one compilation: dev-refresh instrumentation only
/// in development builds of non-remote modules, binding marking and JSX
/// desugaring only for JSX/TSX sources, type stripping only for TS/TSX
/// sources, and the rewrite, decorator, helper and fixup stages always.
pub open spec fn spec_stage_plan(t: SourceType, is_dev: bool, specifier_is_remote: bool) -> Seq<
    Stage,
> {
    (if is_dev && !specifier_is_remote {
        seq![Stage::DevRefresh]
    } else {
        Seq::empty()
    }) + (if spec_is_jsx(t) {
        seq![Stage::BindingMarking, Stage::JsxDesugar]
    } else {
        Seq::empty()
    }) + seq![Stage::ImportExportRewrite, Stage::LegacyDecorators, Stage::HelperInjection] + (
    if spec_is_typescript(t) {
        seq![Stage::TypeStrip]
    } else {
        Seq::empty()
    }) + seq![Stage::Fixups]
}

/// Build the ordered stage sequence for one compilation.
pub fn stage_plan(t: SourceType, is_dev: bool, specifier_is_remote: bool) -> (plan: Vec<Stage>)
    ensures
        plan@ == spec_stage_plan(t, is_dev, specifier_is_remote),
{
    let mut plan: Vec<Stage> = Vec::new();
    if is_dev && !specifier_is_remote {
        plan.push(Stage::DevRefresh);
    }
    if t == SourceType::JSX || t == SourceType::TSX {
        plan.push(Stage::BindingMarking);
        plan.push(Stage::JsxDesugar);
    }
    plan.push(Stage::ImportExportRewrite);
    plan.push(Stage::LegacyDecorators);
    plan.push(Stage::HelperInjection);
    if t == SourceType::TS || t == SourceType::TSX {
        plan.push(Stage::TypeStrip);
    }
    plan.push(Stage::Fixups);
    proof {
        assert(plan@ =~= spec_stage_plan(t, is_dev, specifier_is_remote));
    }
    plan
}

/// Law: with plain ES syntax and development mode off, every gated stage is
/// skipped — the plan is exactly specifier rewriting, decorator lowering,
/// helper injection and fixups, and no JSX, refresh or type-stripping stage
/// touches the module.
pub proof fn lemma_plain_es_plan(specifier_is_remote: bool)
    ensures
        spec_stage_plan(SourceType::JS, false, specifier_is_remote) =~= seq![
            Stage::ImportExportRewrite,
            Stage::LegacyDecorators,
            Stage::HelperInjection,
            Stage::Fixups,
        ],
        !spec_stage_plan(SourceType::JS, false, specifier_is_remote).contains(Stage::DevRefresh),
        !spec_stage_plan(SourceType::JS, false, specifier_is_remote).contains(Stage::JsxDesugar),
        !spec_stage_plan(SourceType::JS, false, specifier_is_remote).contains(Stage::TypeStrip),
{
    let plan = spec_stage_plan(SourceType::JS, false, specifier_is_remote);
    assert(plan =~= seq![
        Stage::ImportExportRewrite,
        Stage::LegacyDecorators,
        Stage::HelperInjection,
        Stage::Fixups,
    ]);
    assert forall|i: int| 0 <= i < plan.len() implies plan[i] != Stage::DevRefresh && plan[i]
        != Stage::JsxDesugar && plan[i] != Stage::TypeStrip by {
        assert(plan.len() == 4);
    }
}

} // verus!
