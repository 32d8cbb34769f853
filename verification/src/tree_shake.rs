//! Post-emission dependency pruning.
//!
//! After serialization, the recorded dependency list is filtered down to the
//! entries whose resolved specifier occurs as a quoted string literal in the
//! emitted text, or whose specifier is in the star-export set.  Retained
//! entries keep their relative order; nothing is added or reordered.  This is
//! a deliberately conservative textual heuristic: over-retention is
//! acceptable, under-retention would break execution.

use vstd::prelude::*;
use crate::resolver::{DependencyDescriptor, DependencyKind, Resolver, spec_has_star_dep};
use crate::text::{str_contains, str_eq, spec_contains};

verus! {

/// `s` wrapped in double quotes, as it appears in emitted code.
pub open spec fn spec_quoted(s: Seq<char>) -> Seq<char> {
    seq!['"'] + s + seq!['"']
}

/// Wrap a specifier in double quotes, as the emitter prints string literals.
pub fn to_str_lit(sub_text: &str) -> (r: String)
    ensures
        r@ == spec_quoted(sub_text@),
{
    proof {
        reveal_strlit("\"");
        assert("\""@ =~= seq!['"']);
    }
    let mut s = String::from_str("\"");
    s.append(sub_text);
    s.append("\"");
    proof {
        assert(s@ =~= spec_quoted(sub_text@));
    }
    s
}

/// `x` is one of the star-export specifiers.
pub open spec fn spec_in_star(stars: Seq<String>, x: Seq<char>) -> bool {
    exists|i: int| 0 <= i < stars.len() && #[trigger] stars[i]@ == x
}

/// A recorded dependency survives pruning: its specifier is a star-export,
/// or its quoted specifier occurs in the emitted text.
pub open spec fn spec_keep_dep(
    d: DependencyDescriptor,
    stars: Seq<String>,
    code: Seq<char>,
) -> bool {
    spec_in_star(stars, d.specifier@) || spec_contains(code, spec_quoted(d.specifier@))
}

/// Whether `x` is in the star-export set.
fn in_star(stars: &Vec<String>, x: &str) -> (b: bool)
    ensures
        b == spec_in_star(stars@, x@),
{
    let mut i: usize = 0;
    while i < stars.len()
        invariant
            i <= stars@.len(),
            forall|k: int| 0 <= k < i ==> #[trigger] stars@[k]@ != x@,
        decreases stars@.len() - i,
    {
        if str_eq(stars[i].as_str(), x) {
            return true;
        }
        i += 1;
    }
    false
}

/// Remove the recorded dependencies that the emitted text no longer
/// references: each entry is kept exactly when its specifier is in the
/// star-export set or its quoted specifier occurs in `code`; the surviving
/// entries keep their original order, and nothing else changes.
pub fn tree_shake(resolver: &mut Resolver, code: &str)
    requires
        old(resolver).wf(),
    ensures
        final(resolver).wf(),
        final(resolver).deps@ == old(resolver).deps@.filter(
            (|d: DependencyDescriptor| spec_keep_dep(d, old(resolver).star_exports@, code@)),
        ),
        final(resolver).star_exports@ == old(resolver).star_exports@,
        final(resolver).specifier == old(resolver).specifier,
        final(resolver).import_map == old(resolver).import_map,
        final(resolver).bundle_mode == old(resolver).bundle_mode,
        final(resolver).specifier_is_remote == old(resolver).specifier_is_remote,
{
    let ghost pred = (|d: DependencyDescriptor| spec_keep_dep(
        d,
        old(resolver).star_exports@,
        code@,
    ));
    let mut kept: Vec<DependencyDescriptor> = Vec::new();
    let n = resolver.deps.len();
    proof {
        assert(resolver.deps@.take(0).filter(pred) =~= kept@);
    }
    let mut i: usize = 0;
    while i < n
        invariant
            *resolver == *old(resolver),
            n == resolver.deps@.len(),
            i <= n,
            kept@ == resolver.deps@.take(i as int).filter(pred),
            pred == (|d: DependencyDescriptor| spec_keep_dep(
                d,
                old(resolver).star_exports@,
                code@,
            )),
        decreases n - i,
    {
        let d = &resolver.deps[i];
        let quoted = to_str_lit(d.specifier.as_str());
        let keep = in_star(&resolver.star_exports, d.specifier.as_str()) || str_contains(
            code,
            quoted.as_str(),
        );
        if keep {
            kept.push(d.clone());
        }
        proof {
            reveal_with_fuel(Seq::<DependencyDescriptor>::filter, 2);
            let ds = resolver.deps@;
            assert(ds.take(i + 1).drop_last() =~= ds.take(i as int));
            assert(ds.take(i + 1).last() == ds[i as int]);
            assert(keep == pred(ds[i as int]));
        }
        i += 1;
    }
    proof {
        assert(resolver.deps@.take(n as int) =~= resolver.deps@);
    }
    resolver.deps = kept;
    proof {
        let stars = old(resolver).star_exports@;
        let odeps = old(resolver).deps@;
        assert forall|j: int| 0 <= j < resolver.star_exports@.len() implies spec_has_star_dep(
            resolver.deps@,
            #[trigger] resolver.star_exports@[j]@,
        ) by {
            assert(spec_has_star_dep(odeps, stars[j]@));
            let k = choose|k: int|
                0 <= k < odeps.len() && odeps[k].kind == DependencyKind::ExportStar
                    && odeps[k].specifier@ == stars[j]@;
            assert(spec_in_star(stars, odeps[k].specifier@));
            odeps.lemma_filter_contains(pred, k);
            assert(resolver.deps@.contains(odeps[k]));
            let m = choose|m: int| 0 <= m < resolver.deps@.len() && resolver.deps@[m] == odeps[k];
            assert(resolver.deps@[m].kind == DependencyKind::ExportStar);
        }
    }
}

/// Law: when every recorded dependency still qualifies — its quoted
/// specifier occurs in the emitted text, or it is a star-export — pruning
/// keeps the entire list, in its original encounter order.
pub proof fn lemma_prune_keeps_all(
    deps: Seq<DependencyDescriptor>,
    stars: Seq<String>,
    code: Seq<char>,
)
    requires
        forall|i: int| 0 <= i < deps.len() ==> spec_keep_dep(#[trigger] deps[i], stars, code),
    ensures
        deps.filter((|d: DependencyDescriptor| spec_keep_dep(d, stars, code))) == deps,
    decreases deps.len(),
{
    let pred = (|d: DependencyDescriptor| spec_keep_dep(d, stars, code));
    if deps.len() == 0 {
        assert(deps.filter(pred) =~= deps);
    } else {
        let prefix = deps.drop_last();
        assert(forall|i: int| 0 <= i < prefix.len() ==> spec_keep_dep(#[trigger] prefix[i], stars, code));
        lemma_prune_keeps_all(prefix, stars, code);
        assert(pred(deps.last()));
        assert(deps.filter(pred) == prefix.filter(pred).push(deps.last())) by {
            reveal_with_fuel(Seq::<DependencyDescriptor>::filter, 2);
        }
        assert(prefix.push(deps.last()) =~= deps);
    }
}

/// Law: a dependency whose specifier is in the star-export set survives
/// pruning even when its quoted specifier never occurs in the emitted text.
pub proof fn lemma_star_export_survives(
    deps: Seq<DependencyDescriptor>,
    stars: Seq<String>,
    code: Seq<char>,
    k: int,
)
    requires
        0 <= k < deps.len(),
        spec_in_star(stars, deps[k].specifier@),
    ensures
        deps.filter((|d: DependencyDescriptor| spec_keep_dep(d, stars, code))).contains(deps[k]),
{
    let pred = (|d: DependencyDescriptor| spec_keep_dep(d, stars, code));
    assert(pred(deps[k]));
    deps.lemma_filter_contains(pred, k);
}

} // verus!
