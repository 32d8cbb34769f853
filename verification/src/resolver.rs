//! Import/export specifier resolution.
//!
//! The resolver classifies a specifier by precedence — import-map match,
//! relative-path normalization, passthrough — rewrites it, and records one
//! dependency descriptor per syntactic occurrence, in encounter order.

use vstd::prelude::*;
use crate::paths::{is_relative, resolve_relative, spec_is_relative, spec_normalize};
use crate::text::{starts_with, str_eq, spec_starts_with};

verus! {

/// How a dependency is referenced by the module.
#[derive(Clone, Copy, PartialEq, Eq, Structural, Debug)]
pub enum DependencyKind {
    Static,
    Dynamic,
    ExportFrom,
    ExportStar,
}

/// One recorded dependency: the post-resolution specifier, how it is
/// referenced, and its source position range.
#[derive(Debug)]
pub struct DependencyDescriptor {
    pub specifier: String,
    pub kind: DependencyKind,
    pub span_lo: usize,
    pub span_hi: usize,
}

impl Clone for DependencyDescriptor {
    fn clone(&self) -> (r: Self)
        ensures
            r == *self,
    {
        DependencyDescriptor {
            specifier: self.specifier.clone(),
            kind: self.kind,
            span_lo: self.span_lo,
            span_hi: self.span_hi,
        }
    }
}

/// Table mapping bare or prefixed specifiers to resolved specifiers, in
/// lookup order.
#[derive(Debug)]
pub struct ImportHashMap {
    pub imports: Vec<(String, String)>,
}

impl Default for ImportHashMap {
    /// An empty import map.
    fn default() -> (r: Self)
        ensures
            r.imports@.len() == 0,
    {
        ImportHashMap { imports: Vec::new() }
    }
}

/// The mapping that the import map applies to `s`, scanning entries from
/// index `i` on: an exact key match substitutes the mapped value; a key that
/// ends in `'/'` and prefixes `s` substitutes the value plus the rest of `s`;
/// the first matching entry wins.
pub open spec fn spec_lookup_from(
    pairs: Seq<(String, String)>,
    s: Seq<char>,
    i: int,
) -> Option<Seq<char>>
    decreases pairs.len() - i,
{
    if i < 0 || i >= pairs.len() {
        None
    } else {
        let k = pairs[i].0@;
        let v = pairs[i].1@;
        if s == k {
            Some(v)
        } else if k.len() > 0 && k.last() == '/' && spec_starts_with(s, k) {
            Some(v + s.skip(k.len() as int))
        } else {
            spec_lookup_from(pairs, s, i + 1)
        }
    }
}

/// The view of an optionally returned string.
pub open spec fn spec_option_view(o: Option<String>) -> Option<Seq<char>> {
    match o {
        Some(v) => Some(v@),
        None => None,
    }
}

/// Look up `s` in the import map, scanning entries from index `i` on.
fn lookup_from(map: &ImportHashMap, s: &str, i: usize) -> (r: Option<String>)
    requires
        i <= map.imports@.len(),
    ensures
        spec_option_view(r) == spec_lookup_from(map.imports@, s@, i as int),
    decreases map.imports@.len() - i,
{
    if i >= map.imports.len() {
        return None;
    }
    let k: &String = &map.imports[i].0;
    let v: &String = &map.imports[i].1;
    if str_eq(s, k.as_str()) {
        return Some(v.clone());
    }
    let klen: usize = k.as_str().unicode_len();
    let slen: usize = s.unicode_len();
    if klen > 0 && k.as_str().get_char(klen - 1) == '/' && starts_with(s, k.as_str()) {
        let rest = s.substring_char(klen, slen);
        let mut out = v.clone();
        out.append(rest);
        proof {
            assert(s@.subrange(klen as int, slen as int) =~= s@.skip(klen as int));
        }
        return Some(out);
    }
    lookup_from(map, s, i + 1)
}

/// Look up `s` in the import map; `None` when no entry matches.
pub fn lookup(map: &ImportHashMap, s: &str) -> (r: Option<String>)
    ensures
        spec_option_view(r) == spec_lookup_from(map.imports@, s@, 0),
{
    lookup_from(map, s, 0)
}

/// A specifier is remote when it is an absolute `http` or `https` reference.
pub open spec fn spec_is_remote(s: Seq<char>) -> bool {
    spec_starts_with(s, seq!['h', 't', 't', 'p', ':', '/', '/']) || spec_starts_with(
        s,
        seq!['h', 't', 't', 'p', 's', ':', '/', '/'],
    )
}

/// Whether a specifier is an absolute remote reference.
pub fn is_remote(s: &str) -> (b: bool)
    ensures
        b == spec_is_remote(s@),
{
    proof {
        reveal_strlit("http://");
        reveal_strlit("https://");
        assert("http://"@ =~= seq!['h', 't', 't', 'p', ':', '/', '/']);
        assert("https://"@ =~= seq!['h', 't', 't', 'p', 's', ':', '/', '/']);
    }
    starts_with(s, "http://") || starts_with(s, "https://")
}

/// `deps` holds an export-star entry whose specifier is `x`.
pub open spec fn spec_has_star_dep(deps: Seq<DependencyDescriptor>, x: Seq<char>) -> bool {
    exists|k: int|
        0 <= k < deps.len() && deps[k].kind == DependencyKind::ExportStar && deps[k].specifier@
            == x
}

/// What a single specifier resolves to: the import-map substitution when an
/// entry matches, else dot-segment normalization against the module's own
/// specifier when relative, else the specifier unchanged.
pub open spec fn spec_resolve_specifier(
    pairs: Seq<(String, String)>,
    own: Seq<char>,
    s: Seq<char>,
) -> Seq<char> {
    match spec_lookup_from(pairs, s, 0) {
        Some(v) => v,
        None => if spec_is_relative(s) {
            spec_normalize(own, s)
        } else {
            s
        },
    }
}

/// Per-compilation resolver state: the module's own specifier, the import
/// map, and the dependencies recorded so far.
#[derive(Debug)]
pub struct Resolver {
    pub specifier: String,
    pub import_map: ImportHashMap,
    pub bundle_mode: bool,
    pub deps: Vec<DependencyDescriptor>,
    pub star_exports: Vec<String>,
    pub specifier_is_remote: bool,
}

impl Resolver {
    /// Well-formedness: the remote flag reflects the own specifier, and every
    /// star-export specifier also appears as an export-star dependency.
    pub open spec fn wf(self) -> bool {
        &&& self.specifier_is_remote == spec_is_remote(self.specifier@)
        &&& forall|j: int|
            0 <= j < self.star_exports@.len() ==> spec_has_star_dep(
                self.deps@,
                #[trigger] self.star_exports@[j]@,
            )
    }

    /// Build a resolver for one compilation, with no dependencies recorded
    /// and the remote flag computed from the module's own specifier.
    pub fn new(specifier: &str, import_map: ImportHashMap, bundle_mode: bool) -> (r: Resolver)
        ensures
            r.wf(),
            r.specifier@ == specifier@,
            r.import_map == import_map,
            r.bundle_mode == bundle_mode,
            r.deps@.len() == 0,
            r.star_exports@.len() == 0,
            r.specifier_is_remote == spec_is_remote(specifier@),
    {
        let remote = is_remote(specifier);
        Resolver {
            specifier: String::from_str(specifier),
            import_map,
            bundle_mode,
            deps: Vec::new(),
            star_exports: Vec::new(),
            specifier_is_remote: remote,
        }
    }

    /// Classify and rewrite one specifier and record its dependency
    /// descriptor; an export-star occurrence is also added to the star-export
    /// set.  Resolution itself never fails: an unmatched specifier passes
    /// through unchanged.
    pub fn resolve(
        &mut self,
        specifier: &str,
        kind: DependencyKind,
        span_lo: usize,
        span_hi: usize,
    ) -> (r: String)
        requires
            old(self).wf(),
        ensures
            final(self).wf(),
            r@ == spec_resolve_specifier(
                old(self).import_map.imports@,
                old(self).specifier@,
                specifier@,
            ),
            final(self).deps@.len() == old(self).deps@.len() + 1,
            final(self).deps@.drop_last() == old(self).deps@,
            final(self).deps@.last().specifier@ == r@,
            final(self).deps@.last().kind == kind,
            final(self).deps@.last().span_lo == span_lo,
            final(self).deps@.last().span_hi == span_hi,
            kind == DependencyKind::ExportStar ==> final(self).star_exports@.len() == old(
                self,
            ).star_exports@.len() + 1 && final(self).star_exports@.drop_last() == old(
                self,
            ).star_exports@ && final(self).star_exports@.last()@ == r@,
            kind != DependencyKind::ExportStar ==> final(self).star_exports@ == old(
                self,
            ).star_exports@,
            final(self).specifier == old(self).specifier,
            final(self).import_map == old(self).import_map,
            final(self).bundle_mode == old(self).bundle_mode,
            final(self).specifier_is_remote == old(self).specifier_is_remote,
    {
        let resolved: String = match lookup(&self.import_map, specifier) {
            Some(v) => v,
            None => if is_relative(specifier) {
                resolve_relative(self.specifier.as_str(), specifier)
            } else {
                String::from_str(specifier)
            },
        };
        let desc = DependencyDescriptor {
            specifier: resolved.clone(),
            kind,
            span_lo,
            span_hi,
        };
        self.deps.push(desc);
        if kind == DependencyKind::ExportStar {
            self.star_exports.push(resolved.clone());
        }
        proof {
            assert(self.deps@.drop_last() =~= old(self).deps@);
            if kind == DependencyKind::ExportStar {
                assert(self.star_exports@.drop_last() =~= old(self).star_exports@);
            }
            assert forall|j: int| 0 <= j < self.star_exports@.len() implies spec_has_star_dep(
                self.deps@,
                #[trigger] self.star_exports@[j]@,
            ) by {
                if j < old(self).star_exports@.len() {
                    assert(spec_has_star_dep(old(self).deps@, old(self).star_exports@[j]@));
                    let k = choose|k: int|
                        0 <= k < old(self).deps@.len() && old(self).deps@[k].kind
                            == DependencyKind::ExportStar && old(self).deps@[k].specifier@ == old(
                            self,
                        ).star_exports@[j]@;
                    assert(self.deps@[k] == old(self).deps@[k]);
                } else {
                    let last = self.deps@.len() - 1;
                    assert(self.deps@[last].kind == DependencyKind::ExportStar);
                    assert(self.deps@[last].specifier@ == self.star_exports@[j]@);
                }
            }
        }
        resolved
    }
}

} // verus!
