//! Export-name extraction: a pure, read-only walk over a parsed module's
//! items producing the ordered sequence of exported binding names.
//!
//! Duplicates are allowed and order is declaration order.  Destructuring
//! patterns contribute each leaf binding identifier depth-first, left to
//! right; a bare wildcard re-export contributes a sentinel formed by wrapping
//! the source specifier in braces.  Extraction never fails on a
//! syntactically valid module.

use vstd::prelude::*;
use crate::text::views_of;

verus! {

/// A binding pattern, as far as export-name extraction reads it.
#[derive(Debug)]
pub enum Pat {
    /// A plain binding identifier.
    Ident(String),
    /// An object destructuring pattern: its member patterns in source order.
    Object(Vec<Pat>),
    /// An array destructuring pattern: its element patterns in source order.
    Array(Vec<Pat>),
    /// An elided array element.
    Hole,
    /// An object member `key: pattern`; the key itself binds nothing.
    KeyValue(String, Box<Pat>),
    /// A rest element `...pattern`.
    Rest(Box<Pat>),
    /// A pattern with a default value, `pattern = expr`.
    Assign(Box<Pat>),
}

/// An exportable declaration.
#[derive(Debug)]
pub enum Decl {
    /// `const`/`let`/`var`, one pattern per declarator.
    Var(Vec<Pat>),
    /// A function declaration and its name.
    Fn(String),
    /// A class declaration and its name.
    Class(String),
}

/// A top-level module item, as far as export-name extraction reads it.
#[derive(Debug)]
pub enum ModuleItem {
    /// `export` of a declaration.
    ExportDecl(Decl),
    /// A default export.
    ExportDefault,
    /// `export {a, b as c}` with or without a source: the exported (possibly
    /// aliased) names.
    ExportNamed(Vec<String>),
    /// `export * as Y from "X"`: the namespace alias and the source.
    ExportStarAs(String, String),
    /// `export * from "X"`: the source specifier.
    ExportStar(String),
    /// Any item that exports nothing.
    Plain,
}

/// The abstract syntax of a parsed module, as far as this crate reads it.
#[derive(Debug)]
pub struct ModuleAst {
    pub items: Vec<ModuleItem>,
}

/// The leaf binding names of a pattern, depth-first, left to right.
pub open spec fn spec_pat_names(p: Pat) -> Seq<Seq<char>>
    decreases p, 0nat,
{
    match p {
        Pat::Ident(s) => seq![s@],
        Pat::Object(props) => spec_pats_names(props@),
        Pat::Array(elems) => spec_pats_names(elems@),
        Pat::Hole => Seq::empty(),
        Pat::KeyValue(_k, inner) => spec_pat_names(*inner),
        Pat::Rest(inner) => spec_pat_names(*inner),
        Pat::Assign(inner) => spec_pat_names(*inner),
    }
}

/// The leaf binding names of a sequence of patterns, in order.
pub open spec fn spec_pats_names(ps: Seq<Pat>) -> Seq<Seq<char>>
    decreases ps, 1nat,
{
    if ps.len() == 0 {
        Seq::empty()
    } else {
        spec_pats_names(ps.drop_last()) + spec_pat_names(ps.last())
    }
}

/// The names a declaration contributes.
pub open spec fn spec_decl_names(d: Decl) -> Seq<Seq<char>> {
    match d {
        Decl::Var(pats) => spec_pats_names(pats@),
        Decl::Fn(name) => seq![name@],
        Decl::Class(name) => seq![name@],
    }
}

/// The specifier wrapped in braces: the sentinel for a bare wildcard
/// re-export, signaling that all of the source's exports propagate without a
/// declared local name.
pub open spec fn spec_braced(s: Seq<char>) -> Seq<char> {
    seq!['{'] + s + seq!['}']
}

/// The names one module item contributes.
pub open spec fn spec_item_names(it: ModuleItem) -> Seq<Seq<char>> {
    match it {
        ModuleItem::ExportDecl(d) => spec_decl_names(d),
        ModuleItem::ExportDefault => seq![seq!['d', 'e', 'f', 'a', 'u', 'l', 't']],
        ModuleItem::ExportNamed(names) => views_of(names@),
        ModuleItem::ExportStarAs(alias, _src) => seq![alias@],
        ModuleItem::ExportStar(src) => seq![spec_braced(src@)],
        ModuleItem::Plain => Seq::empty(),
    }
}

/// The exported names of a whole module, in declaration order.
pub open spec fn spec_module_export_names(items: Seq<ModuleItem>) -> Seq<Seq<char>>
    decreases items.len(),
{
    if items.len() == 0 {
        Seq::empty()
    } else {
        spec_module_export_names(items.drop_last()) + spec_item_names(items.last())
    }
}

/// Wrap a specifier in braces, forming the wildcard re-export sentinel.
pub fn star_sentinel(s: &str) -> (r: String)
    ensures
        r@ == spec_braced(s@),
{
    proof {
        reveal_strlit("{");
        reveal_strlit("}");
        assert("{"@ =~= seq!['{']);
        assert("}"@ =~= seq!['}']);
    }
    let mut out = String::from_str("{");
    out.append(s);
    out.append("}");
    proof {
        assert(out@ =~= spec_braced(s@));
    }
    out
}

/// Append the leaf binding names of one pattern, depth-first.
fn push_pat_names(p: &Pat, out: &mut Vec<String>)
    ensures
        views_of(final(out)@) == views_of(old(out)@) + spec_pat_names(*p),
    decreases *p,
{
    match p {
        Pat::Ident(s) => {
            let ghost prev = out@;
            out.push(s.clone());
            proof {
                assert(views_of(out@) =~~= views_of(prev) + spec_pat_names(*p));
            }
        },
        Pat::Object(props) => {
            push_all_pat_names(props, out);
        },
        Pat::Array(elems) => {
            push_all_pat_names(elems, out);
        },
        Pat::Hole => {
            proof {
                assert(views_of(out@) =~~= views_of(out@) + spec_pat_names(*p));
            }
        },
        Pat::KeyValue(_k, inner) => {
            push_pat_names(inner, out);
        },
        Pat::Rest(inner) => {
            push_pat_names(inner, out);
        },
        Pat::Assign(inner) => {
            push_pat_names(inner, out);
        },
    }
}

/// Append the leaf binding names of each pattern in order.
fn push_all_pat_names(ps: &Vec<Pat>, out: &mut Vec<String>)
    ensures
        views_of(final(out)@) == views_of(old(out)@) + spec_pats_names(ps@),
    decreases *ps,
{
    let mut i: usize = 0;
    proof {
        assert(views_of(out@) =~~= views_of(old(out)@) + spec_pats_names(ps@.take(0)));
    }
    while i < ps.len()
        invariant
            i <= ps@.len(),
            views_of(out@) == views_of(old(out)@) + spec_pats_names(ps@.take(i as int)),
        decreases ps@.len() - i,
    {
        push_pat_names(&ps[i], out);
        proof {
            assert(ps@.take(i + 1).drop_last() =~= ps@.take(i as int));
            assert(ps@.take(i + 1).last() == ps@[i as int]);
        }
        i += 1;
    }
    proof {
        assert(ps@.take(ps@.len() as int) =~= ps@);
    }
}

/// Append the names one declaration contributes.
fn push_decl_names(d: &Decl, out: &mut Vec<String>)
    ensures
        views_of(final(out)@) == views_of(old(out)@) + spec_decl_names(*d),
{
    match d {
        Decl::Var(pats) => {
            push_all_pat_names(pats, out);
        },
        Decl::Fn(name) => {
            let ghost prev = out@;
            out.push(name.clone());
            proof {
                assert(views_of(out@) =~~= views_of(prev) + spec_decl_names(*d));
            }
        },
        Decl::Class(name) => {
            let ghost prev = out@;
            out.push(name.clone());
            proof {
                assert(views_of(out@) =~~= views_of(prev) + spec_decl_names(*d));
            }
        },
    }
}

/// Append the names one module item contributes.
fn push_item_names(it: &ModuleItem, out: &mut Vec<String>)
    ensures
        views_of(final(out)@) == views_of(old(out)@) + spec_item_names(*it),
{
    match it {
        ModuleItem::ExportDecl(d) => {
            push_decl_names(d, out);
        },
        ModuleItem::ExportDefault => {
            let ghost prev = out@;
            out.push(String::from_str("default"));
            proof {
                reveal_strlit("default");
                assert("default"@ =~= seq!['d', 'e', 'f', 'a', 'u', 'l', 't']);
                assert(views_of(out@) =~~= views_of(prev) + spec_item_names(*it));
            }
        },
        ModuleItem::ExportNamed(names) => {
            let mut j: usize = 0;
            proof {
                assert(views_of(out@) =~~= views_of(old(out)@) + views_of(names@).take(0));
            }
            while j < names.len()
                invariant
                    j <= names@.len(),
                    views_of(out@) == views_of(old(out)@) + views_of(names@).take(j as int),
                decreases names@.len() - j,
            {
                let ghost prev = out@;
                out.push(names[j].clone());
                proof {
                    assert(views_of(out@) =~~= views_of(prev).push(names@[j as int]@));
                    assert(views_of(names@).take(j + 1) =~= views_of(names@).take(j as int).push(
                        names@[j as int]@,
                    ));
                    assert(views_of(out@) =~~= views_of(old(out)@) + views_of(names@).take(j + 1));
                }
                j += 1;
            }
            proof {
                assert(views_of(names@).take(names@.len() as int) =~= views_of(names@));
            }
        },
        ModuleItem::ExportStarAs(alias, _src) => {
            let ghost prev = out@;
            out.push(alias.clone());
            proof {
                assert(views_of(out@) =~~= views_of(prev) + spec_item_names(*it));
            }
        },
        ModuleItem::ExportStar(src) => {
            let ghost prev = out@;
            out.push(star_sentinel(src.as_str()));
            proof {
                assert(views_of(out@) =~~= views_of(prev) + spec_item_names(*it));
            }
        },
        ModuleItem::Plain => {
            proof {
                assert(views_of(out@) =~~= views_of(out@) + spec_item_names(*it));
            }
        },
    }
}

/// Extract the exported binding names of a parsed module, in declaration
/// order, duplicates allowed.
pub fn parse_export_names(m: &ModuleAst) -> (names: Vec<String>)
    ensures
        views_of(names@) == spec_module_export_names(m.items@),
{
    let mut out: Vec<String> = Vec::new();
    proof {
        assert(views_of(out@) =~~= Seq::<Seq<char>>::empty() + spec_module_export_names(
            m.items@.take(0),
        ));
        assert(views_of(out@) =~~= spec_module_export_names(m.items@.take(0)));
    }
    let mut i: usize = 0;
    while i < m.items.len()
        invariant
            i <= m.items@.len(),
            views_of(out@) == spec_module_export_names(m.items@.take(i as int)),
        decreases m.items@.len() - i,
    {
        push_item_names(&m.items[i], &mut out);
        proof {
            assert(m.items@.take(i + 1).drop_last() =~= m.items@.take(i as int));
            assert(m.items@.take(i + 1).last() == m.items@[i as int]);
        }
        i += 1;
    }
    proof {
        assert(m.items@.take(m.items@.len() as int) =~= m.items@);
    }
    out
}

/// Every name an item contributes appears among the whole module's export
/// names.
pub proof fn lemma_item_names_included(items: Seq<ModuleItem>, i: int, j: int)
    requires
        0 <= i < items.len(),
        0 <= j < spec_item_names(items[i]).len(),
    ensures
        spec_module_export_names(items).contains(spec_item_names(items[i])[j]),
    decreases items.len(),
{
    let whole = spec_module_export_names(items);
    let prefix = spec_module_export_names(items.drop_last());
    if i == items.len() - 1 {
        assert(whole == prefix + spec_item_names(items.last()));
        assert(whole[prefix.len() + j] == spec_item_names(items[i])[j]);
    } else {
        lemma_item_names_included(items.drop_last(), i, j);
        let k = choose|k: int|
            0 <= k < prefix.len() && prefix[k] == spec_item_names(items.drop_last()[i])[j];
        assert(whole[k] == spec_item_names(items[i])[j]);
    }
}

/// Law: a bare wildcard re-export `export * from "X"` contributes the braced
/// sentinel of its source to the module's export names, and a namespace
/// re-export `export * as Y from "X"` contributes its alias.
pub proof fn lemma_star_reexport_names(items: Seq<ModuleItem>, i: int)
    requires
        0 <= i < items.len(),
    ensures
        items[i] matches ModuleItem::ExportStar(src) ==> spec_module_export_names(
            items,
        ).contains(spec_braced(src@)),
        items[i] matches ModuleItem::ExportStarAs(alias, _src) ==> spec_module_export_names(
            items,
        ).contains(alias@),
{
    if items[i] is ExportStar || items[i] is ExportStarAs {
        lemma_item_names_included(items, i, 0);
    }
}

} // verus!
