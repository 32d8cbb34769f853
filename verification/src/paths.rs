//! Relative-specifier normalization: path join plus dot-segment resolution
//! against the importing module's own specifier.

use vstd::prelude::*;
use crate::text::{starts_with, str_eq, spec_starts_with, views_of};

verus! {

/// The segments of `s` between `'/'` separators, in order.  A string with no
/// separator is a single segment; every separator ends the current segment.
pub open spec fn spec_split(s: Seq<char>) -> Seq<Seq<char>>
    decreases s.len(),
{
    if s.len() == 0 {
        seq![Seq::<char>::empty()]
    } else if s.last() == '/' {
        spec_split(s.drop_last()).push(Seq::<char>::empty())
    } else {
        let r = spec_split(s.drop_last());
        r.update(r.len() - 1, r.last().push(s.last()))
    }
}

/// One dot-segment step: `"."` is dropped, `".."` pops the last kept segment,
/// any other segment is kept.
pub open spec fn spec_apply_segment(stack: Seq<Seq<char>>, seg: Seq<char>) -> Seq<Seq<char>> {
    if seg == seq!['.'] {
        stack
    } else if seg == seq!['.', '.'] {
        if stack.len() > 0 {
            stack.drop_last()
        } else {
            stack
        }
    } else {
        stack.push(seg)
    }
}

/// Fold dot-segment resolution over `segs`, left to right, starting from
/// `stack`.
pub open spec fn spec_fold_segments(stack: Seq<Seq<char>>, segs: Seq<Seq<char>>) -> Seq<Seq<char>>
    decreases segs.len(),
{
    if segs.len() == 0 {
        stack
    } else {
        spec_apply_segment(spec_fold_segments(stack, segs.drop_last()), segs.last())
    }
}

/// The segments joined by `'/'`.
pub open spec fn spec_join(segs: Seq<Seq<char>>) -> Seq<char>
    decreases segs.len(),
{
    if segs.len() == 0 {
        Seq::empty()
    } else if segs.len() == 1 {
        segs[0]
    } else {
        spec_join(segs.drop_last()) + seq!['/'] + segs.last()
    }
}

/// A specifier is relative when it begins with `"./"` or `"../"`.
pub open spec fn spec_is_relative(s: Seq<char>) -> bool {
    spec_starts_with(s, seq!['.', '/']) || spec_starts_with(s, seq!['.', '.', '/'])
}

/// Normalization of the relative specifier `rel` against the importing
/// module's own specifier `base`: `base`'s final segment is dropped, `rel`'s
/// segments are folded onto what remains, and the result is joined.
pub open spec fn spec_normalize(base: Seq<char>, rel: Seq<char>) -> Seq<char> {
    spec_join(spec_fold_segments(spec_split(base).drop_last(), spec_split(rel)))
}

/// Whether a specifier begins with a relative-path marker.
pub fn is_relative(s: &str) -> (b: bool)
    ensures
        b == spec_is_relative(s@),
{
    proof {
        reveal_strlit("./");
        reveal_strlit("../");
        assert("./"@ =~= seq!['.', '/']);
        assert("../"@ =~= seq!['.', '.', '/']);
    }
    starts_with(s, "./") || starts_with(s, "../")
}

/// Split a specifier into its `'/'`-separated segments.
pub fn split_segments(s: &str) -> (r: Vec<String>)
    ensures
        views_of(r@) == spec_split(s@),
        r@.len() >= 1,
{
    let slen: usize = s.unicode_len();
    let mut r: Vec<String> = Vec::new();
    r.push(String::new());
    proof {
        assert(views_of(r@) =~~= spec_split(s@.take(0)));
    }
    let mut i: usize = 0;
    while i < slen
        invariant
            slen == s@.len(),
            i <= slen,
            r@.len() >= 1,
            views_of(r@) == spec_split(s@.take(i as int)),
        decreases slen - i,
    {
        let ghost prev = r@;
        let c = s.get_char(i);
        if c == '/' {
            r.push(String::new());
            proof {
                assert(views_of(r@) =~~= views_of(prev).push(Seq::<char>::empty()));
            }
        } else {
            let li = r.len() - 1;
            let piece = s.substring_char(i, i + 1);
            let mut last_seg = r.remove(li);
            last_seg.append(piece);
            r.push(last_seg);
            proof {
                assert(piece@ =~= seq![s@[i as int]]);
                assert(views_of(r@) =~~= views_of(prev).update(
                    views_of(prev).len() - 1,
                    views_of(prev).last().push(s@[i as int]),
                ));
            }
        }
        proof {
            assert(s@.take(i + 1).drop_last() =~= s@.take(i as int));
            assert(s@.take(i + 1).last() == s@[i as int]);
        }
        i += 1;
    }
    proof {
        assert(s@.take(slen as int) =~= s@);
    }
    r
}

/// Apply one dot-segment step to the segment stack.
fn apply_segment(stack: &mut Vec<String>, seg: &String)
    ensures
        views_of(final(stack)@) == spec_apply_segment(views_of(old(stack)@), seg@),
{
    proof {
        reveal_strlit(".");
        reveal_strlit("..");
        assert("."@ =~= seq!['.']);
        assert(".."@ =~= seq!['.', '.']);
    }
    if str_eq(seg.as_str(), ".") {
    } else if str_eq(seg.as_str(), "..") {
        if stack.len() > 0 {
            let ghost prev = stack@;
            let _dropped = stack.pop();
            proof {
                assert(views_of(stack@) =~~= views_of(prev).drop_last());
            }
        }
    } else {
        let ghost prev = stack@;
        stack.push(seg.clone());
        proof {
            assert(views_of(stack@) =~~= views_of(prev).push(seg@));
        }
    }
}

/// Join the segment stack with `'/'`.
pub fn join_segments(segs: &Vec<String>) -> (r: String)
    ensures
        r@ == spec_join(views_of(segs@)),
{
    proof {
        reveal_strlit("/");
        assert("/"@ =~= seq!['/']);
    }
    if segs.len() == 0 {
        return String::new();
    }
    let mut r = segs[0].clone();
    let mut i: usize = 1;
    while i < segs.len()
        invariant
            1 <= i <= segs@.len(),
            r@ == spec_join(views_of(segs@).take(i as int)),
            "/"@ =~= seq!['/'],
        decreases segs@.len() - i,
    {
        r.append("/");
        r.append(segs[i].as_str());
        proof {
            let vs = views_of(segs@);
            assert(vs.take(i + 1).drop_last() =~= vs.take(i as int));
            assert(vs.take(i + 1).last() == vs[i as int]);
            assert(vs[i as int] == segs@[i as int]@);
        }
        i += 1;
    }
    proof {
        assert(views_of(segs@).take(segs@.len() as int) =~= views_of(segs@));
    }
    r
}

/// Normalize the relative specifier `rel` against the importing module's own
/// specifier `base`.
pub fn resolve_relative(base: &str, rel: &str) -> (r: String)
    ensures
        r@ == spec_normalize(base@, rel@),
{
    let mut stack = split_segments(base);
    let ghost whole = stack@;
    let _own_file = stack.pop();
    proof {
        assert(views_of(stack@) =~~= views_of(whole).drop_last());
    }
    let segs = split_segments(rel);
    let ghost base_stack = views_of(stack@);
    let mut i: usize = 0;
    while i < segs.len()
        invariant
            i <= segs@.len(),
            views_of(segs@) == spec_split(rel@),
            views_of(stack@) == spec_fold_segments(base_stack, views_of(segs@).take(i as int)),
        decreases segs@.len() - i,
    {
        apply_segment(&mut stack, &segs[i]);
        proof {
            let vs = views_of(segs@);
            assert(vs.take(i + 1).drop_last() =~= vs.take(i as int));
            assert(vs.take(i + 1).last() == vs[i as int]);
            assert(vs[i as int] == segs@[i as int]@);
        }
        i += 1;
    }
    proof {
        assert(views_of(segs@).take(segs@.len() as int) =~= views_of(segs@));
    }
    join_segments(&stack)
}

} // verus!
