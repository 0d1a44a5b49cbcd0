//! Paths as text: components between slashes, nesting of one path under
//! another, and moving a path from under one root to under another.
//!
//! A path is taken as it is written. Its components are its runs of
//! characters other than the slash, so `.` and `..` are components like any
//! other and are not resolved. Putting a text below a path appends it, also
//! where the text starts with a slash: it never takes the path's place.

use vstd::prelude::*;
use crate::text::{
    chars_of, fields, fields_of, lemma_pieces_len, nonempty, pieces, same, views, Separator,
};

verus! {

/// The character between the components of a path.
pub open spec fn slash() -> Separator {
    Separator::Char('/')
}

/// The components of a path: its runs of characters other than the slash.
pub open spec fn components(p: Seq<char>) -> Seq<Seq<char>> {
    fields(p, slash())
}

/// Whether the path starts at the root of the file system.
pub open spec fn is_rooted(p: Seq<char>) -> bool {
    p.len() > 0 && p[0] == '/'
}

/// Whether `c` can be one component of a path: it is not empty and holds no
/// slash.
pub open spec fn is_component(c: Seq<char>) -> bool {
    c.len() > 0 && forall|i: int| 0 <= i < c.len() ==> c[i] != '/'
}

/// Whether every part can be a component of a path.
pub open spec fn all_components(parts: Seq<Seq<char>>) -> bool {
    forall|i: int| 0 <= i < parts.len() ==> is_component(#[trigger] parts[i])
}

/// Whether `p` lies under `root`: both start at the root of the file system
/// or neither does, and the components of `root` are the first of `p`.
pub open spec fn nested_under(p: Seq<char>, root: Seq<char>) -> bool {
    is_rooted(p) == is_rooted(root) && components(root).is_prefix_of(components(p))
}

/// The components of `p` that follow those of `root`.
pub open spec fn relative_to(p: Seq<char>, root: Seq<char>) -> Seq<Seq<char>> {
    components(p).skip(components(root).len() as int)
}

/// `base` with the component `c` below it. A slash is written between the
/// two unless `base` is empty or already ends with one.
pub open spec fn with_component(base: Seq<char>, c: Seq<char>) -> Seq<char> {
    if base.len() == 0 || base.last() == '/' {
        base + c
    } else {
        base.push('/') + c
    }
}

/// `base` with the components `rel` below it, one under the other.
pub open spec fn extended(base: Seq<char>, rel: Seq<Seq<char>>) -> Seq<char>
    decreases rel.len(),
{
    if rel.len() == 0 {
        base
    } else {
        with_component(extended(base, rel.drop_last()), rel.last())
    }
}

/// The path that lies under `new_root` as `p` lies under `root`.
pub open spec fn rebased(p: Seq<char>, root: Seq<char>, new_root: Seq<char>) -> Seq<char> {
    extended(new_root, relative_to(p, root))
}

// ---------------------------------------------------------------------------
// Facts about pieces and components
// ---------------------------------------------------------------------------

/// Whether no character of `s` separates.
pub open spec fn unbroken(s: Seq<char>, sep: Separator) -> bool {
    forall|i: int| 0 <= i < s.len() ==> !sep.separates(#[trigger] s[i])
}

/// Appending a run without separators lengthens the last piece.
pub proof fn lemma_pieces_append(a: Seq<char>, b: Seq<char>, sep: Separator)
    requires
        unbroken(b, sep),
    ensures
        pieces(a + b, sep) == pieces(a, sep).drop_last().push(pieces(a, sep).last() + b),
    decreases b.len(),
{
    lemma_pieces_len(a, sep);
    if b.len() == 0 {
        assert(a + b == a);
        assert(pieces(a, sep).last() + b == pieces(a, sep).last());
        assert(pieces(a, sep).drop_last().push(pieces(a, sep).last()) == pieces(a, sep));
    } else {
        let b0 = b.drop_last();
        assert((a + b).drop_last() == a + b0);
        assert((a + b).last() == b.last());
        assert(!sep.separates(b[b.len() - 1]));
        assert forall|i: int| 0 <= i < b0.len() implies !sep.separates(#[trigger] b0[i]) by {
            assert(b0[i] == b[i]);
        }
        lemma_pieces_append(a, b0, sep);
        let pa = pieces(a, sep);
        let before = pa.drop_last().push(pa.last() + b0);
        assert(before.drop_last() == pa.drop_last());
        assert(before.last().push(b.last()) == pa.last() + b);
    }
}

/// Every piece is free of separators.
pub proof fn lemma_pieces_unbroken(s: Seq<char>, sep: Separator)
    ensures
        forall|i: int| 0 <= i < pieces(s, sep).len() ==> unbroken(#[trigger] pieces(s, sep)[i], sep),
    decreases s.len(),
{
    if s.len() > 0 {
        lemma_pieces_unbroken(s.drop_last(), sep);
        lemma_pieces_len(s.drop_last(), sep);
        let before = pieces(s.drop_last(), sep);
        let now = pieces(s, sep);
        assert forall|i: int| 0 <= i < now.len() implies unbroken(#[trigger] now[i], sep) by {
            if sep.separates(s.last()) {
                if i < before.len() {
                    assert(now[i] == before[i]);
                }
            } else {
                if i < before.len() - 1 {
                    assert(now[i] == before[i]);
                } else {
                    assert(unbroken(before[before.len() - 1], sep));
                    assert(now[i] == before.last().push(s.last()));
                }
            }
        }
    }
}

/// The parts that `nonempty` keeps are parts of the input, and not empty.
pub proof fn lemma_nonempty_kept(parts: Seq<Seq<char>>, sep: Separator)
    requires
        forall|i: int| 0 <= i < parts.len() ==> unbroken(#[trigger] parts[i], sep),
    ensures
        forall|i: int|
            0 <= i < nonempty(parts).len() ==> (#[trigger] nonempty(parts)[i]).len() > 0
                && unbroken(nonempty(parts)[i], sep),
    decreases parts.len(),
{
    if parts.len() > 0 {
        let head = parts.drop_last();
        assert forall|i: int| 0 <= i < head.len() implies unbroken(#[trigger] head[i], sep) by {
            assert(head[i] == parts[i]);
        }
        lemma_nonempty_kept(head, sep);
        assert(unbroken(parts[parts.len() - 1], sep));
        let kept = nonempty(parts);
        assert forall|i: int| 0 <= i < kept.len() implies (#[trigger] kept[i]).len() > 0
            && unbroken(kept[i], sep) by {
            if parts.last().len() == 0 {
                assert(kept == nonempty(head));
            } else {
                assert(kept == nonempty(head).push(parts.last()));
                if i < nonempty(head).len() {
                    assert(kept[i] == nonempty(head)[i]);
                }
            }
        }
    }
}

/// Every component of a path is a component: not empty, without a slash.
pub proof fn lemma_components_are_components(p: Seq<char>)
    ensures
        all_components(components(p)),
{
    lemma_pieces_unbroken(p, slash());
    lemma_nonempty_kept(pieces(p, slash()), slash());
    let cs = components(p);
    assert forall|i: int| 0 <= i < cs.len() implies is_component(#[trigger] cs[i]) by {
        assert(unbroken(cs[i], slash()));
        assert forall|j: int| 0 <= j < cs[i].len() implies cs[i][j] != '/' by {
            assert(!slash().separates(cs[i][j]));
        }
    }
}

/// A component put below a path is the last component of the result.
pub proof fn lemma_with_component(base: Seq<char>, c: Seq<char>)
    requires
        is_component(c),
    ensures
        components(with_component(base, c)) == components(base).push(c),
        is_rooted(with_component(base, c)) == is_rooted(base),
        with_component(base, c).len() > 0,
{
    let sep = slash();
    assert forall|i: int| 0 <= i < c.len() implies !sep.separates(#[trigger] c[i]) by {}
    assert(c[0] != '/');
    if base.len() == 0 {
        assert(base + c == c);
        lemma_pieces_append(base, c, sep);
        assert(pieces(base, sep) == seq![Seq::<char>::empty()]);
        assert(Seq::<char>::empty() + c == c);
        let r = pieces(base, sep).drop_last().push(c);
        assert(r.drop_last() == Seq::<Seq<char>>::empty());
        assert(nonempty(r) == nonempty(r.drop_last()).push(c));
        assert(nonempty(pieces(base, sep)) == Seq::<Seq<char>>::empty()) by {
            assert(pieces(base, sep).drop_last() == Seq::<Seq<char>>::empty());
        }
    } else if base.last() == '/' {
        let b = base.drop_last();
        assert(base == b.push('/'));
        lemma_pieces_len(b, sep);
        let pb = pieces(b, sep);
        assert(base.drop_last() == b);
        assert(pieces(base, sep) == pb.push(Seq::empty()));
        lemma_pieces_append(base, c, sep);
        assert(pieces(base, sep).drop_last() == pb);
        assert(Seq::<char>::empty() + c == c);
        let r = pb.push(c);
        assert(pieces(base + c, sep) == r);
        assert(r.drop_last() == pb);
        assert(pb.push(Seq::<char>::empty()).drop_last() == pb);
        assert((base + c)[0] == base[0]);
    } else {
        let bs = base.push('/');
        lemma_pieces_len(base, sep);
        let pb = pieces(base, sep);
        assert(bs.drop_last() == base);
        assert(pieces(bs, sep) == pb.push(Seq::empty()));
        lemma_pieces_append(bs, c, sep);
        assert(pieces(bs, sep).drop_last() == pb);
        assert(Seq::<char>::empty() + c == c);
        let r = pb.push(c);
        assert(pieces(bs + c, sep) == r);
        assert(r.drop_last() == pb);
        assert((bs + c)[0] == base[0]);
    }
}

/// The parts that are not empty of two lists, one after the other, are
/// those of the first followed by those of the second.
pub proof fn lemma_nonempty_add(a: Seq<Seq<char>>, b: Seq<Seq<char>>)
    ensures
        nonempty(a + b) == nonempty(a) + nonempty(b),
    decreases b.len(),
{
    if b.len() == 0 {
        assert(a + b == a);
        assert(nonempty(a) + nonempty(b) == nonempty(a));
    } else {
        let b0 = b.drop_last();
        lemma_nonempty_add(a, b0);
        assert((a + b).drop_last() == a + b0);
        assert((a + b).last() == b.last());
        if b.last().len() > 0 {
            assert((nonempty(a) + nonempty(b0)).push(b.last()) == nonempty(a) + nonempty(b0).push(
                b.last(),
            ));
        }
    }
}

/// After a text that ends with a separator, the pieces of what follows
/// come after the pieces of the text, whose last is empty.
pub proof fn lemma_pieces_after_separator(q: Seq<char>, c: Seq<char>, sep: Separator)
    requires
        q.len() > 0,
        sep.separates(q.last()),
    ensures
        pieces(q, sep).last().len() == 0,
        pieces(q + c, sep) == pieces(q, sep).drop_last() + pieces(c, sep),
    decreases c.len(),
{
    lemma_pieces_len(q.drop_last(), sep);
    let d = pieces(q.drop_last(), sep);
    assert(pieces(q, sep) == d.push(Seq::empty()));
    assert(pieces(q, sep).drop_last() == d);
    if c.len() == 0 {
        assert(q + c == q);
        assert(pieces(c, sep) == seq![Seq::<char>::empty()]);
        assert(d + seq![Seq::<char>::empty()] == d.push(Seq::empty()));
    } else {
        let c0 = c.drop_last();
        lemma_pieces_after_separator(q, c0, sep);
        lemma_pieces_len(c0, sep);
        assert((q + c).drop_last() == q + c0);
        assert((q + c).last() == c.last());
        let pc0 = pieces(c0, sep);
        if sep.separates(c.last()) {
            assert((d + pc0).push(Seq::empty()) == d + pc0.push(Seq::empty()));
        } else {
            assert((d + pc0).last() == pc0.last());
            assert((d + pc0).drop_last() == d + pc0.drop_last());
            assert((d + pc0.drop_last()).push(pc0.last().push(c.last())) == d
                + pc0.drop_last().push(pc0.last().push(c.last())));
        }
    }
}

/// Whatever is put below a path that is not empty, the result has the
/// path's components first, then those of what was put below, and starts
/// at the root of the file system exactly if the path does.
pub proof fn lemma_below(base: Seq<char>, c: Seq<char>)
    requires
        base.len() > 0,
    ensures
        components(with_component(base, c)) == components(base) + components(c),
        is_rooted(with_component(base, c)) == is_rooted(base),
        with_component(base, c).len() > 0,
        nested_under(with_component(base, c), base),
{
    let sep = slash();
    let q = if base.last() == '/' {
        base
    } else {
        base.push('/')
    };
    assert(with_component(base, c) == q + c);
    assert(sep.separates(q.last()));
    lemma_pieces_after_separator(q, c, sep);
    lemma_pieces_len(q, sep);
    let pq = pieces(q, sep);
    lemma_nonempty_add(pq.drop_last(), pieces(c, sep));
    assert(nonempty(pq) == nonempty(pq.drop_last()));
    assert(components(q) == components(base)) by {
        if base.last() != '/' {
            assert(q.drop_last() == base);
            lemma_pieces_len(base, sep);
            assert(pq == pieces(base, sep).push(Seq::empty()));
            assert(pq.drop_last() == pieces(base, sep));
        }
    }
    assert((q + c)[0] == base[0]);
    let all = components(base) + components(c);
    assert(all.subrange(0, components(base).len() as int) == components(base));
}

/// Components put below a path follow the path's own components.
pub proof fn lemma_extended(base: Seq<char>, rel: Seq<Seq<char>>)
    requires
        all_components(rel),
    ensures
        components(extended(base, rel)) == components(base) + rel,
        is_rooted(extended(base, rel)) == is_rooted(base),
    decreases rel.len(),
{
    if rel.len() == 0 {
        assert(components(base) + rel == components(base));
    } else {
        let head = rel.drop_last();
        assert forall|i: int| 0 <= i < head.len() implies is_component(#[trigger] head[i]) by {
            assert(head[i] == rel[i]);
        }
        lemma_extended(base, head);
        assert(is_component(rel[rel.len() - 1]));
        lemma_with_component(extended(base, head), rel.last());
        assert((components(base) + head).push(rel.last()) == components(base) + rel);
    }
}

/// A path moved under a new root lies under that root, and lies there as it
/// lay under the old one.
pub proof fn lemma_rebased_nested(p: Seq<char>, root: Seq<char>, new_root: Seq<char>)
    requires
        nested_under(p, root),
    ensures
        nested_under(rebased(p, root, new_root), new_root),
        relative_to(rebased(p, root, new_root), new_root) == relative_to(p, root),
{
    let rel = relative_to(p, root);
    lemma_components_are_components(p);
    assert forall|i: int| 0 <= i < rel.len() implies is_component(#[trigger] rel[i]) by {
        assert(rel[i] == components(p)[i + components(root).len()]);
    }
    lemma_extended(new_root, rel);
    let moved = components(new_root) + rel;
    assert(components(new_root).is_prefix_of(moved));
    assert(moved.skip(components(new_root).len() as int) == rel);
}

/// Moving a path under a first root and from there under a second gives the
/// same path as moving it under the second at once.
pub proof fn lemma_rebased_twice(p: Seq<char>, root: Seq<char>, r1: Seq<char>, r2: Seq<char>)
    requires
        nested_under(p, root),
    ensures
        rebased(rebased(p, root, r1), r1, r2) == rebased(p, root, r2),
{
    lemma_rebased_nested(p, root, r1);
}

// ---------------------------------------------------------------------------
// Executable functions
// ---------------------------------------------------------------------------

/// The components of a path.
pub fn components_of(p: &str) -> (r: Vec<String>)
    ensures
        views(r@) == components(p@),
{
    fields_of(p, Separator::Char('/'))
}

/// Whether the path starts at the root of the file system.
pub fn starts_at_root(p: &str) -> (r: bool)
    ensures
        r == is_rooted(p@),
{
    let cs = chars_of(p);
    cs.len() > 0 && cs[0] == '/'
}

/// `base` with the component `c` below it.
pub fn join(base: &str, c: &str) -> (r: String)
    ensures
        r@ == with_component(base@, c@),
{
    let bs = chars_of(base);
    let mut r = base.to_owned();
    if bs.len() > 0 && bs[bs.len() - 1] != '/' {
        r.push('/');
    }
    r.append(c);
    r
}

/// The components of `p` that follow those of `root`, where `p` lies under
/// `root`.
pub fn strip_prefix(p: &str, root: &str) -> (r: Option<Vec<String>>)
    ensures
        nested_under(p@, root@) <==> r is Some,
        r matches Some(rel) ==> views(rel@) == relative_to(p@, root@),
{
    if starts_at_root(p) != starts_at_root(root) {
        return None;
    }
    let pc = components_of(p);
    let rc = components_of(root);
    assert(views(pc@).len() == pc@.len());
    assert(views(rc@).len() == rc@.len());
    if rc.len() > pc.len() {
        return None;
    }
    let mut i: usize = 0;
    while i < rc.len()
        invariant
            i <= rc.len() <= pc.len(),
            views(pc@) == components(p@),
            views(rc@) == components(root@),
            forall|j: int| 0 <= j < i ==> pc@[j]@ == rc@[j]@,
        decreases rc.len() - i,
    {
        if !same(pc[i].as_str(), rc[i].as_str()) {
            assert(views(pc@)[i as int] == pc@[i as int]@);
            assert(views(rc@)[i as int] == rc@[i as int]@);
            assert(views(pc@).subrange(0, views(rc@).len() as int)[i as int] == views(
                pc@,
            )[i as int]);
            return None;
        }
        i += 1;
    }
    assert(views(rc@).is_prefix_of(views(pc@))) by {
        assert forall|j: int| 0 <= j < views(rc@).len() implies views(rc@)[j] == views(pc@)[j] by {
            assert(pc@[j]@ == rc@[j]@);
        }
        assert(views(pc@).subrange(0, views(rc@).len() as int) =~= views(rc@));
    }
    let mut rel: Vec<String> = Vec::new();
    let mut k: usize = rc.len();
    while k < pc.len()
        invariant
            rc.len() <= k <= pc.len(),
            views(rel@) == views(pc@).subrange(rc.len() as int, k as int),
        decreases pc.len() - k,
    {
        let ghost prev = rel@;
        rel.push(pc[k].clone());
        assert(views(rel@) == views(prev).push(rel@.last()@));
        k += 1;
    }
    assert(views(pc@).subrange(rc.len() as int, pc.len() as int) == views(pc@).skip(
        rc.len() as int,
    ));
    Some(rel)
}

/// `base` with the components `rel` below it.
pub fn extend(base: &str, rel: &Vec<String>) -> (r: String)
    ensures
        r@ == extended(base@, views(rel@)),
{
    let mut r = base.to_owned();
    let mut i: usize = 0;
    while i < rel.len()
        invariant
            i <= rel.len(),
            r@ == extended(base@, views(rel@).take(i as int)),
        decreases rel.len() - i,
    {
        proof {
            assert(views(rel@).take(i + 1).drop_last() == views(rel@).take(i as int));
            assert(views(rel@).take(i + 1).last() == rel@[i as int]@);
        }
        r = join(r.as_str(), rel[i].as_str());
        i += 1;
    }
    assert(views(rel@).take(rel.len() as int) == views(rel@));
    r
}

/// The path that lies under `new_root` as `p` lies under `root`, where `p`
/// lies under `root`.
pub fn rebase(p: &str, root: &str, new_root: &str) -> (r: Option<String>)
    ensures
        nested_under(p@, root@) <==> r is Some,
        r matches Some(q) ==> q@ == rebased(p@, root@, new_root@),
{
    match strip_prefix(p, root) {
        Some(rel) => Some(extend(new_root, &rel)),
        None => None,
    }
}

} // verus!
