//! Text as sequences of characters.
//!
//! Every contract in the library that speaks of a string speaks of its view,
//! a `Seq<char>`. This module holds the vocabulary those contracts share
//! (pieces, words, lines, decimal numerals) and the executable functions that
//! compute them.

use vstd::prelude::*;
use vstd::std_specs::iter::IteratorSpec;

verus! {

/// `String::push` appends one character to the string.
pub assume_specification[ String::push ](s: &mut String, c: char)
    ensures
        final(s)@ == old(s)@.push(c),
;

/// The views of a sequence of strings.
pub open spec fn views(v: Seq<String>) -> Seq<Seq<char>> {
    Seq::new(v.len(), |i: int| v[i]@)
}

/// The characters of `s`, in order.
pub fn chars_of(s: &str) -> (v: Vec<char>)
    ensures
        v@ == s@,
{
    broadcast use vstd::string::group_string_axioms;

    let mut it = s.chars();
    let mut v: Vec<char> = Vec::new();
    loop
        invariant
            it.obeys_prophetic_iter_laws(),
            it.decrease() is Some,
            v@ + it.remaining() == s@,
        ensures
            v@ == s@,
        decreases it.decrease()->0,
    {
        match it.next() {
            Some(c) => {
                v.push(c);
            },
            None => {
                break ;
            },
        }
    }
    v
}

/// The string made of the characters `v[from..to]`.
pub fn string_of_range(v: &Vec<char>, from: usize, to: usize) -> (s: String)
    requires
        from <= to <= v.len(),
    ensures
        s@ == v@.subrange(from as int, to as int),
{
    let mut s = String::new();
    let mut i: usize = from;
    while i < to
        invariant
            from <= i <= to <= v.len(),
            s@ == v@.subrange(from as int, i as int),
        decreases to - i,
    {
        s.push(v[i]);
        i += 1;
    }
    s
}

/// The string made of the characters of `v`, in order.
pub fn string_of(v: &Vec<char>) -> (s: String)
    ensures
        s@ == v@,
{
    let s = string_of_range(v, 0, v.len());
    assert(v@.subrange(0, v.len() as int) == v@);
    s
}

/// `a` followed by `b`.
pub fn concat(a: &str, b: &str) -> (s: String)
    ensures
        s@ == a@ + b@,
{
    let mut s = a.to_owned();
    s.append(b);
    s
}

// ---------------------------------------------------------------------------
// Prefixes, suffixes, occurrences
// ---------------------------------------------------------------------------

/// `needle` stands in `hay` at position `i`.
pub open spec fn occurs_at(hay: Seq<char>, needle: Seq<char>, i: int) -> bool {
    &&& 0 <= i
    &&& i + needle.len() <= hay.len()
    &&& hay.subrange(i, i + needle.len()) == needle
}

/// `needle` stands somewhere in `hay`.
pub open spec fn occurs_in(hay: Seq<char>, needle: Seq<char>) -> bool {
    exists|i: int| occurs_at(hay, needle, i)
}

/// `s` begins with `prefix`.
pub open spec fn begins_with(s: Seq<char>, prefix: Seq<char>) -> bool {
    occurs_at(s, prefix, 0)
}

/// `s` ends with `suffix`.
pub open spec fn finishes_with(s: Seq<char>, suffix: Seq<char>) -> bool {
    occurs_at(s, suffix, s.len() - suffix.len())
}

/// Whether `needle` stands in `hay` at position `i`.
pub fn matches_at(hay: &Vec<char>, needle: &Vec<char>, i: usize) -> (r: bool)
    ensures
        r == occurs_at(hay@, needle@, i as int),
{
    if needle.len() > hay.len() || i > hay.len() - needle.len() {
        return false;
    }
    let mut k: usize = 0;
    while k < needle.len()
        invariant
            k <= needle.len(),
            i + needle.len() <= hay.len(),
            forall|j: int| 0 <= j < k ==> hay@[i + j] == needle@[j],
        decreases needle.len() - k,
    {
        if hay[i + k] != needle[k] {
            assert(hay@.subrange(i as int, i + needle.len())[k as int] == hay@[i + k]);
            return false;
        }
        k += 1;
    }
    assert(hay@.subrange(i as int, i + needle.len()) =~= needle@);
    true
}

/// Whether `a` and `b` are the same text.
pub fn same(a: &str, b: &str) -> (r: bool)
    ensures
        r == (a@ == b@),
{
    let av = chars_of(a);
    let bv = chars_of(b);
    if av.len() != bv.len() {
        return false;
    }
    let r = matches_at(&av, &bv, 0);
    assert(av@.subrange(0, bv.len() as int) == av@);
    r
}

/// Whether `s` begins with `prefix`.
pub fn starts_with(s: &str, prefix: &str) -> (r: bool)
    ensures
        r == begins_with(s@, prefix@),
{
    let sv = chars_of(s);
    let pv = chars_of(prefix);
    matches_at(&sv, &pv, 0)
}

/// Whether `s` ends with `suffix`.
pub fn ends_with(s: &str, suffix: &str) -> (r: bool)
    ensures
        r == finishes_with(s@, suffix@),
{
    let sv = chars_of(s);
    let xv = chars_of(suffix);
    if xv.len() > sv.len() {
        return false;
    }
    matches_at(&sv, &xv, sv.len() - xv.len())
}

/// Whether `needle` stands somewhere in `hay`.
pub fn contains(hay: &str, needle: &str) -> (r: bool)
    ensures
        r == occurs_in(hay@, needle@),
{
    let hv = chars_of(hay);
    let nv = chars_of(needle);
    if nv.len() > hv.len() {
        return false;
    }
    let last: usize = hv.len() - nv.len();
    let mut i: usize = 0;
    while i < last
        invariant
            i <= last,
            last == hv.len() - nv.len(),
            hv@ == hay@,
            nv@ == needle@,
            forall|j: int| 0 <= j < i ==> !occurs_at(hv@, nv@, j),
        decreases last - i,
    {
        if matches_at(&hv, &nv, i) {
            return true;
        }
        i += 1;
    }
    matches_at(&hv, &nv, last)
}

// ---------------------------------------------------------------------------
// Joining
// ---------------------------------------------------------------------------

/// The parts written one after another with `sep` between neighbours.
pub open spec fn joined(parts: Seq<Seq<char>>, sep: Seq<char>) -> Seq<char>
    decreases parts.len(),
{
    if parts.len() == 0 {
        Seq::empty()
    } else if parts.len() == 1 {
        parts[0]
    } else {
        joined(parts.drop_last(), sep) + sep + parts.last()
    }
}

/// The parts written one after another with `sep` between neighbours.
pub fn join(parts: &Vec<String>, sep: &str) -> (s: String)
    ensures
        s@ == joined(views(parts@), sep@),
{
    let mut s = String::new();
    let mut i: usize = 0;
    while i < parts.len()
        invariant
            i <= parts.len(),
            s@ == joined(views(parts@).take(i as int), sep@),
        decreases parts.len() - i,
    {
        proof {
            assert(views(parts@).take(i + 1).drop_last() == views(parts@).take(i as int));
        }
        if i > 0 {
            s.append(sep);
        }
        s.append(parts[i].as_str());
        i += 1;
    }
    assert(views(parts@).take(parts.len() as int) == views(parts@));
    s
}

// ---------------------------------------------------------------------------
// Splitting
// ---------------------------------------------------------------------------

/// What separates the pieces of a text.
#[derive(Clone, Copy, Debug, PartialEq, Eq, Structural)]
pub enum Separator {
    /// One given character.
    Char(char),
    /// Any white-space character.
    Whitespace,
}

/// The characters with the Unicode property `White_Space`.
pub open spec fn is_whitespace(c: char) -> bool {
    let n = c as u32;
    ||| 0x09 <= n <= 0x0d
    ||| n == 0x20
    ||| n == 0x85
    ||| n == 0xa0
    ||| n == 0x1680
    ||| 0x2000 <= n <= 0x200a
    ||| n == 0x2028
    ||| n == 0x2029
    ||| n == 0x202f
    ||| n == 0x205f
    ||| n == 0x3000
}

impl Separator {
    /// Whether `c` is a separating character.
    pub open spec fn separates(self, c: char) -> bool {
        match self {
            Separator::Char(sep) => c == sep,
            Separator::Whitespace => is_whitespace(c),
        }
    }

    /// Whether `c` is a separating character.
    pub fn is_separator(&self, c: char) -> (r: bool)
        ensures
            r == self.separates(c),
    {
        match self {
            Separator::Char(sep) => c == *sep,
            Separator::Whitespace => {
                let n: u32 = c as u32;
                (0x09 <= n && n <= 0x0d) || n == 0x20 || n == 0x85 || n == 0xa0 || n == 0x1680
                    || (0x2000 <= n && n <= 0x200a) || n == 0x2028 || n == 0x2029 || n == 0x202f
                    || n == 0x205f || n == 0x3000
            },
        }
    }
}

/// The pieces that the separating characters cut `s` into. There is one more
/// piece than there are separating characters, and a piece may be empty.
pub open spec fn pieces(s: Seq<char>, sep: Separator) -> Seq<Seq<char>>
    decreases s.len(),
{
    if s.len() == 0 {
        seq![Seq::empty()]
    } else {
        let before = pieces(s.drop_last(), sep);
        if sep.separates(s.last()) {
            before.push(Seq::empty())
        } else {
            before.drop_last().push(before.last().push(s.last()))
        }
    }
}

/// The parts that are not empty, in order.
pub open spec fn nonempty(parts: Seq<Seq<char>>) -> Seq<Seq<char>>
    decreases parts.len(),
{
    if parts.len() == 0 {
        Seq::empty()
    } else if parts.last().len() == 0 {
        nonempty(parts.drop_last())
    } else {
        nonempty(parts.drop_last()).push(parts.last())
    }
}

/// The maximal runs of characters of `s` that hold no separating character.
pub open spec fn fields(s: Seq<char>, sep: Separator) -> Seq<Seq<char>> {
    nonempty(pieces(s, sep))
}

/// The words of `s`: its maximal runs of characters that are not white space.
pub open spec fn words(s: Seq<char>) -> Seq<Seq<char>> {
    fields(s, Separator::Whitespace)
}

/// There is always at least one piece.
pub proof fn lemma_pieces_len(s: Seq<char>, sep: Separator)
    ensures
        pieces(s, sep).len() >= 1,
    decreases s.len(),
{
    if s.len() > 0 {
        lemma_pieces_len(s.drop_last(), sep);
    }
}

/// Joining the pieces that a character cuts a text into, with that
/// character between them, gives the text back.
pub proof fn lemma_joined_pieces(s: Seq<char>, sep: char)
    ensures
        joined(pieces(s, Separator::Char(sep)), seq![sep]) == s,
    decreases s.len(),
{
    let by = Separator::Char(sep);
    if s.len() > 0 {
        let before = pieces(s.drop_last(), by);
        lemma_pieces_len(s.drop_last(), by);
        lemma_joined_pieces(s.drop_last(), sep);
        let now = pieces(s, by);
        if s.last() == sep {
            assert(now.drop_last() == before);
            assert(joined(now, seq![sep]) == s.drop_last() + seq![sep] + Seq::<char>::empty());
            assert(s.drop_last() + seq![sep] + Seq::<char>::empty() == s);
        } else {
            assert(now.last() == before.last().push(s.last()));
            assert(now.drop_last() == before.drop_last());
            if before.len() == 1 {
                assert(joined(before, seq![sep]) == before[0]);
                assert(now[0] == s.drop_last().push(s.last()));
            } else {
                assert(joined(now, seq![sep]) == joined(before.drop_last(), seq![sep]) + seq![sep]
                    + before.last().push(s.last()));
                assert(joined(before.drop_last(), seq![sep]) + seq![sep] + before.last().push(
                    s.last(),
                ) == (joined(before.drop_last(), seq![sep]) + seq![sep] + before.last()).push(
                    s.last(),
                ));
            }
            assert(s.drop_last().push(s.last()) == s);
        }
    }
}

/// The pieces that the separating characters cut `s` into.
pub fn split_by(s: &str, sep: Separator) -> (r: Vec<String>)
    ensures
        views(r@) == pieces(s@, sep),
{
    let cs = chars_of(s);
    let mut done: Vec<String> = Vec::new();
    let mut cur = String::new();
    let mut i: usize = 0;
    while i < cs.len()
        invariant
            i <= cs.len(),
            views(done@).push(cur@) == pieces(cs@.take(i as int), sep),
        decreases cs.len() - i,
    {
        let c = cs[i];
        proof {
            assert(cs@.take(i + 1).drop_last() == cs@.take(i as int));
            assert(cs@.take(i + 1).last() == c);
            let before = pieces(cs@.take(i as int), sep);
            assert(before.drop_last() == views(done@));
            assert(before.last() == cur@);
        }
        if sep.is_separator(c) {
            let ghost prev = done@;
            done.push(cur);
            cur = String::new();
            assert(views(done@) == views(prev).push(done@.last()@));
        } else {
            cur.push(c);
        }
        i += 1;
    }
    assert(cs@.take(cs.len() as int) == cs@);
    let ghost prev = done@;
    done.push(cur);
    assert(views(done@) == views(prev).push(done@.last()@));
    done
}

/// The pieces of `s` between occurrences of the character `sep`.
pub fn split(s: &str, sep: char) -> (r: Vec<String>)
    ensures
        views(r@) == pieces(s@, Separator::Char(sep)),
{
    split_by(s, Separator::Char(sep))
}

/// The maximal runs of characters of `s` that hold no separating character.
pub fn fields_of(s: &str, sep: Separator) -> (r: Vec<String>)
    ensures
        views(r@) == fields(s@, sep),
{
    let all = split_by(s, sep);
    let mut kept: Vec<String> = Vec::new();
    let mut i: usize = 0;
    while i < all.len()
        invariant
            i <= all.len(),
            views(kept@) == nonempty(views(all@).take(i as int)),
        decreases all.len() - i,
    {
        proof {
            assert(views(all@).take(i + 1).drop_last() == views(all@).take(i as int));
            assert(views(all@).take(i + 1).last() == all@[i as int]@);
        }
        if all[i].as_str().unicode_len() > 0 {
            let ghost prev = kept@;
            kept.push(all[i].clone());
            assert(views(kept@) == views(prev).push(kept@.last()@));
        }
        i += 1;
    }
    assert(views(all@).take(all.len() as int) == views(all@));
    kept
}

/// The words of `s`: its maximal runs of characters that are not white space.
pub fn split_whitespace(s: &str) -> (r: Vec<String>)
    ensures
        views(r@) == words(s@),
{
    fields_of(s, Separator::Whitespace)
}

// ---------------------------------------------------------------------------
// Lines
// ---------------------------------------------------------------------------

/// `l` without one carriage return at its end, if it has one.
pub open spec fn without_return(l: Seq<char>) -> Seq<char> {
    if l.len() > 0 && l.last() == '\r' {
        l.drop_last()
    } else {
        l
    }
}

/// Each part without the carriage return at its end.
pub open spec fn without_returns(parts: Seq<Seq<char>>) -> Seq<Seq<char>> {
    Seq::new(parts.len(), |i: int| without_return(parts[i]))
}

/// The lines of `s`. A line ends at a line feed; a carriage return just
/// before that line feed belongs to the line ending. What follows the last
/// line feed is a line of its own unless it is empty.
pub open spec fn lines_of(s: Seq<char>) -> Seq<Seq<char>> {
    let p = pieces(s, Separator::Char('\n'));
    let ended = without_returns(p.drop_last());
    if p.last().len() == 0 {
        ended
    } else {
        ended.push(p.last())
    }
}

/// The lines of `s`.
pub fn lines(s: &str) -> (r: Vec<String>)
    ensures
        views(r@) == lines_of(s@),
{
    let p = split(s, '\n');
    proof {
        lemma_pieces_len(s@, Separator::Char('\n'));
        assert(views(p@).len() == p@.len());
    }
    let mut out: Vec<String> = Vec::new();
    let n: usize = p.len() - 1;
    let mut i: usize = 0;
    while i < n
        invariant
            i <= n,
            n + 1 == p.len(),
            views(out@) == without_returns(views(p@).take(i as int)),
        decreases n - i,
    {
        let cs = chars_of(p[i].as_str());
        let ghost prev = out@;
        if cs.len() > 0 && cs[cs.len() - 1] == '\r' {
            out.push(string_of_range(&cs, 0, cs.len() - 1));
            assert(cs@.subrange(0, cs.len() - 1) == cs@.drop_last());
        } else {
            out.push(string_of(&cs));
        }
        assert(views(out@) == views(prev).push(out@.last()@));
        assert(views(p@).take(i + 1) == views(p@).take(i as int).push(p@[i as int]@));
        i += 1;
    }
    assert(views(p@).take(n as int) == views(p@).drop_last());
    assert(views(p@).last() == p@[n as int]@);
    if p[n].as_str().unicode_len() > 0 {
        let ghost prev = out@;
        out.push(p[n].clone());
        assert(views(out@) == views(prev).push(out@.last()@));
    }
    out
}

// ---------------------------------------------------------------------------
// Trimming
// ---------------------------------------------------------------------------

/// The number of white-space characters at the start of `s`.
pub open spec fn leading_space(s: Seq<char>) -> nat
    decreases s.len(),
{
    if s.len() > 0 && is_whitespace(s[0]) {
        1 + leading_space(s.skip(1))
    } else {
        0
    }
}

/// The number of white-space characters at the end of `s`.
pub open spec fn trailing_space(s: Seq<char>) -> nat
    decreases s.len(),
{
    if s.len() > 0 && is_whitespace(s.last()) {
        1 + trailing_space(s.drop_last())
    } else {
        0
    }
}

/// `s` without the white space at its start and at its end.
pub open spec fn trimmed(s: Seq<char>) -> Seq<char> {
    let a = leading_space(s);
    if a == s.len() {
        Seq::empty()
    } else {
        s.subrange(a as int, s.len() - trailing_space(s))
    }
}

proof fn lemma_leading_space(s: Seq<char>, k: int)
    requires
        0 <= k <= s.len(),
        forall|j: int| 0 <= j < k ==> is_whitespace(s[j]),
        k == s.len() || !is_whitespace(s[k]),
    ensures
        leading_space(s) == k,
    decreases k,
{
    if k > 0 {
        let t = s.skip(1);
        assert forall|j: int| 0 <= j < k - 1 implies is_whitespace(t[j]) by {
            assert(t[j] == s[j + 1]);
        }
        lemma_leading_space(t, k - 1);
    }
}

proof fn lemma_trailing_space(s: Seq<char>, k: int)
    requires
        0 <= k <= s.len(),
        forall|j: int| s.len() - k <= j < s.len() ==> is_whitespace(s[j]),
        k == s.len() || !is_whitespace(s[s.len() - k - 1]),
    ensures
        trailing_space(s) == k,
    decreases k,
{
    if k > 0 {
        let t = s.drop_last();
        assert forall|j: int| t.len() - (k - 1) <= j < t.len() implies is_whitespace(t[j]) by {
            assert(t[j] == s[j]);
        }
        lemma_trailing_space(t, k - 1);
    }
}

/// `s` without the white space at its start and at its end.
pub fn trim(s: &str) -> (r: String)
    ensures
        r@ == trimmed(s@),
{
    let cs = chars_of(s);
    let ws = Separator::Whitespace;
    let mut a: usize = 0;
    while a < cs.len() && ws.is_separator(cs[a])
        invariant
            a <= cs.len(),
            ws == Separator::Whitespace,
            forall|j: int| 0 <= j < a ==> is_whitespace(cs@[j]),
        decreases cs.len() - a,
    {
        a += 1;
    }
    proof {
        lemma_leading_space(cs@, a as int);
    }
    if a == cs.len() {
        return String::new();
    }
    let mut b: usize = cs.len();
    while b > a && ws.is_separator(cs[b - 1])
        invariant
            a <= b <= cs.len(),
            a < cs.len(),
            !is_whitespace(cs@[a as int]),
            ws == Separator::Whitespace,
            forall|j: int| b <= j < cs.len() ==> is_whitespace(cs@[j]),
        decreases b,
    {
        b -= 1;
    }
    proof {
        lemma_trailing_space(cs@, cs.len() - b);
    }
    string_of_range(&cs, a, b)
}

// ---------------------------------------------------------------------------
// Replacing
// ---------------------------------------------------------------------------

/// `s` with each occurrence of `from` replaced by `to`, the occurrences taken
/// from the left and not overlapping. An empty `from` occurs nowhere.
pub open spec fn replaced(s: Seq<char>, from: Seq<char>, to: Seq<char>) -> Seq<char>
    decreases s.len(),
{
    if from.len() == 0 || s.len() < from.len() {
        s
    } else if occurs_at(s, from, 0) {
        to + replaced(s.skip(from.len() as int), from, to)
    } else {
        seq![s[0]] + replaced(s.skip(1), from, to)
    }
}

/// `s` with each occurrence of `from` replaced by `to`.
pub fn replace(s: &str, from: &str, to: &str) -> (r: String)
    ensures
        r@ == replaced(s@, from@, to@),
{
    let cs = chars_of(s);
    let fs = chars_of(from);
    if fs.len() == 0 || cs.len() < fs.len() {
        return string_of(&cs);
    }
    let mut out = String::new();
    let mut i: usize = 0;
    assert(cs@.skip(0) == cs@);
    assert(out@ + replaced(cs@, from@, to@) == replaced(cs@, from@, to@));
    while i < cs.len()
        invariant
            i <= cs.len(),
            fs@ == from@,
            fs.len() > 0,
            out@ + replaced(cs@.skip(i as int), from@, to@) == replaced(cs@, from@, to@),
        decreases cs.len() - i,
    {
        let ghost rest = cs@.skip(i as int);
        if matches_at(&cs, &fs, i) {
            proof {
                assert(rest.subrange(0, fs.len() as int) == cs@.subrange(
                    i as int,
                    i + fs.len(),
                ));
                assert(rest.skip(fs.len() as int) == cs@.skip(i + fs.len()));
            }
            out.append(to);
            i += fs.len();
        } else {
            proof {
                if rest.len() >= fs.len() {
                    assert(rest.subrange(0, fs.len() as int) == cs@.subrange(
                        i as int,
                        i + fs.len(),
                    ));
                }
                assert(rest.skip(1) == cs@.skip(i + 1));
                if rest.len() < fs.len() {
                    lemma_replaced_short(rest, from@, to@);
                    lemma_replaced_short(rest.skip(1), from@, to@);
                    assert(seq![rest[0]] + rest.skip(1) == rest);
                }
            }
            out.push(cs[i]);
            i += 1;
        }
    }
    assert(cs@.skip(cs.len() as int) == Seq::<char>::empty());
    out
}

proof fn lemma_replaced_short(s: Seq<char>, from: Seq<char>, to: Seq<char>)
    requires
        s.len() < from.len(),
    ensures
        replaced(s, from, to) == s,
{
}

} // verus!
