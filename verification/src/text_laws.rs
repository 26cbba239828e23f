//! Facts about splitting, replacing, trimming and line breaking that the laws
//! of the logs rest on: how each acts on text built by concatenation.
use vstd::prelude::*;
use crate::number::{int_decimal, is_digit, nat_decimal};
use crate::text::{
    char_is_whitespace, contains, first_occurrence, join, lemma_first_occurrence_some,
    lemma_split_from_nonempty, lines, occurs_at, remove_all, split, split_from, starts_with,
    strip_cr, strip_leading, trim, trim_end, trim_start,
};

verus! {

/// `c` does not occur in `s`.
pub open spec fn lacks(s: Seq<char>, c: char) -> bool {
    forall|i: int| 0 <= i < s.len() ==> s[i] != c
}

/// No occurrence of `p` in `s` begins where `s` ends with a proper prefix of
/// `p`, nor inside `s`: when `s` is followed by `p`, the first occurrence of
/// `p` is the one that follows.
pub open spec fn ends_before(s: Seq<char>, p: Seq<char>) -> bool {
    !contains(s + p.drop_last(), p)
}

/// `s` neither begins nor ends with whitespace, and is not empty.
pub open spec fn trimmed_text(s: Seq<char>) -> bool {
    s.len() > 0 && !char_is_whitespace(s[0]) && !char_is_whitespace(s.last())
}

/// `label` does not occur in `v`, not even completed by a following space.
pub open spec fn clear_of(v: Seq<char>, label: Seq<char>) -> bool {
    !contains(v + seq![' '], label)
}

/// Text clear of a label stays clear when followed by text that begins with a
/// space, then a character that the label lacks, and lacks the label's first
/// character.
pub proof fn lemma_clear_of_before(v: Seq<char>, label: Seq<char>, r: Seq<char>)
    requires
        clear_of(v, label),
        label.len() >= 1,
        lacks(r, label[0]),
        r.len() >= 2,
        r[0] == ' ',
        lacks(label, r[1]),
    ensures
        !contains(v + r, label),
{
    let t = v + r;
    let u = v + seq![' '];
    assert forall|i: int| !occurs_at(t, label, i) by {
        if occurs_at(t, label, i) {
            assert(t.subrange(i, i + label.len())[0] == t[i]);
            if i >= v.len() {
                assert(t[i] == r[i - v.len()]);
            } else if i + label.len() <= v.len() + 1 {
                assert(u.subrange(i, i + label.len()) =~= t.subrange(i, i + label.len()));
                assert(occurs_at(u, label, i));
            } else {
                let m = v.len() + 1 - i;
                assert(t.subrange(i, i + label.len())[m] == t[v.len() + 1int]);
                assert(t[v.len() + 1int] == r[1]);
            }
        }
    }
}

/// Text made of two pieces without `c` is without `c`.
pub proof fn lemma_lacks_cat(a: Seq<char>, b: Seq<char>, c: char)
    requires
        lacks(a, c),
        lacks(b, c),
    ensures
        lacks(a + b, c),
{
    assert forall|i: int| 0 <= i < (a + b).len() implies (a + b)[i] != c by {
        if i < a.len() {
            assert((a + b)[i] == a[i]);
        } else {
            assert((a + b)[i] == b[i - a.len()]);
        }
    }
}

/// Text without a character of `p` cannot hold `p`.
pub proof fn lemma_lacks_no_occurrence(s: Seq<char>, p: Seq<char>, m: int)
    requires
        0 <= m < p.len(),
        lacks(s, p[m]),
    ensures
        !contains(s, p),
{
    assert forall|i: int| !occurs_at(s, p, i) by {
        if occurs_at(s, p, i) {
            assert(s.subrange(i, i + p.len())[m] == p[m]);
            assert(s[i + m] == p[m]);
        }
    }
}

/// When `s` lacks a character of `p` that `p` has nowhere before, `s` is
/// followed by `p` cleanly.
pub proof fn lemma_lacks_ends_before(s: Seq<char>, p: Seq<char>, m: int)
    requires
        0 <= m < p.len(),
        lacks(s, p[m]),
        forall|k: int| 0 <= k < m ==> p[k] != p[m],
    ensures
        ends_before(s, p),
{
    let t = s + p.drop_last();
    assert forall|i: int| !occurs_at(t, p, i) by {
        if occurs_at(t, p, i) {
            assert(t.subrange(i, i + p.len())[m] == p[m]);
            assert(t[i + m] == p[m]);
            if i + m < s.len() {
                assert(t[i + m] == s[i + m]);
            } else {
                assert(t[i + m] == p[i + m - s.len()]);
            }
        }
    }
}

proof fn lemma_first_occurrence_none(s: Seq<char>, p: Seq<char>, start: int)
    requires
        !contains(s, p),
    ensures
        first_occurrence(s, p, start) is None,
    decreases s.len() + 1 - start,
{
    if !(start < 0 || start + p.len() > s.len()) {
        assert(!occurs_at(s, p, start));
        lemma_first_occurrence_none(s, p, start + 1);
    }
}

proof fn lemma_first_occurrence_found(s: Seq<char>, p: Seq<char>, start: int, target: int)
    requires
        0 <= start <= target,
        occurs_at(s, p, target),
        forall|i: int| start <= i < target ==> !occurs_at(s, p, i),
    ensures
        first_occurrence(s, p, start) == Some(target),
    decreases target - start,
{
    if start < target {
        assert(!occurs_at(s, p, start));
        lemma_first_occurrence_found(s, p, start + 1, target);
    }
}

proof fn lemma_occurs_shift(pre: Seq<char>, t: Seq<char>, p: Seq<char>, j: int)
    requires
        0 <= j,
    ensures
        occurs_at(pre + t, p, pre.len() + j) == occurs_at(t, p, j),
{
    let s = pre + t;
    let k = pre.len() + j;
    if k + p.len() <= s.len() {
        assert(s.subrange(k, k + p.len()) =~= t.subrange(j, j + p.len()));
    }
}

proof fn lemma_first_occurrence_shift(pre: Seq<char>, t: Seq<char>, p: Seq<char>, j: int)
    requires
        0 <= j,
    ensures
        first_occurrence(pre + t, p, pre.len() + j) == match first_occurrence(t, p, j) {
            Some(i) => Some(pre.len() + i),
            None => None,
        },
    decreases t.len() + 1 - j,
{
    let s = pre + t;
    let k = pre.len() + j;
    if k + p.len() <= s.len() {
        lemma_occurs_shift(pre, t, p, j);
        if !occurs_at(t, p, j) {
            lemma_first_occurrence_shift(pre, t, p, j + 1);
        }
    }
}

/// Splitting the part of `pre + t` after `pre` is splitting `t`.
pub proof fn lemma_split_shift(pre: Seq<char>, t: Seq<char>, sep: Seq<char>, j: int)
    requires
        0 <= j <= t.len(),
    ensures
        split_from(pre + t, sep, pre.len() + j) == split_from(t, sep, j),
    decreases t.len() + 1 - j,
{
    let s = pre + t;
    let k = pre.len() + j;
    if sep.len() == 0 {
        assert(s.subrange(k, s.len() as int) =~= t.subrange(j, t.len() as int));
    } else {
        lemma_first_occurrence_shift(pre, t, sep, j);
        match first_occurrence(t, sep, j) {
            Some(i) => {
                lemma_first_occurrence_some(t, sep, j);
                assert(s.subrange(k, pre.len() + i) =~= t.subrange(j, i));
                lemma_split_shift(pre, t, sep, i + sep.len());
            },
            None => {
                assert(s.subrange(k, s.len() as int) =~= t.subrange(j, t.len() as int));
            },
        }
    }
}

/// Text that does not hold `sep` splits into itself alone.
pub proof fn lemma_split_whole(s: Seq<char>, sep: Seq<char>)
    requires
        sep.len() > 0,
        !contains(s, sep),
    ensures
        split(s, sep) == seq![s],
{
    lemma_first_occurrence_none(s, sep, 0);
    assert(s.subrange(0, s.len() as int) =~= s);
}

/// Text `a`, then `sep`, then `b`, where `a` runs cleanly into `sep`: the first
/// piece is `a`, the others those of `b`.
pub proof fn lemma_split_head(a: Seq<char>, sep: Seq<char>, b: Seq<char>)
    requires
        sep.len() > 0,
        ends_before(a, sep),
    ensures
        split(a + sep + b, sep) == seq![a] + split(b, sep),
{
    let s = a + sep + b;
    let t = a + sep.drop_last();
    assert forall|i: int| 0 <= i < a.len() implies !occurs_at(s, sep, i) by {
        if occurs_at(s, sep, i) {
            assert(t.subrange(i, i + sep.len()) =~= s.subrange(i, i + sep.len()));
            assert(occurs_at(t, sep, i));
        }
    }
    assert(s.subrange(a.len() as int, (a.len() + sep.len()) as int) =~= sep);
    lemma_first_occurrence_found(s, sep, 0, a.len() as int);
    assert(s.subrange(0, a.len() as int) =~= a);
    assert(s =~= (a + sep) + b);
    lemma_split_shift(a + sep, b, sep, 0);
}

/// Joining one piece gives it; joining two puts `sep` between them.
pub proof fn lemma_join_two(a: Seq<char>, b: Seq<char>, sep: Seq<char>)
    ensures
        join(seq![a], sep) == a,
        join(seq![a, b], sep) == a + sep + b,
{
    assert(seq![a, b].drop_last() =~= seq![a]);
}

/// Removing `p` from `p` followed by text without it leaves the text.
pub proof fn lemma_remove_prefix(p: Seq<char>, v: Seq<char>)
    requires
        p.len() > 0,
        !contains(v, p),
    ensures
        remove_all(p + v, p) == v,
{
    let e = Seq::<char>::empty();
    lemma_lacks_ends_before(e, p, 0);
    lemma_split_head(e, p, v);
    assert(e + p + v =~= p + v);
    lemma_split_whole(v, p);
    assert(seq![e] + seq![v] =~= seq![e, v]);
    lemma_join_two(e, v, seq![]);
    assert(e + Seq::<char>::empty() + v =~= v);
}

/// Removing `p` from text followed by `p`, where the text runs cleanly into
/// it, leaves the text.
pub proof fn lemma_remove_suffix(v: Seq<char>, p: Seq<char>)
    requires
        p.len() > 0,
        ends_before(v, p),
    ensures
        remove_all(v + p, p) == v,
{
    let e = Seq::<char>::empty();
    lemma_split_head(v, p, e);
    assert(v + p + e =~= v + p);
    lemma_lacks_no_occurrence(e, p, 0);
    lemma_split_whole(e, p);
    assert(seq![v] + seq![e] =~= seq![v, e]);
    lemma_join_two(v, e, seq![]);
    assert(v + Seq::<char>::empty() + e =~= v);
}

/// Text with no leading or trailing whitespace trims to itself, also after
/// one trailing line feed.
pub proof fn lemma_trim_trimmed(s: Seq<char>)
    requires
        trimmed_text(s),
    ensures
        trim(s) == s,
        trim(s + seq!['\n']) == s,
        trim(seq!['\n'] + s + seq!['\n']) == s,
        trim_end(s) == s,
{
    let t = s + seq!['\n'];
    let u = seq!['\n'] + s + seq!['\n'];
    assert(t[0] == s[0]);
    assert(trim_start(t) == t);
    assert(t.drop_last() =~= s);
    assert(trim_end(t) == trim_end(s));
    assert(u.drop_first() =~= t);
    assert(trim_start(u) == trim_start(t));
}

/// A line feed alone trims to nothing.
pub proof fn lemma_trim_line_feed()
    ensures
        trim(seq!['\n']) == Seq::<char>::empty(),
{
    let s = seq!['\n'];
    assert(s.drop_first() =~= Seq::<char>::empty());
    assert(trim_start(s) == trim_start(Seq::<char>::empty()));
}

/// One line, without line feeds, is its own only line.
pub proof fn lemma_lines_one(l: Seq<char>)
    requires
        l.len() > 0,
        lacks(l, '\n'),
    ensures
        lines(l) == seq![l],
{
    lemma_lacks_no_occurrence(l, seq!['\n'], 0);
    lemma_split_whole(l, seq!['\n']);
    assert(seq![l].drop_last().map_values(|x: Seq<char>| strip_cr(x)) =~= Seq::<Seq<char>>::empty());
    assert(Seq::<Seq<char>>::empty() + seq![l] =~= seq![l]);
}

/// A line without a carriage return at its end, a line feed, then more text:
/// the line comes first, then the lines of the rest.
pub proof fn lemma_lines_cons(l: Seq<char>, rest: Seq<char>)
    requires
        lacks(l, '\n'),
        !(l.len() > 0 && l.last() == '\r'),
    ensures
        lines(l + seq!['\n'] + rest) == seq![l] + lines(rest),
{
    let nl = seq!['\n'];
    lemma_lacks_ends_before(l, nl, 0);
    lemma_split_head(l, nl, rest);
    let parts = split(rest, nl);
    lemma_split_from_nonempty(rest, nl, 0);
    let all = seq![l] + parts;
    assert(all.drop_last() =~= seq![l] + parts.drop_last());
    assert(all.last() == parts.last());
    assert(all.drop_last().map_values(|x: Seq<char>| strip_cr(x)) =~= seq![l] + parts.drop_last().map_values(
        |x: Seq<char>| strip_cr(x),
    ));
}

/// The decimal text of a number holds only digits and a leading minus sign.
pub proof fn lemma_nat_decimal_digits(n: nat)
    ensures
        forall|i: int| 0 <= i < nat_decimal(n).len() ==> is_digit(#[trigger] nat_decimal(n)[i]),
        nat_decimal(n).len() > 0,
    decreases n,
{
    if n >= 10 {
        lemma_nat_decimal_digits(n / 10);
    }
}

/// The decimal text of a number lacks every character that is neither a digit
/// nor the minus sign.
pub proof fn lemma_decimal_lacks(n: int, c: char)
    requires
        !is_digit(c),
        c != '-',
    ensures
        lacks(int_decimal(n), c),
        int_decimal(n).len() > 0,
{
    if n < 0 {
        lemma_nat_decimal_digits((-n) as nat);
        let d = nat_decimal((-n) as nat);
        assert forall|i: int| 0 <= i < int_decimal(n).len() implies int_decimal(n)[i] != c by {
            if i > 0 {
                assert(int_decimal(n)[i] == d[i - 1]);
            }
        }
    } else {
        lemma_nat_decimal_digits(n as nat);
    }
}

/// Leading copies of `c` go, and nothing more, when the rest does not begin
/// with `c`.
pub proof fn lemma_strip_one(c: char, t: Seq<char>)
    requires
        !(t.len() > 0 && t[0] == c),
    ensures
        strip_leading(seq![c] + t, c) == t,
{
    assert((seq![c] + t).drop_first() =~= t);
    assert(strip_leading(t, c) == t);
}

/// `s` does not begin with `p` when they differ at a position both have.
pub proof fn lemma_differ_at(s: Seq<char>, p: Seq<char>, i: int)
    requires
        0 <= i < p.len(),
        i < s.len(),
        s[i] != p[i],
    ensures
        !starts_with(s, p),
{
    if starts_with(s, p) {
        assert(s.take(p.len() as int)[i] == p[i]);
    }
}

/// The lines joined with a line feed between each two.
pub open spec fn lines_text(ls: Seq<Seq<char>>) -> Seq<char>
    decreases ls.len(),
{
    if ls.len() == 0 {
        seq![]
    } else if ls.len() == 1 {
        ls[0]
    } else {
        ls[0] + seq!['\n'] + lines_text(ls.drop_first())
    }
}

/// Each line holds no line feed and does not end in a carriage return.
pub open spec fn plain_lines(ls: Seq<Seq<char>>) -> bool {
    forall|i: int|
        0 <= i < ls.len() ==> lacks(#[trigger] ls[i], '\n') && !(ls[i].len() > 0 && ls[i].last() == '\r')
}

/// Lines joined by line feeds read back as the same lines, when the last is not
/// empty.
pub proof fn lemma_lines_of_lines_text(ls: Seq<Seq<char>>)
    requires
        ls.len() >= 1,
        plain_lines(ls),
        ls.last().len() > 0,
    ensures
        lines(lines_text(ls)) == ls,
    decreases ls.len(),
{
    if ls.len() == 1 {
        assert(ls[0] == ls.last());
        lemma_lines_one(ls[0]);
        assert(ls =~= seq![ls[0]]);
    } else {
        let rest = ls.drop_first();
        assert(plain_lines(rest)) by {
            assert forall|i: int| 0 <= i < rest.len() implies lacks(#[trigger] rest[i], '\n') && !(
            rest[i].len() > 0 && rest[i].last() == '\r') by {
                assert(rest[i] == ls[i + 1]);
            }
        }
        assert(rest.last() == ls.last());
        lemma_lines_of_lines_text(rest);
        assert(lacks(ls[0], '\n'));
        lemma_lines_cons(ls[0], lines_text(rest));
        assert(seq![ls[0]] + rest =~= ls);
    }
}

/// The first and last characters of joined lines are those of the first and
/// last lines, when these are not empty.
pub proof fn lemma_lines_text_ends(ls: Seq<Seq<char>>)
    requires
        ls.len() >= 1,
        ls[0].len() > 0,
        ls.last().len() > 0,
    ensures
        lines_text(ls).len() > 0,
        lines_text(ls)[0] == ls[0][0],
        lines_text(ls).last() == ls.last().last(),
    decreases ls.len(),
{
    if ls.len() > 1 {
        let rest = ls.drop_first();
        assert(rest.last() == ls.last());
        if rest[0].len() > 0 {
            lemma_lines_text_ends(rest);
        } else {
            lemma_lines_text_last(rest);
        }
    }
}

/// Joined lines end with the last character of the last line, when it is not
/// empty.
pub proof fn lemma_lines_text_last(ls: Seq<Seq<char>>)
    requires
        ls.len() >= 1,
        ls.last().len() > 0,
    ensures
        lines_text(ls).len() > 0,
        lines_text(ls).last() == ls.last().last(),
    decreases ls.len(),
{
    if ls.len() > 1 {
        let rest = ls.drop_first();
        assert(rest.last() == ls.last());
        lemma_lines_text_last(rest);
    }
}

/// Joining lines and one more line: a line feed, then the new line.
pub proof fn lemma_lines_text_push(a: Seq<Seq<char>>, x: Seq<char>)
    requires
        a.len() >= 1,
    ensures
        lines_text(a.push(x)) == lines_text(a) + seq!['\n'] + x,
    decreases a.len(),
{
    if a.len() == 1 {
        assert(a.push(x).drop_first() =~= seq![x]);
        assert(lines_text(seq![x]) == x);
    } else {
        assert(a.push(x).drop_first() =~= a.drop_first().push(x));
        lemma_lines_text_push(a.drop_first(), x);
        assert(lines_text(a.push(x)) =~= lines_text(a) + seq!['\n'] + x);
    }
}

/// Joining lines whose first has `label` in front is `label` in front of the
/// joined lines.
pub proof fn lemma_lines_text_labelled(label: Seq<char>, x: Seq<Seq<char>>)
    requires
        x.len() >= 1,
    ensures
        lines_text(seq![label + x[0]] + x.drop_first()) == label + lines_text(x),
{
    let y = seq![label + x[0]] + x.drop_first();
    assert(y.drop_first() =~= x.drop_first());
    if x.len() == 1 {
        assert(y =~= seq![label + x[0]]);
    } else {
        assert(lines_text(y) =~= label + lines_text(x));
    }
}

/// The lines of `v` between its line feeds: joined again they give `v`, and
/// none holds a line feed.
pub proof fn lemma_split_lines(v: Seq<char>)
    ensures
        split(v, seq!['\n']).len() >= 1,
        lines_text(split(v, seq!['\n'])) == v,
        forall|i: int| 0 <= i < split(v, seq!['\n']).len() ==> lacks(#[trigger] split(v, seq!['\n'])[i], '\n'),
    decreases v.len(),
{
    let nl = seq!['\n'];
    lemma_split_from_nonempty(v, nl, 0);
    match first_occurrence(v, nl, 0) {
        None => {
            assert forall|i: int| !occurs_at(v, nl, i) by {
                if occurs_at(v, nl, i) && i >= 0 {
                    lemma_first_occurrence_none_at(v, nl, 0, i);
                }
            }
            lemma_split_whole(v, nl);
            assert forall|i: int| 0 <= i < v.len() implies v[i] != '\n' by {
                if v[i] == '\n' {
                    assert(v.subrange(i, i + 1) =~= nl);
                    assert(occurs_at(v, nl, i));
                }
            }
        },
        Some(k) => {
            lemma_first_occurrence_some(v, nl, 0);
            let a = v.subrange(0, k);
            let b = v.subrange(k + 1, v.len() as int);
            assert(v =~= a + nl + b);
            assert forall|i: int| 0 <= i < a.len() implies a[i] != '\n' by {
                if a[i] == '\n' {
                    assert(v.subrange(i, i + 1) =~= nl);
                    assert(occurs_at(v, nl, i));
                }
            }
            lemma_lacks_ends_before(a, nl, 0);
            lemma_split_head(a, nl, b);
            lemma_split_lines(b);
            let rest = split(b, nl);
            let all = seq![a] + rest;
            assert(all.drop_first() =~= rest);
            assert(lines_text(all) == a + nl + lines_text(rest));
            assert forall|i: int| 0 <= i < all.len() implies lacks(#[trigger] all[i], '\n') by {
                if i > 0 {
                    assert(all[i] == rest[i - 1]);
                }
            }
        },
    }
}

proof fn lemma_first_occurrence_none_at(s: Seq<char>, p: Seq<char>, start: int, i: int)
    requires
        0 <= start <= i,
        first_occurrence(s, p, start) is None,
    ensures
        !occurs_at(s, p, i),
    decreases i - start,
{
    if start + p.len() > s.len() {
    } else if i > start {
        lemma_first_occurrence_none_at(s, p, start + 1, i);
    }
}

/// Joined lines end in the last character of the last line when that line is
/// not empty, and in a line feed when it is empty and not the only line.
pub proof fn lemma_lines_text_end(ls: Seq<Seq<char>>)
    requires
        ls.len() >= 2,
        ls.last().len() == 0,
    ensures
        lines_text(ls).len() > 0,
        lines_text(ls).last() == '\n',
    decreases ls.len(),
{
    let rest = ls.drop_first();
    assert(rest.last() == ls.last());
    if rest.len() >= 2 {
        lemma_lines_text_end(rest);
    } else {
        assert(lines_text(rest) == rest[0]);
    }
}

/// The last line of text that does not end in a line feed is not empty and
/// ends as the text does.
pub proof fn lemma_split_last_line(v: Seq<char>)
    requires
        v.len() > 0,
        v.last() != '\n',
    ensures
        split(v, seq!['\n']).last().len() > 0,
        split(v, seq!['\n']).last().last() == v.last(),
{
    let ls = split(v, seq!['\n']);
    lemma_split_lines(v);
    if ls.last().len() == 0 {
        if ls.len() >= 2 {
            lemma_lines_text_end(ls);
        } else {
            assert(lines_text(ls) == ls[0]);
        }
    } else {
        lemma_lines_text_last(ls);
    }
}

/// Each line followed by a line feed, all joined.
pub open spec fn lines_text_nl(ls: Seq<Seq<char>>) -> Seq<char>
    decreases ls.len(),
{
    if ls.len() == 0 {
        seq![]
    } else {
        ls[0] + seq!['\n'] + lines_text_nl(ls.drop_first())
    }
}

/// Joined lines with a line feed after the last are the lines each followed
/// by a line feed.
pub proof fn lemma_lines_text_nl(ls: Seq<Seq<char>>)
    requires
        ls.len() >= 1,
    ensures
        lines_text(ls) + seq!['\n'] == lines_text_nl(ls),
    decreases ls.len(),
{
    if ls.len() == 1 {
        assert(ls.drop_first() =~= Seq::<Seq<char>>::empty());
        assert(lines_text_nl(ls.drop_first()) == Seq::<char>::empty());
        assert(lines_text_nl(ls) =~= ls[0] + seq!['\n']);
    } else {
        lemma_lines_text_nl(ls.drop_first());
        assert(lines_text(ls) + seq!['\n'] =~= ls[0] + seq!['\n'] + (lines_text(ls.drop_first()) + seq!['\n']));
    }
}

/// Lines each followed by a line feed, of two lists one after the other.
pub proof fn lemma_lines_text_nl_append(a: Seq<Seq<char>>, b: Seq<Seq<char>>)
    ensures
        lines_text_nl(a + b) == lines_text_nl(a) + lines_text_nl(b),
    decreases a.len(),
{
    if a.len() == 0 {
        assert(a + b =~= b);
        assert(lines_text_nl(a) + lines_text_nl(b) =~= lines_text_nl(b));
    } else {
        assert((a + b).drop_first() =~= a.drop_first() + b);
        lemma_lines_text_nl_append(a.drop_first(), b);
        assert(lines_text_nl(a + b) =~= lines_text_nl(a) + lines_text_nl(b));
    }
}

/// Two lists of plain lines make one.
pub proof fn lemma_plain_lines_append(a: Seq<Seq<char>>, b: Seq<Seq<char>>)
    requires
        plain_lines(a),
        plain_lines(b),
    ensures
        plain_lines(a + b),
{
    assert forall|i: int| 0 <= i < (a + b).len() implies lacks(#[trigger] (a + b)[i], '\n') && !((a + b)[i].len() > 0
        && (a + b)[i].last() == '\r') by {
        if i < a.len() {
            assert((a + b)[i] == a[i]);
        } else {
            assert((a + b)[i] == b[i - a.len()]);
        }
    }
}

/// Splitting text after one more leading character that does not begin `sep`:
/// the first piece gets the character, the others stay.
pub proof fn lemma_split_leading(c: char, r: Seq<char>, sep: Seq<char>)
    requires
        sep.len() > 0,
        sep[0] != c,
    ensures
        split(seq![c] + r, sep) == seq![seq![c] + split(r, sep)[0]] + split(r, sep).drop_first(),
        split(r, sep).len() >= 1,
{
    let pre = seq![c];
    let cr = pre + r;
    lemma_split_from_nonempty(r, sep, 0);
    lemma_first_occurrence_shift(pre, r, sep, 0);
    if sep.len() <= cr.len() {
        assert(!occurs_at(cr, sep, 0)) by {
            if occurs_at(cr, sep, 0) {
                assert(cr.subrange(0, sep.len() as int)[0] == cr[0]);
            }
        }
        assert(first_occurrence(cr, sep, 0) == first_occurrence(cr, sep, 1));
    }
    match first_occurrence(r, sep, 0) {
        Some(i) => {
            lemma_first_occurrence_some(r, sep, 0);
            assert(cr.subrange(0, 1 + i) =~= pre + r.subrange(0, i));
            lemma_split_shift(pre, r, sep, i + sep.len());
            assert(split(r, sep) == seq![r.subrange(0, i)] + split_from(r, sep, i + sep.len()));
            assert(split(r, sep).drop_first() =~= split_from(r, sep, i + sep.len()));
        },
        None => {
            assert(cr.subrange(0, cr.len() as int) =~= pre + r.subrange(0, r.len() as int));
            assert(split(r, sep).drop_first() =~= Seq::<Seq<char>>::empty());
        },
    }
}

/// A leading line feed makes no difference to trimming.
pub proof fn lemma_trim_leading_line_feed(p: Seq<char>)
    ensures
        trim(seq!['\n'] + p) == trim(p),
{
    assert((seq!['\n'] + p).drop_first() =~= p);
    assert(trim_start(seq!['\n'] + p) == trim_start(p));
}

/// What trimming leaves neither begins nor ends with whitespace.
pub proof fn lemma_trim_ends(s: Seq<char>)
    ensures
        trim(s).len() > 0 ==> !char_is_whitespace(trim(s)[0]) && !char_is_whitespace(trim(s).last()),
{
    lemma_trim_start_first(s);
    lemma_trim_end_keeps_first(trim_start(s));
    lemma_trim_end_last(trim_start(s));
}

proof fn lemma_trim_start_first(s: Seq<char>)
    ensures
        trim_start(s).len() > 0 ==> !char_is_whitespace(trim_start(s)[0]),
    decreases s.len(),
{
    if s.len() > 0 && char_is_whitespace(s[0]) {
        lemma_trim_start_first(s.drop_first());
    }
}

proof fn lemma_trim_end_keeps_first(s: Seq<char>)
    ensures
        trim_end(s).len() > 0 ==> trim_end(s)[0] == s[0],
        trim_end(s).len() <= s.len(),
    decreases s.len(),
{
    if s.len() > 0 && char_is_whitespace(s.last()) {
        lemma_trim_end_keeps_first(s.drop_last());
    }
}

proof fn lemma_trim_end_last(s: Seq<char>)
    ensures
        trim_end(s).len() > 0 ==> !char_is_whitespace(trim_end(s).last()),
    decreases s.len(),
{
    if s.len() > 0 && char_is_whitespace(s.last()) {
        lemma_trim_end_last(s.drop_last());
    }
}

/// Where `s` ends in a character that `p` lacks, `p` cannot straddle the end
/// of `s`: text without `p` runs cleanly into it.
pub proof fn lemma_ends_before_by_last(s: Seq<char>, p: Seq<char>)
    requires
        p.len() > 0,
        s.len() > 0,
        !contains(s, p),
        lacks(p, s.last()),
    ensures
        ends_before(s, p),
{
    let t = s + p.drop_last();
    assert forall|i: int| !occurs_at(t, p, i) by {
        if occurs_at(t, p, i) {
            if i + p.len() <= s.len() {
                assert(t.subrange(i, i + p.len()) =~= s.subrange(i, i + p.len()));
                assert(occurs_at(s, p, i));
            } else {
                let k = s.len() - 1 - i;
                assert(0 <= k < p.len());
                assert(t.subrange(i, i + p.len())[k] == t[s.len() - 1]);
                assert(t[s.len() - 1] == s.last());
            }
        }
    }
}

/// An occurrence in a prefix is an occurrence in the whole.
pub proof fn lemma_contains_prefix(s: Seq<char>, t: Seq<char>, p: Seq<char>)
    requires
        contains(s, p),
    ensures
        contains(s + t, p),
{
    let i = choose|i: int| occurs_at(s, p, i);
    assert((s + t).subrange(i, i + p.len()) =~= s.subrange(i, i + p.len()));
    assert(occurs_at(s + t, p, i));
}

/// Splitting text after a prefix that holds no first character of `sep`: the
/// first piece gets the prefix, the others stay.
pub proof fn lemma_split_prefix_lacking(t: Seq<char>, r: Seq<char>, sep: Seq<char>)
    requires
        sep.len() > 0,
        lacks(t, sep[0]),
    ensures
        split(t + r, sep) == seq![t + split(r, sep)[0]] + split(r, sep).drop_first(),
    decreases t.len(),
{
    lemma_split_from_nonempty(r, sep, 0);
    if t.len() == 0 {
        assert(t + r =~= r);
        assert(t + split(r, sep)[0] =~= split(r, sep)[0]);
        assert(seq![split(r, sep)[0]] + split(r, sep).drop_first() =~= split(r, sep));
    } else {
        let u = t.drop_first();
        assert(lacks(u, sep[0])) by {
            assert forall|i: int| 0 <= i < u.len() implies u[i] != sep[0] by {
                assert(u[i] == t[i + 1]);
            }
        }
        lemma_split_prefix_lacking(u, r, sep);
        assert(t + r =~= seq![t[0]] + (u + r));
        lemma_split_leading(t[0], u + r, sep);
        assert(split(u + r, sep)[0] == u + split(r, sep)[0]);
        assert(split(u + r, sep).drop_first() =~= split(r, sep).drop_first());
        assert(seq![t[0]] + (u + split(r, sep)[0]) =~= t + split(r, sep)[0]);
    }
}

/// Splitting two texts one after the other, where the first's last piece holds
/// no first character of `sep`: the first's pieces, its last joined to the
/// second's first, then the second's other pieces.
pub proof fn lemma_split_concat(c1: Seq<char>, c2: Seq<char>, sep: Seq<char>)
    requires
        sep.len() > 0,
        lacks(split(c1, sep).last(), sep[0]),
    ensures
        split(c1 + c2, sep) == split(c1, sep).drop_last() + seq![split(c1, sep).last() + split(c2, sep)[0]]
            + split(c2, sep).drop_first(),
    decreases c1.len(),
{
    lemma_split_from_nonempty(c1, sep, 0);
    lemma_split_from_nonempty(c2, sep, 0);
    match first_occurrence(c1, sep, 0) {
        None => {
            assert(c1.subrange(0, c1.len() as int) =~= c1);
            assert(split(c1, sep) == seq![c1]);
            lemma_split_prefix_lacking(c1, c2, sep);
            assert(split(c1, sep).drop_last() =~= Seq::<Seq<char>>::empty());
            assert(Seq::<Seq<char>>::empty() + seq![c1 + split(c2, sep)[0]] + split(c2, sep).drop_first()
                =~= seq![c1 + split(c2, sep)[0]] + split(c2, sep).drop_first());
        },
        Some(i) => {
            lemma_first_occurrence_some(c1, sep, 0);
            let a = c1.subrange(0, i);
            let b = c1.subrange(i + sep.len(), c1.len() as int);
            assert(c1.subrange(i, i + sep.len()) =~= sep);
            assert(c1 =~= (a + sep) + b);
            lemma_split_shift(a + sep, b, sep, 0);
            assert(split(c1, sep) == seq![a] + split(b, sep));
            let s = c1 + c2;
            assert(s.subrange(i, i + sep.len()) =~= c1.subrange(i, i + sep.len()));
            assert forall|j: int| 0 <= j < i implies !occurs_at(s, sep, j) by {
                if occurs_at(s, sep, j) {
                    assert(s.subrange(j, j + sep.len()) =~= c1.subrange(j, j + sep.len()));
                    assert(occurs_at(c1, sep, j));
                }
            }
            lemma_first_occurrence_found(s, sep, 0, i);
            assert(s =~= (a + sep) + (b + c2));
            assert(s.subrange(0, i) =~= a);
            lemma_split_shift(a + sep, b + c2, sep, 0);
            assert(split(s, sep) == seq![a] + split(b + c2, sep));
            lemma_split_from_nonempty(b, sep, 0);
            assert(split(c1, sep).last() == split(b, sep).last());
            lemma_split_concat(b, c2, sep);
            assert(split(c1, sep).drop_last() =~= seq![a] + split(b, sep).drop_last());
            assert(split(s, sep) =~= split(c1, sep).drop_last() + seq![split(c1, sep).last() + split(c2, sep)[0]]
                + split(c2, sep).drop_first());
        },
    }
}

/// Text that trims to nothing is all whitespace, and leaves what follows it to
/// be trimmed alone.
pub proof fn lemma_blank_prefix(t: Seq<char>, p: Seq<char>)
    requires
        trim(t).len() == 0,
    ensures
        forall|i: int| 0 <= i < t.len() ==> char_is_whitespace(#[trigger] t[i]),
        trim(t + p) == trim(p),
    decreases t.len(),
{
    if t.len() > 0 {
        if char_is_whitespace(t[0]) {
            let u = t.drop_first();
            assert(trim_start(t) == trim_start(u));
            lemma_blank_prefix(u, p);
            assert forall|i: int| 0 <= i < t.len() implies char_is_whitespace(#[trigger] t[i]) by {
                if i > 0 {
                    assert(t[i] == u[i - 1]);
                }
            }
            assert((t + p).drop_first() =~= u + p);
            assert(trim_start(t + p) == trim_start(u + p));
        } else {
            assert(trim_start(t) == t);
            lemma_trim_end_not_empty(t);
        }
    }
}

/// Text that begins with a character other than whitespace keeps it when its
/// end is trimmed.
proof fn lemma_trim_end_not_empty(x: Seq<char>)
    requires
        x.len() > 0,
        !char_is_whitespace(x[0]),
    ensures
        trim_end(x).len() > 0,
    decreases x.len(),
{
    if char_is_whitespace(x.last()) {
        let y = x.drop_last();
        assert(y[0] == x[0]);
        lemma_trim_end_not_empty(y);
    }
}

/// Text ending in a line feed splits at line feeds into its pieces, the last
/// of them empty.
proof fn lemma_split_ends_in_line_feed(a: Seq<char>)
    requires
        a.len() > 0,
        a.last() == '\n',
    ensures
        split(a, seq!['\n']).len() >= 2,
        split(a, seq!['\n']).last() == Seq::<char>::empty(),
{
    let nl = seq!['\n'];
    let a1 = a.drop_last();
    let e = Seq::<char>::empty();
    assert(a =~= a1 + nl);
    lemma_split_lines(a1);
    let x = split(a1, nl);
    assert(lacks(x[x.len() - 1], '\n'));
    lemma_split_concat(a1, nl, nl);
    lemma_lacks_ends_before(e, nl, 0);
    lemma_split_head(e, nl, e);
    assert(e + nl + e =~= nl);
    lemma_lacks_no_occurrence(e, nl, 0);
    lemma_split_whole(e, nl);
    assert(split(nl, nl) =~= seq![e, e]);
}

/// The lines of text that ends in a line feed (or is empty), then more text:
/// its lines, then those of the rest.
pub proof fn lemma_lines_append(a: Seq<char>, b: Seq<char>)
    requires
        a.len() == 0 || a.last() == '\n',
    ensures
        lines(a + b) == lines(a) + lines(b),
{
    let nl = seq!['\n'];
    let e = Seq::<char>::empty();
    lemma_split_from_nonempty(b, nl, 0);
    if a.len() == 0 {
        assert(a + b =~= b);
        lemma_lacks_no_occurrence(e, nl, 0);
        lemma_split_whole(e, nl);
        assert(a =~= e);
        assert(split(a, nl).drop_last() =~= Seq::<Seq<char>>::empty());
        assert(lines(a) =~= Seq::<Seq<char>>::empty());
        assert(lines(a) + lines(b) =~= lines(b));
    } else {
        lemma_split_ends_in_line_feed(a);
        let x = split(a, nl);
        let y = split(b, nl);
        lemma_split_concat(a, b, nl);
        assert(x.last() + y[0] =~= y[0]);
        let z = split(a + b, nl);
        assert(z =~= x.drop_last() + y);
        assert(z.drop_last() =~= x.drop_last() + y.drop_last());
        assert(z.last() == y.last());
        assert(z.drop_last().map_values(|l: Seq<char>| strip_cr(l)) =~= x.drop_last().map_values(
            |l: Seq<char>| strip_cr(l),
        ) + y.drop_last().map_values(|l: Seq<char>| strip_cr(l)));
        assert(lines(a) =~= x.drop_last().map_values(|l: Seq<char>| strip_cr(l)));
    }
}

/// Plain lines, each followed by a line feed, then more text: the lines, then
/// those of the rest.
pub proof fn lemma_lines_nl_prefix(h: Seq<Seq<char>>, r: Seq<char>)
    requires
        plain_lines(h),
    ensures
        lines(lines_text_nl(h) + r) == h + lines(r),
    decreases h.len(),
{
    if h.len() == 0 {
        assert(lines_text_nl(h) + r =~= r);
        assert(h + lines(r) =~= lines(r));
    } else {
        let t = h.drop_first();
        assert(plain_lines(t)) by {
            assert forall|i: int| 0 <= i < t.len() implies lacks(#[trigger] t[i], '\n') && !(t[i].len() > 0
                && t[i].last() == '\r') by {
                assert(t[i] == h[i + 1]);
            }
        }
        lemma_lines_nl_prefix(t, r);
        assert(lines_text_nl(h) + r =~= h[0] + seq!['\n'] + (lines_text_nl(t) + r));
        assert(lacks(h[0], '\n'));
        lemma_lines_cons(h[0], lines_text_nl(t) + r);
        assert(seq![h[0]] + (t + lines(r)) =~= h + lines(r));
    }
}

/// A line feed after text that ends in a character other than whitespace
/// adds no line.
pub proof fn lemma_lines_line_feed_end(z: Seq<char>)
    requires
        z.len() > 0,
        !char_is_whitespace(z.last()),
    ensures
        lines(z + seq!['\n']) == lines(z),
{
    let nl = seq!['\n'];
    let e = Seq::<char>::empty();
    lemma_split_lines(z);
    let x = split(z, nl);
    assert(lacks(x[x.len() - 1], '\n'));
    lemma_split_concat(z, nl, nl);
    lemma_lacks_ends_before(e, nl, 0);
    lemma_split_head(e, nl, e);
    assert(e + nl + e =~= nl);
    lemma_lacks_no_occurrence(e, nl, 0);
    lemma_split_whole(e, nl);
    assert(split(nl, nl) =~= seq![e, e]);
    let y = split(z + nl, nl);
    assert(x.last() + e =~= x.last());
    assert(y =~= x + seq![e]);
    assert(y.drop_last() =~= x);
    lemma_split_last_line(z);
    assert(x.last().last() != '\r');
    assert(x =~= x.drop_last().push(x.last()));
    assert(x.map_values(|l: Seq<char>| strip_cr(l)) =~= x.drop_last().map_values(|l: Seq<char>| strip_cr(l)) + seq![
        x.last(),
    ]);
}

/// The lines of a single line feed, and of two.
pub proof fn lemma_lines_of_line_feeds()
    ensures
        lines(seq!['\n']) == seq![Seq::<char>::empty()],
        lines(seq!['\n', '\n']) == seq![Seq::<char>::empty(), Seq::<char>::empty()],
{
    let nl = seq!['\n'];
    let e = Seq::<char>::empty();
    lemma_lacks_no_occurrence(e, nl, 0);
    lemma_split_whole(e, nl);
    assert(split(e, nl).drop_last() =~= Seq::<Seq<char>>::empty());
    assert(lines(e) =~= Seq::<Seq<char>>::empty());
    lemma_lines_cons(e, e);
    assert(e + nl + e =~= nl);
    lemma_lines_cons(e, nl);
    assert(e + nl + nl =~= seq!['\n', '\n']);
}

} // verus!
