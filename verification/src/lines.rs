//! Splitting text into lines and joining lines into text.
//!
//! A line ends at a line feed, or at a carriage return directly followed by a
//! line feed; the terminator belongs to no line, and the last line needs none.

use vstd::prelude::*;

verus! {

/// The offset of the first line feed in `s`, or `s.len()` where it holds none.
pub open spec fn first_newline(s: Seq<char>) -> nat
    decreases s.len(),
{
    if s.len() == 0 || s[0] == '\n' {
        0
    } else {
        1 + first_newline(s.drop_first())
    }
}

/// `s` without one trailing carriage return, if it ends in one.
pub open spec fn strip_cr(s: Seq<char>) -> Seq<char> {
    if s.len() > 0 && s.last() == '\r' {
        s.drop_last()
    } else {
        s
    }
}

/// The lines of `s`, in order.
pub open spec fn lines(s: Seq<char>) -> Seq<Seq<char>>
    decreases s.len(),
{
    if s.len() == 0 {
        Seq::empty()
    } else {
        let n = first_newline(s);
        if n >= s.len() {
            seq![s]
        } else {
            seq![strip_cr(s.take(n as int))] + lines(s.skip(n as int + 1))
        }
    }
}

/// The lines `ls` with one line feed between each two neighbours.
pub open spec fn join_lines(ls: Seq<Seq<char>>) -> Seq<char>
    decreases ls.len(),
{
    if ls.len() == 0 {
        Seq::empty()
    } else if ls.len() == 1 {
        ls[0]
    } else {
        join_lines(ls.drop_last()) + seq!['\n'] + ls.last()
    }
}

/// Whether `s` holds no line feed.
pub open spec fn is_single_line(s: Seq<char>) -> bool {
    forall|i: int| 0 <= i < s.len() ==> s[i] != '\n'
}

/// `first_newline(s)` lies within `s`, no line feed stands before it, and a
/// line feed stands at it unless it is the end of `s`.
pub proof fn lemma_first_newline(s: Seq<char>)
    ensures
        first_newline(s) <= s.len(),
        forall|j: int| 0 <= j < first_newline(s) ==> s[j] != '\n',
        first_newline(s) < s.len() ==> s[first_newline(s) as int] == '\n',
    decreases s.len(),
{
    if s.len() == 0 || s[0] == '\n' {
    } else {
        let t = s.drop_first();
        lemma_first_newline(t);
        assert forall|j: int| 0 <= j < first_newline(s) implies s[j] != '\n' by {
            if j > 0 {
                assert(s[j] == t[j - 1]);
            }
        }
        if first_newline(s) < s.len() {
            assert(s[first_newline(s) as int] == t[first_newline(t) as int]);
        }
    }
}

/// An offset that no line feed precedes, and that is the end of `s` or holds a
/// line feed, is `first_newline(s)`.
pub proof fn lemma_first_newline_is(s: Seq<char>, k: int)
    requires
        0 <= k <= s.len(),
        forall|j: int| 0 <= j < k ==> s[j] != '\n',
        k < s.len() ==> s[k] == '\n',
    ensures
        first_newline(s) == k,
    decreases s.len(),
{
    if s.len() == 0 || s[0] == '\n' {
        if k > 0 {
            assert(s[0] != '\n');
        }
    } else {
        let t = s.drop_first();
        assert(k > 0);
        assert forall|j: int| 0 <= j < k - 1 implies t[j] != '\n' by {
            assert(t[j] == s[j + 1]);
        }
        lemma_first_newline_is(t, k - 1);
    }
}

/// Text splits into lines independently on either side of a line feed.
pub proof fn lemma_lines_split(s: Seq<char>, i: int)
    requires
        0 <= i < s.len(),
        s[i] == '\n',
    ensures
        lines(s) == lines(s.take(i + 1)) + lines(s.skip(i + 1)),
    decreases s.len(),
{
    let n = first_newline(s) as int;
    lemma_first_newline(s);
    assert(n <= i) by {
        if n > i {
            assert(s[i] != '\n');
        }
    }
    let head = s.take(i + 1);
    assert(first_newline(head) == n) by {
        assert forall|j: int| 0 <= j < n implies head[j] != '\n' by {
            assert(head[j] == s[j]);
        }
        assert(head[n] == s[n]);
        lemma_first_newline_is(head, n);
    }
    assert(head.take(n) == s.take(n));
    if n == i {
        assert(head.skip(n + 1) == Seq::<char>::empty());
        assert(lines(head.skip(n + 1)) == Seq::<Seq<char>>::empty());
        assert(lines(head) =~= seq![strip_cr(s.take(n))]);
    } else {
        let rest = s.skip(n + 1);
        assert(rest[i - n - 1] == s[i]);
        lemma_lines_split(rest, i - n - 1);
        assert(rest.take(i - n) == head.skip(n + 1));
        assert(rest.skip(i - n) == s.skip(i + 1));
        assert(lines(head) == seq![strip_cr(s.take(n))] + lines(rest.take(i - n)));
    }
}

/// One line followed by a line feed is that line alone, less one trailing
/// carriage return.
pub proof fn lemma_lines_of_terminated_line(l: Seq<char>)
    requires
        is_single_line(l),
    ensures
        lines(l + seq!['\n']) == seq![strip_cr(l)],
{
    let s = l + seq!['\n'];
    assert forall|j: int| 0 <= j < l.len() implies s[j] != '\n' by {
        assert(s[j] == l[j]);
    }
    lemma_first_newline_is(s, l.len() as int);
    assert(s.take(l.len() as int) == l);
    assert(s.skip(l.len() as int + 1) == Seq::<char>::empty());
    assert(lines(s.skip(l.len() as int + 1)) == Seq::<Seq<char>>::empty());
    assert(lines(s) =~= seq![strip_cr(l)]);
}

/// The lines that come back when `ls` is joined, closed with a line feed and
/// split again: each line of `ls` less one trailing carriage return.
pub proof fn lemma_lines_of_joined(ls: Seq<Seq<char>>)
    requires
        ls.len() > 0,
        forall|i: int| 0 <= i < ls.len() ==> is_single_line(#[trigger] ls[i]),
    ensures
        lines(join_lines(ls) + seq!['\n']) == ls.map_values(|l: Seq<char>| strip_cr(l)),
    decreases ls.len(),
{
    let strip = |l: Seq<char>| strip_cr(l);
    lemma_lines_of_terminated_line(ls.last());
    if ls.len() == 1 {
        assert(ls.map_values(strip) =~= seq![strip_cr(ls[0])]);
    } else {
        let front = ls.drop_last();
        assert forall|i: int| 0 <= i < front.len() implies is_single_line(#[trigger] front[i]) by {
            assert(front[i] == ls[i]);
        }
        lemma_lines_of_joined(front);
        let head = join_lines(front) + seq!['\n'];
        let s = join_lines(ls) + seq!['\n'];
        assert(s =~= head + (ls.last() + seq!['\n']));
        let i = join_lines(front).len() as int;
        assert(s[i] == '\n');
        lemma_lines_split(s, i);
        assert(s.take(i + 1) =~= head);
        assert(s.skip(i + 1) =~= ls.last() + seq!['\n']);
        assert(ls.map_values(strip) =~= front.map_values(strip) + seq![strip_cr(ls.last())]);
    }
}

/// The text that the pair `span` of offsets cuts out of `text`.
pub open spec fn span_text(text: Seq<char>, span: (usize, usize)) -> Seq<char> {
    text.subrange(span.0 as int, span.1 as int)
}

/// Whether `spans` are the lines of `text`, one pair of offsets for each line
/// and in the same order.
pub open spec fn spans_are_lines(text: Seq<char>, spans: Seq<(usize, usize)>) -> bool {
    &&& spans.len() == lines(text).len()
    &&& forall|i: int|
        0 <= i < spans.len() ==> {
            &&& (#[trigger] spans[i]).0 <= spans[i].1 <= text.len()
            &&& span_text(text, spans[i]) == lines(text)[i]
        }
}

/// The offset of the first line feed of `text` at or after `from`, or the
/// length of `text` where none follows.
pub fn newline_from(text: &[char], from: usize) -> (at: usize)
    requires
        from <= text.len(),
    ensures
        from <= at <= text.len(),
        at - from == first_newline(text@.skip(from as int)),
{
    let mut at: usize = from;
    while at < text.len() && text[at] != '\n'
        invariant
            from <= at <= text.len(),
            forall|j: int| from <= j < at ==> text@[j] != '\n',
        decreases text.len() - at,
    {
        at = at + 1;
    }
    proof {
        let rest = text@.skip(from as int);
        assert forall|j: int| 0 <= j < at - from implies rest[j] != '\n' by {
            assert(rest[j] == text@[from + j]);
        }
        lemma_first_newline_is(rest, at - from);
    }
    at
}

/// Splits `text` into its lines, each given by the offsets of its first
/// character and of the end of its content.
pub fn line_spans(text: &[char]) -> (spans: Vec<(usize, usize)>)
    ensures
        spans_are_lines(text@, spans@),
{
    let mut spans: Vec<(usize, usize)> = Vec::new();
    let mut pos: usize = 0;
    let ghost mut seen: Seq<Seq<char>> = Seq::empty();
    assert(text@.skip(0) == text@);
    while pos < text.len()
        invariant
            pos <= text.len(),
            lines(text@) == seen + lines(text@.skip(pos as int)),
            seen.len() == spans.len(),
            forall|i: int|
                0 <= i < spans.len() ==> {
                    &&& (#[trigger] spans[i]).0 <= spans[i].1 <= text.len()
                    &&& span_text(text@, spans[i]) == seen[i]
                },
        decreases text.len() - pos,
    {
        let ghost rest = text@.skip(pos as int);
        let at = newline_from(text, pos);
        let end: usize = if at < text.len() && at > pos && text[at - 1] == '\r' {
            at - 1
        } else {
            at
        };
        let next: usize = if at < text.len() {
            at + 1
        } else {
            at
        };
        proof {
            let n = at - pos;
            let line = text@.subrange(pos as int, end as int);
            assert(rest.take(n) == text@.subrange(pos as int, at as int));
            if at < text.len() {
                assert(rest.skip(n + 1) == text@.skip(next as int));
                if n > 0 {
                    assert(rest.take(n).last() == text@[at - 1]);
                }
                assert(strip_cr(rest.take(n)) == line);
                assert(lines(rest) == seq![line] + lines(text@.skip(next as int)));
            } else {
                assert(rest == line);
                assert(lines(text@.skip(next as int)) == Seq::<Seq<char>>::empty());
                assert(lines(rest) =~= seq![line] + lines(text@.skip(next as int)));
            }
            assert(lines(text@) =~= seen.push(line) + lines(text@.skip(next as int)));
            seen = seen.push(line);
        }
        spans.push((pos, end));
        pos = next;
    }
    assert(lines(text@) =~= seen);
    spans
}

} // verus!
