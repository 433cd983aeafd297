//! What holds of the hosts-table edits, whatever the table: adding is
//! idempotent and leaves the table redirected, removing leaves it not
//! redirected, and removing after adding keeps the unrelated lines.

use crate::hosts::{
    has_canonical_line, is_active_mention, is_comment, is_redirect_line, is_unrelated,
    kept_lines, mentions_domain, redirect_line, redirects, with_redirect, without_redirect,
    LOOPBACK_PREFIX, TARGET_DOMAIN,
};
use crate::lines::{
    is_single_line, join_lines, lemma_first_newline, lemma_first_newline_is,
    lemma_lines_of_joined, lemma_lines_of_terminated_line, lemma_lines_split, lines, strip_cr,
    first_newline,
};
use crate::text::{contains, is_whitespace, occurs_at, trim, trim_end, trim_start};
use vstd::prelude::*;

verus! {

/// The shape of the canonical redirect line: forty characters on one line,
/// the first and the last of which are no whitespace, with the target domain
/// from offset ten on.
pub proof fn lemma_redirect_line_shape()
    ensures
        TARGET_DOMAIN@.len() == 30,
        redirect_line().len() == 40,
        is_single_line(redirect_line()),
        is_single_line(TARGET_DOMAIN@),
        redirect_line()[0] == '1',
        redirect_line()[39] == 'm',
        trim(redirect_line()) == redirect_line(),
        occurs_at(redirect_line(), TARGET_DOMAIN@, 10),
{
    reveal_strlit("server.self-serve.windsurf.com");
    reveal_strlit("127.0.0.1 ");
    let e = redirect_line();
    assert(e.len() == 40);
    assert(e[39] == TARGET_DOMAIN@[29]);
    assert(e[0] == LOOPBACK_PREFIX@[0]);
    assert(is_single_line(TARGET_DOMAIN@));
    assert forall|i: int| 0 <= i < e.len() implies e[i] != '\n' by {
        if i < 10 {
            assert(e[i] == LOOPBACK_PREFIX@[i]);
        } else {
            assert(e[i] == TARGET_DOMAIN@[i - 10]);
        }
    }
    assert(trim_end(e) == e);
    assert(trim_start(e) == e);
    assert(e.subrange(10, 40) =~= TARGET_DOMAIN@);
}

/// A text found in a part of `whole` is found in `whole`.
pub proof fn lemma_contains_in_part(whole: Seq<char>, from: int, to: int, needle: Seq<char>)
    requires
        0 <= from <= to <= whole.len(),
        contains(whole.subrange(from, to), needle),
    ensures
        contains(whole, needle),
{
    let part = whole.subrange(from, to);
    let i = choose|i: int| occurs_at(part, needle, i);
    assert(whole.subrange(from + i, from + i + needle.len()) =~= part.subrange(
        i,
        i + needle.len(),
    ));
    assert(occurs_at(whole, needle, from + i));
}

/// Cutting trailing whitespace leaves a prefix; its length is returned.
pub proof fn lemma_trim_end_is_prefix(s: Seq<char>) -> (k: int)
    ensures
        0 <= k <= s.len(),
        trim_end(s) == s.take(k),
        k > 0 ==> !is_whitespace(s[k - 1]),
    decreases s.len(),
{
    if s.len() > 0 && is_whitespace(s.last()) {
        let k = lemma_trim_end_is_prefix(s.drop_last());
        assert(s.drop_last().take(k) =~= s.take(k));
        k
    } else {
        assert(s.take(s.len() as int) =~= s);
        s.len() as int
    }
}

/// Cutting leading whitespace leaves a suffix; the number of characters cut
/// is returned.
pub proof fn lemma_trim_start_is_suffix(s: Seq<char>) -> (k: int)
    ensures
        0 <= k <= s.len(),
        trim_start(s) == s.skip(k),
    decreases s.len(),
{
    if s.len() > 0 && is_whitespace(s.first()) {
        let k = lemma_trim_start_is_suffix(s.drop_first());
        assert(s.drop_first().skip(k) =~= s.skip(k + 1));
        k + 1
    } else {
        assert(s.skip(0) =~= s);
        0
    }
}

/// A text found in a trimmed line is found in the line.
pub proof fn lemma_contains_in_trimmed(line: Seq<char>, needle: Seq<char>)
    requires
        contains(trim(line), needle),
    ensures
        contains(line, needle),
{
    let e = lemma_trim_end_is_prefix(line);
    let b = lemma_trim_start_is_suffix(line.take(e));
    assert(line.take(e).skip(b) =~= line.subrange(b, e));
    lemma_contains_in_part(line, b, e, needle);
}

/// No line of a text holds a line feed.
pub proof fn lemma_lines_are_single(s: Seq<char>)
    ensures
        forall|i: int| 0 <= i < lines(s).len() ==> is_single_line(#[trigger] lines(s)[i]),
    decreases s.len(),
{
    if s.len() > 0 {
        let n = first_newline(s) as int;
        lemma_first_newline(s);
        if n < s.len() {
            let rest = s.skip(n + 1);
            lemma_lines_are_single(rest);
            let first = strip_cr(s.take(n));
            assert(is_single_line(first));
            assert forall|i: int| 0 <= i < lines(s).len() implies is_single_line(
                #[trigger] lines(s)[i],
            ) by {
                if i > 0 {
                    assert(lines(s)[i] == lines(rest)[i - 1]);
                }
            }
        }
    }
}

/// A text that ends in neither a line feed nor a carriage return has the
/// same lines with a line feed after it as without.
pub proof fn lemma_lines_ignore_final_newline(s: Seq<char>)
    requires
        s.len() > 0,
        s.last() != '\n',
        s.last() != '\r',
    ensures
        lines(s + seq!['\n']) == lines(s),
    decreases s.len(),
{
    let n = first_newline(s) as int;
    lemma_first_newline(s);
    let t = s + seq!['\n'];
    assert forall|j: int| 0 <= j < n implies t[j] != '\n' by {
        assert(t[j] == s[j]);
    }
    assert(t[n] == '\n') by {
        if n < s.len() {
            assert(t[n] == s[n]);
        }
    }
    lemma_first_newline_is(t, n);
    assert(t.take(n) =~= s.take(n));
    if n == s.len() {
        assert(t.skip(n + 1) =~= Seq::<char>::empty());
        assert(lines(t.skip(n + 1)) =~= Seq::<Seq<char>>::empty());
        assert(strip_cr(s.take(n)) == s);
        assert(lines(t) =~= seq![s]);
    } else {
        let rest = s.skip(n + 1);
        assert(n < s.len() - 1);
        assert(rest.last() == s.last());
        lemma_lines_ignore_final_newline(rest);
        assert(t.skip(n + 1) =~= rest + seq!['\n']);
    }
}

/// Filtering keeps a sequence whose every element passes.
pub proof fn lemma_filter_keeps_all(ls: Seq<Seq<char>>, pred: spec_fn(Seq<char>) -> bool)
    requires
        forall|i: int| 0 <= i < ls.len() ==> pred(#[trigger] ls[i]),
    ensures
        ls.filter(pred) == ls,
    decreases ls.len(),
{
    if ls.len() == 0 {
        ls.lemma_filter_len(pred);
        assert(ls.filter(pred) =~= ls);
    } else {
        let front = ls.drop_last();
        assert forall|i: int| 0 <= i < front.len() implies pred(#[trigger] front[i]) by {
            assert(front[i] == ls[i]);
        }
        lemma_filter_keeps_all(front, pred);
        front.lemma_filter_push(ls.last(), pred);
        assert(front.push(ls.last()) =~= ls);
    }
}

/// The lines of a table to which the canonical redirect line was appended:
/// those of the table cut after its last non-whitespace character and closed
/// by a line feed, then the redirect line.
pub proof fn lemma_lines_after_append(table: Seq<char>)
    requires
        !has_canonical_line(table),
    ensures
        lines(with_redirect(table)) == lines(trim_end(table) + seq!['\n']).push(redirect_line()),
{
    lemma_redirect_line_shape();
    let head = trim_end(table) + seq!['\n'];
    let tail = redirect_line() + seq!['\n'];
    let u = with_redirect(table);
    assert(u =~= head + tail);
    let i = trim_end(table).len() as int;
    assert(u[i] == '\n');
    lemma_lines_split(u, i);
    assert(u.take(i + 1) =~= head);
    assert(u.skip(i + 1) =~= tail);
    lemma_lines_of_terminated_line(redirect_line());
    assert(strip_cr(redirect_line()) == redirect_line());
    assert(lines(head) + seq![redirect_line()] =~= lines(head).push(redirect_line()));
}

/// After `add_redirect` the table holds the canonical redirect line and
/// counts as redirected.
pub proof fn lemma_add_redirects(table: Seq<char>)
    ensures
        has_canonical_line(with_redirect(table)),
        redirects(with_redirect(table)),
{
    lemma_redirect_line_shape();
    let u = with_redirect(table);
    if !has_canonical_line(table) {
        lemma_lines_after_append(table);
        let at = lines(trim_end(table) + seq!['\n']).len() as int;
        assert(lines(u)[at] == redirect_line());
        assert(is_redirect_line(lines(u)[at]));
    }
    let i = choose|i: int| 0 <= i < lines(u).len() && is_redirect_line(#[trigger] lines(u)[i]);
    assert(!is_comment(lines(u)[i]));
    assert(is_active_mention(lines(u)[i]));
}

/// `add_redirect` is idempotent: applied to its own result it changes
/// nothing.
pub proof fn lemma_add_is_idempotent(table: Seq<char>)
    ensures
        with_redirect(with_redirect(table)) == with_redirect(table),
{
    lemma_add_redirects(table);
}

/// After `remove_redirect` the table does not count as redirected.
pub proof fn lemma_remove_clears(table: Seq<char>)
    ensures
        !redirects(without_redirect(table)),
        !has_canonical_line(without_redirect(table)),
{
    lemma_redirect_line_shape();
    let kept = kept_lines(table);
    let u = without_redirect(table);
    assert forall|i: int| 0 <= i < lines(u).len() implies !mentions_domain(
        #[trigger] lines(u)[i],
    ) by {
        if kept.len() == 0 {
            lemma_lines_of_terminated_line(Seq::<char>::empty());
            assert(u =~= Seq::<char>::empty() + seq!['\n']);
            if mentions_domain(lines(u)[i]) {
                let at = choose|at: int| occurs_at(lines(u)[i], TARGET_DOMAIN@, at);
                assert(false);
            }
        } else {
            lemma_kept_lines_are_single(table);
            lemma_lines_of_joined(kept);
            lines(table).lemma_filter_pred(is_unrelated(), i);
            assert(!mentions_domain(kept[i]));
            if mentions_domain(lines(u)[i]) {
                assert(lines(u)[i] == strip_cr(kept[i]));
                if strip_cr(kept[i]) != kept[i] {
                    assert(kept[i].drop_last() =~= kept[i].subrange(0, kept[i].len() - 1));
                    lemma_contains_in_part(kept[i], 0, kept[i].len() - 1, TARGET_DOMAIN@);
                }
                assert(false);
            }
        }
    }
    assert forall|i: int| 0 <= i < lines(u).len() implies !is_active_mention(
        #[trigger] lines(u)[i],
    ) by {
        if is_active_mention(lines(u)[i]) {
            lemma_contains_in_trimmed(lines(u)[i], TARGET_DOMAIN@);
        }
    }
    assert forall|i: int| 0 <= i < lines(u).len() implies !is_redirect_line(
        #[trigger] lines(u)[i],
    ) by {
        if is_redirect_line(lines(u)[i]) {
            assert(contains(trim(lines(u)[i]), TARGET_DOMAIN@));
            lemma_contains_in_trimmed(lines(u)[i], TARGET_DOMAIN@);
        }
    }
}

/// No line that `remove_redirect` keeps holds a line feed.
pub proof fn lemma_kept_lines_are_single(table: Seq<char>)
    ensures
        forall|i: int|
            0 <= i < kept_lines(table).len() ==> is_single_line(#[trigger] kept_lines(table)[i]),
{
    lemma_lines_are_single(table);
    let all = lines(table);
    let kept = kept_lines(table);
    assert forall|i: int| 0 <= i < kept.len() implies is_single_line(#[trigger] kept[i]) by {
        all.lemma_filter_contains_rev(is_unrelated(), kept[i]);
        assert(kept.contains(kept[i]));
        assert(all.contains(kept[i]));
        let j = choose|j: int| 0 <= j < all.len() && all[j] == kept[i];
        assert(is_single_line(all[j]));
    }
}

/// Whether `line` ends in a carriage return.
pub open spec fn ends_in_cr(line: Seq<char>) -> bool {
    line.len() > 0 && line.last() == '\r'
}

/// `remove_redirect` is idempotent on every table of which no line that stays
/// ends in a carriage return: applied to its own result it changes nothing.
///
/// A line that stays and ends in a carriage return is written back followed
/// by a line feed; read again, the two together end the line, and the
/// carriage return is gone.
pub proof fn lemma_remove_is_idempotent(table: Seq<char>)
    requires
        forall|i: int|
            0 <= i < kept_lines(table).len() ==> !ends_in_cr(#[trigger] kept_lines(table)[i]),
    ensures
        without_redirect(without_redirect(table)) == without_redirect(table),
{
    lemma_redirect_line_shape();
    let kept = kept_lines(table);
    let u = without_redirect(table);
    if kept.len() == 0 {
        let blank = Seq::<char>::empty();
        lemma_lines_of_terminated_line(blank);
        assert(u =~= blank + seq!['\n']);
        assert(lines(u) == seq![blank]);
        assert(!mentions_domain(blank)) by {
            if mentions_domain(blank) {
                let at = choose|at: int| occurs_at(blank, TARGET_DOMAIN@, at);
                assert(false);
            }
        }
        lemma_filter_keeps_all(lines(u), is_unrelated());
        assert(join_lines(seq![blank]) == blank);
        assert(without_redirect(u) =~= u);
    } else {
        lemma_kept_lines_are_single(table);
        lemma_lines_of_joined(kept);
        assert(lines(u) =~= kept);
        assert forall|i: int| 0 <= i < kept.len() implies is_unrelated()(#[trigger] kept[i]) by {
            lines(table).lemma_filter_pred(is_unrelated(), i);
        }
        lemma_filter_keeps_all(kept, is_unrelated());
    }
}

/// The table as `add_redirect` leaves it, less the line that it appends: the
/// table itself where it held the canonical line already, else the table cut
/// after its last non-whitespace character and closed by a line feed.
pub open spec fn settled(table: Seq<char>) -> Seq<char> {
    if has_canonical_line(table) {
        table
    } else {
        trim_end(table) + seq!['\n']
    }
}

/// `remove_redirect` after `add_redirect` drops the appended line with every
/// other line that mentions the domain, and keeps the other lines of the
/// settled table unchanged and in their order.
pub proof fn lemma_remove_after_add(table: Seq<char>)
    ensures
        kept_lines(with_redirect(table)) == kept_lines(settled(table)),
        without_redirect(with_redirect(table)) == without_redirect(settled(table)),
{
    if !has_canonical_line(table) {
        lemma_redirect_line_shape();
        lemma_lines_after_append(table);
        assert(mentions_domain(redirect_line()));
        lines(settled(table)).lemma_filter_push(redirect_line(), is_unrelated());
    }
}

/// Whether `table` ends right after the content of its last line, or after
/// the one line feed that closes it.
pub open spec fn ends_cleanly(table: Seq<char>) -> bool {
    ||| table == trim_end(table) + seq!['\n']
    ||| (table.len() > 0 && table == trim_end(table))
}

/// On a table that ends cleanly, `remove_redirect` after `add_redirect`
/// gives what `remove_redirect` alone gives: every line that does not mention
/// the domain stays, unchanged and in its place among the others.
///
/// Where whitespace follows the last line, `add_redirect` cuts it off before
/// it appends, so blank lines at the end of the table do not come back.
pub proof fn lemma_remove_after_add_on_clean_table(table: Seq<char>)
    requires
        ends_cleanly(table),
    ensures
        kept_lines(with_redirect(table)) == kept_lines(table),
        without_redirect(with_redirect(table)) == without_redirect(table),
{
    lemma_remove_after_add(table);
    if !has_canonical_line(table) && table != trim_end(table) + seq!['\n'] {
        let k = lemma_trim_end_is_prefix(table);
        assert(k == table.len());
        lemma_lines_ignore_final_newline(table);
    }
}

} // verus!
