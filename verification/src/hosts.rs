//! The hosts-table editor: whether the table redirects the target domain, and
//! the two edits that switch the redirection on and off.
//!
//! The table is the text of the static name-resolution file. Every function
//! here takes that text and returns a value; reading and writing the file is
//! the caller's part.

use crate::hosts_laws::{lemma_add_redirects, lemma_remove_clears};
use crate::lines::{join_lines, line_spans, lines, spans_are_lines};
use crate::text::{
    chars_equal, contains, contains_chars, push_chars, to_chars, trim, trim_end, trim_end_len,
    trimmed,
};
use vstd::prelude::*;
use vstd::slice::slice_subrange;
use vstd::string::StringExecFns;

verus! {

/// Where the hosts table lies on Windows.
pub const HOSTS_PATH_WINDOWS: &'static str = "C:\\Windows\\System32\\drivers\\etc\\hosts";

/// Where the hosts table lies on every other system.
pub const HOSTS_PATH_UNIX: &'static str = "/etc/hosts";

/// The hostname whose presence in the hosts table means that redirection is
/// active.
pub const TARGET_DOMAIN: &'static str = "server.self-serve.windsurf.com";

/// The loopback address and the blank that precede the hostname in the
/// canonical redirect line.
pub const LOOPBACK_PREFIX: &'static str = "127.0.0.1 ";

/// The canonical redirect line: the loopback address, one blank, the target
/// domain.
pub open spec fn redirect_line() -> Seq<char> {
    LOOPBACK_PREFIX@ + TARGET_DOMAIN@
}

/// Whether `line` mentions the target domain anywhere, commented out or not.
pub open spec fn mentions_domain(line: Seq<char>) -> bool {
    contains(line, TARGET_DOMAIN@)
}

/// Whether `line` is a comment: its first character after leading whitespace
/// is `#`.
pub open spec fn is_comment(line: Seq<char>) -> bool {
    trim(line).len() > 0 && trim(line)[0] == '#'
}

/// Whether `line` is no comment and mentions the target domain.
pub open spec fn is_active_mention(line: Seq<char>) -> bool {
    !is_comment(line) && contains(trim(line), TARGET_DOMAIN@)
}

/// Whether `line`, trimmed, is exactly the canonical redirect line.
pub open spec fn is_redirect_line(line: Seq<char>) -> bool {
    trim(line) == redirect_line()
}

/// Whether some line of `table` that is no comment mentions the target
/// domain.
pub open spec fn redirects(table: Seq<char>) -> bool {
    exists|i: int| 0 <= i < lines(table).len() && is_active_mention(#[trigger] lines(table)[i])
}

/// Whether some line of `table` is the canonical redirect line.
pub open spec fn has_canonical_line(table: Seq<char>) -> bool {
    exists|i: int| 0 <= i < lines(table).len() && is_redirect_line(#[trigger] lines(table)[i])
}

/// `table` with the canonical redirect line appended after its last
/// non-whitespace character, unless it holds that line already.
pub open spec fn with_redirect(table: Seq<char>) -> Seq<char> {
    if has_canonical_line(table) {
        table
    } else {
        trim_end(table) + seq!['\n'] + redirect_line() + seq!['\n']
    }
}

/// The predicate that holds of the lines which do not mention the target
/// domain.
pub open spec fn is_unrelated() -> spec_fn(Seq<char>) -> bool {
    |line: Seq<char>| !mentions_domain(line)
}

/// The lines of `table` that do not mention the target domain, in order.
pub open spec fn kept_lines(table: Seq<char>) -> Seq<Seq<char>> {
    lines(table).filter(is_unrelated())
}

/// `table` without the lines that mention the target domain: the other lines
/// joined by line feeds, and one line feed at the end.
pub open spec fn without_redirect(table: Seq<char>) -> Seq<char> {
    join_lines(kept_lines(table)) + seq!['\n']
}

/// Whether the hosts table `table` redirects the target domain: some line
/// that is not commented out mentions it.
pub fn has_redirect_entry(table: &str) -> (found: bool)
    ensures
        found == redirects(table@),
{
    let text = to_chars(table);
    let domain = to_chars(TARGET_DOMAIN);
    let spans = line_spans(text.as_slice());
    let mut i: usize = 0;
    while i < spans.len()
        invariant
            i <= spans.len(),
            spans_are_lines(text@, spans@),
            text@ == table@,
            domain@ == TARGET_DOMAIN@,
            forall|j: int| 0 <= j < i ==> !is_active_mention(#[trigger] lines(table@)[j]),
        decreases spans.len() - i,
    {
        let span = spans[i];
        let line = trimmed(slice_subrange(text.as_slice(), span.0, span.1));
        let commented = line.len() > 0 && line[0] == '#';
        if !commented && contains_chars(line, domain.as_slice()) {
            assert(is_active_mention(lines(table@)[i as int]));
            return true;
        }
        i = i + 1;
    }
    false
}

/// Whether the hosts table `table` holds the canonical redirect line: some
/// line that, trimmed, is exactly the loopback address, one blank and the
/// target domain.
pub fn has_exact_redirect_line(table: &str) -> (found: bool)
    ensures
        found == has_canonical_line(table@),
{
    let text = to_chars(table);
    let mut entry = to_chars(LOOPBACK_PREFIX);
    let mut domain = to_chars(TARGET_DOMAIN);
    entry.append(&mut domain);
    let spans = line_spans(text.as_slice());
    let mut i: usize = 0;
    while i < spans.len()
        invariant
            i <= spans.len(),
            spans_are_lines(text@, spans@),
            text@ == table@,
            entry@ == redirect_line(),
            forall|j: int| 0 <= j < i ==> !is_redirect_line(#[trigger] lines(table@)[j]),
        decreases spans.len() - i,
    {
        let span = spans[i];
        let line = trimmed(slice_subrange(text.as_slice(), span.0, span.1));
        if chars_equal(line, entry.as_slice()) {
            assert(is_redirect_line(lines(table@)[i as int]));
            return true;
        }
        i = i + 1;
    }
    false
}

/// Switches redirection on: returns `table` with the canonical redirect line
/// appended, or `table` itself where it holds that line already.
///
/// Before the line is appended the trailing whitespace of `table` is cut off,
/// so that the result ends in exactly one line feed; what precedes that
/// whitespace is kept character for character.
pub fn add_redirect(table: &str) -> (updated: String)
    ensures
        updated@ == with_redirect(table@),
        has_canonical_line(updated@),
        redirects(updated@),
{
    proof {
        lemma_add_redirects(table@);
    }
    if has_exact_redirect_line(table) {
        return String::from_str(table);
    }
    let text = to_chars(table);
    let keep = trim_end_len(text.as_slice());
    let mut updated = String::new();
    push_chars(&mut updated, slice_subrange(text.as_slice(), 0, keep));
    updated.push('\n');
    updated.append(LOOPBACK_PREFIX);
    updated.append(TARGET_DOMAIN);
    updated.push('\n');
    assert(updated@ =~= trim_end(table@) + seq!['\n'] + redirect_line() + seq!['\n']);
    updated
}

/// Switches redirection off: returns `table` without the lines that mention
/// the target domain, commented out or not.
///
/// The lines that stay are joined by line feeds in their order and closed
/// with one line feed; their own line terminators are not kept.
pub fn remove_redirect(table: &str) -> (updated: String)
    ensures
        updated@ == without_redirect(table@),
        !redirects(updated@),
{
    proof {
        lemma_remove_clears(table@);
    }
    let text = to_chars(table);
    let domain = to_chars(TARGET_DOMAIN);
    let spans = line_spans(text.as_slice());
    let mut updated = String::new();
    let mut any_kept = false;
    let mut i: usize = 0;
    assert(lines(table@).take(0) =~= Seq::<Seq<char>>::empty());
    while i < spans.len()
        invariant
            i <= spans.len(),
            spans_are_lines(text@, spans@),
            text@ == table@,
            domain@ == TARGET_DOMAIN@,
            any_kept == (lines(table@).take(i as int).filter(is_unrelated()).len() > 0),
            updated@ == join_lines(lines(table@).take(i as int).filter(is_unrelated())),
        decreases spans.len() - i,
    {
        let span = spans[i];
        let line = slice_subrange(text.as_slice(), span.0, span.1);
        proof {
            let before = lines(table@).take(i as int);
            assert(lines(table@).take(i + 1) =~= before.push(line@));
            before.lemma_filter_push(line@, is_unrelated());
            if !mentions_domain(line@) {
                assert(before.filter(is_unrelated()).push(line@).drop_last() =~= before.filter(
                    is_unrelated(),
                ));
            }
        }
        if !contains_chars(line, domain.as_slice()) {
            if any_kept {
                updated.push('\n');
            }
            push_chars(&mut updated, line);
            any_kept = true;
        }
        i = i + 1;
    }
    assert(lines(table@).take(i as int) =~= lines(table@));
    updated.push('\n');
    updated
}

} // verus!
