//! The output line buffer: display lines of the child's output, bounded in
//! number, where a chunk that does not end in a newline leaves its last line
//! open for the next chunk to extend.

use crate::text::{join_with, lemma_split_on_nonempty, push_char, split_on};
use vstd::prelude::*;

verus! {

/// The most lines the buffer holds; older lines are dropped from the front.
pub const MAX_LINES: usize = 5000;

/// Whether a character is kept when a chunk is appended: all but the carriage
/// return.
pub open spec fn not_cr() -> spec_fn(char) -> bool {
    |c: char| c != '\r'
}

/// `s` without its carriage returns.
pub open spec fn without_cr(s: Seq<char>) -> Seq<char> {
    s.filter(not_cr())
}

/// `lines` continued by `pieces`: the first piece extends the last line, each
/// further piece is a line of its own. With no line to extend, the pieces are
/// the lines.
pub open spec fn extend_lines(lines: Seq<Seq<char>>, pieces: Seq<Seq<char>>) -> Seq<Seq<char>> {
    if lines.len() == 0 {
        pieces
    } else {
        lines.drop_last().push(lines.last() + pieces.first()) + pieces.skip(1)
    }
}

/// How many lines leave from the front so that at most `cap` stay.
pub open spec fn evicted_count(lines: Seq<Seq<char>>, cap: nat) -> nat {
    if lines.len() > cap {
        (lines.len() - cap) as nat
    } else {
        0
    }
}

/// The last `cap` lines of `lines`, or all of them if there are fewer.
pub open spec fn keep_last(lines: Seq<Seq<char>>, cap: nat) -> Seq<Seq<char>> {
    lines.skip(evicted_count(lines, cap) as int)
}

/// The buffer after `chunk` has been appended to `lines`: carriage returns
/// are dropped, the rest is cut at newlines and continues the last line, and
/// only the newest `MAX_LINES` lines stay.
pub open spec fn appended_lines(lines: Seq<Seq<char>>, chunk: Seq<char>) -> Seq<Seq<char>> {
    keep_last(extend_lines(lines, split_on(without_cr(chunk), '\n')), MAX_LINES as nat)
}

/// Number of characters in all of `lines` together, line breaks not counted.
pub open spec fn chars_in(lines: Seq<Seq<char>>) -> nat
    decreases lines.len(),
{
    if lines.len() == 0 {
        0
    } else {
        chars_in(lines.drop_last()) + lines.last().len()
    }
}

/// Length of the text that `lines` display: their characters and one line
/// break between each two neighbours.
pub open spec fn text_len(lines: Seq<Seq<char>>) -> nat {
    if lines.len() == 0 {
        0
    } else {
        (chars_in(lines) + lines.len() - 1) as nat
    }
}

/// Length of the text that leaves with the first `count` lines: their
/// characters and the line break that ended each of them.
pub open spec fn evicted_len(lines: Seq<Seq<char>>, count: nat) -> nat {
    chars_in(lines.take(count as int)) + count
}

/// The length of the text that lines display is the length of the lines
/// joined by line breaks.
pub proof fn lemma_text_len_is_joined_len(lines: Seq<Seq<char>>)
    ensures
        text_len(lines) == join_with(lines, '\n').len(),
    decreases lines.len(),
{
    if lines.len() == 1 {
        assert(chars_in(lines.drop_last()) == 0);
    } else if lines.len() > 1 {
        lemma_text_len_is_joined_len(lines.drop_last());
    }
}

/// The pieces of a text spell it: their characters and the separators between
/// them add up to its length.
pub proof fn lemma_split_on_text_len(s: Seq<char>, sep: char)
    ensures
        text_len(split_on(s, sep)) == s.len(),
    decreases s.len(),
{
    if s.len() == 0 {
        let one = seq![Seq::<char>::empty()];
        assert(chars_in(one.drop_last()) == 0);
    } else {
        let before = split_on(s.drop_last(), sep);
        lemma_split_on_nonempty(s.drop_last(), sep);
        lemma_split_on_text_len(s.drop_last(), sep);
        if s.last() == sep {
            assert(before.push(Seq::<char>::empty()).drop_last() =~= before);
        } else {
            let after = before.drop_last().push(before.last().push(s.last()));
            assert(after.drop_last() =~= before.drop_last());
        }
    }
}

/// What one more character does to the lines: a newline opens a new line,
/// any other character extends the last one.
proof fn lemma_extend_push(lines: Seq<Seq<char>>, text: Seq<char>, c: char)
    ensures
        extend_lines(lines, split_on(text, '\n')).len() >= 1,
        extend_lines(lines, split_on(text.push(c), '\n')) == ({
            let grown = extend_lines(lines, split_on(text, '\n'));
            if c == '\n' {
                grown.push(Seq::empty())
            } else {
                grown.drop_last().push(grown.last().push(c))
            }
        }),
{
    lemma_split_on_nonempty(text, '\n');
    assert(text.push(c).drop_last() =~= text);
}

/// What one more character does to the text that lines spell: it is
/// appended.
proof fn lemma_join_step(lines: Seq<Seq<char>>, c: char)
    requires
        lines.len() >= 1,
    ensures
        c == '\n' ==> join_with(lines.push(Seq::empty()), '\n') == join_with(lines, '\n').push(c),
        c != '\n' ==> join_with(lines.drop_last().push(lines.last().push(c)), '\n') == join_with(
            lines,
            '\n',
        ).push(c),
{
    if c == '\n' {
        let next = lines.push(Seq::empty());
        assert(next.drop_last() =~= lines);
    } else {
        let next = lines.drop_last().push(lines.last().push(c));
        if lines.len() > 1 {
            assert(next.drop_last() =~= lines.drop_last());
        }
    }
}

/// Continuing lines by the pieces of a text appends that text to the text
/// that the lines spell.
pub proof fn lemma_extend_appends(lines: Seq<Seq<char>>, text: Seq<char>)
    ensures
        join_with(extend_lines(lines, split_on(text, '\n')), '\n') == join_with(lines, '\n')
            + text,
    decreases text.len(),
{
    if text.len() == 0 {
        let pieces = split_on(text, '\n');
        if lines.len() > 0 {
            assert(extend_lines(lines, pieces) =~= lines);
        }
    } else {
        let head = text.drop_last();
        let c = text.last();
        lemma_extend_appends(lines, head);
        lemma_extend_push(lines, head, c);
        lemma_join_step(extend_lines(lines, split_on(head, '\n')), c);
        assert(head.push(c) =~= text);
    }
}

/// Continuing lines by one text and then by another is continuing them by
/// the two texts in a row.
pub proof fn lemma_extend_composes(lines: Seq<Seq<char>>, first: Seq<char>, second: Seq<char>)
    ensures
        extend_lines(extend_lines(lines, split_on(first, '\n')), split_on(second, '\n'))
            == extend_lines(lines, split_on(first + second, '\n')),
    decreases second.len(),
{
    let grown = extend_lines(lines, split_on(first, '\n'));
    lemma_split_on_nonempty(first, '\n');
    if second.len() > 0 {
        let head = second.drop_last();
        let c = second.last();
        lemma_extend_composes(lines, first, head);
        lemma_extend_push(grown, head, c);
        lemma_extend_push(lines, first + head, c);
        assert(head.push(c) =~= second);
    }
}

/// Evicting, continuing and evicting again leaves what continuing and
/// evicting once leaves.
proof fn lemma_keep_last_extend(lines: Seq<Seq<char>>, pieces: Seq<Seq<char>>, cap: nat)
    requires
        lines.len() >= 1,
        pieces.len() >= 1,
        cap >= 1,
    ensures
        keep_last(extend_lines(keep_last(lines, cap), pieces), cap) == keep_last(
            extend_lines(lines, pieces),
            cap,
        ),
{
}

/// Appending one chunk and then another leaves the buffer as appending the
/// two chunks in one piece does: output may be cut into chunks anywhere.
pub proof fn lemma_appends_compose(lines: Seq<Seq<char>>, first: Seq<char>, second: Seq<char>)
    ensures
        appended_lines(appended_lines(lines, first), second) == appended_lines(
            lines,
            first + second,
        ),
{
    let cap = MAX_LINES as nat;
    let one = split_on(without_cr(first), '\n');
    let two = split_on(without_cr(second), '\n');
    lemma_split_on_nonempty(without_cr(first), '\n');
    lemma_split_on_nonempty(without_cr(second), '\n');
    Seq::filter_distributes_over_add(first, second, not_cr());
    lemma_keep_last_extend(extend_lines(lines, one), two, cap);
    lemma_extend_composes(lines, without_cr(first), without_cr(second));
}

proof fn lemma_chars_in_concat(a: Seq<Seq<char>>, b: Seq<Seq<char>>)
    ensures
        chars_in(a + b) == chars_in(a) + chars_in(b),
    decreases b.len(),
{
    if b.len() > 0 {
        lemma_chars_in_concat(a, b.drop_last());
        assert((a + b).drop_last() =~= a + b.drop_last());
    }
}

proof fn lemma_chars_in_single(line: Seq<char>)
    ensures
        chars_in(seq![line]) == line.len(),
{
    assert(chars_in(seq![line].drop_last()) == 0);
}

/// Continuing `lines` by `pieces` adds exactly the text that the pieces
/// spell.
pub proof fn lemma_extend_text_len(lines: Seq<Seq<char>>, pieces: Seq<Seq<char>>)
    requires
        pieces.len() >= 1,
    ensures
        text_len(extend_lines(lines, pieces)) == text_len(lines) + text_len(pieces),
{
    if lines.len() > 0 {
        let head = lines.drop_last();
        let joined = lines.last() + pieces.first();
        let rest = pieces.skip(1);
        assert(head.push(joined) =~= head + seq![joined]);
        lemma_chars_in_single(joined);
        lemma_chars_in_concat(head, seq![joined]);
        lemma_chars_in_concat(head.push(joined), rest);
        assert(pieces =~= seq![pieces.first()] + rest);
        lemma_chars_in_single(pieces.first());
        lemma_chars_in_concat(seq![pieces.first()], rest);
    }
}

/// Keeping the newest `cap` lines takes away exactly the text of the lines
/// that leave.
pub proof fn lemma_keep_last_text_len(lines: Seq<Seq<char>>, cap: nat)
    requires
        cap >= 1,
    ensures
        keep_last(lines, cap).len() <= cap,
        text_len(keep_last(lines, cap)) == text_len(lines) - evicted_len(
            lines,
            evicted_count(lines, cap),
        ),
{
    let gone = evicted_count(lines, cap) as int;
    lemma_chars_in_concat(lines.take(gone), lines.skip(gone));
    assert(lines.take(gone) + lines.skip(gone) =~= lines);
}

/// A text without carriage returns loses nothing when they are dropped.
pub proof fn lemma_without_cr_identity(s: Seq<char>)
    requires
        forall|i: int| 0 <= i < s.len() ==> s[i] != '\r',
    ensures
        without_cr(s) == s,
    decreases s.len(),
{
    reveal(Seq::filter);
    if s.len() > 0 {
        lemma_without_cr_identity(s.drop_last());
    }
}

/// Appending a chunk makes the buffer's text longer by exactly the chunk's
/// length, carriage returns not counted, and shorter by the text of the lines
/// that leave from the front; never more than `MAX_LINES` lines stay. Before
/// any line leaves, the buffer spells what it spelled before, followed by
/// the chunk.
pub proof fn lemma_append_text_len(lines: Seq<Seq<char>>, chunk: Seq<char>)
    ensures
        appended_lines(lines, chunk).len() <= MAX_LINES,
        ({
            let grown = extend_lines(lines, split_on(without_cr(chunk), '\n'));
            let gone = evicted_count(grown, MAX_LINES as nat);
            &&& appended_lines(lines, chunk) == grown.skip(gone as int)
            &&& join_with(grown, '\n') == join_with(lines, '\n') + without_cr(chunk)
            &&& text_len(grown) == text_len(lines) + without_cr(chunk).len()
            &&& text_len(appended_lines(lines, chunk)) == text_len(lines) + without_cr(
                chunk,
            ).len() - evicted_len(grown, gone)
        }),
{
    let pieces = split_on(without_cr(chunk), '\n');
    lemma_split_on_nonempty(without_cr(chunk), '\n');
    lemma_split_on_text_len(without_cr(chunk), '\n');
    lemma_extend_text_len(lines, pieces);
    lemma_extend_appends(lines, without_cr(chunk));
    lemma_keep_last_text_len(extend_lines(lines, pieces), MAX_LINES as nat);
}

/// Appending to a buffer that is within its bounds never makes it shorter,
/// and keeps it within its bounds.
pub proof fn lemma_appended_len(lines: Seq<Seq<char>>, chunk: Seq<char>)
    requires
        1 <= lines.len() <= MAX_LINES,
    ensures
        lines.len() <= appended_lines(lines, chunk).len() <= MAX_LINES,
{
    lemma_split_on_nonempty(without_cr(chunk), '\n');
}

/// Appends a chunk of output to the line buffer. Carriage returns are
/// dropped. The text up to the first newline extends the last line; each
/// newline starts a new line. Lines beyond `MAX_LINES` leave from the front.
pub fn append_output_lines(lines: &mut Vec<String>, chunk: &str)
    ensures
        final(lines).deep_view() == appended_lines(old(lines).deep_view(), chunk@),
        final(lines).len() <= MAX_LINES,
        final(lines).len() >= 1,
{
    let ghost before = lines.deep_view();
    let mut open = match lines.pop() {
        Some(last) => last,
        None => String::new(),
    };
    proof {
        reveal(Seq::filter);
    }
    for c in it: chunk.chars()
        invariant
            it.seq() == chunk@,
            lines.deep_view().push(open@) == extend_lines(
                before,
                split_on(without_cr(chunk@.take(it.index())), '\n'),
            ),
    {
        let ghost seen = chunk@.take(it.index());
        proof {
            assert(chunk@.take(it.index() + 1) =~= seen.push(c));
            seen.lemma_filter_push(c, not_cr());
            if c != '\r' {
                lemma_extend_push(before, without_cr(seen), c);
            }
        }
        if c == '\n' {
            lines.push(open);
            open = String::new();
        } else if c != '\r' {
            push_char(&mut open, c);
        }
    }
    lines.push(open);
    proof {
        assert(chunk@.take(chunk@.len() as int) =~= chunk@);
    }
    if lines.len() > MAX_LINES {
        let excess: usize = lines.len() - MAX_LINES;
        let kept = lines.split_off(excess);
        *lines = kept;
    }
}

} // verus!
