//! Text utilities: token estimation, control-sequence stripping, splitting
//! into pieces and lines, trimming, and decimal numbers.

use vstd::prelude::*;

verus! {

/// Appends one character to a string, by `String::push`: the string's
/// characters afterwards are those before, followed by `c`.
#[verifier::external_body]
pub(crate) fn push_char(s: &mut String, c: char)
    ensures
        final(s)@ == old(s)@.push(c),
{
    s.push(c)
}

/// Number of tokens attributed to a text of `chars` characters: one token per
/// four characters, rounded up.
pub open spec fn token_estimate(chars: nat) -> nat {
    (chars + 3) / 4
}

/// `token_estimate(chars)` is the ceiling of `chars / 4`: the least number of
/// four-character tokens that cover `chars` characters.
pub proof fn lemma_token_estimate_is_ceiling(chars: nat)
    ensures
        4 * token_estimate(chars) >= chars,
        4 * token_estimate(chars) < chars + 4,
        token_estimate(0) == 0,
{
}

/// Estimates the number of tokens in `text` as a quarter of its character
/// count, rounded up.
pub fn estimate_tokens(text: &str) -> (tokens: u64)
    ensures
        tokens == token_estimate(text@.len()),
{
    let chars: usize = text.unicode_len();
    let quarters: usize = chars / 4;
    if chars % 4 == 0 {
        quarters as u64
    } else {
        (quarters as u64) + 1
    }
}

/// The escape character that introduces a control sequence.
pub const ESC: char = '\u{1b}';

/// Whether `c` terminates a control sequence: a character from `@` to `~`.
pub open spec fn is_csi_final(c: char) -> bool {
    '@' <= c && c <= '~'
}

/// What is left of `s` once control sequences are removed, reading from the
/// front. With `in_csi` set the text starts inside a sequence: everything up
/// to and including the first terminator is dropped. Otherwise an escape
/// followed by `[` opens a sequence, an escape followed by anything else is
/// dropped alone, and every other character is kept.
pub open spec fn strip_ansi_from(in_csi: bool, s: Seq<char>) -> Seq<char>
    decreases s.len(),
{
    if s.len() == 0 {
        Seq::empty()
    } else if in_csi {
        strip_ansi_from(!is_csi_final(s[0]), s.skip(1))
    } else if s[0] != ESC {
        seq![s[0]] + strip_ansi_from(false, s.skip(1))
    } else if s.len() >= 2 && s[1] == '[' {
        strip_ansi_from(true, s.skip(2))
    } else {
        strip_ansi_from(false, s.skip(1))
    }
}

/// `s` with its control sequences removed.
pub open spec fn strip_ansi_spec(s: Seq<char>) -> Seq<char> {
    strip_ansi_from(false, s)
}

/// Whether `s` holds no escape character.
pub open spec fn escape_free(s: Seq<char>) -> bool {
    forall|i: int| 0 <= i < s.len() ==> s[i] != ESC
}

/// Where the scanner of `strip_ansi` stands between two characters.
#[derive(Clone, Copy, PartialEq, Eq, Structural)]
enum Scan {
    /// Outside any sequence.
    Text,
    /// Just after an escape whose follower is not yet known.
    Escape,
    /// Inside a sequence, before its terminator.
    Sequence,
}

/// What the rest of the input contributes, given the scanner's state.
spec fn pending(scan: Scan, rest: Seq<char>) -> Seq<char> {
    match scan {
        Scan::Text => strip_ansi_from(false, rest),
        Scan::Escape => strip_ansi_from(false, seq![ESC] + rest),
        Scan::Sequence => strip_ansi_from(true, rest),
    }
}

proof fn lemma_pending_step(scan: Scan, rest: Seq<char>)
    requires
        rest.len() > 0,
    ensures
        pending(scan, rest) == match scan {
            Scan::Text => if rest[0] == ESC {
                pending(Scan::Escape, rest.skip(1))
            } else {
                seq![rest[0]] + pending(Scan::Text, rest.skip(1))
            },
            Scan::Escape => if rest[0] == '[' {
                pending(Scan::Sequence, rest.skip(1))
            } else if rest[0] == ESC {
                pending(Scan::Escape, rest.skip(1))
            } else {
                seq![rest[0]] + pending(Scan::Text, rest.skip(1))
            },
            Scan::Sequence => if is_csi_final(rest[0]) {
                pending(Scan::Text, rest.skip(1))
            } else {
                pending(Scan::Sequence, rest.skip(1))
            },
        },
{
    let tail = rest.skip(1);
    match scan {
        Scan::Text => {
            assert(seq![ESC] + tail =~= rest || rest[0] != ESC);
        },
        Scan::Escape => {
            let whole = seq![ESC] + rest;
            assert(whole.skip(1) =~= rest);
            assert(whole.skip(2) =~= tail);
            if rest[0] != '[' {
                assert(strip_ansi_from(false, whole) == strip_ansi_from(false, rest));
                assert(seq![ESC] + tail =~= rest || rest[0] != ESC);
            }
        },
        Scan::Sequence => {},
    }
}

/// Removes control sequences from `input`: an escape followed by `[` and
/// everything up to and including the next character from `@` to `~`; an
/// escape followed by anything else is dropped alone.
pub fn strip_ansi(input: &str) -> (out: String)
    ensures
        out@ == strip_ansi_spec(input@),
{
    let mut out = String::new();
    let mut scan = Scan::Text;
    proof {
        assert(input@.skip(0) =~= input@);
    }
    for c in it: input.chars()
        invariant
            it.seq() == input@,
            strip_ansi_spec(input@) == out@ + pending(scan, input@.skip(it.index())),
    {
        proof {
            lemma_pending_step(scan, input@.skip(it.index()));
            assert(input@.skip(it.index()).skip(1) =~= input@.skip(it.index() + 1));
        }
        match scan {
            Scan::Text => {
                if c == ESC {
                    scan = Scan::Escape;
                } else {
                    push_char(&mut out, c);
                }
            },
            Scan::Escape => {
                if c == '[' {
                    scan = Scan::Sequence;
                } else if c != ESC {
                    push_char(&mut out, c);
                    scan = Scan::Text;
                }
            },
            Scan::Sequence => {
                if '@' <= c && c <= '~' {
                    scan = Scan::Text;
                }
            },
        }
    }
    proof {
        assert(strip_ansi_from(false, seq![ESC]) =~= Seq::<char>::empty()) by {
            assert(seq![ESC].skip(1) =~= Seq::<char>::empty());
            assert(strip_ansi_from(false, Seq::<char>::empty()) =~= Seq::<char>::empty());
        }
    }
    out
}

proof fn lemma_strip_escape_free(in_csi: bool, s: Seq<char>)
    ensures
        escape_free(strip_ansi_from(in_csi, s)),
    decreases s.len(),
{
    if s.len() > 0 {
        if in_csi {
            lemma_strip_escape_free(!is_csi_final(s[0]), s.skip(1));
        } else if s[0] != ESC {
            lemma_strip_escape_free(false, s.skip(1));
        } else if s.len() >= 2 && s[1] == '[' {
            lemma_strip_escape_free(true, s.skip(2));
        } else {
            lemma_strip_escape_free(false, s.skip(1));
        }
    }
}

/// Stripping is the identity on text that holds no escape character.
pub proof fn lemma_strip_ansi_identity(s: Seq<char>)
    requires
        escape_free(s),
    ensures
        strip_ansi_spec(s) == s,
    decreases s.len(),
{
    if s.len() > 0 {
        lemma_strip_ansi_identity(s.skip(1));
    }
}

/// Stripping leaves no escape character behind, so stripping twice gives what
/// stripping once gives.
pub proof fn lemma_strip_ansi_idempotent(s: Seq<char>)
    ensures
        escape_free(strip_ansi_spec(s)),
        strip_ansi_spec(strip_ansi_spec(s)) == strip_ansi_spec(s),
{
    lemma_strip_escape_free(false, s);
    lemma_strip_ansi_identity(strip_ansi_spec(s));
}

/// Appends a copy of `arg` to a list of texts.
pub fn push_arg(args: &mut Vec<String>, arg: &str)
    ensures
        final(args).deep_view() == old(args).deep_view().push(arg@),
{
    let owned = arg.to_owned();
    args.push(owned);
}

/// `prefix` followed by `rest`, as one text.
pub fn joined(prefix: &str, rest: &str) -> (arg: String)
    ensures
        arg@ == prefix@ + rest@,
{
    let mut arg = prefix.to_owned();
    arg.append(rest);
    arg
}

/// The characters of `s`, one element each.
pub fn to_chars(s: &str) -> (chars: Vec<char>)
    ensures
        chars@ == s@,
{
    let mut chars: Vec<char> = Vec::new();
    for c in it: s.chars()
        invariant
            it.seq() == s@,
            chars@ == s@.take(it.index()),
    {
        chars.push(c);
    }
    chars
}

/// The string spelled by `chars[start..end]`.
pub fn string_from(chars: &Vec<char>, start: usize, end: usize) -> (s: String)
    requires
        start <= end <= chars.len(),
    ensures
        s@ == chars@.subrange(start as int, end as int),
{
    let mut s = String::new();
    let mut i: usize = start;
    while i < end
        invariant
            start <= i <= end <= chars.len(),
            s@ == chars@.subrange(start as int, i as int),
        decreases end - i,
    {
        push_char(&mut s, chars[i]);
        i += 1;
    }
    s
}

/// The pieces of `s` between occurrences of `sep`, in order. There is always
/// at least one piece; `s` ending in `sep` gives a last piece that is empty.
pub open spec fn split_on(s: Seq<char>, sep: char) -> Seq<Seq<char>>
    decreases s.len(),
{
    if s.len() == 0 {
        seq![Seq::empty()]
    } else {
        let before = split_on(s.drop_last(), sep);
        if s.last() == sep {
            before.push(Seq::empty())
        } else {
            before.drop_last().push(before.last().push(s.last()))
        }
    }
}

/// Splitting always yields at least one piece.
pub proof fn lemma_split_on_nonempty(s: Seq<char>, sep: char)
    ensures
        split_on(s, sep).len() >= 1,
    decreases s.len(),
{
    if s.len() > 0 {
        lemma_split_on_nonempty(s.drop_last(), sep);
    }
}

/// `pieces` put together again, with `sep` between each two neighbours.
pub open spec fn join_with(pieces: Seq<Seq<char>>, sep: char) -> Seq<char>
    decreases pieces.len(),
{
    if pieces.len() == 0 {
        Seq::empty()
    } else if pieces.len() == 1 {
        pieces[0]
    } else {
        join_with(pieces.drop_last(), sep).push(sep) + pieces.last()
    }
}

/// Splitting loses nothing and cuts at every separator: the pieces put
/// together again give the text, and no piece holds a separator.
pub proof fn lemma_split_on_inverts_join(s: Seq<char>, sep: char)
    ensures
        join_with(split_on(s, sep), sep) == s,
        forall|i: int, j: int|
            0 <= i < split_on(s, sep).len() && 0 <= j < split_on(s, sep)[i].len()
                ==> #[trigger] split_on(s, sep)[i][j] != sep,
    decreases s.len(),
{
    if s.len() > 0 {
        let before = split_on(s.drop_last(), sep);
        let after = split_on(s, sep);
        lemma_split_on_nonempty(s.drop_last(), sep);
        lemma_split_on_inverts_join(s.drop_last(), sep);
        assert(s.drop_last().push(s.last()) =~= s);
        if s.last() == sep {
            assert(after.drop_last() =~= before);
        } else if before.len() > 1 {
            assert(after.drop_last() =~= before.drop_last());
        }
    }
}

/// `line` without one trailing carriage return, if it has one.
pub open spec fn trim_cr(line: Seq<char>) -> Seq<char> {
    if line.len() > 0 && line.last() == '\r' {
        line.drop_last()
    } else {
        line
    }
}

/// The lines of a text. A line ends at a newline, which is not part of it,
/// nor is a carriage return directly before that newline. What follows the
/// last newline is a line only if it is not empty.
pub open spec fn text_lines(s: Seq<char>) -> Seq<Seq<char>> {
    let pieces = split_on(s, '\n');
    let ended = pieces.drop_last().map_values(|l: Seq<char>| trim_cr(l));
    if pieces.last().len() == 0 {
        ended
    } else {
        ended.push(pieces.last())
    }
}

/// A text that is not empty has at least one line.
pub proof fn lemma_text_lines_nonempty(s: Seq<char>)
    requires
        s.len() > 0,
    ensures
        text_lines(s).len() >= 1,
{
    lemma_split_on_nonempty(s.drop_last(), '\n');
}

/// What one more character does to the pieces, when the last piece so far
/// is known to start at `start`: a separator opens a new piece, any other
/// character extends the last one.
proof fn lemma_split_on_step(s: Seq<char>, sep: char, start: int, i: int)
    requires
        0 <= start <= i < s.len(),
        split_on(s.take(i), sep).len() > 0,
        split_on(s.take(i), sep).last() == s.subrange(start, i),
    ensures
        split_on(s.take(i + 1), sep).len() > 0,
        s[i] == sep ==> split_on(s.take(i + 1), sep) == split_on(s.take(i), sep).push(
            Seq::empty(),
        ),
        s[i] != sep ==> split_on(s.take(i + 1), sep) == split_on(s.take(i), sep).drop_last().push(
            s.subrange(start, i + 1),
        ),
{
    assert(s.take(i + 1).drop_last() =~= s.take(i));
    assert(s.subrange(start, i + 1) =~= s.subrange(start, i).push(s[i]));
}

/// The pieces of `chars` between occurrences of `sep`.
pub fn split_chars(chars: &Vec<char>, sep: char) -> (pieces: Vec<String>)
    ensures
        pieces.deep_view() == split_on(chars@, sep),
{
    let mut pieces: Vec<String> = Vec::new();
    let mut start: usize = 0;
    let mut i: usize = 0;
    proof {
        assert(chars@.take(0) =~= Seq::<char>::empty());
    }
    while i < chars.len()
        invariant
            start <= i <= chars.len(),
            pieces.deep_view().push(chars@.subrange(start as int, i as int)) == split_on(
                chars@.take(i as int),
                sep,
            ),
        decreases chars.len() - i,
    {
        proof {
            lemma_split_on_step(chars@, sep, start as int, i as int);
        }
        if chars[i] == sep {
            let piece = string_from(chars, start, i);
            pieces.push(piece);
            proof {
                assert(chars@.subrange(i + 1, i + 1) =~= Seq::<char>::empty());
            }
            start = i + 1;
        }
        i += 1;
    }
    let piece = string_from(chars, start, i);
    pieces.push(piece);
    proof {
        assert(chars@.take(i as int) =~= chars@);
    }
    pieces
}

/// The lines of `text`: cut at newlines, each without the carriage return
/// that may precede its newline, and without an empty line at the very end.
pub fn lines_of(text: &str) -> (lines: Vec<String>)
    ensures
        lines.deep_view() == text_lines(text@),
{
    let chars = to_chars(text);
    let mut lines: Vec<String> = Vec::new();
    let mut start: usize = 0;
    let mut i: usize = 0;
    while i < chars.len()
        invariant
            start <= i <= chars.len(),
            split_on(chars@.take(i as int), '\n').len() > 0,
            split_on(chars@.take(i as int), '\n').last() == chars@.subrange(
                start as int,
                i as int,
            ),
            lines.deep_view() == split_on(chars@.take(i as int), '\n').drop_last().map_values(
                |l: Seq<char>| trim_cr(l),
            ),
        decreases chars.len() - i,
    {
        proof {
            lemma_split_on_step(chars@, '\n', start as int, i as int);
        }
        let ghost before = lines.deep_view();
        if chars[i] == '\n' {
            let end: usize = if start < i && chars[i - 1] == '\r' {
                i - 1
            } else {
                i
            };
            let line = string_from(&chars, start, end);
            lines.push(line);
            proof {
                let piece = chars@.subrange(start as int, i as int);
                assert(chars@.subrange(start as int, end as int) =~= trim_cr(piece));
                assert(lines.deep_view() =~= before.push(trim_cr(piece)));
            }
            start = i + 1;
        }
        i += 1;
    }
    proof {
        assert(chars@.take(i as int) =~= chars@);
    }
    if start < i {
        let line = string_from(&chars, start, i);
        lines.push(line);
    }
    lines
}

/// Whether `c` is white space: a character with the Unicode property
/// White_Space.
pub open spec fn is_space(c: char) -> bool {
    let n = c as int;
    ||| 0x09 <= n <= 0x0D
    ||| n == 0x20
    ||| n == 0x85
    ||| n == 0xA0
    ||| n == 0x1680
    ||| 0x2000 <= n <= 0x200A
    ||| n == 0x2028
    ||| n == 0x2029
    ||| n == 0x202F
    ||| n == 0x205F
    ||| n == 0x3000
}

/// Whether `c` is white space.
pub fn is_whitespace(c: char) -> (space: bool)
    ensures
        space == is_space(c),
{
    let n: u32 = c as u32;
    (0x09 <= n && n <= 0x0D) || n == 0x20 || n == 0x85 || n == 0xA0 || n == 0x1680 || (0x2000 <= n
        && n <= 0x200A) || n == 0x2028 || n == 0x2029 || n == 0x202F || n == 0x205F || n
        == 0x3000
}

/// `s` without the white space at its end.
pub open spec fn trim_end_spec(s: Seq<char>) -> Seq<char>
    decreases s.len(),
{
    if s.len() > 0 && is_space(s.last()) {
        trim_end_spec(s.drop_last())
    } else {
        s
    }
}

/// `s` without the white space at its start.
pub open spec fn trim_start_spec(s: Seq<char>) -> Seq<char>
    decreases s.len(),
{
    if s.len() > 0 && is_space(s.first()) {
        trim_start_spec(s.skip(1))
    } else {
        s
    }
}

/// `s` without the white space at either end.
pub open spec fn trim_spec(s: Seq<char>) -> Seq<char> {
    trim_start_spec(trim_end_spec(s))
}

/// Index just past the last character of `chars[..end]` that is not white
/// space.
fn trimmed_end(chars: &Vec<char>) -> (end: usize)
    ensures
        end <= chars.len(),
        trim_end_spec(chars@) == chars@.take(end as int),
{
    let mut end: usize = chars.len();
    proof {
        assert(chars@.take(end as int) =~= chars@);
    }
    while end > 0 && is_whitespace(chars[end - 1])
        invariant
            end <= chars.len(),
            trim_end_spec(chars@) == trim_end_spec(chars@.take(end as int)),
        decreases end,
    {
        proof {
            assert(chars@.take(end as int).drop_last() =~= chars@.take(end - 1));
        }
        end -= 1;
    }
    end
}

/// `text` without the white space at its end.
pub fn trim_end(text: &str) -> (out: String)
    ensures
        out@ == trim_end_spec(text@),
{
    let chars = to_chars(text);
    let end = trimmed_end(&chars);
    string_from(&chars, 0, end)
}

/// `text` without the white space at either end.
pub fn trim(text: &str) -> (out: String)
    ensures
        out@ == trim_spec(text@),
{
    let chars = to_chars(text);
    let end = trimmed_end(&chars);
    let mut start: usize = 0;
    let ghost kept = chars@.take(end as int);
    while start < end && is_whitespace(chars[start])
        invariant
            start <= end <= chars.len(),
            kept == chars@.take(end as int),
            trim_start_spec(kept) == trim_start_spec(chars@.subrange(start as int, end as int)),
        decreases end - start,
    {
        proof {
            assert(chars@.subrange(start as int, end as int).skip(1) =~= chars@.subrange(
                start + 1,
                end as int,
            ));
        }
        start += 1;
    }
    string_from(&chars, start, end)
}

/// The decimal digit that stands for `d`.
pub open spec fn digit_char(d: int) -> char {
    (d + 48) as char
}

/// The decimal digits of `n`, most significant first, without leading zeros.
pub open spec fn digits_of(n: nat) -> Seq<char>
    decreases n,
{
    if n < 10 {
        seq![digit_char(n as int)]
    } else {
        digits_of(n / 10).push(digit_char((n % 10) as int))
    }
}

/// `n` written in decimal, with a minus sign if it is negative.
pub open spec fn int_text(n: int) -> Seq<char> {
    if n < 0 {
        seq!['-'] + digits_of((-n) as nat)
    } else {
        digits_of(n as nat)
    }
}

/// Appends the decimal digits of `n` to `out`.
pub fn push_digits(out: &mut String, n: u64)
    ensures
        final(out)@ == old(out)@ + digits_of(n as nat),
    decreases n,
{
    if n >= 10 {
        push_digits(out, n / 10);
    }
    let d: u8 = (n % 10) as u8;
    push_char(out, (d + 48) as char);
}

/// Appends `n` in decimal to `out`.
pub fn push_int(out: &mut String, n: i64)
    ensures
        final(out)@ == old(out)@ + int_text(n as int),
{
    if n < 0 {
        push_char(out, '-');
        let magnitude: u64 = ((-(n + 1)) as u64) + 1;
        push_digits(out, magnitude);
    } else {
        push_digits(out, n as u64);
    }
}

/// Whether `c` is a decimal digit.
pub open spec fn is_digit(c: char) -> bool {
    '0' <= c && c <= '9'
}

/// The number that the decimal digits `s` spell.
pub open spec fn digits_value(s: Seq<char>) -> nat
    decreases s.len(),
{
    if s.len() == 0 {
        0
    } else {
        (digits_value(s.drop_last()) * 10 + (s.last() as int - 48)) as nat
    }
}

/// Whether `s` is made of decimal digits only.
pub open spec fn all_digits(s: Seq<char>) -> bool {
    forall|i: int| 0 <= i < s.len() ==> is_digit(#[trigger] s[i])
}

/// The number that `s` spells in decimal, if it spells one that fits 64
/// bits: an optional plus sign, then one or more digits, and nothing else.
pub open spec fn parse_u64_spec(s: Seq<char>) -> Option<u64> {
    let digits = if s.len() > 0 && s[0] == '+' {
        s.skip(1)
    } else {
        s
    };
    if digits.len() > 0 && all_digits(digits) && digits_value(digits) <= u64::MAX {
        Some(digits_value(digits) as u64)
    } else {
        None
    }
}

/// Writing a number in decimal and reading it back gives the number.
pub proof fn lemma_decimal_round_trip(n: nat)
    ensures
        digits_of(n).len() >= 1,
        all_digits(digits_of(n)),
        digits_value(digits_of(n)) == n,
        n <= u64::MAX ==> parse_u64_spec(digits_of(n)) == Some(n as u64),
    decreases n,
{
    if n < 10 {
        let one = seq![digit_char(n as int)];
        assert(digits_value(one.drop_last()) == 0);
    } else {
        lemma_decimal_round_trip(n / 10);
        let head = digits_of(n / 10);
        let all = head.push(digit_char((n % 10) as int));
        assert(all.drop_last() =~= head);
    }
}

proof fn lemma_digits_value_grows(s: Seq<char>, i: int)
    requires
        0 <= i <= s.len(),
        all_digits(s),
    ensures
        digits_value(s.take(i)) <= digits_value(s),
    decreases s.len() - i,
{
    if i < s.len() {
        lemma_digits_value_grows(s, i + 1);
        assert(s.take(i + 1).drop_last() =~= s.take(i));
    } else {
        assert(s.take(i) =~= s);
    }
}

/// Reads a decimal number: an optional plus sign followed by one or more
/// digits. Anything else, or a number beyond 64 bits, gives `None`.
pub fn parse_u64(text: &str) -> (value: Option<u64>)
    ensures
        value == parse_u64_spec(text@),
{
    let chars = to_chars(text);
    let start: usize = if chars.len() > 0 && chars[0] == '+' {
        1
    } else {
        0
    };
    if start == chars.len() {
        return None;
    }
    let ghost digits = chars@.skip(start as int);
    let mut value: u64 = 0;
    let mut i: usize = start;
    while i < chars.len()
        invariant
            start <= i <= chars.len(),
            start < chars.len(),
            chars@ == text@,
            start == if text@.len() > 0 && text@[0] == '+' {
                1int
            } else {
                0int
            },
            digits == chars@.skip(start as int),
            digits == if start == 1 {
                text@.skip(1)
            } else {
                text@
            },
            all_digits(digits.take(i - start)),
            value == digits_value(digits.take(i - start)),
        decreases chars.len() - i,
    {
        let c = chars[i];
        let ghost seen = digits.take(i - start);
        proof {
            assert(digits.take(i - start + 1).drop_last() =~= seen);
            assert(digits.take(i - start + 1).last() == c);
        }
        if !('0' <= c && c <= '9') {
            return None;
        }
        let d: u64 = (c as u32 - 48) as u64;
        let next = match value.checked_mul(10) {
            Some(tens) => tens.checked_add(d),
            None => None,
        };
        match next {
            Some(n) => {
                value = n;
            },
            None => {
                proof {
                    if all_digits(digits) {
                        lemma_digits_value_grows(digits, i - start + 1);
                    }
                }
                return None;
            },
        }
        i += 1;
    }
    proof {
        assert(digits.take(i - start) =~= digits);
    }
    Some(value)
}

} // verus!
