//! What the panes show, derived from the model: the window of lines that
//! fits a pane, the fill of a usage bar, the lines of the usage panel and
//! the rows of the history list. Drawing them is the caller's part.

use crate::engine::{DiffPreview, MessageEntry};
use crate::model::{scroll_up, MessageSpec};
use crate::text::{digits_of, push_char, push_digits, string_from, to_chars};
use crate::usage::{UsageEntry, UsageEntrySpec};
use vstd::prelude::*;

verus! {

/// Rows and columns that a pane's border takes away.
pub const BORDER: u16 = 2;

/// Characters of a prompt that a history row shows before it is cut.
pub const LABEL_CHARS: usize = 40;

/// The filled cell of a bar.
pub const FULL_CELL: char = '\u{2588}';

/// The empty cell of a bar.
pub const EMPTY_CELL: char = '\u{2591}';

/// The mark of a prompt whose snapshot has landed.
pub const LANDED_MARK: char = '\u{2713}';

/// The mark of a prompt whose snapshot is pending, and of a label that was
/// cut.
pub const ELLIPSIS: char = '\u{2026}';

/// What is left of `outer` rows or columns inside a pane's border.
pub open spec fn inner(outer: u16) -> u16 {
    if outer >= BORDER {
        (outer - BORDER) as u16
    } else {
        0
    }
}

/// The size of the terminal to give the child when the output pane is
/// `width` by `height`: the pane's inner columns and rows.
pub fn inner_size(width: u16, height: u16) -> (size: (u16, u16))
    ensures
        size.0 == inner(width),
        size.1 == inner(height),
{
    (
        if width >= BORDER {
            width - BORDER
        } else {
            0
        },
        if height >= BORDER {
            height - BORDER
        } else {
            0
        },
    )
}

/// First line of the window of `height` lines that ends at line `offset` of
/// `len` lines: as far above `offset` as the window reaches, and never past
/// the end of the lines.
pub open spec fn window_start(offset: nat, height: nat, len: nat) -> nat {
    let reach = scroll_up(offset, scroll_up(height, 1));
    if reach <= len {
        reach
    } else {
        len
    }
}

/// Line after the last of that window: `height` lines after its first, or
/// the end of the lines if that comes sooner.
pub open spec fn window_end(offset: nat, height: nat, len: nat) -> nat {
    let start = window_start(offset, height, len);
    if start + height <= len {
        start + height
    } else {
        len
    }
}

/// The lines to show in a pane of `height` lines scrolled to `offset`, out of
/// `len` lines: the range from the first shown to just after the last.
pub fn window(offset: usize, height: usize, len: usize) -> (range: (usize, usize))
    ensures
        range.0 == window_start(offset as nat, height as nat, len as nat),
        range.1 == window_end(offset as nat, height as nat, len as nat),
        range.0 <= range.1 <= len,
        range.1 - range.0 <= height,
{
    let above: usize = if height >= 1 {
        height - 1
    } else {
        0
    };
    let reach: usize = if offset >= above {
        offset - above
    } else {
        0
    };
    let start: usize = if reach <= len {
        reach
    } else {
        len
    };
    let end: usize = if len - start >= height {
        start + height
    } else {
        len
    };
    (start, end)
}

/// Cells to fill of a bar `width` wide for `used` out of `limit`: the share
/// of the width, rounded to the nearest cell, and never more than the width.
/// Without a limit the bar is empty.
pub open spec fn bar_fill_spec(width: nat, used: nat, limit: nat) -> nat {
    if limit == 0 {
        0
    } else {
        let cells = (2 * width * used + limit) / (2 * limit);
        if cells <= width {
            cells
        } else {
            width
        }
    }
}

/// Cells to fill of a bar `width` wide for `used` out of `limit`.
pub fn bar_fill(width: u16, used: u64, limit: u64) -> (cells: u16)
    ensures
        cells == bar_fill_spec(width as nat, used as nat, limit as nat),
        cells <= width,
{
    if limit == 0 {
        return 0;
    }
    let w: u128 = width as u128;
    let u: u128 = used as u128;
    let l: u128 = limit as u128;
    assert(2 * w * u <= 2 * 0xFFFF * 0xFFFF_FFFF_FFFF_FFFF) by (nonlinear_arith)
        requires
            w <= 0xFFFF,
            u <= 0xFFFF_FFFF_FFFF_FFFF,
    ;
    let cells: u128 = (2 * w * u + l) / (2 * l);
    if cells <= w {
        cells as u16
    } else {
        width
    }
}

/// A full bar for all that is used, none for nothing used.
pub proof fn lemma_bar_fill_ends(width: nat, used: nat, limit: nat)
    requires
        limit > 0,
    ensures
        bar_fill_spec(width, 0, limit) == 0,
        used >= limit ==> bar_fill_spec(width, used, limit) == width,
{
    assert((2 * width * 0 + limit) / (2 * limit) == 0) by (nonlinear_arith)
        requires
            limit > 0,
    ;
    if used >= limit {
        assert((2 * width * used + limit) / (2 * limit) >= width) by (nonlinear_arith)
            requires
                limit > 0,
                used >= limit,
        ;
    }
}

/// A bar of `width` cells of which the first `filled` are full.
pub open spec fn bar_cells(filled: nat, width: nat) -> Seq<char> {
    Seq::new(
        width,
        |i: int|
            if i < filled {
                FULL_CELL
            } else {
                EMPTY_CELL
            },
    )
}

/// The text of a bar of `width` cells of which the first `filled` are full.
pub fn bar_text(filled: u16, width: u16) -> (bar: String)
    ensures
        bar@ == bar_cells(filled as nat, width as nat),
{
    let mut bar = String::new();
    let mut i: u16 = 0;
    while i < width
        invariant
            i <= width,
            bar@ == bar_cells(filled as nat, i as nat),
        decreases width - i,
    {
        if i < filled {
            push_char(&mut bar, FULL_CELL);
        } else {
            push_char(&mut bar, EMPTY_CELL);
        }
        i += 1;
    }
    bar
}

/// The line that shows an entry: its name, then its figures if it has both,
/// else its status, or `unavailable` if it has none.
pub open spec fn entry_line(entry: UsageEntrySpec) -> Seq<char> {
    if entry.used is Some && entry.limit is Some {
        entry.name + ": "@ + digits_of(entry.used->0 as nat) + " / "@ + digits_of(
            entry.limit->0 as nat,
        ) + " tokens"@
    } else {
        entry.name + ": "@ + match entry.status {
            Some(status) => status,
            None => "unavailable"@,
        }
    }
}

/// The lines of the usage panel `width` cells wide: the first entry's line,
/// with a bar below it if it has figures, then one line per further entry;
/// or a note if there is no entry.
pub open spec fn usage_panel(entries: Seq<UsageEntrySpec>, width: nat) -> Seq<Seq<char>> {
    if entries.len() == 0 {
        seq!["No providers configured"@]
    } else {
        let first = entries[0];
        let head = if first.used is Some && first.limit is Some {
            seq![
                entry_line(first),
                bar_cells(
                    bar_fill_spec(width, first.used->0 as nat, first.limit->0 as nat),
                    width,
                ),
            ]
        } else {
            seq![entry_line(first)]
        };
        head + entries.skip(1).map_values(|e: UsageEntrySpec| entry_line(e))
    }
}

/// The line that shows `entry`.
pub fn usage_line(entry: &UsageEntry) -> (line: String)
    ensures
        line@ == entry_line(entry.deep_view()),
{
    let mut line = entry.name.clone();
    line.append(": ");
    match (entry.used, entry.limit) {
        (Some(used), Some(limit)) => {
            push_digits(&mut line, used);
            line.append(" / ");
            push_digits(&mut line, limit);
            line.append(" tokens");
        },
        _ => {
            match &entry.status {
                Some(status) => {
                    line.append(status.as_str());
                },
                None => {
                    line.append("unavailable");
                },
            }
        },
    }
    line
}

/// The lines of the usage panel for `entries`, in a pane `pane_width`
/// columns wide.
pub fn usage_lines(entries: &Vec<UsageEntry>, pane_width: u16) -> (lines: Vec<String>)
    ensures
        lines.deep_view() == usage_panel(entries.deep_view(), inner(pane_width) as nat),
{
    let mut lines: Vec<String> = Vec::new();
    let ghost shown = entries.deep_view();
    let ghost show = |e: UsageEntrySpec| entry_line(e);
    if entries.len() == 0 {
        lines.push("No providers configured".to_owned());
        return lines;
    }
    let width = inner_size(pane_width, 0).0;
    let first = usage_line(&entries[0]);
    lines.push(first);
    if let (Some(used), Some(limit)) = (entries[0].used, entries[0].limit) {
        let bar = bar_text(bar_fill(width, used, limit), width);
        lines.push(bar);
    }
    let ghost head = lines.deep_view();
    let mut i: usize = 1;
    while i < entries.len()
        invariant
            1 <= i <= entries.len(),
            shown == entries.deep_view(),
            show == |e: UsageEntrySpec| entry_line(e),
            lines.deep_view() == head + shown.skip(1).take(i - 1).map_values(show),
        decreases entries.len() - i,
    {
        let ghost before = lines.deep_view();
        let line = usage_line(&entries[i]);
        lines.push(line);
        i += 1;
        proof {
            assert(lines.deep_view() =~= before.push(line@));
        }
    }
    lines
}

/// The row that shows a prompt in the history list: its text, cut after
/// `LABEL_CHARS` characters with an ellipsis, then a space and a mark that
/// says whether its snapshot has landed.
pub open spec fn history_label(message: MessageSpec) -> Seq<char> {
    let text = if message.content.len() > LABEL_CHARS {
        message.content.take(LABEL_CHARS as int).push(ELLIPSIS)
    } else {
        message.content
    };
    text.push(' ').push(
        if message.snapshot_commit is Some {
            LANDED_MARK
        } else {
            ELLIPSIS
        },
    )
}

/// The row that shows `message` in the history list.
pub fn history_row(message: &MessageEntry) -> (row: String)
    ensures
        row@ == history_label(message.deep_view()),
{
    let chars = to_chars(message.content.as_str());
    let mut row = if chars.len() > LABEL_CHARS {
        let mut cut = string_from(&chars, 0, LABEL_CHARS);
        push_char(&mut cut, ELLIPSIS);
        cut
    } else {
        message.content.clone()
    };
    push_char(&mut row, ' ');
    if message.snapshot_commit.is_some() {
        push_char(&mut row, LANDED_MARK);
    } else {
        push_char(&mut row, ELLIPSIS);
    }
    row
}

/// The rows of the history list, one per prompt in order.
pub fn history_rows(messages: &Vec<MessageEntry>) -> (rows: Vec<String>)
    ensures
        rows.deep_view() == messages.deep_view().map_values(|m: MessageSpec| history_label(m)),
{
    let mut rows: Vec<String> = Vec::new();
    let ghost all = messages.deep_view();
    let ghost label = |m: MessageSpec| history_label(m);
    let mut i: usize = 0;
    while i < messages.len()
        invariant
            i <= messages.len(),
            all == messages.deep_view(),
            label == |m: MessageSpec| history_label(m),
            rows.deep_view() == all.take(i as int).map_values(label),
        decreases messages.len() - i,
    {
        let ghost before = rows.deep_view();
        let row = history_row(&messages[i]);
        rows.push(row);
        i += 1;
        proof {
            assert(rows.deep_view() =~= before.push(row@));
        }
    }
    rows
}

/// The hint below a diff preview: how to restore if it is armed, else how to
/// close it.
pub fn preview_footer(preview: &DiffPreview) -> (hint: &'static str)
    ensures
        hint@ == if preview.pending_restore is Some {
            "Press y to restore, n to cancel"@
        } else {
            "Press q or Esc to close"@
        },
{
    if preview.pending_restore.is_some() {
        "Press y to restore, n to cancel"
    } else {
        "Press q or Esc to close"
    }
}

} // verus!
