//! The application model as plain values, and the transitions of the engine
//! loop stated over it: what an output chunk, a submitted prompt, a snapshot
//! result and a key press each do to the model, and which effects a key press
//! asks for.

use crate::config::ConfigSpec;
use crate::keys::{KeyCode, KeyEvent};
use crate::lines::{appended_lines, lemma_appended_len, MAX_LINES};
use crate::log::{user_prompt_row, PromptRowSpec, SnapshotRowSpec};
use crate::text::{
    lemma_text_lines_nonempty, strip_ansi_spec, text_lines, token_estimate, trim_end_spec,
};
use vstd::prelude::*;
use vstd::utf8::encode_utf8;

verus! {

/// Which pane takes the keys.
#[derive(Clone, Copy, PartialEq, Eq, Structural, Debug)]
pub enum Focus {
    Output,
    History,
}

/// One prompt of the session, as plain values.
pub struct MessageSpec {
    pub id: Seq<char>,
    pub idx: int,
    pub content: Seq<char>,
    pub output_line: nat,
    pub assistant_text: Seq<char>,
    pub snapshot_commit: Option<Seq<char>>,
}

/// An open diff preview, as plain values.
pub struct DiffPreviewSpec {
    pub title: Seq<char>,
    pub lines: Seq<Seq<char>>,
    pub scroll: nat,
    pub pending_restore: Option<Seq<char>>,
}

/// The application model, as plain values.
pub struct AppSpec {
    pub config: ConfigSpec,
    pub session_id: Seq<char>,
    pub messages: Seq<MessageSpec>,
    pub output_lines: Seq<Seq<char>>,
    pub output_scroll: nat,
    pub follow_output: bool,
    pub input_buffer: Seq<char>,
    pub focus: Focus,
    pub selected_message: nat,
    pub diff_preview: Option<DiffPreviewSpec>,
    pub dirty: bool,
}

/// Something the engine loop must do on the model's behalf.
pub enum EffectSpec {
    /// Write these bytes to the child's terminal.
    Send(Seq<u8>),
    /// Append this row to the session log.
    LogPrompt(PromptRowSpec),
    /// Queue a snapshot of the workspace for this prompt.
    Snapshot { message_id: Seq<char>, message_idx: int },
    /// Fetch the diff of this commit against the working tree and open the
    /// preview with it, armed for restore or not.
    ShowDiff { commit: Seq<char>, restore: bool },
    /// Restore the workspace to this commit.
    Restore { commit: Seq<char> },
}

/// What a key press leads to: the next model, the effects to perform in
/// order, and whether the engine is to quit.
pub struct StepSpec {
    pub app: AppSpec,
    pub effects: Seq<EffectSpec>,
    pub quit: bool,
}

/// Index of the last of `len` lines, or 0 if there is none.
pub open spec fn last_line(len: nat) -> nat {
    if len > 0 {
        (len - 1) as nat
    } else {
        0
    }
}

/// `offset` moved up by `by` lines, stopping at the first.
pub open spec fn scroll_up(offset: nat, by: nat) -> nat {
    if offset >= by {
        (offset - by) as nat
    } else {
        0
    }
}

/// `offset` moved down by `by` lines, stopping at the last of `len`.
pub open spec fn scroll_down(offset: nat, by: nat, len: nat) -> nat {
    if offset + by <= last_line(len) {
        offset + by
    } else {
        last_line(len)
    }
}

/// The byte that control sends with the key `c`: the low five bits of its
/// code.
pub open spec fn control_byte(c: char) -> u8 {
    ((c as int) % 32) as u8
}

/// Whether the prompts are numbered 1, 2, 3, ... in the order they stand.
pub open spec fn numbered_in_order(messages: Seq<MessageSpec>) -> bool {
    forall|i: int| 0 <= i < messages.len() ==> (#[trigger] messages[i]).idx == i + 1
}

/// Whether every prompt's anchor is a line of a buffer of `len` lines.
pub open spec fn anchors_within(messages: Seq<MessageSpec>, len: nat) -> bool {
    forall|i: int| 0 <= i < messages.len() ==> (#[trigger] messages[i]).output_line < len
}

impl DiffPreviewSpec {
    /// The preview shows at least one line and its offset is one of them.
    pub open spec fn wf(self) -> bool {
        self.lines.len() >= 1 && self.scroll < self.lines.len()
    }
}

impl AppSpec {
    /// What holds of the model at all times: the line buffer holds between
    /// one and `MAX_LINES` lines and the scroll offset is one of them; the
    /// prompts are numbered from 1 without gaps in the order of submission,
    /// and each is anchored at a line of the buffer; the selection is one of
    /// the prompts, if there is any; an open preview is well formed.
    pub open spec fn wf(self) -> bool {
        &&& 1 <= self.output_lines.len() <= MAX_LINES
        &&& self.output_scroll < self.output_lines.len()
        &&& numbered_in_order(self.messages)
        &&& anchors_within(self.messages, self.output_lines.len())
        &&& self.messages.len() == 0 ==> self.selected_message == 0
        &&& self.messages.len() > 0 ==> self.selected_message < self.messages.len()
        &&& self.diff_preview matches Some(preview) ==> preview.wf()
    }
}

/// The model at the start of a session: no prompt, one empty line, the
/// output pane focused and following the tail, a redraw due.
pub open spec fn initial_app(config: ConfigSpec, session_id: Seq<char>) -> AppSpec {
    AppSpec {
        config,
        session_id,
        messages: Seq::empty(),
        output_lines: seq![Seq::empty()],
        output_scroll: 0,
        follow_output: true,
        input_buffer: Seq::empty(),
        focus: Focus::Output,
        selected_message: 0,
        diff_preview: None,
        dirty: true,
    }
}

/// The prompts after `text` has been attributed to the newest of them.
pub open spec fn attributed(messages: Seq<MessageSpec>, text: Seq<char>) -> Seq<MessageSpec> {
    if messages.len() == 0 {
        messages
    } else {
        messages.update(
            messages.len() - 1,
            MessageSpec { assistant_text: messages.last().assistant_text + text, ..messages.last() },
        )
    }
}

/// The model after a chunk of the child's output. The chunk is stripped of
/// control sequences. If nothing is left, nothing changes. Otherwise it is
/// appended to the line buffer and attributed to the newest prompt, the
/// offset moves to the last line if the view follows the tail, and a redraw
/// is due.
pub open spec fn output_step(s: AppSpec, chunk: Seq<char>) -> AppSpec {
    let cleaned = strip_ansi_spec(chunk);
    if cleaned.len() == 0 {
        s
    } else {
        let lines = appended_lines(s.output_lines, cleaned);
        AppSpec {
            output_lines: lines,
            messages: attributed(s.messages, cleaned),
            output_scroll: if s.follow_output {
                last_line(lines.len())
            } else {
                s.output_scroll
            },
            dirty: true,
            ..s
        }
    }
}

/// Estimated tokens of all prompts together: for each, the estimate of its
/// text plus the estimate of the output attributed to it.
pub open spec fn context_tokens(messages: Seq<MessageSpec>) -> nat
    decreases messages.len(),
{
    if messages.len() == 0 {
        0
    } else {
        context_tokens(messages.drop_last()) + token_estimate(messages.last().content.len())
            + token_estimate(messages.last().assistant_text.len())
    }
}

/// The model after a prompt has been recorded: it is appended with the next
/// index, no output and no snapshot yet, and selected.
pub open spec fn record_step(s: AppSpec, id: Seq<char>, content: Seq<char>, output_line: nat) -> AppSpec {
    AppSpec {
        messages: s.messages.push(
            MessageSpec {
                id,
                idx: s.messages.len() as int + 1,
                content,
                output_line,
                assistant_text: Seq::empty(),
                snapshot_commit: None,
            },
        ),
        selected_message: s.messages.len(),
        ..s
    }
}

/// Position of the first prompt from `from` on whose identifier is `id`.
pub open spec fn position_from(messages: Seq<MessageSpec>, id: Seq<char>, from: int) -> Option<int>
    decreases messages.len() - from,
{
    if from < 0 || from >= messages.len() {
        None
    } else if messages[from].id == id {
        Some(from)
    } else {
        position_from(messages, id, from + 1)
    }
}

/// The prompt that a snapshot result lands on: the first with the result's
/// identifier, if the result carries a commit and that prompt has none yet.
pub open spec fn landing(s: AppSpec, message_id: Seq<char>, commit: Option<Seq<char>>) -> Option<
    int,
> {
    match position_from(s.messages, message_id, 0) {
        Some(i) => if commit is Some && s.messages[i].snapshot_commit is None {
            Some(i)
        } else {
            None
        },
        None => None,
    }
}

/// The model after a snapshot result: the prompt it lands on, if any, gets
/// the commit; a redraw is due either way.
pub open spec fn snapshot_step(s: AppSpec, message_id: Seq<char>, commit: Option<Seq<char>>) -> AppSpec {
    match landing(s, message_id, commit) {
        Some(i) => AppSpec {
            messages: s.messages.update(
                i,
                MessageSpec { snapshot_commit: commit, ..s.messages[i] },
            ),
            dirty: true,
            ..s
        },
        None => AppSpec { dirty: true, ..s },
    }
}

/// The row that a snapshot result adds to the session log, if it lands.
pub open spec fn snapshot_row(
    s: AppSpec,
    message_id: Seq<char>,
    commit: Option<Seq<char>>,
    id: Seq<char>,
    now: Seq<char>,
) -> Option<SnapshotRowSpec> {
    match landing(s, message_id, commit) {
        Some(i) => Some(
            SnapshotRowSpec {
                id,
                session_id: s.session_id,
                idx: s.messages[i].idx,
                commit: commit->0,
                created_at: now,
            },
        ),
        None => None,
    }
}

/// The lines of a diff preview: those of the diff, or a note that nothing
/// changed.
pub open spec fn preview_lines(diff: Seq<char>) -> Seq<Seq<char>> {
    if diff.len() == 0 {
        seq!["(no changes)"@]
    } else {
        text_lines(diff)
    }
}

/// The model after the diff of `commit` has arrived: a preview opens on it,
/// at the top, armed for restore if `restore` is set.
pub open spec fn open_preview_step(s: AppSpec, commit: Seq<char>, diff: Seq<char>, restore: bool) -> AppSpec {
    AppSpec {
        diff_preview: Some(
            DiffPreviewSpec {
                title: "Diff for "@ + commit,
                lines: preview_lines(diff),
                scroll: 0,
                pending_restore: if restore {
                    Some(commit)
                } else {
                    None
                },
            },
        ),
        dirty: true,
        ..s
    }
}

/// A step that changes the model and asks for nothing.
pub open spec fn quiet(app: AppSpec) -> StepSpec {
    StepSpec { app, effects: Seq::empty(), quit: false }
}

/// A step that leaves the model alone and sends `bytes` to the child.
pub open spec fn sending(app: AppSpec, bytes: Seq<u8>) -> StepSpec {
    StepSpec { app, effects: seq![EffectSpec::Send(bytes)], quit: false }
}

/// A key press while a diff preview is open. Escape, `q` and `n` close it;
/// the arrows and page keys scroll it; `y` closes it and, if it is armed,
/// asks for the restore of its commit.
pub open spec fn diff_key_step(s: AppSpec, code: KeyCode) -> StepSpec
    recommends
        s.diff_preview is Some,
{
    let preview = s.diff_preview->0;
    let closed = AppSpec { diff_preview: None, ..s };
    match code {
        KeyCode::Esc => quiet(closed),
        KeyCode::Up => quiet(
            AppSpec {
                diff_preview: Some(
                    DiffPreviewSpec { scroll: scroll_up(preview.scroll, 1), ..preview },
                ),
                ..s
            },
        ),
        KeyCode::Down => quiet(
            AppSpec {
                diff_preview: Some(
                    DiffPreviewSpec {
                        scroll: scroll_down(preview.scroll, 1, preview.lines.len()),
                        ..preview
                    },
                ),
                ..s
            },
        ),
        KeyCode::PageUp => quiet(
            AppSpec {
                diff_preview: Some(
                    DiffPreviewSpec { scroll: scroll_up(preview.scroll, 10), ..preview },
                ),
                ..s
            },
        ),
        KeyCode::PageDown => quiet(
            AppSpec {
                diff_preview: Some(
                    DiffPreviewSpec {
                        scroll: scroll_down(preview.scroll, 10, preview.lines.len()),
                        ..preview
                    },
                ),
                ..s
            },
        ),
        KeyCode::Char(c) => if c == 'q' || c == 'n' {
            quiet(closed)
        } else if c == 'y' {
            match preview.pending_restore {
                Some(commit) => StepSpec {
                    app: closed,
                    effects: seq![EffectSpec::Restore { commit }],
                    quit: false,
                },
                None => quiet(closed),
            }
        } else {
            quiet(s)
        },
        _ => quiet(s),
    }
}

/// Enter in the output pane: a carriage return goes to the child, and what
/// was typed, without the white space at its end, becomes a prompt unless it
/// is empty. The prompt is recorded and anchored at the last line; its row
/// goes to the session log and a snapshot is queued for it. What was typed
/// is forgotten either way.
pub open spec fn submit_step(s: AppSpec, id: Seq<char>, now: Seq<char>) -> StepSpec {
    let content = trim_end_spec(s.input_buffer);
    let sent = EffectSpec::Send(seq![13u8]);
    if content.len() == 0 {
        StepSpec {
            app: AppSpec { input_buffer: Seq::empty(), ..s },
            effects: seq![sent],
            quit: false,
        }
    } else {
        let idx = s.messages.len() as int + 1;
        let recorded = record_step(s, id, content, last_line(s.output_lines.len()));
        StepSpec {
            app: AppSpec { input_buffer: Seq::empty(), ..recorded },
            effects: seq![
                sent,
                EffectSpec::LogPrompt(user_prompt_row(s.session_id, idx, content, id, now)),
                EffectSpec::Snapshot { message_id: id, message_idx: idx },
            ],
            quit: false,
        }
    }
}

/// `d` or `r` in the history pane: asks for the diff of the selected
/// prompt's commit, if it has one.
pub open spec fn diff_request_step(s: AppSpec, restore: bool) -> StepSpec {
    if s.selected_message < s.messages.len() {
        match s.messages[s.selected_message as int].snapshot_commit {
            Some(commit) => StepSpec {
                app: s,
                effects: seq![EffectSpec::ShowDiff { commit, restore }],
                quit: false,
            },
            None => quiet(s),
        }
    } else {
        quiet(s)
    }
}

/// A key press in the history pane, with no preview open.
pub open spec fn history_key_step(s: AppSpec, code: KeyCode) -> StepSpec {
    match code {
        KeyCode::Up => quiet(
            AppSpec { selected_message: scroll_up(s.selected_message, 1), ..s },
        ),
        KeyCode::Down => quiet(
            AppSpec {
                selected_message: if s.selected_message + 1 < s.messages.len() {
                    s.selected_message + 1
                } else {
                    s.selected_message
                },
                ..s
            },
        ),
        KeyCode::Enter => if s.selected_message < s.messages.len() {
            quiet(
                AppSpec {
                    output_scroll: s.messages[s.selected_message as int].output_line,
                    follow_output: false,
                    ..s
                },
            )
        } else {
            quiet(s)
        },
        KeyCode::Char(c) => if c == 'd' {
            diff_request_step(s, false)
        } else if c == 'r' {
            diff_request_step(s, true)
        } else {
            quiet(s)
        },
        _ => quiet(s),
    }
}

/// A key press in the output pane, with no preview open: it goes to the
/// child. Arrows go as cursor sequences, backspace as delete, a character
/// with control held as its control byte and any other character as
/// itself. A character typed with no modifier is also remembered, and
/// backspace forgets the last one remembered.
pub open spec fn output_key_step(s: AppSpec, key: KeyEvent, id: Seq<char>, now: Seq<char>) -> StepSpec {
    match key.code {
        KeyCode::Up => sending(s, seq![27u8, 91u8, 65u8]),
        KeyCode::Down => sending(s, seq![27u8, 91u8, 66u8]),
        KeyCode::Right => sending(s, seq![27u8, 91u8, 67u8]),
        KeyCode::Left => sending(s, seq![27u8, 91u8, 68u8]),
        KeyCode::Enter => submit_step(s, id, now),
        KeyCode::Backspace => sending(
            AppSpec {
                input_buffer: if s.input_buffer.len() > 0 {
                    s.input_buffer.drop_last()
                } else {
                    s.input_buffer
                },
                ..s
            },
            seq![127u8],
        ),
        KeyCode::Char(c) => if key.modifiers.none() {
            sending(AppSpec { input_buffer: s.input_buffer.push(c), ..s }, encode_utf8(seq![c]))
        } else if key.modifiers.control {
            sending(s, seq![control_byte(c)])
        } else {
            sending(s, encode_utf8(seq![c]))
        },
        _ => quiet(s),
    }
}

/// What a key press does. Every key press makes a redraw due. With a diff
/// preview open the key goes to the preview. Otherwise control with `q`
/// quits, tab switches the pane, the page keys scroll the output and stop
/// it from following the tail, end makes it follow the tail again, and any
/// other key goes to the focused pane. `id` and `now` stamp the prompt that
/// the key may submit.
pub open spec fn key_step(s: AppSpec, key: KeyEvent, id: Seq<char>, now: Seq<char>) -> StepSpec {
    let s = AppSpec { dirty: true, ..s };
    if s.diff_preview is Some {
        diff_key_step(s, key.code)
    } else if key.code == KeyCode::Char('q') && key.modifiers.only_control() {
        StepSpec { app: s, effects: Seq::empty(), quit: true }
    } else {
        match key.code {
            KeyCode::Tab => quiet(
                AppSpec {
                    focus: match s.focus {
                        Focus::Output => Focus::History,
                        Focus::History => Focus::Output,
                    },
                    ..s
                },
            ),
            KeyCode::PageUp => quiet(
                AppSpec {
                    follow_output: false,
                    output_scroll: scroll_up(s.output_scroll, 10),
                    ..s
                },
            ),
            KeyCode::PageDown => quiet(
                AppSpec {
                    follow_output: false,
                    output_scroll: scroll_down(s.output_scroll, 10, s.output_lines.len()),
                    ..s
                },
            ),
            KeyCode::End => quiet(
                AppSpec {
                    follow_output: true,
                    output_scroll: last_line(s.output_lines.len()),
                    ..s
                },
            ),
            _ => match s.focus {
                Focus::History => history_key_step(s, key.code),
                Focus::Output => output_key_step(s, key, id, now),
            },
        }
    }
}

/// Whether a key press submits a prompt: Enter in the output pane, with no
/// preview open, when something other than white space has been typed.
pub open spec fn submits(s: AppSpec, key: KeyEvent) -> bool {
    &&& s.diff_preview is None
    &&& key.code == KeyCode::Enter
    &&& s.focus == Focus::Output
    &&& trim_end_spec(s.input_buffer).len() > 0
}

/// Only a key press that submits a prompt makes use of the stamp.
pub proof fn lemma_stamp_only_on_submit(
    s: AppSpec,
    key: KeyEvent,
    id: Seq<char>,
    now: Seq<char>,
    other_id: Seq<char>,
    other_now: Seq<char>,
)
    requires
        !submits(s, key),
    ensures
        key_step(s, key, id, now) == key_step(s, key, other_id, other_now),
{
}

/// An output chunk keeps the model well formed. It adds no prompt and takes
/// none away, and all it changes of a prompt is the output attributed to the
/// newest, which grows by the chunk as stripped.
pub proof fn lemma_output_step_wf(s: AppSpec, chunk: Seq<char>)
    requires
        s.wf(),
    ensures
        output_step(s, chunk).wf(),
        output_step(s, chunk).messages.len() == s.messages.len(),
        forall|i: int|
            0 <= i < s.messages.len() - 1 ==> output_step(s, chunk).messages[i]
                == #[trigger] s.messages[i],
        s.messages.len() > 0 ==> output_step(s, chunk).messages.last() == (MessageSpec {
            assistant_text: s.messages.last().assistant_text + strip_ansi_spec(chunk),
            ..s.messages.last()
        }),
{
    let cleaned = strip_ansi_spec(chunk);
    if cleaned.len() > 0 {
        lemma_appended_len(s.output_lines, cleaned);
    }
}

/// Recording a prompt keeps the model well formed. The new prompt comes
/// last, behind the prompts that were there, and the prompts stay numbered
/// from 1 without gaps.
pub proof fn lemma_record_step_wf(s: AppSpec, id: Seq<char>, content: Seq<char>, output_line: nat)
    requires
        s.wf(),
        output_line < s.output_lines.len(),
    ensures
        record_step(s, id, content, output_line).wf(),
        numbered_in_order(record_step(s, id, content, output_line).messages),
        record_step(s, id, content, output_line).messages.drop_last() == s.messages,
        record_step(s, id, content, output_line).messages.last().idx == s.messages.len() + 1,
{
}

/// A snapshot result keeps the model well formed. It changes no prompt's
/// index, and no commit that has landed is ever replaced.
pub proof fn lemma_snapshot_step_wf(s: AppSpec, message_id: Seq<char>, commit: Option<Seq<char>>)
    requires
        s.wf(),
    ensures
        snapshot_step(s, message_id, commit).wf(),
        snapshot_step(s, message_id, commit).messages.len() == s.messages.len(),
        forall|i: int|
            0 <= i < s.messages.len() && (#[trigger] s.messages[i]).snapshot_commit is Some
                ==> snapshot_step(s, message_id, commit).messages[i] == s.messages[i],
{
    lemma_position_from_bounds(s.messages, message_id, 0);
}

/// A position found is a position of the list, at or after the start.
pub proof fn lemma_position_from_bounds(messages: Seq<MessageSpec>, id: Seq<char>, from: int)
    requires
        0 <= from,
    ensures
        position_from(messages, id, from) matches Some(i) ==> from <= i < messages.len()
            && messages[i].id == id,
    decreases messages.len() - from,
{
    if from < messages.len() && messages[from].id != id {
        lemma_position_from_bounds(messages, id, from + 1);
    }
}

/// Where an identifier is found depends on the identifiers alone.
proof fn lemma_position_from_ids(
    before: Seq<MessageSpec>,
    after: Seq<MessageSpec>,
    id: Seq<char>,
    from: int,
)
    requires
        0 <= from,
        before.len() == after.len(),
        forall|i: int| 0 <= i < before.len() ==> (#[trigger] before[i]).id == after[i].id,
    ensures
        position_from(before, id, from) == position_from(after, id, from),
    decreases before.len() - from,
{
    if from < before.len() {
        if before[from].id != id {
            lemma_position_from_ids(before, after, id, from + 1);
        }
    }
}

/// Snapshot results for different prompts can be taken in either order: the
/// model ends up the same.
pub proof fn lemma_snapshot_steps_commute(
    s: AppSpec,
    first_id: Seq<char>,
    first_commit: Option<Seq<char>>,
    second_id: Seq<char>,
    second_commit: Option<Seq<char>>,
)
    requires
        first_id != second_id,
    ensures
        snapshot_step(snapshot_step(s, first_id, first_commit), second_id, second_commit)
            == snapshot_step(snapshot_step(s, second_id, second_commit), first_id, first_commit),
{
    let one = snapshot_step(s, first_id, first_commit);
    let other = snapshot_step(s, second_id, second_commit);
    lemma_position_from_bounds(s.messages, first_id, 0);
    lemma_position_from_bounds(s.messages, second_id, 0);
    lemma_position_from_ids(s.messages, one.messages, second_id, 0);
    lemma_position_from_ids(s.messages, other.messages, first_id, 0);
    assert(snapshot_step(one, second_id, second_commit).messages =~= snapshot_step(
        other,
        first_id,
        first_commit,
    ).messages);
}

/// Opening a preview keeps the model well formed.
pub proof fn lemma_open_preview_step_wf(s: AppSpec, commit: Seq<char>, diff: Seq<char>, restore: bool)
    requires
        s.wf(),
    ensures
        open_preview_step(s, commit, diff, restore).wf(),
{
    if diff.len() > 0 {
        lemma_text_lines_nonempty(diff);
    }
}

/// A key press keeps the model well formed: in particular the prompts stay
/// numbered from 1 without gaps, and the buffer within its bounds. It never
/// touches a prompt that is there; a key that submits adds one prompt behind
/// them, and no other key adds any.
pub proof fn lemma_key_step_wf(s: AppSpec, key: KeyEvent, id: Seq<char>, now: Seq<char>)
    requires
        s.wf(),
    ensures
        key_step(s, key, id, now).app.wf(),
        key_step(s, key, id, now).app.messages.take(s.messages.len() as int) == s.messages,
        key_step(s, key, id, now).app.messages.len() == s.messages.len() + if submits(s, key) {
            1int
        } else {
            0int
        },
        key_step(s, key, id, now).app.output_lines == s.output_lines,
{
}

} // verus!
