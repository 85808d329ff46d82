//! The engine's model and its reducer. The model is owned by one loop; every
//! input of that loop (an output chunk, a snapshot result, a key press) is
//! folded into it by one function of this module, which also says what the
//! loop has to do next.

use crate::config::Config;
use crate::keys::{KeyCode, KeyEvent};
use crate::lines::{append_output_lines, lemma_appended_len};
use crate::log::{PromptRow, SnapshotRow, Stamp};
use crate::model::{
    context_tokens, diff_key_step, diff_request_step, history_key_step, initial_app, key_step,
    landing, lemma_position_from_bounds,
    open_preview_step, output_key_step, output_step, position_from, record_step, scroll_down,
    scroll_up, snapshot_row, snapshot_step, submit_step, submits, AppSpec, DiffPreviewSpec,
    EffectSpec, Focus, MessageSpec, StepSpec,
};
use crate::snapshot::{SnapshotJob, SnapshotResult};
use crate::text::{
    estimate_tokens, lemma_text_lines_nonempty, lines_of, push_char, string_from, strip_ansi,
    to_chars, trim_end,
};
use vstd::prelude::*;
use vstd::utf8::encode_utf8;

verus! {

/// One prompt of the session.
#[derive(Debug)]
pub struct MessageEntry {
    /// Identifier of the prompt.
    pub id: String,
    /// Position of the prompt in its session, counted from 1.
    pub idx: i64,
    /// The prompt's text, without white space at its end.
    pub content: String,
    /// The line of the output buffer at which the answer begins.
    pub output_line: usize,
    /// All output received between this prompt and the next.
    pub assistant_text: String,
    /// Digest of the prompt's snapshot, once it has landed.
    pub snapshot_commit: Option<String>,
}

impl DeepView for MessageEntry {
    type V = MessageSpec;

    open spec fn deep_view(&self) -> MessageSpec {
        MessageSpec {
            id: self.id@,
            idx: self.idx as int,
            content: self.content@,
            output_line: self.output_line as nat,
            assistant_text: self.assistant_text@,
            snapshot_commit: self.snapshot_commit.deep_view(),
        }
    }
}

/// A diff shown over the panes.
#[derive(Debug)]
pub struct DiffPreview {
    pub title: String,
    pub lines: Vec<String>,
    /// The line the view is scrolled to.
    pub scroll: usize,
    /// The commit that `y` restores, if the preview is armed.
    pub pending_restore: Option<String>,
}

impl DeepView for DiffPreview {
    type V = DiffPreviewSpec;

    open spec fn deep_view(&self) -> DiffPreviewSpec {
        DiffPreviewSpec {
            title: self.title@,
            lines: self.lines.deep_view(),
            scroll: self.scroll as nat,
            pending_restore: self.pending_restore.deep_view(),
        }
    }
}

/// Something the engine loop must do on the model's behalf.
#[derive(Debug)]
pub enum Effect {
    /// Write these bytes to the child's terminal.
    Send(Vec<u8>),
    /// Append this row to the session log.
    LogPrompt(PromptRow),
    /// Queue this snapshot job.
    Snapshot(SnapshotJob),
    /// Fetch the diff of this commit against the working tree and hand it to
    /// `open_diff_preview`, armed for restore or not.
    ShowDiff { commit: String, restore: bool },
    /// Restore the workspace to this commit.
    Restore { commit: String },
}

impl DeepView for Effect {
    type V = EffectSpec;

    open spec fn deep_view(&self) -> EffectSpec {
        match self {
            Effect::Send(bytes) => EffectSpec::Send(bytes@),
            Effect::LogPrompt(row) => EffectSpec::LogPrompt(row.deep_view()),
            Effect::Snapshot(job) => EffectSpec::Snapshot {
                message_id: job.message_id@,
                message_idx: job.message_idx as int,
            },
            Effect::ShowDiff { commit, restore } => EffectSpec::ShowDiff {
                commit: commit@,
                restore: *restore,
            },
            Effect::Restore { commit } => EffectSpec::Restore { commit: commit@ },
        }
    }
}

/// What a key press asks of the engine loop.
#[derive(Debug)]
pub struct KeyOutcome {
    /// Whether to leave the loop.
    pub quit: bool,
    /// What to do, in this order. A failure ends the session.
    pub effects: Vec<Effect>,
}

impl KeyOutcome {
    /// The step that this outcome and the model `app` make together.
    pub open spec fn with(&self, app: AppSpec) -> StepSpec {
        StepSpec { app, effects: self.effects.deep_view(), quit: self.quit }
    }
}

/// The engine's model.
#[derive(Debug)]
pub struct App {
    config: Config,
    session_id: String,
    messages: Vec<MessageEntry>,
    output_lines: Vec<String>,
    output_scroll: usize,
    follow_output: bool,
    input_buffer: String,
    focus: Focus,
    selected_message: usize,
    diff_preview: Option<DiffPreview>,
    dirty: bool,
}

impl View for App {
    type V = AppSpec;

    closed spec fn view(&self) -> AppSpec {
        AppSpec {
            config: self.config.deep_view(),
            session_id: self.session_id@,
            messages: self.messages.deep_view(),
            output_lines: self.output_lines.deep_view(),
            output_scroll: self.output_scroll as nat,
            follow_output: self.follow_output,
            input_buffer: self.input_buffer@,
            focus: self.focus,
            selected_message: self.selected_message as nat,
            diff_preview: self.diff_preview.deep_view(),
            dirty: self.dirty,
        }
    }
}

/// An outcome that asks for nothing.
fn nothing() -> (outcome: KeyOutcome)
    ensures
        !outcome.quit,
        outcome.effects.deep_view() == Seq::<EffectSpec>::empty(),
{
    let effects: Vec<Effect> = Vec::new();
    KeyOutcome { quit: false, effects }
}

/// An outcome that asks for one effect.
fn only(effect: Effect) -> (outcome: KeyOutcome)
    ensures
        !outcome.quit,
        outcome.effects.deep_view() == seq![effect.deep_view()],
{
    let mut effects: Vec<Effect> = Vec::new();
    effects.push(effect);
    KeyOutcome { quit: false, effects }
}

/// The three bytes of a cursor sequence: escape, `[` and `last`.
fn cursor_sequence(last: u8) -> (bytes: Vec<u8>)
    ensures
        bytes@ == seq![27u8, 91u8, last],
{
    let mut bytes: Vec<u8> = Vec::new();
    bytes.push(27);
    bytes.push(91);
    bytes.push(last);
    bytes
}

/// One byte, as a list.
fn single_byte(byte: u8) -> (bytes: Vec<u8>)
    ensures
        bytes@ == seq![byte],
{
    let mut bytes: Vec<u8> = Vec::new();
    bytes.push(byte);
    bytes
}

/// The UTF-8 encoding of one character.
fn char_bytes(c: char) -> (bytes: Vec<u8>)
    ensures
        bytes@ == encode_utf8(seq![c]),
{
    let mut s = String::new();
    push_char(&mut s, c);
    s.as_str().as_bytes_vec()
}

/// `s` without its last character, if it has one.
fn without_last(s: &String) -> (out: String)
    ensures
        out@ == if s@.len() > 0 {
            s@.drop_last()
        } else {
            s@
        },
{
    let chars = to_chars(s.as_str());
    let keep: usize = if chars.len() > 0 {
        chars.len() - 1
    } else {
        0
    };
    let out = string_from(&chars, 0, keep);
    out
}

impl App {
    /// What holds of the model at all times.
    pub open spec fn wf(&self) -> bool {
        self@.wf()
    }

    /// Whether one more prompt can be numbered.
    pub open spec fn has_room(&self) -> bool {
        self@.messages.len() < i64::MAX
    }

    /// The model at the start of a session.
    pub fn new(config: Config, session_id: String) -> (app: App)
        ensures
            app@ == initial_app(config.deep_view(), session_id@),
            app.wf(),
            app.has_room(),
    {
        let mut output_lines: Vec<String> = Vec::new();
        output_lines.push(String::new());
        let messages: Vec<MessageEntry> = Vec::new();
        let app = App {
            config,
            session_id,
            messages,
            output_lines,
            output_scroll: 0,
            follow_output: true,
            input_buffer: String::new(),
            focus: Focus::Output,
            selected_message: 0,
            diff_preview: None,
            dirty: true,
        };
        proof {
            assert(app@.messages =~= Seq::<MessageSpec>::empty());
            assert(app@.output_lines =~= seq![Seq::<char>::empty()]);
        }
        app
    }

    /// The configuration the engine runs with.
    pub fn config(&self) -> (config: &Config)
        ensures
            config.deep_view() == self@.config,
    {
        &self.config
    }

    /// Identifier of the session.
    pub fn session_id(&self) -> (id: &String)
        ensures
            id@ == self@.session_id,
    {
        &self.session_id
    }

    /// The prompts of the session, in the order of submission.
    pub fn messages(&self) -> (messages: &Vec<MessageEntry>)
        ensures
            messages.deep_view() == self@.messages,
    {
        &self.messages
    }

    /// The output line buffer.
    pub fn output_lines(&self) -> (lines: &Vec<String>)
        ensures
            lines.deep_view() == self@.output_lines,
    {
        &self.output_lines
    }

    /// The line the output view is scrolled to.
    pub fn output_scroll(&self) -> (offset: usize)
        ensures
            offset == self@.output_scroll,
    {
        self.output_scroll
    }

    /// Whether the output view follows the tail of the buffer.
    pub fn follow_output(&self) -> (follow: bool)
        ensures
            follow == self@.follow_output,
    {
        self.follow_output
    }

    /// What has been typed since the last prompt.
    pub fn input_buffer(&self) -> (typed: &String)
        ensures
            typed@ == self@.input_buffer,
    {
        &self.input_buffer
    }

    /// The pane that takes the keys.
    pub fn focus(&self) -> (focus: Focus)
        ensures
            focus == self@.focus,
    {
        self.focus
    }

    /// Position of the selected prompt.
    pub fn selected_message(&self) -> (selected: usize)
        ensures
            selected == self@.selected_message,
    {
        self.selected_message
    }

    /// The open diff preview, if any.
    pub fn diff_preview(&self) -> (preview: &Option<DiffPreview>)
        ensures
            preview.deep_view() == self@.diff_preview,
    {
        &self.diff_preview
    }

    /// Whether a redraw is due.
    pub fn dirty(&self) -> (dirty: bool)
        ensures
            dirty == self@.dirty,
    {
        self.dirty
    }

    /// Raises the redraw flag: something outside the model changed what is
    /// shown.
    pub fn mark_dirty(&mut self)
        ensures
            final(self)@ == (AppSpec { dirty: true, ..old(self)@ }),
    {
        self.dirty = true;
    }

    /// Clears the redraw flag after a draw.
    pub fn mark_drawn(&mut self)
        ensures
            final(self)@ == (AppSpec { dirty: false, ..old(self)@ }),
    {
        self.dirty = false;
    }

    /// Whether one more prompt can be numbered.
    pub fn can_record(&self) -> (room: bool)
        ensures
            room == self.has_room(),
    {
        (self.messages.len() as u64) < (i64::MAX as u64)
    }

    /// Takes in a chunk of the child's output: control sequences are
    /// stripped, and if anything is left it is appended to the line buffer
    /// and attributed to the newest prompt; a view that follows the tail
    /// moves to the last line.
    pub fn handle_output(&mut self, chunk: &str)
        requires
            old(self).wf(),
        ensures
            final(self)@ == output_step(old(self)@, chunk@),
            final(self).wf(),
    {
        let cleaned = strip_ansi(chunk);
        if cleaned.as_str().is_empty() {
            return ;
        }
        let ghost before = self@;
        proof {
            lemma_appended_len(before.output_lines, cleaned@);
        }
        append_output_lines(&mut self.output_lines, cleaned.as_str());
        if let Some(mut last) = self.messages.pop() {
            let ghost prior = last.deep_view();
            last.assistant_text.append(cleaned.as_str());
            self.messages.push(last);
            proof {
                assert(self.messages.deep_view() =~= before.messages.update(
                    before.messages.len() - 1,
                    MessageSpec { assistant_text: prior.assistant_text + cleaned@, ..prior },
                ));
            }
        }
        if self.follow_output {
            self.output_scroll = self.output_lines.len() - 1;
        }
        self.dirty = true;
    }

    /// Estimated tokens of the whole session: for each prompt, the estimate
    /// of its text plus the estimate of the output attributed to it. A sum
    /// beyond 64 bits is reported as the largest 64-bit number.
    pub fn estimate_context_tokens(&self) -> (total: u64)
        ensures
            total == if context_tokens(self@.messages) <= u64::MAX {
                context_tokens(self@.messages)
            } else {
                u64::MAX as nat
            },
    {
        let ghost all = self.messages.deep_view();
        let mut total: u64 = 0;
        let mut i: usize = 0;
        while i < self.messages.len()
            invariant
                i <= self.messages.len(),
                all == self.messages.deep_view(),
                total == if context_tokens(all.take(i as int)) <= u64::MAX {
                    context_tokens(all.take(i as int))
                } else {
                    u64::MAX as nat
                },
            decreases self.messages.len() - i,
        {
            proof {
                assert(all.take(i + 1).drop_last() =~= all.take(i as int));
            }
            let asked = estimate_tokens(self.messages[i].content.as_str());
            let answered = estimate_tokens(self.messages[i].assistant_text.as_str());
            total = total.saturating_add(asked).saturating_add(answered);
            i += 1;
        }
        proof {
            assert(all.take(i as int) =~= all);
        }
        total
    }

    /// Records a submitted prompt under the identifier `message_id`: it gets
    /// the next index, is anchored at `output_line` and becomes the
    /// selection. Returns the snapshot job to queue for it.
    pub fn record_user_message(&mut self, message_id: String, content: String, output_line: usize) -> (job:
        SnapshotJob)
        requires
            old(self).wf(),
            old(self).has_room(),
            output_line < old(self)@.output_lines.len(),
        ensures
            final(self)@ == record_step(old(self)@, message_id@, content@, output_line as nat),
            final(self).wf(),
            job.message_id@ == message_id@,
            job.message_idx == old(self)@.messages.len() + 1,
    {
        let ghost before = self@;
        let idx: i64 = self.messages.len() as i64 + 1;
        let job = SnapshotJob { message_id: message_id.clone(), message_idx: idx };
        let entry = MessageEntry {
            id: message_id,
            idx,
            content,
            output_line,
            assistant_text: String::new(),
            snapshot_commit: None,
        };
        self.messages.push(entry);
        self.selected_message = self.messages.len() - 1;
        proof {
            assert(self.messages.deep_view() =~= before.messages.push(entry.deep_view()));
        }
        job
    }

    /// Position of the first prompt whose identifier is `id`.
    fn find_message(&self, id: &String) -> (found: Option<usize>)
        ensures
            match found {
                Some(i) => position_from(self@.messages, id@, 0) == Some(i as int),
                None => position_from(self@.messages, id@, 0) is None,
            },
    {
        let ghost all = self.messages.deep_view();
        let mut i: usize = 0;
        while i < self.messages.len()
            invariant
                i <= self.messages.len(),
                all == self.messages.deep_view(),
                position_from(all, id@, 0) == position_from(all, id@, i as int),
            decreases self.messages.len() - i,
        {
            if self.messages[i].id == *id {
                return Some(i);
            }
            i += 1;
        }
        None
    }

    /// Takes in the result of a snapshot job, stamping the log row with
    /// `stamp`. If the result carries a commit and its prompt has none yet,
    /// the prompt gets the commit and the row to append to the session log is
    /// returned; otherwise nothing lands. A redraw is due either way.
    pub fn update_snapshot_with(&mut self, res: SnapshotResult, stamp: Stamp) -> (row: Option<
        SnapshotRow,
    >)
        requires
            old(self).wf(),
        ensures
            final(self)@ == snapshot_step(old(self)@, res.message_id@, res.commit.deep_view()),
            row.deep_view() == snapshot_row(
                old(self)@,
                res.message_id@,
                res.commit.deep_view(),
                stamp.id@,
                stamp.now@,
            ),
            final(self).wf(),
    {
        let ghost before = self@;
        self.dirty = true;
        let found = self.find_message(&res.message_id);
        proof {
            lemma_position_from_bounds(before.messages, res.message_id@, 0);
        }
        let i = match found {
            Some(i) => i,
            None => {
                return None;
            },
        };
        let commit = match res.commit {
            Some(commit) => commit,
            None => {
                return None;
            },
        };
        if self.messages[i].snapshot_commit.is_some() {
            return None;
        }
        let mut entry = self.messages.remove(i);
        let ghost prior = entry.deep_view();
        let row = SnapshotRow {
            id: stamp.id,
            session_id: self.session_id.clone(),
            idx: entry.idx,
            commit: commit.clone(),
            created_at: stamp.now,
        };
        entry.snapshot_commit = Some(commit);
        self.messages.insert(i, entry);
        proof {
            assert(self.messages.deep_view() =~= before.messages.update(
                i as int,
                MessageSpec { snapshot_commit: res.commit.deep_view(), ..prior },
            ));
        }
        Some(row)
    }

    /// Takes in the result of a snapshot job. If it lands, the row to append
    /// to the session log is returned, under a new identifier and the current
    /// time.
    pub fn update_snapshot(&mut self, res: SnapshotResult) -> (row: Option<SnapshotRow>)
        requires
            old(self).wf(),
        ensures
            final(self)@ == snapshot_step(old(self)@, res.message_id@, res.commit.deep_view()),
            final(self).wf(),
            row is Some == landing(old(self)@, res.message_id@, res.commit.deep_view()) is Some,
            exists|id: Seq<char>, now: Seq<char>|
                row.deep_view() == #[trigger] snapshot_row(
                    old(self)@,
                    res.message_id@,
                    res.commit.deep_view(),
                    id,
                    now,
                ),
    {
        self.update_snapshot_with(res, Stamp::draw())
    }
}

/// `offset` moved up by `by`, stopping at 0.
fn moved_up(offset: usize, by: usize) -> (moved: usize)
    ensures
        moved == scroll_up(offset as nat, by as nat),
{
    if offset >= by {
        offset - by
    } else {
        0
    }
}

/// `offset` moved down by `by`, stopping at the last of `len` lines.
fn moved_down(offset: usize, by: usize, len: usize) -> (moved: usize)
    ensures
        moved == scroll_down(offset as nat, by as nat, len as nat),
{
    let last: usize = if len > 0 {
        len - 1
    } else {
        0
    };
    if offset <= last && last - offset >= by {
        offset + by
    } else {
        last
    }
}

impl App {
    /// A key press while a diff preview is open.
    fn diff_key(&mut self, code: KeyCode) -> (outcome: KeyOutcome)
        requires
            old(self).wf(),
            old(self)@.diff_preview is Some,
        ensures
            outcome.with(final(self)@) == diff_key_step(old(self)@, code),
            final(self).wf(),
    {
        let mut preview = match self.diff_preview.take() {
            Some(preview) => preview,
            None => {
                return nothing();
            },
        };
        match code {
            KeyCode::Esc => nothing(),
            KeyCode::Up => {
                preview.scroll = moved_up(preview.scroll, 1);
                self.diff_preview = Some(preview);
                nothing()
            },
            KeyCode::Down => {
                preview.scroll = moved_down(preview.scroll, 1, preview.lines.len());
                self.diff_preview = Some(preview);
                nothing()
            },
            KeyCode::PageUp => {
                preview.scroll = moved_up(preview.scroll, 10);
                self.diff_preview = Some(preview);
                nothing()
            },
            KeyCode::PageDown => {
                preview.scroll = moved_down(preview.scroll, 10, preview.lines.len());
                self.diff_preview = Some(preview);
                nothing()
            },
            KeyCode::Char(c) => {
                if c == 'q' || c == 'n' {
                    nothing()
                } else if c == 'y' {
                    match preview.pending_restore {
                        Some(commit) => only(Effect::Restore { commit }),
                        None => nothing(),
                    }
                } else {
                    self.diff_preview = Some(preview);
                    nothing()
                }
            },
            _ => {
                self.diff_preview = Some(preview);
                nothing()
            },
        }
    }

    /// `d` or `r` in the history pane.
    fn diff_request(&self, restore: bool) -> (outcome: KeyOutcome)
        ensures
            outcome.with(self@) == diff_request_step(self@, restore),
    {
        if self.selected_message < self.messages.len() {
            match &self.messages[self.selected_message].snapshot_commit {
                Some(commit) => only(Effect::ShowDiff { commit: commit.clone(), restore }),
                None => nothing(),
            }
        } else {
            nothing()
        }
    }

    /// A key press in the history pane, with no preview open.
    fn history_key(&mut self, code: KeyCode) -> (outcome: KeyOutcome)
        requires
            old(self).wf(),
        ensures
            outcome.with(final(self)@) == history_key_step(old(self)@, code),
            final(self).wf(),
    {
        match code {
            KeyCode::Up => {
                self.selected_message = moved_up(self.selected_message, 1);
                nothing()
            },
            KeyCode::Down => {
                if self.selected_message < self.messages.len() && self.selected_message + 1
                    < self.messages.len() {
                    self.selected_message = self.selected_message + 1;
                }
                nothing()
            },
            KeyCode::Enter => {
                if self.selected_message < self.messages.len() {
                    self.output_scroll = self.messages[self.selected_message].output_line;
                    self.follow_output = false;
                }
                nothing()
            },
            KeyCode::Char(c) => {
                if c == 'd' {
                    self.diff_request(false)
                } else if c == 'r' {
                    self.diff_request(true)
                } else {
                    nothing()
                }
            },
            _ => nothing(),
        }
    }

    /// Enter in the output pane.
    fn submit(&mut self, stamp: Stamp) -> (outcome: KeyOutcome)
        requires
            old(self).wf(),
            old(self).has_room(),
        ensures
            outcome.with(final(self)@) == submit_step(old(self)@, stamp.id@, stamp.now@),
            final(self).wf(),
    {
        let content = trim_end(self.input_buffer.as_str());
        self.input_buffer = String::new();
        let mut effects: Vec<Effect> = Vec::new();
        let sent = Effect::Send(single_byte(13));
        effects.push(sent);
        if content.as_str().is_empty() {
            proof {
                assert(effects.deep_view() =~= seq![sent.deep_view()]);
            }
            return KeyOutcome { quit: false, effects };
        }
        let output_line: usize = self.output_lines.len() - 1;
        let row = PromptRow {
            id: stamp.id.clone(),
            session_id: self.session_id.clone(),
            idx: self.messages.len() as i64 + 1,
            role: "user".to_owned(),
            content: content.clone(),
            created_at: stamp.now,
        };
        let job = self.record_user_message(stamp.id, content, output_line);
        let logged = Effect::LogPrompt(row);
        let queued = Effect::Snapshot(job);
        effects.push(logged);
        effects.push(queued);
        proof {
            assert(effects.deep_view() =~= seq![
                sent.deep_view(),
                logged.deep_view(),
                queued.deep_view(),
            ]);
        }
        KeyOutcome { quit: false, effects }
    }

    /// A key press in the output pane, with no preview open.
    fn output_key(&mut self, key: KeyEvent, stamp: Stamp) -> (outcome: KeyOutcome)
        requires
            old(self).wf(),
            old(self).has_room(),
        ensures
            outcome.with(final(self)@) == output_key_step(old(self)@, key, stamp.id@, stamp.now@),
            final(self).wf(),
    {
        match key.code {
            KeyCode::Up => only(Effect::Send(cursor_sequence(65))),
            KeyCode::Down => only(Effect::Send(cursor_sequence(66))),
            KeyCode::Right => only(Effect::Send(cursor_sequence(67))),
            KeyCode::Left => only(Effect::Send(cursor_sequence(68))),
            KeyCode::Enter => self.submit(stamp),
            KeyCode::Backspace => {
                self.input_buffer = without_last(&self.input_buffer);
                only(Effect::Send(single_byte(127)))
            },
            KeyCode::Char(c) => {
                if key.modifiers.is_none() {
                    push_char(&mut self.input_buffer, c);
                    only(Effect::Send(char_bytes(c)))
                } else if key.modifiers.control {
                    let byte: u8 = ((c as u32) % 32) as u8;
                    only(Effect::Send(single_byte(byte)))
                } else {
                    only(Effect::Send(char_bytes(c)))
                }
            },
            _ => nothing(),
        }
    }

    /// Whether `key` submits a prompt: Enter in the output pane, with no
    /// preview open, when something other than white space has been typed.
    pub fn will_submit(&self, key: KeyEvent) -> (yes: bool)
        ensures
            yes == submits(self@, key),
    {
        if self.diff_preview.is_some() {
            return false;
        }
        match key.code {
            KeyCode::Enter => match self.focus {
                Focus::Output => !trim_end(self.input_buffer.as_str()).as_str().is_empty(),
                Focus::History => false,
            },
            _ => false,
        }
    }

    /// Folds a key press into the model, stamping the prompt that the key may
    /// submit with `stamp`, and says what the engine loop has to do.
    pub fn handle_key_with(&mut self, key: KeyEvent, stamp: Stamp) -> (outcome: KeyOutcome)
        requires
            old(self).wf(),
            old(self).has_room(),
        ensures
            outcome.with(final(self)@) == key_step(old(self)@, key, stamp.id@, stamp.now@),
            final(self).wf(),
    {
        self.dirty = true;
        if self.diff_preview.is_some() {
            return self.diff_key(key.code);
        }
        let quits = match key.code {
            KeyCode::Char(c) => c == 'q' && key.modifiers.is_only_control(),
            _ => false,
        };
        if quits {
            let effects: Vec<Effect> = Vec::new();
            proof {
                assert(effects.deep_view() =~= Seq::<EffectSpec>::empty());
            }
            return KeyOutcome { quit: true, effects };
        }
        match key.code {
            KeyCode::Tab => {
                self.focus = match self.focus {
                    Focus::Output => Focus::History,
                    Focus::History => Focus::Output,
                };
                nothing()
            },
            KeyCode::PageUp => {
                self.follow_output = false;
                self.output_scroll = moved_up(self.output_scroll, 10);
                nothing()
            },
            KeyCode::PageDown => {
                self.follow_output = false;
                self.output_scroll = moved_down(self.output_scroll, 10, self.output_lines.len());
                nothing()
            },
            KeyCode::End => {
                self.follow_output = true;
                self.output_scroll = self.output_lines.len() - 1;
                nothing()
            },
            _ => match self.focus {
                Focus::History => self.history_key(key.code),
                Focus::Output => self.output_key(key, stamp),
            },
        }
    }
}

/// Folds a key press into the model and says what the engine loop has to do.
/// A prompt that the key submits gets a new identifier, and its log row the
/// current time.
pub fn handle_key_event(key: KeyEvent, app: &mut App) -> (outcome: KeyOutcome)
    requires
        old(app).wf(),
        old(app).has_room(),
    ensures
        final(app).wf(),
        exists|id: Seq<char>, now: Seq<char>|
            outcome.with(final(app)@) == #[trigger] key_step(old(app)@, key, id, now),
{
    let stamp = if app.will_submit(key) {
        Stamp::draw()
    } else {
        Stamp::blank()
    };
    let outcome = app.handle_key_with(key, stamp);
    outcome
}

/// Folds a key press into the model while a diff preview is open.
pub fn handle_diff_keys(key: KeyEvent, app: &mut App) -> (outcome: KeyOutcome)
    requires
        old(app).wf(),
        old(app)@.diff_preview is Some,
    ensures
        outcome.with(final(app)@) == diff_key_step(old(app)@, key.code),
        final(app).wf(),
{
    app.diff_key(key.code)
}

/// Opens the diff preview for `commit` on the diff text that the version
/// store printed. With `pending_restore` set the preview is armed: `y` will
/// ask for the restore of `commit`.
pub fn open_diff_preview(app: &mut App, commit: &str, diff: &str, pending_restore: bool)
    requires
        old(app).wf(),
    ensures
        final(app)@ == open_preview_step(old(app)@, commit@, diff@, pending_restore),
        final(app).wf(),
{
    let lines = if diff.is_empty() {
        let mut lines: Vec<String> = Vec::new();
        lines.push("(no changes)".to_owned());
        proof {
            assert(lines.deep_view() =~= seq!["(no changes)"@]);
        }
        lines
    } else {
        proof {
            lemma_text_lines_nonempty(diff@);
        }
        lines_of(diff)
    };
    let mut title = "Diff for ".to_owned();
    title.append(commit);
    app.diff_preview = Some(
        DiffPreview {
            title,
            lines,
            scroll: 0,
            pending_restore: if pending_restore {
                Some(commit.to_owned())
            } else {
                None
            },
        },
    );
    app.dirty = true;
}

} // verus!
