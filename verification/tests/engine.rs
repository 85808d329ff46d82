use cc_workbench::config::Config;
use cc_workbench::engine::{
    handle_diff_keys, handle_key_event, open_diff_preview, App, Effect, KeyOutcome,
};
use cc_workbench::keys::{KeyCode, KeyEvent, KeyModifiers};
use cc_workbench::log::Stamp;
use cc_workbench::model::Focus;
use cc_workbench::snapshot::SnapshotResult;

const NONE: KeyModifiers = KeyModifiers { shift: false, control: false, alt: false, other: false };
const CONTROL: KeyModifiers = KeyModifiers { shift: false, control: true, alt: false, other: false };
const SHIFT: KeyModifiers = KeyModifiers { shift: true, control: false, alt: false, other: false };

fn app() -> App {
    App::new(Config::load(None, None, "agent".to_string(), None), "session-1".to_string())
}

fn press(app: &mut App, code: KeyCode) -> KeyOutcome {
    handle_key_event(KeyEvent { code, modifiers: NONE }, app)
}

fn press_with(app: &mut App, code: KeyCode, modifiers: KeyModifiers) -> KeyOutcome {
    handle_key_event(KeyEvent { code, modifiers }, app)
}

fn type_text(app: &mut App, text: &str) {
    for c in text.chars() {
        press(app, KeyCode::Char(c));
    }
}

fn submit(app: &mut App, text: &str) -> KeyOutcome {
    type_text(app, text);
    press(app, KeyCode::Enter)
}

fn sent(outcome: &KeyOutcome) -> Vec<Vec<u8>> {
    outcome
        .effects
        .iter()
        .filter_map(|e| match e {
            Effect::Send(bytes) => Some(bytes.clone()),
            _ => None,
        })
        .collect()
}

fn land(app: &mut App, position: usize, commit: &str) {
    let id = app.messages()[position].id.clone();
    app.update_snapshot(SnapshotResult { message_id: id, commit: Some(commit.to_string()) });
}

#[test]
fn a_new_model_is_empty_and_follows_the_tail() {
    let app = app();
    assert!(app.messages().is_empty());
    assert_eq!(*app.output_lines(), vec![String::new()]);
    assert_eq!(app.output_scroll(), 0);
    assert!(app.follow_output());
    assert_eq!(app.input_buffer(), "");
    assert_eq!(app.focus(), Focus::Output);
    assert_eq!(app.selected_message(), 0);
    assert!(app.diff_preview().is_none());
    assert!(app.dirty());
    assert_eq!(app.session_id(), "session-1");
    assert_eq!(app.config().context_limit, 200_000);
    assert!(app.can_record());
}

#[test]
fn output_is_attributed_to_the_newest_prompt() {
    let mut app = app();
    submit(&mut app, "first");
    app.handle_output("foo");
    app.handle_output("bar");
    submit(&mut app, "second");
    app.handle_output("baz");
    assert_eq!(app.messages()[0].assistant_text, "foobar");
    assert_eq!(app.messages()[1].assistant_text, "baz");
    assert_eq!(app.messages()[0].content, "first");
    assert_eq!(app.messages()[1].content, "second");
}

#[test]
fn output_before_any_prompt_is_attributed_to_none() {
    let mut app = app();
    app.handle_output("hello\nworld");
    assert!(app.messages().is_empty());
    assert_eq!(*app.output_lines(), vec!["hello", "world"]);
}

#[test]
fn attributed_output_is_stripped_but_keeps_carriage_returns() {
    let mut app = app();
    submit(&mut app, "p");
    app.handle_output("\u{1b}[32mok\u{1b}[0m\r\n");
    assert_eq!(app.messages()[0].assistant_text, "ok\r\n");
    assert_eq!(*app.output_lines(), vec!["ok", ""]);
}

#[test]
fn follow_mode_pins_the_offset_to_the_tail() {
    let mut app = app();
    app.handle_output("one\ntwo\n");
    let len = app.output_lines().len();
    assert_eq!(len, 3);
    assert_eq!(app.output_scroll(), len - 1);
    app.handle_output("three\n");
    assert_eq!(app.output_lines().len(), 4);
    assert_eq!(app.output_scroll(), 3);
    press(&mut app, KeyCode::PageUp);
    assert!(!app.follow_output());
    assert_eq!(app.output_scroll(), 0);
    app.handle_output("four\nfive\n");
    assert_eq!(app.output_lines().len(), 6);
    assert_eq!(app.output_scroll(), 0);
    press(&mut app, KeyCode::End);
    assert!(app.follow_output());
    assert_eq!(app.output_scroll(), 5);
}

#[test]
fn page_keys_scroll_by_ten_and_stop_following() {
    let mut app = app();
    for i in 0..30 {
        app.handle_output(&format!("{}\n", i));
    }
    assert_eq!(app.output_scroll(), 30);
    press(&mut app, KeyCode::PageUp);
    assert_eq!(app.output_scroll(), 20);
    assert!(!app.follow_output());
    press(&mut app, KeyCode::End);
    press(&mut app, KeyCode::PageDown);
    assert_eq!(app.output_scroll(), 30);
    assert!(!app.follow_output());
    press(&mut app, KeyCode::PageUp);
    press(&mut app, KeyCode::PageUp);
    press(&mut app, KeyCode::PageUp);
    press(&mut app, KeyCode::PageUp);
    assert_eq!(app.output_scroll(), 0);
    press(&mut app, KeyCode::PageDown);
    assert_eq!(app.output_scroll(), 10);
}

#[test]
fn an_empty_chunk_changes_nothing() {
    let mut app = app();
    app.mark_drawn();
    app.handle_output("\u{1b}[0m");
    assert!(!app.dirty());
    assert_eq!(*app.output_lines(), vec![String::new()]);
    app.handle_output("x");
    assert!(app.dirty());
}

#[test]
fn typed_characters_go_to_the_child_and_are_remembered() {
    let mut app = app();
    let outcome = press(&mut app, KeyCode::Char('h'));
    assert!(!outcome.quit);
    assert_eq!(sent(&outcome), vec![b"h".to_vec()]);
    let outcome = press(&mut app, KeyCode::Char('\u{e9}'));
    assert_eq!(sent(&outcome), vec![vec![0xc3, 0xa9]]);
    assert_eq!(app.input_buffer(), "h\u{e9}");
}

#[test]
fn d_and_r_are_ordinary_characters_in_the_output_pane() {
    let mut app = app();
    let d = press(&mut app, KeyCode::Char('d'));
    let r = press(&mut app, KeyCode::Char('r'));
    assert_eq!(sent(&d), vec![b"d".to_vec()]);
    assert_eq!(sent(&r), vec![b"r".to_vec()]);
    assert_eq!(app.input_buffer(), "dr");
}

#[test]
fn control_sends_the_control_byte() {
    let mut app = app();
    let outcome = press_with(&mut app, KeyCode::Char('c'), CONTROL);
    assert_eq!(sent(&outcome), vec![vec![0x03]]);
    assert_eq!(app.input_buffer(), "");
    let outcome = press_with(&mut app, KeyCode::Char('A'), SHIFT);
    assert_eq!(sent(&outcome), vec![b"A".to_vec()]);
    assert_eq!(app.input_buffer(), "");
}

#[test]
fn control_q_quits() {
    let mut app = app();
    let outcome = press_with(&mut app, KeyCode::Char('q'), CONTROL);
    assert!(outcome.quit);
    assert!(outcome.effects.is_empty());
    let plain = press(&mut app, KeyCode::Char('q'));
    assert!(!plain.quit);
}

#[test]
fn arrows_and_backspace_go_to_the_child() {
    let mut app = app();
    assert_eq!(sent(&press(&mut app, KeyCode::Up)), vec![b"\x1b[A".to_vec()]);
    assert_eq!(sent(&press(&mut app, KeyCode::Down)), vec![b"\x1b[B".to_vec()]);
    assert_eq!(sent(&press(&mut app, KeyCode::Right)), vec![b"\x1b[C".to_vec()]);
    assert_eq!(sent(&press(&mut app, KeyCode::Left)), vec![b"\x1b[D".to_vec()]);
    type_text(&mut app, "ab");
    assert_eq!(sent(&press(&mut app, KeyCode::Backspace)), vec![vec![0x7f]]);
    assert_eq!(app.input_buffer(), "a");
    press(&mut app, KeyCode::Backspace);
    press(&mut app, KeyCode::Backspace);
    assert_eq!(app.input_buffer(), "");
}

#[test]
fn enter_submits_the_trimmed_prompt() {
    let mut app = app();
    app.handle_output("banner\n> ");
    let outcome = submit(&mut app, "  fix the bug  ");
    assert_eq!(outcome.effects.len(), 3);
    assert!(matches!(&outcome.effects[0], Effect::Send(bytes) if bytes == b"\r"));
    let id = match &outcome.effects[1] {
        Effect::LogPrompt(row) => {
            assert_eq!(row.session_id, "session-1");
            assert_eq!(row.idx, 1);
            assert_eq!(row.role, "user");
            assert_eq!(row.content, "  fix the bug");
            assert!(!row.created_at.is_empty());
            assert_eq!(row.id.len(), 36);
            row.id.clone()
        }
        other => panic!("unexpected effect {:?}", other),
    };
    match &outcome.effects[2] {
        Effect::Snapshot(job) => {
            assert_eq!(job.message_id, id);
            assert_eq!(job.message_idx, 1);
        }
        other => panic!("unexpected effect {:?}", other),
    }
    assert_eq!(app.messages().len(), 1);
    let message = &app.messages()[0];
    assert_eq!(message.id, id);
    assert_eq!(message.idx, 1);
    assert_eq!(message.content, "  fix the bug");
    assert_eq!(message.output_line, 1);
    assert_eq!(message.assistant_text, "");
    assert_eq!(message.snapshot_commit, None);
    assert_eq!(app.input_buffer(), "");
    assert_eq!(app.selected_message(), 0);
}

#[test]
fn enter_on_white_space_only_sends_the_return() {
    let mut app = app();
    let outcome = submit(&mut app, "   ");
    assert_eq!(outcome.effects.len(), 1);
    assert_eq!(sent(&outcome), vec![b"\r".to_vec()]);
    assert!(app.messages().is_empty());
    assert_eq!(app.input_buffer(), "");
}

#[test]
fn prompts_are_numbered_from_one_without_gaps() {
    let mut app = app();
    for i in 0..12 {
        submit(&mut app, &format!("prompt {}", i));
        submit(&mut app, " ");
    }
    assert_eq!(app.messages().len(), 12);
    for (position, message) in app.messages().iter().enumerate() {
        assert_eq!(message.idx, position as i64 + 1);
        assert_eq!(message.content, format!("prompt {}", position));
    }
    assert_eq!(app.selected_message(), 11);
}

#[test]
fn a_stamped_key_uses_the_stamp() {
    let mut app = app();
    type_text(&mut app, "go");
    let outcome = app.handle_key_with(
        KeyEvent { code: KeyCode::Enter, modifiers: NONE },
        Stamp { id: "id-1".to_string(), now: "2024-01-01T00:00:00+00:00".to_string() },
    );
    match &outcome.effects[1] {
        Effect::LogPrompt(row) => {
            assert_eq!(row.id, "id-1");
            assert_eq!(row.created_at, "2024-01-01T00:00:00+00:00");
        }
        other => panic!("unexpected effect {:?}", other),
    }
    assert_eq!(app.messages()[0].id, "id-1");
}

#[test]
fn a_snapshot_result_lands_once() {
    let mut app = app();
    submit(&mut app, "a");
    submit(&mut app, "b");
    let id = app.messages()[1].id.clone();
    let row = app
        .update_snapshot(SnapshotResult { message_id: id.clone(), commit: Some("c2".to_string()) })
        .unwrap();
    assert_eq!(row.session_id, "session-1");
    assert_eq!(row.idx, 2);
    assert_eq!(row.commit, "c2");
    assert_eq!(row.id.len(), 36);
    assert_ne!(row.id, id);
    assert_eq!(app.messages()[1].snapshot_commit.as_deref(), Some("c2"));
    assert_eq!(app.messages()[0].snapshot_commit, None);
    let again =
        app.update_snapshot(SnapshotResult { message_id: id, commit: Some("other".to_string()) });
    assert!(again.is_none());
    assert_eq!(app.messages()[1].snapshot_commit.as_deref(), Some("c2"));
}

#[test]
fn a_failed_or_unknown_snapshot_lands_nowhere() {
    let mut app = app();
    submit(&mut app, "a");
    let id = app.messages()[0].id.clone();
    app.mark_drawn();
    assert!(app.update_snapshot(SnapshotResult { message_id: id, commit: None }).is_none());
    assert!(app.dirty());
    assert!(app
        .update_snapshot(SnapshotResult {
            message_id: "nobody".to_string(),
            commit: Some("c".to_string())
        })
        .is_none());
    assert_eq!(app.messages()[0].snapshot_commit, None);
}

#[test]
fn a_stamped_snapshot_row_uses_the_stamp() {
    let mut app = app();
    submit(&mut app, "a");
    let id = app.messages()[0].id.clone();
    let row = app
        .update_snapshot_with(
            SnapshotResult { message_id: id, commit: Some("c1".to_string()) },
            Stamp { id: "row-1".to_string(), now: "t".to_string() },
        )
        .unwrap();
    assert_eq!((row.id.as_str(), row.created_at.as_str(), row.idx), ("row-1", "t", 1));
}

#[test]
fn tab_switches_the_pane() {
    let mut app = app();
    press(&mut app, KeyCode::Tab);
    assert_eq!(app.focus(), Focus::History);
    press(&mut app, KeyCode::Tab);
    assert_eq!(app.focus(), Focus::Output);
}

#[test]
fn the_history_pane_moves_the_selection() {
    let mut app = app();
    submit(&mut app, "a");
    submit(&mut app, "b");
    submit(&mut app, "c");
    press(&mut app, KeyCode::Tab);
    assert_eq!(app.selected_message(), 2);
    assert!(press(&mut app, KeyCode::Down).effects.is_empty());
    assert_eq!(app.selected_message(), 2);
    press(&mut app, KeyCode::Up);
    press(&mut app, KeyCode::Up);
    assert_eq!(app.selected_message(), 0);
    press(&mut app, KeyCode::Up);
    assert_eq!(app.selected_message(), 0);
    press(&mut app, KeyCode::Down);
    assert_eq!(app.selected_message(), 1);
    assert!(press(&mut app, KeyCode::Left).effects.is_empty());
    assert!(press(&mut app, KeyCode::Char('x')).effects.is_empty());
    assert_eq!(app.input_buffer(), "");
}

#[test]
fn enter_in_the_history_pane_seeks_the_prompt() {
    let mut app = app();
    app.handle_output("l0\nl1\nl2\n");
    submit(&mut app, "a");
    app.handle_output("answer\nmore\n");
    press(&mut app, KeyCode::Tab);
    let outcome = press(&mut app, KeyCode::Enter);
    assert!(outcome.effects.is_empty());
    assert_eq!(app.output_scroll(), 3);
    assert!(!app.follow_output());
    assert_eq!(app.messages().len(), 1);
}

#[test]
fn d_and_r_ask_for_the_diff_of_a_landed_snapshot() {
    let mut app = app();
    submit(&mut app, "a");
    press(&mut app, KeyCode::Tab);
    assert!(press(&mut app, KeyCode::Char('d')).effects.is_empty());
    land(&mut app, 0, "c1");
    let d = press(&mut app, KeyCode::Char('d'));
    assert!(
        matches!(&d.effects[..], [Effect::ShowDiff { commit, restore: false }] if commit == "c1")
    );
    let r = press(&mut app, KeyCode::Char('r'));
    assert!(
        matches!(&r.effects[..], [Effect::ShowDiff { commit, restore: true }] if commit == "c1")
    );
    assert!(app.diff_preview().is_none());
}

#[test]
fn the_preview_shows_the_diff_lines() {
    let mut app = app();
    open_diff_preview(&mut app, "c1", "--- a\n+++ b\n+hello world\n", false);
    let preview = app.diff_preview().as_ref().unwrap();
    assert_eq!(preview.title, "Diff for c1");
    assert_eq!(preview.lines, vec!["--- a", "+++ b", "+hello world"]);
    assert_eq!(preview.scroll, 0);
    assert_eq!(preview.pending_restore, None);
}

#[test]
fn an_empty_diff_shows_a_note() {
    let mut app = app();
    open_diff_preview(&mut app, "c1", "", true);
    let preview = app.diff_preview().as_ref().unwrap();
    assert_eq!(preview.lines, vec!["(no changes)"]);
    assert_eq!(preview.pending_restore.as_deref(), Some("c1"));
}

#[test]
fn the_preview_scrolls_within_its_lines() {
    let mut app = app();
    let diff: String = (0..25).map(|i| format!("line {}\n", i)).collect();
    open_diff_preview(&mut app, "c1", &diff, false);
    let scroll = |app: &App| app.diff_preview().as_ref().unwrap().scroll;
    press(&mut app, KeyCode::Up);
    assert_eq!(scroll(&app), 0);
    press(&mut app, KeyCode::Down);
    assert_eq!(scroll(&app), 1);
    press(&mut app, KeyCode::PageDown);
    assert_eq!(scroll(&app), 11);
    press(&mut app, KeyCode::PageDown);
    press(&mut app, KeyCode::PageDown);
    assert_eq!(scroll(&app), 24);
    press(&mut app, KeyCode::Down);
    assert_eq!(scroll(&app), 24);
    press(&mut app, KeyCode::PageUp);
    assert_eq!(scroll(&app), 14);
    press(&mut app, KeyCode::Char('x'));
    press(&mut app, KeyCode::Tab);
    assert_eq!(scroll(&app), 14);
    assert_eq!(app.focus(), Focus::Output);
}

#[test]
fn the_preview_takes_the_keys_while_it_is_open() {
    let mut app = app();
    open_diff_preview(&mut app, "c1", "x\n", false);
    let outcome = press_with(&mut app, KeyCode::Char('q'), CONTROL);
    assert!(!outcome.quit);
    assert!(app.diff_preview().is_none());
    open_diff_preview(&mut app, "c1", "x\n", false);
    let typed = press(&mut app, KeyCode::Char('a'));
    assert!(typed.effects.is_empty());
    assert_eq!(app.input_buffer(), "");
    press(&mut app, KeyCode::Esc);
    assert!(app.diff_preview().is_none());
}

#[test]
fn y_restores_only_when_armed() {
    let mut app = app();
    open_diff_preview(&mut app, "c1", "x\n", true);
    let armed = handle_diff_keys(KeyEvent { code: KeyCode::Char('y'), modifiers: NONE }, &mut app);
    assert!(matches!(&armed.effects[..], [Effect::Restore { commit }] if commit == "c1"));
    assert!(app.diff_preview().is_none());
    open_diff_preview(&mut app, "c1", "x\n", false);
    let unarmed = handle_diff_keys(KeyEvent { code: KeyCode::Char('y'), modifiers: NONE }, &mut app);
    assert!(unarmed.effects.is_empty());
    assert!(app.diff_preview().is_none());
    open_diff_preview(&mut app, "c1", "x\n", true);
    let cancelled = press(&mut app, KeyCode::Char('n'));
    assert!(cancelled.effects.is_empty());
    assert!(app.diff_preview().is_none());
}

#[test]
fn every_key_makes_a_redraw_due() {
    let mut app = app();
    app.mark_drawn();
    press(&mut app, KeyCode::Other);
    assert!(app.dirty());
    app.mark_drawn();
    assert!(!app.dirty());
    app.mark_dirty();
    assert!(app.dirty());
}

#[test]
fn context_tokens_sum_prompts_and_answers() {
    let mut app = app();
    assert_eq!(app.estimate_context_tokens(), 0);
    submit(&mut app, "abcde");
    app.handle_output("123456789");
    submit(&mut app, "abcd");
    assert_eq!(app.estimate_context_tokens(), 2 + 3 + 1);
    app.handle_output("x");
    assert_eq!(app.estimate_context_tokens(), 2 + 3 + 1 + 1);
}

#[test]
fn will_submit_tells_when_enter_records_a_prompt() {
    let mut app = app();
    let enter = KeyEvent { code: KeyCode::Enter, modifiers: NONE };
    assert!(!app.will_submit(enter));
    type_text(&mut app, " x ");
    assert!(app.will_submit(enter));
    assert!(!app.will_submit(KeyEvent { code: KeyCode::Tab, modifiers: NONE }));
    press(&mut app, KeyCode::Tab);
    assert!(!app.will_submit(enter));
}

#[test]
fn anchors_stay_within_the_buffer_after_eviction() {
    let mut app = app();
    submit(&mut app, "early");
    for i in 0..5100 {
        app.handle_output(&format!("{}\n", i));
    }
    assert_eq!(app.output_lines().len(), 5000);
    assert_eq!(app.output_scroll(), 4999);
    press(&mut app, KeyCode::Tab);
    press(&mut app, KeyCode::Enter);
    assert_eq!(app.output_scroll(), 0);
    assert!(app.output_scroll() < app.output_lines().len());
}
