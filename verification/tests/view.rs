use cc_workbench::engine::{DiffPreview, MessageEntry};
use cc_workbench::usage::UsageEntry;
use cc_workbench::view::{
    bar_fill, bar_text, history_row, history_rows, inner_size, preview_footer, usage_line,
    usage_lines, window,
};

fn entry(name: &str, used: Option<u64>, limit: Option<u64>, status: Option<&str>) -> UsageEntry {
    UsageEntry { name: name.to_string(), used, limit, status: status.map(|s| s.to_string()) }
}

fn message(content: &str, commit: Option<&str>) -> MessageEntry {
    MessageEntry {
        id: "id".to_string(),
        idx: 1,
        content: content.to_string(),
        output_line: 0,
        assistant_text: String::new(),
        snapshot_commit: commit.map(|c| c.to_string()),
    }
}

#[test]
fn the_child_gets_the_inside_of_the_pane() {
    assert_eq!(inner_size(82, 26), (80, 24));
    assert_eq!(inner_size(2, 1), (0, 0));
    assert_eq!(inner_size(0, 3), (0, 1));
}

#[test]
fn the_window_ends_at_the_offset() {
    assert_eq!(window(0, 10, 100), (0, 10));
    assert_eq!(window(9, 10, 100), (0, 10));
    assert_eq!(window(10, 10, 100), (1, 11));
    assert_eq!(window(99, 10, 100), (90, 100));
    assert_eq!(window(3, 10, 5), (0, 5));
    assert_eq!(window(0, 0, 5), (0, 0));
    assert_eq!(window(4, 1, 5), (4, 5));
    assert_eq!(window(0, 10, 0), (0, 0));
}

#[test]
fn the_window_stays_within_the_lines() {
    assert_eq!(window(50, 10, 20), (20, 20));
    assert_eq!(window(25, 10, 20), (16, 20));
}

#[test]
fn the_bar_fills_in_proportion() {
    assert_eq!(bar_fill(20, 0, 100), 0);
    assert_eq!(bar_fill(20, 50, 100), 10);
    assert_eq!(bar_fill(20, 100, 100), 20);
    assert_eq!(bar_fill(20, 250, 100), 20);
    assert_eq!(bar_fill(20, 1, 0), 0);
    assert_eq!(bar_fill(10, 24, 100), 2);
    assert_eq!(bar_fill(10, 25, 100), 3);
    assert_eq!(bar_fill(10, 26, 100), 3);
    assert_eq!(bar_fill(3, 1, 2), 2);
    assert_eq!(bar_fill(u16::MAX, u64::MAX, u64::MAX), u16::MAX);
    assert_eq!(bar_fill(u16::MAX, u64::MAX, 1), u16::MAX);
    assert_eq!(bar_fill(0, 5, 10), 0);
}

#[test]
fn the_bar_text_has_full_then_empty_cells() {
    assert_eq!(bar_text(2, 5), "\u{2588}\u{2588}\u{2591}\u{2591}\u{2591}");
    assert_eq!(bar_text(0, 2), "\u{2591}\u{2591}");
    assert_eq!(bar_text(9, 2), "\u{2588}\u{2588}");
    assert_eq!(bar_text(0, 0), "");
}

#[test]
fn a_usage_line_shows_figures_or_status() {
    assert_eq!(usage_line(&entry("api", Some(12), Some(200000), None)), "api: 12 / 200000 tokens");
    assert_eq!(
        usage_line(&entry("api", Some(12), Some(34), Some("stale"))),
        "api: 12 / 34 tokens"
    );
    assert_eq!(usage_line(&entry("api", None, None, Some("loading"))), "api: loading");
    assert_eq!(usage_line(&entry("api", Some(1), None, None)), "api: unavailable");
}

#[test]
fn the_usage_panel_has_a_bar_for_the_first_provider() {
    let entries = vec![
        entry("local", Some(50), Some(100), None),
        entry("api", None, None, Some("loading")),
        entry("plan", Some(3), Some(9), None),
    ];
    assert_eq!(
        usage_lines(&entries, 6),
        vec!["local: 50 / 100 tokens", "\u{2588}\u{2588}\u{2591}\u{2591}", "api: loading", "plan: 3 / 9 tokens"]
    );
}

#[test]
fn the_usage_panel_without_figures_has_no_bar() {
    let entries = vec![entry("api", None, None, Some("timeout")), entry("m", Some(1), Some(2), None)];
    assert_eq!(usage_lines(&entries, 40), vec!["api: timeout", "m: 1 / 2 tokens"]);
}

#[test]
fn the_usage_panel_without_providers_says_so() {
    assert_eq!(usage_lines(&Vec::new(), 40), vec!["No providers configured"]);
}

#[test]
fn a_history_row_marks_the_snapshot() {
    assert_eq!(history_row(&message("fix it", Some("c1"))), "fix it \u{2713}");
    assert_eq!(history_row(&message("fix it", None)), "fix it \u{2026}");
}

#[test]
fn a_long_prompt_is_cut() {
    let forty = "0123456789012345678901234567890123456789";
    assert_eq!(history_row(&message(forty, None)), format!("{} \u{2026}", forty));
    let longer = format!("{}x", forty);
    assert_eq!(history_row(&message(&longer, Some("c"))), format!("{}\u{2026} \u{2713}", forty));
    let accented: String = "\u{e9}".repeat(41);
    assert_eq!(
        history_row(&message(&accented, None)),
        format!("{}\u{2026} \u{2026}", "\u{e9}".repeat(40))
    );
}

#[test]
fn history_rows_follow_the_prompts() {
    let rows = history_rows(&vec![message("a", None), message("b", Some("c"))]);
    assert_eq!(rows, vec!["a \u{2026}", "b \u{2713}"]);
    assert!(history_rows(&Vec::new()).is_empty());
}

#[test]
fn the_footer_says_how_to_leave() {
    let mut preview = DiffPreview {
        title: String::new(),
        lines: vec![String::new()],
        scroll: 0,
        pending_restore: None,
    };
    assert_eq!(preview_footer(&preview), "Press q or Esc to close");
    preview.pending_restore = Some("c1".to_string());
    assert_eq!(preview_footer(&preview), "Press y to restore, n to cancel");
}
