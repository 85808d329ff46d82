use cc_workbench::lines::{append_output_lines, MAX_LINES};

fn text_len(lines: &[String]) -> usize {
    if lines.is_empty() {
        0
    } else {
        lines.iter().map(|l| l.chars().count()).sum::<usize>() + lines.len() - 1
    }
}

#[test]
fn first_fragment_extends_the_open_line() {
    let mut lines = vec!["ab".to_string()];
    append_output_lines(&mut lines, "cd\nef");
    assert_eq!(lines, vec!["abcd", "ef"]);
    append_output_lines(&mut lines, "gh");
    assert_eq!(lines, vec!["abcd", "efgh"]);
}

#[test]
fn a_trailing_newline_opens_an_empty_line() {
    let mut lines = vec![String::new()];
    append_output_lines(&mut lines, "one\n");
    assert_eq!(lines, vec!["one", ""]);
    append_output_lines(&mut lines, "two\n\n");
    assert_eq!(lines, vec!["one", "two", "", ""]);
}

#[test]
fn an_empty_buffer_takes_the_fragments_as_lines() {
    let mut lines: Vec<String> = Vec::new();
    append_output_lines(&mut lines, "a\nb");
    assert_eq!(lines, vec!["a", "b"]);
    let mut none: Vec<String> = Vec::new();
    append_output_lines(&mut none, "");
    assert_eq!(none, vec![""]);
}

#[test]
fn carriage_returns_are_dropped() {
    let mut lines = vec![String::new()];
    append_output_lines(&mut lines, "a\r\nb\rc\r");
    assert_eq!(lines, vec!["a", "bc"]);
}

#[test]
fn the_buffer_never_holds_more_than_the_cap() {
    let mut lines = vec![String::new()];
    for i in 0..(MAX_LINES + 25) {
        append_output_lines(&mut lines, &format!("line {}\n", i));
        assert!(lines.len() <= MAX_LINES);
    }
    assert_eq!(lines.len(), MAX_LINES);
    assert_eq!(lines[MAX_LINES - 1], "");
    assert_eq!(lines[MAX_LINES - 2], format!("line {}", MAX_LINES + 24));
    assert_eq!(lines[0], format!("line {}", 26));
}

#[test]
fn one_chunk_of_many_lines_keeps_the_newest() {
    let mut lines = vec!["old".to_string()];
    let mut chunk = String::new();
    for i in 0..6000 {
        chunk.push_str(&format!("{}\n", i));
    }
    append_output_lines(&mut lines, &chunk);
    assert_eq!(lines.len(), 5000);
    assert_eq!(lines[0], "1001");
    assert_eq!(lines[4998], "5999");
    assert_eq!(lines[4999], "");
}

#[test]
fn an_oversized_buffer_is_cut_to_the_cap() {
    let mut lines: Vec<String> = (0..5003).map(|i| i.to_string()).collect();
    append_output_lines(&mut lines, "x");
    assert_eq!(lines.len(), 5000);
    assert_eq!(lines[0], "3");
    assert_eq!(lines[4999], "5002x");
}

#[test]
fn text_grows_by_the_chunk_without_eviction() {
    let mut lines = vec!["abc".to_string(), "de".to_string()];
    let before = text_len(&lines);
    assert_eq!(before, 6);
    append_output_lines(&mut lines, "fg\nhij\n");
    assert_eq!(text_len(&lines), before + 7);
    append_output_lines(&mut lines, "k\r\n");
    assert_eq!(text_len(&lines), before + 7 + 2);
}

#[test]
fn text_shrinks_by_what_is_evicted() {
    let mut lines: Vec<String> = (0..5000).map(|i| format!("{:04}", i)).collect();
    let before = text_len(&lines);
    append_output_lines(&mut lines, "ab\ncd\nef");
    // two lines of four characters leave, each with its line break
    assert_eq!(text_len(&lines), before + 8 - 10);
    assert_eq!(lines[0], "0002");
    assert_eq!(lines[4997], "4999ab");
}

/// Every text of up to `len` characters over `alphabet`.
fn texts(alphabet: &[char], len: usize) -> Vec<String> {
    let mut all = vec![String::new()];
    let mut last = vec![String::new()];
    for _ in 0..len {
        let mut next = Vec::new();
        for text in &last {
            for c in alphabet {
                let mut longer = text.clone();
                longer.push(*c);
                next.push(longer);
            }
        }
        all.extend(next.iter().cloned());
        last = next;
    }
    all
}

#[test]
fn the_buffer_spells_its_text_followed_by_the_chunk() {
    for start in [Vec::new(), vec![String::new()], vec!["ab".to_string(), "c".to_string()]] {
        for chunk in texts(&['x', '\r', '\n'], 6) {
            let mut lines: Vec<String> = start.clone();
            append_output_lines(&mut lines, &chunk);
            let expected = format!("{}{}", start.join("\n"), chunk.replace('\r', ""));
            assert_eq!(lines.join("\n"), expected, "{:?} + {:?}", start, chunk);
            let parts: Vec<&str> = expected.split('\n').collect();
            assert_eq!(lines, parts);
            assert_eq!(text_len(&lines), text_len(&start) + chunk.replace('\r', "").chars().count());
        }
    }
}

#[test]
fn chunks_can_be_cut_anywhere() {
    let text = "first line\nsecond \u{e9}\r\nthird\n\nfifth";
    let mut whole = vec![String::new()];
    append_output_lines(&mut whole, text);
    let chars: Vec<char> = text.chars().collect();
    for cut in 0..=chars.len() {
        let head: String = chars[..cut].iter().collect();
        let tail: String = chars[cut..].iter().collect();
        let mut lines = vec![String::new()];
        append_output_lines(&mut lines, &head);
        append_output_lines(&mut lines, &tail);
        assert_eq!(lines, whole, "cut at {}", cut);
    }
}
