use rlbot_gui::console::{
    classify_console_text, console_update_for, merge_console_updates, update_internal_console, ConsoleSignal, ConsoleText,
    ConsoleTextUpdate, OutputLineReader, MAX_CONSOLE_LINES,
};

fn update(text: &str, replace_last: bool) -> ConsoleTextUpdate {
    ConsoleTextUpdate { content: ConsoleText::from(text.to_owned(), None), replace_last }
}

#[test]
fn errors_are_red() {
    let u = ConsoleTextUpdate::from("Some ERROR happened".to_owned(), false);
    assert_eq!(u.content.text, "Some ERROR happened");
    assert_eq!(u.content.color, Some("red".to_owned()));
    assert!(!u.replace_last);
}

#[test]
fn warnings_are_amber() {
    let u = ConsoleTextUpdate::from("Warning: low disk".to_owned(), true);
    assert_eq!(u.content.color, Some("#A1761B".to_owned()));
    assert!(u.replace_last);
}

#[test]
fn information_is_blue() {
    let u = ConsoleTextUpdate::from("INFO started".to_owned(), false);
    assert_eq!(u.content.color, Some("blue".to_owned()));
}

#[test]
fn error_wins_over_warning() {
    let u = ConsoleTextUpdate::from("warning: error info".to_owned(), false);
    assert_eq!(u.content.color, Some("red".to_owned()));
}

#[test]
fn plain_lines_have_no_colour() {
    let u = ConsoleTextUpdate::from("hello there".to_owned(), false);
    assert_eq!(u.content.color, None);
    assert_eq!(u.content.text, "hello there");
}

#[test]
fn console_line_is_made_of_its_parts() {
    let t = ConsoleText::from("x".to_owned(), Some("blue".to_owned()));
    assert_eq!(t.text, "x");
    assert_eq!(t.color, Some("blue".to_owned()));
}

#[test]
fn console_appends_and_replaces() {
    let mut lines = Vec::new();
    update_internal_console(&mut lines, &update("a", false));
    update_internal_console(&mut lines, &update("b", false));
    update_internal_console(&mut lines, &update("c", true));
    let texts: Vec<String> = lines.iter().map(|l| l.text.clone()).collect();
    assert_eq!(texts, vec!["a".to_owned(), "c".to_owned()]);
}

#[test]
fn replacing_on_an_empty_console_just_adds() {
    let mut lines = Vec::new();
    update_internal_console(&mut lines, &update("a", true));
    assert_eq!(lines.len(), 1);
    assert_eq!(lines[0].text, "a");
}

#[test]
fn console_keeps_at_most_the_limit() {
    let mut lines = Vec::new();
    for i in 0..(MAX_CONSOLE_LINES + 5) {
        update_internal_console(&mut lines, &update(&i.to_string(), false));
        assert!(lines.len() <= MAX_CONSOLE_LINES);
    }
    assert_eq!(lines.len(), 840);
    assert_eq!(lines[0].text, "5");
    assert_eq!(lines[839].text, "844");
}

#[test]
fn merged_updates_fold_replacements_into_their_line() {
    let updates = vec![update("a", true), update("b", false), update("c", true), update("d", true), update("e", false)];
    let merged = merge_console_updates(updates);
    let got: Vec<(String, bool)> = merged.iter().map(|u| (u.content.text.clone(), u.replace_last)).collect();
    assert_eq!(got, vec![("a".to_owned(), true), ("d".to_owned(), false), ("e".to_owned(), false)]);
}

#[test]
fn merging_nothing_gives_nothing() {
    assert!(merge_console_updates(Vec::new()).is_empty());
}

#[test]
fn merging_keeps_only_the_first_replacement() {
    let merged = merge_console_updates(vec![update("a", true), update("b", true)]);
    assert_eq!(merged.len(), 1);
    assert_eq!(merged[0].content.text, "b");
    assert!(merged[0].replace_last);
}

fn feed_all(reader: &mut OutputLineReader, bytes: &[u8]) -> Vec<(String, bool)> {
    let mut lines = Vec::new();
    for b in bytes {
        if let Some(line) = reader.feed(Some(*b)) {
            lines.push(line);
        }
    }
    lines
}

#[test]
fn output_is_split_into_lines() {
    let mut reader = OutputLineReader::new();
    let lines = feed_all(&mut reader, b"one\ntwo\n");
    assert_eq!(lines, vec![("one".to_owned(), false), ("two".to_owned(), false)]);
}

#[test]
fn carriage_return_makes_the_next_line_replace() {
    let mut reader = OutputLineReader::new();
    let lines = feed_all(&mut reader, b"10%\r\n20%\rdone\n");
    // A line feed right after a carriage return cancels the replacement.
    assert_eq!(lines, vec![("10%".to_owned(), false), ("20%".to_owned(), false), ("done".to_owned(), true)]);
}

#[test]
fn end_of_output_ends_the_line() {
    let mut reader = OutputLineReader::new();
    assert_eq!(reader.feed(Some(b'x')), None);
    assert_eq!(reader.feed(None), Some(("x".to_owned(), false)));
}

#[test]
fn non_ascii_bytes_become_replacement_characters() {
    let mut reader = OutputLineReader::new();
    let lines = feed_all(&mut reader, &[b'a', 0xC3, b'\n']);
    assert_eq!(lines, vec![("a\u{FFFD}".to_owned(), false)]);
}

#[test]
fn control_lines_are_recognised() {
    assert!(matches!(classify_console_text("-|-*|MATCH START FAILED|*-|-"), ConsoleSignal::MatchStartFailed));
    assert!(matches!(classify_console_text("-|-*|MATCH STARTED|*-|-"), ConsoleSignal::MatchStarted));
    match classify_console_text("-|-*|GTP {\"a\":1}|*-|-") {
        ConsoleSignal::GameTickPacket(p) => assert_eq!(p, "{\"a\":1}"),
        other => panic!("unexpected {other:?}"),
    }
    match classify_console_text("-|-*|STORY_RESULT {}|*-|-") {
        ConsoleSignal::StoryResult(p) => assert_eq!(p, "{}"),
        other => panic!("unexpected {other:?}"),
    }
    assert!(matches!(classify_console_text("just text"), ConsoleSignal::Text));
    assert!(matches!(classify_console_text("-|-*|GTP {}"), ConsoleSignal::Text));
}

#[test]
fn console_update_escapes_html() {
    let u = console_update_for("a<b> error", true).unwrap();
    assert_eq!(u.content.text, "a&lt;b&gt; error");
    assert_eq!(u.content.color, Some("red".to_owned()));
    assert!(u.replace_last);
}
