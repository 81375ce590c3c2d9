use nca_cli::transcript_view::Tone;
use nca_cli::viewport::{
    highlight_line, max_scroll, TranscriptViewport, ViewportEvent, ViewportOutcome,
};

fn spans(parts: &[(Tone, &str)]) -> Vec<(Tone, String)> {
    parts.iter().map(|(t, s)| (*t, s.to_string())).collect()
}

fn marked(parts: &[(Tone, &str, bool)]) -> Vec<(Tone, String, bool)> {
    parts.iter().map(|(t, s, m)| (*t, s.to_string(), *m)).collect()
}

#[test]
fn selection_cuts_spans_at_its_columns() {
    let line = spans(&[(Tone::Text, "hello "), (Tone::Muted, "world")]);
    assert_eq!(
        highlight_line(&line, 0, Some(((0, 2), (0, 8)))),
        marked(&[
            (Tone::Text, "he", false),
            (Tone::Text, "llo ", true),
            (Tone::Muted, "wo", true),
            (Tone::Muted, "rld", false),
        ])
    );
}

#[test]
fn selection_inside_one_span_cuts_it_in_three() {
    let line = spans(&[(Tone::Text, "abcdef")]);
    assert_eq!(
        highlight_line(&line, 0, Some(((0, 1), (0, 3)))),
        marked(&[(Tone::Text, "a", false), (Tone::Text, "bc", true), (Tone::Text, "def", false)])
    );
    assert_eq!(
        highlight_line(&line, 0, Some(((0, 5), (0, 1)))),
        marked(&[(Tone::Text, "a", false), (Tone::Text, "bcde", true), (Tone::Text, "f", false)])
    );
}

#[test]
fn lines_inside_and_outside_a_selection() {
    let line = spans(&[(Tone::Text, "ab"), (Tone::Muted, "cd")]);
    assert_eq!(
        highlight_line(&line, 1, Some(((0, 0), (2, 1)))),
        marked(&[(Tone::Text, "ab", true), (Tone::Muted, "cd", true)])
    );
    assert_eq!(
        highlight_line(&line, 3, Some(((0, 0), (2, 1)))),
        marked(&[(Tone::Text, "ab", false), (Tone::Muted, "cd", false)])
    );
    assert_eq!(highlight_line(&line, 0, None), marked(&[(Tone::Text, "ab", false), (Tone::Muted, "cd", false)]));
    // An empty column range marks nothing.
    assert_eq!(
        highlight_line(&line, 0, Some(((0, 2), (0, 2)))),
        marked(&[(Tone::Text, "ab", false), (Tone::Muted, "cd", false)])
    );
}

#[test]
fn wide_characters_count_their_columns() {
    let line = spans(&[(Tone::Text, "日本語")]);
    assert_eq!(
        highlight_line(&line, 0, Some(((0, 2), (0, 4)))),
        marked(&[(Tone::Text, "日", false), (Tone::Text, "本", true), (Tone::Text, "語", false)])
    );
}

#[test]
fn press_drag_release_copies_the_range() {
    let mut v = TranscriptViewport::new();
    let press = ViewportEvent::Press { line: Some(4), col: 2, shift: false, on_option: false };
    assert_eq!(v.handle(press), ViewportOutcome::Nothing);
    assert_eq!(v.selection, Some(((4, 2), (4, 2))));
    assert!(v.dragging);
    assert_eq!(v.handle(ViewportEvent::Drag { line: Some(5), col: 7 }), ViewportOutcome::Nothing);
    assert_eq!(v.selection, Some(((4, 2), (5, 7))));
    assert_eq!(v.handle(ViewportEvent::Release), ViewportOutcome::Copy((4, 2), (5, 7)));
    assert!(!v.dragging);
    assert_eq!(v.drag_anchor, None);
}

#[test]
fn click_without_drag_copies_nothing_and_option_click_answers() {
    let mut v = TranscriptViewport::new();
    v.handle(ViewportEvent::Press { line: Some(1), col: 1, shift: false, on_option: false });
    assert_eq!(v.handle(ViewportEvent::Release), ViewportOutcome::Nothing);
    let out = v.handle(ViewportEvent::Press { line: Some(2), col: 0, shift: false, on_option: true });
    assert_eq!(out, ViewportOutcome::AnswerOption);
    assert_eq!(v.selection, None);
    assert!(!v.dragging);
}

#[test]
fn wheel_and_keys_scroll_within_bounds() {
    let mut v = TranscriptViewport::new();
    v.follow_tail = false;
    v.handle(ViewportEvent::WheelDown { max_scroll: 10 });
    assert_eq!(v.scroll_lines, 3);
    assert!(!v.follow_tail);
    v.scroll_lines = 9;
    v.handle(ViewportEvent::WheelDown { max_scroll: 10 });
    assert_eq!(v.scroll_lines, 10);
    assert!(v.follow_tail);
    v.handle(ViewportEvent::WheelUp);
    assert_eq!(v.scroll_lines, 7);
    assert!(!v.follow_tail);
    v.handle(ViewportEvent::LineUp);
    assert_eq!(v.scroll_lines, 6);
    v.handle(ViewportEvent::LineDown { max_scroll: 6 });
    assert_eq!(v.scroll_lines, 6);
    assert!(v.follow_tail);
    v.handle(ViewportEvent::Reset);
    assert_eq!((v.scroll_lines, v.follow_tail), (0, true));
}

#[test]
fn settle_follows_tail_or_clamps() {
    assert_eq!(max_scroll(50, 20), 30);
    assert_eq!(max_scroll(5, 20), 0);
    let mut v = TranscriptViewport::new();
    assert_eq!(v.settle(50, 20), (30, 50));
    v.follow_tail = false;
    v.scroll_lines = 45;
    assert_eq!(v.settle(50, 20), (30, 50));
    v.scroll_lines = 3;
    assert_eq!(v.settle(50, 20), (3, 23));
    assert_eq!(v.settle(5, 20), (0, 5));
}
