use weathr::render::{GlyphColor, TerminalRenderer, WriteText};

fn text_of(t: &WriteText) -> String {
    match t {
        WriteText::Glyph(c) => c.to_string(),
        WriteText::Line(s) => s.clone(),
    }
}

#[test]
fn writes_are_buffered_until_flush() {
    let mut r = TerminalRenderer::new(80, 24);
    assert_eq!(r.get_size(), (80, 24));
    r.render_char(3, 4, 'x', GlyphColor::Cyan);
    r.render_line_colored(0, 0, "hello", GlyphColor::White);
    let commit = r.flush();
    assert!(!commit.clear);
    assert_eq!(commit.writes.len(), 2);
    assert_eq!(commit.writes[0].x, 3);
    assert_eq!(commit.writes[0].y, 4);
    assert_eq!(text_of(&commit.writes[0].text), "x");
    assert_eq!(commit.writes[0].color, GlyphColor::Cyan);
    assert_eq!(text_of(&commit.writes[1].text), "hello");
    let empty = r.flush();
    assert!(empty.writes.is_empty());
}

#[test]
fn clear_drops_queued_writes_and_marks_commit() {
    let mut r = TerminalRenderer::new(80, 24);
    r.render_char(1, 1, 'a', GlyphColor::Blue);
    r.clear();
    r.render_char(2, 2, 'b', GlyphColor::Blue);
    let commit = r.flush();
    assert!(commit.clear);
    assert_eq!(commit.writes.len(), 1);
    assert_eq!(text_of(&commit.writes[0].text), "b");
}

#[test]
fn update_size_tracks_viewport() {
    let mut r = TerminalRenderer::new(80, 24);
    r.update_size(120, 40);
    assert_eq!(r.get_size(), (120, 40));
}

#[test]
fn centered_block_uses_longest_line() {
    let mut r = TerminalRenderer::new(80, 24);
    let lines = vec!["ab".to_string(), "abcd".to_string()];
    r.render_centered(&lines, 5);
    let commit = r.flush();
    assert_eq!(commit.writes.len(), 2);
    // longest line is 4 wide, so the block starts at (80 - 4) / 2
    assert_eq!(commit.writes[0].x, 38);
    assert_eq!(commit.writes[0].y, 5);
    assert_eq!(text_of(&commit.writes[0].text), "ab");
    assert_eq!(commit.writes[1].x, 38);
    assert_eq!(commit.writes[1].y, 6);
    assert_eq!(text_of(&commit.writes[1].text), "abcd");
}

#[test]
fn block_wider_than_surface_starts_at_zero() {
    let mut r = TerminalRenderer::new(4, 24);
    let lines = vec!["abcdefgh".to_string()];
    r.render_centered(&lines, 0);
    let commit = r.flush();
    assert_eq!(commit.writes[0].x, 0);
}
