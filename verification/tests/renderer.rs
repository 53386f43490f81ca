use spinoff::render::erase_sequence;
use spinoff::render::render;
use spinoff::term::TermLine;

#[test]
fn erase_sequence_of_zero_is_two_carriage_returns() {
    let erase = erase_sequence(0);
    assert_eq!(erase, b"\r\r".to_vec());
}

#[test]
fn erase_sequence_blanks_exactly_previous_length() {
    let erase = erase_sequence(5);
    assert_eq!(erase, b"\r     \r".to_vec());
}

#[test]
fn render_emits_erase_then_content() {
    let (bytes, new_length) = render(5, "ab");
    assert_eq!(bytes, b"\r     \rab".to_vec());
    assert_eq!(new_length, 2);
}

#[test]
fn render_reports_byte_length_not_char_count() {
    // A multi-byte glyph counts by its bytes, so the next erase covers it.
    let (_bytes, new_length) = render(0, "⚠");
    assert_eq!(new_length, "⚠".len());
    assert_eq!(new_length, 3);
}

#[test]
fn render_over_longer_previous_leaves_no_residue() {
    let mut term = TermLine::new();
    let (first, first_length) = render(0, "a very long frame");
    term.feed_all(&first);
    assert_eq!(term.visible_content(), b"a very long frame".to_vec());

    let (second, _second_length) = render(first_length, "ok");
    term.feed_all(&second);
    assert_eq!(term.visible_content(), b"ok".to_vec());
}

#[test]
fn erase_after_render_leaves_line_empty() {
    let mut term = TermLine::new();
    let (bytes, new_length) = render(0, "spinning");
    term.feed_all(&bytes);
    term.feed_all(&erase_sequence(new_length));
    assert_eq!(term.visible_content(), Vec::<u8>::new());
}

#[test]
fn term_line_carriage_return_overwrites() {
    let mut term = TermLine::new();
    term.feed_all(b"abc\rx");
    assert_eq!(term.visible_content(), b"xbc".to_vec());
}

#[test]
fn term_line_strips_trailing_blanks_only() {
    let mut term = TermLine::new();
    term.feed_all(b"a b  ");
    assert_eq!(term.visible_content(), b"a b".to_vec());
}

#[test]
fn delete_last_line_and_write_fmt_reach_the_stream() {
    // Writes go to the real standard output; this exercises the write path
    // end to end: draw a short line, erase it, and terminate the line.
    spinoff::Streams::Stdout.write_fmt("tmp");
    spinoff::utils::delete_last_line(3, spinoff::Streams::Stdout);
    spinoff::Streams::Stdout.write_fmt("\n");
    spinoff::Streams::Stdout.flush();
}
