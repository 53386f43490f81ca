use spinoff::badge_line;
use spinoff::utils::colorize;
use spinoff::Color;

#[test]
fn colorize_none_returns_text_unchanged() {
    assert_eq!(colorize(None, "plain"), "plain");
}

#[test]
fn colorize_styles_when_colors_are_forced() {
    colored::control::set_override(true);
    let styled = colorize(Some(Color::Red), "abc");
    assert_ne!(styled, "abc");
    assert!(styled.contains("abc"));
    assert!(styled.contains('\u{1b}'));
    assert!(styled.contains("31m"));
}

#[test]
fn colorize_true_color_styles_the_text() {
    // Which code the terminal gets for an RGB triple depends on the
    // terminal's advertised support; the text is styled either way.
    colored::control::set_override(true);
    let styled = colorize(Some(Color::TrueColor { r: 1, g: 2, b: 3 }), "x");
    assert_ne!(styled, "x");
    assert!(styled.contains('x'));
    assert!(styled.contains('\u{1b}'));
}

#[test]
fn success_badge_is_green_check_mark() {
    colored::control::set_override(true);
    let line = badge_line(Color::Green, "✓", "Done");
    assert!(line.contains('✓'));
    assert!(line.ends_with(" Done\n"));
    assert!(line.contains("32m"));
}

#[test]
fn fail_badge_is_red_cross() {
    colored::control::set_override(true);
    let line = badge_line(Color::Red, "✗", "Oops");
    assert!(line.contains('✗'));
    assert!(line.contains("31m"));
    assert!(line.contains("Oops"));
    assert!(line.ends_with("\n"));
}

#[test]
fn warn_and_info_badges_carry_their_glyphs() {
    colored::control::set_override(true);
    let warn = badge_line(Color::Yellow, "⚠", "careful");
    assert!(warn.contains('⚠'));
    assert!(warn.contains("33m"));
    let info = badge_line(Color::Blue, "ℹ", "note");
    assert!(info.contains('ℹ'));
    assert!(info.contains("34m"));
}
