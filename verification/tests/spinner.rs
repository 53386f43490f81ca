use spinoff::message_line;
use spinoff::persist_line;
use spinoff::term::TermLine;
use spinoff::Spinner;
use spinoff::SpinnerFrames;
use spinoff::Streams;

#[test]
fn stop_line_round_trips_message() {
    let frames = SpinnerFrames::new(vec![String::from(">")], 100);
    let sp = Spinner::new(frames, "Loading...", None);
    assert_eq!(sp.stop_line(), "Loading...\n");
    sp.stop();
}

#[test]
fn message_line_appends_terminator() {
    assert_eq!(message_line("Bye"), "Bye\n");
    assert_eq!(message_line(""), "\n");
}

#[test]
fn persist_line_joins_symbol_and_message() {
    assert_eq!(persist_line("🍕", "Pizza!"), "🍕 Pizza!\n");
}

#[test]
fn first_tick_draws_frame_zero() {
    let frames = SpinnerFrames::new(
        vec![String::from(">"), String::from(">>"), String::from(">>>")],
        100,
    );
    let sp = Spinner::new(frames, "Loading", None);
    let mut anim = sp.animation();
    let mut term = TermLine::new();
    term.feed_all(&anim.tick());
    assert_eq!(term.visible_content(), b"> Loading".to_vec());
    sp.clear();
}

#[test]
fn ticks_cycle_through_frames_and_wrap() {
    let frames = SpinnerFrames::new(
        vec![String::from(">"), String::from(">>"), String::from(">>>")],
        100,
    );
    let sp = Spinner::new(frames, "Loading", None);
    let mut anim = sp.animation();
    let mut term = TermLine::new();
    term.feed_all(&anim.tick());
    assert_eq!(term.visible_content(), b"> Loading".to_vec());
    term.feed_all(&anim.tick());
    assert_eq!(term.visible_content(), b">> Loading".to_vec());
    term.feed_all(&anim.tick());
    assert_eq!(term.visible_content(), b">>> Loading".to_vec());
    term.feed_all(&anim.tick());
    assert_eq!(term.visible_content(), b"> Loading".to_vec());
    sp.clear();
}

#[test]
fn update_restarts_cycle_at_frame_zero() {
    let frames = SpinnerFrames::new(vec![String::from("a"), String::from("b")], 100);
    let mut sp = Spinner::new(frames, "one", None);
    let mut anim = sp.animation();
    let mut term = TermLine::new();
    term.feed_all(&anim.tick());
    term.feed_all(&anim.tick());
    assert_eq!(term.visible_content(), b"b one".to_vec());

    let fresh = SpinnerFrames::new(vec![String::from("x"), String::from("y")], 50);
    sp.update(fresh, "two", None);
    term.feed_all(&anim.finish());
    assert_eq!(term.visible_content(), Vec::<u8>::new());

    let mut next = sp.animation();
    term.feed_all(&next.tick());
    assert_eq!(term.visible_content(), b"x two".to_vec());
    sp.clear();
}

#[test]
fn update_text_keeps_frames_and_restarts() {
    let frames = SpinnerFrames::new(vec![String::from("-"), String::from("+")], 100);
    let mut sp = Spinner::new(frames, "first", None);
    let mut anim = sp.animation();
    let mut term = TermLine::new();
    term.feed_all(&anim.tick());
    term.feed_all(&anim.tick());

    sp.update_text("second");
    term.feed_all(&anim.finish());

    let mut next = sp.animation();
    term.feed_all(&next.tick());
    assert_eq!(term.visible_content(), b"- second".to_vec());
    sp.clear();
}

#[test]
fn each_update_retires_one_generation() {
    let frames = SpinnerFrames::new(vec![String::from(".")], 100);
    let mut sp = Spinner::new(frames, "go", None);
    assert_eq!(sp.generation(), 1);
    let first = sp.animation();
    assert_eq!(first.generation(), 1);

    sp.update_text("went");
    assert_eq!(sp.generation(), 2);
    // The retired loop's generation is no longer the handle's.
    assert_ne!(first.generation(), sp.generation());
    let second = sp.animation();
    assert_eq!(second.generation(), 2);
    sp.clear();
}

#[test]
fn pizza_scenario_leaves_only_final_line() {
    let frames = SpinnerFrames::new(
        vec![String::from(">"), String::from(">>"), String::from(">>>")],
        100,
    );
    let sp = Spinner::new(frames, "Loading", None);
    let mut anim = sp.animation();
    let mut term = TermLine::new();
    // More than 250 time-units at 100 per frame: at least three frames drawn.
    term.feed_all(&anim.tick());
    term.feed_all(&anim.tick());
    term.feed_all(&anim.tick());
    assert_eq!(term.visible_content(), b">>> Loading".to_vec());
    // Cancellation: the loop's last act erases the animated line.
    term.feed_all(&anim.finish());
    assert_eq!(term.visible_content(), Vec::<u8>::new());
    // The persisted status line is exactly the symbol, the text, and the
    // line terminator; no spinner characters survive.
    assert_eq!(persist_line("🍕", "Pizza!"), "🍕 Pizza!\n");
    sp.stop_and_persist("🍕", "Pizza!");
}

#[test]
fn multibyte_frames_are_erased_in_full() {
    let frames = SpinnerFrames::new(vec![String::from("⠋⠙"), String::from("-")], 80);
    let sp = Spinner::new(frames, "sync", None);
    let mut anim = sp.animation();
    let mut term = TermLine::new();
    term.feed_all(&anim.tick());
    term.feed_all(&anim.tick());
    // The short second frame fully covers the multi-byte first one.
    assert_eq!(term.visible_content(), b"- sync".to_vec());
    sp.clear();
}

#[test]
fn frames_clone_preserves_frames_and_interval() {
    let frames = SpinnerFrames::new(vec![String::from("*"), String::from("+")], 42);
    let copy = frames.clone();
    assert_eq!(copy.frames, vec![String::from("*"), String::from("+")]);
    assert_eq!(copy.interval, 42);
}

#[test]
fn stop_with_message_overrides_text() {
    let frames = SpinnerFrames::new(vec![String::from(".")], 100);
    let sp = Spinner::new(frames, "Hello", None);
    assert_eq!(message_line("Bye"), "Bye\n");
    sp.stop_with_message("Bye");
}

#[test]
fn spinner_on_stderr_keeps_its_stream() {
    let frames = SpinnerFrames::new(vec![String::from(".")], 100);
    let sp = Spinner::new_with_stream(frames, "to stderr", None, Streams::Stderr);
    let anim = sp.animation();
    assert!(matches!(anim.stream(), Streams::Stderr));
    sp.clear();
}

#[test]
fn default_stream_is_stdout() {
    assert!(matches!(Streams::default(), Streams::Stdout));
}
