use glow_bloom::typewriter::{Typewriter, TypewriterTick, CURSOR};

fn tick(advance: Option<usize>, time_ms: usize, cursor_phase_on: bool) -> TypewriterTick {
    TypewriterTick { advance, time_ms, cursor_phase_on }
}

fn s(chars: Vec<char>) -> String {
    chars.into_iter().collect()
}

#[test]
fn nothing_due_shows_cursor_only() {
    let mut t = Typewriter::new("Hello");
    assert!(!t.is_finished());
    assert_eq!(s(t.update(tick(None, 0, false))), format!("{}", CURSOR));
}

#[test]
fn reveal_with_glitch() {
    let mut t = Typewriter::new("Hello");
    // 3 ms: 3 % 3 == 0, glitch index 3 % 3 == 0: '&'
    assert_eq!(s(t.update(tick(Some(2), 3, false))), format!("He&{}", CURSOR));
    // 4 ms: no glitch
    assert_eq!(s(t.update(tick(Some(1), 4, false))), format!("Hel{}", CURSOR));
    // nothing due: the state, glitch included, stays as it was
    assert_eq!(s(t.update(tick(None, 6, false))), format!("Hel{}", CURSOR));
}

#[test]
fn glitch_only_on_thirds_and_always_the_first() {
    let mut t = Typewriter::new("abcdef");
    assert_eq!(s(t.update(tick(Some(1), 12, false))), format!("a&{}", CURSOR));
    assert_eq!(s(t.update(tick(Some(1), 13, false))), format!("ab{}", CURSOR));
    assert_eq!(s(t.update(tick(Some(1), 15, false))), format!("abc&{}", CURSOR));
    assert_eq!(s(t.update(tick(Some(1), 31, false))), format!("abcd{}", CURSOR));
    assert_eq!(s(t.update(tick(Some(1), 33, false))), format!("abcde&{}", CURSOR));
}

#[test]
fn reveal_stops_at_end_and_cursor_blinks() {
    let mut t = Typewriter::new("Hi");
    assert_eq!(s(t.update(tick(Some(10), 1, true))), format!("Hi{}", CURSOR));
    assert!(t.is_finished());
    assert_eq!(s(t.update(tick(Some(10), 3, true))), format!("Hi{}", CURSOR));
    assert_eq!(s(t.update(tick(None, 3, false))), "Hi");
}

#[test]
fn finishing_frame_keeps_its_glitch_then_clears_it() {
    let mut t = Typewriter::new("Hi");
    // the frame that completes the line still picks a glitch
    assert_eq!(s(t.update(tick(Some(2), 3, false))), "Hi&");
    // the next frame, already finished, clears it
    assert_eq!(s(t.update(tick(Some(1), 3, false))), "Hi");
}

#[test]
fn empty_line_is_finished_from_the_start() {
    let mut t = Typewriter::new("");
    assert!(t.is_finished());
    assert_eq!(s(t.update(tick(Some(1), 0, true))), format!("{}", CURSOR));
    assert_eq!(s(t.update(tick(Some(1), 0, false))), "");
}

#[test]
fn multibyte_characters_count_as_one() {
    let mut t = Typewriter::new("é✓x");
    assert_eq!(s(t.update(tick(Some(2), 1, false))), format!("é✓{}", CURSOR));
}

#[test]
fn revealed_length_grows_and_stops() {
    let mut t = Typewriter::new("abc");
    assert_eq!(t.revealed_len(), 0);
    t.update(tick(Some(1), 1, false));
    assert_eq!(t.revealed_len(), 1);
    t.update(tick(None, 1, false));
    assert_eq!(t.revealed_len(), 1);
    t.update(tick(Some(usize::MAX - 1), 1, false));
    assert_eq!(t.revealed_len(), 3);
}
