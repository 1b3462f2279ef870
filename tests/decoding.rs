use morse_decoder::{
    Config, Controller, Input, PauseTimer, PressTimer, Symbol, Tone, Transcript, BLANK,
};

const MS: u64 = 1_000;

/// One press of `held` milliseconds, released in the next step.
fn press(c: &mut Controller, held: u64) {
    c.step(&vec![Input::PressStart], held * MS);
    c.step(&vec![Input::PressEnd], 0);
}

#[test]
fn short_press_then_pause_gives_e() {
    let mut c = Controller::new(Config::standard());
    press(&mut c, 100);
    assert_eq!(c.buffer_glyphs(), vec!['•']);
    assert_eq!(c.display_char(), BLANK);
    c.step(&vec![], 250 * MS);
    assert_eq!(c.display_char(), 'E');
    assert_eq!(c.transcript(), &vec!['E']);
    assert!(c.symbols().is_empty());
    assert!(!c.is_armed());
}

#[test]
fn long_press_then_pause_gives_t() {
    let mut c = Controller::new(Config::standard());
    press(&mut c, 200);
    assert_eq!(c.buffer_glyphs(), vec!['-']);
    c.step(&vec![], 250 * MS);
    assert_eq!(c.display_char(), 'T');
    assert_eq!(c.transcript(), &vec!['T']);
}

#[test]
fn unknown_sequence_is_dropped() {
    let mut c = Controller::new(Config::standard());
    press(&mut c, 100);
    c.step(&vec![], 250 * MS);
    assert_eq!(c.display_char(), 'E');
    for _ in 0..7 {
        press(&mut c, 200);
        c.step(&vec![], 50 * MS);
    }
    assert_eq!(c.buffer_glyphs(), vec!['-'; 7]);
    c.step(&vec![], 250 * MS);
    assert!(c.symbols().is_empty());
    assert_eq!(c.display_char(), 'E');
    assert_eq!(c.transcript(), &vec!['E']);
}

#[test]
fn press_before_gap_continues_character() {
    let mut c = Controller::new(Config::standard());
    press(&mut c, 100);
    c.step(&vec![], 100 * MS);
    assert!(c.is_armed());
    press(&mut c, 100);
    assert_eq!(c.buffer_glyphs(), vec!['•', '•']);
    c.step(&vec![], 250 * MS);
    assert_eq!(c.display_char(), 'I');
    assert_eq!(c.transcript(), &vec!['I']);
}

#[test]
fn press_in_same_step_as_timeout_wins() {
    let mut c = Controller::new(Config::standard());
    press(&mut c, 100);
    c.step(&vec![Input::PressStart], 500 * MS);
    assert!(c.is_held());
    assert!(!c.is_armed());
    assert_eq!(c.buffer_glyphs(), vec!['•']);
    assert_eq!(c.display_char(), BLANK);
}

#[test]
fn finalize_fires_once_per_pause() {
    let mut c = Controller::new(Config::standard());
    press(&mut c, 100);
    c.step(&vec![], 250 * MS);
    c.step(&vec![], 250 * MS);
    c.step(&vec![], 250 * MS);
    assert_eq!(c.transcript(), &vec!['E']);
}

#[test]
fn pause_accumulates_over_steps() {
    let mut c = Controller::new(Config::standard());
    press(&mut c, 200);
    c.step(&vec![], 100 * MS);
    c.step(&vec![], 99 * MS);
    assert_eq!(c.display_char(), BLANK);
    c.step(&vec![], 1 * MS);
    assert_eq!(c.display_char(), 'T');
}

#[test]
fn reset_empties_transcript() {
    let mut c = Controller::new(Config::standard());
    for held in [100, 200, 100] {
        press(&mut c, held);
        c.step(&vec![], 250 * MS);
    }
    assert_eq!(c.transcript(), &vec!['E', 'T', 'E']);
    c.step(&vec![Input::ResetTranscript], 0);
    assert!(c.transcript().is_empty());
    assert_eq!(c.display_char(), 'E');
    c.reset_transcript();
    assert!(c.transcript().is_empty());
}

#[test]
fn delete_last_removes_one() {
    let mut c = Controller::new(Config::standard());
    for held in [100, 200] {
        press(&mut c, held);
        c.step(&vec![], 250 * MS);
    }
    c.step(&vec![Input::DeleteLast], 0);
    assert_eq!(c.transcript(), &vec!['E']);
    c.delete_last();
    assert!(c.transcript().is_empty());
    c.delete_last();
    assert!(c.transcript().is_empty());
}

#[test]
fn minimal_profile_keeps_no_transcript() {
    let mut c = Controller::new(Config::minimal());
    let tones = c.step(&vec![Input::PressStart], 100 * MS);
    assert!(tones.is_empty());
    c.step(&vec![Input::PressEnd], 0);
    c.step(&vec![], 250 * MS);
    assert_eq!(c.display_char(), BLANK);
    c.step(&vec![], 250 * MS);
    assert_eq!(c.display_char(), 'E');
    assert!(c.transcript().is_empty());
}

#[test]
fn tones_follow_presses() {
    let mut c = Controller::new(Config::standard());
    assert_eq!(c.step(&vec![Input::PressStart], 10 * MS), vec![Tone::Start]);
    assert_eq!(c.step(&vec![Input::PressStart], 10 * MS), vec![]);
    assert_eq!(c.step(&vec![Input::PressEnd, Input::PressEnd], 0), vec![Tone::Stop]);
    assert_eq!(
        c.step(&vec![Input::PressStart, Input::PressEnd], 0),
        vec![Tone::Start, Tone::Stop]
    );
}

#[test]
fn stray_release_is_ignored() {
    let mut c = Controller::new(Config::standard());
    assert_eq!(c.handle(Input::PressEnd), None);
    assert!(c.symbols().is_empty());
    assert!(!c.is_armed());
}

#[test]
fn repeated_press_start_keeps_timing() {
    let mut c = Controller::new(Config::standard());
    c.step(&vec![Input::PressStart], 100 * MS);
    c.step(&vec![Input::PressStart], 100 * MS);
    c.step(&vec![Input::PressEnd], 0);
    assert_eq!(c.symbols(), &vec![Symbol::Dash]);
}

#[test]
fn press_time_counts_step_of_press() {
    let mut c = Controller::new(Config::standard());
    c.step(&vec![Input::PressStart], 100 * MS);
    c.step(&vec![], 50 * MS);
    c.step(&vec![Input::PressEnd], 0);
    assert_eq!(c.symbols(), &vec![Symbol::Dash]);
}

#[test]
fn new_controller_is_idle() {
    let c = Controller::new(Config::standard());
    assert!(!c.is_held());
    assert!(!c.is_armed());
    assert_eq!(c.display_char(), ' ');
    assert!(c.buffer_glyphs().is_empty());
    assert_eq!(c.config(), Config::standard());
}

#[test]
fn profiles_hold_reference_values() {
    let s = Config::standard();
    assert_eq!((s.click_threshold, s.char_gap, s.keep_transcript, s.tone), (150_000, 200_000, true, true));
    let m = Config::minimal();
    assert_eq!((m.click_threshold, m.char_gap, m.keep_transcript, m.tone), (150_000, 500_000, false, false));
}

#[test]
fn press_timer_saturates() {
    let mut t = PressTimer::new();
    t.tick(5);
    assert_eq!(t.elapsed, 0);
    t.start();
    t.tick(u64::MAX - 1);
    t.tick(10);
    assert_eq!(t.elapsed, u64::MAX);
    assert_eq!(t.release(150_000), Some(Symbol::Dash));
    assert_eq!(t.release(150_000), None);
}

#[test]
fn pause_timer_fires_once() {
    let mut t = PauseTimer::new();
    assert!(!t.tick(1_000_000, 200_000));
    t.arm();
    assert!(!t.tick(150_000, 200_000));
    assert!(t.tick(50_000, 200_000));
    assert!(!t.armed);
    assert!(!t.tick(1_000_000, 200_000));
    t.arm();
    t.disarm();
    assert!(!t.tick(1_000_000, 200_000));
}

#[test]
fn transcript_edits() {
    let mut t = Transcript::new();
    t.remove_last();
    assert_eq!(t.len(), 0);
    t.append('S');
    t.append('O');
    t.append('S');
    assert_eq!(t.chars(), &vec!['S', 'O', 'S']);
    t.remove_last();
    assert_eq!(t.chars(), &vec!['S', 'O']);
    t.clear();
    assert_eq!(t.len(), 0);
}

#[test]
fn timers_default_to_idle() {
    let p = PressTimer::default();
    assert!(!p.held);
    assert_eq!(p.elapsed, 0);
    let q = PauseTimer::default();
    assert!(!q.armed);
    assert_eq!(q.elapsed, 0);
}
