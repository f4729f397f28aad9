use tits_rs::app::App;
use tits_rs::app::Screen;
use tits_rs::buffer::Cell;
use tits_rs::buffer::MatchState;

fn phrase(text: &str) -> Vec<char> {
    text.chars().collect()
}

fn assert_fresh_shape(cells: &[Cell], text: &str) {
    let want: Vec<char> = text.chars().collect();
    assert_eq!(cells.len(), want.len());
    for (i, cell) in cells.iter().enumerate() {
        assert_eq!(cell.character, want[i]);
        assert_eq!(cell.match_state, MatchState::Pending);
        assert_eq!(cell.highlighted, i == 0);
    }
}

#[test]
fn fresh_buffer_shape() {
    let app = App::new(phrase("hello world"));
    assert_eq!(app.screen, Screen::Start);
    assert_eq!(app.cursor_idx, 0);
    assert_eq!(app.correct_count, 0);
    assert_eq!(app.elapsed_ticks, 0);
    assert!(!app.is_typing);
    assert!(!app.exit);
    assert_fresh_shape(&app.cells, "hello world");
}

#[test]
fn typing_run_counts_matches() {
    let mut app = App::new(phrase("abcde"));
    app.begin_session();
    app.enter_char('a');
    app.enter_char('x');
    app.enter_char('c');
    assert_eq!(app.cursor_idx, 3);
    assert_eq!(app.correct_count, 2);
}

#[test]
fn backspace_at_zero_is_noop() {
    let mut app = App::new(phrase("cat"));
    app.begin_session();
    let before = app.clone();
    app.remove_char();
    assert_eq!(app, before);
}

#[test]
fn enter_char_past_end_is_noop() {
    let mut app = App::new(phrase("cat"));
    app.begin_session();
    app.enter_char('c');
    app.enter_char('a');
    app.enter_char('t');
    assert_eq!(app.cursor_idx, 3);
    let before = app.clone();
    app.enter_char('z');
    assert_eq!(app, before);
}

#[test]
fn countdown_moves_to_result_exactly_on_the_thirtieth_tick() {
    let mut app = App::new(phrase("cat"));
    app.begin_session();
    app.enter_char('c');
    app.is_typing = true;
    for expected in 1..=29u64 {
        app.tick();
        assert_eq!(app.elapsed_ticks, expected);
        assert_eq!(app.screen, Screen::Typing);
    }
    app.tick();
    assert_eq!(app.elapsed_ticks, 30);
    assert_eq!(app.screen, Screen::Result);
}

#[test]
fn ticks_after_result_are_ignored() {
    let mut app = App::new(phrase("cat"));
    app.begin_session();
    app.is_typing = true;
    for _ in 0..30 {
        app.tick();
    }
    assert_eq!(app.screen, Screen::Result);
    app.tick();
    assert_eq!(app.elapsed_ticks, 30);
    assert_eq!(app.screen, Screen::Result);
}

#[test]
fn ticks_before_arming_are_ignored() {
    let mut app = App::new(phrase("cat"));
    assert_eq!(app.screen, Screen::Start);
    app.tick();
    assert_eq!(app.elapsed_ticks, 0);
    app.begin_session();
    app.tick();
    assert_eq!(app.elapsed_ticks, 0);
    assert_eq!(app.screen, Screen::Typing);
}

#[test]
fn reset_restores_fresh_shape() {
    let mut app = App::new(phrase("cat"));
    app.begin_session();
    app.enter_char('c');
    app.is_typing = true;
    for _ in 0..30 {
        app.tick();
    }
    app.reset(phrase("dog"));
    assert_eq!(app.screen, Screen::Typing);
    assert_eq!(app.cursor_idx, 0);
    assert_eq!(app.correct_count, 0);
    assert_eq!(app.elapsed_ticks, 0);
    assert!(!app.is_typing);
    assert_fresh_shape(&app.cells, "dog");
    app.reset(phrase("dog"));
    assert_eq!(app.screen, Screen::Typing);
    assert_eq!(app.cursor_idx, 0);
    assert_eq!(app.correct_count, 0);
    assert_eq!(app.elapsed_ticks, 0);
    assert_fresh_shape(&app.cells, "dog");
}

#[test]
fn score_formula_twenty_five_correct_gives_ten_wpm() {
    let text = "the quick brown fox jumps";
    assert_eq!(text.len(), 25);
    let mut app = App::new(phrase(text));
    app.begin_session();
    for ch in text.chars() {
        app.enter_char(ch);
    }
    app.is_typing = true;
    for _ in 0..30 {
        app.tick();
    }
    assert_eq!(app.screen, Screen::Result);
    assert_eq!(app.correct_count, 25);
    assert_eq!(app.score_tenths(), 100);
    let wpm = app.score_tenths() as f64 / 10.0;
    assert_eq!(wpm, (25.0 / 5.0) / 0.5);
    assert_eq!(wpm, 10.0);
}

#[test]
fn score_is_zero_before_anything_is_typed() {
    let app = App::new(phrase("cat"));
    assert_eq!(app.score_tenths(), 0);
}

#[test]
fn cat_scenario_with_sticky_verdict() {
    let mut app = App::new(phrase("cat"));
    app.begin_session();
    app.enter_char('c');
    assert_eq!(app.cells[0].match_state, MatchState::Correct);
    app.enter_char('x');
    assert_eq!(app.cursor_idx, 2);
    assert_eq!(app.cells[1].match_state, MatchState::Incorrect);
    app.remove_char();
    assert_eq!(app.cursor_idx, 1);
    assert_eq!(app.cells[1].match_state, MatchState::Incorrect);
    app.enter_char('a');
    assert_eq!(app.cursor_idx, 2);
    assert_eq!(app.correct_count, 2);
    assert_eq!(app.cells[0].match_state, MatchState::Correct);
    assert_eq!(app.cells[1].match_state, MatchState::Correct);
    assert_eq!(app.cells[2].match_state, MatchState::Pending);
    assert!(app.cells[2].highlighted);
}

#[test]
fn empty_phrase_is_tolerated() {
    let mut app = App::new(Vec::new());
    assert_eq!(app.cells.len(), 0);
    app.begin_session();
    app.enter_char('a');
    assert_eq!(app.cursor_idx, 0);
    assert_eq!(app.correct_count, 0);
    app.remove_char();
    assert_eq!(app.cursor_idx, 0);
    assert!(app.is_well_formed());
}

#[test]
fn highlight_follows_cursor_both_ways() {
    let mut app = App::new(phrase("cat"));
    app.begin_session();
    app.enter_char('c');
    assert!(!app.cells[0].highlighted);
    assert!(app.cells[1].highlighted);
    app.remove_char();
    assert!(app.cells[0].highlighted);
    assert!(!app.cells[1].highlighted);
}

#[test]
fn time_left_counts_down() {
    let mut app = App::new(phrase("cat"));
    assert_eq!(app.time_left(), 30);
    app.begin_session();
    app.enter_char('c');
    app.is_typing = true;
    app.tick();
    assert_eq!(app.time_left(), 29);
}

#[test]
fn well_formedness_check_sees_a_broken_session() {
    let mut app = App::new(phrase("cat"));
    assert!(app.is_well_formed());
    app.cursor_idx = 17;
    assert!(!app.is_well_formed());
}

#[test]
fn quit_only_sets_the_exit_flag() {
    let mut app = App::new(phrase("cat"));
    let before = app.clone();
    app.quit();
    assert!(app.exit);
    assert_eq!(app.screen, before.screen);
    assert_eq!(app.cells, before.cells);
    assert_eq!(app.cursor_idx, before.cursor_idx);
}
