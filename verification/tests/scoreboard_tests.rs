use bevy::time::{Timer, TimerMode};
use endless_runner::character::Player;
use endless_runner::scoreboard::{
    add_gain, handle_input_system, handle_player_death, increase_score_system,
    scoreboard_system, setup_scoreboard,
    spawn_enter_name_ui, spawn_high_score_list, update_death_scoreboard_ui,
    update_name_input_display, DeathUi, FinalScore, GameEnd, GameState, HighScoreEntry,
    HighScores,
    InputOutcome, KeyPress, PlayerNameInput, ScoreText, ScoreTimer, ScoreboardState, NO_NAME,
    RESTART_HINT, SCORE_HEADING, TABLE_HEADING, TABLE_SIZE,
};
use std::time::Duration;

fn table(entries: &[(&str, u64)]) -> HighScores {
    HighScores {
        scores: entries
            .iter()
            .map(|(name, score)| HighScoreEntry { name: name.to_string(), score: *score })
            .collect(),
    }
}

fn listed(scores: &HighScores) -> Vec<(String, u64)> {
    scores.scores.iter().map(|e| (e.name.clone(), e.score)).collect()
}

fn pairs(entries: &[(&str, u64)]) -> Vec<(String, u64)> {
    entries.iter().map(|(name, score)| (name.to_string(), *score)).collect()
}

fn key(pressed: bool, text: Option<&str>) -> KeyPress {
    KeyPress { pressed, text: text.map(|t| t.to_string()) }
}

const QUIET: InputOutcome = InputOutcome { save_scores: false, next_game_state: None };

#[test]
fn the_texts_are_fixed() {
    assert_eq!(SCORE_HEADING, "Score:");
    assert_eq!(TABLE_HEADING, "HIGH SCORES");
    assert_eq!(RESTART_HINT, "Press R to Restart");
    assert_eq!(NO_NAME, "Anonymous");
    assert_eq!(TABLE_SIZE, 10);
}

#[test]
fn everything_starts_empty() {
    assert!(HighScores::default().scores.is_empty());
    let score = ScoreText::default();
    assert_eq!((score.text.as_str(), score.score), ("", 0));
    assert_eq!(FinalScore::default(), FinalScore(0));
    assert_eq!(PlayerNameInput::default().0, "");
    assert_eq!(ScoreboardState::default(), ScoreboardState::Hidden);
    assert_eq!(GameState::default(), GameState::Playing);
}

#[test]
fn any_score_earns_a_place_in_a_table_that_is_not_full() {
    assert!(HighScores::default().is_high_score(0));
    let nine = table(&[("a", 90); 9]);
    assert!(nine.is_high_score(0));
    assert!(nine.is_high_score(1000));
}

#[test]
fn a_full_table_takes_only_what_beats_its_last_entry() {
    let mut entries = vec![("a", 50); 9];
    entries.push(("z", 20));
    let full = table(&entries);
    assert!(!full.is_high_score(0));
    assert!(!full.is_high_score(19));
    assert!(!full.is_high_score(20));
    assert!(full.is_high_score(21));
    let mut eleven = entries.clone();
    eleven.push(("y", 70));
    assert!(!table(&eleven).is_high_score(70));
    assert!(table(&eleven).is_high_score(71));
}

#[test]
fn a_new_score_takes_its_rank() {
    let mut scores = table(&[("a", 50), ("b", 30), ("c", 10)]);
    scores.add_score("d".to_string(), 40);
    assert_eq!(listed(&scores), pairs(&[("a", 50), ("d", 40), ("b", 30), ("c", 10)]));
    scores.add_score("e".to_string(), 60);
    assert_eq!(listed(&scores)[0], ("e".to_string(), 60));
    scores.add_score("f".to_string(), 0);
    assert_eq!(listed(&scores)[5], ("f".to_string(), 0));
    let mut first = HighScores::default();
    first.add_score("only".to_string(), 7);
    assert_eq!(listed(&first), pairs(&[("only", 7)]));
}

#[test]
fn equal_scores_keep_their_order() {
    let mut scores = table(&[("a", 50), ("b", 30), ("c", 30), ("d", 10)]);
    scores.add_score("e".to_string(), 30);
    assert_eq!(
        listed(&scores),
        pairs(&[("a", 50), ("b", 30), ("c", 30), ("e", 30), ("d", 10)])
    );
}

#[test]
fn a_table_out_of_order_is_put_in_order() {
    let mut scores = table(&[("a", 10), ("b", 30), ("c", 20), ("d", 30)]);
    scores.add_score("e".to_string(), 20);
    assert_eq!(
        listed(&scores),
        pairs(&[("b", 30), ("d", 30), ("c", 20), ("e", 20), ("a", 10)])
    );
}

#[test]
fn the_table_keeps_its_ten_best() {
    let mut scores = table(&[
        ("a", 100),
        ("b", 90),
        ("c", 80),
        ("d", 70),
        ("e", 60),
        ("f", 50),
        ("g", 40),
        ("h", 30),
        ("i", 20),
        ("j", 10),
    ]);
    scores.add_score("k".to_string(), 55);
    assert_eq!(scores.scores.len(), 10);
    assert_eq!(listed(&scores)[5], ("k".to_string(), 55));
    assert_eq!(listed(&scores)[9], ("i".to_string(), 20));
    scores.add_score("l".to_string(), 20);
    assert_eq!(listed(&scores)[9], ("i".to_string(), 20));
    scores.add_score("m".to_string(), 5);
    assert_eq!(scores.scores.len(), 10);
    assert_eq!(listed(&scores)[9], ("i".to_string(), 20));
    let mut long = table(&[("x", 1); 14]);
    long.add_score("y".to_string(), 2);
    assert_eq!(long.scores.len(), 10);
    assert_eq!(listed(&long)[0], ("y".to_string(), 2));
}

#[test]
fn the_score_board_starts_hidden() {
    let mut score = ScoreText { text: "Score: 12".to_string(), score: 12 };
    let setup = setup_scoreboard(Some(table(&[("a", 5)])), &mut score);
    assert_eq!(listed(&setup.high_scores), pairs(&[("a", 5)]));
    assert_eq!(setup.state, ScoreboardState::Hidden);
    assert_eq!(setup.name_input.0, "");
    assert_eq!(setup.final_score, FinalScore(0));
    assert_eq!(score.score, 0);
    assert_eq!(score.text, "Score: 12");
    let setup = setup_scoreboard(None, &mut score);
    assert!(setup.high_scores.scores.is_empty());
}

#[test]
fn the_score_grows_by_the_gain() {
    let mut score = ScoreText { text: "t".to_string(), score: 10 };
    add_gain(false, &mut score, 3);
    assert_eq!(score.score, 10);
    add_gain(true, &mut score, 3);
    assert_eq!(score.score, 13);
    add_gain(true, &mut score, u64::MAX);
    assert_eq!(score.score, u64::MAX);
    assert_eq!(score.text, "t");
}

#[test]
fn the_score_grows_when_its_timer_runs_out() {
    let mut score = ScoreText::default();
    let mut timer =
        ScoreTimer(Timer::new(Duration::from_nanos(333_333_333), TimerMode::Repeating));
    assert!(!increase_score_system(Duration::from_millis(200), &mut timer, &mut score, 2));
    assert_eq!(score.score, 0);
    assert!(increase_score_system(Duration::from_millis(200), &mut timer, &mut score, 2));
    assert_eq!(score.score, 2);
    assert!(increase_score_system(Duration::from_millis(300), &mut timer, &mut score, 3));
    assert_eq!(score.score, 5);
    assert!(!increase_score_system(Duration::from_millis(200), &mut timer, &mut score, 4));
    assert_eq!(score.score, 5);
}

#[test]
fn the_score_is_shown_while_the_first_player_lives() {
    let score = ScoreText { text: String::new(), score: 35 };
    let alive = Player { is_jumping: false, is_dead: false };
    let dead = Player { is_jumping: false, is_dead: true };
    assert_eq!(scoreboard_system(&score, &vec![alive]), Some("Score: 35".to_string()));
    assert_eq!(scoreboard_system(&score, &vec![alive, dead]), Some("Score: 35".to_string()));
    assert_eq!(scoreboard_system(&score, &vec![dead, alive]), None);
    assert_eq!(scoreboard_system(&score, &Vec::new()), None);
    let zero = ScoreText::default();
    assert_eq!(scoreboard_system(&zero, &vec![alive]), Some("Score: 0".to_string()));
}

#[test]
fn the_dialogue_shows_the_score_and_the_name() {
    assert_eq!(
        spawn_enter_name_ui(1200, "An"),
        ("New High Score: 1200!".to_string(), "Enter Name: An_".to_string())
    );
    assert_eq!(
        spawn_enter_name_ui(0, ""),
        ("New High Score: 0!".to_string(), "Enter Name: _".to_string())
    );
    assert_eq!(
        update_name_input_display(&PlayerNameInput("Zoë".to_string())),
        "Enter Name: Zoë_"
    );
}

#[test]
fn the_table_is_numbered_and_shows_the_players_score() {
    let lines = spawn_high_score_list(&table(&[("a", 50), ("bob", 30), ("", 30), ("d", 0)]), 30);
    let shown: Vec<(&str, bool)> =
        lines.iter().map(|l| (l.text.as_str(), l.highlighted)).collect();
    assert_eq!(
        shown,
        vec![("1. a - 50", false), ("2. bob - 30", true), ("3.  - 30", true), ("4. d - 0", false)]
    );
    assert!(spawn_high_score_list(&HighScores::default(), 0).is_empty());
    let long = spawn_high_score_list(&table(&[("x", 1); 12]), 2);
    assert_eq!(long[9].text, "10. x - 1");
    assert_eq!(long[11].text, "12. x - 1");
}

#[test]
fn the_screen_follows_the_state() {
    let scores = table(&[("a", 50)]);
    let name = PlayerNameInput("Jo".to_string());
    let last = FinalScore(50);
    let mut shown = ScoreboardState::Hidden;
    assert!(update_death_scoreboard_ui(ScoreboardState::Hidden, &mut shown, &scores, &name, &last)
        .is_none());
    assert_eq!(shown, ScoreboardState::Hidden);

    match update_death_scoreboard_ui(ScoreboardState::EnterName, &mut shown, &scores, &name, &last)
    {
        Some(DeathUi::EnterName { banner, prompt }) => {
            assert_eq!(banner, "New High Score: 50!");
            assert_eq!(prompt, "Enter Name: Jo_");
        }
        other => panic!("expected the dialogue, got {:?}", other),
    }
    assert_eq!(shown, ScoreboardState::EnterName);
    assert!(update_death_scoreboard_ui(
        ScoreboardState::EnterName,
        &mut shown,
        &scores,
        &name,
        &last
    )
    .is_none());

    match update_death_scoreboard_ui(ScoreboardState::ShowScores, &mut shown, &scores, &name, &last)
    {
        Some(DeathUi::Scores(lines)) => {
            assert_eq!(lines.len(), 1);
            assert_eq!(lines[0].text, "1. a - 50");
            assert!(lines[0].highlighted);
        }
        other => panic!("expected the table, got {:?}", other),
    }
    assert_eq!(shown, ScoreboardState::ShowScores);

    assert!(matches!(
        update_death_scoreboard_ui(ScoreboardState::Hidden, &mut shown, &scores, &name, &last),
        Some(DeathUi::Nothing)
    ));
    assert_eq!(shown, ScoreboardState::Hidden);
}

#[test]
fn typed_characters_are_added_to_the_name() {
    let mut name = PlayerNameInput("A".to_string());
    let mut state = ScoreboardState::EnterName;
    let mut scores = table(&[("a", 50)]);
    let events = vec![
        key(true, Some("n")),
        key(false, Some("x")),
        key(true, None),
        key(true, Some("ab")),
        key(true, Some("")),
        key(true, Some("\u{7}")),
        key(true, Some("\u{9f}")),
        key(true, Some("ñ")),
        key(true, Some(" ")),
        key(true, Some("a")),
    ];
    let outcome = handle_input_system(
        false, false, true, &events, &mut name, &mut state, &mut scores, &FinalScore(9),
    );
    assert_eq!(outcome, QUIET);
    assert_eq!(name.0, "Anñ a");
    assert_eq!(state, ScoreboardState::EnterName);
    assert_eq!(listed(&scores), pairs(&[("a", 50)]));
}

#[test]
fn backspace_removes_the_last_character_before_new_ones_are_added() {
    let mut name = PlayerNameInput("Anñ".to_string());
    let mut state = ScoreboardState::EnterName;
    let mut scores = HighScores::default();
    let outcome = handle_input_system(
        false,
        true,
        false,
        &vec![key(true, Some("x"))],
        &mut name,
        &mut state,
        &mut scores,
        &FinalScore(9),
    );
    assert_eq!(outcome, QUIET);
    assert_eq!(name.0, "Anx");
    let mut empty = PlayerNameInput(String::new());
    handle_input_system(
        false, true, false, &Vec::new(), &mut empty, &mut state, &mut scores, &FinalScore(9),
    );
    assert_eq!(empty.0, "");
}

#[test]
fn enter_puts_the_score_into_the_table() {
    let mut name = PlayerNameInput("Ann".to_string());
    let mut state = ScoreboardState::EnterName;
    let mut scores = table(&[("a", 50), ("b", 10)]);
    let outcome = handle_input_system(
        true,
        true,
        true,
        &vec![key(true, Some("x"))],
        &mut name,
        &mut state,
        &mut scores,
        &FinalScore(30),
    );
    assert_eq!(outcome, InputOutcome { save_scores: true, next_game_state: None });
    assert_eq!(state, ScoreboardState::ShowScores);
    assert_eq!(name.0, "Ann");
    assert_eq!(listed(&scores), pairs(&[("a", 50), ("Ann", 30), ("b", 10)]));
}

#[test]
fn a_blank_name_is_entered_as_anonymous() {
    for typed in ["", "   ", "\t\u{a0}"] {
        let mut name = PlayerNameInput(typed.to_string());
        let mut state = ScoreboardState::EnterName;
        let mut scores = HighScores::default();
        handle_input_system(
            true, false, false, &Vec::new(), &mut name, &mut state, &mut scores, &FinalScore(3),
        );
        assert_eq!(listed(&scores), pairs(&[("Anonymous", 3)]));
        assert_eq!(name.0, typed);
    }
    let mut name = PlayerNameInput(" x ".to_string());
    let mut state = ScoreboardState::EnterName;
    let mut scores = HighScores::default();
    handle_input_system(
        true, false, false, &Vec::new(), &mut name, &mut state, &mut scores, &FinalScore(3),
    );
    assert_eq!(listed(&scores), pairs(&[(" x ", 3)]));
}

#[test]
fn the_restart_key_starts_a_new_game_from_the_table() {
    let mut name = PlayerNameInput("Ann".to_string());
    let mut state = ScoreboardState::ShowScores;
    let mut scores = table(&[("a", 50)]);
    let events = vec![key(true, Some("r"))];
    let outcome = handle_input_system(
        true, true, true, &events, &mut name, &mut state, &mut scores, &FinalScore(30),
    );
    assert_eq!(
        outcome,
        InputOutcome { save_scores: false, next_game_state: Some(GameState::Playing) }
    );
    let outcome = handle_input_system(
        true, true, false, &events, &mut name, &mut state, &mut scores, &FinalScore(30),
    );
    assert_eq!(outcome, QUIET);
    assert_eq!(state, ScoreboardState::ShowScores);
    assert_eq!(name.0, "Ann");
    assert_eq!(listed(&scores), pairs(&[("a", 50)]));
}

#[test]
fn a_hidden_score_board_takes_no_keys() {
    let mut name = PlayerNameInput("Ann".to_string());
    let mut state = ScoreboardState::Hidden;
    let mut scores = table(&[("a", 50)]);
    let outcome = handle_input_system(
        true,
        true,
        true,
        &vec![key(true, Some("x"))],
        &mut name,
        &mut state,
        &mut scores,
        &FinalScore(30),
    );
    assert_eq!(outcome, QUIET);
    assert_eq!(state, ScoreboardState::Hidden);
    assert_eq!(name.0, "Ann");
    assert_eq!(listed(&scores), pairs(&[("a", 50)]));
}

#[test]
fn the_game_goes_on_while_every_player_lives() {
    let score = ScoreText { text: String::new(), score: 70 };
    let alive = Player { is_jumping: true, is_dead: false };
    assert_eq!(handle_player_death(&vec![alive, alive], &score, &HighScores::default()), None);
    assert_eq!(handle_player_death(&Vec::new(), &score, &HighScores::default()), None);
}

#[test]
fn a_death_ends_the_game_with_the_score_reached() {
    let score = ScoreText { text: String::new(), score: 70 };
    let alive = Player { is_jumping: false, is_dead: false };
    let dead = Player { is_jumping: false, is_dead: true };
    let asks = Some(GameEnd { final_score: FinalScore(70), state: ScoreboardState::EnterName });
    let shows = Some(GameEnd { final_score: FinalScore(70), state: ScoreboardState::ShowScores });
    assert_eq!(handle_player_death(&vec![dead], &score, &HighScores::default()), asks);
    assert_eq!(handle_player_death(&vec![alive, dead], &score, &table(&[("a", 90); 9])), asks);
    let mut full = vec![("a", 90); 9];
    full.push(("z", 70));
    assert_eq!(handle_player_death(&vec![alive, alive, dead], &score, &table(&full)), shows);
    full[9] = ("z", 69);
    assert_eq!(handle_player_death(&vec![dead, alive], &score, &table(&full)), asks);
}
