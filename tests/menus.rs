use millipede::game::{loop_cues, start_game, Game, LoopCues};
use millipede::geometry::{Field, Pos};
use millipede::level::{GameOverTimer, Level};
use millipede::player::Lives;
use millipede::score::Score;
use millipede::state::{in_menu, toggle_pause, AppState, GameState};
use millipede::timer::Timer;
use millipede::ui::{
    handle_button_actions, handle_button_navigation, score_event, set_default_button_selection,
    update_button_colors, update_level_ui, update_lives_ui, update_score_ui, ButtonType, MenuAction,
    SelectedButton,
};

fn text(chars: Vec<char>) -> String {
    chars.into_iter().collect()
}

#[test]
fn hud_texts() {
    assert_eq!(text(update_lives_ui(Lives(3))), "x 3");
    assert_eq!(text(update_level_ui(Level(12))), "Level 12");
    assert_eq!(text(update_score_ui(Score(1234))), "0001234");
    assert_eq!(text(update_score_ui(Score(0))), "0000000");
    assert_eq!(text(update_score_ui(Score(4_294_967_295))), "4294967295");
}

#[test]
fn menu_cursor_moves_within_its_menu() {
    let mut sel = SelectedButton(ButtonType::Play);
    handle_button_navigation(&mut sel, AppState::MainMenu, true);
    assert_eq!(sel.0, ButtonType::Quit);
    handle_button_navigation(&mut sel, AppState::MainMenu, false);
    assert_eq!(sel.0, ButtonType::Quit);
    handle_button_navigation(&mut sel, AppState::MainMenu, true);
    assert_eq!(sel.0, ButtonType::Play);
    set_default_button_selection(&mut sel, AppState::GameOver);
    assert_eq!(sel.0, ButtonType::Restart);
    handle_button_navigation(&mut sel, AppState::GameOver, true);
    assert_eq!(sel.0, ButtonType::MainMenu);
    set_default_button_selection(&mut sel, AppState::MainMenu);
    assert_eq!(sel.0, ButtonType::Play);
}

#[test]
fn only_the_selected_button_is_lit() {
    let buttons = vec![ButtonType::Restart, ButtonType::MainMenu];
    assert_eq!(update_button_colors(&buttons, SelectedButton(ButtonType::MainMenu)), vec![false, true]);
}

#[test]
fn restart_waits_for_the_game_over_timer() {
    let mut timer = GameOverTimer(Timer::new(1_000_000));
    let restart = SelectedButton(ButtonType::Restart);
    assert_eq!(handle_button_actions(restart, true, &mut timer, 500_000), MenuAction::Nothing);
    assert_eq!(handle_button_actions(restart, true, &mut timer, 500_000), MenuAction::StartGame);
    assert_eq!(
        handle_button_actions(SelectedButton(ButtonType::Quit), true, &mut timer, 0),
        MenuAction::Quit
    );
    assert_eq!(
        handle_button_actions(SelectedButton(ButtonType::MainMenu), true, &mut timer, 0),
        MenuAction::GoToMainMenu
    );
    assert_eq!(handle_button_actions(SelectedButton(ButtonType::Play), false, &mut timer, 0), MenuAction::Nothing);
}

#[test]
fn pause_and_menus() {
    assert_eq!(toggle_pause(GameState::Running, true), GameState::Paused);
    assert_eq!(toggle_pause(GameState::Paused, true), GameState::Running);
    assert_eq!(toggle_pause(GameState::Paused, false), GameState::Paused);
    assert!(in_menu(AppState::GameOver));
    assert!(!in_menu(AppState::InGame));
}

#[test]
fn floating_scores_stay_on_screen() {
    let f = Field { width: 480_000, height: 640_000 };
    assert_eq!(score_event(Pos::new(470_000, 5_000), f), Pos::new(440_000, 20_000));
    assert_eq!(score_event(Pos::new(10_000, 630_000), f), Pos::new(13_000, 615_000));
    assert_eq!(score_event(Pos::new(200_000, 300_000), f), Pos::new(190_000, 305_000));
}

#[test]
fn sound_loops_follow_what_is_about() {
    let mut g = Game::new(Field { width: 480_000, height: 640_000 });
    let quiet = LoopCues { millipede: false, spider: false, scorpion: false, background: false, falling: false };
    assert_eq!(loop_cues(&g, GameState::Running), quiet);
    start_game(&mut g);
    let cues = loop_cues(&g, GameState::Running);
    assert!(cues.background);
    assert!(!cues.millipede);
    assert!(!loop_cues(&g, GameState::Paused).background);
}
