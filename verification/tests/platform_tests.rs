use jugar_web::demo::{GameMode, SpeedMultiplier};
use jugar_web::input::{InputTranslationError, KeyCode};
use jugar_web::input_state::{ButtonState, InputState};
use jugar_web::platform::{
    game_mode_for_name, speed_for_value, ControlInput, GameState, HudButton, JsAction,
    PongControl, WebConfig, WebPlatformError,
};

fn no_keys() -> ControlInput {
    ControlInput {
        key_1: false,
        key_2: false,
        key_3: false,
        key_4: false,
        key_5: false,
        key_6: false,
        key_m: false,
        key_d: false,
        key_i: false,
        key_f: false,
        key_f11: false,
        space: false,
        escape: false,
        mouse_left: false,
    }
}

#[test]
fn test_web_config_default() {
    let config = WebConfig::default();
    assert_eq!(config.width, 800);
    assert_eq!(config.height, 600);
    assert_eq!(config.target_fps, 60);
    assert!(!config.debug);
}

#[test]
fn test_web_config_new() {
    let config = WebConfig::new(1920, 1080);
    assert_eq!(config.width, 1920);
    assert_eq!(config.height, 1080);
    assert_eq!(config.target_fps, 60);
}

#[test]
fn test_web_platform_error_display() {
    let err = WebPlatformError::InvalidConfig("bad config".to_string());
    assert_eq!(err.message(), "Invalid config: bad config");

    let err = WebPlatformError::InputError("input failed".to_string());
    assert_eq!(err.message(), "Input error: input failed");

    let err = WebPlatformError::RenderError("render failed".to_string());
    assert_eq!(err.message(), "Render error: render failed");
}

#[test]
fn test_web_platform_error_from_input_error() {
    let input_err = InputTranslationError::InvalidJson("test".to_string());
    let platform_err = WebPlatformError::from_input_error(input_err);
    assert!(matches!(platform_err, WebPlatformError::InputError(_)));
    assert_eq!(
        platform_err,
        WebPlatformError::InputError("Failed to parse input JSON: test".to_string())
    );
}

#[test]
fn speed_values() {
    assert_eq!(speed_for_value(1), SpeedMultiplier::Normal);
    assert_eq!(speed_for_value(5), SpeedMultiplier::Fast5x);
    assert_eq!(speed_for_value(10), SpeedMultiplier::Fast10x);
    assert_eq!(speed_for_value(50), SpeedMultiplier::Fast50x);
    assert_eq!(speed_for_value(100), SpeedMultiplier::Fast100x);
    assert_eq!(speed_for_value(1000), SpeedMultiplier::Fast1000x);
    assert_eq!(speed_for_value(7), SpeedMultiplier::Normal);
    for s in SpeedMultiplier::all() {
        assert_eq!(speed_for_value(s.value()), s);
    }
}

#[test]
fn game_mode_names() {
    assert_eq!(game_mode_for_name("demo"), GameMode::Demo);
    assert_eq!(game_mode_for_name("DEMO"), GameMode::Demo);
    assert_eq!(game_mode_for_name("2p"), GameMode::TwoPlayer);
    assert_eq!(game_mode_for_name("Two"), GameMode::TwoPlayer);
    assert_eq!(game_mode_for_name("TwoPlayer"), GameMode::TwoPlayer);
    assert_eq!(game_mode_for_name("1p"), GameMode::SinglePlayer);
    assert_eq!(game_mode_for_name("anything"), GameMode::SinglePlayer);
    assert_eq!(game_mode_for_name(""), GameMode::SinglePlayer);
}

#[test]
fn test_game_state_default_is_playing() {
    let game = PongControl::new();
    assert_eq!(game.state, GameState::Playing);
    assert_eq!(GameState::default(), GameState::Menu);
}

#[test]
fn new_game_defaults() {
    let game = PongControl::new();
    assert_eq!(game.speed_multiplier, SpeedMultiplier::Normal);
    assert_eq!(game.game_mode, GameMode::SinglePlayer);
    assert_eq!((game.left_score, game.right_score, game.rally_count, game.high_score), (0, 0, 0, 0));
    assert_eq!(game.winning_score, 11);
    assert!(game.sound_enabled);
    assert!(!game.show_model_info);
}

#[test]
fn state_machine_pause_and_resume() {
    let mut game = PongControl::new();
    let step = game.advance_state(no_keys());
    assert!(step.simulate && !step.restarted);

    let esc = ControlInput { escape: true, ..no_keys() };
    let step = game.advance_state(esc);
    assert_eq!(game.state, GameState::Paused);
    assert!(!step.simulate);

    // Escape still held: no new press, stays paused.
    game.advance_state(esc);
    assert_eq!(game.state, GameState::Paused);

    game.advance_state(no_keys());
    let space = ControlInput { space: true, ..no_keys() };
    let step = game.advance_state(space);
    assert_eq!(game.state, GameState::Playing);
    assert!(!step.simulate);
}

#[test]
fn menu_and_game_over_restart_with_space() {
    let mut game = PongControl::new();
    game.state = GameState::Menu;
    game.left_score = 3;
    assert!(game.start());
    assert_eq!(game.state, GameState::Playing);
    assert_eq!(game.left_score, 0);
    assert!(!game.start());

    game.state = GameState::GameOver;
    game.right_score = 11;
    let step = game.advance_state(ControlInput { space: true, ..no_keys() });
    assert!(step.restarted);
    assert_eq!(game.state, GameState::Playing);
    assert_eq!(game.right_score, 0);
}

#[test]
fn rally_and_high_score() {
    let mut game = PongControl::new();
    for i in 1..=5 {
        let milestone = game.record_paddle_hit();
        assert_eq!(milestone, i == 5);
    }
    assert_eq!(game.rally_count, 5);
    assert!(!game.record_goal(true));
    assert_eq!(game.right_score, 1);
    assert_eq!(game.rally_count, 0);
    assert_eq!(game.high_score, 5);

    game.record_paddle_hit();
    game.record_paddle_hit();
    assert!(!game.record_goal(false));
    assert_eq!(game.left_score, 1);
    assert_eq!(game.high_score, 5);

    game.reset_game();
    assert_eq!((game.left_score, game.right_score, game.rally_count), (0, 0, 0));
    assert_eq!(game.high_score, 5);
}

#[test]
fn game_over_at_winning_score() {
    let mut game = PongControl::new();
    game.left_score = 10;
    assert!(game.record_goal(false));
    assert_eq!(game.state, GameState::GameOver);
    assert_eq!(game.left_score, 11);
    let step = game.advance_state(no_keys());
    assert!(!step.simulate);
}

#[test]
fn shortcuts_act_on_key_press_only() {
    let mut game = PongControl::new();
    let keys = ControlInput { key_3: true, key_m: true, ..no_keys() };
    assert!(!game.apply_shortcuts(keys));
    assert_eq!(game.speed_multiplier, SpeedMultiplier::Fast10x);
    assert_eq!(game.game_mode, GameMode::TwoPlayer);
    game.apply_shortcuts(keys);
    assert_eq!(game.game_mode, GameMode::TwoPlayer);

    let d = ControlInput { key_d: true, ..no_keys() };
    game.apply_shortcuts(d);
    assert_eq!(game.game_mode, GameMode::Demo);
    game.apply_shortcuts(no_keys());
    game.apply_shortcuts(d);
    assert_eq!(game.game_mode, GameMode::SinglePlayer);

    let six_and_one = ControlInput { key_1: true, key_6: true, ..no_keys() };
    game.apply_shortcuts(six_and_one);
    assert_eq!(game.speed_multiplier, SpeedMultiplier::Fast1000x);

    let click = ControlInput { mouse_left: true, ..no_keys() };
    assert!(game.apply_shortcuts(click));
    assert!(!game.apply_shortcuts(click));
}

#[test]
fn fullscreen_and_download_actions() {
    let mut game = PongControl::new();
    game.apply_shortcuts(ControlInput { key_f: true, ..no_keys() });
    assert!(game.is_fullscreen);
    game.apply_hud_click(Some(HudButton::Download), None);
    assert_eq!(game.take_actions(), vec![JsAction::DownloadAiModel, JsAction::EnterFullscreen]);
    assert!(game.take_actions().is_empty());
    game.apply_shortcuts(no_keys());
    game.apply_shortcuts(ControlInput { key_f11: true, ..no_keys() });
    assert!(!game.is_fullscreen);
    assert_eq!(game.take_actions(), vec![JsAction::ExitFullscreen]);
}

#[test]
fn hud_clicks() {
    let mut game = PongControl::new();
    game.left_score = 4;
    let e = game.apply_hud_click(Some(HudButton::ModeDemo), Some(5));
    assert!(e.restarted);
    assert_eq!(game.game_mode, GameMode::Demo);
    assert_eq!(game.left_score, 0);

    game.apply_hud_click(Some(HudButton::Speed100x), None);
    assert_eq!(game.speed_multiplier, SpeedMultiplier::Fast100x);

    assert_eq!(game.apply_hud_click(Some(HudButton::AiIncrease), Some(5)).ai_level, Some(6));
    assert_eq!(game.apply_hud_click(Some(HudButton::AiIncrease), Some(9)).ai_level, None);
    assert_eq!(game.apply_hud_click(Some(HudButton::AiDecrease), Some(0)).ai_level, None);
    assert_eq!(game.apply_hud_click(Some(HudButton::AiDecrease), Some(3)).ai_level, Some(2));
    assert_eq!(game.apply_hud_click(Some(HudButton::AiDecrease), None).ai_level, None);

    let e = game.apply_hud_click(Some(HudButton::SoundToggle), None);
    assert!(e.sound_toggled);
    assert!(!game.sound_enabled);

    game.apply_hud_click(Some(HudButton::ModelInfo), None);
    assert!(game.show_model_info);
    let e = game.apply_hud_click(Some(HudButton::Mode2P), None);
    assert!(!e.restarted);
    assert!(!game.show_model_info);
    assert_eq!(game.game_mode, GameMode::Demo);

    let before = game.clone();
    game.apply_hud_click(None, None);
    assert_eq!(game.game_mode, before.game_mode);
    assert_eq!(game.speed_multiplier, before.speed_multiplier);
}

#[test]
fn control_input_reads_held_keys() {
    let mut input = InputState::new();
    input.set_key(KeyCode::Number(4), ButtonState::JustPressed);
    input.set_key(KeyCode::Letter('M'), ButtonState::Pressed);
    input.set_key(KeyCode::Space, ButtonState::JustReleased);
    input.set_mouse_slot(0, ButtonState::Pressed);
    let c = ControlInput::from_input(&input);
    assert!(c.key_4 && c.key_m && c.mouse_left);
    assert!(!c.space && !c.key_1 && !c.escape);
}

fn held(input: &InputState) -> ControlInput {
    ControlInput::from_input(input)
}

#[test]
fn test_game_state_start_from_menu() {
    let mut game = PongControl::new();
    game.state = GameState::Menu;
    assert_eq!(game.state, GameState::Menu);

    game.start();

    assert_eq!(game.state, GameState::Playing);
}

#[test]
fn test_game_state_pause_transitions() {
    let mut game = PongControl::new();
    game.state = GameState::Playing;

    let mut input = InputState::new();
    input.set_key_pressed(KeyCode::Escape, true);
    game.apply_shortcuts(held(&input));
    game.advance_state(held(&input));

    assert_eq!(game.state, GameState::Paused);
}

#[test]
fn test_game_state_unpause_with_space() {
    let mut game = PongControl::new();
    game.state = GameState::Paused;

    let input = InputState::new();
    game.advance_state(held(&input));

    let mut input = InputState::new();
    input.set_key_pressed(KeyCode::Space, true);
    game.advance_state(held(&input));

    assert_eq!(game.state, GameState::Playing);
}

#[test]
fn test_game_state_menu_space_starts_game() {
    let mut game = PongControl::new();
    game.state = GameState::Menu;
    assert_eq!(game.state, GameState::Menu);

    let input = InputState::new();
    game.advance_state(held(&input));

    let mut input = InputState::new();
    input.set_key_pressed(KeyCode::Space, true);
    let step = game.advance_state(held(&input));

    assert_eq!(game.state, GameState::Playing);
    assert!(step.restarted);
}

#[test]
fn test_game_state_game_over_on_winning_score() {
    let mut game = PongControl::new();
    game.state = GameState::Playing;
    game.left_score = 10;

    let over = game.record_goal(false);

    assert!(over);
    assert_eq!(game.left_score, 11);
    assert_eq!(game.state, GameState::GameOver);
}

#[test]
fn test_game_state_reset_from_game_over() {
    let mut game = PongControl::new();
    game.state = GameState::GameOver;
    game.left_score = 11;
    game.right_score = 5;

    let input = InputState::new();
    game.advance_state(held(&input));

    let mut input = InputState::new();
    input.set_key_pressed(KeyCode::Space, true);
    game.advance_state(held(&input));

    assert_eq!(game.state, GameState::Playing);
    assert_eq!(game.left_score, 0);
    assert_eq!(game.right_score, 0);
}

#[test]
fn test_game_state_no_update_when_paused() {
    let mut game = PongControl::new();
    game.state = GameState::Paused;
    let input = InputState::new();
    let step = game.advance_state(held(&input));
    assert!(!step.simulate);
    assert_eq!(game.state, GameState::Paused);
}

#[test]
fn test_game_state_reset_game() {
    let mut game = PongControl::new();
    game.state = GameState::Playing;
    game.left_score = 5;
    game.right_score = 3;

    game.reset_game();

    assert_eq!(game.left_score, 0);
    assert_eq!(game.right_score, 0);
}

#[test]
fn test_rally_counter_starts_at_zero() {
    let game = PongControl::new();
    assert_eq!(game.rally_count, 0);
}

#[test]
fn test_rally_counter_increments_on_paddle_hit() {
    let mut game = PongControl::new();
    assert_eq!(game.rally_count, 0);
    game.record_paddle_hit();
    assert_eq!(game.rally_count, 1);
}

#[test]
fn test_rally_counter_resets_on_scoring() {
    let mut game = PongControl::new();
    game.rally_count = 5;
    game.record_goal(true);
    assert_eq!(game.rally_count, 0);
}

#[test]
fn test_rally_counter_resets_on_game_reset() {
    let mut game = PongControl::new();
    game.rally_count = 10;
    game.reset_game();
    assert_eq!(game.rally_count, 0);
}

#[test]
fn test_high_score_starts_at_zero() {
    let game = PongControl::new();
    assert_eq!(game.high_score, 0);
}

#[test]
fn test_high_score_updates_when_rally_ends() {
    let mut game = PongControl::new();
    game.rally_count = 8;
    game.record_goal(true);
    assert_eq!(game.high_score, 8);
}

#[test]
fn test_high_score_only_updates_if_higher() {
    let mut game = PongControl::new();
    game.high_score = 10;
    game.rally_count = 5;
    game.record_goal(true);
    assert_eq!(game.high_score, 10);
}

#[test]
fn test_high_score_persists_across_reset() {
    let mut game = PongControl::new();
    game.high_score = 15;
    game.reset_game();
    assert_eq!(game.high_score, 15);
}

#[test]
fn test_high_score_updates_on_both_sides_scoring() {
    let mut game = PongControl::new();
    game.rally_count = 7;
    game.record_goal(true);
    assert_eq!(game.high_score, 7);
    game.rally_count = 12;
    game.record_goal(false);
    assert_eq!(game.high_score, 12);
}

#[test]
fn take_actions_keeps_everything_else() {
    let mut game = PongControl::new();
    game.apply_shortcuts(ControlInput { key_f: true, key_4: true, ..no_keys() });
    game.apply_hud_click(Some(HudButton::Download), None);
    let before = game.clone();
    game.take_actions();
    assert!(!game.download_requested && !game.fullscreen_requested);
    assert_eq!(game.previous, before.previous);
    assert_eq!(game.speed_multiplier, before.speed_multiplier);
    assert_eq!(game.is_fullscreen, before.is_fullscreen);
    // F is still held: no new toggle until it is released and pressed again.
    game.apply_shortcuts(ControlInput { key_f: true, ..no_keys() });
    assert!(game.take_actions().is_empty());
    game.apply_shortcuts(no_keys());
    game.apply_shortcuts(ControlInput { key_f: true, ..no_keys() });
    assert_eq!(game.take_actions(), vec![JsAction::ExitFullscreen]);
    assert!(!game.is_fullscreen);
}

#[test]
fn set_game_mode_resets_the_game_only() {
    let mut game = PongControl::new();
    game.left_score = 3;
    game.right_score = 4;
    game.rally_count = 2;
    game.high_score = 9;
    game.apply_hud_click(Some(HudButton::SoundToggle), None);
    game.set_game_mode(GameMode::TwoPlayer);
    assert_eq!(game.game_mode, GameMode::TwoPlayer);
    assert_eq!((game.left_score, game.right_score, game.rally_count), (0, 0, 0));
    assert_eq!(game.high_score, 9);
    assert!(!game.sound_enabled);
    assert_eq!(game.state, GameState::Playing);
}

#[test]
fn winner_is_the_side_at_the_winning_score() {
    let mut game = PongControl::new();
    assert!(!game.left_won());
    game.left_score = 11;
    assert!(game.left_won());
    game.left_score = 3;
    game.right_score = 11;
    assert!(!game.left_won());
}
