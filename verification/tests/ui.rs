use drone_target::drone::Stats;
use drone_target::info_panel::{display_value, player_status};
use drone_target::level::{ai_spawn_positions, beam_spawn_position, player_spawn_position};
use drone_target::settings::{centered_position, MenuOutcome, PauseClick, Settings, WindowMode};
use drone_target::vec3::Vec3;

#[test]
fn settings_defaults() {
    let s = Settings::default();
    assert!(s.show_info_panel);
    assert!(!s.god_mode);
    assert_eq!(s.window_mode, WindowMode::Windowed);
}

#[test]
fn pause_menu_toggles_settings() {
    let mut s = Settings::default();
    let quiet = s.pause_menu(Some(PauseClick::ToggleGodMode), false, true);
    assert!(s.god_mode);
    assert_eq!(
        quiet,
        MenuOutcome { exit_pause: false, close_window: false, apply_window_mode: None }
    );

    s.pause_menu(Some(PauseClick::ToggleInfoPanel), false, true);
    assert!(!s.show_info_panel);

    let fullscreen = s.pause_menu(Some(PauseClick::ToggleWindowMode), false, true);
    assert_eq!(s.window_mode, WindowMode::BorderlessFullscreen);
    assert_eq!(fullscreen.apply_window_mode, Some(WindowMode::BorderlessFullscreen));
    let windowed = s.pause_menu(Some(PauseClick::ToggleWindowMode), false, true);
    assert_eq!(windowed.apply_window_mode, Some(WindowMode::Windowed));
}

#[test]
fn pause_menu_exits() {
    let mut s = Settings::default();
    let resume = s.pause_menu(Some(PauseClick::Resume), false, true);
    assert!(resume.exit_pause);

    // pressing the menu action again ends the pause, but not on the very
    // frame that opened it
    let opening = s.pause_menu(None, true, false);
    assert!(!opening.exit_pause);
    let second = s.pause_menu(None, true, true);
    assert!(second.exit_pause);

    let exit = s.pause_menu(Some(PauseClick::Exit), false, true);
    assert!(exit.close_window);
    assert!(!exit.exit_pause);
}

#[test]
fn window_centering() {
    assert_eq!(centered_position(1920, 1080, 1280, 720), (320, 180));
    assert_eq!(centered_position(1280, 720, 1280, 720), (0, 0));
}

#[test]
fn display_values_clamp_and_truncate() {
    assert_eq!(display_value(100_000), 100);
    assert_eq!(display_value(99_999), 99);
    assert_eq!(display_value(10), 0);
    assert_eq!(display_value(-500), 0);
    assert_eq!(display_value(-100_000), 0);
    assert_eq!(display_value(300_000), 255);
}

#[test]
fn status_bar_shows_the_player() {
    let bot = Stats { charge: 50_000, ..Stats::default() };
    let player = Stats {
        is_player: true,
        charge: 42_400,
        strike_charge: 7_900,
        health: 99_999,
        ..Stats::default()
    };
    let drones = vec![bot, player, Stats::default()];
    assert_eq!(player_status(&drones), (99, 42, 7));

    // with no player everything reads zero
    let unmanned = vec![Stats::default()];
    assert_eq!(player_status(&unmanned), (0, 0, 0));
}

#[test]
fn stock_level_layout() {
    assert_eq!(beam_spawn_position(), Vec3::zero());
    assert_eq!(player_spawn_position(), Vec3::new(10_000, 0, 0));
    let ai = ai_spawn_positions();
    assert_eq!(ai.len(), 20);
    assert_eq!(ai[0], Vec3::new(80_000, 10_000, -90_000));
    assert_eq!(ai[19], Vec3::new(-90_000, 85_000, 10_000));
}
