// Positions and sizes are thousandths of a pixel, times milliseconds and
// multipliers percent, so 49.9 px is 49_900, 0.016 s is 16 and 1.3x is 130.

use racing_game::game::{
    calculate_base_score, calculate_difficulty_level, calculate_score_increment,
    calculate_spawn_interval_multiplier, calculate_speed_multiplier, handle_menu_navigation,
    update_combo_timer, Combo, GameState, MENU_OPTION_COUNT,
};
use racing_game::game_mode::{cycle_game_mode, get_mode_lives, get_mode_time_limit, GameMode};
use racing_game::geometry::FixedVec2;
use racing_game::life::{handle_collision, LifeConfig, PlayerLife};
use racing_game::obstacle::{
    check_aabb_collision, record_dodge, reset_combo_on_collision, should_despawn_obstacle,
};
use racing_game::player::clamp_player_position;
use racing_game::powerup::{activate_shield, check_powerup_collision, update_shield_timer, ActivePowerUps};
use racing_game::road::calculate_road_line_offset;
use racing_game::settings::DifficultyLevel;

fn v(x: i64, y: i64) -> FixedVec2 {
    FixedVec2::new(x, y)
}

#[test]
fn test_collision_detected() {
    let result = check_aabb_collision(v(0, 0), v(25_000, 25_000), v(10_000, 10_000), v(25_000, 25_000));
    assert!(result);
}

#[test]
fn test_no_collision_separated_x() {
    let result = check_aabb_collision(v(0, 0), v(25_000, 25_000), v(100_000, 0), v(25_000, 25_000));
    assert!(!result);
}

#[test]
fn test_no_collision_separated_y() {
    let result = check_aabb_collision(v(0, 0), v(25_000, 25_000), v(0, 100_000), v(25_000, 25_000));
    assert!(!result);
}

#[test]
fn test_edge_collision() {
    let result = check_aabb_collision(v(0, 0), v(25_000, 25_000), v(49_900, 0), v(25_000, 25_000));
    assert!(result);
}

#[test]
fn test_no_collision_at_edge() {
    let result = check_aabb_collision(v(0, 0), v(25_000, 25_000), v(50_100, 0), v(25_000, 25_000));
    assert!(!result);
}

#[test]
fn test_player_at_center() {
    let result = clamp_player_position(0, 400_000, 40_000);
    assert_eq!(result, 0);
}

#[test]
fn test_player_at_right_boundary() {
    let result = clamp_player_position(200_000, 400_000, 40_000);
    assert!((result - 180_000).abs() < 1);
}

#[test]
fn test_player_at_left_boundary() {
    let result = clamp_player_position(-200_000, 400_000, 40_000);
    assert!((result - (-180_000)).abs() < 1);
}

#[test]
fn test_player_exceeds_right_boundary() {
    let result = clamp_player_position(300_000, 400_000, 40_000);
    assert!((result - 180_000).abs() < 1);
}

#[test]
fn test_player_exceeds_left_boundary() {
    let result = clamp_player_position(-300_000, 400_000, 40_000);
    assert!((result - (-180_000)).abs() < 1);
}

#[test]
fn test_player_within_boundary() {
    let result = clamp_player_position(50_000, 400_000, 40_000);
    assert_eq!(result, 50_000);
}

#[test]
fn test_road_line_scroll() {
    let result = calculate_road_line_offset(100_000, 200_000, 16, -720_000, 720_000);
    assert!((result - 96_800).abs() < 10);
}

#[test]
fn test_road_line_loop() {
    let total_height: i64 = 60_000;
    let loop_threshold = -total_height * 12;
    let loop_reset = total_height * 12;
    let result = calculate_road_line_offset(-710_000, 200_000, 16, loop_threshold, loop_reset);
    assert!(result > loop_threshold);
}

#[test]
fn test_road_line_no_scroll() {
    let result = calculate_road_line_offset(100_000, 0, 16, -720_000, 720_000);
    assert_eq!(result, 100_000);
}

#[test]
fn test_should_despawn() {
    assert!(should_despawn_obstacle(-500_000, -400_000));
}

#[test]
fn test_should_not_despawn() {
    assert!(!should_despawn_obstacle(-300_000, -400_000));
}

#[test]
fn test_despawn_at_boundary() {
    assert!(!should_despawn_obstacle(-400_000, -400_000));
}

fn create_player_life(lives: u32) -> PlayerLife {
    PlayerLife { lives, is_invincible: false, invincibility_timer: 0 }
}

#[test]
fn test_handle_collision_lose_life() {
    let mut life = create_player_life(3);
    let config = LifeConfig::default();
    let result = handle_collision(&mut life, &config);
    assert!(!result);
    assert_eq!(life.lives, 2);
}

#[test]
fn test_handle_collision_last_life() {
    let mut life = create_player_life(1);
    let config = LifeConfig::default();
    let result = handle_collision(&mut life, &config);
    assert!(result);
    assert_eq!(life.lives, 0);
}

#[test]
fn test_handle_collision_invincible() {
    let mut life = create_player_life(3);
    life.is_invincible = true;
    let config = LifeConfig::default();
    let result = handle_collision(&mut life, &config);
    assert!(!result);
    assert_eq!(life.lives, 3);
}

#[test]
fn test_handle_collision_zero_lives() {
    let mut life = create_player_life(0);
    let config = LifeConfig::default();
    let result = handle_collision(&mut life, &config);
    assert!(result);
    assert_eq!(life.lives, 0);
}

#[test]
fn test_initial_difficulty() {
    assert_eq!(calculate_difficulty_level(0, 30_000), 1);
}

#[test]
fn test_level_2() {
    assert_eq!(calculate_difficulty_level(30_000, 30_000), 2);
}

#[test]
fn test_level_3() {
    assert_eq!(calculate_difficulty_level(60_000, 30_000), 3);
}

#[test]
fn test_speed_multiplier_level_1() {
    assert_eq!(calculate_speed_multiplier(1), 100);
}

#[test]
fn test_speed_multiplier_level_2() {
    assert_eq!(calculate_speed_multiplier(2), 115);
}

#[test]
fn test_speed_multiplier_level_5() {
    assert_eq!(calculate_speed_multiplier(5), 160);
}

#[test]
fn test_spawn_interval_level_1() {
    assert_eq!(calculate_spawn_interval_multiplier(1), 100);
}

#[test]
fn test_spawn_interval_level_2() {
    assert_eq!(calculate_spawn_interval_multiplier(2), 90);
}

#[test]
fn test_spawn_interval_minimum() {
    assert_eq!(calculate_spawn_interval_multiplier(10), 30);
}

#[test]
fn test_base_score_calculation() {
    assert_eq!(calculate_base_score(10_000), 100);
}

#[test]
fn test_base_score_zero() {
    assert_eq!(calculate_base_score(0), 0);
}

#[test]
fn test_score_increment_no_combo_no_double() {
    assert_eq!(calculate_score_increment(100, 90, 100, false), 10);
}

#[test]
fn test_score_increment_with_combo() {
    assert_eq!(calculate_score_increment(100, 90, 200, false), 20);
}

#[test]
fn test_score_increment_with_double_score() {
    assert_eq!(calculate_score_increment(100, 90, 100, true), 20);
}

#[test]
fn test_score_increment_with_combo_and_double() {
    assert_eq!(calculate_score_increment(100, 90, 200, true), 40);
}

fn create_active_powerups() -> ActivePowerUps {
    ActivePowerUps {
        shield_timer: 0,
        has_shield: false,
        magnet_timer: 0,
        has_magnet: false,
        slowdown_timer: 0,
        has_slowdown: false,
        double_score_timer: 0,
        has_double_score: false,
        shrink_timer: 0,
        has_shrink: false,
        nitro_timer: 0,
        has_nitro: false,
    }
}

#[test]
fn test_activate_shield() {
    let mut powerups = create_active_powerups();
    activate_shield(&mut powerups, 5_000);
    assert!(powerups.has_shield);
    assert_eq!(powerups.shield_timer, 5_000);
}

#[test]
fn test_shield_timer_update() {
    let mut powerups = create_active_powerups();
    activate_shield(&mut powerups, 5_000);
    let still_active = update_shield_timer(&mut powerups, 1_000);
    assert!(still_active);
    assert_eq!(powerups.shield_timer, 4_000);
}

#[test]
fn test_shield_expire() {
    let mut powerups = create_active_powerups();
    activate_shield(&mut powerups, 1_000);
    let still_active = update_shield_timer(&mut powerups, 1_500);
    assert!(!still_active);
    assert!(!powerups.has_shield);
}

#[test]
fn test_no_shield_update() {
    let mut powerups = create_active_powerups();
    let still_active = update_shield_timer(&mut powerups, 1_000);
    assert!(!still_active);
}

#[test]
fn test_powerup_collision_detected() {
    let result = check_powerup_collision(v(0, 0), v(25_000, 25_000), v(10_000, 10_000), v(25_000, 25_000));
    assert!(result);
}

#[test]
fn test_powerup_no_collision() {
    let result = check_powerup_collision(v(0, 0), v(25_000, 25_000), v(100_000, 0), v(25_000, 25_000));
    assert!(!result);
}

#[test]
fn test_menu_down() {
    assert_eq!(handle_menu_navigation(0, 1, MENU_OPTION_COUNT), 1);
}

#[test]
fn test_menu_up() {
    assert_eq!(handle_menu_navigation(1, -1, MENU_OPTION_COUNT), 0);
}

#[test]
fn test_menu_wrap_down() {
    assert_eq!(handle_menu_navigation(MENU_OPTION_COUNT - 1, 1, MENU_OPTION_COUNT), 0);
}

#[test]
fn test_menu_wrap_up() {
    assert_eq!(handle_menu_navigation(0, -1, MENU_OPTION_COUNT), MENU_OPTION_COUNT - 1);
}

#[test]
fn test_menu_option_count() {
    assert_eq!(MENU_OPTION_COUNT, 4);
}

#[test]
fn test_difficulty_level_variants() {
    let easy = DifficultyLevel::Easy;
    let normal = DifficultyLevel::Normal;
    let hard = DifficultyLevel::Hard;
    assert_ne!(easy, normal);
    assert_ne!(normal, hard);
    assert_ne!(easy, hard);
}

#[test]
fn test_difficulty_speed_multiplier() {
    assert_eq!(DifficultyLevel::Easy.speed_multiplier(), 75);
    assert_eq!(DifficultyLevel::Normal.speed_multiplier(), 100);
    assert_eq!(DifficultyLevel::Hard.speed_multiplier(), 125);
}

#[test]
fn test_difficulty_lives() {
    assert_eq!(DifficultyLevel::Easy.lives(), 5);
    assert_eq!(DifficultyLevel::Normal.lives(), 3);
    assert_eq!(DifficultyLevel::Hard.lives(), 2);
}

#[test]
fn test_difficulty_spawn_interval() {
    assert_eq!(DifficultyLevel::Easy.spawn_interval_multiplier(), 150);
    assert_eq!(DifficultyLevel::Normal.spawn_interval_multiplier(), 100);
    assert_eq!(DifficultyLevel::Hard.spawn_interval_multiplier(), 75);
}

#[test]
fn test_difficulty_from_str() {
    assert_eq!(DifficultyLevel::from_str("easy"), DifficultyLevel::Easy);
    assert_eq!(DifficultyLevel::from_str("HARD"), DifficultyLevel::Hard);
    assert_eq!(DifficultyLevel::from_str("unknown"), DifficultyLevel::Normal);
}

fn create_combo() -> Combo {
    Combo { count: 0, combo_multiplier: 100, timer: 0, max_timer: 2_000 }
}

#[test]
fn test_record_dodge() {
    let mut combo = create_combo();
    record_dodge(&mut combo);
    assert_eq!(combo.count, 1);
    assert_eq!(combo.combo_multiplier, 110);
    assert_eq!(combo.timer, 2_000);
}

#[test]
fn test_record_multiple_dodges() {
    let mut combo = create_combo();
    for _ in 0..5 {
        record_dodge(&mut combo);
    }
    assert_eq!(combo.count, 5);
    assert_eq!(combo.combo_multiplier, 150);
}

#[test]
fn test_combo_multiplier_max() {
    let mut combo = create_combo();
    for _ in 0..25 {
        record_dodge(&mut combo);
    }
    assert_eq!(combo.combo_multiplier, 300);
}

#[test]
fn test_reset_combo_on_collision() {
    let mut combo = create_combo();
    record_dodge(&mut combo);
    record_dodge(&mut combo);
    assert_eq!(combo.count, 2);
    reset_combo_on_collision(&mut combo);
    assert_eq!(combo.count, 0);
    assert_eq!(combo.combo_multiplier, 100);
    assert_eq!(combo.timer, 0);
}

#[test]
fn test_update_combo_timer() {
    let mut combo = create_combo();
    record_dodge(&mut combo);
    let still_active = update_combo_timer(&mut combo, 1_000);
    assert!(still_active);
    assert_eq!(combo.timer, 1_000);
}

#[test]
fn test_combo_timer_expire() {
    let mut combo = create_combo();
    record_dodge(&mut combo);
    let still_active = update_combo_timer(&mut combo, 3_000);
    assert!(!still_active);
    assert_eq!(combo.count, 0);
    assert_eq!(combo.combo_multiplier, 100);
}

#[test]
fn test_combo_timer_no_combo() {
    let mut combo = create_combo();
    let still_active = update_combo_timer(&mut combo, 1_000);
    assert!(!still_active);
}

#[test]
fn test_double_score_with_combo_multiplier() {
    assert_eq!(calculate_score_increment(100, 90, 150, true), 30);
}

#[test]
fn test_collision_resets_combo_not_double_score() {
    let mut combo = Combo { count: 5, combo_multiplier: 150, timer: 1_000, max_timer: 2_000 };
    reset_combo_on_collision(&mut combo);
    assert_eq!(combo.combo_multiplier, 100);
    let increment = calculate_score_increment(100, 90, combo.combo_multiplier, true);
    assert_eq!(increment, 20);
}

#[test]
fn test_double_score_expiry_no_halving_bug() {
    let combo = Combo { count: 3, combo_multiplier: 130, timer: 1_000, max_timer: 2_000 };
    let increment_before = calculate_score_increment(100, 90, combo.combo_multiplier, true);
    let increment_after = calculate_score_increment(100, 90, combo.combo_multiplier, false);
    assert_eq!(increment_before, 26);
    assert_eq!(increment_after, 13);
    assert!(combo.combo_multiplier >= 100);
}

#[test]
fn test_combo_timeout_with_double_score_no_bug() {
    let mut combo = Combo { count: 5, combo_multiplier: 150, timer: 100, max_timer: 2_000 };
    update_combo_timer(&mut combo, 1_000);
    assert_eq!(combo.combo_multiplier, 100);
    let increment = calculate_score_increment(100, 90, combo.combo_multiplier, true);
    assert_eq!(increment, 20);
}

#[test]
fn test_no_multiplier_below_one() {
    let mut combo = Combo { count: 0, combo_multiplier: 100, timer: 0, max_timer: 2_000 };
    reset_combo_on_collision(&mut combo);
    assert!(combo.combo_multiplier >= 100);
    update_combo_timer(&mut combo, 5_000);
    assert!(combo.combo_multiplier >= 100);
}

#[test]
fn test_cycle_game_mode_forward() {
    assert_eq!(cycle_game_mode(GameMode::Classic, 1), GameMode::Endless);
    assert_eq!(cycle_game_mode(GameMode::Endless, 1), GameMode::TimeAttack);
    assert_eq!(cycle_game_mode(GameMode::TimeAttack, 1), GameMode::Classic);
}

#[test]
fn test_cycle_game_mode_backward() {
    assert_eq!(cycle_game_mode(GameMode::Classic, -1), GameMode::TimeAttack);
    assert_eq!(cycle_game_mode(GameMode::Endless, -1), GameMode::Classic);
    assert_eq!(cycle_game_mode(GameMode::TimeAttack, -1), GameMode::Endless);
}

#[test]
fn test_get_mode_lives() {
    assert_eq!(get_mode_lives(GameMode::Classic, 3), 3);
    assert_eq!(get_mode_lives(GameMode::Endless, 3), 1);
    assert_eq!(get_mode_lives(GameMode::TimeAttack, 3), 3);
}

#[test]
fn test_get_mode_time_limit() {
    assert_eq!(get_mode_time_limit(GameMode::Classic), None);
    assert_eq!(get_mode_time_limit(GameMode::Endless), None);
    assert_eq!(get_mode_time_limit(GameMode::TimeAttack), Some(60_000));
}

#[test]
fn test_game_state_variants() {
    let states = vec![GameState::Menu, GameState::Playing, GameState::Paused, GameState::GameOver];
    assert_eq!(states.len(), 4);
}

#[test]
fn test_game_state_equality() {
    assert_eq!(GameState::Menu, GameState::Menu);
    assert_ne!(GameState::Menu, GameState::Playing);
}
