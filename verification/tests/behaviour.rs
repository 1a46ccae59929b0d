use racing_game::achievement::{
    achievement_line, all_achievements, check_achievements, check_and_unlock, record_collision,
    record_game_over, record_powerup_collection, unlocked_from_save, AchievementId, AchievementTracker,
};
use racing_game::audio::{effects_volume, mixed_volume, music_volume};
use racing_game::game::{
    back_to_menu_input, finish_game, game_over_input, menu_confirm_target, menu_input,
    menu_option_label, pause_input, resume_input, settle_high_score, start_game, update_difficulty,
    update_combo_timer, update_score, Combo, Difficulty, GameState, GameTimer, KeyPresses, MenuOption, Score,
};
use racing_game::game_mode::{
    cleanup_game_mode, get_mode_description, get_mode_name, setup_game_mode, count_down_round, update_time_attack_timer,
    GameMode, TimeAttackTimer,
};
use racing_game::geometry::FixedVec2;
use racing_game::graphics::{car_type_for_index, obstacle_car_pixels, paint_color, random_car_type, ArtPixel, CarPaint, CarType};
use racing_game::life::{reset_life, update_invincibility, LifeConfig, PlayerLife};
use racing_game::obstacle::{
    adjusted_spawn_interval, is_dodged, obstacle_half_size, obstacle_spawn_half_range, obstacle_speed,
    resolve_obstacle_hit, HitOutcome,
};
use racing_game::player::{move_player, player_half_extents, steering_direction, PlayerConfig};
use racing_game::powerup::{
    apply_powerup, pick_up_powerup, powerup_color, powerup_reached, powerup_type_for_roll,
    roll_powerup_type, update_active_powerups, ActivePowerUps, PickupAction, PowerUpConfig, PowerUpType,
};
use racing_game::road::scaled_speed;
use racing_game::save::{record_game_result, SaveData, SettingsData};
use racing_game::settings::{
    adjust_volume, cycle_difficulty, settings_input, settings_option_label, DifficultyLevel, GameSettings,
    SettingsOption,
};
use racing_game::text::{equals_ignoring_ascii_case, labeled_number};
use racing_game::timer::count_down;

fn no_keys() -> KeyPresses {
    KeyPresses {
        arrow_up: false,
        arrow_down: false,
        arrow_left: false,
        arrow_right: false,
        enter: false,
        space: false,
        escape: false,
        key_p: false,
        key_q: false,
    }
}

#[test]
fn mode_names_and_descriptions() {
    assert_eq!(get_mode_name(GameMode::TimeAttack), "Time Attack");
    assert_eq!(get_mode_description(GameMode::Endless), "1 Life, One Hit = Game Over");
}

#[test]
fn time_attack_round_ends_after_sixty_seconds() {
    let mut timer = TimeAttackTimer::new();
    setup_game_mode(&mut timer, GameMode::TimeAttack);
    assert!(timer.active);
    let mut ended = false;
    let mut frames = 0;
    while !ended {
        ended = count_down_round(&mut timer, 1_000);
        frames += 1;
    }
    assert_eq!(frames, 60);
    assert_eq!(timer.remaining, 0);
    assert!(!timer.active);
    assert!(!count_down_round(&mut timer, 1_000));
}

#[test]
fn other_modes_have_no_countdown() {
    let mut timer = TimeAttackTimer::new();
    setup_game_mode(&mut timer, GameMode::Classic);
    assert!(!timer.active);
    assert!(!count_down_round(&mut timer, 70_000));
    assert_eq!(timer.remaining, 60_000);
    setup_game_mode(&mut timer, GameMode::TimeAttack);
    cleanup_game_mode(&mut timer);
    assert!(!timer.active);
}

#[test]
fn settings_navigation_and_adjustment() {
    let mut selected = 0usize;
    let mut settings = GameSettings::default();
    let mut keys = no_keys();
    keys.arrow_up = true;
    let out = settings_input(&mut selected, &mut settings, &keys);
    assert_eq!(selected, 3);
    assert!(!out.changed);
    let mut keys = no_keys();
    keys.arrow_right = true;
    let out = settings_input(&mut selected, &mut settings, &keys);
    assert!(out.changed);
    assert_eq!(settings.sfx_volume, 80);
    let mut keys = no_keys();
    keys.arrow_down = true;
    keys.arrow_left = true;
    let out = settings_input(&mut selected, &mut settings, &keys);
    assert_eq!(selected, 0);
    assert!(out.changed);
    assert_eq!(settings.difficulty, DifficultyLevel::Easy);
    let mut keys = no_keys();
    keys.escape = true;
    let out = settings_input(&mut selected, &mut settings, &keys);
    assert_eq!(out.next_state, Some(GameState::Menu));
}

#[test]
fn volume_stays_in_range() {
    assert_eq!(adjust_volume(100, 1), 100);
    assert_eq!(adjust_volume(0, -1), 0);
    assert_eq!(adjust_volume(95, 1), 100);
    assert_eq!(adjust_volume(50, -1), 40);
}

#[test]
fn difficulty_cycles_both_ways() {
    for d in [DifficultyLevel::Easy, DifficultyLevel::Normal, DifficultyLevel::Hard] {
        assert_eq!(cycle_difficulty(cycle_difficulty(d, 1), -1), d);
        assert_eq!(cycle_difficulty(cycle_difficulty(cycle_difficulty(d, 1), 1), 1), d);
    }
    assert_eq!(cycle_difficulty(DifficultyLevel::Hard, 1), DifficultyLevel::Easy);
}

#[test]
fn settings_labels() {
    let settings = GameSettings::default();
    assert_eq!(settings_option_label(SettingsOption::Difficulty, &settings), "Difficulty: Normal");
    assert_eq!(settings_option_label(SettingsOption::MasterVolume, &settings), "Master Volume: 80%");
    assert_eq!(settings_option_label(SettingsOption::MusicVolume, &settings), "Music Volume: 50%");
    assert_eq!(settings_option_label(SettingsOption::SfxVolume, &settings), "SFX Volume: 70%");
}

#[test]
fn settings_round_trip_through_save_data() {
    for d in [DifficultyLevel::Easy, DifficultyLevel::Normal, DifficultyLevel::Hard] {
        let settings = GameSettings { difficulty: d, master_volume: 10, music_volume: 20, sfx_volume: 30 };
        let data = SettingsData::from_settings(&settings);
        let back = GameSettings::from(&data);
        assert_eq!(back.difficulty, d);
        assert_eq!((back.master_volume, back.music_volume, back.sfx_volume), (10, 20, 30));
    }
    assert_eq!(DifficultyLevel::Hard.to_string(), "hard");
    assert_eq!(DifficultyLevel::from_str("EaSy"), DifficultyLevel::Easy);
    assert_eq!(DifficultyLevel::from_str("easy "), DifficultyLevel::Normal);
    assert_eq!(DifficultyLevel::Hard.name(), "Hard");
    for d in [DifficultyLevel::Easy, DifficultyLevel::Normal, DifficultyLevel::Hard] {
        assert_eq!(DifficultyLevel::from_str(d.name()), d);
        assert_eq!(DifficultyLevel::from_str(&d.name().to_ascii_uppercase()), d);
    }
    assert_eq!(DifficultyLevel::from_str("HARD"), DifficultyLevel::Hard);
    assert_eq!(DifficultyLevel::from_str("medium"), DifficultyLevel::Normal);
}

#[test]
fn achievement_names_round_trip() {
    for a in all_achievements() {
        assert_eq!(AchievementId::from_str(&a.to_string()), Some(a));
    }
    assert_eq!(AchievementId::from_str("firstblood"), None);
    assert_eq!(AchievementId::SpeedDemon.name(), "Speed Demon");
    assert_eq!(AchievementId::Collector.description(), "Collect 10 power-ups");
}

#[test]
fn achievement_unlocks_once() {
    let mut tracker = AchievementTracker::default();
    let mut save = SaveData::default();
    assert!(check_and_unlock(AchievementId::Master, true, &mut tracker, &mut save));
    assert!(!check_and_unlock(AchievementId::Master, true, &mut tracker, &mut save));
    assert!(!check_and_unlock(AchievementId::Legend, false, &mut tracker, &mut save));
    assert_eq!(tracker.unlocked, vec![AchievementId::Master]);
    assert_eq!(tracker.new_unlock, Some(AchievementId::Master));
    assert_eq!(save.achievements, vec!["Master".to_string()]);
}

#[test]
fn achievements_checked_while_playing() {
    let mut tracker = AchievementTracker::default();
    let mut save = SaveData::default();
    assert!(!check_achievements(&mut tracker, &mut save, 999, 39_999));
    assert!(tracker.unlocked.is_empty());
    assert!(check_achievements(&mut tracker, &mut save, 5_000, 40_000));
    assert_eq!(tracker.unlocked, vec![AchievementId::HighScorer, AchievementId::Master, AchievementId::SpeedDemon]);
    assert_eq!(tracker.new_unlock, Some(AchievementId::SpeedDemon));
    assert!(check_achievements(&mut tracker, &mut save, 10_000, 60_000));
    assert_eq!(tracker.unlocked.len(), 5);
    assert_eq!(save.achievements.len(), 5);
    assert_eq!(tracker.new_unlock, Some(AchievementId::Survivor));
    assert!(!check_achievements(&mut tracker, &mut save, 10_000, 60_000));
    assert_eq!(tracker.new_unlock, Some(AchievementId::Survivor));
}

#[test]
fn collector_after_ten_powerups() {
    let mut tracker = AchievementTracker::default();
    let mut save = SaveData::default();
    for _ in 0..9 {
        assert!(!record_powerup_collection(&mut tracker, &mut save));
    }
    assert!(record_powerup_collection(&mut tracker, &mut save));
    assert!(!record_powerup_collection(&mut tracker, &mut save));
    assert_eq!(tracker.powerups_collected, 11);
    assert!(record_collision(&mut tracker, &mut save));
    assert!(!record_collision(&mut tracker, &mut save));
    assert!(record_game_over(&mut tracker, &mut save));
    assert_eq!(save.achievements, vec!["Collector".to_string(), "FirstBlood".to_string(), "GameOver".to_string()]);
}

#[test]
fn unlocked_achievements_read_from_save() {
    let mut save = SaveData::default();
    save.achievements = vec![
        "Legend".to_string(),
        "bogus".to_string(),
        "GameOver".to_string(),
        "Legend".to_string(),
    ];
    assert_eq!(unlocked_from_save(&save), vec![AchievementId::Legend, AchievementId::GameOver]);
}

#[test]
fn achievement_screen_lines() {
    assert_eq!(achievement_line(AchievementId::Survivor, true), "[X] Survivor - Survive for 1 minute");
    assert_eq!(achievement_line(AchievementId::Legend, false), "[ ] Legend - Score 10000 points");
}

#[test]
fn powerup_roll_boundaries() {
    assert_eq!(powerup_type_for_roll(0), PowerUpType::Shield);
    assert_eq!(powerup_type_for_roll(20), PowerUpType::Shield);
    assert_eq!(powerup_type_for_roll(21), PowerUpType::Clear);
    assert_eq!(powerup_type_for_roll(36), PowerUpType::Magnet);
    assert_eq!(powerup_type_for_roll(51), PowerUpType::Slowdown);
    assert_eq!(powerup_type_for_roll(66), PowerUpType::DoubleScore);
    assert_eq!(powerup_type_for_roll(81), PowerUpType::Shrink);
    assert_eq!(powerup_type_for_roll(90), PowerUpType::Shrink);
    assert_eq!(powerup_type_for_roll(91), PowerUpType::NitroBoost);
    assert_eq!(powerup_type_for_roll(99), PowerUpType::NitroBoost);
    let shields = (0..100).filter(|r| powerup_type_for_roll(*r) == PowerUpType::Shield).count();
    let nitros = (0..100).filter(|r| powerup_type_for_roll(*r) == PowerUpType::NitroBoost).count();
    assert_eq!((shields, nitros), (21, 9));
}

#[test]
fn random_rolls_cover_several_kinds() {
    let mut kinds = Vec::new();
    for _ in 0..2_000 {
        let k = roll_powerup_type();
        if !kinds.contains(&k) {
            kinds.push(k);
        }
    }
    assert!(kinds.len() >= 5);
    let mut cars = Vec::new();
    for _ in 0..500 {
        let c = random_car_type();
        if !cars.contains(&c) {
            cars.push(c);
        }
    }
    assert_eq!(cars.len(), 4);
}

#[test]
fn powerup_effects_start_and_expire() {
    let config = PowerUpConfig::default();
    let mut active = ActivePowerUps::default();
    assert_eq!(apply_powerup(&mut active, PowerUpType::Shield, &config), PickupAction::ShieldSound);
    assert_eq!(apply_powerup(&mut active, PowerUpType::Clear, &config), PickupAction::ClearObstacles);
    assert_eq!(apply_powerup(&mut active, PowerUpType::NitroBoost, &config), PickupAction::Nothing);
    assert_eq!(apply_powerup(&mut active, PowerUpType::DoubleScore, &config), PickupAction::Nothing);
    assert!(active.has_shield && active.has_nitro && active.has_double_score);
    assert!(!active.has_magnet);
    assert!(update_active_powerups(&mut active, 2_999));
    assert!(active.has_nitro);
    assert!(update_active_powerups(&mut active, 1));
    assert!(!active.has_nitro);
    assert_eq!(active.nitro_timer, 0);
    assert!(!update_active_powerups(&mut active, 2_000));
    assert!(!active.has_shield);
    assert!(active.has_double_score);
    assert_eq!(active.double_score_timer, 5_000);
}

#[test]
fn picking_up_counts_toward_collector() {
    let config = PowerUpConfig::default();
    let mut active = ActivePowerUps::default();
    let mut tracker = AchievementTracker::default();
    let mut save = SaveData::default();
    let p = pick_up_powerup(&mut active, PowerUpType::Magnet, &config, &mut tracker, &mut save);
    assert_eq!(p.action, PickupAction::Nothing);
    assert!(!p.collector_unlocked);
    assert!(active.has_magnet);
    assert_eq!(active.magnet_timer, 8_000);
    assert_eq!(tracker.powerups_collected, 1);
    assert_eq!(tracker.new_unlock, None);
    for _ in 0..9 {
        pick_up_powerup(&mut active, PowerUpType::Clear, &config, &mut tracker, &mut save);
    }
    assert_eq!(tracker.new_unlock, Some(AchievementId::Collector));
}

#[test]
fn powerup_pickup_box() {
    let player = FixedVec2::new(0, 0);
    assert!(powerup_reached(player, FixedVec2::new(34_999, 0), 30_000));
    assert!(!powerup_reached(player, FixedVec2::new(35_000, 0), 30_000));
    assert!(!powerup_reached(player, FixedVec2::new(0, 45_000), 30_000));
    assert_eq!(powerup_color(PowerUpType::DoubleScore), (100, 85, 0));
}

#[test]
fn menu_input_moves_and_confirms() {
    let mut selection = 0usize;
    let mut mode = GameMode::Classic;
    let mut keys = no_keys();
    keys.arrow_down = true;
    keys.arrow_right = true;
    assert_eq!(menu_input(&mut selection, &mut mode, &keys), None);
    assert_eq!(selection, 1);
    assert_eq!(mode, GameMode::Endless);
    let mut keys = no_keys();
    keys.arrow_left = true;
    keys.arrow_down = true;
    keys.enter = true;
    assert_eq!(menu_input(&mut selection, &mut mode, &keys), Some(GameState::Settings));
    assert_eq!(mode, GameMode::Classic);
    let mut keys = no_keys();
    keys.arrow_up = true;
    keys.arrow_up = true;
    keys.space = true;
    selection = 0;
    assert_eq!(menu_input(&mut selection, &mut mode, &keys), Some(GameState::Achievements));
    assert_eq!(menu_confirm_target(4), Some(GameState::Help));
    assert_eq!(menu_confirm_target(1), None);
    assert_eq!(menu_confirm_target(0), Some(GameState::Playing));
}

#[test]
fn menu_labels() {
    assert_eq!(menu_option_label(MenuOption::Start, 0, GameMode::Classic), "> Start Game <");
    assert_eq!(menu_option_label(MenuOption::GameMode, 0, GameMode::TimeAttack), "  Mode: Time Attack  ");
    assert_eq!(menu_option_label(MenuOption::HowToPlay, 4, GameMode::Classic), "> How to Play <");
}

#[test]
fn screen_transitions() {
    let mut keys = no_keys();
    assert_eq!(game_over_input(&keys), None);
    assert_eq!(pause_input(&keys), None);
    assert_eq!(resume_input(&keys), None);
    assert_eq!(back_to_menu_input(&keys), None);
    keys.space = true;
    assert_eq!(game_over_input(&keys), Some(GameState::Playing));
    keys.escape = true;
    assert_eq!(game_over_input(&keys), Some(GameState::Menu));
    assert_eq!(pause_input(&keys), Some(GameState::Paused));
    assert_eq!(resume_input(&keys), Some(GameState::Playing));
    assert_eq!(back_to_menu_input(&keys), Some(GameState::Menu));
    keys.key_q = true;
    assert_eq!(resume_input(&keys), Some(GameState::Menu));
}

#[test]
fn score_follows_the_clock() {
    let mut score = Score::default();
    let mut timer = GameTimer::default();
    assert!(!update_score(&mut score, &mut timer, 100, false, 99));
    assert!(update_score(&mut score, &mut timer, 100, false, 1));
    assert_eq!(score.value, 1);
    assert!(update_score(&mut score, &mut timer, 150, false, 100));
    assert_eq!(score.value, 2);
    assert!(update_score(&mut score, &mut timer, 100, true, 100));
    assert_eq!(score.value, 4);
    assert_eq!(timer.elapsed, 300);
    assert!(update_score(&mut score, &mut timer, 300, false, 1_000));
    assert_eq!(score.value, 4 + 9 * 3);
}

#[test]
fn difficulty_follows_the_clock() {
    let mut difficulty = Difficulty::default();
    update_difficulty(&mut difficulty, 9_999);
    assert_eq!(difficulty.level, 1);
    assert_eq!(difficulty.speed_multiplier, 100);
    update_difficulty(&mut difficulty, 40_000);
    assert_eq!(difficulty.level, 5);
    assert_eq!(difficulty.speed_multiplier, 160);
    assert_eq!(difficulty.spawn_interval_multiplier, 60);
    update_difficulty(&mut difficulty, 100_000);
    assert_eq!(difficulty.spawn_interval_multiplier, 30);
}

#[test]
fn new_game_resets_state() {
    let mut score = Score { value: 500, high_score: 900 };
    let mut difficulty = Difficulty { level: 4, speed_multiplier: 145, spawn_interval_multiplier: 70 };
    let mut timer = GameTimer { elapsed: 35_000, last_difficulty_increase: 30_000 };
    let mut combo = Combo { count: 7, combo_multiplier: 170, timer: 500, max_timer: 2_000 };
    let mut life = PlayerLife { lives: 1, is_invincible: false, invincibility_timer: 0 };
    let mut config = LifeConfig::default();
    let settings = GameSettings { difficulty: DifficultyLevel::Easy, master_volume: 80, music_volume: 50, sfx_volume: 70 };
    start_game(&mut score, &mut difficulty, &mut timer, &mut combo, &mut life, &mut config, &settings, GameMode::Classic);
    assert_eq!((score.value, score.high_score), (0, 900));
    assert_eq!((difficulty.level, difficulty.speed_multiplier, difficulty.spawn_interval_multiplier), (1, 75, 150));
    assert_eq!(timer.elapsed, 0);
    assert_eq!((combo.count, combo.combo_multiplier), (0, 100));
    assert_eq!((life.lives, config.max_lives), (5, 5));
    start_game(&mut score, &mut difficulty, &mut timer, &mut combo, &mut life, &mut config, &settings, GameMode::Endless);
    assert_eq!((life.lives, config.max_lives), (1, 1));
}

#[test]
fn best_score_settles() {
    let mut score = Score { value: 300, high_score: 0 };
    settle_high_score(&mut score, 250);
    assert_eq!(score.high_score, 300);
    settle_high_score(&mut score, 400);
    assert_eq!(score.high_score, 400);
    let mut tracker = AchievementTracker::default();
    let mut save = SaveData::default();
    save.high_score = 100;
    assert!(finish_game(&mut score, &mut tracker, &mut save));
    assert_eq!(score.high_score, 300);
    assert_eq!(tracker.new_unlock, Some(AchievementId::GameOver));
    assert!(!finish_game(&mut score, &mut tracker, &mut save));
}

#[test]
fn time_attack_frames() {
    let mut timer = TimeAttackTimer::new();
    let mut score = Score { value: 700, high_score: 0 };
    let mut tracker = AchievementTracker::default();
    let mut save = SaveData::default();
    save.high_score = 500;
    let idle = update_time_attack_timer(&mut timer, 100_000, &mut score, &mut tracker, &mut save);
    assert_eq!((idle.next, idle.game_over_unlocked), (None, false));
    assert_eq!(timer.remaining, 60_000);
    setup_game_mode(&mut timer, GameMode::TimeAttack);
    let tick = update_time_attack_timer(&mut timer, 59_999, &mut score, &mut tracker, &mut save);
    assert_eq!((tick.next, tick.game_over_unlocked), (None, false));
    assert_eq!((timer.remaining, score.high_score), (1, 0));
    let end = update_time_attack_timer(&mut timer, 16, &mut score, &mut tracker, &mut save);
    assert_eq!(end.next, Some(GameState::GameOver));
    assert!(end.game_over_unlocked);
    assert_eq!((timer.remaining, timer.active), (0, false));
    assert_eq!(score.high_score, 700);
    assert_eq!(tracker.new_unlock, Some(AchievementId::GameOver));
    assert_eq!(save.achievements, vec!["GameOver".to_string()]);
}

#[test]
fn game_results_recorded() {
    let mut save = SaveData::default();
    record_game_result(&mut save, 120, 25_000);
    record_game_result(&mut save, 80, 5_000);
    assert_eq!(save.high_score, 120);
    assert_eq!(save.stats.total_games_played, 2);
    assert_eq!(save.stats.total_score, 200);
    assert_eq!(save.stats.max_difficulty_reached, 3);
}

#[test]
fn obstacle_hits() {
    let config = LifeConfig::default();
    let mut life = PlayerLife::default();
    let mut combo = Combo { count: 4, combo_multiplier: 140, timer: 1_000, max_timer: 2_000 };
    let mut tracker = AchievementTracker::default();
    let mut save = SaveData::default();
    let mut shielded = ActivePowerUps::default();
    shielded.has_shield = true;
    shielded.shield_timer = 4_000;
    shielded.has_magnet = true;
    shielded.magnet_timer = 1_000;
    assert_eq!(
        resolve_obstacle_hit(&mut shielded, &mut life, &config, &mut combo, &mut tracker, &mut save),
        HitOutcome::Blocked
    );
    assert_eq!((life.lives, combo.count), (3, 4));
    assert_eq!((shielded.has_shield, shielded.shield_timer), (false, 0));
    assert_eq!((shielded.has_magnet, shielded.magnet_timer), (true, 1_000));
    assert_eq!(
        resolve_obstacle_hit(&mut shielded, &mut life, &config, &mut combo, &mut tracker, &mut save),
        HitOutcome::Damaged { game_over: false, first_blood: true }
    );
    assert_eq!((life.lives, combo.count, combo.combo_multiplier), (2, 0, 100));
    assert!(life.is_invincible);
    assert_eq!(life.invincibility_timer, 2_000);
    assert_eq!(tracker.new_unlock, Some(AchievementId::FirstBlood));
    let mut none = ActivePowerUps::default();
    assert_eq!(
        resolve_obstacle_hit(&mut none, &mut life, &config, &mut combo, &mut tracker, &mut save),
        HitOutcome::Damaged { game_over: false, first_blood: false }
    );
    assert_eq!(life.lives, 2);
    assert!(update_invincibility(&mut life, 1_999));
    assert!(!update_invincibility(&mut life, 1));
    resolve_obstacle_hit(&mut none, &mut life, &config, &mut combo, &mut tracker, &mut save);
    update_invincibility(&mut life, 2_000);
    assert_eq!(
        resolve_obstacle_hit(&mut none, &mut life, &config, &mut combo, &mut tracker, &mut save),
        HitOutcome::Damaged { game_over: true, first_blood: false }
    );
    assert!(!life.is_invincible);
    reset_life(&mut life, &config);
    assert_eq!((life.lives, life.is_invincible), (3, false));
}

#[test]
fn countdowns_at_the_bottom_of_the_range() {
    let mut life = PlayerLife { lives: 3, is_invincible: true, invincibility_timer: i64::MIN + 5 };
    assert!(!update_invincibility(&mut life, 1_000));
    assert_eq!(life.invincibility_timer, i64::MIN);
    let mut combo = Combo { count: 2, combo_multiplier: 120, timer: i64::MIN, max_timer: 2_000 };
    assert!(!update_combo_timer(&mut combo, 16));
    assert_eq!((combo.count, combo.timer), (0, 0));
    let mut active = ActivePowerUps::default();
    active.has_nitro = true;
    active.nitro_timer = i64::MIN + 1;
    assert!(!update_active_powerups(&mut active, 100));
    assert_eq!((active.has_nitro, active.nitro_timer), (false, i64::MIN));
    assert_eq!(count_down(-10, 5), -15);
    assert_eq!(count_down(i64::MIN, 1), i64::MIN);
}

#[test]
fn obstacle_motion() {
    assert!(is_dodged(-250_001, -220_000));
    assert!(!is_dodged(-250_000, -220_000));
    assert_eq!(obstacle_speed(250_000, 100, false), 250_000);
    assert_eq!(obstacle_speed(250_000, 115, true), 143_750);
    assert_eq!(adjusted_spawn_interval(1_500, 30), 450);
    assert_eq!(obstacle_half_size(CarType::Truck), FixedVec2::new(21_000, 35_000));
    assert_eq!(obstacle_spawn_half_range(300_000, CarType::Sedan), 132_500);
    assert_eq!(scaled_speed(200_000, 160), 320_000);
}

#[test]
fn player_motion() {
    assert_eq!(steering_direction(true, true), -1);
    assert_eq!(steering_direction(false, true), 1);
    assert_eq!(steering_direction(false, false), 0);
    assert_eq!(move_player(0, 1, 100, 16, 300_000, 40_000, false, 50), 4_800);
    assert_eq!(move_player(125_000, 1, 100, 16, 300_000, 40_000, false, 50), 129_800);
    assert_eq!(move_player(127_000, 1, 100, 16, 300_000, 40_000, false, 50), 130_000);
    assert_eq!(move_player(-7, 0, 100, 16, 300_000, 40_000, true, 50), -7);
    assert_eq!(move_player(0, 1, 100, 16, 300_000, 40_000, true, 50), 7_200);
    assert_eq!(move_player(0, -1, 115, 10, 300_000, 40_000, true, 50), -5_175);
    assert_eq!(move_player(0, 1, u64::MAX, u32::MAX, 300_000, 40_000, true, u32::MAX), 130_000);
    assert_eq!(move_player(0, -1, u64::MAX, u32::MAX, 300_000, 40_000, true, u32::MAX), -130_000);
    let config = PlayerConfig::default();
    assert_eq!(player_half_extents(&config, false), FixedVec2::new(20_000, 30_000));
    assert_eq!(player_half_extents(&config, true), FixedVec2::new(10_000, 15_000));
}

#[test]
fn cars() {
    assert_eq!(car_type_for_index(2), CarType::Truck);
    assert_eq!(CarType::Suv.hitbox_size(), FixedVec2::new(38_500, 60_000));
    assert_eq!(CarType::Sports.base_color(), [60, 20, 70, 100]);
    assert_eq!(CarType::Sedan.size_multiplier(), FixedVec2::new(100, 100));
    assert_eq!(paint_color(CarPaint::Shade, CarType::Truck), (63, 35, 7, 100));
    assert_eq!(paint_color(CarPaint::Body, CarType::Suv), (20, 60, 20, 100));
    let pixels = obstacle_car_pixels(CarType::Sedan);
    assert_eq!(pixels.len(), 37);
    assert_eq!(pixels[0], ArtPixel { x: -4, y: 5, r: 56, g: 14, b: 14, a: 100 });
    assert_eq!(pixels[1], ArtPixel { x: -2, y: 5, r: 80, g: 20, b: 20, a: 100 });
    assert_eq!(pixels[28], ArtPixel { x: -2, y: 3, r: 30, g: 50, b: 70, a: 100 });
    assert_eq!(pixels[36], ArtPixel { x: 4, y: -5, r: 100, g: 30, b: 30, a: 100 });
}

#[test]
fn volumes_and_text() {
    let settings = GameSettings::default();
    assert_eq!(music_volume(&settings), 4_000);
    assert_eq!(effects_volume(&settings), 5_600);
    assert_eq!(mixed_volume(100, 100), 10_000);
    assert_eq!(labeled_number("Score: ", 0), "Score: 0");
    assert_eq!(labeled_number("Best: ", 1_234_567), "Best: 1234567");
    assert!(equals_ignoring_ascii_case("NoRmAl", "normal"));
    assert!(!equals_ignoring_ascii_case("normal", "norma"));
}
