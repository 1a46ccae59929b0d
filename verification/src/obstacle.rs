use vstd::prelude::*;
use crate::game::{Combo, combo_multiplier_for, combo_wf};
use crate::geometry::{FixedVec2, boxes_intersect, boxes_overlap, half_length, half_of};
use crate::graphics::{BASE_HITBOX_HEIGHT, BASE_HITBOX_WIDTH, CarType, size_multiplier_of};
use crate::life::{LifeConfig, PlayerLife, handle_collision, lives_after_hit};
use crate::achievement::{AchievementId, AchievementTracker, record_collision, texts, tracker_wf, unlock_step};
use crate::save::SaveData;
use crate::powerup::ActivePowerUps;
use crate::road::{div_toward_zero, scaled_speed};

verus! {

/// Obstacle settings: sizes in thousandths of a pixel, speed in thousandths
/// of a pixel per second, spawn interval in milliseconds.
pub struct ObstacleConfig {
    pub width: i64,
    pub height: i64,
    pub speed: i64,
    pub spawn_interval: u64,
}

impl Default for ObstacleConfig {
    fn default() -> (c: Self)
        ensures
            c.width == 35000,
            c.height == 50000,
            c.speed == 250000,
            c.spawn_interval == 1500,
    {
        ObstacleConfig { width: 35000, height: 50000, speed: 250000, spawn_interval: 1500 }
    }
}

/// How far below the player, in thousandths of a pixel, an obstacle must be
/// to count as dodged.
pub const DODGE_MARGIN: i64 = 30000;

/// Whether two axis-aligned boxes, given by centre and half extents,
/// overlap; touching edges do not count.
pub fn check_aabb_collision(pos_a: FixedVec2, half_size_a: FixedVec2, pos_b: FixedVec2, half_size_b: FixedVec2) -> (hit: bool)
    ensures
        hit == boxes_overlap(pos_a, half_size_a, pos_b, half_size_b),
{
    boxes_intersect(pos_a, half_size_a, pos_b, half_size_b)
}

/// An obstacle is removed once it is strictly below the bottom of the screen.
pub fn should_despawn_obstacle(y_position: i64, screen_bottom: i64) -> (despawn: bool)
    ensures
        despawn == (y_position < screen_bottom),
{
    y_position < screen_bottom
}

/// An obstacle counts as dodged once it is more than `DODGE_MARGIN` below
/// the player.
pub fn is_dodged(obstacle_y: i64, player_y: i64) -> (dodged: bool)
    ensures
        dodged == (obstacle_y < player_y - DODGE_MARGIN),
{
    (obstacle_y as i128) < (player_y as i128) - (DODGE_MARGIN as i128)
}

/// Adds a dodge to the chain: one more in the count, the multiplier that
/// count gives, and the full time before the chain breaks.
pub fn record_dodge(combo: &mut Combo)
    requires
        old(combo).count < u32::MAX,
    ensures
        final(combo).count == old(combo).count + 1,
        final(combo).combo_multiplier == combo_multiplier_for(final(combo).count as nat),
        final(combo).timer == old(combo).max_timer,
        final(combo).max_timer == old(combo).max_timer,
        combo_wf(*final(combo)),
{
    combo.count = combo.count + 1;
    combo.combo_multiplier = if combo.count >= 20 { 300 } else { 100 + combo.count * 10 };
    combo.timer = combo.max_timer;
}

/// A hit breaks the chain: count 0, multiplier 1.0, timer 0.
pub fn reset_combo_on_collision(combo: &mut Combo)
    ensures
        final(combo).count == 0,
        final(combo).combo_multiplier == 100,
        final(combo).timer == 0,
        final(combo).max_timer == old(combo).max_timer,
        combo_wf(*final(combo)),
{
    combo.count = 0;
    combo.combo_multiplier = 100;
    combo.timer = 0;
}


/// Half extents of an obstacle car's hit box (thousandths of a pixel).
pub fn obstacle_half_size(car: CarType) -> (half: FixedVec2)
    ensures
        half.x == half_of(BASE_HITBOX_WIDTH * size_multiplier_of(car).0 / 100),
        half.y == half_of(BASE_HITBOX_HEIGHT * size_multiplier_of(car).1 / 100),
{
    let size = car.hitbox_size();
    FixedVec2 { x: half_length(size.x), y: half_length(size.y) }
}

/// How far from the road's centre an obstacle car may spawn so that it
/// stays on a road `road_width` wide.
pub fn obstacle_spawn_half_range(road_width: i64, car: CarType) -> (range: i64)
    ensures
        range == half_of(road_width as int) - half_of(BASE_HITBOX_WIDTH * size_multiplier_of(car).0 / 100),
{
    let size = car.hitbox_size();
    half_length(road_width) - half_length(size.x)
}

/// What hitting an obstacle led to.
#[derive(PartialEq, Eq, Structural, Clone, Copy, Debug)]
pub enum HitOutcome {
    /// The shield absorbed the hit and is used up; only the obstacle is
    /// destroyed.
    Blocked,
    /// The player was hit.
    Damaged {
        /// No life is left.
        game_over: bool,
        /// First Blood was unlocked now; the save data is to be written out.
        first_blood: bool,
    },
}

/// Resolves the player hitting an obstacle. A shield that is up blocks this
/// one collision and is then gone; nothing else changes. Otherwise First
/// Blood is unlocked, the chain breaks and the hit goes to the lives: while
/// invincible nothing more happens, else a life is lost and, unless it was
/// the last, a spell of invincibility starts.
pub fn resolve_obstacle_hit(
    active_powerups: &mut ActivePowerUps,
    player_life: &mut PlayerLife,
    life_config: &LifeConfig,
    combo: &mut Combo,
    tracker: &mut AchievementTracker,
    save_data: &mut SaveData,
) -> (outcome: HitOutcome)
    ensures
        old(active_powerups).has_shield ==> outcome == HitOutcome::Blocked
            && *final(active_powerups) == (ActivePowerUps { has_shield: false, shield_timer: 0, ..*old(active_powerups) })
            && *final(player_life) == *old(player_life)
            && *final(combo) == *old(combo)
            && *final(tracker) == *old(tracker)
            && *final(save_data) == *old(save_data),
        !old(active_powerups).has_shield ==> {
            &&& *final(active_powerups) == *old(active_powerups)
            &&& outcome matches HitOutcome::Damaged { game_over, first_blood }
                && first_blood == !old(tracker).unlocked@.contains(AchievementId::FirstBlood)
                && (old(player_life).is_invincible ==> !game_over && *final(player_life) == *old(player_life))
                && (!old(player_life).is_invincible ==> final(player_life).lives == lives_after_hit(old(player_life).lives)
                    && game_over == (final(player_life).lives == 0)
                    && (game_over ==> !final(player_life).is_invincible
                        && final(player_life).invincibility_timer == old(player_life).invincibility_timer)
                    && (!game_over ==> final(player_life).is_invincible
                        && final(player_life).invincibility_timer == life_config.invincibility_duration))
            &&& (final(tracker).unlocked@, texts(final(save_data).achievements@))
                == unlock_step(old(tracker).unlocked@, texts(old(save_data).achievements@), AchievementId::FirstBlood, true)
            &&& final(tracker).new_unlock == (if !old(tracker).unlocked@.contains(AchievementId::FirstBlood) { Some(AchievementId::FirstBlood) } else { old(tracker).new_unlock })
            &&& final(tracker).powerups_collected == old(tracker).powerups_collected
            &&& final(save_data).settings == old(save_data).settings
            &&& final(combo).count == 0
            &&& final(combo).combo_multiplier == 100
            &&& final(combo).timer == 0
            &&& final(combo).max_timer == old(combo).max_timer
        },
        final(save_data).high_score == old(save_data).high_score,
        final(save_data).stats == old(save_data).stats,
        tracker_wf(*old(tracker)) ==> tracker_wf(*final(tracker)),
{
    if active_powerups.has_shield {
        active_powerups.has_shield = false;
        active_powerups.shield_timer = 0;
        return HitOutcome::Blocked;
    }
    let first_blood = record_collision(tracker, save_data);
    reset_combo_on_collision(combo);
    let game_over = handle_collision(player_life, life_config);
    HitOutcome::Damaged { game_over, first_blood }
}

/// Falling speed of obstacles (thousandths of a pixel per second): the base
/// speed scaled by the difficulty's multiplier (percent), halved while
/// Slowdown is in force.
pub fn obstacle_speed(base_speed: i64, speed_multiplier: u64, has_slowdown: bool) -> (speed: i64)
    requires
        i64::MIN <= div_toward_zero(base_speed * speed_multiplier, 100) <= i64::MAX,
    ensures
        speed == (if has_slowdown {
            half_of(div_toward_zero(base_speed * speed_multiplier, 100))
        } else {
            div_toward_zero(base_speed * speed_multiplier, 100)
        }),
{
    let speed = scaled_speed(base_speed, speed_multiplier);
    if has_slowdown { half_length(speed) } else { speed }
}

/// Time between two spawns (milliseconds): the base interval scaled by the
/// difficulty's multiplier (percent), truncated.
pub fn adjusted_spawn_interval(base_interval: u64, multiplier: u64) -> (interval: u64)
    requires
        base_interval * multiplier / 100 <= u64::MAX,
    ensures
        interval == base_interval * multiplier / 100,
{
    assert(base_interval * multiplier <= 0xffff_ffff_ffff_ffff * 0xffff_ffff_ffff_ffff) by (nonlinear_arith)
        requires base_interval <= 0xffff_ffff_ffff_ffff, multiplier <= 0xffff_ffff_ffff_ffff;
    ((base_interval as u128 * multiplier as u128) / 100) as u64
}

} // verus!
