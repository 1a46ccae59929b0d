use vstd::prelude::*;
use crate::geometry::{FixedVec2, boxes_intersect, boxes_overlap, half_length, half_of};
use crate::random::{gen_below, thread_rng};
use crate::achievement::{AchievementId, AchievementTracker, record_powerup_collection, texts, tracker_wf, unlock_step};
use crate::save::SaveData;
use crate::timer::{count_down, counted_down};

verus! {

/// Kinds of power-ups.
#[derive(PartialEq, Eq, Structural, Clone, Copy, Debug)]
pub enum PowerUpType {
    /// Blocks one collision, if it comes before the time runs out.
    Shield,
    /// Removes every obstacle at once.
    Clear,
    /// Pulls nearby power-ups toward the player.
    Magnet,
    /// Halves the obstacles' speed.
    Slowdown,
    /// Doubles the points earned.
    DoubleScore,
    /// Halves the player's hit box.
    Shrink,
    /// Faster steering for a while.
    NitroBoost,
}

/// Power-up settings: sizes and ranges in thousandths of a pixel, speed in
/// thousandths of a pixel per second, times in milliseconds, factors in
/// percent.
pub struct PowerUpConfig {
    pub size: i64,
    pub speed: i64,
    pub spawn_interval: u64,
    pub shield_duration: i64,
    pub magnet_duration: i64,
    pub magnet_range: i64,
    pub slowdown_duration: i64,
    pub slowdown_factor: u32,
    pub double_score_duration: i64,
    pub shrink_duration: i64,
    pub shrink_factor: u32,
    pub nitro_duration: i64,
    pub nitro_speed_boost: u32,
}

impl Default for PowerUpConfig {
    fn default() -> (c: Self)
        ensures
            c.size == 30000,
            c.speed == 150000,
            c.spawn_interval == 8000,
            c.shield_duration == 5000,
            c.magnet_duration == 8000,
            c.magnet_range == 150000,
            c.slowdown_duration == 6000,
            c.slowdown_factor == 50,
            c.double_score_duration == 10000,
            c.shrink_duration == 5000,
            c.shrink_factor == 50,
            c.nitro_duration == 3000,
            c.nitro_speed_boost == 50,
    {
        PowerUpConfig {
            size: 30000,
            speed: 150000,
            spawn_interval: 8000,
            shield_duration: 5000,
            magnet_duration: 8000,
            magnet_range: 150000,
            slowdown_duration: 6000,
            slowdown_factor: 50,
            double_score_duration: 10000,
            shrink_duration: 5000,
            shrink_factor: 50,
            nitro_duration: 3000,
            nitro_speed_boost: 50,
        }
    }
}

/// Effects in force and the time each has left (milliseconds).
pub struct ActivePowerUps {
    pub shield_timer: i64,
    pub has_shield: bool,
    pub magnet_timer: i64,
    pub has_magnet: bool,
    pub slowdown_timer: i64,
    pub has_slowdown: bool,
    pub double_score_timer: i64,
    pub has_double_score: bool,
    pub shrink_timer: i64,
    pub has_shrink: bool,
    pub nitro_timer: i64,
    pub has_nitro: bool,
}

impl Default for ActivePowerUps {
    fn default() -> (p: Self)
        ensures
            p == (ActivePowerUps {
                shield_timer: 0,
                has_shield: false,
                magnet_timer: 0,
                has_magnet: false,
                slowdown_timer: 0,
                has_slowdown: false,
                double_score_timer: 0,
                has_double_score: false,
                shrink_timer: 0,
                has_shrink: false,
                nitro_timer: 0,
                has_nitro: false,
            }),
    {
        ActivePowerUps {
            shield_timer: 0,
            has_shield: false,
            magnet_timer: 0,
            has_magnet: false,
            slowdown_timer: 0,
            has_slowdown: false,
            double_score_timer: 0,
            has_double_score: false,
            shrink_timer: 0,
            has_shrink: false,
            nitro_timer: 0,
            has_nitro: false,
        }
    }
}

/// Kind of power-up for a roll in `0..100`: 21 rolls give Shield, 15 each
/// Clear, Magnet, Slowdown and Double Score, 10 Shrink and 9 Nitro Boost
/// (rolls of 100 or more also give Nitro Boost).
pub open spec fn powerup_type_for(roll: int) -> PowerUpType {
    if roll <= 20 { PowerUpType::Shield }
    else if roll <= 35 { PowerUpType::Clear }
    else if roll <= 50 { PowerUpType::Magnet }
    else if roll <= 65 { PowerUpType::Slowdown }
    else if roll <= 80 { PowerUpType::DoubleScore }
    else if roll <= 90 { PowerUpType::Shrink }
    else { PowerUpType::NitroBoost }
}

/// Kind of power-up for a roll.
pub fn powerup_type_for_roll(roll: u32) -> (kind: PowerUpType)
    ensures
        kind == powerup_type_for(roll as int),
{
    if roll <= 20 {
        PowerUpType::Shield
    } else if roll <= 35 {
        PowerUpType::Clear
    } else if roll <= 50 {
        PowerUpType::Magnet
    } else if roll <= 65 {
        PowerUpType::Slowdown
    } else if roll <= 80 {
        PowerUpType::DoubleScore
    } else if roll <= 90 {
        PowerUpType::Shrink
    } else {
        PowerUpType::NitroBoost
    }
}

/// Rolls, out of the hundred in `0..100`, that give a kind of power-up.
pub open spec fn rolls_giving(kind: PowerUpType) -> Set<int> {
    Set::new(|r: int| 0 <= r < 100 && powerup_type_for(r) == kind)
}

/// The odds of each kind of power-up: 21% Shield, 15% each Clear, Magnet,
/// Slowdown and Double Score, 10% Shrink and 9% Nitro Boost.
pub proof fn lemma_powerup_odds()
    ensures
        rolls_giving(PowerUpType::Shield).len() == 21,
        rolls_giving(PowerUpType::Clear).len() == 15,
        rolls_giving(PowerUpType::Magnet).len() == 15,
        rolls_giving(PowerUpType::Slowdown).len() == 15,
        rolls_giving(PowerUpType::DoubleScore).len() == 15,
        rolls_giving(PowerUpType::Shrink).len() == 10,
        rolls_giving(PowerUpType::NitroBoost).len() == 9,
{
    assert(rolls_giving(PowerUpType::Shield) =~= vstd::set_lib::set_int_range(0, 21));
    vstd::set_lib::lemma_int_range(0, 21);
    assert(rolls_giving(PowerUpType::Clear) =~= vstd::set_lib::set_int_range(21, 36));
    vstd::set_lib::lemma_int_range(21, 36);
    assert(rolls_giving(PowerUpType::Magnet) =~= vstd::set_lib::set_int_range(36, 51));
    vstd::set_lib::lemma_int_range(36, 51);
    assert(rolls_giving(PowerUpType::Slowdown) =~= vstd::set_lib::set_int_range(51, 66));
    vstd::set_lib::lemma_int_range(51, 66);
    assert(rolls_giving(PowerUpType::DoubleScore) =~= vstd::set_lib::set_int_range(66, 81));
    vstd::set_lib::lemma_int_range(66, 81);
    assert(rolls_giving(PowerUpType::Shrink) =~= vstd::set_lib::set_int_range(81, 91));
    vstd::set_lib::lemma_int_range(81, 91);
    assert(rolls_giving(PowerUpType::NitroBoost) =~= vstd::set_lib::set_int_range(91, 100));
    vstd::set_lib::lemma_int_range(91, 100);
}

/// A kind of power-up picked by chance with the odds above: whatever came
/// up, it is the kind some roll in `0..100` gives.
pub fn roll_powerup_type() -> (kind: PowerUpType)
    ensures
        exists|r: int| 0 <= r < 100 && kind == powerup_type_for(r),
{
    let mut rng = thread_rng();
    let roll = gen_below(&mut rng, 100);
    powerup_type_for_roll(roll)
}

/// Colour of a power-up as red, green and blue percentages.
pub fn powerup_color(kind: PowerUpType) -> (rgb: (u32, u32, u32))
    ensures
        rgb == (match kind {
            PowerUpType::Shield => (0u32, 80u32, 100u32),
            PowerUpType::Clear => (100, 50, 0),
            PowerUpType::Magnet => (80, 20, 80),
            PowerUpType::Slowdown => (20, 50, 100),
            PowerUpType::DoubleScore => (100, 85, 0),
            PowerUpType::Shrink => (20, 90, 30),
            PowerUpType::NitroBoost => (100, 40, 0),
        }),
{
    match kind {
        PowerUpType::Shield => (0, 80, 100),
        PowerUpType::Clear => (100, 50, 0),
        PowerUpType::Magnet => (80, 20, 80),
        PowerUpType::Slowdown => (20, 50, 100),
        PowerUpType::DoubleScore => (100, 85, 0),
        PowerUpType::Shrink => (20, 90, 30),
        PowerUpType::NitroBoost => (100, 40, 0),
    }
}

/// Whether the player's box and a power-up's box overlap.
pub fn check_powerup_collision(player_pos: FixedVec2, player_half: FixedVec2, powerup_pos: FixedVec2, powerup_half: FixedVec2) -> (hit: bool)
    ensures
        hit == boxes_overlap(player_pos, player_half, powerup_pos, powerup_half),
{
    boxes_intersect(player_pos, player_half, powerup_pos, powerup_half)
}

/// Half extents of the player's box when picking up power-ups (thousandths
/// of a pixel); it ignores Shrink.
pub const PICKUP_HALF_WIDTH: i64 = 20000;
pub const PICKUP_HALF_HEIGHT: i64 = 30000;

/// Whether the player picks up a square power-up of side `size` at
/// `powerup_pos`.
pub fn powerup_reached(player_pos: FixedVec2, powerup_pos: FixedVec2, size: i64) -> (hit: bool)
    ensures
        hit == boxes_overlap(
            player_pos,
            FixedVec2 { x: PICKUP_HALF_WIDTH, y: PICKUP_HALF_HEIGHT },
            powerup_pos,
            FixedVec2 { x: half_of(size as int) as i64, y: half_of(size as int) as i64 },
        ),
{
    let half: i64 = half_length(size);
    boxes_intersect(
        player_pos,
        FixedVec2 { x: PICKUP_HALF_WIDTH, y: PICKUP_HALF_HEIGHT },
        powerup_pos,
        FixedVec2 { x: half, y: half },
    )
}

/// Turns the shield on for `duration` milliseconds.
pub fn activate_shield(active_powerups: &mut ActivePowerUps, duration: i64)
    ensures
        *final(active_powerups) == (ActivePowerUps { has_shield: true, shield_timer: duration, ..*old(active_powerups) }),
{
    active_powerups.has_shield = true;
    active_powerups.shield_timer = duration;
}

/// A timed effect after one frame: its time drops by the frame's length
/// (held at `i64::MIN`, see `counted_down`) and it ends once the time is
/// zero or less; an effect not in force is left alone.
pub open spec fn ticked(active: bool, timer: int, delta_ms: int) -> (bool, int) {
    if active {
        (timer - delta_ms > 0, counted_down(timer, delta_ms))
    } else {
        (false, timer)
    }
}

fn tick(active: bool, timer: i64, delta_ms: u32) -> (next: (bool, i64))
    ensures
        (next.0, next.1 as int) == ticked(active, timer as int, delta_ms as int),
{
    if active {
        let t = count_down(timer, delta_ms);
        (t > 0, t)
    } else {
        (false, timer)
    }
}

/// Counts the shield down by one frame and returns whether it still holds.
pub fn update_shield_timer(active_powerups: &mut ActivePowerUps, delta_ms: u32) -> (shielded: bool)
    ensures
        (final(active_powerups).has_shield, final(active_powerups).shield_timer as int)
            == ticked(old(active_powerups).has_shield, old(active_powerups).shield_timer as int, delta_ms as int),
        shielded == final(active_powerups).has_shield,
        *final(active_powerups) == (ActivePowerUps {
            has_shield: final(active_powerups).has_shield,
            shield_timer: final(active_powerups).shield_timer,
            ..*old(active_powerups)
        }),
{
    let (on, t) = tick(active_powerups.has_shield, active_powerups.shield_timer, delta_ms);
    active_powerups.has_shield = on;
    active_powerups.shield_timer = t;
    on
}

/// Every timed effect after one frame of `delta_ms` milliseconds.
pub open spec fn all_ticked(p: ActivePowerUps, delta_ms: int) -> ActivePowerUps {
    ActivePowerUps {
        has_shield: ticked(p.has_shield, p.shield_timer as int, delta_ms).0,
        shield_timer: ticked(p.has_shield, p.shield_timer as int, delta_ms).1 as i64,
        has_magnet: ticked(p.has_magnet, p.magnet_timer as int, delta_ms).0,
        magnet_timer: ticked(p.has_magnet, p.magnet_timer as int, delta_ms).1 as i64,
        has_slowdown: ticked(p.has_slowdown, p.slowdown_timer as int, delta_ms).0,
        slowdown_timer: ticked(p.has_slowdown, p.slowdown_timer as int, delta_ms).1 as i64,
        has_double_score: ticked(p.has_double_score, p.double_score_timer as int, delta_ms).0,
        double_score_timer: ticked(p.has_double_score, p.double_score_timer as int, delta_ms).1 as i64,
        has_shrink: ticked(p.has_shrink, p.shrink_timer as int, delta_ms).0,
        shrink_timer: ticked(p.has_shrink, p.shrink_timer as int, delta_ms).1 as i64,
        has_nitro: ticked(p.has_nitro, p.nitro_timer as int, delta_ms).0,
        nitro_timer: ticked(p.has_nitro, p.nitro_timer as int, delta_ms).1 as i64,
    }
}

/// Counts every effect down by one frame; returns whether the shield still
/// holds.
pub fn update_active_powerups(active_powerups: &mut ActivePowerUps, delta_ms: u32) -> (shielded: bool)
    ensures
        *final(active_powerups) == all_ticked(*old(active_powerups), delta_ms as int),
        shielded == final(active_powerups).has_shield,
{
    let shielded = update_shield_timer(active_powerups, delta_ms);
    let (on, t) = tick(active_powerups.has_magnet, active_powerups.magnet_timer, delta_ms);
    active_powerups.has_magnet = on;
    active_powerups.magnet_timer = t;
    let (on, t) = tick(active_powerups.has_slowdown, active_powerups.slowdown_timer, delta_ms);
    active_powerups.has_slowdown = on;
    active_powerups.slowdown_timer = t;
    let (on, t) = tick(active_powerups.has_double_score, active_powerups.double_score_timer, delta_ms);
    active_powerups.has_double_score = on;
    active_powerups.double_score_timer = t;
    let (on, t) = tick(active_powerups.has_shrink, active_powerups.shrink_timer, delta_ms);
    active_powerups.has_shrink = on;
    active_powerups.shrink_timer = t;
    let (on, t) = tick(active_powerups.has_nitro, active_powerups.nitro_timer, delta_ms);
    active_powerups.has_nitro = on;
    active_powerups.nitro_timer = t;
    shielded
}

/// Every effect in force counts down by the frame and stays on exactly
/// while time is left; an effect not in force stays off with its time
/// unchanged.
pub proof fn lemma_every_effect_counts_down(p: ActivePowerUps, delta_ms: nat)
    ensures
        ({
            let q = all_ticked(p, delta_ms as int);
            &&& q.has_shield == (p.has_shield && p.shield_timer - delta_ms > 0)
            &&& q.shield_timer == (if p.has_shield { counted_down(p.shield_timer as int, delta_ms as int) } else { p.shield_timer as int })
            &&& q.has_magnet == (p.has_magnet && p.magnet_timer - delta_ms > 0)
            &&& q.magnet_timer == (if p.has_magnet { counted_down(p.magnet_timer as int, delta_ms as int) } else { p.magnet_timer as int })
            &&& q.has_slowdown == (p.has_slowdown && p.slowdown_timer - delta_ms > 0)
            &&& q.slowdown_timer == (if p.has_slowdown { counted_down(p.slowdown_timer as int, delta_ms as int) } else { p.slowdown_timer as int })
            &&& q.has_double_score == (p.has_double_score && p.double_score_timer - delta_ms > 0)
            &&& q.double_score_timer == (if p.has_double_score { counted_down(p.double_score_timer as int, delta_ms as int) } else { p.double_score_timer as int })
            &&& q.has_shrink == (p.has_shrink && p.shrink_timer - delta_ms > 0)
            &&& q.shrink_timer == (if p.has_shrink { counted_down(p.shrink_timer as int, delta_ms as int) } else { p.shrink_timer as int })
            &&& q.has_nitro == (p.has_nitro && p.nitro_timer - delta_ms > 0)
            &&& q.nitro_timer == (if p.has_nitro { counted_down(p.nitro_timer as int, delta_ms as int) } else { p.nitro_timer as int })
        }),
{
}

/// What else picking up a power-up calls for, besides its own effect.
#[derive(PartialEq, Eq, Structural, Clone, Copy, Debug)]
pub enum PickupAction {
    /// Play the shield sound.
    ShieldSound,
    /// Remove every obstacle.
    ClearObstacles,
    /// Nothing more.
    Nothing,
}

/// Effects after picking up a power-up of `kind`: the matching effect is
/// turned on for its full duration; Clear changes no effect.
pub open spec fn after_pickup(p: ActivePowerUps, kind: PowerUpType, c: PowerUpConfig) -> ActivePowerUps {
    match kind {
        PowerUpType::Shield => ActivePowerUps { has_shield: true, shield_timer: c.shield_duration, ..p },
        PowerUpType::Clear => p,
        PowerUpType::Magnet => ActivePowerUps { has_magnet: true, magnet_timer: c.magnet_duration, ..p },
        PowerUpType::Slowdown => ActivePowerUps { has_slowdown: true, slowdown_timer: c.slowdown_duration, ..p },
        PowerUpType::DoubleScore => ActivePowerUps { has_double_score: true, double_score_timer: c.double_score_duration, ..p },
        PowerUpType::Shrink => ActivePowerUps { has_shrink: true, shrink_timer: c.shrink_duration, ..p },
        PowerUpType::NitroBoost => ActivePowerUps { has_nitro: true, nitro_timer: c.nitro_duration, ..p },
    }
}

/// Applies a picked-up power-up and tells what else it calls for: the
/// shield sound for Shield, removing all obstacles for Clear.
pub fn apply_powerup(active_powerups: &mut ActivePowerUps, kind: PowerUpType, config: &PowerUpConfig) -> (action: PickupAction)
    ensures
        *final(active_powerups) == after_pickup(*old(active_powerups), kind, *config),
        action == (match kind {
            PowerUpType::Shield => PickupAction::ShieldSound,
            PowerUpType::Clear => PickupAction::ClearObstacles,
            _ => PickupAction::Nothing,
        }),
{
    match kind {
        PowerUpType::Shield => {
            activate_shield(active_powerups, config.shield_duration);
            PickupAction::ShieldSound
        },
        PowerUpType::Clear => PickupAction::ClearObstacles,
        PowerUpType::Magnet => {
            active_powerups.has_magnet = true;
            active_powerups.magnet_timer = config.magnet_duration;
            PickupAction::Nothing
        },
        PowerUpType::Slowdown => {
            active_powerups.has_slowdown = true;
            active_powerups.slowdown_timer = config.slowdown_duration;
            PickupAction::Nothing
        },
        PowerUpType::DoubleScore => {
            active_powerups.has_double_score = true;
            active_powerups.double_score_timer = config.double_score_duration;
            PickupAction::Nothing
        },
        PowerUpType::Shrink => {
            active_powerups.has_shrink = true;
            active_powerups.shrink_timer = config.shrink_duration;
            PickupAction::Nothing
        },
        PowerUpType::NitroBoost => {
            active_powerups.has_nitro = true;
            active_powerups.nitro_timer = config.nitro_duration;
            PickupAction::Nothing
        },
    }
}

/// A timed effect lasts exactly its duration: after pickup it is in force
/// while the time counted off stays below the duration and ends in the
/// frame that reaches it.
pub proof fn lemma_effect_lasts_duration(duration: int, spent: int, delta_ms: int)
    requires
        0 <= spent,
        0 <= delta_ms,
        spent < duration,
    ensures
        ticked(true, duration - spent, delta_ms).0 == (spent + delta_ms < duration),
{
}


/// A picked-up timed effect is still on after `delta_ms` milliseconds
/// exactly when its full duration is longer: it ends in the frame that uses
/// the duration up. Clear starts no effect.
pub proof fn lemma_picked_effect_lasts_its_duration(p: ActivePowerUps, kind: PowerUpType, c: PowerUpConfig, delta_ms: nat)
    ensures
        ({
            let q = all_ticked(after_pickup(p, kind, c), delta_ms as int);
            match kind {
                PowerUpType::Shield => q.has_shield == (c.shield_duration - delta_ms > 0),
                PowerUpType::Clear => q == all_ticked(p, delta_ms as int),
                PowerUpType::Magnet => q.has_magnet == (c.magnet_duration - delta_ms > 0),
                PowerUpType::Slowdown => q.has_slowdown == (c.slowdown_duration - delta_ms > 0),
                PowerUpType::DoubleScore => q.has_double_score == (c.double_score_duration - delta_ms > 0),
                PowerUpType::Shrink => q.has_shrink == (c.shrink_duration - delta_ms > 0),
                PowerUpType::NitroBoost => q.has_nitro == (c.nitro_duration - delta_ms > 0),
            }
        }),
{
    lemma_every_effect_counts_down(after_pickup(p, kind, c), delta_ms);
}

/// What picking up a power-up led to.
#[derive(PartialEq, Eq, Structural, Clone, Copy, Debug)]
pub struct Pickup {
    /// What else the power-up calls for.
    pub action: PickupAction,
    /// Collector was unlocked now; the save data is to be written out.
    pub collector_unlocked: bool,
}

/// The player picks up a power-up of `kind`: it is counted toward
/// Collector, and its effect starts.
pub fn pick_up_powerup(
    active_powerups: &mut ActivePowerUps,
    kind: PowerUpType,
    config: &PowerUpConfig,
    tracker: &mut AchievementTracker,
    save_data: &mut SaveData,
) -> (pickup: Pickup)
    requires
        old(tracker).powerups_collected < u32::MAX,
    ensures
        *final(active_powerups) == after_pickup(*old(active_powerups), kind, *config),
        pickup.action == (match kind {
            PowerUpType::Shield => PickupAction::ShieldSound,
            PowerUpType::Clear => PickupAction::ClearObstacles,
            _ => PickupAction::Nothing,
        }),
        final(tracker).powerups_collected == old(tracker).powerups_collected + 1,
        pickup.collector_unlocked == (final(tracker).powerups_collected >= 10
            && !old(tracker).unlocked@.contains(AchievementId::Collector)),
        (final(tracker).unlocked@, texts(final(save_data).achievements@))
            == unlock_step(old(tracker).unlocked@, texts(old(save_data).achievements@), AchievementId::Collector,
                final(tracker).powerups_collected >= 10),
        final(tracker).new_unlock == (if pickup.collector_unlocked { Some(AchievementId::Collector) } else { old(tracker).new_unlock }),
        final(save_data).high_score == old(save_data).high_score,
        final(save_data).stats == old(save_data).stats,
        final(save_data).settings == old(save_data).settings,
        tracker_wf(*old(tracker)) ==> tracker_wf(*final(tracker)),
{
    let collector_unlocked = record_powerup_collection(tracker, save_data);
    let action = apply_powerup(active_powerups, kind, config);
    Pickup { action, collector_unlocked }
}

} // verus!
