use vstd::prelude::*;
use crate::geometry::{FixedVec2, half_length, half_of};

verus! {

/// Size of the player's car in thousandths of a pixel.
pub struct PlayerConfig {
    pub width: i64,
    pub height: i64,
}

impl Default for PlayerConfig {
    fn default() -> (c: Self)
        ensures
            c.width == 40000,
            c.height == 60000,
    {
        PlayerConfig { width: 40000, height: 60000 }
    }
}

/// Leftmost centre position that keeps the car on the road.
pub open spec fn min_player_x(road_width: int, player_width: int) -> int {
    -half_of(road_width) + half_of(player_width)
}

/// Rightmost centre position that keeps the car on the road.
pub open spec fn max_player_x(road_width: int, player_width: int) -> int {
    half_of(road_width) - half_of(player_width)
}

/// `x` brought into `lo..=hi`.
pub open spec fn clamped(x: int, lo: int, hi: int) -> int {
    if x < lo { lo } else if x > hi { hi } else { x }
}

/// Leftmost and rightmost centre positions that keep a car `player_width`
/// wide on a road `road_width` wide; the range is empty when the car is
/// wider than the road.
pub fn player_x_bounds(road_width: i64, player_width: i64) -> (bounds: (i64, i64))
    ensures
        bounds.0 == min_player_x(road_width as int, player_width as int),
        bounds.1 == max_player_x(road_width as int, player_width as int),
{
    let half_road = half_length(road_width);
    let half_player = half_length(player_width);
    (-half_road + half_player, half_road - half_player)
}

/// Keeps the car's centre on the road, `player_width / 2` away from either
/// edge of a road `road_width` wide and centred on zero.
pub fn clamp_player_position(x: i64, road_width: i64, player_width: i64) -> (clamped_x: i64)
    requires
        min_player_x(road_width as int, player_width as int) <= max_player_x(road_width as int, player_width as int),
    ensures
        clamped_x == clamped(x as int, min_player_x(road_width as int, player_width as int), max_player_x(road_width as int, player_width as int)),
{
    let (lo, hi) = player_x_bounds(road_width, player_width);
    if x < lo {
        lo
    } else if x > hi {
        hi
    } else {
        x
    }
}

/// Clamping keeps a position on the road, leaves a position already on the
/// road alone, and clamping twice is clamping once.
pub proof fn lemma_clamp(x: int, lo: int, hi: int)
    requires
        lo <= hi,
    ensures
        lo <= clamped(x, lo, hi) <= hi,
        lo <= x <= hi ==> clamped(x, lo, hi) == x,
        clamped(clamped(x, lo, hi), lo, hi) == clamped(x, lo, hi),
{
}

/// Steering direction from the arrow keys held down: left wins over right,
/// 0 means no steering.
pub fn steering_direction(left_held: bool, right_held: bool) -> (direction: i32)
    ensures
        direction == (if left_held { -1int } else if right_held { 1int } else { 0int }),
{
    if left_held {
        -1
    } else if right_held {
        1
    } else {
        0
    }
}

/// Distance (thousandths of a pixel) the car steers in `delta_ms`
/// milliseconds: 300 pixels per second times the speed multiplier
/// (percent), which is `3 * speed_multiplier` thousandths of a pixel per
/// millisecond, raised by `nitro_speed_boost` percent while Nitro Boost is
/// in force, truncated.
pub open spec fn steering_step(speed_multiplier: int, delta_ms: int, has_nitro: bool, nitro_speed_boost: int) -> int {
    3 * speed_multiplier * delta_ms * (if has_nitro { 100 + nitro_speed_boost } else { 100 }) / 100
}

/// Without Nitro Boost the car steers `3 * speed_multiplier` thousandths of
/// a pixel per millisecond; Nitro Boost never slows it, and with a boost it
/// steers farther as soon as the boost adds a whole thousandth of a pixel.
pub proof fn lemma_nitro_steers_faster(speed_multiplier: nat, delta_ms: nat, nitro_speed_boost: nat)
    ensures
        steering_step(speed_multiplier as int, delta_ms as int, false, nitro_speed_boost as int)
            == 3 * speed_multiplier * delta_ms,
        steering_step(speed_multiplier as int, delta_ms as int, true, nitro_speed_boost as int)
            >= steering_step(speed_multiplier as int, delta_ms as int, false, nitro_speed_boost as int),
        3 * speed_multiplier * delta_ms * nitro_speed_boost >= 100 ==>
            steering_step(speed_multiplier as int, delta_ms as int, true, nitro_speed_boost as int)
                > steering_step(speed_multiplier as int, delta_ms as int, false, nitro_speed_boost as int),
{
    let plain = 3 * speed_multiplier * delta_ms;
    assert(plain * 100 / 100 == plain) by {
        vstd::arithmetic::div_mod::lemma_div_multiples_vanish(plain as int, 100);
    }
    assert(plain * (100 + nitro_speed_boost) == plain * 100 + plain * nitro_speed_boost) by (nonlinear_arith);
    assert((plain * 100 + plain * nitro_speed_boost) / 100 == plain + (plain * nitro_speed_boost) / 100) by {
        vstd::arithmetic::div_mod::lemma_hoist_over_denominator((plain * nitro_speed_boost) as int, plain as int, 100);
        assert(plain * 100 + plain * nitro_speed_boost == plain * nitro_speed_boost + plain * 100);
    }
    if plain * nitro_speed_boost >= 100 {
        vstd::arithmetic::div_mod::lemma_div_is_ordered(100, (plain * nitro_speed_boost) as int, 100);
    }
}

/// Position of the car after one frame of steering: it moves by
/// `steering_step` in the direction steered and is then kept on the road.
/// Without steering the car stays where it is.
pub fn move_player(
    x: i64,
    direction: i32,
    speed_multiplier: u64,
    delta_ms: u32,
    road_width: i64,
    player_width: i64,
    has_nitro: bool,
    nitro_speed_boost: u32,
) -> (new_x: i64)
    requires
        min_player_x(road_width as int, player_width as int) <= max_player_x(road_width as int, player_width as int),
        -1 <= direction <= 1,
    ensures
        direction == 0 ==> new_x == x,
        direction != 0 ==> new_x == clamped(
            x + direction * steering_step(speed_multiplier as int, delta_ms as int, has_nitro, nitro_speed_boost as int),
            min_player_x(road_width as int, player_width as int),
            max_player_x(road_width as int, player_width as int),
        ),
{
    if direction == 0 {
        return x;
    }
    assert(0 <= 3 * speed_multiplier * delta_ms <= 3 * 0xffff_ffff_ffff_ffff * 0xffff_ffff) by (nonlinear_arith)
        requires 0 <= speed_multiplier <= 0xffff_ffff_ffff_ffff, 0 <= delta_ms <= 0xffff_ffff;
    let base: u128 = 3 * speed_multiplier as u128 * delta_ms as u128;
    let factor: u128 = if has_nitro { 100 + nitro_speed_boost as u128 } else { 100 };
    let ghost step = steering_step(speed_multiplier as int, delta_ms as int, has_nitro, nitro_speed_boost as int);
    assert(step == base * factor / 100);
    let (lo, hi) = player_x_bounds(road_width, player_width);
    assert(direction * step == (if direction < 0 { -step } else { step })) by (nonlinear_arith)
        requires direction == -1 || direction == 1;
    match base.checked_mul(factor) {
        None => {
            assert(step >= 0xffff_ffff_ffff_ffff_ffff_ffff_ffff_ffffint / 100) by {
                vstd::arithmetic::div_mod::lemma_div_is_ordered(
                    0xffff_ffff_ffff_ffff_ffff_ffff_ffff_ffffint, base * factor, 100);
            }
            if direction < 0 { lo } else { hi }
        },
        Some(product) => {
            let s: i128 = (product / 100) as i128;
            let target: i128 = if direction < 0 { x as i128 - s } else { x as i128 + s };
            if target < lo as i128 {
                lo
            } else if target > hi as i128 {
                hi
            } else {
                target as i64
            }
        },
    }
}

/// Half extents of the player's hit box against obstacles: half the car's
/// size, halved again while Shrink is in force.
pub fn player_half_extents(config: &PlayerConfig, has_shrink: bool) -> (half: FixedVec2)
    ensures
        half.x == (if has_shrink { half_of(half_of(config.width as int)) } else { half_of(config.width as int) }),
        half.y == (if has_shrink { half_of(half_of(config.height as int)) } else { half_of(config.height as int) }),
{
    let hx = half_length(config.width);
    let hy = half_length(config.height);
    if has_shrink {
        FixedVec2 { x: half_length(hx), y: half_length(hy) }
    } else {
        FixedVec2 { x: hx, y: hy }
    }
}

} // verus!
