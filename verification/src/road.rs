use vstd::prelude::*;

verus! {

/// Integer division by a positive number, rounded toward zero.
pub open spec fn div_toward_zero(a: int, b: int) -> int {
    if a >= 0 { a / b } else { -((-a) / b) }
}

/// Vertical position of a scrolling road element after one frame: it moves
/// down by `speed` (thousandths of a pixel per second) over `delta_ms`
/// milliseconds and, once below `loop_threshold`, jumps up by `loop_reset`.
pub open spec fn scrolled_offset(offset: int, speed: int, delta_ms: int, loop_threshold: int, loop_reset: int) -> int {
    let moved = offset - div_toward_zero(speed * delta_ms, 1000);
    if moved < loop_threshold { moved + loop_reset } else { moved }
}

/// Scrolls a road marking, roadside stripe or speed line by one frame.
pub fn calculate_road_line_offset(offset: i64, speed: i64, delta_ms: u32, loop_threshold: i64, loop_reset: i64) -> (new_offset: i64)
    requires
        i64::MIN <= scrolled_offset(offset as int, speed as int, delta_ms as int, loop_threshold as int, loop_reset as int) <= i64::MAX,
    ensures
        new_offset == scrolled_offset(offset as int, speed as int, delta_ms as int, loop_threshold as int, loop_reset as int),
{
    let product: i128 = speed as i128 * delta_ms as i128;
    assert(-0x8000_0000_0000_0000 * 0xffff_ffff <= speed * delta_ms <= 0x7fff_ffff_ffff_ffff * 0xffff_ffff) by (nonlinear_arith)
        requires -0x8000_0000_0000_0000 <= speed <= 0x7fff_ffff_ffff_ffff, 0 <= delta_ms <= 0xffff_ffff;
    let displacement: i128 = if product >= 0 { product / 1000 } else { -((-product) / 1000) };
    let moved: i128 = offset as i128 - displacement;
    if moved < loop_threshold as i128 {
        (moved + loop_reset as i128) as i64
    } else {
        moved as i64
    }
}

/// A base speed (thousandths of a pixel per second) scaled by a multiplier
/// in percent, rounded toward zero.
pub fn scaled_speed(base: i64, multiplier: u64) -> (speed: i64)
    requires
        i64::MIN <= div_toward_zero(base * multiplier, 100) <= i64::MAX,
    ensures
        speed == div_toward_zero(base * multiplier, 100),
{
    let product: i128 = base as i128 * multiplier as i128;
    assert(-0x8000_0000_0000_0000 * 0xffff_ffff_ffff_ffff <= base * multiplier <= 0x7fff_ffff_ffff_ffff * 0xffff_ffff_ffff_ffff) by (nonlinear_arith)
        requires -0x8000_0000_0000_0000 <= base <= 0x7fff_ffff_ffff_ffff, 0 <= multiplier <= 0xffff_ffff_ffff_ffff;
    let scaled: i128 = if product >= 0 { product / 100 } else { -((-product) / 100) };
    scaled as i64
}

} // verus!
