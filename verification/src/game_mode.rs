use vstd::prelude::*;
use crate::timer::count_down;
use crate::game::{GameState, Score, finish_game};
use crate::achievement::{AchievementId, AchievementTracker, texts, tracker_wf, unlock_step};
use crate::save::SaveData;

verus! {

/// Game mode selected in the main menu.
#[derive(PartialEq, Eq, Structural, Clone, Copy, Debug)]
pub enum GameMode {
    /// Lives depend on the difficulty, no time limit.
    Classic,
    /// One life: the first hit ends the game.
    Endless,
    /// Sixty seconds to score as much as possible.
    TimeAttack,
}

/// The mode after `mode` in the menu's cyclic order Classic, Endless, TimeAttack.
pub open spec fn next_mode(mode: GameMode) -> GameMode {
    match mode {
        GameMode::Classic => GameMode::Endless,
        GameMode::Endless => GameMode::TimeAttack,
        GameMode::TimeAttack => GameMode::Classic,
    }
}

/// The mode before `mode` in the menu's cyclic order.
pub open spec fn previous_mode(mode: GameMode) -> GameMode {
    match mode {
        GameMode::Classic => GameMode::TimeAttack,
        GameMode::Endless => GameMode::Classic,
        GameMode::TimeAttack => GameMode::Endless,
    }
}

/// Moves to the previous mode when `direction` is negative and to the next
/// one otherwise, wrapping around.
pub fn cycle_game_mode(mode: GameMode, direction: i32) -> (cycled: GameMode)
    ensures
        cycled == (if direction < 0 { previous_mode(mode) } else { next_mode(mode) }),
{
    if direction < 0 {
        match mode {
            GameMode::Classic => GameMode::TimeAttack,
            GameMode::Endless => GameMode::Classic,
            GameMode::TimeAttack => GameMode::Endless,
        }
    } else {
        match mode {
            GameMode::Classic => GameMode::Endless,
            GameMode::Endless => GameMode::TimeAttack,
            GameMode::TimeAttack => GameMode::Classic,
        }
    }
}

/// Cycling through the modes: one step back undoes one step forward and the
/// other way round, and three steps in one direction come back to the start.
pub proof fn lemma_mode_cycle(mode: GameMode)
    ensures
        previous_mode(next_mode(mode)) == mode,
        next_mode(previous_mode(mode)) == mode,
        next_mode(next_mode(next_mode(mode))) == mode,
        previous_mode(previous_mode(previous_mode(mode))) == mode,
        next_mode(mode) != mode,
{
}

/// The mode currently chosen for the next game.
pub struct CurrentGameMode {
    pub mode: GameMode,
}

impl CurrentGameMode {
    /// Classic mode is chosen until the player picks another one.
    pub fn new() -> (c: Self)
        ensures
            c.mode == GameMode::Classic,
    {
        CurrentGameMode { mode: GameMode::Classic }
    }
}

/// Length of a Time Attack round, in milliseconds.
pub const TIME_ATTACK_LIMIT_MS: i64 = 60000;

/// Countdown of a Time Attack round (milliseconds).
pub struct TimeAttackTimer {
    /// Time left; it is set to zero when the round ends.
    pub remaining: i64,
    /// Length of a full round.
    pub total: i64,
    /// Whether a Time Attack round is running.
    pub active: bool,
}

impl TimeAttackTimer {
    /// A full, inactive countdown.
    pub fn new() -> (t: Self)
        ensures
            t.remaining == TIME_ATTACK_LIMIT_MS,
            t.total == TIME_ATTACK_LIMIT_MS,
            !t.active,
    {
        TimeAttackTimer { remaining: TIME_ATTACK_LIMIT_MS, total: TIME_ATTACK_LIMIT_MS, active: false }
    }
}

/// Display name of a mode.
pub open spec fn mode_name(mode: GameMode) -> Seq<char> {
    match mode {
        GameMode::Classic => "Classic"@,
        GameMode::Endless => "Endless"@,
        GameMode::TimeAttack => "Time Attack"@,
    }
}

/// One-line description of a mode.
pub open spec fn mode_description(mode: GameMode) -> Seq<char> {
    match mode {
        GameMode::Classic => "3 Lives, No Time Limit"@,
        GameMode::Endless => "1 Life, One Hit = Game Over"@,
        GameMode::TimeAttack => "60 Seconds, Max Score"@,
    }
}

/// Display name of a mode.
pub fn get_mode_name(mode: GameMode) -> (name: &'static str)
    ensures
        name@ == mode_name(mode),
{
    match mode {
        GameMode::Classic => "Classic",
        GameMode::Endless => "Endless",
        GameMode::TimeAttack => "Time Attack",
    }
}

/// One-line description of a mode.
pub fn get_mode_description(mode: GameMode) -> (description: &'static str)
    ensures
        description@ == mode_description(mode),
{
    match mode {
        GameMode::Classic => "3 Lives, No Time Limit",
        GameMode::Endless => "1 Life, One Hit = Game Over",
        GameMode::TimeAttack => "60 Seconds, Max Score",
    }
}

/// Lives a game starts with: Endless always gives one, the other modes give
/// what the difficulty gives.
pub fn get_mode_lives(mode: GameMode, difficulty_lives: u32) -> (lives: u32)
    ensures
        lives == (if mode == GameMode::Endless { 1 } else { difficulty_lives }),
{
    match mode {
        GameMode::Endless => 1,
        _ => difficulty_lives,
    }
}

/// Time limit of a mode in milliseconds, if it has one.
pub fn get_mode_time_limit(mode: GameMode) -> (limit: Option<i64>)
    ensures
        limit == (if mode == GameMode::TimeAttack { Some(TIME_ATTACK_LIMIT_MS) } else { None }),
{
    match mode {
        GameMode::TimeAttack => Some(TIME_ATTACK_LIMIT_MS),
        _ => None,
    }
}

/// Arms or disarms the countdown when a game starts: a Time Attack game gets
/// a full countdown, any other game none.
pub fn setup_game_mode(timer: &mut TimeAttackTimer, mode: GameMode)
    ensures
        final(timer).active == (mode == GameMode::TimeAttack),
        final(timer).remaining == (if mode == GameMode::TimeAttack { TIME_ATTACK_LIMIT_MS } else { old(timer).remaining }),
        final(timer).total == old(timer).total,
{
    match mode {
        GameMode::TimeAttack => {
            timer.remaining = TIME_ATTACK_LIMIT_MS;
            timer.active = true;
        },
        _ => {
            timer.active = false;
        },
    }
}

/// Stops the countdown when a game is left.
pub fn cleanup_game_mode(timer: &mut TimeAttackTimer)
    ensures
        !final(timer).active,
        final(timer).remaining == old(timer).remaining,
        final(timer).total == old(timer).total,
{
    timer.active = false;
}

/// Advances the countdown alone by one frame of `delta_ms` milliseconds and
/// returns whether the round ended in this frame. An inactive countdown is
/// left alone; one that reaches zero or less is stopped at zero.
pub fn count_down_round(timer: &mut TimeAttackTimer, delta_ms: u32) -> (ended: bool)
    ensures
        final(timer).total == old(timer).total,
        !old(timer).active ==> !ended && *final(timer) == *old(timer),
        old(timer).active ==> ended == (old(timer).remaining - delta_ms <= 0),
        old(timer).active && ended ==> final(timer).remaining == 0 && !final(timer).active,
        old(timer).active && !ended ==> final(timer).remaining == old(timer).remaining - delta_ms && final(timer).active,
{
    if !timer.active {
        return false;
    }
    let left = count_down(timer.remaining, delta_ms);
    if left <= 0 {
        timer.remaining = 0;
        timer.active = false;
        return true;
    }
    timer.remaining = left;
    false
}

/// What a frame of a Time Attack round led to.
#[derive(PartialEq, Eq, Structural, Clone, Copy, Debug)]
pub struct TimeAttackTick {
    /// The screen to switch to: the game-over screen when time ran out.
    pub next: Option<GameState>,
    /// Game Over was unlocked now; the save data is to be written out.
    pub game_over_unlocked: bool,
}

/// One frame of a Time Attack round. An inactive countdown changes nothing.
/// Otherwise the time left drops by `delta_ms`; when it reaches zero or less
/// the round ends: the countdown stops at zero, the game ends as
/// `finish_game` says (best score settled, Game Over unlocked) and the
/// game-over screen follows.
pub fn update_time_attack_timer(
    timer: &mut TimeAttackTimer,
    delta_ms: u32,
    score: &mut Score,
    tracker: &mut AchievementTracker,
    save_data: &mut SaveData,
) -> (tick: TimeAttackTick)
    ensures
        final(timer).total == old(timer).total,
        !old(timer).active ==> *final(timer) == *old(timer),
        ({
            let ended = old(timer).active && old(timer).remaining - delta_ms <= 0;
            &&& old(timer).active && !ended ==> final(timer).remaining == old(timer).remaining - delta_ms
                && final(timer).active
            &&& !ended ==> tick.next.is_none() && !tick.game_over_unlocked
                && *final(score) == *old(score)
                && *final(tracker) == *old(tracker)
                && *final(save_data) == *old(save_data)
            &&& ended ==> {
                &&& final(timer).remaining == 0
                &&& !final(timer).active
                &&& tick.next == Some(GameState::GameOver)
                &&& final(score).value == old(score).value
                &&& final(score).high_score == (if old(score).value > old(save_data).high_score {
                    old(score).value
                } else {
                    old(save_data).high_score
                })
                &&& tick.game_over_unlocked == !old(tracker).unlocked@.contains(AchievementId::GameOver)
                &&& (final(tracker).unlocked@, texts(final(save_data).achievements@))
                    == unlock_step(old(tracker).unlocked@, texts(old(save_data).achievements@), AchievementId::GameOver, true)
                &&& final(tracker).new_unlock == (if tick.game_over_unlocked { Some(AchievementId::GameOver) } else { old(tracker).new_unlock })
                &&& final(tracker).powerups_collected == old(tracker).powerups_collected
                &&& final(save_data).high_score == old(save_data).high_score
                &&& final(save_data).stats == old(save_data).stats
                &&& final(save_data).settings == old(save_data).settings
            }
        }),
        tracker_wf(*old(tracker)) ==> tracker_wf(*final(tracker)),
{
    if count_down_round(timer, delta_ms) {
        let unlocked = finish_game(score, tracker, save_data);
        TimeAttackTick { next: Some(GameState::GameOver), game_over_unlocked: unlocked }
    } else {
        TimeAttackTick { next: None, game_over_unlocked: false }
    }
}

} // verus!
