use vstd::prelude::*;
use crate::game_mode::{GameMode, cycle_game_mode, get_mode_lives, next_mode, previous_mode};
use crate::life::{LifeConfig, PlayerLife};
use crate::settings::{GameSettings, difficulty_lives, difficulty_speed_multiplier, difficulty_spawn_interval_multiplier};
use crate::game_mode::mode_name;
use crate::achievement::{AchievementTracker, AchievementId, record_game_over, texts, tracker_wf, unlock_step};
use crate::save::SaveData;
use crate::text::owned;
use crate::timer::count_down;
use vstd::string::StringExecFns;

verus! {

/// The screens of the game.
#[derive(PartialEq, Eq, Structural, Clone, Copy, Debug)]
pub enum GameState {
    Menu,
    Settings,
    Achievements,
    Help,
    Playing,
    Paused,
    GameOver,
}

/// The keys pressed in the current frame.
#[derive(Clone, Copy, Debug)]
pub struct KeyPresses {
    pub arrow_up: bool,
    pub arrow_down: bool,
    pub arrow_left: bool,
    pub arrow_right: bool,
    pub enter: bool,
    pub space: bool,
    pub escape: bool,
    pub key_p: bool,
    pub key_q: bool,
}

/// Score of the running game and best score known.
pub struct Score {
    pub value: u32,
    pub high_score: u32,
}

impl Default for Score {
    fn default() -> (s: Self)
        ensures
            s.value == 0,
            s.high_score == 0,
    {
        Score { value: 0, high_score: 0 }
    }
}

/// Difficulty of the running game.
pub struct Difficulty {
    /// Level, starting at 1.
    pub level: u32,
    /// Speed of the world in percent of the base speed.
    pub speed_multiplier: u64,
    /// Time between spawns in percent of the base interval.
    pub spawn_interval_multiplier: u64,
}

impl Default for Difficulty {
    fn default() -> (d: Self)
        ensures
            d.level == 1,
            d.speed_multiplier == 100,
            d.spawn_interval_multiplier == 100,
    {
        Difficulty { level: 1, speed_multiplier: 100, spawn_interval_multiplier: 100 }
    }
}

/// Chain of consecutive dodges.
pub struct Combo {
    /// Obstacles dodged in a row.
    pub count: u32,
    /// Score multiplier in percent, driven by `count` alone.
    pub combo_multiplier: u32,
    /// Time left before the chain breaks (milliseconds).
    pub timer: i64,
    /// Time a dodge gives the chain (milliseconds).
    pub max_timer: i64,
}

impl Default for Combo {
    fn default() -> (c: Self)
        ensures
            c.count == 0,
            c.combo_multiplier == 100,
            c.timer == 0,
            c.max_timer == 2000,
    {
        Combo { count: 0, combo_multiplier: 100, timer: 0, max_timer: 2000 }
    }
}

/// Clock of the running game (milliseconds).
pub struct GameTimer {
    pub elapsed: u64,
    pub last_difficulty_increase: u64,
}

impl Default for GameTimer {
    fn default() -> (t: Self)
        ensures
            t.elapsed == 0,
            t.last_difficulty_increase == 0,
    {
        GameTimer { elapsed: 0, last_difficulty_increase: 0 }
    }
}

/// Multiplier, in percent, that a chain of `count` dodges gives: ten points
/// per dodge on top of 100, at most 200 more.
pub open spec fn combo_multiplier_for(count: nat) -> nat {
    100 + if count >= 20 { 200 } else { 10 * count }
}

/// A combo whose multiplier is the one its count gives.
pub open spec fn combo_wf(combo: Combo) -> bool {
    combo.combo_multiplier == combo_multiplier_for(combo.count as nat)
}

/// A well-formed combo's multiplier is between 1.0 and 3.0.
pub proof fn lemma_combo_multiplier_bounds(combo: Combo)
    requires
        combo_wf(combo),
    ensures
        100 <= combo.combo_multiplier <= 300,
{
}

/// Number of entries in the main menu.
pub const MENU_OPTION_COUNT: usize = 4;

/// Entry selected after one step up (`direction < 0`) or down from `current`
/// in a menu of `option_count` entries, wrapping around at both ends.
pub open spec fn menu_navigation(current: int, direction: int, option_count: int) -> int {
    if direction < 0 {
        if current == 0 { option_count - 1 } else { current - 1 }
    } else {
        (current + 1) % option_count
    }
}

/// Moves the selection of a menu of `option_count` entries one step up
/// (`direction < 0`) or down, wrapping around at both ends.
pub fn handle_menu_navigation(current: usize, direction: i32, option_count: usize) -> (next: usize)
    requires
        option_count > 0,
        direction >= 0 ==> current < usize::MAX,
    ensures
        next == menu_navigation(current as int, direction as int, option_count as int),
{
    if direction < 0 {
        if current == 0 { option_count - 1 } else { current - 1 }
    } else {
        (current + 1) % option_count
    }
}

/// Menu navigation stays inside the menu, and a step down undoes a step up
/// and the other way round.
pub proof fn lemma_menu_navigation(current: int, option_count: int)
    requires
        option_count > 0,
        0 <= current < option_count,
    ensures
        0 <= menu_navigation(current, 1, option_count) < option_count,
        0 <= menu_navigation(current, -1, option_count) < option_count,
        menu_navigation(menu_navigation(current, 1, option_count), -1, option_count) == current,
        menu_navigation(menu_navigation(current, -1, option_count), 1, option_count) == current,
{
    if current + 1 < option_count {
        vstd::arithmetic::div_mod::lemma_small_mod((current + 1) as nat, option_count as nat);
    } else {
        vstd::arithmetic::div_mod::lemma_mod_self_0(option_count);
    }
    if current == 0 {
        vstd::arithmetic::div_mod::lemma_mod_self_0(option_count);
    } else {
        vstd::arithmetic::div_mod::lemma_small_mod(current as nat, option_count as nat);
    }
}

/// Counts the chain's time down by one frame of `delta_ms` milliseconds and
/// returns whether the chain is still alive. A chain whose time runs out is
/// broken: count 0, multiplier 1.0, timer 0.
pub fn update_combo_timer(combo: &mut Combo, delta_ms: u32) -> (alive: bool)
    ensures
        final(combo).max_timer == old(combo).max_timer,
        old(combo).count == 0 ==> !alive && *final(combo) == *old(combo),
        old(combo).count > 0 ==> alive == (old(combo).timer - delta_ms > 0),
        old(combo).count > 0 && alive ==> final(combo).timer == old(combo).timer - delta_ms
            && final(combo).count == old(combo).count
            && final(combo).combo_multiplier == old(combo).combo_multiplier,
        old(combo).count > 0 && !alive ==> final(combo).timer == 0 && final(combo).count == 0
            && final(combo).combo_multiplier == 100,
        combo_wf(*old(combo)) ==> combo_wf(*final(combo)),
{
    if combo.count > 0 {
        let left = count_down(combo.timer, delta_ms);
        if left <= 0 {
            combo.count = 0;
            combo.combo_multiplier = 100;
            combo.timer = 0;
            return false;
        }
        combo.timer = left;
        return true;
    }
    false
}

/// Level reached after `elapsed` milliseconds when it rises every
/// `interval` milliseconds.
pub open spec fn difficulty_level(elapsed: nat, interval: nat) -> nat {
    if interval == 0 { 1 } else { elapsed / interval + 1 }
}

/// Level reached after `elapsed_ms` milliseconds when it rises every
/// `interval_ms` milliseconds, starting at 1.
pub fn calculate_difficulty_level(elapsed_ms: u64, interval_ms: u64) -> (level: u32)
    requires
        interval_ms > 0 || elapsed_ms == 0,
        interval_ms > 0 ==> elapsed_ms / interval_ms < u32::MAX,
    ensures
        level == difficulty_level(elapsed_ms as nat, interval_ms as nat),
{
    if interval_ms == 0 {
        return 1;
    }
    (elapsed_ms / interval_ms) as u32 + 1
}

/// Speed, in percent, at a level: 15 points more per level above 1.
pub open spec fn speed_multiplier_for_level(level: nat) -> nat {
    (100 + 15 * (level - 1)) as nat
}

/// Spawn interval, in percent, at a level: 10 points less per level above
/// 1, never below 30.
pub open spec fn spawn_interval_for_level(level: nat) -> nat {
    if level >= 8 { 30 } else { (100 - 10 * (level - 1)) as nat }
}

/// Speed multiplier, in percent, of a level.
pub fn calculate_speed_multiplier(level: u32) -> (multiplier: u64)
    requires
        level >= 1,
    ensures
        multiplier == speed_multiplier_for_level(level as nat),
{
    100 + (level as u64 - 1) * 15
}

/// Spawn interval multiplier, in percent, of a level.
pub fn calculate_spawn_interval_multiplier(level: u32) -> (multiplier: u64)
    requires
        level >= 1,
    ensures
        multiplier == spawn_interval_for_level(level as nat),
{
    if level >= 8 {
        30
    } else {
        100 - (level as u64 - 1) * 10
    }
}

/// The world never slows down and spawns never come closer than 30% of the
/// base interval as the level rises.
pub proof fn lemma_difficulty_monotone(a: nat, b: nat)
    requires
        1 <= a <= b,
    ensures
        speed_multiplier_for_level(a) <= speed_multiplier_for_level(b),
        spawn_interval_for_level(a) >= spawn_interval_for_level(b),
        30 <= spawn_interval_for_level(b) <= 100,
        speed_multiplier_for_level(b) >= 100,
{
}

/// Level 1 runs at the base speed and base spawn interval; each level up
/// adds exactly 15 points of speed and takes 10 points off the spawn
/// interval, which stops at 30.
pub proof fn lemma_each_level_step(level: nat)
    requires
        level >= 1,
    ensures
        speed_multiplier_for_level(1) == 100,
        spawn_interval_for_level(1) == 100,
        speed_multiplier_for_level(level + 1) == speed_multiplier_for_level(level) + 15,
        spawn_interval_for_level(level + 1) == (if spawn_interval_for_level(level) - 10 < 30 {
            30
        } else {
            spawn_interval_for_level(level) - 10
        }),
{
}

/// The level rises every ten seconds: it is 1 before ten seconds have gone
/// and one more at each further ten seconds.
pub proof fn lemma_level_every_ten_seconds(elapsed: nat)
    ensures
        elapsed < 10000 ==> difficulty_level(elapsed, 10000) == 1,
        difficulty_level(elapsed + 10000, 10000) == difficulty_level(elapsed, 10000) + 1,
{
    vstd::arithmetic::div_mod::lemma_div_plus_one(elapsed as int, 10000);
}

/// The level never drops as time goes on.
pub proof fn lemma_level_monotone(t1: nat, t2: nat, interval: nat)
    requires
        t1 <= t2,
    ensures
        1 <= difficulty_level(t1, interval) <= difficulty_level(t2, interval),
{
    if interval > 0 {
        vstd::arithmetic::div_mod::lemma_div_is_ordered(t1 as int, t2 as int, interval as int);
    }
}

/// Score earned by time alone: ten points per second, truncated, capped at
/// `u32::MAX`.
pub open spec fn base_score(elapsed: nat) -> nat {
    if elapsed / 100 > u32::MAX { u32::MAX as nat } else { elapsed / 100 }
}

/// Ten points per second of play, truncated.
pub fn calculate_base_score(elapsed_ms: u64) -> (score: u32)
    ensures
        score == base_score(elapsed_ms as nat),
{
    let s = elapsed_ms / 100;
    if s > u32::MAX as u64 { u32::MAX } else { s as u32 }
}

/// Points added when the time score moves from `current` to `base`: the
/// difference times the combo multiplier (percent), doubled by the Double
/// Score power-up, truncated and capped at `u32::MAX`.
pub open spec fn score_increment(base: nat, current: nat, combo_multiplier: nat, has_double_score: bool) -> nat {
    let raw = ((base - current) * combo_multiplier * (if has_double_score { 2nat } else { 1nat })) as nat / 100;
    if raw > u32::MAX { u32::MAX as nat } else { raw }
}

/// Points added when the time score moves from `current_score` to
/// `base_score`.
pub fn calculate_score_increment(
    base_score: u32,
    current_score: u32,
    combo_multiplier: u32,
    has_double_score: bool,
) -> (increment: u32)
    requires
        current_score <= base_score,
    ensures
        increment == score_increment(base_score as nat, current_score as nat, combo_multiplier as nat, has_double_score),
{
    let factor: u128 = if has_double_score { 2 } else { 1 };
    let diff: u128 = (base_score - current_score) as u128;
    assert(diff * (combo_multiplier as u128) <= 0xffff_ffff * 0xffff_ffff) by (nonlinear_arith)
        requires diff <= 0xffff_ffff, combo_multiplier <= 0xffff_ffff;
    assert(diff * (combo_multiplier as u128) * factor <= 2 * 0xffff_ffff * 0xffff_ffff) by (nonlinear_arith)
        requires diff * (combo_multiplier as u128) <= 0xffff_ffff * 0xffff_ffff, factor <= 2;
    let raw: u128 = diff * (combo_multiplier as u128) * factor / 100;
    if raw > u32::MAX as u128 { u32::MAX } else { raw as u32 }
}

/// The Double Score power-up doubles what a score step adds (before
/// truncation), whatever the combo multiplier.
pub proof fn lemma_double_score_doubles(base: nat, current: nat, combo_multiplier: nat)
    requires
        current <= base,
    ensures
        score_increment(base, current, combo_multiplier, true)
            == (if ((base - current) * combo_multiplier * 2) as nat / 100 > u32::MAX { u32::MAX as nat }
                else { ((base - current) * combo_multiplier * 2) as nat / 100 }),
        combo_multiplier == 100 ==> score_increment(base, current, combo_multiplier, false)
            == (if base - current > u32::MAX { u32::MAX as nat } else { (base - current) as nat }),
        score_increment(base, current, combo_multiplier, false) <= score_increment(base, current, combo_multiplier, true),
{
    let d = (base - current) as nat;
    assert(d * combo_multiplier * 1 <= d * combo_multiplier * 2) by (nonlinear_arith);
    vstd::arithmetic::div_mod::lemma_div_is_ordered((d * combo_multiplier * 1) as int, (d * combo_multiplier * 2) as int, 100);
    if combo_multiplier == 100 {
        assert(d * 100 * 1 == d * 100) by (nonlinear_arith);
        vstd::arithmetic::div_mod::lemma_div_multiples_vanish(d as int, 100);
    }
}


/// Entries of the main menu.
#[derive(PartialEq, Eq, Structural, Clone, Copy, Debug)]
pub enum MenuOption {
    Start,
    GameMode,
    HowToPlay,
    Settings,
    Achievements,
}

/// Position of an entry in the main menu.
pub open spec fn menu_option_position(option: MenuOption) -> usize {
    match option {
        MenuOption::Start => 0,
        MenuOption::GameMode => 1,
        MenuOption::Settings => 2,
        MenuOption::Achievements => 3,
        MenuOption::HowToPlay => 4,
    }
}

/// Position of an entry in the main menu.
pub fn menu_option_index(option: MenuOption) -> (index: usize)
    ensures
        index == menu_option_position(option),
{
    match option {
        MenuOption::Start => 0,
        MenuOption::GameMode => 1,
        MenuOption::Settings => 2,
        MenuOption::Achievements => 3,
        MenuOption::HowToPlay => 4,
    }
}

/// Text of a menu entry without the selection marks.
pub open spec fn menu_option_text(option: MenuOption, mode: GameMode) -> Seq<char> {
    match option {
        MenuOption::Start => "Start Game"@,
        MenuOption::GameMode => "Mode: "@ + mode_name(mode),
        MenuOption::Settings => "Settings"@,
        MenuOption::Achievements => "Achievements"@,
        MenuOption::HowToPlay => "How to Play"@,
    }
}

/// Text of a menu entry: framed by "> " and " <" when selected, padded
/// with two spaces on each side otherwise.
pub open spec fn menu_label_text(option: MenuOption, selection: usize, mode: GameMode) -> Seq<char> {
    if menu_option_position(option) == selection {
        "> "@ + menu_option_text(option, mode) + " <"@
    } else {
        "  "@ + menu_option_text(option, mode) + "  "@
    }
}

/// Text of a menu entry, such as "> Start Game <" when it is selected.
pub fn menu_option_label(option: MenuOption, selection: usize, mode: GameMode) -> (label: String)
    ensures
        label@ == menu_label_text(option, selection, mode),
{
    let selected = menu_option_index(option) == selection;
    let mut label = if selected { owned("> ") } else { owned("  ") };
    match option {
        MenuOption::Start => label.append("Start Game"),
        MenuOption::GameMode => {
            label.append("Mode: ");
            label.append(crate::game_mode::get_mode_name(mode));
        },
        MenuOption::Settings => label.append("Settings"),
        MenuOption::Achievements => label.append("Achievements"),
        MenuOption::HowToPlay => label.append("How to Play"),
    }
    if selected {
        label.append(" <");
    } else {
        label.append("  ");
    }
    proof {
        assert(label@ =~= menu_label_text(option, selection, mode));
    }
    label
}

/// Screen the main menu leads to when an entry is confirmed: the game,
/// the settings, the achievements or the help; the mode entry leads nowhere.
pub open spec fn menu_target(selection: int) -> Option<GameState> {
    if selection == 0 { Some(GameState::Playing) }
    else if selection == 2 { Some(GameState::Settings) }
    else if selection == 3 { Some(GameState::Achievements) }
    else if selection == 4 { Some(GameState::Help) }
    else { None }
}

/// Screen the main menu leads to when the entry at `selection` is confirmed.
pub fn menu_confirm_target(selection: usize) -> (target: Option<GameState>)
    ensures
        target == menu_target(selection as int),
{
    if selection == 0 {
        Some(GameState::Playing)
    } else if selection == 2 {
        Some(GameState::Settings)
    } else if selection == 3 {
        Some(GameState::Achievements)
    } else if selection == 4 {
        Some(GameState::Help)
    } else {
        None
    }
}

/// One frame of the main menu: up and down move the selection (wrapping),
/// left and right change the game mode (right wins when both are pressed),
/// Enter or Space confirms the selected entry.
pub fn menu_input(selection: &mut usize, mode: &mut GameMode, keys: &KeyPresses) -> (next: Option<GameState>)
    requires
        keys.arrow_down && !keys.arrow_up ==> *old(selection) < usize::MAX,
    ensures
        ({
            let after_up = if keys.arrow_up {
                menu_navigation(*old(selection) as int, -1, MENU_OPTION_COUNT as int)
            } else {
                *old(selection) as int
            };
            let after_down = if keys.arrow_down {
                menu_navigation(after_up, 1, MENU_OPTION_COUNT as int)
            } else {
                after_up
            };
            &&& *final(selection) == after_down
            &&& *final(mode) == (if keys.arrow_right {
                next_mode(*old(mode))
            } else if keys.arrow_left {
                previous_mode(*old(mode))
            } else {
                *old(mode)
            })
            &&& next == (if keys.enter || keys.space { menu_target(after_down) } else { None })
        }),
{
    if keys.arrow_up {
        *selection = handle_menu_navigation(*selection, -1, MENU_OPTION_COUNT);
    }
    if keys.arrow_down {
        *selection = handle_menu_navigation(*selection, 1, MENU_OPTION_COUNT);
    }
    if keys.arrow_left || keys.arrow_right {
        *mode = cycle_game_mode(*mode, if keys.arrow_right { 1 } else { -1 });
    }
    if keys.enter || keys.space {
        menu_confirm_target(*selection)
    } else {
        None
    }
}

/// Game-over screen: Escape goes to the menu, else Space starts a new game.
pub fn game_over_input(keys: &KeyPresses) -> (next: Option<GameState>)
    ensures
        next == (if keys.escape { Some(GameState::Menu) } else if keys.space { Some(GameState::Playing) } else { None }),
{
    if keys.escape {
        Some(GameState::Menu)
    } else if keys.space {
        Some(GameState::Playing)
    } else {
        None
    }
}

/// While playing: Escape or P pauses.
pub fn pause_input(keys: &KeyPresses) -> (next: Option<GameState>)
    ensures
        next == (if keys.escape || keys.key_p { Some(GameState::Paused) } else { None }),
{
    if keys.escape || keys.key_p {
        Some(GameState::Paused)
    } else {
        None
    }
}

/// While paused: Q quits to the menu, else Escape or P resumes.
pub fn resume_input(keys: &KeyPresses) -> (next: Option<GameState>)
    ensures
        next == (if keys.key_q { Some(GameState::Menu) } else if keys.escape || keys.key_p { Some(GameState::Playing) } else { None }),
{
    if keys.key_q {
        Some(GameState::Menu)
    } else if keys.escape || keys.key_p {
        Some(GameState::Playing)
    } else {
        None
    }
}

/// Help and achievements screens: Escape goes back to the menu.
pub fn back_to_menu_input(keys: &KeyPresses) -> (next: Option<GameState>)
    ensures
        next == (if keys.escape { Some(GameState::Menu) } else { None }),
{
    if keys.escape {
        Some(GameState::Menu)
    } else {
        None
    }
}

/// Advances the clock by one frame of `delta_ms` milliseconds and brings the
/// score up to date: when the time score differs from the score, the
/// difference, scaled by the combo multiplier and doubled by Double Score,
/// is added. Returns whether the score changed. The score must not be ahead
/// of the time score, whose difference would be negative.
pub fn update_score(
    score: &mut Score,
    game_timer: &mut GameTimer,
    combo_multiplier: u32,
    has_double_score: bool,
    delta_ms: u32,
) -> (changed: bool)
    requires
        old(game_timer).elapsed + delta_ms <= u64::MAX,
        old(score).value <= base_score((old(game_timer).elapsed + delta_ms) as nat),
        old(score).value + score_increment(
            base_score((old(game_timer).elapsed + delta_ms) as nat),
            old(score).value as nat,
            combo_multiplier as nat,
            has_double_score,
        ) <= u32::MAX,
    ensures
        final(game_timer).elapsed == old(game_timer).elapsed + delta_ms,
        final(game_timer).last_difficulty_increase == old(game_timer).last_difficulty_increase,
        final(score).high_score == old(score).high_score,
        changed == (base_score(final(game_timer).elapsed as nat) != old(score).value),
        final(score).value == (if changed {
            old(score).value + score_increment(
                base_score(final(game_timer).elapsed as nat),
                old(score).value as nat,
                combo_multiplier as nat,
                has_double_score,
            )
        } else {
            old(score).value as int
        }),
{
    game_timer.elapsed = game_timer.elapsed + delta_ms as u64;
    let base = calculate_base_score(game_timer.elapsed);
    if base != score.value {
        let increment = calculate_score_increment(base, score.value, combo_multiplier, has_double_score);
        score.value = score.value + increment;
        true
    } else {
        false
    }
}

/// Brings the difficulty up to date with the clock: the level rises every
/// ten seconds, and when it changes the speed and spawn multipliers follow
/// it.
pub fn update_difficulty(difficulty: &mut Difficulty, elapsed_ms: u64)
    requires
        elapsed_ms / 10000 < u32::MAX,
    ensures
        ({
            let level = difficulty_level(elapsed_ms as nat, 10000);
            if level != old(difficulty).level {
                &&& final(difficulty).level == level
                &&& final(difficulty).speed_multiplier == speed_multiplier_for_level(level)
                &&& final(difficulty).spawn_interval_multiplier == spawn_interval_for_level(level)
            } else {
                *final(difficulty) == *old(difficulty)
            }
        }),
{
    let level = calculate_difficulty_level(elapsed_ms, 10000);
    if level != difficulty.level {
        difficulty.level = level;
        difficulty.speed_multiplier = calculate_speed_multiplier(level);
        difficulty.spawn_interval_multiplier = calculate_spawn_interval_multiplier(level);
    }
}

/// Resets everything for a new game: score 0 (the best score is kept),
/// level 1 with the difficulty's speed and spawn multipliers, clock and
/// chain at zero, and the lives the mode and difficulty give (Endless: one).
pub fn start_game(
    score: &mut Score,
    difficulty: &mut Difficulty,
    game_timer: &mut GameTimer,
    combo: &mut Combo,
    player_life: &mut PlayerLife,
    life_config: &mut LifeConfig,
    settings: &GameSettings,
    mode: GameMode,
)
    ensures
        final(score).value == 0,
        final(score).high_score == old(score).high_score,
        final(difficulty).level == 1,
        final(difficulty).speed_multiplier == difficulty_speed_multiplier(settings.difficulty),
        final(difficulty).spawn_interval_multiplier == difficulty_spawn_interval_multiplier(settings.difficulty),
        final(game_timer).elapsed == 0,
        final(game_timer).last_difficulty_increase == 0,
        final(combo).count == 0,
        final(combo).combo_multiplier == 100,
        final(combo).timer == 0,
        final(combo).max_timer == old(combo).max_timer,
        combo_wf(*final(combo)),
        final(life_config).max_lives == (if mode == GameMode::Endless { 1 } else { difficulty_lives(settings.difficulty) }),
        final(life_config).invincibility_duration == old(life_config).invincibility_duration,
        final(player_life).lives == final(life_config).max_lives,
        final(player_life).is_invincible == old(player_life).is_invincible,
        final(player_life).invincibility_timer == old(player_life).invincibility_timer,
{
    score.value = 0;
    difficulty.level = 1;
    difficulty.speed_multiplier = settings.difficulty.speed_multiplier();
    difficulty.spawn_interval_multiplier = settings.difficulty.spawn_interval_multiplier();
    game_timer.elapsed = 0;
    game_timer.last_difficulty_increase = 0;
    combo.count = 0;
    combo.combo_multiplier = 100;
    combo.timer = 0;
    life_config.max_lives = get_mode_lives(mode, settings.difficulty.lives());
    player_life.lives = life_config.max_lives;
}

/// The best score becomes the larger of the saved best and this game's score.
pub fn settle_high_score(score: &mut Score, saved_high_score: u32)
    ensures
        final(score).value == old(score).value,
        final(score).high_score == (if old(score).value > saved_high_score { old(score).value } else { saved_high_score }),
        final(score).high_score >= final(score).value,
        final(score).high_score >= saved_high_score,
{
    score.high_score = saved_high_score;
    if score.value > score.high_score {
        score.high_score = score.value;
    }
}

/// Ends a game: settles the best score against the saved one and unlocks
/// Game Over. Returns whether Game Over was unlocked now, in which case the
/// save data is to be written out.
pub fn finish_game(score: &mut Score, tracker: &mut AchievementTracker, save_data: &mut SaveData) -> (unlocked_now: bool)
    ensures
        final(score).value == old(score).value,
        final(score).high_score == (if old(score).value > old(save_data).high_score { old(score).value } else { old(save_data).high_score }),
        unlocked_now == !old(tracker).unlocked@.contains(AchievementId::GameOver),
        (final(tracker).unlocked@, texts(final(save_data).achievements@))
            == unlock_step(old(tracker).unlocked@, texts(old(save_data).achievements@), AchievementId::GameOver, true),
        final(tracker).new_unlock == (if unlocked_now { Some(AchievementId::GameOver) } else { old(tracker).new_unlock }),
        final(tracker).powerups_collected == old(tracker).powerups_collected,
        final(save_data).high_score == old(save_data).high_score,
        final(save_data).stats == old(save_data).stats,
        final(save_data).settings == old(save_data).settings,
        tracker_wf(*old(tracker)) ==> tracker_wf(*final(tracker)),
{
    settle_high_score(score, save_data.high_score);
    record_game_over(tracker, save_data)
}

} // verus!
